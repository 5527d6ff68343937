use gleam_lsp::error::Error;
use gleam_lsp::fs::FileSystemProxy;

fn disk(text: &str) -> Result<String, Error> {
    Ok(text.to_string())
}

fn missing(path: &str) -> Result<String, Error> {
    Err(Error::FileIo {
        path: path.to_string(),
        err: Some("No such file or directory".to_string()),
    })
}

#[test]
fn read_goes_to_disk_without_unsaved_text() {
    let files = FileSystemProxy::new();
    assert_eq!(files.read("/p/src/a.gleam", disk("on disk")), disk("on disk"));
    assert_eq!(files.read_mem_cache("/p/src/a.gleam"), None);
}

#[test]
fn unsaved_text_stands_in_front_of_the_disk() {
    let mut files = FileSystemProxy::new();
    files.write_mem_cache("/p/src/a.gleam", "first");
    assert_eq!(files.read("/p/src/a.gleam", disk("on disk")), disk("first"));
    files.write_mem_cache("/p/src/a.gleam", "second");
    assert_eq!(files.read("/p/src/a.gleam", disk("on disk")), disk("second"));
    assert_eq!(
        files.read("/p/src/a.gleam", missing("/p/src/a.gleam")),
        disk("second")
    );
    assert_eq!(files.read("/p/src/b.gleam", disk("other")), disk("other"));
}

#[test]
fn delete_falls_back_to_disk() {
    let mut files = FileSystemProxy::new();
    files.write_mem_cache("/p/src/a.gleam", "edited");
    files.write_mem_cache("/p/src/b.gleam", "kept");
    files.delete_mem_cache("/p/src/a.gleam");
    assert_eq!(files.read("/p/src/a.gleam", disk("on disk")), disk("on disk"));
    assert_eq!(files.read("/p/src/b.gleam", disk("on disk")), disk("kept"));
}

#[test]
fn delete_of_what_is_not_there_is_no_error() {
    let mut files = FileSystemProxy::new();
    files.delete_mem_cache("/p/src/a.gleam");
    files.delete_mem_cache("/p/src/a.gleam");
    assert_eq!(files, FileSystemProxy::new());
}

#[test]
fn read_fails_only_when_neither_has_the_file() {
    let mut files = FileSystemProxy::new();
    assert_eq!(
        files.read("/p/src/a.gleam", missing("/p/src/a.gleam")),
        missing("/p/src/a.gleam")
    );
    files.write_mem_cache("/p/src/a.gleam", "");
    assert_eq!(files.read("/p/src/a.gleam", missing("/p/src/a.gleam")), disk(""));
}

#[test]
fn writing_twice_is_writing_once() {
    let mut once = FileSystemProxy::new();
    once.write_mem_cache("/p/src/a.gleam", "text");
    let mut twice = FileSystemProxy::new();
    twice.write_mem_cache("/p/src/a.gleam", "text");
    twice.write_mem_cache("/p/src/a.gleam", "text");
    assert_eq!(once, twice);
}

#[test]
fn error_diagnostics() {
    let unreadable = Error::FileIo {
        path: "/p/src/a.gleam".to_string(),
        err: Some("Permission denied".to_string()),
    }
    .to_diagnostic();
    assert_eq!(unreadable.title, "File IO failure");
    assert_eq!(
        unreadable.text,
        "An error occurred while trying to read this file:\n\n    /p/src/a.gleam\n\nThe error message from the file IO library was:\n\n    Permission denied\n"
    );
    assert_eq!(unreadable.location, None);
    assert_eq!(unreadable.hint, None);

    let silent = Error::FileIo {
        path: "/p/src/a.gleam".to_string(),
        err: None,
    }
    .to_diagnostic();
    assert_eq!(
        silent.text,
        "An error occurred while trying to read this file:\n\n    /p/src/a.gleam\n"
    );

    let unformatted = Error::Format {
        path: "/p/src/a.gleam".to_string(),
        problem: "I was not expecting this".to_string(),
    }
    .to_diagnostic();
    assert_eq!(unformatted.title, "Format failure");
    assert_eq!(
        unformatted.text,
        "This file could not be formatted:\n\n    /p/src/a.gleam\n\nI was not expecting this"
    );
}
