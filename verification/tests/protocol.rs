use gleam_lsp::lsp::{uri_to_module_name, Position, Range, Url};
use gleam_lsp::table::Table;
use gleam_lsp::text::{owned, str_eq};

fn uri(text: &str) -> Url {
    Url::parse(text).expect("a URL")
}

#[test]
fn url_parse_gives_text_and_path() {
    let url = uri("file:///home/me/project/src/app.gleam");
    assert_eq!(url.as_str(), "file:///home/me/project/src/app.gleam");
    assert_eq!(url.path(), "/home/me/project/src/app.gleam");
    assert_eq!(url.copy(), url);
}

#[test]
fn url_parse_normalises_what_it_is_given() {
    let url = uri("FILE:///home/me/a%20b/../src/app.gleam?x=1#top");
    assert_eq!(url.as_str(), "file:///home/me/src/app.gleam?x=1#top");
    assert_eq!(url.path(), "/home/me/src/app.gleam");
    let spaced = uri("file:///home/me/my project/app.gleam");
    assert_eq!(spaced.path(), "/home/me/my%20project/app.gleam");
}

#[test]
fn url_parse_refuses_what_is_no_url() {
    assert_eq!(Url::parse("not a url"), None);
    assert_eq!(Url::parse(""), None);
    assert_eq!(Url::parse("/home/me/project"), None);
}

#[test]
fn url_from_file_path() {
    let url = Url::from_file_path("home/me/project/src/app.gleam").expect("a URL");
    assert_eq!(url.as_str(), "file:///home/me/project/src/app.gleam");
    assert_eq!(url.path(), "/home/me/project/src/app.gleam");
    let rooted = Url::from_file_path("/home/me/project/src/app.gleam").expect("a URL");
    assert_eq!(rooted.as_str(), "file:///home/me/project/src/app.gleam");
    assert_eq!(rooted.path(), "/home/me/project/src/app.gleam");
}

#[test]
fn module_name_of_project_files() {
    let root = "/home/me/project";
    let name = |text: &str| uri_to_module_name(&uri(text), root);
    assert_eq!(name("file:///home/me/project/src/app.gleam"), Some("app".to_string()));
    assert_eq!(
        name("file:///home/me/project/src/app/web/router.gleam"),
        Some("app/web/router".to_string())
    );
    assert_eq!(
        name("file:///home/me/project/test/app_test.gleam"),
        Some("app_test".to_string())
    );
}

#[test]
fn module_name_of_files_that_are_no_modules() {
    let root = "/home/me/project";
    let name = |text: &str| uri_to_module_name(&uri(text), root);
    assert_eq!(name("file:///home/me/other/src/app.gleam"), None);
    assert_eq!(name("file:///home/me/project2/src/app.gleam"), None);
    assert_eq!(name("file:///home/me/project/src/app.erl"), None);
    assert_eq!(name("file:///home/me/project/app.gleam"), None);
    assert_eq!(name("file:///home/me/project"), None);
    assert_eq!(name("file:///home/me"), None);
    assert_eq!(name("file:///"), None);
}

#[test]
fn module_name_with_a_root_that_ends_in_a_slash() {
    assert_eq!(
        uri_to_module_name(&uri("file:///home/me/project/src/app.gleam"), "/home/me/project/"),
        Some("app".to_string())
    );
    assert_eq!(
        uri_to_module_name(&uri("file:///src/app.gleam"), "/"),
        Some("app".to_string())
    );
    assert_eq!(
        uri_to_module_name(&uri("file:///src/app.gleam"), ""),
        Some("app".to_string())
    );
}

#[test]
fn module_name_beyond_ascii() {
    assert_eq!(
        uri_to_module_name(&uri("file:///p/src/caf%C3%A9.gleam"), "/p"),
        Some("caf%C3%A9".to_string())
    );
}

#[test]
fn positions_and_ranges() {
    let range = Range::new(Position::new(1, 2), Position::new(3, 4));
    assert_eq!(range.start, Position { line: 1, character: 2 });
    assert_eq!(range.end, Position { line: 3, character: 4 });
}

#[test]
fn text_equality_and_copies() {
    assert!(str_eq("", ""));
    assert!(str_eq("caf\u{e9}", "caf\u{e9}"));
    assert!(!str_eq("cafe", "caf\u{e9}"));
    assert!(!str_eq("ab", "abc"));
    assert!(!str_eq("abd", "abc"));
    assert_eq!(owned("text"), "text");
}

#[test]
fn table_keeps_one_value_for_each_key() {
    let mut table: Table<u32> = Table::new();
    assert_eq!(table.len(), 0);
    assert_eq!(table.get("a"), None);
    table.insert("a".to_string(), 1);
    table.insert("b".to_string(), 2);
    table.insert("a".to_string(), 3);
    assert_eq!(table.len(), 2);
    assert_eq!(table.get("a"), Some(&3));
    assert_eq!(table.get("b"), Some(&2));
    assert!(table.contains_key("b"));
    table.remove("a");
    assert_eq!(table.get("a"), None);
    assert_eq!(table.len(), 1);
    table.remove("a");
    assert_eq!(table.len(), 1);
    assert!(!table.contains_key("a"));
}
