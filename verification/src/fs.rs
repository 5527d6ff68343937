//! The files as the editor sees them: what is being edited, unsaved, in
//! front of what is on disk.

use crate::error::Error;
use crate::table::Table;
use crate::text::owned;
use vstd::prelude::*;

verus! {

/// The unsaved texts of the files open in the editor, by path. While a path
/// has a text here, that text is the file, whatever the disk holds.
#[derive(Debug, Clone, PartialEq, Eq)]
pub struct FileSystemProxy {
    cache: Table<String>,
}

/// What the editor did to one document.
pub ghost enum DocumentEvent {
    Opened(Seq<char>),
    Changed(Seq<char>),
    Saved,
    Closed,
}

/// The unsaved texts after the editor did `event` to the document at `path`:
/// opening or changing it puts its text in front of the disk, saving or
/// closing it takes the text away.
pub open spec fn after_event(
    cache: Map<Seq<char>, Seq<char>>,
    path: Seq<char>,
    event: DocumentEvent,
) -> Map<Seq<char>, Seq<char>> {
    match event {
        DocumentEvent::Opened(text) => cache.insert(path, text),
        DocumentEvent::Changed(text) => cache.insert(path, text),
        DocumentEvent::Saved => cache.remove(path),
        DocumentEvent::Closed => cache.remove(path),
    }
}

/// The unsaved texts after a run of events on the document at `path`.
pub open spec fn after_events(
    cache: Map<Seq<char>, Seq<char>>,
    path: Seq<char>,
    events: Seq<DocumentEvent>,
) -> Map<Seq<char>, Seq<char>>
    decreases events.len(),
{
    if events.len() == 0 {
        cache
    } else {
        after_event(after_events(cache, path, events.drop_last()), path, events.last())
    }
}

/// What a read of `path` is answered with from the unsaved texts, if it is:
/// otherwise the read goes to disk.
pub open spec fn unsaved(cache: Map<Seq<char>, Seq<char>>, path: Seq<char>) -> Option<Seq<char>> {
    if cache.contains_key(path) {
        Some(cache[path])
    } else {
        None
    }
}

/// After any run of opening, changing, saving and closing one document, a
/// read of its path gives the text last opened or changed, unless a save or
/// a close came after: then the read goes to disk. Reads of other paths are
/// answered as before the run.
pub proof fn lemma_read_after_events(
    cache: Map<Seq<char>, Seq<char>>,
    path: Seq<char>,
    events: Seq<DocumentEvent>,
    other: Seq<char>,
)
    requires
        events.len() > 0,
        other != path,
    ensures
        unsaved(after_events(cache, path, events), path) == match events.last() {
            DocumentEvent::Opened(text) => Some(text),
            DocumentEvent::Changed(text) => Some(text),
            DocumentEvent::Saved => None,
            DocumentEvent::Closed => None,
        },
        unsaved(after_events(cache, path, events), other) == unsaved(cache, other),
    decreases events.len(),
{
    if events.len() > 1 {
        lemma_read_after_events(cache, path, events.drop_last(), other);
    } else {
        assert(after_events(cache, path, events.drop_last()) == cache);
    }
}

impl View for FileSystemProxy {
    type V = Map<Seq<char>, Seq<char>>;

    /// The unsaved texts by path.
    closed spec fn view(&self) -> Map<Seq<char>, Seq<char>> {
        Map::new(|path: Seq<char>| self.cache@.contains_key(path), |path: Seq<char>| self.cache@[path]@)
    }
}

impl FileSystemProxy {
    /// The invariant of the type: no path has two texts.
    pub closed spec fn wf(&self) -> bool {
        self.cache.wf()
    }

    /// No file is being edited.
    pub fn new() -> (proxy: Self)
        ensures
            proxy.wf(),
            proxy@ == Map::<Seq<char>, Seq<char>>::empty(),
    {
        let proxy = FileSystemProxy { cache: Table::new() };
        assert(proxy@ =~= Map::<Seq<char>, Seq<char>>::empty());
        proxy
    }

    /// Puts a text in front of the file at `path`, in place of any that was
    /// there. The disk is not touched.
    pub fn write_mem_cache(&mut self, path: &str, content: &str)
        requires
            old(self).wf(),
        ensures
            final(self).wf(),
            final(self)@ == old(self)@.insert(path@, content@),
    {
        self.cache.insert(owned(path), owned(content));
        assert(self@ =~= old(self)@.insert(path@, content@));
    }

    /// Takes away the text in front of the file at `path`, if there is one.
    /// The disk is not touched.
    pub fn delete_mem_cache(&mut self, path: &str)
        requires
            old(self).wf(),
        ensures
            final(self).wf(),
            final(self)@ == old(self)@.remove(path@),
    {
        self.cache.remove(path);
        assert(self@ =~= old(self)@.remove(path@));
    }

    /// The unsaved text of the file at `path`, if it has one.
    pub fn read_mem_cache(&self, path: &str) -> (text: Option<String>)
        requires
            self.wf(),
        ensures
            crate::diagnostic::text_of(text) == unsaved(self@, path@),
    {
        match self.cache.get(path) {
            Some(text) => Some(text.clone()),
            None => None,
        }
    }

    /// Reads the file at `path`: its unsaved text if it has one, and else
    /// what the disk gave for it, which comes as `disk`. So the read fails
    /// only where there is no unsaved text and the disk failed.
    pub fn read(&self, path: &str, disk: Result<String, Error>) -> (read: Result<String, Error>)
        requires
            self.wf(),
        ensures
            match unsaved(self@, path@) {
                Some(text) => read matches Ok(found) && found@ == text,
                None => read == disk,
            },
    {
        match self.cache.get(path) {
            Some(text) => Ok(text.clone()),
            None => disk,
        }
    }
}

} // verus!
