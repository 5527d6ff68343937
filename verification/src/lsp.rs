//! The values that an editor and the language server pass each other.
//! Positions count lines and code points from 0.

use crate::text::owned;
use vstd::prelude::*;
use vstd::string::*;

verus! {

/// What parsing a text as a URL gives: the URL written out in full and its
/// path component, or nothing where the text is no URL.
pub uninterp spec fn parsed_url(input: Seq<char>) -> Option<(Seq<char>, Seq<char>)>;

/// `lsp_types::Url::parse`, with `as_str` and `path` of the URL it returns:
/// the result is what `parsed_url` names for the input, and nothing where
/// the parser reports an error.
#[verifier::external_body]
fn parse_url(input: &str) -> (parsed: Option<(String, String)>)
    ensures
        match parsed {
            Some((text, path)) => parsed_url(input@) == Some((text@, path@)),
            None => parsed_url(input@) is None,
        },
{
    match lsp_types::Url::parse(input) {
        Ok(url) => Some((url.as_str().to_string(), url.path().to_string())),
        Err(_) => None,
    }
}

/// The address of a document: a URL that has been parsed.
#[derive(Debug, Clone, PartialEq, Eq)]
pub struct Url {
    text: String,
    path: String,
}

impl Url {
    /// The URL written out in full.
    pub closed spec fn text(&self) -> Seq<char> {
        self.text@
    }

    /// The path component of the URL.
    pub closed spec fn path_text(&self) -> Seq<char> {
        self.path@
    }

    /// Parses a text as a URL.
    pub fn parse(input: &str) -> (url: Option<Url>)
        ensures
            match parsed_url(input@) {
                Some((text, path)) => url matches Some(url) && url.text() == text && url.path_text()
                    == path,
                None => url is None,
            },
    {
        match parse_url(input) {
            Some((text, path)) => Some(Url { text, path }),
            None => None,
        }
    }

    /// The `file` URL of a path on this machine, where that is a URL.
    pub fn from_file_path(path: &str) -> (url: Option<Url>)
        ensures
            match parsed_url("file:///"@ + path@) {
                Some((text, path)) => url matches Some(url) && url.text() == text && url.path_text()
                    == path,
                None => url is None,
            },
    {
        let mut text = String::from_str("file:///");
        text.append(path);
        Url::parse(text.as_str())
    }

    /// The URL written out in full.
    pub fn as_str(&self) -> (text: &str)
        ensures
            text@ == self.text(),
    {
        self.text.as_str()
    }

    /// The path component of the URL.
    pub fn path(&self) -> (path: &str)
        ensures
            path@ == self.path_text(),
    {
        self.path.as_str()
    }

    /// A copy of the URL.
    pub fn copy(&self) -> (url: Url)
        ensures
            url.text() == self.text(),
            url.path_text() == self.path_text(),
    {
        Url { text: self.text.clone(), path: self.path.clone() }
    }
}

/// A place in a document.
#[derive(Debug, Clone, Copy, PartialEq, Eq, Structural)]
pub struct Position {
    pub line: usize,
    pub character: usize,
}

impl Position {
    /// The place at a line and a count of code points into it.
    pub fn new(line: usize, character: usize) -> (position: Position)
        ensures
            position == (Position { line, character }),
    {
        Position { line, character }
    }
}

/// A stretch of a document, from `start` up to `end`.
#[derive(Debug, Clone, Copy, PartialEq, Eq, Structural)]
pub struct Range {
    pub start: Position,
    pub end: Position,
}

impl Range {
    /// The stretch from `start` up to `end`.
    pub fn new(start: Position, end: Position) -> (range: Range)
        ensures
            range == (Range { start, end }),
    {
        Range { start, end }
    }
}

/// A stretch of some document.
#[derive(Debug, Clone, PartialEq, Eq)]
pub struct Location {
    pub uri: Url,
    pub range: Range,
}

/// A change to make to a document: the text to put in place of a range.
#[derive(Debug, Clone, PartialEq, Eq)]
pub struct TextEdit {
    pub range: Range,
    pub new_text: String,
}

/// One proposal of how to complete what is being typed.
#[derive(Debug, Clone, PartialEq, Eq)]
pub struct CompletionItem {
    pub label: String,
    pub documentation: Option<String>,
}

/// What to show for the place the pointer rests on.
#[derive(Debug, Clone, PartialEq, Eq)]
pub struct Hover {
    pub contents: String,
    pub range: Option<Range>,
}

/// Which document is meant.
#[derive(Debug, Clone, PartialEq, Eq)]
pub struct TextDocumentIdentifier {
    pub uri: Url,
}

/// A document with its text.
#[derive(Debug, Clone, PartialEq, Eq)]
pub struct TextDocumentItem {
    pub uri: Url,
    pub text: String,
}

/// A place in a document.
#[derive(Debug, Clone, PartialEq, Eq)]
pub struct TextDocumentPositionParams {
    pub text_document: TextDocumentIdentifier,
    pub position: Position,
}

/// A document was opened.
#[derive(Debug, Clone, PartialEq, Eq)]
pub struct DidOpenTextDocumentParams {
    pub text_document: TextDocumentItem,
}

/// A document was saved.
#[derive(Debug, Clone, PartialEq, Eq)]
pub struct DidSaveTextDocumentParams {
    pub text_document: TextDocumentIdentifier,
}

/// A document was closed.
#[derive(Debug, Clone, PartialEq, Eq)]
pub struct DidCloseTextDocumentParams {
    pub text_document: TextDocumentIdentifier,
}

/// One change of a document's content: the whole text after the change.
#[derive(Debug, Clone, PartialEq, Eq)]
pub struct TextDocumentContentChangeEvent {
    pub text: String,
}

/// A document was changed: the changes, in the order they were made.
#[derive(Debug, Clone, PartialEq, Eq)]
pub struct DidChangeTextDocumentParams {
    pub text_document: TextDocumentIdentifier,
    pub content_changes: Vec<TextDocumentContentChangeEvent>,
}

/// Where is the thing at this place defined?
#[derive(Debug, Clone, PartialEq, Eq)]
pub struct GotoDefinitionParams {
    pub text_document_position_params: TextDocumentPositionParams,
}

/// What is there to show for this place?
#[derive(Debug, Clone, PartialEq, Eq)]
pub struct HoverParams {
    pub text_document_position_params: TextDocumentPositionParams,
}

/// What can be typed at this place?
#[derive(Debug, Clone, PartialEq, Eq)]
pub struct CompletionParams {
    pub text_document_position: TextDocumentPositionParams,
}

/// Format this document.
#[derive(Debug, Clone, PartialEq, Eq)]
pub struct DocumentFormattingParams {
    pub text_document: TextDocumentIdentifier,
}

/// The first place at or after `from` in a path that holds no slash.
pub open spec fn past_slashes(path: Seq<char>, from: int) -> int
    decreases path.len() - from,
{
    if 0 <= from < path.len() && path[from] == '/' {
        past_slashes(path, from + 1)
    } else {
        from
    }
}

/// The first place at or after `from` in a path that holds a slash, or the
/// path's length where there is none.
pub open spec fn next_slash(path: Seq<char>, from: int) -> int
    decreases path.len() - from,
{
    if 0 <= from < path.len() && path[from] != '/' {
        next_slash(path, from + 1)
    } else {
        from
    }
}

/// Whether a path lies under a root directory: it begins with the root, and
/// the root ends where a component of the path ends.
pub open spec fn under_root(path: Seq<char>, root: Seq<char>) -> bool {
    &&& root.len() <= path.len()
    &&& path.subrange(0, root.len() as int) == root
    &&& (root.len() == path.len() || path[root.len() as int] == '/' || (root.len() > 0
        && root.last() == '/'))
}

/// The name of the module kept in the file at `path`, for a project at
/// `root`: what follows the root and one more directory (`src` or `test`),
/// without the `.gleam` it must end in. A path that is not of this form is
/// no module's.
pub open spec fn module_name(path: Seq<char>, root: Seq<char>) -> Option<Seq<char>> {
    if !under_root(path, root) {
        None
    } else {
        let directory = past_slashes(path, root.len() as int);
        let begin = past_slashes(path, next_slash(path, directory));
        let end = path.len() - 6;
        if begin <= end && path.subrange(end, path.len() as int) == seq![
            '.',
            'g',
            'l',
            'e',
            'a',
            'm',
        ] {
            Some(path.subrange(begin, end))
        } else {
            None
        }
    }
}

fn skip_slashes(path: &str, from: usize) -> (at: usize)
    requires
        from <= path@.len(),
    ensures
        at == past_slashes(path@, from as int),
        from <= at <= path@.len(),
{
    let len = path.unicode_len();
    let mut at = from;
    while at < len && path.get_char(at) == '/'
        invariant
            from <= at <= len,
            len == path@.len(),
            past_slashes(path@, from as int) == past_slashes(path@, at as int),
        decreases len - at,
    {
        at += 1;
    }
    at
}

fn find_slash(path: &str, from: usize) -> (at: usize)
    requires
        from <= path@.len(),
    ensures
        at == next_slash(path@, from as int),
        from <= at <= path@.len(),
{
    let len = path.unicode_len();
    let mut at = from;
    while at < len && path.get_char(at) != '/'
        invariant
            from <= at <= len,
            len == path@.len(),
            next_slash(path@, from as int) == next_slash(path@, at as int),
        decreases len - at,
    {
        at += 1;
    }
    at
}

fn is_under_root(path: &str, root: &str) -> (under: bool)
    ensures
        under == under_root(path@, root@),
{
    let len = path.unicode_len();
    let root_len = root.unicode_len();
    if root_len > len {
        return false;
    }
    let mut i: usize = 0;
    while i < root_len
        invariant
            i <= root_len <= len,
            len == path@.len(),
            root_len == root@.len(),
            forall|j: int| 0 <= j < i ==> path@[j] == root@[j],
        decreases root_len - i,
    {
        if path.get_char(i) != root.get_char(i) {
            assert(path@.subrange(0, root@.len() as int)[i as int] != root@[i as int]);
            return false;
        }
        i += 1;
    }
    assert(path@.subrange(0, root@.len() as int) =~= root@);
    root_len == len || path.get_char(root_len) == '/' || (root_len > 0 && root.get_char(
        root_len - 1,
    ) == '/')
}

/// The name of the module kept in the document, for a project at `root`.
pub fn uri_to_module_name(uri: &Url, root: &str) -> (name: Option<String>)
    ensures
        crate::diagnostic::text_of(name) == module_name(uri.path_text(), root@),
{
    let path = uri.path();
    if !is_under_root(path, root) {
        return None;
    }
    let len = path.unicode_len();
    let directory = skip_slashes(path, root.unicode_len());
    let begin = skip_slashes(path, find_slash(path, directory));
    if len < 6 || begin > len - 6 {
        return None;
    }
    let end = len - 6;
    let ends_well = path.get_char(end) == '.' && path.get_char(end + 1) == 'g' && path.get_char(
        end + 2,
    ) == 'l' && path.get_char(end + 3) == 'e' && path.get_char(end + 4) == 'a' && path.get_char(
        end + 5,
    ) == 'm';
    proof {
        let tail = path@.subrange(end as int, len as int);
        let wanted = seq!['.', 'g', 'l', 'e', 'a', 'm'];
        if ends_well {
            assert(tail =~= wanted);
        } else {
            assert(tail[0] == path@[end as int]);
            assert(tail[1] == path@[end + 1]);
            assert(tail[2] == path@[end + 2]);
            assert(tail[3] == path@[end + 3]);
            assert(tail[4] == path@[end + 4]);
            assert(tail[5] == path@[end + 5]);
        }
    }
    if ends_well {
        Some(owned(path.substring_char(begin, end)))
    } else {
        None
    }
}

} // verus!
