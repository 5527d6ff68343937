//! The language server: what it keeps between requests, and what each
//! notification and request of the editor does to it.
//!
//! The server runs no compiler and reads no disk itself. Where a request
//! needs either, its handler says so in what it returns, the host does the
//! work, and hands the outcome to the handler that takes it from there.

use crate::ast::{node_at, Located, Node, SrcSpan, Statement};
use crate::diagnostic::views;
use crate::error::Error;
use crate::feedback::{reported, Feedback, FeedbackBookKeeper};
use crate::fs::{after_event, unsaved, DocumentEvent, FileSystemProxy};
use crate::line_numbers::{column_of, line_of, lines_in, offset_at, LineNumbers};
use crate::lsp::{
    module_name, parsed_url, uri_to_module_name, CompletionItem, CompletionParams,
    DidChangeTextDocumentParams, DidCloseTextDocumentParams, DidOpenTextDocumentParams,
    DidSaveTextDocumentParams, DocumentFormattingParams, GotoDefinitionParams, Hover, HoverParams,
    Location, Position, Range, TextDocumentPositionParams, TextEdit, Url,
};
use crate::module::{Module, Origin};
use crate::table::Table;
use crate::text::{smol_str_as_str, smol_str_text};
use crate::warning::{VectorWarningEmitterIO, Warning, WarningEmitterIO};
use vstd::prelude::*;
use vstd::string::*;
use vstd::utf8::*;

verus! {

/// The configuration of the project that the editor has open.
#[derive(Debug, Clone, PartialEq, Eq)]
pub struct PackageConfig {
    pub name: String,
}

/// The answer to a request: what was asked for, unless the request failed,
/// and what there is to tell besides.
#[derive(Debug, PartialEq, Eq)]
pub struct Response<T> {
    pub payload: Option<T>,
    pub feedback: Feedback,
}

/// What is left to do after a notification was taken in.
#[derive(Debug, PartialEq, Eq)]
pub enum Action {
    /// The project is to be compiled. The host signals that work has begun,
    /// runs the project's compiler if it has one, signals that the work is
    /// over, and hands what the compiler returned to `compile_please`.
    Compile,
    /// Nothing is left to do: this is the feedback for the client.
    Respond(Feedback),
}

/// What is left to do after a request to format a document was taken in.
#[derive(Debug, PartialEq, Eq)]
pub enum Formatting {
    /// The document's text was found: the host runs the formatter on it and
    /// hands the text and what the formatter returned to `formatted`.
    Format { src: String },
    /// The document could not be read: this is the response.
    Respond(Response<Vec<TextEdit>>),
}

/// What the server keeps of the project's compiler: the modules as they
/// were last compiled, by name, and the warnings it has emitted since they
/// were last taken.
#[derive(Debug)]
pub struct LspProjectCompiler {
    pub modules: Table<Module>,
    pub warnings: VectorWarningEmitterIO,
}

impl LspProjectCompiler {
    /// The invariant of the type: no name has two modules, and each module
    /// is kept under its own name.
    pub open spec fn wf(&self) -> bool {
        &&& self.modules.wf()
        &&& forall|name: Seq<char>| #[trigger]
            self.modules@.contains_key(name) ==> self.modules@[name].name@ == name
    }

    /// What a compiler that has compiled nothing yet leaves behind.
    pub fn new() -> (compiler: Self)
        ensures
            compiler.wf(),
            compiler.modules@ == Map::<Seq<char>, Module>::empty(),
            compiler.warnings.warnings@ == Seq::<Warning>::empty(),
    {
        LspProjectCompiler { modules: Table::new(), warnings: VectorWarningEmitterIO::new() }
    }
}

/// The modules kept after a compilation that gave `compiled`: each of them
/// in place of the module of its name, a later one in place of an earlier.
pub open spec fn cached_after(modules: Map<Seq<char>, Module>, compiled: Seq<Module>) -> Map<
    Seq<char>,
    Module,
>
    decreases compiled.len(),
{
    if compiled.len() == 0 {
        modules
    } else {
        cached_after(modules, compiled.drop_last()).insert(compiled.last().name@, compiled.last())
    }
}

/// The paths of the files that a list of modules was read from.
pub open spec fn paths_of(compiled: Seq<Module>) -> Seq<Seq<char>> {
    compiled.map_values(|m: Module| m.input_path@)
}

/// The texts of a list of strings.
pub open spec fn texts(strings: Seq<String>) -> Seq<Seq<char>> {
    strings.map_values(|s: String| s@)
}

/// The source text of a module, as bytes.
pub open spec fn source_of(module: Module) -> Seq<u8> {
    encode_utf8(smol_str_text(module.code))
}

/// The stretch of a text, in lines and columns, that a span of it takes up.
pub open spec fn range_of(text: Seq<u8>, span: SrcSpan) -> Range {
    Range {
        start: Position {
            line: line_of(text, span.start as int) as usize,
            character: column_of(text, span.start as int) as usize,
        },
        end: Position {
            line: line_of(text, span.end as int) as usize,
            character: column_of(text, span.end as int) as usize,
        },
    }
}

/// The stretch that a span takes up in the text that was indexed.
pub fn src_span_to_lsp_range(location: SrcSpan, line_numbers: &LineNumbers) -> (range: Range)
    ensures
        range == range_of(line_numbers@, location),
{
    let start = line_numbers.line_and_column_number(location.start);
    let end = line_numbers.line_and_column_number(location.end);
    Range::new(Position::new(start.line, start.column), Position::new(end.line, end.column))
}

/// The names under which modules can be imported: those of all modules but
/// the project's tests.
pub open spec fn importable(modules: Map<Seq<char>, Module>) -> Set<Seq<char>> {
    Set::new(|name: Seq<char>| modules.contains_key(name) && modules[name].origin != Origin::Test)
}

/// The labels of a list of completion items.
pub open spec fn labels(items: Seq<CompletionItem>) -> Seq<Seq<char>> {
    items.map_values(|item: CompletionItem| item.label@)
}

/// What is shown for an expression of the type printed as `printed`.
pub open spec fn hover_text(printed: Seq<char>) -> Seq<char> {
    "```gleam\n"@ + printed + "\n```"@
}

/// Whether a hover shows what is wanted: the text, over the range.
pub open spec fn shows(hover: Option<Hover>, wanted: Option<(Seq<char>, Range)>) -> bool {
    match wanted {
        Some((contents, range)) => hover matches Some(hover) && hover.contents@ == contents
            && hover.range == Some(range),
        None => hover is None,
    }
}

/// Whether a location points where it is wanted: at the range, in the
/// document whose URL has the text and the path.
pub open spec fn points_at(
    location: Option<Location>,
    wanted: Option<(Seq<char>, Seq<char>, Range)>,
) -> bool {
    match wanted {
        Some((text, path, range)) => location matches Some(location) && location.uri.text() == text
            && location.uri.path_text() == path && location.range == range,
        None => location is None,
    }
}

/// The names of the modules of the packages that the project depends on.
pub open spec fn dependency_names(modules: Map<Seq<char>, Module>) -> Set<Seq<char>> {
    Set::new(
        |name: Seq<char>| modules.contains_key(name) && modules[name].origin == Origin::Dependency,
    )
}

/// The names of the modules of the project's own source.
pub open spec fn source_names(modules: Map<Seq<char>, Module>) -> Set<Seq<char>> {
    Set::new(|name: Seq<char>| modules.contains_key(name) && modules[name].origin == Origin::Src)
}

/// The modules proposed for import are those of the dependencies together
/// with those of the project's source. A module of the project's tests is
/// not among them.
pub proof fn lemma_importable(modules: Map<Seq<char>, Module>, name: Seq<char>)
    ensures
        importable(modules) == dependency_names(modules).union(source_names(modules)),
        modules.contains_key(name) && modules[name].origin == Origin::Test ==> !importable(
            modules,
        ).contains(name),
{
    assert(importable(modules) =~= dependency_names(modules).union(source_names(modules)));
}

/// A compilation that fails leaves the project as it was, and so every
/// answer as it was: what hovering shows, where a definition is found and
/// what completion proposes are the same after it as before, for every
/// document and position.
pub proof fn lemma_failed_compile_keeps_answers(
    before: LanguageServer,
    after: LanguageServer,
    uri: Url,
    position: Position,
    items: Option<Vec<CompletionItem>>,
)
    requires
        before.same_project(&after),
    ensures
        after.located(uri, position) == before.located(uri, position),
        after.hover_at(uri, position) == before.hover_at(uri, position),
        after.definition_at(uri, position) == before.definition_at(uri, position),
        after.completes(uri, position, items) == before.completes(uri, position, items),
{
}

/// No warning is reported twice: a feedback leaves nothing to report, so
/// the next feedback reports the warnings that arrived after the first, and
/// the files compiled after it, and none of those before.
pub proof fn lemma_reported_once(
    before: LanguageServer,
    after: LanguageServer,
    later: LanguageServer,
    arrived: Seq<Warning>,
    compiled: Seq<Seq<char>>,
    error: Option<Error>,
    feedback: Feedback,
)
    requires
        before.drained_to(&after),
        later.warnings() == after.warnings() + arrived,
        later.compiled() == after.compiled() + compiled,
        later.reports(error, feedback),
    ensures
        views(feedback.diagnostics@) == reported(error, arrived),
        texts(feedback.compiled@) == compiled,
{
    assert(after.warnings() + arrived =~= arrived);
    assert(after.compiled() + compiled =~= compiled);
}

/// Hovering over a statement shows nothing. Hovering over an expression
/// shows a text that is not empty.
pub proof fn lemma_hover(server: LanguageServer, uri: Url, position: Position)
    ensures
        match server.located(uri, position) {
            Some(Node::Expression(_)) => server.hover_at(uri, position) matches Some((contents, _))
                && contents.len() > 0,
            Some(Node::Statement(_)) => server.hover_at(uri, position) is None,
            None => server.hover_at(uri, position) is None,
        },
{
    reveal_strlit("```gleam\n");
}

/// The state of the language server between requests.
pub struct LanguageServer {
    /// The absolute path of the project's root directory.
    project_root: String,
    /// What is kept of the project's compiler. It is discarded, with all the
    /// modules it holds, when a new compiler takes its place.
    compiler: Option<LspProjectCompiler>,
    fs_proxy: FileSystemProxy,
    config: Option<PackageConfig>,
    feedback: FeedbackBookKeeper,
    modules_compiled_since_last_feedback: Vec<String>,
}

impl LanguageServer {
    /// The invariant of the server.
    pub closed spec fn wf(&self) -> bool {
        &&& self.fs_proxy.wf()
        &&& self.compiler matches Some(compiler) ==> compiler.wf()
    }

    /// The project's root directory.
    pub closed spec fn root(&self) -> Seq<char> {
        self.project_root@
    }

    /// Whether the editor has a project open.
    pub closed spec fn has_config(&self) -> bool {
        self.config is Some
    }

    /// Whether the project has a compiler.
    pub closed spec fn has_compiler(&self) -> bool {
        self.compiler is Some
    }

    /// The unsaved texts of the files open in the editor, by path.
    pub closed spec fn files(&self) -> Map<Seq<char>, Seq<char>> {
        self.fs_proxy@
    }

    /// The modules as they were last compiled, by name.
    pub closed spec fn modules(&self) -> Map<Seq<char>, Module> {
        match self.compiler {
            Some(compiler) => compiler.modules@,
            None => Map::empty(),
        }
    }

    /// The warnings emitted since the last feedback, oldest first.
    pub closed spec fn warnings(&self) -> Seq<Warning> {
        match self.compiler {
            Some(compiler) => compiler.warnings.warnings@,
            None => Seq::empty(),
        }
    }

    /// The files of the modules compiled since the last feedback.
    pub closed spec fn compiled(&self) -> Seq<Seq<char>> {
        texts(self.modules_compiled_since_last_feedback@)
    }

    /// Whether two states of the server agree on the project: its root,
    /// whether it has a configuration and a compiler, and the modules.
    pub open spec fn same_project(&self, other: &Self) -> bool {
        &&& self.root() == other.root()
        &&& self.has_config() == other.has_config()
        &&& self.has_compiler() == other.has_compiler()
        &&& self.modules() == other.modules()
    }

    /// Whether `after` is the server one feedback later: the project and
    /// the unsaved texts are the same, and nothing is left to report.
    pub open spec fn drained_to(&self, after: &Self) -> bool {
        &&& after.wf()
        &&& self.same_project(after)
        &&& after.files() == self.files()
        &&& after.warnings() == Seq::<Warning>::empty()
        &&& after.compiled() == Seq::<Seq<char>>::empty()
    }

    /// Whether `feedback` reports what this server has to report, with the
    /// diagnostic of `error` in front if there is one: one diagnostic for
    /// each warning emitted since the last feedback, in order, and the files
    /// compiled since then.
    pub open spec fn reports(&self, error: Option<Error>, feedback: Feedback) -> bool {
        &&& views(feedback.diagnostics@) == reported(error, self.warnings())
        &&& texts(feedback.compiled@) == self.compiled()
    }

    /// A server for the project at `project_root`. Where the editor has a
    /// project open, the host has built a compiler for it, and `built` says
    /// how that went: the server is made only if it went well.
    pub fn new(config: Option<PackageConfig>, project_root: String, built: Result<(), Error>) -> (made:
        Result<Self, Error>)
        ensures
            match made {
                Ok(server) => {
                    &&& !(config is Some && built is Err)
                    &&& server.wf()
                    &&& server.root() == project_root@
                    &&& server.has_config() == (config is Some)
                    &&& server.has_compiler() == (config is Some)
                    &&& server.files() == Map::<Seq<char>, Seq<char>>::empty()
                    &&& server.modules() == Map::<Seq<char>, Module>::empty()
                    &&& server.warnings() == Seq::<Warning>::empty()
                    &&& server.compiled() == Seq::<Seq<char>>::empty()
                },
                Err(error) => config is Some && built == Err::<(), Error>(error),
            },
    {
        let mut language_server = Self {
            modules_compiled_since_last_feedback: Vec::new(),
            feedback: FeedbackBookKeeper,
            fs_proxy: FileSystemProxy::new(),
            compiler: None,
            project_root,
            config,
        };
        assert(language_server.compiled() =~= Seq::<Seq<char>>::empty());
        match language_server.create_new_compiler(built) {
            Ok(()) => Ok(language_server),
            Err(error) => Err(error),
        }
    }

    /// Puts a new compiler in place of the old one, where the editor has a
    /// project open: the host has built one, and `built` says how that went.
    /// Where it went well, the modules and warnings kept of the old compiler
    /// are discarded; the unsaved texts stay. Where it failed, or no project
    /// is open, nothing changes.
    pub fn create_new_compiler(&mut self, built: Result<(), Error>) -> (done: Result<(), Error>)
        requires
            old(self).wf(),
        ensures
            final(self).wf(),
            final(self).root() == old(self).root(),
            final(self).has_config() == old(self).has_config(),
            final(self).files() == old(self).files(),
            final(self).compiled() == old(self).compiled(),
            if old(self).has_config() && built is Ok {
                &&& done is Ok
                &&& final(self).has_compiler()
                &&& final(self).modules() == Map::<Seq<char>, Module>::empty()
                &&& final(self).warnings() == Seq::<Warning>::empty()
            } else {
                &&& done == (if old(self).has_config() {
                    built
                } else {
                    Ok(())
                })
                &&& final(self).has_compiler() == old(self).has_compiler()
                &&& final(self).modules() == old(self).modules()
                &&& final(self).warnings() == old(self).warnings()
            },
    {
        if self.config.is_some() {
            match built {
                Ok(()) => {
                    self.compiler = Some(LspProjectCompiler::new());
                },
                Err(error) => {
                    return Err(error);
                },
            }
        }
        Ok(())
    }

    /// Takes in a warning that the compiler has emitted. It is kept until
    /// the next feedback. Without a compiler there is nothing to keep it.
    pub fn emit_warning(&mut self, warning: Warning)
        requires
            old(self).wf(),
        ensures
            final(self).wf(),
            old(self).same_project(final(self)),
            final(self).files() == old(self).files(),
            final(self).compiled() == old(self).compiled(),
            final(self).warnings() == if old(self).has_compiler() {
                old(self).warnings().push(warning)
            } else {
                old(self).warnings()
            },
    {
        match &mut self.compiler {
            Some(compiler) => {
                compiler.warnings.emit_warning(warning);
            },
            None => {},
        }
    }

    /// Hands out the warnings emitted since they were last taken.
    fn take_warnings(&mut self) -> (taken: Vec<Warning>)
        requires
            old(self).wf(),
        ensures
            final(self).wf(),
            old(self).same_project(final(self)),
            final(self).files() == old(self).files(),
            final(self).compiled() == old(self).compiled(),
            taken@ == old(self).warnings(),
            final(self).warnings() == Seq::<Warning>::empty(),
    {
        match &mut self.compiler {
            Some(compiler) => compiler.warnings.take(),
            None => Vec::new(),
        }
    }

    /// Hands out the files of the modules compiled since they were last
    /// taken.
    fn take_compiled(&mut self) -> (taken: Vec<String>)
        requires
            old(self).wf(),
        ensures
            final(self).wf(),
            old(self).same_project(final(self)),
            final(self).files() == old(self).files(),
            final(self).warnings() == old(self).warnings(),
            texts(taken@) == old(self).compiled(),
            final(self).compiled() == Seq::<Seq<char>>::empty(),
    {
        let mut taken: Vec<String> = Vec::new();
        std::mem::swap(&mut self.modules_compiled_since_last_feedback, &mut taken);
        assert(self.compiled() =~= Seq::<Seq<char>>::empty());
        taken
    }

    /// Ends a request: whatever its outcome, the warnings and the compiled
    /// files that have come up since the last feedback are taken out and
    /// reported, so that no later feedback reports them again. A request
    /// that failed has no payload, and its error is the first diagnostic.
    pub fn respond<T>(&mut self, result: Result<T, Error>) -> (response: Response<T>)
        requires
            old(self).wf(),
        ensures
            old(self).drained_to(final(self)),
            match result {
                Ok(payload) => response.payload == Some(payload) && old(self).reports(
                    None,
                    response.feedback,
                ),
                Err(error) => response.payload is None && old(self).reports(
                    Some(error),
                    response.feedback,
                ),
            },
    {
        let warnings = self.take_warnings();
        let modules = self.take_compiled();
        match result {
            Ok(payload) => Response {
                payload: Some(payload),
                feedback: self.feedback.diagnostics(modules, warnings),
            },
            Err(e) => Response {
                payload: None,
                feedback: self.feedback.diagnostics_with_error(e, modules, warnings),
            },
        }
    }

    /// Ends a notification, as `respond` ends a request.
    pub fn notified(&mut self, result: Result<(), Error>) -> (feedback: Feedback)
        requires
            old(self).wf(),
        ensures
            old(self).drained_to(final(self)),
            match result {
                Ok(_) => old(self).reports(None, feedback),
                Err(error) => old(self).reports(Some(error), feedback),
            },
    {
        let warnings = self.take_warnings();
        let modules = self.take_compiled();
        match result {
            Ok(()) => self.feedback.diagnostics(modules, warnings),
            Err(e) => self.feedback.diagnostics_with_error(e, modules, warnings),
        }
    }

    /// Takes in what a run of the compiler returned: `None` where the host
    /// has no compiler to run. The modules of a run that went well are kept
    /// in place of those of their names, and their files are noted for the
    /// next feedback. A run that failed changes nothing: the modules stay as
    /// they were last compiled, and the error is handed back. Without a
    /// compiler nothing is compiled, which is no failure.
    pub fn compile(&mut self, outcome: Option<Result<Vec<Module>, Error>>) -> (done: Result<
        (),
        Error,
    >)
        requires
            old(self).wf(),
        ensures
            final(self).wf(),
            final(self).root() == old(self).root(),
            final(self).has_config() == old(self).has_config(),
            final(self).has_compiler() == old(self).has_compiler(),
            final(self).files() == old(self).files(),
            final(self).warnings() == old(self).warnings(),
            match outcome {
                Some(Ok(compiled)) if old(self).has_compiler() => {
                    &&& done is Ok
                    &&& final(self).modules() == cached_after(old(self).modules(), compiled@)
                    &&& final(self).compiled() == old(self).compiled() + paths_of(compiled@)
                },
                Some(Err(error)) if old(self).has_compiler() => {
                    &&& done == Err::<(), Error>(error)
                    &&& old(self).same_project(final(self))
                    &&& final(self).compiled() == old(self).compiled()
                },
                _ => {
                    &&& done is Ok
                    &&& old(self).same_project(final(self))
                    &&& final(self).compiled() == old(self).compiled()
                },
            },
    {
        let compiled = match outcome {
            Some(outcome) => {
                if self.compiler.is_none() {
                    return Ok(());
                }
                match outcome {
                    Ok(compiled) => compiled,
                    Err(error) => {
                        return Err(error);
                    },
                }
            },
            None => {
                return Ok(());
            },
        };
        let ghost all = compiled@;
        assert(self.compiled() + paths_of(all.take(0)) =~= self.compiled());
        for module in iter: compiled
            invariant
                self.wf(),
                self.has_compiler(),
                self.root() == old(self).root(),
                self.has_config() == old(self).has_config(),
                self.files() == old(self).files(),
                self.warnings() == old(self).warnings(),
                iter.seq() == all,
                self.modules() == cached_after(old(self).modules(), all.take(iter.index() as int)),
                self.compiled() == old(self).compiled() + paths_of(all.take(iter.index() as int)),
        {
            let ghost done = all.take(iter.index() as int);
            let ghost next = all.take(iter.index() + 1);
            assert(next.drop_last() =~= done);
            assert(next.last() == module);
            let ghost noted = self.compiled();
            self.modules_compiled_since_last_feedback.push(module.input_path.clone());
            proof {
                assert(self.compiled() =~= noted.push(module.input_path@));
                assert(paths_of(next) =~= paths_of(done).push(module.input_path@));
                assert(self.compiled() =~= old(self).compiled() + paths_of(next));
            }
            match &mut self.compiler {
                Some(compiler) => {
                    let name = module.name.clone();
                    compiler.modules.insert(name, module);
                },
                None => {},
            }
        }
        assert(all.take(all.len() as int) =~= all);
        Ok(())
    }

    /// Takes in what a run of the compiler returned, and ends the
    /// notification that asked for the run.
    pub fn compile_please(&mut self, outcome: Option<Result<Vec<Module>, Error>>) -> (feedback:
        Feedback)
        requires
            old(self).wf(),
        ensures
            final(self).wf(),
            final(self).root() == old(self).root(),
            final(self).has_config() == old(self).has_config(),
            final(self).has_compiler() == old(self).has_compiler(),
            final(self).files() == old(self).files(),
            final(self).warnings() == Seq::<Warning>::empty(),
            final(self).compiled() == Seq::<Seq<char>>::empty(),
            views(feedback.diagnostics@) == reported(
                match outcome {
                    Some(Err(error)) if old(self).has_compiler() => Some(error),
                    _ => None,
                },
                old(self).warnings(),
            ),
            match outcome {
                Some(Ok(compiled)) if old(self).has_compiler() => {
                    &&& final(self).modules() == cached_after(old(self).modules(), compiled@)
                    &&& texts(feedback.compiled@) == old(self).compiled() + paths_of(compiled@)
                },
                _ => {
                    &&& old(self).same_project(final(self))
                    &&& texts(feedback.compiled@) == old(self).compiled()
                },
            },
    {
        let done = self.compile(outcome);
        self.notified(done)
    }

    /// A document was opened in the editor. It may differ from the file on
    /// disk, so its text goes in front of the file, and the project is to be
    /// compiled.
    pub fn text_document_did_open(&mut self, params: DidOpenTextDocumentParams) -> (action: Action)
        requires
            old(self).wf(),
        ensures
            final(self).wf(),
            old(self).same_project(final(self)),
            final(self).files() == after_event(
                old(self).files(),
                params.text_document.uri.path_text(),
                DocumentEvent::Opened(params.text_document.text@),
            ),
            final(self).warnings() == old(self).warnings(),
            final(self).compiled() == old(self).compiled(),
            action == Action::Compile,
    {
        self.fs_proxy.write_mem_cache(
            params.text_document.uri.path(),
            params.text_document.text.as_str(),
        );
        Action::Compile
    }

    /// A document was saved. The file on disk is now what the editor shows,
    /// so the text in front of it is taken away, and the project is to be
    /// compiled.
    pub fn text_document_did_save(&mut self, params: DidSaveTextDocumentParams) -> (action: Action)
        requires
            old(self).wf(),
        ensures
            final(self).wf(),
            old(self).same_project(final(self)),
            final(self).files() == after_event(
                old(self).files(),
                params.text_document.uri.path_text(),
                DocumentEvent::Saved,
            ),
            final(self).warnings() == old(self).warnings(),
            final(self).compiled() == old(self).compiled(),
            action == Action::Compile,
    {
        self.fs_proxy.delete_mem_cache(params.text_document.uri.path());
        Action::Compile
    }

    /// A document was closed. The text in front of its file is taken away.
    /// Nothing is compiled.
    pub fn text_document_did_close(&mut self, params: DidCloseTextDocumentParams) -> (feedback:
        Feedback)
        requires
            old(self).wf(),
        ensures
            final(self).wf(),
            old(self).same_project(final(self)),
            final(self).files() == after_event(
                old(self).files(),
                params.text_document.uri.path_text(),
                DocumentEvent::Closed,
            ),
            final(self).warnings() == Seq::<Warning>::empty(),
            final(self).compiled() == Seq::<Seq<char>>::empty(),
            old(self).reports(None, feedback),
    {
        self.fs_proxy.delete_mem_cache(params.text_document.uri.path());
        self.notified(Ok(()))
    }

    /// A document was changed in the editor. The last of the changes holds
    /// the document's text as it now is: that text goes in front of the
    /// file, and the project is to be compiled. A notification without any
    /// change does nothing but give the feedback that is due.
    pub fn text_document_did_change(&mut self, params: DidChangeTextDocumentParams) -> (action:
        Action)
        requires
            old(self).wf(),
        ensures
            final(self).wf(),
            old(self).same_project(final(self)),
            if params.content_changes@.len() > 0 {
                &&& final(self).files() == after_event(
                    old(self).files(),
                    params.text_document.uri.path_text(),
                    DocumentEvent::Changed(params.content_changes@.last().text@),
                )
                &&& final(self).warnings() == old(self).warnings()
                &&& final(self).compiled() == old(self).compiled()
                &&& action == Action::Compile
            } else {
                &&& final(self).files() == old(self).files()
                &&& final(self).warnings() == Seq::<Warning>::empty()
                &&& final(self).compiled() == Seq::<Seq<char>>::empty()
                &&& action matches Action::Respond(feedback)
                &&& old(self).reports(None, feedback)
            },
    {
        let changes = params.content_changes.len();
        if changes > 0 {
            self.fs_proxy.write_mem_cache(
                params.text_document.uri.path(),
                params.content_changes[changes - 1].text.as_str(),
            );
            Action::Compile
        } else {
            Action::Respond(self.notified(Ok(())))
        }
    }

    /// Reads the file at `path` as the compiler is to see it: its unsaved
    /// text if it has one, and else what the disk gave for it, which comes
    /// as `disk`.
    pub fn read(&self, path: &str, disk: Result<String, Error>) -> (read: Result<String, Error>)
        requires
            self.wf(),
        ensures
            match unsaved(self.files(), path@) {
                Some(text) => read matches Ok(found) && found@ == text,
                None => read == disk,
            },
    {
        self.fs_proxy.read(path, disk)
    }

    /// The module kept in the document, if it is a module of the project
    /// that has been compiled.
    pub open spec fn module_at(&self, uri: Url) -> Option<Module> {
        match module_name(uri.path_text(), self.root()) {
            Some(name) => if self.modules().contains_key(name) {
                Some(self.modules()[name])
            } else {
                None
            },
            None => None,
        }
    }

    /// What a position in a document is on, going by the module as it was
    /// last compiled: nothing where the document is no compiled module of
    /// the project, or the position is on no node of it.
    pub open spec fn located(&self, uri: Url, position: Position) -> Option<Node> {
        match self.module_at(uri) {
            Some(module) => node_at(
                module.ast.statements@,
                offset_at(source_of(module), position.line as int, position.character as int),
            ),
            None => None,
        }
    }

    /// What hovering over a position shows: for an expression its type, as
    /// Gleam source in a code block, over the range of the expression; for
    /// anything else nothing.
    pub open spec fn hover_at(&self, uri: Url, position: Position) -> Option<(Seq<char>, Range)> {
        match self.located(uri, position) {
            Some(Node::Expression(expression)) => Some(
                (
                    hover_text(expression.type_.printed@),
                    range_of(source_of(self.module_at(uri)->0), expression.location),
                ),
            ),
            _ => None,
        }
    }

    /// Where the thing named at a position was defined: the text and path of
    /// the document's URL, and the range in it. A definition in the module
    /// of the position is in the document that was asked about. One in
    /// another module is found only if that module has been compiled and
    /// its file has a URL.
    pub open spec fn definition_at(&self, uri: Url, position: Position) -> Option<
        (Seq<char>, Seq<char>, Range),
    > {
        match self.located(uri, position) {
            Some(node) => match node.definition() {
                Some(definition) => match definition.module {
                    None => Some(
                        (
                            uri.text(),
                            uri.path_text(),
                            range_of(source_of(self.module_at(uri)->0), definition.span),
                        ),
                    ),
                    Some(name) => if self.modules().contains_key(name@) {
                        let target = self.modules()[name@];
                        match parsed_url("file:///"@ + target.input_path@) {
                            Some((text, path)) => Some(
                                (text, path, range_of(source_of(target), definition.span)),
                            ),
                            None => None,
                        }
                    } else {
                        None
                    },
                },
                None => None,
            },
            None => None,
        }
    }

    /// Whether completion at a position proposes modules to import: where
    /// the position is on an import, or on nothing that is known.
    pub open spec fn completes_import(&self, uri: Url, position: Position) -> bool {
        match self.located(uri, position) {
            None => true,
            Some(Node::Statement(Statement::Import(_))) => true,
            _ => false,
        }
    }

    /// Whether a list of completion items is what completion at a position
    /// gives: for an import, with a compiler, each importable module once,
    /// in any order, without documentation; otherwise nothing.
    pub open spec fn completes(
        &self,
        uri: Url,
        position: Position,
        items: Option<Vec<CompletionItem>>,
    ) -> bool {
        if self.completes_import(uri, position) && self.has_compiler() {
            &&& items matches Some(items)
            &&& labels(items@).no_duplicates()
            &&& labels(items@).to_set() == importable(self.modules())
            &&& forall|i: int| 0 <= i < items@.len() ==> (#[trigger] items@[i]).documentation is None
        } else {
            items is None
        }
    }

    fn module_for_uri(&self, uri: &Url) -> (module: Option<&Module>)
        requires
            self.wf(),
        ensures
            match module {
                Some(module) => self.module_at(*uri) == Some(*module),
                None => self.module_at(*uri) is None,
            },
    {
        match &self.compiler {
            Some(compiler) => {
                match uri_to_module_name(uri, self.project_root.as_str()) {
                    Some(name) => compiler.modules.get(name.as_str()),
                    None => None,
                }
            },
            None => None,
        }
    }

    fn node_at_position(&self, params: &TextDocumentPositionParams) -> (found: Option<
        (LineNumbers, Located<'_>),
    >)
        requires
            self.wf(),
        ensures
            match found {
                Some((line_numbers, node)) => {
                    &&& self.module_at(params.text_document.uri) matches Some(module)
                    &&& line_numbers@ == source_of(module)
                    &&& self.located(params.text_document.uri, params.position) == Some(node@)
                },
                None => self.located(params.text_document.uri, params.position) is None,
            },
    {
        let module = match self.module_for_uri(&params.text_document.uri) {
            Some(module) => module,
            None => {
                return None;
            },
        };
        let line_numbers = LineNumbers::new(smol_str_as_str(&module.code));
        let byte_index = line_numbers.byte_index(params.position.line, params.position.character);
        match module.find_node(byte_index) {
            Some(node) => Some((line_numbers, node)),
            None => None,
        }
    }

    fn find_hover(&self, params: &TextDocumentPositionParams) -> (hover: Option<Hover>)
        requires
            self.wf(),
        ensures
            shows(hover, self.hover_at(params.text_document.uri, params.position)),
    {
        let (line_numbers, found) = match self.node_at_position(params) {
            Some(value) => value,
            None => {
                return None;
            },
        };
        let expression = match found {
            Located::Expression(expression) => expression,
            Located::Statement(_) => {
                return None;
            },
        };
        let type_ = expression.type_.pretty_print();
        let mut contents = String::from_str("```gleam\n");
        contents.append(type_.as_str());
        contents.append("\n```");
        Some(Hover { contents, range: Some(src_span_to_lsp_range(expression.location, &line_numbers)) })
    }

    fn find_definition(&self, params: &TextDocumentPositionParams) -> (location: Option<Location>)
        requires
            self.wf(),
        ensures
            points_at(location, self.definition_at(params.text_document.uri, params.position)),
    {
        let (line_numbers, node) = match self.node_at_position(params) {
            Some(location) => location,
            None => {
                return None;
            },
        };
        let location = match node.definition_location() {
            Some(location) => location,
            None => {
                return None;
            },
        };
        match &location.module {
            None => Some(
                Location {
                    uri: params.text_document.uri.copy(),
                    range: src_span_to_lsp_range(location.span, &line_numbers),
                },
            ),
            Some(name) => {
                let module = match &self.compiler {
                    Some(compiler) => match compiler.modules.get(name.as_str()) {
                        Some(module) => module,
                        None => {
                            return None;
                        },
                    },
                    None => {
                        return None;
                    },
                };
                let uri = match Url::from_file_path(module.input_path.as_str()) {
                    Some(uri) => uri,
                    None => {
                        return None;
                    },
                };
                let line_numbers = LineNumbers::new(smol_str_as_str(&module.code));
                Some(Location { uri, range: src_span_to_lsp_range(location.span, &line_numbers) })
            },
        }
    }

    fn completion_for_import(&self) -> (items: Option<Vec<CompletionItem>>)
        requires
            self.wf(),
        ensures
            match items {
                Some(items) => {
                    &&& self.has_compiler()
                    &&& labels(items@).no_duplicates()
                    &&& labels(items@).to_set() == importable(self.modules())
                    &&& forall|i: int|
                        0 <= i < items@.len() ==> (#[trigger] items@[i]).documentation is None
                },
                None => !self.has_compiler(),
            },
    {
        let compiler = match &self.compiler {
            Some(compiler) => compiler,
            None => {
                return None;
            },
        };
        let ghost keys = compiler.modules.keys();
        proof {
            compiler.modules.lemma_keys();
        }
        let mut items: Vec<CompletionItem> = Vec::new();
        let mut i: usize = 0;
        while i < compiler.modules.len()
            invariant
                compiler.modules.wf(),
                keys == compiler.modules.keys(),
                keys.no_duplicates(),
                i <= keys.len(),
                forall|k: int| 0 <= k < items@.len() ==> (#[trigger] items@[k]).documentation is None,
                forall|k: int|
                    0 <= k < items@.len() ==> exists|j: int|
                        0 <= j < i && keys[j] == #[trigger] labels(items@)[k],
                forall|k: int|
                    0 <= k < items@.len() ==> compiler.modules@.contains_key(
                        #[trigger] labels(items@)[k],
                    ) && compiler.modules@[labels(items@)[k]].origin != Origin::Test,
                forall|j: int|
                    0 <= j < i && compiler.modules@[#[trigger] keys[j]].origin != Origin::Test
                        ==> labels(items@).contains(keys[j]),
                labels(items@).no_duplicates(),
            decreases keys.len() - i,
        {
            let ghost shown = labels(items@);
            if !compiler.modules.value_at(i).origin.is_test() {
                let label = compiler.modules.key_at(i).clone();
                items.push(CompletionItem { label, documentation: None });
                proof {
                    let now = labels(items@);
                    assert(now =~= shown.push(keys[i as int]));
                    assert forall|k: int| 0 <= k < now.len() implies exists|j: int|
                        0 <= j < i + 1 && keys[j] == #[trigger] now[k] by {
                        if k < shown.len() {
                            let j = choose|j: int| 0 <= j < i && keys[j] == shown[k];
                            assert(keys[j] == now[k]);
                        } else {
                            assert(keys[i as int] == now[k]);
                        }
                    }
                    assert forall|a: int, b: int| 0 <= a < now.len() && 0 <= b < now.len() && a
                        != b implies now[a] != now[b] by {
                        if a < shown.len() && b < shown.len() {
                            assert(shown[a] != shown[b]);
                        } else if a < shown.len() {
                            let j = choose|j: int| 0 <= j < i && keys[j] == shown[a];
                            assert(keys[j] != keys[i as int]);
                        } else {
                            let j = choose|j: int| 0 <= j < i && keys[j] == shown[b];
                            assert(keys[j] != keys[i as int]);
                        }
                    }
                    assert forall|j: int|
                        0 <= j < i + 1 && compiler.modules@[#[trigger] keys[j]].origin
                            != Origin::Test implies now.contains(keys[j]) by {
                        if j < i {
                            let k = choose|k: int| 0 <= k < shown.len() && shown[k] == keys[j];
                            assert(now[k] == keys[j]);
                        } else {
                            assert(now[shown.len() as int] == keys[j]);
                        }
                    }
                }
            }
            i += 1;
        }
        proof {
            let shown = labels(items@);
            assert forall|name: Seq<char>| shown.to_set().contains(name) <==> importable(
                self.modules(),
            ).contains(name) by {
                if shown.to_set().contains(name) {
                    let k = choose|k: int| 0 <= k < shown.len() && shown[k] == name;
                    assert(compiler.modules@.contains_key(labels(items@)[k]));
                }
                if importable(self.modules()).contains(name) {
                    assert(keys.contains(name));
                    let j = choose|j: int| 0 <= j < keys.len() && keys[j] == name;
                    assert(shown.contains(keys[j]));
                }
            }
            assert(shown.to_set() =~= importable(self.modules()));
        }
        Some(items)
    }

    fn find_completion(&self, params: &TextDocumentPositionParams) -> (items: Option<
        Vec<CompletionItem>,
    >)
        requires
            self.wf(),
        ensures
            self.completes(params.text_document.uri, params.position, items),
    {
        let imports = match self.node_at_position(params) {
            None => true,
            Some((_, Located::Statement(statement))) => match statement {
                Statement::Import(_) => true,
                _ => false,
            },
            Some((_, Located::Expression(_))) => false,
        };
        if imports {
            self.completion_for_import()
        } else {
            None
        }
    }

    /// Where the thing named at a position was defined, if that is known.
    /// That nothing is found is an answer, not a failure.
    pub fn goto_definition(&mut self, params: GotoDefinitionParams) -> (response: Response<
        Option<Location>,
    >)
        requires
            old(self).wf(),
        ensures
            old(self).drained_to(final(self)),
            old(self).reports(None, response.feedback),
            response.payload matches Some(location) && points_at(
                location,
                old(self).definition_at(
                    params.text_document_position_params.text_document.uri,
                    params.text_document_position_params.position,
                ),
            ),
    {
        let location = self.find_definition(&params.text_document_position_params);
        self.respond(Ok(location))
    }

    /// What can be typed at a position. Only the modules to import are
    /// proposed, and only where an import may be meant.
    pub fn completion(&mut self, params: CompletionParams) -> (response: Response<
        Option<Vec<CompletionItem>>,
    >)
        requires
            old(self).wf(),
        ensures
            old(self).drained_to(final(self)),
            old(self).reports(None, response.feedback),
            response.payload matches Some(items) && old(self).completes(
                params.text_document_position.text_document.uri,
                params.text_document_position.position,
                items,
            ),
    {
        let items = self.find_completion(&params.text_document_position);
        self.respond(Ok(items))
    }

    /// What to show for the position the pointer rests on: the type of the
    /// expression there, if it is on one.
    pub fn hover(&mut self, params: HoverParams) -> (response: Response<Option<Hover>>)
        requires
            old(self).wf(),
        ensures
            old(self).drained_to(final(self)),
            old(self).reports(None, response.feedback),
            response.payload matches Some(hover) && shows(
                hover,
                old(self).hover_at(
                    params.text_document_position_params.text_document.uri,
                    params.text_document_position_params.position,
                ),
            ),
    {
        let hover = self.find_hover(&params.text_document_position_params);
        self.respond(Ok(hover))
    }

    /// Begins the formatting of a document. Its text is the unsaved one if
    /// there is one, so that what is being edited is formatted, and else the
    /// file's, which comes as `disk`: what reading the document's path from
    /// disk gave. Where neither is to be had the request ends here, with the
    /// error of the read.
    pub fn format(&mut self, params: DocumentFormattingParams, disk: Result<String, Error>) -> (next:
        Formatting)
        requires
            old(self).wf(),
        ensures
            final(self).wf(),
            old(self).same_project(final(self)),
            final(self).files() == old(self).files(),
            match unsaved(old(self).files(), params.text_document.uri.path_text()) {
                Some(text) => {
                    &&& next matches Formatting::Format { src }
                    &&& src@ == text
                    &&& final(self).warnings() == old(self).warnings()
                    &&& final(self).compiled() == old(self).compiled()
                },
                None => match disk {
                    Ok(text) => {
                        &&& next == (Formatting::Format { src: text })
                        &&& final(self).warnings() == old(self).warnings()
                        &&& final(self).compiled() == old(self).compiled()
                    },
                    Err(error) => {
                        &&& next matches Formatting::Respond(response)
                        &&& response.payload is None
                        &&& old(self).reports(Some(error), response.feedback)
                        &&& final(self).warnings() == Seq::<Warning>::empty()
                        &&& final(self).compiled() == Seq::<Seq<char>>::empty()
                    },
                },
            },
    {
        match self.fs_proxy.read(params.text_document.uri.path(), disk) {
            Ok(src) => Formatting::Format { src },
            Err(error) => Formatting::Respond(self.respond(Err(error))),
        }
    }

    /// Ends the formatting of a document, given its text as `format` handed
    /// it out and what the formatter made of it. The one edit of the
    /// response puts the formatted text in place of the whole document: of
    /// everything from its start to the line after its last.
    pub fn formatted(&mut self, src: &str, formatted: Result<String, Error>) -> (response: Response<
        Vec<TextEdit>,
    >)
        requires
            old(self).wf(),
        ensures
            old(self).drained_to(final(self)),
            match formatted {
                Ok(new_text) => {
                    &&& old(self).reports(None, response.feedback)
                    &&& response.payload matches Some(edits)
                    &&& edits@.len() == 1
                    &&& edits@[0].new_text == new_text
                    &&& edits@[0].range.start == Position { line: 0, character: 0 }
                    &&& edits@[0].range.end.line == lines_in(src.spec_bytes())
                    &&& edits@[0].range.end.character == 0
                },
                Err(error) => {
                    &&& response.payload is None
                    &&& old(self).reports(Some(error), response.feedback)
                },
            },
    {
        match formatted {
            Ok(new_text) => {
                let line_count = LineNumbers::new(src).lines();
                let edit = TextEdit {
                    range: Range::new(Position::new(0, 0), Position::new(line_count, 0)),
                    new_text,
                };
                let mut edits: Vec<TextEdit> = Vec::new();
                edits.push(edit);
                self.respond(Ok(edits))
            },
            Err(error) => self.respond(Err(error)),
        }
    }
}

} // verus!
