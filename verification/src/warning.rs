//! Warnings of the compiler: how they are collected while a project
//! compiles, and how each is turned into a diagnostic.

use crate::ast::TodoKind;
use crate::diagnostic::{
    rendered, Diagnostic, DiagnosticView, Label, LabelView, Level, Location, LocationView,
};
use crate::term::{buffer_bytes, buffer_into_inner, buffer_no_color, buffer_write_all, string_from_utf8};
use crate::text::{smol_str_new, smol_str_text};
use crate::type_;
use smol_str::SmolStr;
use termcolor::Buffer;
use vstd::prelude::*;
use vstd::string::*;
use vstd::utf8::*;

verus! {

/// Where emitted warnings go.
pub trait WarningEmitterIO {
    /// The warnings that the sink holds, oldest first.
    spec fn held(&self) -> Seq<Warning>;

    /// Whether the sink keeps what it is given.
    spec fn keeps(&self) -> bool;

    /// Hands one warning to the sink.
    fn emit_warning(&mut self, warning: Warning)
        ensures
            final(self).keeps() == old(self).keeps(),
            final(self).held() == if old(self).keeps() {
                old(self).held().push(warning)
            } else {
                old(self).held()
            },
    ;
}

/// A sink that forgets every warning at once.
#[derive(Debug, Clone, Copy)]
pub struct NullWarningEmitterIO;

impl WarningEmitterIO for NullWarningEmitterIO {
    open spec fn held(&self) -> Seq<Warning> {
        Seq::empty()
    }

    open spec fn keeps(&self) -> bool {
        false
    }

    fn emit_warning(&mut self, _warning: Warning) {
    }
}

/// A sink that keeps the warnings until they are taken out.
#[derive(Debug, Clone, Default)]
pub struct VectorWarningEmitterIO {
    pub warnings: Vec<Warning>,
}

impl VectorWarningEmitterIO {
    /// A sink that holds nothing yet.
    pub fn new() -> (sink: VectorWarningEmitterIO)
        ensures
            sink.warnings@ == Seq::<Warning>::empty(),
    {
        VectorWarningEmitterIO { warnings: Vec::new() }
    }

    /// Hands out every warning held, oldest first, and leaves the sink empty.
    pub fn take(&mut self) -> (taken: Vec<Warning>)
        ensures
            taken@ == old(self).warnings@,
            final(self).warnings@ == Seq::<Warning>::empty(),
    {
        let mut taken: Vec<Warning> = Vec::new();
        std::mem::swap(&mut self.warnings, &mut taken);
        taken
    }

    /// Hands out every warning held, oldest first, and leaves the sink empty.
    pub fn drain(&mut self) -> (taken: Vec<Warning>)
        ensures
            taken@ == old(self).warnings@,
            final(self).warnings@ == Seq::<Warning>::empty(),
    {
        self.take()
    }
}

impl WarningEmitterIO for VectorWarningEmitterIO {
    open spec fn held(&self) -> Seq<Warning> {
        self.warnings@
    }

    open spec fn keeps(&self) -> bool {
        true
    }

    fn emit_warning(&mut self, warning: Warning) {
        self.warnings.push(warning);
    }
}

/// Counts the warnings emitted and passes each on to a sink.
#[derive(Debug, Clone)]
pub struct WarningEmitter<E: WarningEmitterIO> {
    /// The number of warnings emitted since the count was last reset. For a
    /// project this is the count of the root package only: it is reset once
    /// the dependencies are compiled.
    pub count: usize,
    pub emitter: E,
}

impl<E: WarningEmitterIO> WarningEmitter<E> {
    /// An emitter that has counted nothing yet, in front of a sink.
    pub fn new(emitter: E) -> (this: Self)
        ensures
            this.count == 0,
            this.emitter == emitter,
    {
        Self { count: 0, emitter }
    }

    /// Begins the count anew. The sink keeps what it holds.
    pub fn reset_count(&mut self)
        ensures
            final(self).count == 0,
            final(self).emitter == old(self).emitter,
    {
        self.count = 0;
    }

    /// The number of warnings emitted since the count was last reset.
    pub fn count(&self) -> (count: usize)
        ensures
            count == self.count,
    {
        self.count
    }

    /// Counts the warning, wrapping round at the largest count, and hands it
    /// to the sink.
    pub fn emit(&mut self, warning: Warning)
        ensures
            final(self).count == if old(self).count == usize::MAX {
                0
            } else {
                old(self).count + 1
            },
            final(self).emitter.keeps() == old(self).emitter.keeps(),
            final(self).emitter.held() == if old(self).emitter.keeps() {
                old(self).emitter.held().push(warning)
            } else {
                old(self).emitter.held()
            },
    {
        self.count = self.count.wrapping_add(1);
        self.emitter.emit_warning(warning);
    }
}

/// Ties the warnings of the type checker to the module being checked.
#[derive(Debug, Clone)]
pub struct TypeWarningEmitter<E: WarningEmitterIO> {
    pub path: String,
    pub src: SmolStr,
    pub emitter: WarningEmitter<E>,
}

impl<E: WarningEmitterIO> TypeWarningEmitter<E> {
    /// An emitter for the module at `path` with the source `src`.
    pub fn new(path: String, src: SmolStr, emitter: WarningEmitter<E>) -> (this: Self)
        ensures
            this.path == path,
            this.src == src,
            this.emitter == emitter,
    {
        Self { path, src, emitter }
    }

    /// What `emit` hands on for a warning of the type checker: the warning
    /// with this module's path and source.
    pub open spec fn tied(&self, warning: type_::Warning, emitted: Warning) -> bool {
        &&& emitted matches Warning::Type { path, src, warning: inner }
        &&& path@ == self.path@
        &&& smol_str_text(src) == smol_str_text(self.src)
        &&& inner == warning
    }

    /// Emits a warning of the type checker as a warning about this module.
    pub fn emit(&mut self, warning: type_::Warning)
        ensures
            final(self).path == old(self).path,
            final(self).src == old(self).src,
            final(self).emitter.count == if old(self).emitter.count == usize::MAX {
                0
            } else {
                old(self).emitter.count + 1
            },
            final(self).emitter.emitter.keeps() == old(self).emitter.emitter.keeps(),
            !old(self).emitter.emitter.keeps() ==> final(self).emitter.emitter.held() == old(
                self,
            ).emitter.emitter.held(),
            old(self).emitter.emitter.keeps() ==> {
                let held = final(self).emitter.emitter.held();
                &&& held.len() == old(self).emitter.emitter.held().len() + 1
                &&& held.drop_last() == old(self).emitter.emitter.held()
                &&& old(self).tied(warning, held.last())
            },
    {
        let emitted = Warning::Type {
            path: self.path.clone(),
            src: self.src.clone(),
            warning,
        };
        let ghost before = self.emitter.emitter.held();
        self.emitter.emit(emitted);
        proof {
            if old(self).emitter.emitter.keeps() {
                assert(before.push(emitted).drop_last() =~= before);
            }
        }
    }
}

impl TypeWarningEmitter<NullWarningEmitterIO> {
    /// An emitter for no module in particular, whose warnings go nowhere.
    pub fn null() -> (this: Self)
        ensures
            this.path@ == Seq::<char>::empty(),
            smol_str_text(this.src) == Seq::<char>::empty(),
            this.emitter.count == 0,
            !this.emitter.emitter.keeps(),
    {
        let empty = "";
        proof {
            reveal_strlit("");
        }
        Self {
            path: String::new(),
            src: smol_str_new(empty),
            emitter: WarningEmitter::new(NullWarningEmitterIO),
        }
    }
}

/// A warning about a module of the project.
#[derive(Debug, Clone, PartialEq, Eq)]
pub enum Warning {
    Type { path: String, src: SmolStr, warning: type_::Warning },
}

/// The title under which a warning of the type checker is shown.
pub open spec fn title_of(warning: type_::Warning) -> Seq<char> {
    match warning {
        type_::Warning::Todo { kind, .. } => match kind {
            TodoKind::Keyword => "Todo found"@,
            TodoKind::EmptyFunction => "Unimplemented function"@,
            TodoKind::IncompleteUse => "Incomplete use expression"@,
        },
        type_::Warning::ImplicitlyDiscardedResult { .. } => "Unused result value"@,
        type_::Warning::UnusedLiteral { .. } => "Unused literal"@,
        type_::Warning::NoFieldsRecordUpdate { .. } => "Fieldless record update"@,
        type_::Warning::AllFieldsRecordUpdate { .. } => "Redundant record update"@,
        type_::Warning::UnusedType { imported, .. } => if imported {
            "Unused imported type"@
        } else {
            "Unused private type"@
        },
        type_::Warning::UnusedConstructor { imported, .. } => if imported {
            "Unused imported item"@
        } else {
            "Unused private constructor"@
        },
        type_::Warning::UnusedImportedModule { .. } => "Unused imported module"@,
        type_::Warning::UnusedImportedValue { .. } => "Unused imported value"@,
        type_::Warning::UnusedPrivateModuleConstant { .. } => "Unused private constant"@,
        type_::Warning::UnusedPrivateFunction { .. } => "Unused private function"@,
        type_::Warning::UnusedVariable { .. } => "Unused variable"@,
    }
}

/// The body text of a warning. Only unfinished code has any: that it will
/// crash, for a `use` that nothing follows what is missing, and the type the
/// code should have unless inference left it open.
pub open spec fn body_of(warning: type_::Warning) -> Seq<char> {
    match warning {
        type_::Warning::Todo { kind, typ, .. } => {
            let crash =
                "This code will crash if it is run. Be sure to finish it before\nrunning your program."@;
            let told = if kind == TodoKind::IncompleteUse {
                crash
                    + "\nA use expression must always be followed by at least one more\nexpression."@
            } else {
                crash
            };
            if typ.variable {
                told
            } else {
                told + "\n\nHint: I think its type is `"@ + typ.printed@ + "`.\n"@
            }
        },
        _ => Seq::empty(),
    }
}

/// The advice that goes with a warning, if any.
pub open spec fn hint_of(warning: type_::Warning) -> Option<Seq<char>> {
    match warning {
        type_::Warning::Todo { .. } => None,
        type_::Warning::ImplicitlyDiscardedResult { .. } => Some(
            "If you are sure you don't need it you can assign it to `_`"@,
        ),
        type_::Warning::NoFieldsRecordUpdate { .. } => Some(
            "Add some fields to change or replace it with the record itself."@,
        ),
        type_::Warning::AllFieldsRecordUpdate { .. } => Some(
            "It is better style to use the record creation syntax."@,
        ),
        type_::Warning::UnusedVariable { name, .. } => Some(
            "You can ignore it with an underscore: `_"@ + name@ + "`."@,
        ),
        _ => Some("You can safely remove it."@),
    }
}

/// The words beside the span that a warning points at.
pub open spec fn label_of(warning: type_::Warning) -> Seq<char> {
    match warning {
        type_::Warning::Todo { .. } => "This code is incomplete"@,
        type_::Warning::ImplicitlyDiscardedResult { .. } => "The Result value created here is unused"@,
        type_::Warning::UnusedLiteral { .. } => "This value is never used"@,
        type_::Warning::NoFieldsRecordUpdate { .. } => "This record update doesn't change any fields."@,
        type_::Warning::AllFieldsRecordUpdate { .. } => "This record update specifies all fields"@,
        type_::Warning::UnusedType { imported, .. } => if imported {
            "This imported type is never used."@
        } else {
            "This private type is never used."@
        },
        type_::Warning::UnusedConstructor { imported, .. } => if imported {
            "This imported constructor is never used."@
        } else {
            "This private constructor is never used."@
        },
        type_::Warning::UnusedImportedModule { .. } => "This imported module is never used."@,
        type_::Warning::UnusedImportedValue { .. } => "This imported value is never used."@,
        type_::Warning::UnusedPrivateModuleConstant { .. } => "This private constant is never used."@,
        type_::Warning::UnusedPrivateFunction { .. } => "This private function is never used."@,
        type_::Warning::UnusedVariable { .. } => "This variable is never used."@,
    }
}

impl Warning {
    /// What the diagnostic of this warning says: title, body, advice and
    /// label by the kind of warning; the label on the warning's own span;
    /// the module's path and source as the warning carries them.
    pub open spec fn diagnostic(self) -> DiagnosticView {
        match self {
            Warning::Type { path, src, warning } => DiagnosticView {
                title: title_of(warning),
                text: body_of(warning),
                level: Level::Warning,
                location: Some(
                    LocationView {
                        path: path@,
                        src: smol_str_text(src),
                        label: LabelView { text: Some(label_of(warning)), span: warning.span() },
                        extra_labels: Seq::empty(),
                    },
                ),
                hint: hint_of(warning),
            },
        }
    }

    /// The diagnostic of this warning.
    pub fn to_diagnostic(&self) -> (diagnostic: Diagnostic)
        ensures
            diagnostic@ == self.diagnostic(),
    {
        match self {
            Warning::Type { path, src, warning } => {
                let title = title(warning);
                let text = body(warning);
                let hint = hint(warning);
                let label = Label { text: Some(label(warning)), span: warning.location() };
                let extra_labels: Vec<Label> = Vec::new();
                assert(extra_labels@.map_values(|l: Label| l@) =~= Seq::<LabelView>::empty());
                Diagnostic {
                    title,
                    text,
                    level: Level::Warning,
                    location: Some(
                        Location { path: path.clone(), src: src.clone(), label, extra_labels },
                    ),
                    hint,
                }
            },
        }
    }
}

impl Warning {
    /// The warning as it is printed: an empty line, then its diagnostic as
    /// plain text.
    pub open spec fn pretty_text(self) -> Seq<char> {
        "\n"@ + rendered(self.diagnostic())
    }

    /// Adds the printed warning to what the buffer holds.
    pub fn pretty(&self, buffer: &mut Buffer)
        ensures
            buffer_bytes(*final(buffer)) == buffer_bytes(*old(buffer)) + encode_utf8(
                self.pretty_text(),
            ),
    {
        let mut text = String::from_str("\n");
        text.append(self.to_diagnostic().render().as_str());
        buffer_write_all(buffer, text.as_str().as_bytes());
    }

    /// The printed warning, without colours.
    pub fn to_pretty_string(&self) -> (text: String)
        ensures
            text@ == self.pretty_text(),
    {
        let mut nocolor = buffer_no_color();
        self.pretty(&mut nocolor);
        let bytes = buffer_into_inner(nocolor);
        proof {
            assert(bytes@ =~= encode_utf8(self.pretty_text()));
            encode_utf8_valid_utf8(self.pretty_text());
            encode_utf8_decode_utf8(self.pretty_text());
        }
        match string_from_utf8(bytes) {
            Some(text) => {
                proof {
                    encode_utf8_decode_utf8(text@);
                }
                text
            },
            None => String::new(),
        }
    }
}

fn title(warning: &type_::Warning) -> (title: String)
    ensures
        title@ == title_of(*warning),
{
    match warning {
        type_::Warning::Todo { kind, .. } => match kind {
            TodoKind::Keyword => String::from_str("Todo found"),
            TodoKind::EmptyFunction => String::from_str("Unimplemented function"),
            TodoKind::IncompleteUse => String::from_str("Incomplete use expression"),
        },
        type_::Warning::ImplicitlyDiscardedResult { .. } => String::from_str("Unused result value"),
        type_::Warning::UnusedLiteral { .. } => String::from_str("Unused literal"),
        type_::Warning::NoFieldsRecordUpdate { .. } => String::from_str("Fieldless record update"),
        type_::Warning::AllFieldsRecordUpdate { .. } => String::from_str("Redundant record update"),
        type_::Warning::UnusedType { imported, .. } => if *imported {
            String::from_str("Unused imported type")
        } else {
            String::from_str("Unused private type")
        },
        type_::Warning::UnusedConstructor { imported, .. } => if *imported {
            String::from_str("Unused imported item")
        } else {
            String::from_str("Unused private constructor")
        },
        type_::Warning::UnusedImportedModule { .. } => String::from_str("Unused imported module"),
        type_::Warning::UnusedImportedValue { .. } => String::from_str("Unused imported value"),
        type_::Warning::UnusedPrivateModuleConstant { .. } => String::from_str(
            "Unused private constant",
        ),
        type_::Warning::UnusedPrivateFunction { .. } => String::from_str("Unused private function"),
        type_::Warning::UnusedVariable { .. } => String::from_str("Unused variable"),
    }
}

fn body(warning: &type_::Warning) -> (text: String)
    ensures
        text@ == body_of(*warning),
{
    match warning {
        type_::Warning::Todo { kind, typ, .. } => {
            let mut text = String::from_str(
                "This code will crash if it is run. Be sure to finish it before\nrunning your program.",
            );
            match kind {
                TodoKind::IncompleteUse => {
                    text.append(
                        "\nA use expression must always be followed by at least one more\nexpression.",
                    );
                },
                _ => {},
            }
            if !typ.is_variable() {
                let printed = typ.pretty_print();
                text.append("\n\nHint: I think its type is `");
                text.append(printed.as_str());
                text.append("`.\n");
            }
            text
        },
        _ => String::new(),
    }
}

fn hint(warning: &type_::Warning) -> (hint: Option<String>)
    ensures
        crate::diagnostic::text_of(hint) == hint_of(*warning),
{
    match warning {
        type_::Warning::Todo { .. } => None,
        type_::Warning::ImplicitlyDiscardedResult { .. } => Some(
            String::from_str("If you are sure you don't need it you can assign it to `_`"),
        ),
        type_::Warning::NoFieldsRecordUpdate { .. } => Some(
            String::from_str("Add some fields to change or replace it with the record itself."),
        ),
        type_::Warning::AllFieldsRecordUpdate { .. } => Some(
            String::from_str("It is better style to use the record creation syntax."),
        ),
        type_::Warning::UnusedVariable { name, .. } => {
            let mut hint = String::from_str("You can ignore it with an underscore: `_");
            hint.append(name.as_str());
            hint.append("`.");
            Some(hint)
        },
        _ => Some(String::from_str("You can safely remove it.")),
    }
}

fn label(warning: &type_::Warning) -> (label: String)
    ensures
        label@ == label_of(*warning),
{
    match warning {
        type_::Warning::Todo { .. } => String::from_str("This code is incomplete"),
        type_::Warning::ImplicitlyDiscardedResult { .. } => String::from_str(
            "The Result value created here is unused",
        ),
        type_::Warning::UnusedLiteral { .. } => String::from_str("This value is never used"),
        type_::Warning::NoFieldsRecordUpdate { .. } => String::from_str(
            "This record update doesn't change any fields.",
        ),
        type_::Warning::AllFieldsRecordUpdate { .. } => String::from_str(
            "This record update specifies all fields",
        ),
        type_::Warning::UnusedType { imported, .. } => if *imported {
            String::from_str("This imported type is never used.")
        } else {
            String::from_str("This private type is never used.")
        },
        type_::Warning::UnusedConstructor { imported, .. } => if *imported {
            String::from_str("This imported constructor is never used.")
        } else {
            String::from_str("This private constructor is never used.")
        },
        type_::Warning::UnusedImportedModule { .. } => String::from_str(
            "This imported module is never used.",
        ),
        type_::Warning::UnusedImportedValue { .. } => String::from_str(
            "This imported value is never used.",
        ),
        type_::Warning::UnusedPrivateModuleConstant { .. } => String::from_str(
            "This private constant is never used.",
        ),
        type_::Warning::UnusedPrivateFunction { .. } => String::from_str(
            "This private function is never used.",
        ),
        type_::Warning::UnusedVariable { .. } => String::from_str("This variable is never used."),
    }
}

} // verus!
