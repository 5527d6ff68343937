//! What the type checker leaves behind for this crate to read: the inferred
//! type of an expression, in printed form, and the warnings it raised.

use crate::ast::{SrcSpan, TodoKind};
use vstd::prelude::*;

verus! {

/// An inferred type as the compiler hands it over: printed, and marked when
/// inference left it an unresolved type variable.
#[derive(Debug, Clone, PartialEq, Eq)]
pub struct Type {
    pub printed: String,
    pub variable: bool,
}

impl Type {
    /// A type printed as `printed`.
    pub fn new(printed: String, variable: bool) -> (t: Type)
        ensures
            t.printed == printed,
            t.variable == variable,
    {
        Type { printed, variable }
    }

    /// Whether the type is still an unresolved type variable.
    pub fn is_variable(&self) -> (variable: bool)
        ensures
            variable == self.variable,
    {
        self.variable
    }

    /// The type as Gleam source text.
    pub fn pretty_print(&self) -> (printed: String)
        ensures
            printed@ == self.printed@,
    {
        self.printed.clone()
    }
}

/// A warning from the type checker, before it is tied to a module.
#[derive(Debug, Clone, PartialEq, Eq)]
pub enum Warning {
    Todo { kind: TodoKind, location: SrcSpan, typ: Type },
    ImplicitlyDiscardedResult { location: SrcSpan },
    UnusedLiteral { location: SrcSpan },
    NoFieldsRecordUpdate { location: SrcSpan },
    AllFieldsRecordUpdate { location: SrcSpan },
    UnusedType { location: SrcSpan, imported: bool, name: String },
    UnusedConstructor { location: SrcSpan, imported: bool, name: String },
    UnusedImportedModule { location: SrcSpan, name: String },
    UnusedImportedValue { location: SrcSpan, name: String },
    UnusedPrivateModuleConstant { location: SrcSpan, name: String },
    UnusedPrivateFunction { location: SrcSpan, name: String },
    UnusedVariable { location: SrcSpan, name: String },
}

impl Warning {
    /// The span of source that the warning is about.
    pub open spec fn span(self) -> SrcSpan {
        match self {
            Warning::Todo { location, .. } => location,
            Warning::ImplicitlyDiscardedResult { location } => location,
            Warning::UnusedLiteral { location } => location,
            Warning::NoFieldsRecordUpdate { location } => location,
            Warning::AllFieldsRecordUpdate { location } => location,
            Warning::UnusedType { location, .. } => location,
            Warning::UnusedConstructor { location, .. } => location,
            Warning::UnusedImportedModule { location, .. } => location,
            Warning::UnusedImportedValue { location, .. } => location,
            Warning::UnusedPrivateModuleConstant { location, .. } => location,
            Warning::UnusedPrivateFunction { location, .. } => location,
            Warning::UnusedVariable { location, .. } => location,
        }
    }

    /// The span of source that the warning is about.
    pub fn location(&self) -> (location: SrcSpan)
        ensures
            location == self.span(),
    {
        match self {
            Warning::Todo { location, .. } => *location,
            Warning::ImplicitlyDiscardedResult { location } => *location,
            Warning::UnusedLiteral { location } => *location,
            Warning::NoFieldsRecordUpdate { location } => *location,
            Warning::AllFieldsRecordUpdate { location } => *location,
            Warning::UnusedType { location, .. } => *location,
            Warning::UnusedConstructor { location, .. } => *location,
            Warning::UnusedImportedModule { location, .. } => *location,
            Warning::UnusedImportedValue { location, .. } => *location,
            Warning::UnusedPrivateModuleConstant { location, .. } => *location,
            Warning::UnusedPrivateFunction { location, .. } => *location,
            Warning::UnusedVariable { location, .. } => *location,
        }
    }
}

} // verus!
