//! What a compilation leaves behind for each module.

use crate::ast::{node_at, node_of, Located, TypedModule};
use smol_str::SmolStr;
use vstd::prelude::*;

verus! {

/// Where a module comes from.
#[derive(Debug, Clone, Copy, PartialEq, Eq, Structural)]
pub enum Origin {
    /// The `src` directory of the project.
    Src,
    /// The `test` directory of the project.
    Test,
    /// A package that the project depends on.
    Dependency,
}

impl Origin {
    /// Whether the module is project source.
    pub fn is_src(&self) -> (src: bool)
        ensures
            src == (*self == Origin::Src),
    {
        match self {
            Origin::Src => true,
            _ => false,
        }
    }

    /// Whether the module is a test of the project.
    pub fn is_test(&self) -> (test: bool)
        ensures
            test == (*self == Origin::Test),
    {
        match self {
            Origin::Test => true,
            _ => false,
        }
    }
}

/// A module as it was last compiled: the name by which it is imported, the
/// file it was read from, its source text and its syntax tree.
#[derive(Debug, PartialEq, Eq)]
pub struct Module {
    pub name: String,
    pub input_path: String,
    pub origin: Origin,
    pub code: SmolStr,
    pub ast: TypedModule,
}

impl Module {
    /// What a byte offset into the module's source is on, if on anything.
    pub fn find_node(&self, byte_index: usize) -> (found: Option<Located<'_>>)
        ensures
            node_of(found) == node_at(self.ast.statements@, byte_index as int),
    {
        self.ast.find_node(byte_index)
    }
}

} // verus!
