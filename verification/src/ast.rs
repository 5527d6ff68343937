//! The parts of a compiled module's syntax tree that editor queries read.

use crate::type_::Type;
use vstd::prelude::*;

verus! {

/// A range of byte offsets into a module's source text, `start` included and
/// `end` excluded.
#[derive(Debug, Clone, Copy, PartialEq, Eq, Structural)]
pub struct SrcSpan {
    pub start: usize,
    pub end: usize,
}

impl SrcSpan {
    /// The span from `start` up to `end`.
    pub fn new(start: usize, end: usize) -> (span: SrcSpan)
        ensures
            span.start == start,
            span.end == end,
    {
        SrcSpan { start, end }
    }

    /// Whether the byte offset lies inside the span.
    pub open spec fn holds(self, byte_index: int) -> bool {
        self.start <= byte_index < self.end
    }

    /// Whether the byte offset lies inside the span.
    pub fn contains(&self, byte_index: usize) -> (inside: bool)
        ensures
            inside == self.holds(byte_index as int),
    {
        byte_index >= self.start && byte_index < self.end
    }
}

/// What kind of unfinished code a `todo` warning points at.
#[derive(Debug, Clone, Copy, PartialEq, Eq, Structural)]
pub enum TodoKind {
    Keyword,
    EmptyFunction,
    IncompleteUse,
}

/// Where the thing that an expression names was defined: in which module,
/// unless it is the expression's own, and at which span there.
#[derive(Debug, Clone, PartialEq, Eq)]
pub struct DefinitionLocation {
    pub module: Option<String>,
    pub span: SrcSpan,
}

/// An expression with its inferred type. The expressions it is made of are
/// its children, in source order.
#[derive(Debug, PartialEq, Eq)]
pub struct TypedExpr {
    pub location: SrcSpan,
    pub type_: Type,
    pub definition: Option<DefinitionLocation>,
    pub children: Vec<TypedExpr>,
}

/// The expression and all the expressions inside it, each after those
/// inside it: children first, in order, then the expression itself.
pub open spec fn nodes(expr: TypedExpr) -> Seq<TypedExpr>
    decreases expr, 0int,
{
    nodes_in(expr.children@, expr.children@.len() as int).push(expr)
}

/// The nodes of the first `upto` expressions of a list, one expression after
/// the other.
pub open spec fn nodes_in(exprs: Seq<TypedExpr>, upto: int) -> Seq<TypedExpr>
    decreases exprs, upto,
{
    if upto <= 0 || upto > exprs.len() {
        Seq::empty()
    } else {
        nodes_in(exprs, upto - 1) + nodes(exprs[upto - 1])
    }
}

/// The first expression of a list whose span holds the byte offset.
pub open spec fn first_holding(exprs: Seq<TypedExpr>, byte_index: int) -> Option<TypedExpr>
    decreases exprs.len(),
{
    if exprs.len() == 0 {
        None
    } else if exprs[0].location.holds(byte_index) {
        Some(exprs[0])
    } else {
        first_holding(exprs.drop_first(), byte_index)
    }
}

/// The first holder in two lists, one after the other, is that of the first
/// list if it has one, and else that of the second.
pub proof fn lemma_first_holding_concat(a: Seq<TypedExpr>, b: Seq<TypedExpr>, byte_index: int)
    ensures
        first_holding(a + b, byte_index) == if first_holding(a, byte_index) is Some {
            first_holding(a, byte_index)
        } else {
            first_holding(b, byte_index)
        },
    decreases a.len(),
{
    if a.len() == 0 {
        assert(a + b =~= b);
    } else {
        assert((a + b)[0] == a[0]);
        assert((a + b).drop_first() =~= a.drop_first() + b);
        lemma_first_holding_concat(a.drop_first(), b, byte_index);
    }
}

/// A holder found among the first expressions of a list is still the first
/// when more of the list is looked at.
pub proof fn lemma_first_holding_stays(exprs: Seq<TypedExpr>, m: int, n: int, byte_index: int)
    requires
        0 <= m <= n <= exprs.len(),
        first_holding(nodes_in(exprs, m), byte_index) is Some,
    ensures
        first_holding(nodes_in(exprs, n), byte_index) == first_holding(
            nodes_in(exprs, m),
            byte_index,
        ),
    decreases n - m,
{
    if m < n {
        lemma_first_holding_stays(exprs, m, n - 1, byte_index);
        lemma_first_holding_concat(nodes_in(exprs, n - 1), nodes(exprs[n - 1]), byte_index);
    }
}

/// What the first holder is: an expression of the list whose span holds
/// the offset, before which no expression of the list does. There is none
/// only where no span holds the offset.
pub proof fn lemma_first_holding(exprs: Seq<TypedExpr>, byte_index: int)
    ensures
        match first_holding(exprs, byte_index) {
            Some(node) => exists|k: int|
                {
                    &&& 0 <= k < exprs.len()
                    &&& exprs[k] == node
                    &&& node.location.holds(byte_index)
                    &&& forall|j: int| 0 <= j < k ==> !(#[trigger] exprs[j]).location.holds(byte_index)
                },
            None => forall|j: int|
                0 <= j < exprs.len() ==> !(#[trigger] exprs[j]).location.holds(byte_index),
        },
    decreases exprs.len(),
{
    if exprs.len() > 0 {
        let rest = exprs.drop_first();
        lemma_first_holding(rest, byte_index);
        if exprs[0].location.holds(byte_index) {
            assert(exprs[0] == exprs[0]);
        } else {
            match first_holding(rest, byte_index) {
                Some(node) => {
                    let k = choose|k: int|
                        {
                            &&& 0 <= k < rest.len()
                            &&& rest[k] == node
                            &&& node.location.holds(byte_index)
                            &&& forall|j: int|
                                0 <= j < k ==> !(#[trigger] rest[j]).location.holds(byte_index)
                        };
                    assert(exprs[k + 1] == node);
                    assert forall|j: int| 0 <= j < k + 1 implies !(#[trigger] exprs[j]).location.holds(
                        byte_index,
                    ) by {
                        if j > 0 {
                            assert(rest[j - 1] == exprs[j]);
                        }
                    }
                },
                None => {
                    assert forall|j: int| 0 <= j < exprs.len() implies !(#[trigger] exprs[j]).location.holds(
                        byte_index,
                    ) by {
                        if j > 0 {
                            assert(rest[j - 1] == exprs[j]);
                        }
                    }
                },
            }
        }
    }
}

/// The expression found at an offset is the innermost there: its span holds
/// the offset, and the span of no expression inside it does.
pub proof fn lemma_found_is_innermost(expr: TypedExpr, byte_index: int)
    ensures
        first_holding(nodes(expr), byte_index) matches Some(node) ==> {
            &&& node.location.holds(byte_index)
            &&& first_holding(nodes_in(node.children@, node.children@.len() as int), byte_index)
                is None
        },
    decreases expr, 0int,
{
    let inside = nodes_in(expr.children@, expr.children@.len() as int);
    lemma_found_in_is_innermost(expr.children@, expr.children@.len() as int, byte_index);
    lemma_first_holding_concat(inside, seq![expr], byte_index);
    assert(nodes(expr) =~= inside + seq![expr]);
    let own = seq![expr];
    assert(own.len() == 1 && own[0] == expr);
    assert(own.drop_first() =~= Seq::<TypedExpr>::empty());
    assert(first_holding(own.drop_first(), byte_index) is None);
}

/// The expression found at an offset in a list of expressions is the
/// innermost there.
pub proof fn lemma_found_in_is_innermost(exprs: Seq<TypedExpr>, upto: int, byte_index: int)
    requires
        0 <= upto <= exprs.len(),
    ensures
        first_holding(nodes_in(exprs, upto), byte_index) matches Some(node) ==> {
            &&& node.location.holds(byte_index)
            &&& first_holding(nodes_in(node.children@, node.children@.len() as int), byte_index)
                is None
        },
    decreases exprs, upto,
{
    if upto > 0 {
        lemma_found_in_is_innermost(exprs, upto - 1, byte_index);
        lemma_found_is_innermost(exprs[upto - 1], byte_index);
        lemma_first_holding_concat(nodes_in(exprs, upto - 1), nodes(exprs[upto - 1]), byte_index);
    }
}

impl TypedExpr {
    /// The innermost expression at a byte offset: the first, going through
    /// the children before their parent, whose span holds the offset. So
    /// where nested expressions share a boundary the inner one is found.
    pub fn find_node(&self, byte_index: usize) -> (found: Option<&TypedExpr>)
        ensures
            match found {
                Some(node) => first_holding(nodes(*self), byte_index as int) == Some(*node),
                None => first_holding(nodes(*self), byte_index as int) is None,
            },
        decreases self,
    {
        let found = find_node_in(&self.children, byte_index);
        proof {
            lemma_first_holding_concat(
                nodes_in(self.children@, self.children@.len() as int),
                seq![*self],
                byte_index as int,
            );
            assert(nodes(*self) =~= nodes_in(self.children@, self.children@.len() as int) + seq![
                *self,
            ]);
            let own = seq![*self];
            assert(own.len() == 1 && own[0] == *self);
            assert(own.drop_first() =~= Seq::<TypedExpr>::empty());
            assert(first_holding(own.drop_first(), byte_index as int) is None);
            assert(first_holding(own, byte_index as int) == if self.location.holds(
                byte_index as int,
            ) {
                Some(*self)
            } else {
                None
            });
        }
        match found {
            Some(node) => Some(node),
            None => if self.location.contains(byte_index) {
                Some(self)
            } else {
                None
            },
        }
    }
}

/// The innermost expression at a byte offset in a list of expressions: the
/// first such of the first expression that has one.
pub fn find_node_in(exprs: &Vec<TypedExpr>, byte_index: usize) -> (found: Option<&TypedExpr>)
    ensures
        match found {
            Some(node) => first_holding(nodes_in(exprs@, exprs@.len() as int), byte_index as int)
                == Some(*node),
            None => first_holding(nodes_in(exprs@, exprs@.len() as int), byte_index as int) is None,
        },
    decreases exprs,
{
    let mut i: usize = 0;
    while i < exprs.len()
        invariant
            i <= exprs@.len(),
            first_holding(nodes_in(exprs@, i as int), byte_index as int) is None,
        decreases exprs@.len() - i,
    {
        let found = exprs[i].find_node(byte_index);
        proof {
            lemma_first_holding_concat(
                nodes_in(exprs@, i as int),
                nodes(exprs@[i as int]),
                byte_index as int,
            );
        }
        match found {
            Some(node) => {
                proof {
                    lemma_first_holding_stays(exprs@, i + 1, exprs@.len() as int, byte_index as int);
                }
                return Some(node);
            },
            None => {},
        }
        i += 1;
    }
    None
}

/// An import of another module.
#[derive(Debug, PartialEq, Eq)]
pub struct Import {
    pub location: SrcSpan,
    pub module: String,
}

/// A function with the expressions of its body, in source order.
#[derive(Debug, PartialEq, Eq)]
pub struct Function {
    pub location: SrcSpan,
    pub name: String,
    pub body: Vec<TypedExpr>,
}

/// A statement at the top level of a module.
#[derive(Debug, PartialEq, Eq)]
pub enum Statement {
    Function(Function),
    TypeAlias { location: SrcSpan },
    CustomType { location: SrcSpan },
    ExternalFunction { location: SrcSpan },
    ExternalType { location: SrcSpan },
    Import(Import),
    ModuleConstant { location: SrcSpan },
}

/// What a position in a module's source can turn out to be on.
#[derive(Debug, PartialEq, Eq)]
pub enum Located<'a> {
    Statement(&'a Statement),
    Expression(&'a TypedExpr),
}

/// What a [`Located`] refers to.
pub ghost enum Node {
    Statement(Statement),
    Expression(TypedExpr),
}

impl<'a> View for Located<'a> {
    type V = Node;

    open spec fn view(&self) -> Node {
        match *self {
            Located::Statement(statement) => Node::Statement(*statement),
            Located::Expression(expression) => Node::Expression(*expression),
        }
    }
}

/// The node that an optional [`Located`] refers to.
pub open spec fn node_of(located: Option<Located<'_>>) -> Option<Node> {
    match located {
        Some(located) => Some(located@),
        None => None,
    }
}

impl Node {
    /// Where the thing that the node names was defined. Only an expression
    /// names anything, and not every expression does.
    pub open spec fn definition(self) -> Option<DefinitionLocation> {
        match self {
            Node::Statement(_) => None,
            Node::Expression(expression) => expression.definition,
        }
    }
}

impl<'a> Located<'a> {
    /// Where the thing that the node names was defined, if it names any.
    pub fn definition_location(&self) -> (definition: Option<&'a DefinitionLocation>)
        ensures
            match definition {
                Some(definition) => self@.definition() == Some(*definition),
                None => self@.definition() is None,
            },
    {
        match self {
            Located::Statement(_) => None,
            Located::Expression(expression) => expression.definition.as_ref(),
        }
    }
}

impl Statement {
    /// The span of the whole statement.
    pub open spec fn span(self) -> SrcSpan {
        match self {
            Statement::Function(function) => function.location,
            Statement::TypeAlias { location } => location,
            Statement::CustomType { location } => location,
            Statement::ExternalFunction { location } => location,
            Statement::ExternalType { location } => location,
            Statement::Import(import) => import.location,
            Statement::ModuleConstant { location } => location,
        }
    }

    /// The span of the whole statement.
    pub fn location(&self) -> (location: SrcSpan)
        ensures
            location == self.span(),
    {
        match self {
            Statement::Function(function) => function.location,
            Statement::TypeAlias { location } => *location,
            Statement::CustomType { location } => *location,
            Statement::ExternalFunction { location } => *location,
            Statement::ExternalType { location } => *location,
            Statement::Import(import) => import.location,
            Statement::ModuleConstant { location } => *location,
        }
    }

    /// The expressions directly in the statement: the body of a function,
    /// and nothing for the rest.
    pub open spec fn body(self) -> Seq<TypedExpr> {
        match self {
            Statement::Function(function) => function.body@,
            _ => Seq::empty(),
        }
    }

    /// What a byte offset is on in this statement: the innermost expression
    /// at the offset if there is one, else the statement itself if its span
    /// holds the offset.
    pub open spec fn node_at(self, byte_index: int) -> Option<Node> {
        match first_holding(nodes_in(self.body(), self.body().len() as int), byte_index) {
            Some(expression) => Some(Node::Expression(expression)),
            None => if self.span().holds(byte_index) {
                Some(Node::Statement(self))
            } else {
                None
            },
        }
    }

    /// What a byte offset is on in this statement, if on anything.
    pub fn find_node(&self, byte_index: usize) -> (found: Option<Located<'_>>)
        ensures
            node_of(found) == self.node_at(byte_index as int),
    {
        match self {
            Statement::Function(function) => {
                match find_node_in(&function.body, byte_index) {
                    Some(expression) => {
                        return Some(Located::Expression(expression));
                    },
                    None => {},
                }
            },
            _ => {
                assert(nodes_in(self.body(), 0) =~= Seq::<TypedExpr>::empty());
            },
        }
        if self.location().contains(byte_index) {
            Some(Located::Statement(self))
        } else {
            None
        }
    }
}

/// What a byte offset is on in a list of statements: what it is on in the
/// first statement in which it is on anything.
pub open spec fn node_at(statements: Seq<Statement>, byte_index: int) -> Option<Node>
    decreases statements.len(),
{
    if statements.len() == 0 {
        None
    } else if statements[0].node_at(byte_index) is Some {
        statements[0].node_at(byte_index)
    } else {
        node_at(statements.drop_first(), byte_index)
    }
}

/// The syntax tree of a whole module.
#[derive(Debug, PartialEq, Eq)]
pub struct TypedModule {
    pub statements: Vec<Statement>,
}

impl TypedModule {
    /// What a byte offset is on in the module, if on anything.
    pub fn find_node(&self, byte_index: usize) -> (found: Option<Located<'_>>)
        ensures
            node_of(found) == node_at(self.statements@, byte_index as int),
    {
        let mut i: usize = 0;
        assert(self.statements@.subrange(0, self.statements@.len() as int) =~= self.statements@);
        while i < self.statements.len()
            invariant
                i <= self.statements@.len(),
                node_at(self.statements@, byte_index as int) == node_at(
                    self.statements@.subrange(i as int, self.statements@.len() as int),
                    byte_index as int,
                ),
            decreases self.statements@.len() - i,
        {
            let ghost rest = self.statements@.subrange(i as int, self.statements@.len() as int);
            assert(rest[0] == self.statements@[i as int]);
            assert(rest.drop_first() =~= self.statements@.subrange(
                i + 1,
                self.statements@.len() as int,
            ));
            let found = self.statements[i].find_node(byte_index);
            if found.is_some() {
                return found;
            }
            i += 1;
        }
        proof {
            assert(self.statements@.subrange(i as int, self.statements@.len() as int).len() == 0);
        }
        None
    }
}

} // verus!
