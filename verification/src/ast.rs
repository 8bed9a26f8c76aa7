use vstd::prelude::*;

verus! {

/// A source-language module: a name and its top-level statements, in order.
pub struct Module {
    pub name: String,
    pub statements: Vec<Statement>,
}

/// A top-level statement of a module.
pub enum Statement {
    /// An ordinary function definition.
    Function { public: bool, name: String, args: Vec<Arg>, body: Expr },
    /// A foreign function: a wrapper with `arity` synthetic parameters whose
    /// body calls `foreign_module:foreign_name`.
    ExternalFunction {
        public: bool,
        name: String,
        foreign_module: String,
        foreign_name: String,
        arity: usize,
    },
    /// A test: wrapped in a conditional-compilation guard, never exported.
    Test { name: String, body: Expr },
    /// A type definition: erased, no textual output.
    TypeDefinition { public: bool, name: String },
    /// An import: erased, no textual output.
    Import { module: String },
    /// An external type declaration: erased, no textual output.
    ExternalType { public: bool, name: String },
}

/// A function parameter: only its source-level name.
pub struct Arg {
    pub name: String,
}

/// A source expression.
#[allow(inconsistent_fields)]
pub enum Expr {
    /// An integer literal, rendered in decimal.
    Int { value: i64 },
    /// A float literal, held in its lexical form and rendered verbatim.
    Float { value: String },
    /// An atom literal.
    Atom { value: String },
    /// A string literal.
    Str { value: String },
    /// A tuple of expressions.
    Tuple { elems: Vec<Expr> },
    /// Evaluate `first`, discard its value, then evaluate `then`.
    Sequence { first: Box<Expr>, then: Box<Expr> },
    /// A variable reference, classified by its scope.
    Var { name: String, scope: Scope },
    /// A first-class function literal: not yet supported.
    Fun,
    /// The empty list.
    Nil,
    /// A cons pair, rendered as `[head | tail]` with no flattening of
    /// nested chains.
    Cons { head: Box<Expr>, tail: Box<Expr> },
    /// A function call: not yet supported.
    Call,
    /// A sum-type constructor application.
    Enum { name: String, args: Vec<Expr> },
    /// The empty record.
    RecordNil,
    /// A record extension: not yet supported.
    RecordCons,
    /// A record field access: not yet supported.
    RecordSelect,
    /// A module member access: not yet supported.
    ModuleSelect,
    /// A case expression over a subject, with ordered clauses.
    Case { subject: Box<Expr>, clauses: Vec<Clause> },
    /// A binary operator application.
    BinOp { name: BinOp, left: Box<Expr>, right: Box<Expr> },
    /// A single irrefutable binding followed by a continuation.
    Let { pattern: Pattern, value: Box<Expr>, then: Box<Expr> },
}

/// The classification of a variable reference.
pub enum Scope {
    /// An ordinary bound variable.
    Local,
    /// A module-scoped variable: not yet supported.
    Module,
    /// A compile-time constant: the held value is substituted at
    /// generation time.
    Constant { value: Box<Expr> },
}

/// The binary operators, each mapped to exactly one target-language token.
pub enum BinOp {
    Pipe,
    Lt,
    LtEq,
    Eq,
    GtEq,
    Gt,
    AddInt,
    AddFloat,
    SubInt,
    SubFloat,
    MultInt,
    MultFloat,
    DivInt,
    DivFloat,
}

/// A refutable pattern, used only where a value is matched or destructured.
#[allow(inconsistent_fields)]
pub enum Pattern {
    /// A variable-binding pattern.
    Var { name: String },
    Int { value: i64 },
    Float { value: String },
    Atom { value: String },
    Str { value: String },
    Tuple { elems: Vec<Pattern> },
    /// The empty-list pattern.
    Nil,
    /// A cons pattern.
    Cons { head: Box<Pattern>, tail: Box<Pattern> },
    /// A constructor pattern, using the same tagged-tuple encoding as
    /// expressions.
    Enum { name: String, args: Vec<Pattern> },
}

/// One pattern/body pair inside a case expression; tried in order.
pub struct Clause {
    pub pattern: Pattern,
    pub body: Expr,
}

} // verus!
