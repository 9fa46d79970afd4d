//! The syntax-node model that the analysis walks.
//!
//! The analysis only ever looks at a handful of syntactic shapes: call
//! expressions, property accesses, identifiers, arrow functions, literals and
//! local-binding declarations.  Everything else in a source module matters
//! only in that it may contain those shapes somewhere below it, so every other
//! node collapses into an `Other` node that merely keeps its children in
//! document order.  The front end that parses source text builds these values;
//! the analysis borrows them read-only.

use vstd::prelude::*;

verus! {

/// Source position of a node: line and display column as the front end
/// resolved them for the start of the node.
#[derive(Clone, Copy)]
pub struct Pos {
    pub line: usize,
    pub col: usize,
}

/// The property part of a property access `obj.prop` / `obj[prop]`.
pub enum MemberProp {
    /// A plain, non-computed property name: `obj.name`.
    Named { name: String },
    /// A computed property: `obj[index]`.  The index expression is a child
    /// node and is traversed like any other expression.
    Computed { index: Box<Expr> },
    /// Any other property form (for example a private name): the analysis
    /// renders it opaquely and never matches on it.
    Unsupported,
}

/// An expression node.
pub enum Expr {
    /// A bare identifier reference.
    Ident { name: String, pos: Pos },
    /// A literal.  `debug` carries the front end's debug rendering of the
    /// literal, which is all the analysis ever reads of it.
    Lit { debug: String, pos: Pos },
    /// A property access.
    Member { obj: Box<Expr>, prop: MemberProp, pos: Pos },
    /// A call.  `callee` is `None` when the callee is not an ordinary
    /// expression (`super`, `import`).
    Call { callee: Option<Box<Expr>>, args: Vec<Expr>, pos: Pos },
    /// An arrow-function literal with its body.
    Arrow { body: Vec<Stmt>, pos: Pos },
    /// Any other expression, reduced to its child expressions and child
    /// statements in document order (expressions first).
    Other { exprs: Vec<Expr>, stmts: Vec<Stmt>, pos: Pos },
}

/// The target pattern of a local-binding declaration.
pub enum Pat {
    /// A simple name binding: `const name = ...;`.
    Ident { name: String },
    /// An object-destructuring pattern, reduced to the plain names of its
    /// destructured keys: `const { a, b } = ...;`.
    Object { keys: Vec<String> },
    /// Any other pattern shape; never matched by the analysis.
    Other,
}

/// One declarator of a local-binding declaration: a pattern and an optional
/// initializer expression.
pub struct VarDeclarator {
    pub name: Pat,
    pub init: Option<Expr>,
}

/// A statement node.
pub enum Stmt {
    /// An expression statement.
    Expr { expr: Expr },
    /// A local-binding declaration with its declarators in document order.
    VarDecl { decls: Vec<VarDeclarator> },
    /// Any other statement, reduced to its child expressions and child
    /// statements in document order (expressions first).
    Other { exprs: Vec<Expr>, stmts: Vec<Stmt> },
}

/// One parsed source module: the path of the file it came from and the
/// statements of its body.
pub struct ParsedModule {
    pub path: String,
    pub body: Vec<Stmt>,
}

} // verus!
