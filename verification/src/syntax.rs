//! The syntax tree that the renderers walk.
//!
//! A tree holds, as plain values, exactly what the renderers read: names,
//! the token text of types and of constructs that are not decomposed, and
//! the nested statements and expressions in source order.

use vstd::prelude::*;

verus! {

/// A binary operator. The ten operators that are rendered by their own symbol
/// have a variant each; any other operator keeps its token text.
#[derive(Debug, PartialEq, Eq)]
pub enum BinOp {
    Add,
    Sub,
    Mul,
    Div,
    Eq,
    Lt,
    Le,
    Ne,
    Ge,
    Gt,
    Other(String),
}

/// A literal expression.
#[derive(Debug, PartialEq, Eq)]
#[allow(inconsistent_fields)]
pub enum Lit {
    /// An integer literal, by its decimal digits.
    Int { digits: String },
    /// A floating-point literal, by its decimal digits.
    Float { digits: String },
    /// A string literal, by the value it denotes.
    Str { value: String },
    /// A boolean literal.
    Bool { value: bool },
    /// Any other literal, by its token text.
    Other { text: String },
}

/// A binding pattern.
#[derive(Debug, PartialEq, Eq)]
pub enum Pattern {
    /// A plain identifier.
    Ident(String),
    /// A pattern with a type annotation: the pattern, and the token text of
    /// the type.
    Typed { pat: Box<Pattern>, ty: String },
    /// Any other pattern, by its token text.
    Other(String),
}

/// An expression.
#[derive(Debug, PartialEq, Eq)]
pub enum Expr {
    Lit(Lit),
    Binary { op: BinOp, left: Box<Expr>, right: Box<Expr> },
    Call { func: Box<Expr>, args: Vec<Expr> },
    /// A path expression, by its full token text.
    Path { text: String },
    If { cond: Box<Expr>, then_branch: Vec<Stmt>, else_branch: Option<Box<Expr>> },
    Loop { body: Vec<Stmt> },
    While { cond: Box<Expr>, body: Vec<Stmt> },
    Return { value: Option<Box<Expr>> },
    /// Any other expression, by its token text.
    Other { text: String },
}

/// A statement of a block.
#[derive(Debug, PartialEq, Eq)]
pub enum Stmt {
    /// A `let` binding.
    Local { pat: Pattern, init: Option<Expr> },
    /// An expression in statement position.
    Expr(Expr),
    /// An item declared inside a block, together with its token text.
    Item { item: Item, text: String },
    /// Any other statement, by its token text.
    Other { text: String },
}

/// One parameter of a function.
#[derive(Debug, PartialEq, Eq)]
pub enum FnArg {
    /// The method receiver, by its token text.
    Receiver { text: String },
    /// A typed parameter: its pattern and the token text of its type.
    Typed { pat: Pattern, ty: String },
}

/// One field of a struct. A tuple field has no name.
#[derive(Debug, PartialEq, Eq)]
pub struct Field {
    pub name: Option<String>,
    pub ty: String,
}

/// A function item.
#[derive(Debug, PartialEq, Eq)]
pub struct ItemFn {
    pub name: String,
    pub inputs: Vec<FnArg>,
    /// The token text of the declared return type, if one is written.
    pub output: Option<String>,
    pub body: Vec<Stmt>,
}

/// An item of a file or of a block.
#[derive(Debug, PartialEq, Eq)]
pub enum Item {
    Fn(ItemFn),
    Struct { name: String, fields: Vec<Field> },
    Enum { name: String, variants: Vec<String> },
    /// Any other item, by its token text.
    Other { text: String },
}

/// A parsed source file: its items in declaration order.
#[derive(Debug, PartialEq, Eq)]
pub struct SourceFile {
    pub items: Vec<Item>,
}

/// The name that a pattern declares: the identifier that it binds, looked
/// for below type annotations, or, where it is no identifier, its text.
pub open spec fn pattern_name(p: Pattern) -> Seq<char>
    decreases p,
{
    match p {
        Pattern::Ident(name) => name@,
        Pattern::Typed { pat, ty } => pattern_name(*pat),
        Pattern::Other(text) => text@,
    }
}

impl Pattern {
    /// The name that the pattern declares.
    pub fn name(&self) -> (s: &str)
        ensures
            s@ == pattern_name(*self),
        decreases *self,
    {
        match self {
            Pattern::Ident(name) => name.as_str(),
            Pattern::Typed { pat, ty } => pat.name(),
            Pattern::Other(text) => text.as_str(),
        }
    }
}

/// The symbol under which a binary operator is rendered.
pub open spec fn operator_symbol(op: BinOp) -> Seq<char> {
    match op {
        BinOp::Add => "+"@,
        BinOp::Sub => "-"@,
        BinOp::Mul => "*"@,
        BinOp::Div => "/"@,
        BinOp::Eq => "=="@,
        BinOp::Lt => "<"@,
        BinOp::Le => "<="@,
        BinOp::Ne => "!="@,
        BinOp::Ge => ">="@,
        BinOp::Gt => ">"@,
        BinOp::Other(_) => "other_operator"@,
    }
}

impl BinOp {
    /// The symbol of a recognised operator, and `other_operator` for the rest.
    pub fn symbol(&self) -> (s: &'static str)
        ensures
            s@ == operator_symbol(*self),
    {
        match self {
            BinOp::Add => "+",
            BinOp::Sub => "-",
            BinOp::Mul => "*",
            BinOp::Div => "/",
            BinOp::Eq => "==",
            BinOp::Lt => "<",
            BinOp::Le => "<=",
            BinOp::Ne => "!=",
            BinOp::Ge => ">=",
            BinOp::Gt => ">",
            BinOp::Other(_) => "other_operator",
        }
    }
}

} // verus!
