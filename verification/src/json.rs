//! The JSON document: one tagged node per syntax construct.
//!
//! Each executable type has a mathematical counterpart, its view, in which
//! strings are sequences of characters and lists are sequences. The
//! contracts of the builder speak of views.

use vstd::prelude::*;

verus! {

/// The view of a `ParameterJson`.
pub struct ParameterDoc {
    pub name: Seq<char>,
    pub type_info: Seq<char>,
}

/// The view of a `FieldJson`.
pub struct FieldDoc {
    pub name: Option<Seq<char>>,
    pub type_info: Seq<char>,
}

/// The view of a `VariantJson`.
pub struct VariantDoc {
    pub name: Seq<char>,
}

/// The view of an `ExprJson`.
#[allow(inconsistent_fields)]
pub enum ExprDoc {
    IntLiteral { value: Seq<char> },
    FloatLiteral { value: Seq<char> },
    StringLiteral { value: Seq<char> },
    BoolLiteral { value: bool },
    Binary { operator: Seq<char>, left: Box<ExprDoc>, right: Box<ExprDoc> },
    FunctionCall { function: Box<ExprDoc>, arguments: Seq<ExprDoc> },
    Identifier { name: Seq<char> },
    If { condition: Box<ExprDoc>, then_branch: Seq<StmtDoc>, else_branch: Option<Box<ExprDoc>> },
    Loop { body: Seq<StmtDoc> },
    While { condition: Box<ExprDoc>, body: Seq<StmtDoc> },
    Return { value: Option<Box<ExprDoc>> },
    Other { description: Seq<char> },
}

/// The view of a `StmtJson`.
pub enum StmtDoc {
    VariableDeclaration { name: Seq<char>, initializer: Option<Box<ExprDoc>> },
    Expression { expr: Box<ExprDoc> },
    Other { description: Seq<char> },
}

/// The view of an `ItemJson`.
#[allow(inconsistent_fields)]
pub enum ItemDoc {
    Function {
        name: Seq<char>,
        parameters: Seq<ParameterDoc>,
        return_type: Option<Seq<char>>,
        body: Seq<StmtDoc>,
    },
    Struct { name: Seq<char>, fields: Seq<FieldDoc> },
    Enum { name: Seq<char>, variants: Seq<VariantDoc> },
    Other { description: Seq<char> },
}

/// The view of an `AstJson`.
pub struct AstDoc {
    pub items: Seq<ItemDoc>,
}

/// One parameter of a function: its name and the text of its type.
#[derive(Debug, PartialEq, Eq)]
pub struct ParameterJson {
    pub name: String,
    pub type_info: String,
}

/// One field of a struct: its name, unless it is a tuple field, and the text
/// of its type.
#[derive(Debug, PartialEq, Eq)]
pub struct FieldJson {
    pub name: Option<String>,
    pub type_info: String,
}

/// One variant of an enum, by name.
#[derive(Debug, PartialEq, Eq)]
pub struct VariantJson {
    pub name: String,
}

/// An expression node.
#[derive(Debug, PartialEq, Eq)]
#[allow(inconsistent_fields)]
pub enum ExprJson {
    IntLiteral { value: String },
    FloatLiteral { value: String },
    StringLiteral { value: String },
    BoolLiteral { value: bool },
    Binary { operator: String, left: Box<ExprJson>, right: Box<ExprJson> },
    FunctionCall { function: Box<ExprJson>, arguments: Vec<ExprJson> },
    Identifier { name: String },
    If { condition: Box<ExprJson>, then_branch: Vec<StmtJson>, else_branch: Option<Box<ExprJson>> },
    Loop { body: Vec<StmtJson> },
    While { condition: Box<ExprJson>, body: Vec<StmtJson> },
    Return { value: Option<Box<ExprJson>> },
    Other { description: String },
}

/// A statement node.
#[derive(Debug, PartialEq, Eq)]
pub enum StmtJson {
    VariableDeclaration { name: String, initializer: Option<Box<ExprJson>> },
    Expression { expr: Box<ExprJson> },
    Other { description: String },
}

/// An item node.
#[derive(Debug, PartialEq, Eq)]
#[allow(inconsistent_fields)]
pub enum ItemJson {
    Function {
        name: String,
        parameters: Vec<ParameterJson>,
        return_type: Option<String>,
        body: Vec<StmtJson>,
    },
    Struct { name: String, fields: Vec<FieldJson> },
    Enum { name: String, variants: Vec<VariantJson> },
    Other { description: String },
}

/// The document of a file: its item nodes in declaration order.
#[derive(Debug, PartialEq, Eq)]
pub struct AstJson {
    pub items: Vec<ItemJson>,
}

/// The views of the elements of a list, in order.
pub open spec fn views<T: View>(s: Seq<T>) -> Seq<T::V> {
    Seq::new(s.len(), |i: int| s[i]@)
}

/// The view of an optional string.
pub open spec fn text_view(s: Option<String>) -> Option<Seq<char>> {
    match s {
        Some(t) => Some(t@),
        None => None,
    }
}

/// The view of an expression node.
pub open spec fn expr_view(e: ExprJson) -> ExprDoc
    decreases e,
{
    match e {
        ExprJson::IntLiteral { value } => ExprDoc::IntLiteral { value: value@ },
        ExprJson::FloatLiteral { value } => ExprDoc::FloatLiteral { value: value@ },
        ExprJson::StringLiteral { value } => ExprDoc::StringLiteral { value: value@ },
        ExprJson::BoolLiteral { value } => ExprDoc::BoolLiteral { value },
        ExprJson::Binary { operator, left, right } => ExprDoc::Binary {
            operator: operator@,
            left: Box::new(expr_view(*left)),
            right: Box::new(expr_view(*right)),
        },
        ExprJson::FunctionCall { function, arguments } => ExprDoc::FunctionCall {
            function: Box::new(expr_view(*function)),
            arguments: exprs_view(arguments@),
        },
        ExprJson::Identifier { name } => ExprDoc::Identifier { name: name@ },
        ExprJson::If { condition, then_branch, else_branch } => ExprDoc::If {
            condition: Box::new(expr_view(*condition)),
            then_branch: stmts_view(then_branch@),
            else_branch: optional_expr_view(else_branch),
        },
        ExprJson::Loop { body } => ExprDoc::Loop { body: stmts_view(body@) },
        ExprJson::While { condition, body } => ExprDoc::While {
            condition: Box::new(expr_view(*condition)),
            body: stmts_view(body@),
        },
        ExprJson::Return { value } => ExprDoc::Return { value: optional_expr_view(value) },
        ExprJson::Other { description } => ExprDoc::Other { description: description@ },
    }
}

/// The view of an optional expression node.
pub open spec fn optional_expr_view(e: Option<Box<ExprJson>>) -> Option<Box<ExprDoc>>
    decreases e,
{
    match e {
        Some(inner) => Some(Box::new(expr_view(*inner))),
        None => None,
    }
}

/// The views of the expression nodes of a list, in order.
pub open spec fn exprs_view(es: Seq<ExprJson>) -> Seq<ExprDoc>
    decreases es,
{
    Seq::new(
        es.len(),
        |i: int|
            if 0 <= i < es.len() {
                expr_view(es[i])
            } else {
                ExprDoc::BoolLiteral { value: false }
            },
    )
}

/// The view of a statement node.
pub open spec fn stmt_view(s: StmtJson) -> StmtDoc
    decreases s,
{
    match s {
        StmtJson::VariableDeclaration { name, initializer } => StmtDoc::VariableDeclaration {
            name: name@,
            initializer: optional_expr_view(initializer),
        },
        StmtJson::Expression { expr } => StmtDoc::Expression { expr: Box::new(expr_view(*expr)) },
        StmtJson::Other { description } => StmtDoc::Other { description: description@ },
    }
}

/// The views of the statement nodes of a list, in order.
pub open spec fn stmts_view(ss: Seq<StmtJson>) -> Seq<StmtDoc>
    decreases ss,
{
    Seq::new(
        ss.len(),
        |i: int|
            if 0 <= i < ss.len() {
                stmt_view(ss[i])
            } else {
                StmtDoc::Other { description: Seq::empty() }
            },
    )
}

impl View for ParameterJson {
    type V = ParameterDoc;

    open spec fn view(&self) -> ParameterDoc {
        ParameterDoc { name: self.name@, type_info: self.type_info@ }
    }
}

impl View for FieldJson {
    type V = FieldDoc;

    open spec fn view(&self) -> FieldDoc {
        FieldDoc { name: text_view(self.name), type_info: self.type_info@ }
    }
}

impl View for VariantJson {
    type V = VariantDoc;

    open spec fn view(&self) -> VariantDoc {
        VariantDoc { name: self.name@ }
    }
}

impl View for ExprJson {
    type V = ExprDoc;

    open spec fn view(&self) -> ExprDoc {
        expr_view(*self)
    }
}

impl View for StmtJson {
    type V = StmtDoc;

    open spec fn view(&self) -> StmtDoc {
        stmt_view(*self)
    }
}

impl View for ItemJson {
    type V = ItemDoc;

    open spec fn view(&self) -> ItemDoc {
        match *self {
            ItemJson::Function { name, parameters, return_type, body } => ItemDoc::Function {
                name: name@,
                parameters: views(parameters@),
                return_type: text_view(return_type),
                body: stmts_view(body@),
            },
            ItemJson::Struct { name, fields } => ItemDoc::Struct {
                name: name@,
                fields: views(fields@),
            },
            ItemJson::Enum { name, variants } => ItemDoc::Enum {
                name: name@,
                variants: views(variants@),
            },
            ItemJson::Other { description } => ItemDoc::Other { description: description@ },
        }
    }
}

impl View for AstJson {
    type V = AstDoc;

    open spec fn view(&self) -> AstDoc {
        AstDoc { items: views(self.items@) }
    }
}

impl Default for AstJson {
    /// The document without items.
    fn default() -> (ast: Self)
        ensures
            ast@.items == Seq::<ItemDoc>::empty(),
    {
        let ast = AstJson { items: Vec::new() };
        assert(ast@.items =~= Seq::<ItemDoc>::empty());
        ast
    }
}

} // verus!
