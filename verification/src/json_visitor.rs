//! The JSON model builder: walks a tree depth first and builds its document.

use vstd::prelude::*;
use vstd::string::StringExecFns;
use crate::json::{
    expr_view, exprs_view, stmt_view, stmts_view, text_view, views, AstJson, ExprDoc, ExprJson,
    FieldDoc, FieldJson, ItemDoc, ItemJson, ParameterDoc, ParameterJson, StmtDoc, StmtJson,
    VariantDoc, VariantJson,
};
use crate::serializer::{ast_model, document_text, pretty_json, text_or_empty_object};
use crate::syntax::{
    operator_symbol, pattern_name, Expr, Field, FnArg, Item, ItemFn, Lit, SourceFile, Stmt,
};

verus! {

/// The node of a literal.
pub open spec fn lit_doc(l: Lit) -> ExprDoc {
    match l {
        Lit::Int { digits } => ExprDoc::IntLiteral { value: digits@ },
        Lit::Float { digits } => ExprDoc::FloatLiteral { value: digits@ },
        Lit::Str { value } => ExprDoc::StringLiteral { value: value@ },
        Lit::Bool { value } => ExprDoc::BoolLiteral { value },
        Lit::Other { text } => ExprDoc::Other { description: text@ },
    }
}

/// The node of an expression.
pub open spec fn expr_doc(e: Expr) -> ExprDoc
    decreases e,
{
    match e {
        Expr::Lit(l) => lit_doc(l),
        Expr::Binary { op, left, right } => ExprDoc::Binary {
            operator: operator_symbol(op),
            left: Box::new(expr_doc(*left)),
            right: Box::new(expr_doc(*right)),
        },
        Expr::Call { func, args } => ExprDoc::FunctionCall {
            function: Box::new(expr_doc(*func)),
            arguments: exprs_docs(args@),
        },
        Expr::Path { text } => ExprDoc::Identifier { name: text@ },
        Expr::If { cond, then_branch, else_branch } => ExprDoc::If {
            condition: Box::new(expr_doc(*cond)),
            then_branch: stmts_docs(then_branch@),
            else_branch: match else_branch {
                Some(other) => Some(Box::new(expr_doc(*other))),
                None => None,
            },
        },
        Expr::Loop { body } => ExprDoc::Loop { body: stmts_docs(body@) },
        Expr::While { cond, body } => ExprDoc::While {
            condition: Box::new(expr_doc(*cond)),
            body: stmts_docs(body@),
        },
        Expr::Return { value } => ExprDoc::Return {
            value: match value {
                Some(v) => Some(Box::new(expr_doc(*v))),
                None => None,
            },
        },
        Expr::Other { text } => ExprDoc::Other { description: text@ },
    }
}

/// The nodes of the expressions of a list, in order.
pub open spec fn exprs_docs(es: Seq<Expr>) -> Seq<ExprDoc>
    decreases es,
{
    Seq::new(
        es.len(),
        |i: int|
            if 0 <= i < es.len() {
                expr_doc(es[i])
            } else {
                ExprDoc::BoolLiteral { value: false }
            },
    )
}

/// The node of a statement. An item in statement position is not
/// decomposed: it is recorded by its text.
pub open spec fn stmt_doc(s: Stmt) -> StmtDoc
    decreases s,
{
    match s {
        Stmt::Local { pat, init } => StmtDoc::VariableDeclaration {
            name: pattern_name(pat),
            initializer: match init {
                Some(e) => Some(Box::new(expr_doc(e))),
                None => None,
            },
        },
        Stmt::Expr(e) => StmtDoc::Expression { expr: Box::new(expr_doc(e)) },
        Stmt::Item { item, text } => StmtDoc::Other { description: text@ },
        Stmt::Other { text } => StmtDoc::Other { description: text@ },
    }
}

/// The nodes of the statements of a list, in order.
pub open spec fn stmts_docs(ss: Seq<Stmt>) -> Seq<StmtDoc>
    decreases ss,
{
    Seq::new(
        ss.len(),
        |i: int|
            if 0 <= i < ss.len() {
                stmt_doc(ss[i])
            } else {
                StmtDoc::Other { description: Seq::empty() }
            },
    )
}

/// The entry of one parameter: a receiver is recorded under the name
/// `self` with its own text as type, any other parameter under the name that
/// its pattern declares.
pub open spec fn param_doc(p: FnArg) -> ParameterDoc {
    match p {
        FnArg::Receiver { text } => ParameterDoc { name: "self"@, type_info: text@ },
        FnArg::Typed { pat, ty } => ParameterDoc { name: pattern_name(pat), type_info: ty@ },
    }
}

/// The entries of a parameter list: one for each parameter, in declaration
/// order.
pub open spec fn params_docs(ps: Seq<FnArg>) -> Seq<ParameterDoc> {
    Seq::new(ps.len(), |i: int| param_doc(ps[i]))
}

/// The entry of a struct field.
pub open spec fn field_doc(f: Field) -> FieldDoc {
    FieldDoc { name: text_view(f.name), type_info: f.ty@ }
}

/// The node of a function.
pub open spec fn item_fn_doc(f: ItemFn) -> ItemDoc {
    ItemDoc::Function {
        name: f.name@,
        parameters: params_docs(f.inputs@),
        return_type: text_view(f.output),
        body: stmts_docs(f.body@),
    }
}

/// The node of an item.
pub open spec fn item_doc(item: Item) -> ItemDoc {
    match item {
        Item::Fn(f) => item_fn_doc(f),
        Item::Struct { name, fields } => ItemDoc::Struct {
            name: name@,
            fields: Seq::new(fields@.len(), |i: int| field_doc(fields@[i])),
        },
        Item::Enum { name, variants } => ItemDoc::Enum {
            name: name@,
            variants: Seq::new(variants@.len(), |i: int| VariantDoc { name: variants@[i]@ }),
        },
        Item::Other { text } => ItemDoc::Other { description: text@ },
    }
}

/// The nodes of the items of a list, in order.
pub open spec fn items_docs(items: Seq<Item>) -> Seq<ItemDoc> {
    Seq::new(items.len(), |i: int| item_doc(items[i]))
}

/// A copy of an optional string.
fn clone_text(s: &Option<String>) -> (r: Option<String>)
    ensures
        text_view(r) == text_view(*s),
{
    match s {
        Some(t) => Some(t.clone()),
        None => None,
    }
}

/// A visitor that builds the document of the files it processes.
pub struct JsonVisitor {
    pub ast: AstJson,
}

impl JsonVisitor {
    /// A visitor whose document has no items.
    pub fn new() -> (v: Self)
        ensures
            v.ast@.items == Seq::<ItemDoc>::empty(),
    {
        JsonVisitor { ast: AstJson::default() }
    }

    /// Appends the node of each item of a file, in declaration order.
    pub fn process_file(&mut self, file: &SourceFile)
        ensures
            final(self).ast@.items == old(self).ast@.items + items_docs(file.items@),
    {
        let ghost before = self.ast@.items;
        let mut i: usize = 0;
        assert(self.ast@.items =~= before + items_docs(file.items@.take(0)));
        while i < file.items.len()
            invariant
                i <= file.items.len(),
                self.ast@.items == before + items_docs(file.items@.take(i as int)),
            decreases file.items.len() - i,
        {
            self.process_item(&file.items[i]);
            i = i + 1;
            assert(self.ast@.items =~= before + items_docs(file.items@.take(i as int)));
        }
        assert(file.items@.take(i as int) =~= file.items@);
    }

    /// Appends the node of each item of a file, in declaration order.
    pub fn visit_file(&mut self, file: &SourceFile)
        ensures
            final(self).ast@.items == old(self).ast@.items + items_docs(file.items@),
    {
        self.process_file(file);
    }

    /// The entries of a parameter list.
    fn visit_params_json(params: &Vec<FnArg>) -> (out: Vec<ParameterJson>)
        ensures
            views(out@) == params_docs(params@),
    {
        let mut out: Vec<ParameterJson> = Vec::new();
        let mut i: usize = 0;
        while i < params.len()
            invariant
                i <= params.len(),
                out@.len() == i,
                forall|k: int| 0 <= k < i ==> (#[trigger] out@[k])@ == param_doc(params@[k]),
            decreases params.len() - i,
        {
            let entry = match &params[i] {
                FnArg::Receiver { text } => ParameterJson {
                    name: String::from_str("self"),
                    type_info: text.clone(),
                },
                FnArg::Typed { pat, ty } => ParameterJson {
                    name: String::from_str(pat.name()),
                    type_info: ty.clone(),
                },
            };
            out.push(entry);
            i = i + 1;
        }
        assert(views(out@) =~= params_docs(params@));
        out
    }

    /// Appends the node of an item.
    pub fn process_item(&mut self, item: &Item)
        ensures
            final(self).ast@.items == old(self).ast@.items.push(item_doc(*item)),
    {
        let ghost before = self.ast@.items;
        let node = match item {
            Item::Fn(item_fn) => {
                let parameters = Self::visit_params_json(&item_fn.inputs);
                let return_type = clone_text(&item_fn.output);
                let statements = self.visit_stmts_json(&item_fn.body);
                ItemJson::Function {
                    name: item_fn.name.clone(),
                    parameters,
                    return_type,
                    body: statements,
                }
            },
            Item::Struct { name, fields } => {
                let mut out: Vec<FieldJson> = Vec::new();
                let mut i: usize = 0;
                while i < fields.len()
                    invariant
                        i <= fields.len(),
                        out@.len() == i,
                        forall|k: int|
                            0 <= k < i ==> (#[trigger] out@[k])@ == field_doc(fields@[k]),
                    decreases fields.len() - i,
                {
                    let field = &fields[i];
                    out.push(
                        FieldJson { name: clone_text(&field.name), type_info: field.ty.clone() },
                    );
                    i = i + 1;
                }
                let node = ItemJson::Struct { name: name.clone(), fields: out };
                assert(node@->Struct_fields =~= item_doc(*item)->Struct_fields);
                node
            },
            Item::Enum { name, variants } => {
                let mut out: Vec<VariantJson> = Vec::new();
                let mut i: usize = 0;
                while i < variants.len()
                    invariant
                        i <= variants.len(),
                        out@.len() == i,
                        forall|k: int| 0 <= k < i ==> (#[trigger] out@[k]).name@ == variants@[k]@,
                    decreases variants.len() - i,
                {
                    out.push(VariantJson { name: variants[i].clone() });
                    i = i + 1;
                }
                let node = ItemJson::Enum { name: name.clone(), variants: out };
                assert(node@->Enum_variants =~= item_doc(*item)->Enum_variants);
                node
            },
            Item::Other { text } => ItemJson::Other { description: text.clone() },
        };
        assert(node@ == item_doc(*item));
        self.ast.items.push(node);
        assert(self.ast@.items =~= before.push(item_doc(*item)));
    }

    /// The document as pretty-printed JSON text, or `{}` where the encoding
    /// fails.
    pub fn to_json(&self) -> (text: String)
        ensures
            text@ == text_or_empty_object(pretty_json(ast_model(self.ast@))),
    {
        document_text(&self.ast)
    }

    /// The node of a statement. The visitor is left as it was.
    pub fn visit_stmt_json(&mut self, stmt: &Stmt) -> (node: StmtJson)
        ensures
            node@ == stmt_doc(*stmt),
            *final(self) == *old(self),
        decreases *stmt,
    {
        proof {
            reveal_with_fuel(stmt_view, 2);
        }
        match stmt {
            Stmt::Local { pat, init } => {
                let name = String::from_str(pat.name());
                let initializer = match init {
                    Some(e) => Some(Box::new(self.visit_expr_json(e))),
                    None => None,
                };
                StmtJson::VariableDeclaration { name, initializer }
            },
            Stmt::Expr(e) => StmtJson::Expression { expr: Box::new(self.visit_expr_json(e)) },
            Stmt::Item { item, text } => StmtJson::Other { description: text.clone() },
            Stmt::Other { text } => StmtJson::Other { description: text.clone() },
        }
    }

    /// The nodes of the statements of a list, in order. The visitor is left
    /// as it was.
    pub fn visit_stmts_json(&mut self, stmts: &Vec<Stmt>) -> (nodes: Vec<StmtJson>)
        ensures
            stmts_view(nodes@) == stmts_docs(stmts@),
            *final(self) == *old(self),
        decreases *stmts,
    {
        let mut nodes: Vec<StmtJson> = Vec::new();
        let mut i: usize = 0;
        while i < stmts.len()
            invariant
                i <= stmts.len(),
                nodes@.len() == i,
                *self == *old(self),
                forall|k: int|
                    0 <= k < i ==> stmt_view(#[trigger] nodes@[k]) == stmt_doc(stmts@[k]),
            decreases stmts.len() - i,
        {
            let node = self.visit_stmt_json(&stmts[i]);
            nodes.push(node);
            i = i + 1;
        }
        assert(stmts_view(nodes@) =~= stmts_docs(stmts@));
        nodes
    }

    /// The nodes of the expressions of a list, in order. The visitor is left
    /// as it was.
    pub fn visit_exprs_json(&mut self, exprs: &Vec<Expr>) -> (nodes: Vec<ExprJson>)
        ensures
            exprs_view(nodes@) == exprs_docs(exprs@),
            *final(self) == *old(self),
        decreases *exprs,
    {
        let mut nodes: Vec<ExprJson> = Vec::new();
        let mut i: usize = 0;
        while i < exprs.len()
            invariant
                i <= exprs.len(),
                nodes@.len() == i,
                *self == *old(self),
                forall|k: int|
                    0 <= k < i ==> expr_view(#[trigger] nodes@[k]) == expr_doc(exprs@[k]),
            decreases exprs.len() - i,
        {
            let node = self.visit_expr_json(&exprs[i]);
            nodes.push(node);
            i = i + 1;
        }
        assert(exprs_view(nodes@) =~= exprs_docs(exprs@));
        nodes
    }

    /// The node of an expression. The visitor is left as it was.
    pub fn visit_expr_json(&mut self, expr: &Expr) -> (node: ExprJson)
        ensures
            node@ == expr_doc(*expr),
            *final(self) == *old(self),
        decreases *expr,
    {
        proof {
            reveal_with_fuel(expr_view, 2);
        }
        match expr {
            Expr::Lit(lit) => match lit {
                Lit::Int { digits } => ExprJson::IntLiteral { value: digits.clone() },
                Lit::Float { digits } => ExprJson::FloatLiteral { value: digits.clone() },
                Lit::Str { value } => ExprJson::StringLiteral { value: value.clone() },
                Lit::Bool { value } => ExprJson::BoolLiteral { value: *value },
                Lit::Other { text } => ExprJson::Other { description: text.clone() },
            },
            Expr::Binary { op, left, right } => {
                let operator = String::from_str(op.symbol());
                let left_node = self.visit_expr_json(left);
                let right_node = self.visit_expr_json(right);
                ExprJson::Binary {
                    operator,
                    left: Box::new(left_node),
                    right: Box::new(right_node),
                }
            },
            Expr::Call { func, args } => {
                let function = self.visit_expr_json(func);
                let arguments = self.visit_exprs_json(args);
                ExprJson::FunctionCall { function: Box::new(function), arguments }
            },
            Expr::Path { text } => ExprJson::Identifier { name: text.clone() },
            Expr::If { cond, then_branch, else_branch } => {
                let then_stmts = self.visit_stmts_json(then_branch);
                let else_node = match else_branch {
                    Some(other) => Some(Box::new(self.visit_expr_json(other))),
                    None => None,
                };
                let condition = self.visit_expr_json(cond);
                ExprJson::If {
                    condition: Box::new(condition),
                    then_branch: then_stmts,
                    else_branch: else_node,
                }
            },
            Expr::Loop { body } => {
                let stmts = self.visit_stmts_json(body);
                ExprJson::Loop { body: stmts }
            },
            Expr::While { cond, body } => {
                let stmts = self.visit_stmts_json(body);
                let condition = self.visit_expr_json(cond);
                ExprJson::While { condition: Box::new(condition), body: stmts }
            },
            Expr::Return { value } => {
                let inner = match value {
                    Some(v) => Some(Box::new(self.visit_expr_json(v))),
                    None => None,
                };
                ExprJson::Return { value: inner }
            },
            Expr::Other { text } => ExprJson::Other { description: text.clone() },
        }
    }
}

impl Default for JsonVisitor {
    /// A visitor whose document has no items.
    fn default() -> (v: Self)
        ensures
            v.ast@.items == Seq::<ItemDoc>::empty(),
    {
        Self::new()
    }
}

} // verus!
