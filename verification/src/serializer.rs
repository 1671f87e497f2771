//! Encoding of a document as pretty-printed JSON text.
//!
//! The layout of the document is decided here: which fields a node has, in
//! which order, and under which discriminator. A list that is empty has no
//! field; a value that is absent is `null`. The text itself is written by
//! `serde_json`, from a `serde_json::Value` that is built node by node. The
//! functions that hand a value to `serde_json` or take one from it are
//! trusted: their contracts are stated, not proved.

use vstd::prelude::*;
use vstd::string::StringExecFns;
use crate::json::{
    exprs_view, optional_expr_view, stmts_view, text_view, views, AstDoc, AstJson, ExprDoc,
    ExprJson, FieldDoc, FieldJson, ItemDoc, ItemJson, ParameterDoc, ParameterJson, StmtDoc,
    StmtJson, VariantDoc, VariantJson,
};

verus! {

/// `serde_json::Value`, a JSON value in memory.
#[verifier::external_type_specification]
#[verifier::external_body]
pub struct ExValue(serde_json::Value);

/// `serde_json::Error`, the reason why an encoding failed.
#[verifier::external_type_specification]
#[verifier::external_body]
pub struct ExError(serde_json::Error);

/// A JSON value as mathematics: a record lists its fields in order.
pub enum JsonModel {
    Null,
    Bool(bool),
    Text(Seq<char>),
    List(Seq<JsonModel>),
    Record(Seq<(Seq<char>, JsonModel)>),
}

/// What a `serde_json::Value` holds: the JSON value that it stands for, with
/// the fields of an object in the order in which the value keeps them.
pub uninterp spec fn json_model(v: serde_json::Value) -> JsonModel;

/// The text that `serde_json::to_string_pretty` writes for a value, or
/// `None` where it reports an error.
pub uninterp spec fn pretty_json(m: JsonModel) -> Option<Seq<char>>;

/// What each value of a list holds, in order.
pub open spec fn models(vs: Seq<serde_json::Value>) -> Seq<JsonModel> {
    Seq::new(vs.len(), |i: int| json_model(vs[i]))
}

/// The fields of a record under construction: each key with what its value
/// holds, in order.
pub open spec fn entries(fields: Seq<(String, serde_json::Value)>) -> Seq<(Seq<char>, JsonModel)> {
    Seq::new(fields.len(), |i: int| (fields[i].0@, json_model(fields[i].1)))
}

/// No key occurs twice.
pub open spec fn distinct_keys(fields: Seq<(Seq<char>, JsonModel)>) -> bool {
    forall|i: int, j: int| 0 <= i < j < fields.len() ==> fields[i].0 != fields[j].0
}

/// The variant `serde_json::Value::Null`: it holds the JSON `null`.
#[verifier::external_body]
fn json_null() -> (v: serde_json::Value)
    ensures
        json_model(v) == JsonModel::Null,
{
    serde_json::Value::Null
}

/// The variant `serde_json::Value::Bool`: it holds the boolean it is given.
#[verifier::external_body]
fn json_bool(b: bool) -> (v: serde_json::Value)
    ensures
        json_model(v) == JsonModel::Bool(b),
{
    serde_json::Value::Bool(b)
}

/// The variant `serde_json::Value::String`: it holds the text it is given.
#[verifier::external_body]
fn json_text(s: &str) -> (v: serde_json::Value)
    ensures
        json_model(v) == JsonModel::Text(s@),
{
    serde_json::Value::String(s.to_owned())
}

/// The variant `serde_json::Value::Array`: it holds the values it is given,
/// in order.
#[verifier::external_body]
fn json_list(items: Vec<serde_json::Value>) -> (v: serde_json::Value)
    ensures
        json_model(v) == JsonModel::List(models(items@)),
{
    serde_json::Value::Array(items)
}

/// The variant `serde_json::Value::Object` over a `serde_json::Map` that its
/// `FromIterator` collects from the fields. With the crate's feature
/// `preserve_order` the map inserts new keys in the order in which they
/// come, so that, no key occurring twice, the record holds the fields as
/// given, in order.
#[verifier::external_body]
fn json_record(fields: Vec<(String, serde_json::Value)>) -> (v: serde_json::Value)
    requires
        distinct_keys(entries(fields@)),
    ensures
        json_model(v) == JsonModel::Record(entries(fields@)),
{
    serde_json::Value::Object(fields.into_iter().collect())
}

/// `serde_json::to_string_pretty` on a `serde_json::Value`: the text that
/// it writes, or the error that it reports, depends on what the value holds
/// and on nothing else.
#[verifier::external_body]
fn write_pretty(v: &serde_json::Value) -> (r: Result<String, serde_json::Error>)
    ensures
        match r {
            Ok(text) => pretty_json(json_model(*v)) == Some(text@),
            Err(_) => pretty_json(json_model(*v)).is_none(),
        },
{
    serde_json::to_string_pretty(v)
}

/// Whether a record has a field under a key.
pub open spec fn has_key(fields: Seq<(Seq<char>, JsonModel)>, key: Seq<char>) -> bool {
    exists|i: int| 0 <= i < fields.len() && (#[trigger] fields[i]).0 == key
}

/// One field.
pub open spec fn field(key: Seq<char>, value: JsonModel) -> Seq<(Seq<char>, JsonModel)> {
    seq![(key, value)]
}

/// One field that holds a text.
pub open spec fn text_field(key: Seq<char>, value: Seq<char>) -> Seq<(Seq<char>, JsonModel)> {
    field(key, JsonModel::Text(value))
}

/// The field of a list: one field that holds the list, or no field at all
/// where the list is empty.
pub open spec fn list_field(key: Seq<char>, items: Seq<JsonModel>) -> Seq<(Seq<char>, JsonModel)> {
    if items.len() == 0 {
        Seq::empty()
    } else {
        field(key, JsonModel::List(items))
    }
}

/// A node: the discriminator under the key `type`, then the payload.
pub open spec fn tagged(kind: Seq<char>, payload: Seq<(Seq<char>, JsonModel)>) -> JsonModel {
    JsonModel::Record(text_field("type"@, kind) + payload)
}

/// An optional text: the text, or `null`.
pub open spec fn text_or_null(t: Option<Seq<char>>) -> JsonModel {
    match t {
        Some(s) => JsonModel::Text(s),
        None => JsonModel::Null,
    }
}

/// The JSON value of an expression node. An empty list of arguments or of
/// statements has no field.
pub open spec fn expr_model(e: ExprDoc) -> JsonModel
    decreases e,
{
    match e {
        ExprDoc::IntLiteral { value } => tagged("IntLiteral"@, text_field("value"@, value)),
        ExprDoc::FloatLiteral { value } => tagged("FloatLiteral"@, text_field("value"@, value)),
        ExprDoc::StringLiteral { value } => tagged("StringLiteral"@, text_field("value"@, value)),
        ExprDoc::BoolLiteral { value } => tagged(
            "BoolLiteral"@,
            field("value"@, JsonModel::Bool(value)),
        ),
        ExprDoc::Binary { operator, left, right } => tagged(
            "Binary"@,
            text_field("operator"@, operator) + field("left"@, expr_model(*left)) + field(
                "right"@,
                expr_model(*right),
            ),
        ),
        ExprDoc::FunctionCall { function, arguments } => tagged(
            "FunctionCall"@,
            field("function"@, expr_model(*function)) + list_field(
                "arguments"@,
                exprs_model(arguments),
            ),
        ),
        ExprDoc::Identifier { name } => tagged("Identifier"@, text_field("name"@, name)),
        ExprDoc::If { condition, then_branch, else_branch } => tagged(
            "If"@,
            field("condition"@, expr_model(*condition)) + list_field(
                "then_branch"@,
                stmts_model(then_branch),
            ) + field("else_branch"@, optional_expr_model(else_branch)),
        ),
        ExprDoc::Loop { body } => tagged("Loop"@, list_field("body"@, stmts_model(body))),
        ExprDoc::While { condition, body } => tagged(
            "While"@,
            field("condition"@, expr_model(*condition)) + list_field("body"@, stmts_model(body)),
        ),
        ExprDoc::Return { value } => tagged("Return"@, field("value"@, optional_expr_model(value))),
        ExprDoc::Other { description } => tagged(
            "Other"@,
            text_field("description"@, description),
        ),
    }
}

/// The JSON value of an optional expression node: that of the node, or
/// `null`.
pub open spec fn optional_expr_model(e: Option<Box<ExprDoc>>) -> JsonModel
    decreases e,
{
    match e {
        Some(inner) => expr_model(*inner),
        None => JsonModel::Null,
    }
}

/// The JSON values of the expression nodes of a list, in order.
pub open spec fn exprs_model(es: Seq<ExprDoc>) -> Seq<JsonModel>
    decreases es,
{
    Seq::new(
        es.len(),
        |i: int|
            if 0 <= i < es.len() {
                expr_model(es[i])
            } else {
                JsonModel::Null
            },
    )
}

/// The JSON value of a statement node.
pub open spec fn stmt_model(s: StmtDoc) -> JsonModel
    decreases s,
{
    match s {
        StmtDoc::VariableDeclaration { name, initializer } => tagged(
            "VariableDeclaration"@,
            text_field("name"@, name) + field("initializer"@, optional_expr_model(initializer)),
        ),
        StmtDoc::Expression { expr } => tagged("Expression"@, field("expr"@, expr_model(*expr))),
        StmtDoc::Other { description } => tagged(
            "Other"@,
            text_field("description"@, description),
        ),
    }
}

/// The JSON values of the statement nodes of a list, in order.
pub open spec fn stmts_model(ss: Seq<StmtDoc>) -> Seq<JsonModel>
    decreases ss,
{
    Seq::new(
        ss.len(),
        |i: int|
            if 0 <= i < ss.len() {
                stmt_model(ss[i])
            } else {
                JsonModel::Null
            },
    )
}

/// The JSON value of a parameter entry.
pub open spec fn parameter_model(p: ParameterDoc) -> JsonModel {
    JsonModel::Record(text_field("name"@, p.name) + text_field("type_info"@, p.type_info))
}

/// The JSON value of a field entry: a tuple field has the name `null`.
pub open spec fn field_model(f: FieldDoc) -> JsonModel {
    JsonModel::Record(field("name"@, text_or_null(f.name)) + text_field("type_info"@, f.type_info))
}

/// The JSON value of a variant entry.
pub open spec fn variant_model(v: VariantDoc) -> JsonModel {
    JsonModel::Record(text_field("name"@, v.name))
}

/// The JSON values of the parameter entries of a list, in order.
pub open spec fn parameters_model(ps: Seq<ParameterDoc>) -> Seq<JsonModel> {
    Seq::new(ps.len(), |i: int| parameter_model(ps[i]))
}

/// The JSON values of the field entries of a list, in order.
pub open spec fn fields_model(fs: Seq<FieldDoc>) -> Seq<JsonModel> {
    Seq::new(fs.len(), |i: int| field_model(fs[i]))
}

/// The JSON values of the variant entries of a list, in order.
pub open spec fn variants_model(vs: Seq<VariantDoc>) -> Seq<JsonModel> {
    Seq::new(vs.len(), |i: int| variant_model(vs[i]))
}

/// The JSON value of an item node. An empty list of parameters, of
/// statements, of fields or of variants has no field; an absent return type
/// is `null`.
pub open spec fn item_model(item: ItemDoc) -> JsonModel {
    match item {
        ItemDoc::Function { name, parameters, return_type, body } => tagged(
            "Function"@,
            text_field("name"@, name) + list_field("parameters"@, parameters_model(parameters))
                + field("return_type"@, text_or_null(return_type)) + list_field(
                "body"@,
                stmts_model(body),
            ),
        ),
        ItemDoc::Struct { name, fields } => tagged(
            "Struct"@,
            text_field("name"@, name) + list_field("fields"@, fields_model(fields)),
        ),
        ItemDoc::Enum { name, variants } => tagged(
            "Enum"@,
            text_field("name"@, name) + list_field("variants"@, variants_model(variants)),
        ),
        ItemDoc::Other { description } => tagged(
            "Other"@,
            text_field("description"@, description),
        ),
    }
}

/// The JSON values of the item nodes of a list, in order.
pub open spec fn items_model(items: Seq<ItemDoc>) -> Seq<JsonModel> {
    Seq::new(items.len(), |i: int| item_model(items[i]))
}

/// The JSON value of a document: a record with the item nodes under the key
/// `items`, or the empty record where there is no item.
pub open spec fn ast_model(ast: AstDoc) -> JsonModel {
    JsonModel::Record(list_field("items"@, items_model(ast.items)))
}

/// The text of a document: what was written, or the empty object where the
/// encoding failed.
pub open spec fn text_or_empty_object(written: Option<Seq<char>>) -> Seq<char> {
    match written {
        Some(text) => text,
        None => "{}"@,
    }
}

/// The length and the first character of each key: enough to tell any two
/// keys apart.
proof fn lemma_keys()
    ensures
        "type"@.len() == 4 && "type"@[0] == 't',
        "value"@.len() == 5 && "value"@[0] == 'v',
        "operator"@.len() == 8 && "operator"@[0] == 'o',
        "left"@.len() == 4 && "left"@[0] == 'l',
        "right"@.len() == 5 && "right"@[0] == 'r',
        "function"@.len() == 8 && "function"@[0] == 'f',
        "arguments"@.len() == 9 && "arguments"@[0] == 'a',
        "name"@.len() == 4 && "name"@[0] == 'n',
        "condition"@.len() == 9 && "condition"@[0] == 'c',
        "then_branch"@.len() == 11 && "then_branch"@[0] == 't',
        "else_branch"@.len() == 11 && "else_branch"@[0] == 'e',
        "body"@.len() == 4 && "body"@[0] == 'b',
        "description"@.len() == 11 && "description"@[0] == 'd',
        "initializer"@.len() == 11 && "initializer"@[0] == 'i',
        "expr"@.len() == 4 && "expr"@[0] == 'e',
        "parameters"@.len() == 10 && "parameters"@[0] == 'p',
        "return_type"@.len() == 11 && "return_type"@[0] == 'r',
        "type_info"@.len() == 9 && "type_info"@[0] == 't',
        "fields"@.len() == 6 && "fields"@[0] == 'f',
        "variants"@.len() == 8 && "variants"@[0] == 'v',
        "items"@.len() == 5 && "items"@[0] == 'i',
{
    reveal_strlit("type");
    reveal_strlit("value");
    reveal_strlit("operator");
    reveal_strlit("left");
    reveal_strlit("right");
    reveal_strlit("function");
    reveal_strlit("arguments");
    reveal_strlit("name");
    reveal_strlit("condition");
    reveal_strlit("then_branch");
    reveal_strlit("else_branch");
    reveal_strlit("body");
    reveal_strlit("description");
    reveal_strlit("initializer");
    reveal_strlit("expr");
    reveal_strlit("parameters");
    reveal_strlit("return_type");
    reveal_strlit("type_info");
    reveal_strlit("fields");
    reveal_strlit("variants");
    reveal_strlit("items");
}

/// A field of a record of two parts is a field of one of the parts.
proof fn lemma_has_key_of_parts(
    a: Seq<(Seq<char>, JsonModel)>,
    b: Seq<(Seq<char>, JsonModel)>,
    key: Seq<char>,
)
    ensures
        has_key(a + b, key) <==> has_key(a, key) || has_key(b, key),
{
    if has_key(a, key) {
        let i = choose|i: int| 0 <= i < a.len() && (#[trigger] a[i]).0 == key;
        assert((a + b)[i] == a[i]);
    }
    if has_key(b, key) {
        let i = choose|i: int| 0 <= i < b.len() && (#[trigger] b[i]).0 == key;
        assert((a + b)[a.len() + i] == b[i]);
    }
    if has_key(a + b, key) {
        let i = choose|i: int| 0 <= i < (a + b).len() && (#[trigger] (a + b)[i]).0 == key;
        if i < a.len() {
            assert(a[i].0 == key);
        } else {
            assert(b[i - a.len()].0 == key);
        }
    }
}

/// A single field is a field under its own key alone, and the field of a
/// list is there exactly where the list is not empty.
proof fn lemma_has_key_of_field(
    key: Seq<char>,
    value: JsonModel,
    items: Seq<JsonModel>,
    k: Seq<char>,
)
    ensures
        has_key(field(key, value), k) <==> k == key,
        has_key(list_field(key, items), k) <==> k == key && items.len() > 0,
{
    assert(field(key, value)[0].0 == key);
    if items.len() > 0 {
        assert(list_field(key, items)[0].0 == key);
    }
}

/// The fields of a record; none for any other value.
pub open spec fn fields_of(m: JsonModel) -> Seq<(Seq<char>, JsonModel)> {
    match m {
        JsonModel::Record(fields) => fields,
        _ => Seq::empty(),
    }
}

/// Empty collections are left out of the JSON value of an item and of a
/// document: the field of a list is there exactly where the list is not
/// empty.
pub proof fn lemma_empty_lists_of_items_are_omitted(item: ItemDoc, ast: AstDoc)
    ensures
        has_key(fields_of(ast_model(ast)), "items"@) <==> ast.items.len() > 0,
        match item {
            ItemDoc::Function { name, parameters, return_type, body } => {
                &&& has_key(fields_of(item_model(item)), "parameters"@) <==> parameters.len() > 0
                &&& has_key(fields_of(item_model(item)), "body"@) <==> body.len() > 0
            },
            ItemDoc::Struct { name, fields } => has_key(fields_of(item_model(item)), "fields"@)
                <==> fields.len() > 0,
            ItemDoc::Enum { name, variants } => has_key(fields_of(item_model(item)), "variants"@)
                <==> variants.len() > 0,
            ItemDoc::Other { description } => true,
        },
{
    lemma_keys();
    lemma_has_key_of_field("items"@, JsonModel::Null, items_model(ast.items), "items"@);
    match item {
        ItemDoc::Function { name, parameters, return_type, body } => {
            let a = text_field("type"@, "Function"@);
            let b = text_field("name"@, name);
            let c = list_field("parameters"@, parameters_model(parameters));
            let d = field("return_type"@, text_or_null(return_type));
            let e = list_field("body"@, stmts_model(body));
            assert(fields_of(item_model(item)) == a + (b + c + d + e));
            assert forall|k: Seq<char>| k == "parameters"@ || k == "body"@ implies (has_key(
                fields_of(item_model(item)),
                k,
            ) <==> has_key(c, k) || has_key(e, k)) by {
                lemma_has_key_of_parts(a, b + c + d + e, k);
                lemma_has_key_of_parts(b + c + d, e, k);
                lemma_has_key_of_parts(b + c, d, k);
                lemma_has_key_of_parts(b, c, k);
                lemma_has_key_of_field("type"@, JsonModel::Text("Function"@), Seq::empty(), k);
                lemma_has_key_of_field("name"@, JsonModel::Text(name), Seq::empty(), k);
                lemma_has_key_of_field("return_type"@, text_or_null(return_type), Seq::empty(), k);
            }
            lemma_has_key_of_field(
                "parameters"@,
                JsonModel::Null,
                parameters_model(parameters),
                "parameters"@,
            );
            lemma_has_key_of_field(
                "parameters"@,
                JsonModel::Null,
                parameters_model(parameters),
                "body"@,
            );
            lemma_has_key_of_field("body"@, JsonModel::Null, stmts_model(body), "body"@);
            lemma_has_key_of_field("body"@, JsonModel::Null, stmts_model(body), "parameters"@);
        },
        ItemDoc::Struct { name, fields } => {
            let a = text_field("type"@, "Struct"@);
            let b = text_field("name"@, name);
            let c = list_field("fields"@, fields_model(fields));
            let k = "fields"@;
            lemma_has_key_of_parts(a, b + c, k);
            lemma_has_key_of_parts(b, c, k);
            lemma_has_key_of_field("type"@, JsonModel::Text("Struct"@), Seq::empty(), k);
            lemma_has_key_of_field("name"@, JsonModel::Text(name), Seq::empty(), k);
            lemma_has_key_of_field(k, JsonModel::Null, fields_model(fields), k);
        },
        ItemDoc::Enum { name, variants } => {
            let a = text_field("type"@, "Enum"@);
            let b = text_field("name"@, name);
            let c = list_field("variants"@, variants_model(variants));
            let k = "variants"@;
            lemma_has_key_of_parts(a, b + c, k);
            lemma_has_key_of_parts(b, c, k);
            lemma_has_key_of_field("type"@, JsonModel::Text("Enum"@), Seq::empty(), k);
            lemma_has_key_of_field("name"@, JsonModel::Text(name), Seq::empty(), k);
            lemma_has_key_of_field(k, JsonModel::Null, variants_model(variants), k);
        },
        ItemDoc::Other { description } => {},
    }
}

/// Empty collections are left out of the JSON value of an expression: the
/// field of the arguments of a call, of the then-branch of an `if` and of
/// the body of a loop is there exactly where the list is not empty.
pub proof fn lemma_empty_lists_of_expressions_are_omitted(e: ExprDoc)
    ensures
        match e {
            ExprDoc::FunctionCall { function, arguments } => has_key(
                fields_of(expr_model(e)),
                "arguments"@,
            ) <==> arguments.len() > 0,
            ExprDoc::If { condition, then_branch, else_branch } => has_key(
                fields_of(expr_model(e)),
                "then_branch"@,
            ) <==> then_branch.len() > 0,
            ExprDoc::Loop { body } => has_key(fields_of(expr_model(e)), "body"@) <==> body.len()
                > 0,
            ExprDoc::While { condition, body } => has_key(fields_of(expr_model(e)), "body"@)
                <==> body.len() > 0,
            _ => true,
        },
{
    lemma_keys();
    match e {
        ExprDoc::FunctionCall { function, arguments } => {
            let a = text_field("type"@, "FunctionCall"@);
            let b = field("function"@, expr_model(*function));
            let c = list_field("arguments"@, exprs_model(arguments));
            let k = "arguments"@;
            lemma_has_key_of_parts(a, b + c, k);
            lemma_has_key_of_parts(b, c, k);
            lemma_has_key_of_field("type"@, JsonModel::Text("FunctionCall"@), Seq::empty(), k);
            lemma_has_key_of_field("function"@, expr_model(*function), Seq::empty(), k);
            lemma_has_key_of_field(k, JsonModel::Null, exprs_model(arguments), k);
        },
        ExprDoc::If { condition, then_branch, else_branch } => {
            let a = text_field("type"@, "If"@);
            let b = field("condition"@, expr_model(*condition));
            let c = list_field("then_branch"@, stmts_model(then_branch));
            let d = field("else_branch"@, optional_expr_model(else_branch));
            let k = "then_branch"@;
            lemma_has_key_of_parts(a, b + c + d, k);
            lemma_has_key_of_parts(b + c, d, k);
            lemma_has_key_of_parts(b, c, k);
            lemma_has_key_of_field("type"@, JsonModel::Text("If"@), Seq::empty(), k);
            lemma_has_key_of_field("condition"@, expr_model(*condition), Seq::empty(), k);
            lemma_has_key_of_field(
                "else_branch"@,
                optional_expr_model(else_branch),
                Seq::empty(),
                k,
            );
            lemma_has_key_of_field(k, JsonModel::Null, stmts_model(then_branch), k);
        },
        ExprDoc::Loop { body } => {
            let a = text_field("type"@, "Loop"@);
            let c = list_field("body"@, stmts_model(body));
            let k = "body"@;
            lemma_has_key_of_parts(a, c, k);
            lemma_has_key_of_field("type"@, JsonModel::Text("Loop"@), Seq::empty(), k);
            lemma_has_key_of_field(k, JsonModel::Null, stmts_model(body), k);
        },
        ExprDoc::While { condition, body } => {
            let a = text_field("type"@, "While"@);
            let b = field("condition"@, expr_model(*condition));
            let c = list_field("body"@, stmts_model(body));
            let k = "body"@;
            lemma_has_key_of_parts(a, b + c, k);
            lemma_has_key_of_parts(b, c, k);
            lemma_has_key_of_field("type"@, JsonModel::Text("While"@), Seq::empty(), k);
            lemma_has_key_of_field("condition"@, expr_model(*condition), Seq::empty(), k);
            lemma_has_key_of_field(k, JsonModel::Null, stmts_model(body), k);
        },
        _ => {},
    }
}

/// One field of a record under construction.
fn entry(key: &str, value: serde_json::Value) -> (f: (String, serde_json::Value))
    ensures
        f.0@ == key@,
        f.1 == value,
{
    (String::from_str(key), value)
}

/// A record under construction that has no field yet.
fn no_fields() -> (fields: Vec<(String, serde_json::Value)>)
    ensures
        entries(fields@) == Seq::<(Seq<char>, JsonModel)>::empty(),
        distinct_keys(entries(fields@)),
        forall|k: Seq<char>| !#[trigger] has_key(entries(fields@), k),
{
    let fields: Vec<(String, serde_json::Value)> = Vec::new();
    assert(entries(fields@) =~= Seq::<(Seq<char>, JsonModel)>::empty());
    fields
}

/// Adds a field at the end of a record under construction.
fn add_field(fields: &mut Vec<(String, serde_json::Value)>, key: &str, value: serde_json::Value)
    requires
        distinct_keys(entries(old(fields)@)),
        !has_key(entries(old(fields)@), key@),
    ensures
        entries(final(fields)@) == entries(old(fields)@) + field(key@, json_model(value)),
        distinct_keys(entries(final(fields)@)),
        forall|k: Seq<char>| #[trigger]
            has_key(entries(final(fields)@), k) ==> has_key(entries(old(fields)@), k) || k == key@,
{
    let ghost before = entries(fields@);
    fields.push(entry(key, value));
    assert(entries(fields@) =~= before + field(key@, json_model(value)));
    assert forall|i: int, j: int| 0 <= i < j < entries(fields@).len() implies entries(
        fields@,
    )[i].0 != entries(fields@)[j].0 by {
        assert(entries(fields@)[i] == before[i]);
        if j < before.len() {
            assert(entries(fields@)[j] == before[j]);
        }
    }
    assert forall|k: Seq<char>| #[trigger] has_key(entries(fields@), k) implies has_key(before, k)
        || k == key@ by {
        let i = choose|i: int| 0 <= i < entries(fields@).len() && (#[trigger] entries(
            fields@,
        )[i]).0 == k;
        if i < before.len() {
            assert(before[i].0 == k);
        }
    }
}

/// Adds the field of a list at the end of a record under construction,
/// unless the list is empty.
fn add_list(fields: &mut Vec<(String, serde_json::Value)>, key: &str, items: Vec<serde_json::Value>)
    requires
        distinct_keys(entries(old(fields)@)),
        !has_key(entries(old(fields)@), key@),
    ensures
        entries(final(fields)@) == entries(old(fields)@) + list_field(key@, models(items@)),
        distinct_keys(entries(final(fields)@)),
        forall|k: Seq<char>| #[trigger]
            has_key(entries(final(fields)@), k) ==> has_key(entries(old(fields)@), k) || k == key@,
{
    if items.len() > 0 {
        add_field(fields, key, json_list(items));
    } else {
        assert(entries(fields@) =~= entries(old(fields)@) + list_field(key@, models(items@)));
    }
}

/// The value of a node: the discriminator first, then the payload.
fn node(kind: &str, payload: Vec<(String, serde_json::Value)>) -> (v: serde_json::Value)
    requires
        distinct_keys(entries(payload@)),
        !has_key(entries(payload@), "type"@),
    ensures
        json_model(v) == tagged(kind@, entries(payload@)),
{
    let mut payload = payload;
    let ghost given = entries(payload@);
    let mut fields: Vec<(String, serde_json::Value)> = Vec::new();
    fields.push(entry("type", json_text(kind)));
    fields.append(&mut payload);
    assert(entries(fields@) =~= text_field("type"@, kind@) + given);
    assert forall|i: int, j: int| 0 <= i < j < entries(fields@).len() implies entries(
        fields@,
    )[i].0 != entries(fields@)[j].0 by {
        assert(entries(fields@)[j] == given[j - 1]);
        if i > 0 {
            assert(entries(fields@)[i] == given[i - 1]);
        }
    }
    json_record(fields)
}

/// The value of an optional text.
fn encode_text_or_null(t: &Option<String>) -> (v: serde_json::Value)
    ensures
        json_model(v) == text_or_null(text_view(*t)),
{
    match t {
        Some(s) => json_text(s.as_str()),
        None => json_null(),
    }
}

/// The value of an optional expression node.
fn encode_optional_expr(e: &Option<Box<ExprJson>>) -> (v: serde_json::Value)
    ensures
        json_model(v) == optional_expr_model(optional_expr_view(*e)),
    decreases *e,
{
    match e {
        Some(inner) => encode_expr(inner),
        None => json_null(),
    }
}

/// The value of an expression node.
pub fn encode_expr(e: &ExprJson) -> (v: serde_json::Value)
    ensures
        json_model(v) == expr_model(e@),
    decreases *e,
{
    proof {
        lemma_keys();
    }
    let mut fields = no_fields();
    match e {
        ExprJson::IntLiteral { value } => {
            add_field(&mut fields, "value", json_text(value.as_str()));
            node("IntLiteral", fields)
        },
        ExprJson::FloatLiteral { value } => {
            add_field(&mut fields, "value", json_text(value.as_str()));
            node("FloatLiteral", fields)
        },
        ExprJson::StringLiteral { value } => {
            add_field(&mut fields, "value", json_text(value.as_str()));
            node("StringLiteral", fields)
        },
        ExprJson::BoolLiteral { value } => {
            add_field(&mut fields, "value", json_bool(*value));
            node("BoolLiteral", fields)
        },
        ExprJson::Binary { operator, left, right } => {
            add_field(&mut fields, "operator", json_text(operator.as_str()));
            add_field(&mut fields, "left", encode_expr(left));
            add_field(&mut fields, "right", encode_expr(right));
            node("Binary", fields)
        },
        ExprJson::FunctionCall { function, arguments } => {
            add_field(&mut fields, "function", encode_expr(function));
            add_list(&mut fields, "arguments", encode_exprs(arguments));
            node("FunctionCall", fields)
        },
        ExprJson::Identifier { name } => {
            add_field(&mut fields, "name", json_text(name.as_str()));
            node("Identifier", fields)
        },
        ExprJson::If { condition, then_branch, else_branch } => {
            add_field(&mut fields, "condition", encode_expr(condition));
            add_list(&mut fields, "then_branch", encode_stmts(then_branch));
            add_field(&mut fields, "else_branch", encode_optional_expr(else_branch));
            node("If", fields)
        },
        ExprJson::Loop { body } => {
            add_list(&mut fields, "body", encode_stmts(body));
            node("Loop", fields)
        },
        ExprJson::While { condition, body } => {
            add_field(&mut fields, "condition", encode_expr(condition));
            add_list(&mut fields, "body", encode_stmts(body));
            node("While", fields)
        },
        ExprJson::Return { value } => {
            add_field(&mut fields, "value", encode_optional_expr(value));
            node("Return", fields)
        },
        ExprJson::Other { description } => {
            add_field(&mut fields, "description", json_text(description.as_str()));
            node("Other", fields)
        },
    }
}

/// The values of the expression nodes of a list, in order.
pub fn encode_exprs(es: &Vec<ExprJson>) -> (vs: Vec<serde_json::Value>)
    ensures
        models(vs@) == exprs_model(exprs_view(es@)),
    decreases *es,
{
    let mut vs: Vec<serde_json::Value> = Vec::new();
    let mut i: usize = 0;
    while i < es.len()
        invariant
            i <= es.len(),
            vs@.len() == i,
            forall|k: int| 0 <= k < i ==> json_model(#[trigger] vs@[k]) == expr_model(es@[k]@),
        decreases es.len() - i,
    {
        let v = encode_expr(&es[i]);
        vs.push(v);
        i = i + 1;
    }
    assert(models(vs@) =~= exprs_model(exprs_view(es@)));
    vs
}

/// The value of a statement node.
pub fn encode_stmt(s: &StmtJson) -> (v: serde_json::Value)
    ensures
        json_model(v) == stmt_model(s@),
    decreases *s,
{
    proof {
        lemma_keys();
    }
    let mut fields = no_fields();
    match s {
        StmtJson::VariableDeclaration { name, initializer } => {
            add_field(&mut fields, "name", json_text(name.as_str()));
            add_field(&mut fields, "initializer", encode_optional_expr(initializer));
            node("VariableDeclaration", fields)
        },
        StmtJson::Expression { expr } => {
            add_field(&mut fields, "expr", encode_expr(expr));
            node("Expression", fields)
        },
        StmtJson::Other { description } => {
            add_field(&mut fields, "description", json_text(description.as_str()));
            node("Other", fields)
        },
    }
}

/// The values of the statement nodes of a list, in order.
pub fn encode_stmts(ss: &Vec<StmtJson>) -> (vs: Vec<serde_json::Value>)
    ensures
        models(vs@) == stmts_model(stmts_view(ss@)),
    decreases *ss,
{
    let mut vs: Vec<serde_json::Value> = Vec::new();
    let mut i: usize = 0;
    while i < ss.len()
        invariant
            i <= ss.len(),
            vs@.len() == i,
            forall|k: int| 0 <= k < i ==> json_model(#[trigger] vs@[k]) == stmt_model(ss@[k]@),
        decreases ss.len() - i,
    {
        let v = encode_stmt(&ss[i]);
        vs.push(v);
        i = i + 1;
    }
    assert(models(vs@) =~= stmts_model(stmts_view(ss@)));
    vs
}

/// The value of a parameter entry.
fn encode_parameter(p: &ParameterJson) -> (v: serde_json::Value)
    ensures
        json_model(v) == parameter_model(p@),
{
    proof {
        lemma_keys();
    }
    let mut fields = no_fields();
    add_field(&mut fields, "name", json_text(p.name.as_str()));
    add_field(&mut fields, "type_info", json_text(p.type_info.as_str()));
    json_record(fields)
}

/// The value of a field entry.
fn encode_field(f: &FieldJson) -> (v: serde_json::Value)
    ensures
        json_model(v) == field_model(f@),
{
    proof {
        lemma_keys();
    }
    let mut fields = no_fields();
    add_field(&mut fields, "name", encode_text_or_null(&f.name));
    add_field(&mut fields, "type_info", json_text(f.type_info.as_str()));
    json_record(fields)
}

/// The value of a variant entry.
fn encode_variant(variant: &VariantJson) -> (v: serde_json::Value)
    ensures
        json_model(v) == variant_model(variant@),
{
    let mut fields = no_fields();
    add_field(&mut fields, "name", json_text(variant.name.as_str()));
    json_record(fields)
}

/// The values of the parameter entries of a list, in order.
fn encode_parameters(ps: &Vec<ParameterJson>) -> (vs: Vec<serde_json::Value>)
    ensures
        models(vs@) == parameters_model(views(ps@)),
{
    let mut vs: Vec<serde_json::Value> = Vec::new();
    let mut i: usize = 0;
    while i < ps.len()
        invariant
            i <= ps.len(),
            vs@.len() == i,
            forall|k: int| 0 <= k < i ==> json_model(#[trigger] vs@[k]) == parameter_model(ps@[k]@),
        decreases ps.len() - i,
    {
        vs.push(encode_parameter(&ps[i]));
        i = i + 1;
    }
    assert(models(vs@) =~= parameters_model(views(ps@)));
    vs
}

/// The values of the field entries of a list, in order.
fn encode_fields(fs: &Vec<FieldJson>) -> (vs: Vec<serde_json::Value>)
    ensures
        models(vs@) == fields_model(views(fs@)),
{
    let mut vs: Vec<serde_json::Value> = Vec::new();
    let mut i: usize = 0;
    while i < fs.len()
        invariant
            i <= fs.len(),
            vs@.len() == i,
            forall|k: int| 0 <= k < i ==> json_model(#[trigger] vs@[k]) == field_model(fs@[k]@),
        decreases fs.len() - i,
    {
        vs.push(encode_field(&fs[i]));
        i = i + 1;
    }
    assert(models(vs@) =~= fields_model(views(fs@)));
    vs
}

/// The values of the variant entries of a list, in order.
fn encode_variants(variants: &Vec<VariantJson>) -> (vs: Vec<serde_json::Value>)
    ensures
        models(vs@) == variants_model(views(variants@)),
{
    let mut vs: Vec<serde_json::Value> = Vec::new();
    let mut i: usize = 0;
    while i < variants.len()
        invariant
            i <= variants.len(),
            vs@.len() == i,
            forall|k: int|
                0 <= k < i ==> json_model(#[trigger] vs@[k]) == variant_model(variants@[k]@),
        decreases variants.len() - i,
    {
        vs.push(encode_variant(&variants[i]));
        i = i + 1;
    }
    assert(models(vs@) =~= variants_model(views(variants@)));
    vs
}

/// The value of an item node.
pub fn encode_item(item: &ItemJson) -> (v: serde_json::Value)
    ensures
        json_model(v) == item_model(item@),
{
    proof {
        lemma_keys();
    }
    let mut fields = no_fields();
    match item {
        ItemJson::Function { name, parameters, return_type, body } => {
            add_field(&mut fields, "name", json_text(name.as_str()));
            add_list(&mut fields, "parameters", encode_parameters(parameters));
            add_field(&mut fields, "return_type", encode_text_or_null(return_type));
            add_list(&mut fields, "body", encode_stmts(body));
            node("Function", fields)
        },
        ItemJson::Struct { name, fields: declared } => {
            add_field(&mut fields, "name", json_text(name.as_str()));
            add_list(&mut fields, "fields", encode_fields(declared));
            node("Struct", fields)
        },
        ItemJson::Enum { name, variants } => {
            add_field(&mut fields, "name", json_text(name.as_str()));
            add_list(&mut fields, "variants", encode_variants(variants));
            node("Enum", fields)
        },
        ItemJson::Other { description } => {
            add_field(&mut fields, "description", json_text(description.as_str()));
            node("Other", fields)
        },
    }
}

/// The values of the item nodes of a list, in order.
fn encode_items(items: &Vec<ItemJson>) -> (vs: Vec<serde_json::Value>)
    ensures
        models(vs@) == items_model(views(items@)),
{
    let mut vs: Vec<serde_json::Value> = Vec::new();
    let mut i: usize = 0;
    while i < items.len()
        invariant
            i <= items.len(),
            vs@.len() == i,
            forall|k: int| 0 <= k < i ==> json_model(#[trigger] vs@[k]) == item_model(items@[k]@),
        decreases items.len() - i,
    {
        vs.push(encode_item(&items[i]));
        i = i + 1;
    }
    assert(models(vs@) =~= items_model(views(items@)));
    vs
}

/// The value of a document.
pub fn encode_ast(ast: &AstJson) -> (v: serde_json::Value)
    ensures
        json_model(v) == ast_model(ast@),
{
    let mut fields = no_fields();
    add_list(&mut fields, "items", encode_items(&ast.items));
    json_record(fields)
}

/// The text to hand out for the outcome of an encoding: the text that was
/// written, or `{}` where the encoding failed.
pub fn text_or_empty(written: Result<String, serde_json::Error>) -> (text: String)
    ensures
        text@ == (match written {
            Ok(t) => t@,
            Err(_) => "{}"@,
        }),
{
    match written {
        Ok(t) => t,
        Err(_) => String::from_str("{}"),
    }
}

/// The pretty-printed JSON text of a document, or `{}` where the encoding
/// fails.
pub fn document_text(ast: &AstJson) -> (text: String)
    ensures
        text@ == text_or_empty_object(pretty_json(ast_model(ast@))),
{
    let value = encode_ast(ast);
    text_or_empty(write_pretty(&value))
}

} // verus!
