//! What holds of both renderers, whatever the tree.

use vstd::prelude::*;
use crate::json::{ExprDoc, ItemDoc, StmtDoc};
use crate::json_visitor::{
    expr_doc, field_doc, item_doc, items_docs, param_doc, stmt_doc, JsonVisitor,
};
use crate::outline::{
    entry, expr_lines, field_line, item_fn_lines, item_lines, items_lines, lemma_item_first_line,
    outline, param_line, stmt_lines,
};
use crate::render::file_doc;
use crate::serializer::{ast_model, pretty_json, text_or_empty_object};
use crate::syntax::{
    operator_symbol, pattern_name, BinOp, Expr, Field, FnArg, Item, ItemFn, SourceFile, Stmt,
};
use crate::parser::ast_lines;
use crate::text_visitor::{line_views, TextVisitor};

verus! {

/// A function has, in its node and in its outline, exactly one entry for
/// each declared parameter, in declaration order, with its name and type
/// text; a receiver is recorded under the name `self`. In the outline the
/// entries follow the header of the function and the line `Parameters:`,
/// two columns deeper than that line, and the return type or the body
/// follows them.
pub proof fn lemma_function_parameters(f: ItemFn, n: nat)
    ensures
        item_doc(Item::Fn(f))->Function_parameters.len() == f.inputs@.len(),
        forall|i: int|
            0 <= i < f.inputs@.len() ==> item_doc(Item::Fn(f))->Function_parameters[i]
                == param_doc(#[trigger] f.inputs@[i]),
        forall|i: int|
            0 <= i < f.inputs@.len() ==> match #[trigger] f.inputs@[i] {
                FnArg::Receiver { text } => {
                    &&& param_doc(f.inputs@[i]).name == "self"@
                    &&& param_doc(f.inputs@[i]).type_info == text@
                },
                FnArg::Typed { pat, ty } => {
                    &&& param_doc(f.inputs@[i]).name == pattern_name(pat)
                    &&& param_doc(f.inputs@[i]).type_info == ty@
                },
            },
        item_fn_lines(f, n)[0] == outline(n, "Function: "@ + f.name@),
        f.inputs@.len() > 0 ==> item_fn_lines(f, n)[1] == outline(n + 2, "Parameters:"@),
        forall|i: int|
            0 <= i < f.inputs@.len() ==> item_fn_lines(f, n)[2 + i] == param_line(
                #[trigger] f.inputs@[i],
                n + 4,
            ),
        f.inputs@.len() > 0 ==> item_fn_lines(f, n)[2 + f.inputs@.len() as int] == (match f.output {
            Some(ty) => outline(n + 2, "Return type: "@ + ty@),
            None => outline(n + 2, "Body:"@),
        }),
{
}

/// A struct has, in its node and in its outline, exactly one entry for
/// each declared field, in declaration order. The entry of a tuple field
/// has no name.
pub proof fn lemma_struct_fields(name: String, fields: Vec<Field>, n: nat)
    ensures
        item_doc(Item::Struct { name, fields })->Struct_fields.len() == fields@.len(),
        forall|i: int|
            0 <= i < fields@.len() ==> (#[trigger] item_doc(
                Item::Struct { name, fields },
            )->Struct_fields[i]) == field_doc(fields@[i]),
        forall|i: int|
            0 <= i < fields@.len() ==> (field_doc(#[trigger] fields@[i]).name is None
                <==> fields@[i].name is None),
        item_lines(Item::Struct { name, fields }, n)[0] == outline(n, "Struct: "@ + name@),
        fields@.len() > 0 ==> item_lines(Item::Struct { name, fields }, n)[1] == outline(
            n,
            "Fields:"@,
        ),
        fields@.len() > 0 ==> item_lines(Item::Struct { name, fields }, n).len() == 2
            + fields@.len(),
        forall|i: int|
            0 <= i < fields@.len() ==> (#[trigger] item_lines(Item::Struct { name, fields }, n)[2
                + i]) == field_line(fields@[i], n + 2),
        forall|i: int|
            0 <= i < fields@.len() && fields@[i].name is None ==> field_line(
                #[trigger] fields@[i],
                n + 2,
            ) == outline(n + 2, "Tuple field: "@ + fields@[i].ty@),
{
}

/// An enum has, in its node and in its outline, exactly the declared
/// variant names, in declaration order.
pub proof fn lemma_enum_variants(name: String, variants: Vec<String>, n: nat)
    ensures
        item_doc(Item::Enum { name, variants })->Enum_variants.len() == variants@.len(),
        forall|i: int|
            0 <= i < variants@.len() ==> (#[trigger] item_doc(
                Item::Enum { name, variants },
            )->Enum_variants[i]).name == variants@[i]@,
        item_lines(Item::Enum { name, variants }, n)[0] == outline(n, "Enum: "@ + name@),
        variants@.len() > 0 ==> item_lines(Item::Enum { name, variants }, n)[1] == outline(
            n,
            "Variants:"@,
        ),
        variants@.len() > 0 ==> item_lines(Item::Enum { name, variants }, n).len() == 2
            + variants@.len(),
        forall|i: int|
            0 <= i < variants@.len() ==> (#[trigger] item_lines(Item::Enum { name, variants }, n)[2
                + i]) == outline(n + 2, "Variant: "@ + variants@[i]@),
{
}

/// An operator with a symbol of its own.
pub open spec fn is_recognised(op: BinOp) -> bool {
    !(op is Other)
}

/// A binary expression is rendered under the symbol of its operator, in
/// the node and in the outline. Two recognised operators have the same
/// symbol only if they are the same operator, and no recognised operator
/// has the symbol of the others, `other_operator`.
pub proof fn lemma_operator_symbol(op: BinOp, other: BinOp, left: Expr, right: Expr, n: nat)
    ensures
        expr_doc(Expr::Binary { op, left: Box::new(left), right: Box::new(right) })->operator
            == operator_symbol(op),
        expr_lines(Expr::Binary { op, left: Box::new(left), right: Box::new(right) }, n)[0]
            == outline(n, "Binary expression: "@ + operator_symbol(op)),
        expr_lines(Expr::Binary { op, left: Box::new(left), right: Box::new(right) }, n) == entry(
            n,
            "Binary expression: "@ + operator_symbol(op),
        ) + entry(n, "Left:"@) + expr_lines(left, n + 2) + entry(n, "Right:"@) + expr_lines(
            right,
            n + 2,
        ),
        !is_recognised(op) ==> operator_symbol(op) == "other_operator"@,
        is_recognised(op) ==> operator_symbol(op) != "other_operator"@,
        is_recognised(op) && is_recognised(other) && operator_symbol(op) == operator_symbol(other)
            ==> op == other,
{
    reveal_strlit("+");
    reveal_strlit("-");
    reveal_strlit("*");
    reveal_strlit("/");
    reveal_strlit("==");
    reveal_strlit("<");
    reveal_strlit("<=");
    reveal_strlit("!=");
    reveal_strlit(">=");
    reveal_strlit(">");
    reveal_strlit("other_operator");
    assert(operator_symbol(op).len() >= 1);
    assert(operator_symbol(other).len() >= 1);
    let a = operator_symbol(op);
    let b = operator_symbol(other);
    if is_recognised(op) && is_recognised(other) && a == b {
        assert(a.len() == b.len());
        assert(a[0] == b[0]);
    }
}

/// A construct that is not decomposed is rendered by its text, in the node
/// and in the outline: it is neither dropped nor refused.
pub proof fn lemma_fallback(text: String, n: nat)
    ensures
        expr_doc(Expr::Other { text }) == (ExprDoc::Other { description: text@ }),
        expr_lines(Expr::Other { text }, n) == entry(n, "Other expression: "@ + text@),
        stmt_doc(Stmt::Other { text }) == (StmtDoc::Other { description: text@ }),
        stmt_lines(Stmt::Other { text }, n) == entry(n, "Other statement: "@ + text@),
        item_doc(Item::Other { text }) == (ItemDoc::Other { description: text@ }),
        item_lines(Item::Other { text }, n) == entry(n, "Other item: "@ + text@),
{
}

/// No item of a file is skipped: the document has one node for each item,
/// in declaration order, and the outline has at least one line for each.
pub proof fn lemma_no_item_is_skipped(items: Seq<Item>, n: nat)
    ensures
        items_docs(items).len() == items.len(),
        forall|i: int|
            0 <= i < items.len() ==> (#[trigger] items_docs(items)[i]) == item_doc(items[i]),
        items_lines(items, n).len() >= items.len(),
    decreases items.len(),
{
    if items.len() > 0 {
        lemma_no_item_is_skipped(items.drop_last(), n);
        lemma_item_first_line(items.last(), n);
    }
}

/// An item in statement position is rendered in the outline as the same
/// item is anywhere else.
pub proof fn lemma_nested_item(item: Item, text: String, n: nat)
    ensures
        stmt_lines(Stmt::Item { item, text }, n) == item_lines(item, n),
{
}

/// Printing is repeatable: two lists of lines that `print_ast` gives for the
/// same file hold the same text, line by line.
pub proof fn lemma_print_ast_is_repeatable(
    file: SourceFile,
    first: Vec<String>,
    second: Vec<String>,
)
    requires
        line_views(first@) == ast_lines(file),
        line_views(second@) == ast_lines(file),
    ensures
        first@.len() == second@.len(),
        forall|i: int| 0 <= i < first@.len() ==> (#[trigger] first@[i])@ == second@[i]@,
{
    assert(line_views(first@).len() == first@.len());
    assert(line_views(second@).len() == second@.len());
    assert forall|i: int| 0 <= i < first@.len() implies (#[trigger] first@[i])@ == second@[i]@ by {
        assert(line_views(first@)[i] == first@[i]@);
        assert(line_views(second@)[i] == second@[i]@);
    }
}

/// Rendering is repeatable. Two renderers that visit the same file from
/// the same state end with the same lines; two builders that process the
/// same file from the same document end with the same document, and that
/// document has one JSON text.
pub proof fn lemma_rendering_is_repeatable(
    file: SourceFile,
    start_a: TextVisitor,
    start_b: TextVisitor,
    end_a: TextVisitor,
    end_b: TextVisitor,
    doc_a: JsonVisitor,
    doc_b: JsonVisitor,
    text_a: Seq<char>,
    text_b: Seq<char>,
)
    requires
        start_a.indent == start_b.indent,
        start_a.lines() == start_b.lines(),
        end_a.lines() == start_a.lines() + items_lines(file.items@, start_a.indent as nat),
        end_b.lines() == start_b.lines() + items_lines(file.items@, start_b.indent as nat),
        doc_a.ast@ == file_doc(file),
        doc_b.ast@ == file_doc(file),
        text_a == text_or_empty_object(pretty_json(ast_model(doc_a.ast@))),
        text_b == text_or_empty_object(pretty_json(ast_model(doc_b.ast@))),
    ensures
        end_a.lines() == end_b.lines(),
        doc_a.ast@ == doc_b.ast@,
        text_a == text_b,
{
}

} // verus!
