//! What the text renderer writes, as a function of the tree.
//!
//! The outline of a node is a sequence of lines. A line is the indentation of
//! the node's level followed by a label; children are indented two columns
//! deeper than the line that introduces them.

use vstd::prelude::*;
use crate::syntax::{operator_symbol, pattern_name, Expr, Field, FnArg, Item, ItemFn, Lit, Stmt};

verus! {

/// `n` spaces.
pub open spec fn indentation(n: nat) -> Seq<char> {
    Seq::new(n, |i: int| ' ')
}

/// One line: `n` spaces, then the label.
pub open spec fn outline(n: nat, label: Seq<char>) -> Seq<char> {
    indentation(n) + label
}

/// The text of a boolean value.
pub open spec fn bool_text(b: bool) -> Seq<char> {
    if b { "true"@ } else { "false"@ }
}

/// The line of a literal.
pub open spec fn lit_line(l: Lit, n: nat) -> Seq<char> {
    match l {
        Lit::Int { digits } => outline(n, "Integer literal: "@ + digits@),
        Lit::Float { digits } => outline(n, "Float literal: "@ + digits@),
        Lit::Str { value } => outline(n, "String literal: \""@ + value@ + "\""@),
        Lit::Bool { value } => outline(n, "Boolean literal: "@ + bool_text(value)),
        Lit::Other { text } => outline(n, "Other literal: "@ + text@),
    }
}

/// The one line of a label at indentation `n`.
pub open spec fn entry(n: nat, label: Seq<char>) -> Seq<Seq<char>> {
    seq![outline(n, label)]
}

/// No line at all.
pub open spec fn nothing() -> Seq<Seq<char>> {
    Seq::empty()
}

/// The lines of an expression at indentation `n`.
pub open spec fn expr_lines(e: Expr, n: nat) -> Seq<Seq<char>>
    decreases e,
{
    match e {
        Expr::Lit(l) => seq![lit_line(l, n)],
        Expr::Binary { op, left, right } => {
            entry(n, "Binary expression: "@ + operator_symbol(op))
                + entry(n, "Left:"@) + expr_lines(*left, n + 2)
                + entry(n, "Right:"@) + expr_lines(*right, n + 2)
        },
        Expr::Call { func, args } => {
            entry(n, "Function call:"@)
                + entry(n, "Function:"@) + expr_lines(*func, n + 2)
                + (if args@.len() == 0 {
                nothing()
            } else {
                entry(n, "Arguments:"@) + exprs_lines(args@, n + 2)
            })
        },
        Expr::Path { text } => entry(n, "Identifier: "@ + text@),
        Expr::If { cond, then_branch, else_branch } => {
            entry(n, "If statement:"@)
                + entry(n, "Condition:"@) + expr_lines(*cond, n + 2)
                + entry(n, "Then branch:"@) + stmts_lines(then_branch@, n + 2)
                + (match else_branch {
                Some(other) => entry(n, "Else branch:"@) + expr_lines(*other, n + 2),
                None => nothing(),
            })
        },
        Expr::Loop { body } => entry(n, "Loop:"@) + stmts_lines(body@, n + 2),
        Expr::While { cond, body } => {
            entry(n, "While loop:"@)
                + entry(n, "Condition:"@) + expr_lines(*cond, n + 2)
                + entry(n, "Body:"@) + stmts_lines(body@, n + 2)
        },
        Expr::Return { value } => entry(n, "Return statement:"@) + (match value {
            Some(v) => expr_lines(*v, n + 2),
            None => nothing(),
        }),
        Expr::Other { text } => entry(n, "Other expression: "@ + text@),
    }
}

/// The lines of a list of expressions, one after the other.
pub open spec fn exprs_lines(es: Seq<Expr>, n: nat) -> Seq<Seq<char>>
    decreases es,
{
    if es.len() == 0 {
        nothing()
    } else {
        exprs_lines(es.drop_last(), n) + expr_lines(es.last(), n)
    }
}

/// The lines of a statement at indentation `n`. An item in statement
/// position is rendered as an item.
pub open spec fn stmt_lines(s: Stmt, n: nat) -> Seq<Seq<char>>
    decreases s,
{
    match s {
        Stmt::Local { pat, init } => {
            entry(n, "Variable declaration:"@) + entry(n, "Name: "@ + pattern_name(pat))
                + (match init {
                Some(e) => entry(n, "Initializer:"@) + expr_lines(e, n + 2),
                None => nothing(),
            })
        },
        Stmt::Expr(e) => entry(n, "Expression statement:"@) + expr_lines(e, n + 2),
        Stmt::Item { item, text } => item_lines(item, n),
        Stmt::Other { text } => entry(n, "Other statement: "@ + text@),
    }
}

/// The lines of a list of statements, one after the other.
pub open spec fn stmts_lines(ss: Seq<Stmt>, n: nat) -> Seq<Seq<char>>
    decreases ss,
{
    if ss.len() == 0 {
        nothing()
    } else {
        stmts_lines(ss.drop_last(), n) + stmt_lines(ss.last(), n)
    }
}

/// The line of one parameter: a receiver by its text, any other parameter
/// by the name that its pattern declares and the text of its type.
pub open spec fn param_line(p: FnArg, n: nat) -> Seq<char> {
    match p {
        FnArg::Receiver { text } => outline(n, "Self receiver: "@ + text@),
        FnArg::Typed { pat, ty } => outline(
            n,
            "Parameter: "@ + pattern_name(pat) + " - Type: "@ + ty@,
        ),
    }
}

/// The lines of a parameter list: one for each parameter, in declaration
/// order.
pub open spec fn params_lines(ps: Seq<FnArg>, n: nat) -> Seq<Seq<char>> {
    Seq::new(ps.len(), |i: int| param_line(ps[i], n))
}

/// The line of one struct field.
pub open spec fn field_line(f: Field, n: nat) -> Seq<char> {
    match f.name {
        Some(name) => outline(n, "Field: "@ + name@ + " - Type: "@ + f.ty@),
        None => outline(n, "Tuple field: "@ + f.ty@),
    }
}

/// The line of one enum variant.
pub open spec fn variant_line(name: String, n: nat) -> Seq<char> {
    outline(n, "Variant: "@ + name@)
}

/// The lines of a function: its header, then, one level deeper, its
/// parameters, its return type and its body.
pub open spec fn item_fn_lines(f: ItemFn, n: nat) -> Seq<Seq<char>>
    decreases f,
{
    entry(n, "Function: "@ + f.name@) + (if f.inputs@.len() == 0 {
        nothing()
    } else {
        entry(n + 2, "Parameters:"@) + params_lines(f.inputs@, n + 4)
    }) + (match f.output {
        Some(ty) => entry(n + 2, "Return type: "@ + ty@),
        None => nothing(),
    }) + entry(n + 2, "Body:"@) + stmts_lines(f.body@, n + 4)
}

/// The lines of an item at indentation `n`.
pub open spec fn item_lines(item: Item, n: nat) -> Seq<Seq<char>>
    decreases item,
{
    match item {
        Item::Fn(f) => item_fn_lines(f, n),
        Item::Struct { name, fields } => entry(n, "Struct: "@ + name@) + (if fields@.len() == 0 {
            nothing()
        } else {
            entry(n, "Fields:"@) + Seq::new(fields@.len(), |i: int| field_line(fields@[i], n + 2))
        }),
        Item::Enum { name, variants } => entry(n, "Enum: "@ + name@) + (if variants@.len() == 0 {
            nothing()
        } else {
            entry(n, "Variants:"@) + Seq::new(
                variants@.len(),
                |i: int| variant_line(variants@[i], n + 2),
            )
        }),
        Item::Other { text } => entry(n, "Other item: "@ + text@),
    }
}

/// The lines of a list of items, one after the other.
pub open spec fn items_lines(items: Seq<Item>, n: nat) -> Seq<Seq<char>>
    decreases items,
{
    if items.len() == 0 {
        nothing()
    } else {
        items_lines(items.drop_last(), n) + item_lines(items.last(), n)
    }
}

/// A line that begins with at least `n` spaces.
pub open spec fn at_least(line: Seq<char>, n: nat) -> bool {
    line.len() >= n && forall|j: int| 0 <= j < n ==> line[j] == ' '
}

/// A line that begins with exactly `n` spaces.
pub open spec fn exactly_at(line: Seq<char>, n: nat) -> bool {
    at_least(line, n) && line.len() > n && line[n as int] != ' '
}

/// Lines that each begin with at least `n` spaces.
pub open spec fn indented(lines: Seq<Seq<char>>, n: nat) -> bool {
    forall|i: int| 0 <= i < lines.len() ==> at_least(#[trigger] lines[i], n)
}

/// A line written at indentation `m` begins with at least `n` spaces, for
/// every `n` up to `m`.
proof fn lemma_outline_at_least(n: nat)
    ensures
        forall|m: nat, label: Seq<char>| n <= m ==> at_least(#[trigger] outline(m, label), n),
{
}

/// A line written at indentation `n` whose label does not begin with a
/// space begins with exactly `n` spaces.
proof fn lemma_outline_exact(n: nat, label: Seq<char>)
    requires
        label.len() > 0,
        label[0] != ' ',
    ensures
        exactly_at(outline(n, label), n),
{
}

/// Every line of the outline of an expression rendered at indentation `n`
/// begins with at least `n` spaces: nothing below a node is written to the
/// left of it.
pub proof fn lemma_expr_indented(e: Expr, n: nat, m: nat)
    requires
        m <= n,
    ensures
        indented(expr_lines(e, n), m),
    decreases e,
{
    lemma_outline_at_least(m);
    match e {
        Expr::Lit(l) => {},
        Expr::Binary { op, left, right } => {
            lemma_expr_indented(*left, n + 2, m);
            lemma_expr_indented(*right, n + 2, m);
        },
        Expr::Call { func, args } => {
            lemma_expr_indented(*func, n + 2, m);
            lemma_exprs_indented(args@, n + 2, m);
        },
        Expr::Path { text } => {},
        Expr::If { cond, then_branch, else_branch } => {
            lemma_expr_indented(*cond, n + 2, m);
            lemma_stmts_indented(then_branch@, n + 2, m);
            match else_branch {
                Some(other) => lemma_expr_indented(*other, n + 2, m),
                None => {},
            }
        },
        Expr::Loop { body } => {
            lemma_stmts_indented(body@, n + 2, m);
        },
        Expr::While { cond, body } => {
            lemma_expr_indented(*cond, n + 2, m);
            lemma_stmts_indented(body@, n + 2, m);
        },
        Expr::Return { value } => {
            match value {
                Some(v) => lemma_expr_indented(*v, n + 2, m),
                None => {},
            }
        },
        Expr::Other { text } => {},
    }
}

/// `lemma_expr_indented` for a list of expressions.
pub proof fn lemma_exprs_indented(es: Seq<Expr>, n: nat, m: nat)
    requires
        m <= n,
    ensures
        indented(exprs_lines(es, n), m),
    decreases es,
{
    if es.len() > 0 {
        lemma_exprs_indented(es.drop_last(), n, m);
        lemma_expr_indented(es.last(), n, m);
    }
}

/// Every line of the outline of a statement rendered at indentation `n`
/// begins with at least `n` spaces.
pub proof fn lemma_stmt_indented(s: Stmt, n: nat, m: nat)
    requires
        m <= n,
    ensures
        indented(stmt_lines(s, n), m),
    decreases s,
{
    lemma_outline_at_least(m);
    match s {
        Stmt::Local { pat, init } => {
            match init {
                Some(e) => lemma_expr_indented(e, n + 2, m),
                None => {},
            }
        },
        Stmt::Expr(e) => {
            lemma_expr_indented(e, n + 2, m);
        },
        Stmt::Item { item, text } => {
            lemma_item_indented(item, n, m);
        },
        Stmt::Other { text } => {},
    }
}

/// `lemma_stmt_indented` for a list of statements.
pub proof fn lemma_stmts_indented(ss: Seq<Stmt>, n: nat, m: nat)
    requires
        m <= n,
    ensures
        indented(stmts_lines(ss, n), m),
    decreases ss,
{
    if ss.len() > 0 {
        lemma_stmts_indented(ss.drop_last(), n, m);
        lemma_stmt_indented(ss.last(), n, m);
    }
}

/// Every line of a parameter list rendered at indentation `n` begins with
/// at least `n` spaces.
proof fn lemma_params_indented(ps: Seq<FnArg>, n: nat, m: nat)
    requires
        m <= n,
    ensures
        indented(params_lines(ps, n), m),
{
    lemma_outline_at_least(m);
}

/// Every line of the outline of an item rendered at indentation `n` begins
/// with at least `n` spaces.
pub proof fn lemma_item_indented(item: Item, n: nat, m: nat)
    requires
        m <= n,
    ensures
        indented(item_lines(item, n), m),
    decreases item,
{
    lemma_outline_at_least(m);
    match item {
        Item::Fn(f) => {
            lemma_params_indented(f.inputs@, n + 4, m);
            lemma_stmts_indented(f.body@, n + 4, m);
        },
        Item::Struct { name, fields } => {},
        Item::Enum { name, variants } => {},
        Item::Other { text } => {},
    }
}

/// The first line of the outline of an expression rendered at indentation
/// `n` begins with exactly `n` spaces.
pub proof fn lemma_expr_first_line(e: Expr, n: nat)
    ensures
        expr_lines(e, n).len() > 0,
        exactly_at(expr_lines(e, n)[0], n),
{
    reveal_strlit("Integer literal: ");
    reveal_strlit("Float literal: ");
    reveal_strlit("String literal: \"");
    reveal_strlit("Boolean literal: ");
    reveal_strlit("Other literal: ");
    reveal_strlit("Binary expression: ");
    reveal_strlit("Function call:");
    reveal_strlit("Identifier: ");
    reveal_strlit("If statement:");
    reveal_strlit("Loop:");
    reveal_strlit("While loop:");
    reveal_strlit("Return statement:");
    reveal_strlit("Other expression: ");
    match e {
        Expr::Lit(l) => match l {
            Lit::Int { digits } => lemma_outline_exact(n, "Integer literal: "@ + digits@),
            Lit::Float { digits } => lemma_outline_exact(n, "Float literal: "@ + digits@),
            Lit::Str { value } => lemma_outline_exact(n, "String literal: \""@ + value@ + "\""@),
            Lit::Bool { value } => lemma_outline_exact(n, "Boolean literal: "@ + bool_text(value)),
            Lit::Other { text } => lemma_outline_exact(n, "Other literal: "@ + text@),
        },
        Expr::Binary { op, left, right } => lemma_outline_exact(
            n,
            "Binary expression: "@ + operator_symbol(op),
        ),
        Expr::Call { func, args } => lemma_outline_exact(n, "Function call:"@),
        Expr::Path { text } => lemma_outline_exact(n, "Identifier: "@ + text@),
        Expr::If { cond, then_branch, else_branch } => lemma_outline_exact(n, "If statement:"@),
        Expr::Loop { body } => lemma_outline_exact(n, "Loop:"@),
        Expr::While { cond, body } => lemma_outline_exact(n, "While loop:"@),
        Expr::Return { value } => lemma_outline_exact(n, "Return statement:"@),
        Expr::Other { text } => lemma_outline_exact(n, "Other expression: "@ + text@),
    }
}

/// The first line of the outline of an item rendered at indentation `n`
/// begins with exactly `n` spaces.
pub proof fn lemma_item_first_line(item: Item, n: nat)
    ensures
        item_lines(item, n).len() > 0,
        exactly_at(item_lines(item, n)[0], n),
{
    reveal_strlit("Function: ");
    reveal_strlit("Struct: ");
    reveal_strlit("Enum: ");
    reveal_strlit("Other item: ");
    match item {
        Item::Fn(f) => lemma_outline_exact(n, "Function: "@ + f.name@),
        Item::Struct { name, fields } => lemma_outline_exact(n, "Struct: "@ + name@),
        Item::Enum { name, variants } => lemma_outline_exact(n, "Enum: "@ + name@),
        Item::Other { text } => lemma_outline_exact(n, "Other item: "@ + text@),
    }
}

/// The first line of the outline of a statement rendered at indentation
/// `n` begins with exactly `n` spaces.
pub proof fn lemma_stmt_first_line(s: Stmt, n: nat)
    ensures
        stmt_lines(s, n).len() > 0,
        exactly_at(stmt_lines(s, n)[0], n),
{
    reveal_strlit("Variable declaration:");
    reveal_strlit("Expression statement:");
    reveal_strlit("Other statement: ");
    match s {
        Stmt::Local { pat, init } => lemma_outline_exact(n, "Variable declaration:"@),
        Stmt::Expr(e) => lemma_outline_exact(n, "Expression statement:"@),
        Stmt::Item { item, text } => lemma_item_first_line(item, n),
        Stmt::Other { text } => lemma_outline_exact(n, "Other statement: "@ + text@),
    }
}

/// Nesting in the outline follows nesting in the tree. The header of an
/// `if` rendered at indentation `n` begins with exactly `n` spaces; every
/// line of its condition begins with at least `n + 2`; the outline of the
/// `if` holds, after the condition, the outline of its then-branch rendered
/// two columns deeper, and every line of a statement of the then-branch
/// begins with at least `n + 2` spaces, its first line with exactly `n + 2`.
pub proof fn lemma_then_branch_is_deeper(
    cond: Expr,
    then_branch: Vec<Stmt>,
    else_branch: Option<Box<Expr>>,
    n: nat,
    k: int,
)
    requires
        0 <= k < then_branch@.len(),
    ensures
        ({
            let node = Expr::If { cond: Box::new(cond), then_branch, else_branch };
            let head = entry(n, "If statement:"@) + entry(n, "Condition:"@) + expr_lines(
                cond,
                n + 2,
            ) + entry(n, "Then branch:"@);
            &&& expr_lines(node, n)[0] == outline(n, "If statement:"@)
            &&& exactly_at(expr_lines(node, n)[0], n)
            &&& indented(expr_lines(cond, n + 2), n + 2)
            &&& expr_lines(node, n).subrange(
                head.len() as int,
                (head.len() + stmts_lines(then_branch@, n + 2).len()) as int,
            ) == stmts_lines(then_branch@, n + 2)
            &&& indented(stmts_lines(then_branch@, n + 2), n + 2)
            &&& indented(stmt_lines(then_branch@[k], n + 2), n + 2)
            &&& exactly_at(stmt_lines(then_branch@[k], n + 2)[0], n + 2)
        }),
{
    let node = Expr::If { cond: Box::new(cond), then_branch, else_branch };
    let head = entry(n, "If statement:"@) + entry(n, "Condition:"@) + expr_lines(cond, n + 2)
        + entry(n, "Then branch:"@);
    lemma_expr_first_line(node, n);
    lemma_expr_indented(cond, n + 2, n + 2);
    lemma_stmts_indented(then_branch@, n + 2, n + 2);
    lemma_stmt_indented(then_branch@[k], n + 2, n + 2);
    lemma_stmt_first_line(then_branch@[k], n + 2);
    assert(expr_lines(node, n).subrange(
        head.len() as int,
        (head.len() + stmts_lines(then_branch@, n + 2).len()) as int,
    ) =~= stmts_lines(then_branch@, n + 2));
}

/// Indentation returns after a statement: whatever statement comes before
/// it in a list, the outline of the next statement follows at the
/// indentation of the list, and its first line begins with exactly that
/// many spaces.
pub proof fn lemma_sibling_returns(before: Seq<Stmt>, next: Stmt, n: nat)
    ensures
        stmts_lines(before.push(next), n) == stmts_lines(before, n) + stmt_lines(next, n),
        exactly_at(stmt_lines(next, n)[0], n),
{
    assert(before.push(next).drop_last() =~= before);
    lemma_stmt_first_line(next, n);
}

} // verus!
