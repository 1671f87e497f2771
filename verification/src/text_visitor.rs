//! The text renderer: walks a tree depth first and collects its outline,
//! one line per node, indented by nesting depth.
//!
//! The renderer works on every tree. The indentation grows by two columns
//! only below a line that has just been written at the current indentation,
//! and the length of a written line is a `usize`: so the indentation never
//! exceeds one.

use vstd::prelude::*;
use vstd::string::{StrSliceExecFns, StringExecFns};
use crate::outline::{
    expr_lines, exprs_lines, field_line, indentation, item_fn_lines, item_lines, items_lines,
    lit_line, outline, params_lines, stmt_lines, stmts_lines, variant_line,
};
use crate::syntax::{Expr, Field, FnArg, Item, ItemFn, Lit, SourceFile, Stmt};

verus! {

/// The views of the strings of a list, in order.
pub open spec fn line_views(lines: Seq<String>) -> Seq<Seq<char>> {
    Seq::new(lines.len(), |i: int| lines[i]@)
}

/// Each label that introduces deeper lines is at least two characters wide:
/// what is written below a line is never indented beyond the end of that
/// line.
proof fn lemma_label_widths()
    ensures
        "Left:"@.len() >= 2,
        "Right:"@.len() >= 2,
        "Function:"@.len() >= 2,
        "Arguments:"@.len() >= 2,
        "Condition:"@.len() >= 2,
        "Then branch:"@.len() >= 2,
        "Else branch:"@.len() >= 2,
        "Loop:"@.len() >= 2,
        "Body:"@.len() >= 2,
        "Return statement:"@.len() >= 2,
        "Initializer:"@.len() >= 2,
        "Expression statement:"@.len() >= 2,
        "Function: "@.len() >= 2,
        "Parameters:"@.len() >= 2,
        "Fields:"@.len() >= 2,
        "Variants:"@.len() >= 2,
{
    reveal_strlit("Left:");
    reveal_strlit("Right:");
    reveal_strlit("Function:");
    reveal_strlit("Arguments:");
    reveal_strlit("Condition:");
    reveal_strlit("Then branch:");
    reveal_strlit("Else branch:");
    reveal_strlit("Loop:");
    reveal_strlit("Body:");
    reveal_strlit("Return statement:");
    reveal_strlit("Initializer:");
    reveal_strlit("Expression statement:");
    reveal_strlit("Function: ");
    reveal_strlit("Parameters:");
    reveal_strlit("Fields:");
    reveal_strlit("Variants:");
}

/// A renderer that collects the outline of what it visits.
pub struct TextVisitor {
    /// The current indentation, in columns.
    pub indent: usize,
    /// The lines written so far.
    pub output: Vec<String>,
}

impl TextVisitor {
    /// The lines written so far, as text.
    pub open spec fn lines(&self) -> Seq<Seq<char>> {
        line_views(self.output@)
    }

    /// A renderer at indentation 0 that has written nothing.
    pub fn new() -> (v: Self)
        ensures
            v.indent == 0,
            v.lines() == Seq::<Seq<char>>::empty(),
    {
        let v = TextVisitor { indent: 0, output: Vec::new() };
        assert(v.lines() =~= Seq::<Seq<char>>::empty());
        v
    }

    /// The current indentation as a string of spaces.
    pub fn print_indent(&self) -> (s: String)
        ensures
            s@ == indentation(self.indent as nat),
    {
        let mut s = String::new();
        let mut i: usize = 0;
        while i < self.indent
            invariant
                i <= self.indent,
                s@ == indentation(i as nat),
            decreases self.indent - i,
        {
            proof {
                reveal_strlit(" ");
            }
            s.append(" ");
            i = i + 1;
            assert(s@ =~= indentation(i as nat));
        }
        s
    }

    /// Appends one line to the output. The length of the line is taken, so
    /// that it is known to be a `usize`: this is what bounds the indentation
    /// of whatever is written below the line.
    fn emit(&mut self, line: String)
        ensures
            final(self).indent == old(self).indent,
            final(self).lines() == old(self).lines().push(line@),
            line@.len() <= usize::MAX,
    {
        let _width: usize = line.as_str().unicode_len();
        self.output.push(line);
        assert(self.lines() =~= old(self).lines().push(line@));
    }

    /// Writes the line of a bare label.
    fn emit_label(&mut self, label: &str)
        ensures
            final(self).indent == old(self).indent,
            final(self).lines() == old(self).lines().push(outline(old(self).indent as nat, label@)),
            old(self).indent + label@.len() <= usize::MAX,
    {
        let mut s = self.print_indent();
        s.append(label);
        self.emit(s);
    }

    /// Writes the line of a label followed by a text.
    fn emit_pair(&mut self, label: &str, text: &str)
        ensures
            final(self).indent == old(self).indent,
            final(self).lines() == old(self).lines().push(
                outline(old(self).indent as nat, label@ + text@),
            ),
            old(self).indent + label@.len() <= usize::MAX,
    {
        let mut s = self.print_indent();
        s.append(label);
        s.append(text);
        assert(s@ =~= outline(self.indent as nat, label@ + text@));
        self.emit(s);
    }

    /// Writes the line of three texts in a row.
    fn emit_triple(&mut self, a: &str, b: &str, c: &str)
        ensures
            final(self).indent == old(self).indent,
            final(self).lines() == old(self).lines().push(
                outline(old(self).indent as nat, a@ + b@ + c@),
            ),
    {
        let mut s = self.print_indent();
        s.append(a);
        s.append(b);
        s.append(c);
        assert(s@ =~= outline(self.indent as nat, a@ + b@ + c@));
        self.emit(s);
    }

    /// Writes the line of four texts in a row.
    fn emit_quad(&mut self, a: &str, b: &str, c: &str, d: &str)
        ensures
            final(self).indent == old(self).indent,
            final(self).lines() == old(self).lines().push(
                outline(old(self).indent as nat, a@ + b@ + c@ + d@),
            ),
    {
        let mut s = self.print_indent();
        s.append(a);
        s.append(b);
        s.append(c);
        s.append(d);
        assert(s@ =~= outline(self.indent as nat, a@ + b@ + c@ + d@));
        self.emit(s);
    }

    /// Writes the line of a literal.
    fn visit_lit(&mut self, lit: &Lit)
        ensures
            final(self).indent == old(self).indent,
            final(self).lines() == old(self).lines().push(lit_line(*lit, old(self).indent as nat)),
    {
        match lit {
            Lit::Int { digits } => self.emit_pair("Integer literal: ", digits.as_str()),
            Lit::Float { digits } => self.emit_pair("Float literal: ", digits.as_str()),
            Lit::Str { value } => self.emit_triple("String literal: \"", value.as_str(), "\""),
            Lit::Bool { value } => {
                let text = if *value { "true" } else { "false" };
                self.emit_pair("Boolean literal: ", text)
            },
            Lit::Other { text } => self.emit_pair("Other literal: ", text.as_str()),
        }
    }

    /// Renders an expression at the current indentation.
    pub fn visit_expr(&mut self, node: &Expr)
        ensures
            final(self).indent == old(self).indent,
            final(self).lines() == old(self).lines() + expr_lines(*node, old(self).indent as nat),
        decreases *node,
    {
        proof {
            lemma_label_widths();
        }
        let ghost n = self.indent as nat;
        let ghost before = self.lines();
        match node {
            Expr::Lit(lit) => {
                self.visit_lit(lit);
            },
            Expr::Binary { op, left, right } => {
                self.emit_pair("Binary expression: ", op.symbol());
                self.emit_label("Left:");
                self.indent += 2;
                self.visit_expr(left);
                self.indent -= 2;
                self.emit_label("Right:");
                self.indent += 2;
                self.visit_expr(right);
                self.indent -= 2;
            },
            Expr::Call { func, args } => {
                self.emit_label("Function call:");
                self.emit_label("Function:");
                self.indent += 2;
                self.visit_expr(func);
                self.indent -= 2;
                if args.len() > 0 {
                    self.emit_label("Arguments:");
                    self.indent += 2;
                    self.visit_exprs(args);
                    self.indent -= 2;
                }
            },
            Expr::Path { text } => {
                self.emit_pair("Identifier: ", text.as_str());
            },
            Expr::If { cond, then_branch, else_branch } => {
                self.emit_label("If statement:");
                self.emit_label("Condition:");
                self.indent += 2;
                self.visit_expr(cond);
                self.indent -= 2;
                self.emit_label("Then branch:");
                self.indent += 2;
                self.visit_stmts(then_branch);
                self.indent -= 2;
                if let Some(other) = else_branch {
                    self.emit_label("Else branch:");
                    self.indent += 2;
                    self.visit_expr(other);
                    self.indent -= 2;
                }
            },
            Expr::Loop { body } => {
                self.emit_label("Loop:");
                self.indent += 2;
                self.visit_stmts(body);
                self.indent -= 2;
            },
            Expr::While { cond, body } => {
                self.emit_label("While loop:");
                self.emit_label("Condition:");
                self.indent += 2;
                self.visit_expr(cond);
                self.indent -= 2;
                self.emit_label("Body:");
                self.indent += 2;
                self.visit_stmts(body);
                self.indent -= 2;
            },
            Expr::Return { value } => {
                self.emit_label("Return statement:");
                if let Some(v) = value {
                    self.indent += 2;
                    self.visit_expr(v);
                    self.indent -= 2;
                }
            },
            Expr::Other { text } => {
                self.emit_pair("Other expression: ", text.as_str());
            },
        }
        assert(self.lines() =~= before + expr_lines(*node, n));
    }

    /// Renders the expressions of a list, in order, at the current
    /// indentation.
    pub fn visit_exprs(&mut self, nodes: &Vec<Expr>)
        ensures
            final(self).indent == old(self).indent,
            final(self).lines() == old(self).lines() + exprs_lines(nodes@, old(self).indent as nat),
        decreases *nodes,
    {
        let ghost n = self.indent as nat;
        let ghost before = self.lines();
        let mut i: usize = 0;
        assert(nodes@.take(0) =~= Seq::<Expr>::empty());
        assert(self.lines() =~= before + exprs_lines(nodes@.take(0), n));
        while i < nodes.len()
            invariant
                i <= nodes.len(),
                self.indent == n,
                self.lines() == before + exprs_lines(nodes@.take(i as int), n),
            decreases nodes.len() - i,
        {
            self.visit_expr(&nodes[i]);
            proof {
                let next = nodes@.take(i + 1);
                assert(next.drop_last() =~= nodes@.take(i as int));
                assert(next.last() == nodes@[i as int]);
                assert(self.lines() =~= before + exprs_lines(next, n));
            }
            i = i + 1;
        }
        assert(nodes@.take(i as int) =~= nodes@);
    }

    /// Renders a statement at the current indentation.
    pub fn visit_stmt(&mut self, node: &Stmt)
        ensures
            final(self).indent == old(self).indent,
            final(self).lines() == old(self).lines() + stmt_lines(*node, old(self).indent as nat),
        decreases *node,
    {
        proof {
            lemma_label_widths();
        }
        let ghost n = self.indent as nat;
        let ghost before = self.lines();
        match node {
            Stmt::Local { pat, init } => {
                self.emit_label("Variable declaration:");
                self.emit_pair("Name: ", pat.name());
                if let Some(e) = init {
                    self.emit_label("Initializer:");
                    self.indent += 2;
                    self.visit_expr(e);
                    self.indent -= 2;
                }
            },
            Stmt::Expr(e) => {
                self.emit_label("Expression statement:");
                self.indent += 2;
                self.visit_expr(e);
                self.indent -= 2;
            },
            Stmt::Item { item, text } => {
                self.visit_item(item);
            },
            Stmt::Other { text } => {
                self.emit_pair("Other statement: ", text.as_str());
            },
        }
        assert(self.lines() =~= before + stmt_lines(*node, n));
    }

    /// Renders the statements of a list, in order, at the current
    /// indentation.
    pub fn visit_stmts(&mut self, nodes: &Vec<Stmt>)
        ensures
            final(self).indent == old(self).indent,
            final(self).lines() == old(self).lines() + stmts_lines(nodes@, old(self).indent as nat),
        decreases *nodes,
    {
        let ghost n = self.indent as nat;
        let ghost before = self.lines();
        let mut i: usize = 0;
        assert(nodes@.take(0) =~= Seq::<Stmt>::empty());
        assert(self.lines() =~= before + stmts_lines(nodes@.take(0), n));
        while i < nodes.len()
            invariant
                i <= nodes.len(),
                self.indent == n,
                self.lines() == before + stmts_lines(nodes@.take(i as int), n),
            decreases nodes.len() - i,
        {
            self.visit_stmt(&nodes[i]);
            proof {
                let next = nodes@.take(i + 1);
                assert(next.drop_last() =~= nodes@.take(i as int));
                assert(next.last() == nodes@[i as int]);
                assert(self.lines() =~= before + stmts_lines(next, n));
            }
            i = i + 1;
        }
        assert(nodes@.take(i as int) =~= nodes@);
    }

    /// Writes the lines of a parameter list at the current indentation.
    fn visit_params(&mut self, params: &Vec<FnArg>)
        ensures
            final(self).indent == old(self).indent,
            final(self).lines() == old(self).lines() + params_lines(
                params@,
                old(self).indent as nat,
            ),
    {
        let ghost n = self.indent as nat;
        let ghost before = self.lines();
        let mut i: usize = 0;
        assert(self.lines() =~= before + params_lines(params@.take(0), n));
        while i < params.len()
            invariant
                i <= params.len(),
                self.indent == n,
                self.lines() == before + params_lines(params@.take(i as int), n),
            decreases params.len() - i,
        {
            match &params[i] {
                FnArg::Receiver { text } => {
                    self.emit_pair("Self receiver: ", text.as_str());
                },
                FnArg::Typed { pat, ty } => {
                    self.emit_quad("Parameter: ", pat.name(), " - Type: ", ty.as_str());
                },
            }
            i = i + 1;
            assert(self.lines() =~= before + params_lines(params@.take(i as int), n));
        }
        assert(params@.take(i as int) =~= params@);
    }

    /// Renders a function at the current indentation.
    pub fn visit_item_fn(&mut self, node: &ItemFn)
        ensures
            final(self).indent == old(self).indent,
            final(self).lines() == old(self).lines() + item_fn_lines(
                *node,
                old(self).indent as nat,
            ),
        decreases *node,
    {
        proof {
            lemma_label_widths();
        }
        let ghost n = self.indent as nat;
        let ghost before = self.lines();
        self.emit_pair("Function: ", node.name.as_str());
        self.indent += 2;
        if node.inputs.len() > 0 {
            self.emit_label("Parameters:");
            self.indent += 2;
            self.visit_params(&node.inputs);
            self.indent -= 2;
        }
        if let Some(ty) = &node.output {
            self.emit_pair("Return type: ", ty.as_str());
        }
        self.emit_label("Body:");
        self.indent += 2;
        self.visit_stmts(&node.body);
        self.indent -= 4;
        assert(self.lines() =~= before + item_fn_lines(*node, n));
    }

    /// Renders an item at the current indentation.
    pub fn visit_item(&mut self, node: &Item)
        ensures
            final(self).indent == old(self).indent,
            final(self).lines() == old(self).lines() + item_lines(*node, old(self).indent as nat),
        decreases *node,
    {
        proof {
            lemma_label_widths();
        }
        let ghost n = self.indent as nat;
        let ghost before = self.lines();
        match node {
            Item::Fn(f) => {
                self.visit_item_fn(f);
            },
            Item::Struct { name, fields } => {
                self.emit_pair("Struct: ", name.as_str());
                if fields.len() > 0 {
                    self.emit_label("Fields:");
                    self.indent += 2;
                    let ghost start = self.lines();
                    let mut i: usize = 0;
                    while i < fields.len()
                        invariant
                            i <= fields.len(),
                            self.indent == n + 2,
                            self.lines() == start + Seq::new(
                                i as nat,
                                |k: int| field_line(fields@[k], n + 2),
                            ),
                        decreases fields.len() - i,
                    {
                        let ghost so_far = self.lines();
                        let field = &fields[i];
                        match &field.name {
                            Some(field_name) => {
                                self.emit_quad(
                                    "Field: ",
                                    field_name.as_str(),
                                    " - Type: ",
                                    field.ty.as_str(),
                                );
                            },
                            None => {
                                self.emit_pair("Tuple field: ", field.ty.as_str());
                            },
                        }
                        i = i + 1;
                        assert(self.lines() =~= start + Seq::new(
                            i as nat,
                            |k: int| field_line(fields@[k], n + 2),
                        ));
                    }
                    self.indent -= 2;
                }
            },
            Item::Enum { name, variants } => {
                self.emit_pair("Enum: ", name.as_str());
                if variants.len() > 0 {
                    self.emit_label("Variants:");
                    self.indent += 2;
                    let ghost start = self.lines();
                    let mut i: usize = 0;
                    while i < variants.len()
                        invariant
                            i <= variants.len(),
                            self.indent == n + 2,
                            self.lines() == start + Seq::new(
                                i as nat,
                                |k: int| variant_line(variants@[k], n + 2),
                            ),
                        decreases variants.len() - i,
                    {
                        self.emit_pair("Variant: ", variants[i].as_str());
                        i = i + 1;
                        assert(self.lines() =~= start + Seq::new(
                            i as nat,
                            |k: int| variant_line(variants@[k], n + 2),
                        ));
                    }
                    self.indent -= 2;
                }
            },
            Item::Other { text } => {
                self.emit_pair("Other item: ", text.as_str());
            },
        }
        assert(self.lines() =~= before + item_lines(*node, n));
    }

    /// Renders every item of a file, in declaration order.
    pub fn visit_file(&mut self, file: &SourceFile)
        ensures
            final(self).indent == old(self).indent,
            final(self).lines() == old(self).lines() + items_lines(
                file.items@,
                old(self).indent as nat,
            ),
    {
        let ghost n = self.indent as nat;
        let ghost before = self.lines();
        let mut i: usize = 0;
        assert(file.items@.take(0) =~= Seq::<Item>::empty());
        assert(self.lines() =~= before + items_lines(file.items@.take(0), n));
        while i < file.items.len()
            invariant
                i <= file.items.len(),
                self.indent == n,
                self.lines() == before + items_lines(file.items@.take(i as int), n),
            decreases file.items.len() - i,
        {
            self.visit_item(&file.items[i]);
            proof {
                let next = file.items@.take(i + 1);
                assert(next.drop_last() =~= file.items@.take(i as int));
                assert(next.last() == file.items@[i as int]);
                assert(self.lines() =~= before + items_lines(next, n));
            }
            i = i + 1;
        }
        assert(file.items@.take(i as int) =~= file.items@);
    }
}

} // verus!
