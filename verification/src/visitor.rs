//! The visitor behind `print_ast`: the text renderer under its own name.

use vstd::prelude::*;
use crate::outline::{expr_lines, indentation, item_fn_lines, items_lines, stmt_lines};
use crate::syntax::{Expr, ItemFn, SourceFile, Stmt};
use crate::text_visitor::TextVisitor;

verus! {

/// A visitor that collects the outline of what it visits.
pub struct AstVisitor {
    pub renderer: TextVisitor,
}

impl AstVisitor {
    /// A visitor at indentation 0 that has written nothing.
    pub fn new() -> (v: Self)
        ensures
            v.renderer.indent == 0,
            v.renderer.lines() == Seq::<Seq<char>>::empty(),
    {
        AstVisitor { renderer: TextVisitor::new() }
    }

    /// The current indentation as a string of spaces.
    pub fn print_indent(&self) -> (s: String)
        ensures
            s@ == indentation(self.renderer.indent as nat),
    {
        self.renderer.print_indent()
    }

    /// Renders a function at the current indentation.
    pub fn visit_item_fn(&mut self, node: &ItemFn)
        ensures
            final(self).renderer.indent == old(self).renderer.indent,
            final(self).renderer.lines() == old(self).renderer.lines() + item_fn_lines(
                *node,
                old(self).renderer.indent as nat,
            ),
    {
        self.renderer.visit_item_fn(node);
    }

    /// Renders an expression at the current indentation.
    pub fn visit_expr(&mut self, node: &Expr)
        ensures
            final(self).renderer.indent == old(self).renderer.indent,
            final(self).renderer.lines() == old(self).renderer.lines() + expr_lines(
                *node,
                old(self).renderer.indent as nat,
            ),
    {
        self.renderer.visit_expr(node);
    }

    /// Renders a statement at the current indentation.
    pub fn visit_stmt(&mut self, node: &Stmt)
        ensures
            final(self).renderer.indent == old(self).renderer.indent,
            final(self).renderer.lines() == old(self).renderer.lines() + stmt_lines(
                *node,
                old(self).renderer.indent as nat,
            ),
    {
        self.renderer.visit_stmt(node);
    }

    /// Renders every item of a file, in declaration order.
    pub fn visit_file(&mut self, file: &SourceFile)
        ensures
            final(self).renderer.indent == old(self).renderer.indent,
            final(self).renderer.lines() == old(self).renderer.lines() + items_lines(
                file.items@,
                old(self).renderer.indent as nat,
            ),
    {
        self.renderer.visit_file(file);
    }
}

} // verus!
