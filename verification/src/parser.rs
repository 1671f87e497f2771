//! The outline of a whole file, ready to be printed.

use vstd::prelude::*;
use vstd::string::StringExecFns;
use crate::outline::items_lines;
use crate::syntax::SourceFile;
use crate::text_visitor::line_views;
use crate::visitor::AstVisitor;

verus! {

/// The lines that present a file: a heading, then the outline of its items
/// from indentation 0.
pub open spec fn ast_lines(file: SourceFile) -> Seq<Seq<char>> {
    seq!["AST for Rust code:"@] + items_lines(file.items@, 0)
}

/// The lines to print for a file.
pub fn print_ast(file: &SourceFile) -> (lines: Vec<String>)
    ensures
        line_views(lines@) == ast_lines(*file),
{
    let mut visitor = AstVisitor::new();
    visitor.renderer.output.push(String::from_str("AST for Rust code:"));
    assert(visitor.renderer.lines() =~= seq!["AST for Rust code:"@]);
    visitor.visit_file(file);
    visitor.renderer.output
}

} // verus!
