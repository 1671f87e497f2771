//! Both renderings of a whole file.

use vstd::prelude::*;
use crate::json::AstDoc;
use crate::json_visitor::{items_docs, JsonVisitor};
use crate::outline::items_lines;
use crate::serializer::{ast_model, pretty_json, text_or_empty_object};
use crate::syntax::SourceFile;
use crate::text_visitor::{line_views, TextVisitor};

verus! {

/// The document of a file: the nodes of its items, in declaration order.
pub open spec fn file_doc(file: SourceFile) -> AstDoc {
    AstDoc { items: items_docs(file.items@) }
}

/// The outline of a file from indentation 0, line by line.
pub fn render_text(file: &SourceFile) -> (lines: Vec<String>)
    ensures
        line_views(lines@) == items_lines(file.items@, 0),
{
    let mut visitor = TextVisitor::new();
    visitor.visit_file(file);
    visitor.output
}

/// The document of a file as pretty-printed JSON text, or `{}` where the
/// encoding fails.
pub fn render_json(file: &SourceFile) -> (text: String)
    ensures
        text@ == text_or_empty_object(pretty_json(ast_model(file_doc(*file)))),
{
    let mut visitor = JsonVisitor::new();
    visitor.process_file(file);
    assert(visitor.ast@ == file_doc(*file));
    visitor.to_json()
}

} // verus!
