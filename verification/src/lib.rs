//! Rendering of a parsed Rust syntax tree as an indented text outline and as
//! a tagged JSON document.
//!
//! A tree ([`syntax`]) is walked depth first, in source order, by one of two
//! renderers. The text renderer ([`text_visitor`]) collects one line per
//! node, indented by nesting depth; what it writes is defined in
//! [`outline`]. The JSON builder ([`json_visitor`]) builds a document
//! ([`json`]) with one tagged node per construct, which [`serializer`] turns
//! into pretty-printed JSON text. A construct that is not decomposed is
//! rendered by its text in both. [`theorems`] states what holds of both
//! renderers whatever the tree.

pub mod json;
pub mod json_visitor;
pub mod outline;
pub mod parser;
pub mod render;
pub mod serializer;
pub mod syntax;
pub mod text_visitor;
pub mod theorems;
pub mod visitor;

pub use json::{AstJson, ExprJson, FieldJson, ItemJson, ParameterJson, StmtJson, VariantJson};
pub use json_visitor::JsonVisitor;
pub use parser::print_ast;
pub use render::{render_json, render_text};
pub use text_visitor::TextVisitor;
pub use visitor::AstVisitor;
