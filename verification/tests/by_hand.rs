//! Rendering of trees that are written out by hand.

use rusty_ast::json::{AstJson, ExprJson, FieldJson, ItemJson, ParameterJson, StmtJson, VariantJson};
use rusty_ast::parser::print_ast;
use rusty_ast::serializer::{document_text, text_or_empty};
use rusty_ast::syntax::{BinOp, Expr, Field, FnArg, Item, ItemFn, Lit, Pattern, SourceFile, Stmt};
use rusty_ast::{render_json, render_text, AstVisitor, JsonVisitor, TextVisitor};

fn text(s: &str) -> String {
    s.to_string()
}

fn path(name: &str) -> Expr {
    Expr::Path { text: text(name) }
}

fn integer(digits: &str) -> Expr {
    Expr::Lit(Lit::Int { digits: text(digits) })
}

fn binary(op: BinOp, left: Expr, right: Expr) -> Expr {
    Expr::Binary { op, left: Box::new(left), right: Box::new(right) }
}

fn typed(name: &str, ty: &str) -> FnArg {
    FnArg::Typed { pat: Pattern::Ident(text(name)), ty: text(ty) }
}

/// `fn add(a: i32, b: i32) -> i32 { a + b }`
fn add_function() -> Item {
    Item::Fn(ItemFn {
        name: text("add"),
        inputs: vec![typed("a", "i32"), typed("b", "i32")],
        output: Some(text("i32")),
        body: vec![Stmt::Expr(binary(BinOp::Add, path("a"), path("b")))],
    })
}

fn outline_of_expr(expr: &Expr) -> Vec<String> {
    let mut visitor = TextVisitor::new();
    visitor.visit_expr(expr);
    visitor.output
}

fn outline_of_stmt(stmt: &Stmt) -> Vec<String> {
    let mut visitor = TextVisitor::new();
    visitor.visit_stmt(stmt);
    visitor.output
}

fn outline_of_item(item: &Item) -> Vec<String> {
    let mut visitor = TextVisitor::new();
    visitor.visit_item(item);
    visitor.output
}

fn json_of(items: Vec<Item>) -> String {
    let mut visitor = JsonVisitor::new();
    visitor.process_file(&SourceFile { items });
    visitor.to_json()
}

#[test]
fn new_visitors_are_empty() {
    let text_visitor = TextVisitor::new();
    assert_eq!(text_visitor.indent, 0);
    assert!(text_visitor.output.is_empty());
    assert_eq!(text_visitor.print_indent(), "");

    let ast_visitor = AstVisitor::new();
    assert_eq!(ast_visitor.renderer.indent, 0);
    assert!(ast_visitor.renderer.output.is_empty());
    assert_eq!(ast_visitor.print_indent(), "");

    assert!(JsonVisitor::new().ast.items.is_empty());
    assert!(JsonVisitor::default().ast.items.is_empty());
    assert!(AstJson::default().items.is_empty());
}

#[test]
fn print_indent_writes_one_space_per_column() {
    let visitor = TextVisitor { indent: 6, output: Vec::new() };
    assert_eq!(visitor.print_indent(), "      ");
    let visitor = AstVisitor { renderer: TextVisitor { indent: 3, output: Vec::new() } };
    assert_eq!(visitor.print_indent(), "   ");
}

#[test]
fn empty_document_is_the_empty_object() {
    assert_eq!(JsonVisitor::new().to_json(), "{}");
    assert_eq!(document_text(&AstJson::default()), "{}");
    assert_eq!(json_of(vec![]), "{}");
}

#[test]
fn failed_encoding_gives_the_empty_object() {
    let error = serde_json::from_str::<serde_json::Value>("not json").unwrap_err();
    assert_eq!(text_or_empty(Err(error)), "{}");
    assert_eq!(text_or_empty(Ok(text("[1]"))), "[1]");
}

#[test]
fn function_document_is_pretty_printed_in_field_order() {
    let expected = r#"{
  "items": [
    {
      "type": "Function",
      "name": "add",
      "parameters": [
        {
          "name": "a",
          "type_info": "i32"
        },
        {
          "name": "b",
          "type_info": "i32"
        }
      ],
      "return_type": "i32",
      "body": [
        {
          "type": "Expression",
          "expr": {
            "type": "Binary",
            "operator": "+",
            "left": {
              "type": "Identifier",
              "name": "a"
            },
            "right": {
              "type": "Identifier",
              "name": "b"
            }
          }
        }
      ]
    }
  ]
}"#;
    assert_eq!(json_of(vec![add_function()]), expected);
}

#[test]
fn absent_values_are_null_and_empty_lists_are_left_out() {
    let item = Item::Fn(ItemFn {
        name: text("noop"),
        inputs: vec![],
        output: None,
        body: vec![
            Stmt::Local { pat: Pattern::Ident(text("x")), init: None },
            Stmt::Expr(Expr::Return { value: None }),
            Stmt::Expr(Expr::Lit(Lit::Bool { value: true })),
        ],
    });
    let expected = r#"{
  "items": [
    {
      "type": "Function",
      "name": "noop",
      "return_type": null,
      "body": [
        {
          "type": "VariableDeclaration",
          "name": "x",
          "initializer": null
        },
        {
          "type": "Expression",
          "expr": {
            "type": "Return",
            "value": null
          }
        },
        {
          "type": "Expression",
          "expr": {
            "type": "BoolLiteral",
            "value": true
          }
        }
      ]
    }
  ]
}"#;
    assert_eq!(json_of(vec![item]), expected);
}

#[test]
fn struct_enum_and_other_items_in_json() {
    let items = vec![
        Item::Struct {
            name: text("Point"),
            fields: vec![
                Field { name: Some(text("x")), ty: text("f64") },
                Field { name: None, ty: text("u8") },
            ],
        },
        Item::Enum { name: text("Side"), variants: vec![text("Left"), text("Right")] },
        Item::Other { text: text("use std :: fmt ;") },
    ];
    let expected = r#"{
  "items": [
    {
      "type": "Struct",
      "name": "Point",
      "fields": [
        {
          "name": "x",
          "type_info": "f64"
        },
        {
          "name": null,
          "type_info": "u8"
        }
      ]
    },
    {
      "type": "Enum",
      "name": "Side",
      "variants": [
        {
          "name": "Left"
        },
        {
          "name": "Right"
        }
      ]
    },
    {
      "type": "Other",
      "description": "use std :: fmt ;"
    }
  ]
}"#;
    assert_eq!(json_of(items), expected);
}

#[test]
fn strings_are_escaped_by_the_encoder() {
    let item = Item::Other { text: text("say \"hi\"\n\\ done") };
    let json = json_of(vec![item]);
    assert!(json.contains(r#""description": "say \"hi\"\n\\ done""#));
    let parsed: serde_json::Value = serde_json::from_str(&json).unwrap();
    assert_eq!(parsed["items"][0]["description"], "say \"hi\"\n\\ done");
}

#[test]
fn every_expression_kind_has_its_node() {
    let mut visitor = JsonVisitor::new();
    let node = visitor.visit_expr_json(&integer("42"));
    assert!(matches!(node, ExprJson::IntLiteral { ref value } if value == "42"));
    let node = visitor.visit_expr_json(&Expr::Lit(Lit::Float { digits: text("2.5") }));
    assert!(matches!(node, ExprJson::FloatLiteral { ref value } if value == "2.5"));
    let node = visitor.visit_expr_json(&Expr::Lit(Lit::Str { value: text("hi") }));
    assert!(matches!(node, ExprJson::StringLiteral { ref value } if value == "hi"));
    let node = visitor.visit_expr_json(&Expr::Lit(Lit::Bool { value: false }));
    assert!(matches!(node, ExprJson::BoolLiteral { value: false }));
    let node = visitor.visit_expr_json(&Expr::Lit(Lit::Other { text: text("b'a'") }));
    assert!(matches!(node, ExprJson::Other { ref description } if description == "b'a'"));
    let node = visitor.visit_expr_json(&path("std :: mem :: swap"));
    assert!(matches!(node, ExprJson::Identifier { ref name } if name == "std :: mem :: swap"));
    let node = visitor.visit_expr_json(&Expr::Other { text: text("x . y") });
    assert!(matches!(node, ExprJson::Other { ref description } if description == "x . y"));

    let call = Expr::Call { func: Box::new(path("f")), args: vec![integer("1"), path("y")] };
    match visitor.visit_expr_json(&call) {
        ExprJson::FunctionCall { function, arguments } => {
            assert!(matches!(*function, ExprJson::Identifier { ref name } if name == "f"));
            assert_eq!(arguments.len(), 2);
            assert!(matches!(arguments[0], ExprJson::IntLiteral { ref value } if value == "1"));
            assert!(matches!(arguments[1], ExprJson::Identifier { ref name } if name == "y"));
        }
        other => panic!("not a call: {:?}", other),
    }

    let looped = Expr::Loop { body: vec![Stmt::Expr(Expr::Return { value: Some(Box::new(integer("7"))) })] };
    match visitor.visit_expr_json(&looped) {
        ExprJson::Loop { body } => {
            assert_eq!(body.len(), 1);
            match &body[0] {
                StmtJson::Expression { expr } => match &**expr {
                    ExprJson::Return { value: Some(value) } => {
                        assert!(matches!(**value, ExprJson::IntLiteral { ref value } if value == "7"))
                    }
                    other => panic!("not a return with a value: {:?}", other),
                },
                other => panic!("not an expression statement: {:?}", other),
            }
        }
        other => panic!("not a loop: {:?}", other),
    }

    let whiled = Expr::While {
        cond: Box::new(Expr::Lit(Lit::Bool { value: true })),
        body: vec![Stmt::Other { text: text("m ! ()") }],
    };
    match visitor.visit_expr_json(&whiled) {
        ExprJson::While { condition, body } => {
            assert!(matches!(*condition, ExprJson::BoolLiteral { value: true }));
            assert_eq!(body.len(), 1);
            assert!(matches!(body[0], StmtJson::Other { ref description } if description == "m ! ()"));
        }
        other => panic!("not a while: {:?}", other),
    }

    let branch = Expr::If {
        cond: Box::new(path("c")),
        then_branch: vec![Stmt::Expr(integer("1"))],
        else_branch: Some(Box::new(Expr::Other { text: text("{ 2 }") })),
    };
    match visitor.visit_expr_json(&branch) {
        ExprJson::If { condition, then_branch, else_branch } => {
            assert!(matches!(*condition, ExprJson::Identifier { ref name } if name == "c"));
            assert_eq!(then_branch.len(), 1);
            let other = else_branch.expect("an else branch");
            assert!(matches!(*other, ExprJson::Other { ref description } if description == "{ 2 }"));
        }
        other => panic!("not an if: {:?}", other),
    }
    assert!(visitor.ast.items.is_empty());
}

#[test]
fn statements_in_json() {
    let mut visitor = JsonVisitor::new();
    let node = visitor.visit_stmt_json(&Stmt::Local {
        pat: Pattern::Other(text("(a , b)")),
        init: Some(integer("3")),
    });
    match node {
        StmtJson::VariableDeclaration { name, initializer } => {
            assert_eq!(name, "(a , b)");
            let value = initializer.expect("an initializer");
            assert!(matches!(*value, ExprJson::IntLiteral { ref value } if value == "3"));
        }
        other => panic!("not a declaration: {:?}", other),
    }
    // let x: i32 = 1;
    let annotated = Stmt::Local {
        pat: Pattern::Typed { pat: Box::new(Pattern::Ident(text("x"))), ty: text("i32") },
        init: Some(integer("1")),
    };
    assert_eq!(
        visitor.visit_stmt_json(&annotated),
        StmtJson::VariableDeclaration {
            name: text("x"),
            initializer: Some(Box::new(ExprJson::IntLiteral { value: text("1") })),
        }
    );
    // let (a, b): (u8, u8);
    let annotated = Stmt::Local {
        pat: Pattern::Typed { pat: Box::new(Pattern::Other(text("(a , b)"))), ty: text("(u8 , u8)") },
        init: None,
    };
    assert_eq!(
        visitor.visit_stmt_json(&annotated),
        StmtJson::VariableDeclaration { name: text("(a , b)"), initializer: None }
    );
    let nested = Stmt::Item {
        item: Item::Struct { name: text("Inner"), fields: vec![] },
        text: text("struct Inner ;"),
    };
    let node = visitor.visit_stmt_json(&nested);
    assert!(matches!(node, StmtJson::Other { ref description } if description == "struct Inner ;"));
    let nodes = visitor.visit_stmts_json(&vec![Stmt::Expr(integer("1")), Stmt::Other { text: text("m ! ()") }]);
    assert_eq!(nodes.len(), 2);
    assert!(matches!(nodes[0], StmtJson::Expression { .. }));
    assert!(matches!(nodes[1], StmtJson::Other { .. }));
}

#[test]
fn process_item_appends_in_order() {
    let mut visitor = JsonVisitor::new();
    visitor.process_item(&Item::Other { text: text("first") });
    visitor.process_file(&SourceFile {
        items: vec![add_function(), Item::Enum { name: text("E"), variants: vec![] }],
    });
    assert_eq!(visitor.ast.items.len(), 3);
    assert!(matches!(visitor.ast.items[0], ItemJson::Other { ref description } if description == "first"));
    assert!(matches!(visitor.ast.items[1], ItemJson::Function { ref name, .. } if name == "add"));
    assert!(matches!(visitor.ast.items[2], ItemJson::Enum { ref name, ref variants } if name == "E" && variants.is_empty()));
}

#[test]
fn every_parameter_is_listed_in_order() {
    let item = Item::Fn(ItemFn {
        name: text("f"),
        inputs: vec![
            FnArg::Receiver { text: text("& mut self") },
            FnArg::Typed { pat: Pattern::Other(text("_")), ty: text("i32") },
            FnArg::Typed { pat: Pattern::Other(text("(a , b)")), ty: text("(u8 , u8)") },
            typed("c", "u8"),
        ],
        output: None,
        body: vec![],
    });
    let mut visitor = JsonVisitor::new();
    visitor.process_item(&item);
    match &visitor.ast.items[0] {
        ItemJson::Function { parameters, .. } => {
            assert_eq!(
                parameters,
                &vec![
                    ParameterJson { name: text("self"), type_info: text("& mut self") },
                    ParameterJson { name: text("_"), type_info: text("i32") },
                    ParameterJson { name: text("(a , b)"), type_info: text("(u8 , u8)") },
                    ParameterJson { name: text("c"), type_info: text("u8") },
                ]
            );
        }
        other => panic!("not a function: {:?}", other),
    }
    assert_eq!(
        outline_of_item(&item),
        vec![
            "Function: f",
            "  Parameters:",
            "    Self receiver: & mut self",
            "    Parameter: _ - Type: i32",
            "    Parameter: (a , b) - Type: (u8 , u8)",
            "    Parameter: c - Type: u8",
            "  Body:",
        ]
    );
}

#[test]
fn pattern_names() {
    assert_eq!(Pattern::Ident(text("x")).name(), "x");
    assert_eq!(Pattern::Other(text("(a , b)")).name(), "(a , b)");
    let annotated = Pattern::Typed { pat: Box::new(Pattern::Ident(text("x"))), ty: text("i32") };
    assert_eq!(annotated.name(), "x");
    let twice = Pattern::Typed { pat: Box::new(annotated), ty: text("i32") };
    assert_eq!(twice.name(), "x");
}

#[test]
fn empty_lists_have_no_field() {
    let mut visitor = JsonVisitor::new();
    visitor.ast.items.push(ItemJson::Function {
        name: text("manual_func"),
        parameters: vec![],
        return_type: Some(text("i32")),
        body: vec![],
    });
    visitor.ast.items.push(ItemJson::Struct { name: text("Unit"), fields: vec![] });
    visitor.ast.items.push(ItemJson::Enum { name: text("Never"), variants: vec![] });
    visitor.ast.items.push(ItemJson::Function {
        name: text("spin"),
        parameters: vec![],
        return_type: None,
        body: vec![
            StmtJson::Expression { expr: Box::new(ExprJson::Loop { body: vec![] }) },
            StmtJson::Expression {
                expr: Box::new(ExprJson::FunctionCall {
                    function: Box::new(ExprJson::Identifier { name: text("f") }),
                    arguments: vec![],
                }),
            },
            StmtJson::Expression {
                expr: Box::new(ExprJson::If {
                    condition: Box::new(ExprJson::BoolLiteral { value: true }),
                    then_branch: vec![],
                    else_branch: None,
                }),
            },
            StmtJson::Expression {
                expr: Box::new(ExprJson::While {
                    condition: Box::new(ExprJson::BoolLiteral { value: false }),
                    body: vec![],
                }),
            },
        ],
    });
    let expected = r#"{
  "items": [
    {
      "type": "Function",
      "name": "manual_func",
      "return_type": "i32"
    },
    {
      "type": "Struct",
      "name": "Unit"
    },
    {
      "type": "Enum",
      "name": "Never"
    },
    {
      "type": "Function",
      "name": "spin",
      "return_type": null,
      "body": [
        {
          "type": "Expression",
          "expr": {
            "type": "Loop"
          }
        },
        {
          "type": "Expression",
          "expr": {
            "type": "FunctionCall",
            "function": {
              "type": "Identifier",
              "name": "f"
            }
          }
        },
        {
          "type": "Expression",
          "expr": {
            "type": "If",
            "condition": {
              "type": "BoolLiteral",
              "value": true
            },
            "else_branch": null
          }
        },
        {
          "type": "Expression",
          "expr": {
            "type": "While",
            "condition": {
              "type": "BoolLiteral",
              "value": false
            }
          }
        }
      ]
    }
  ]
}"#;
    assert_eq!(visitor.to_json(), expected);
    let parsed: serde_json::Value = serde_json::from_str(&visitor.to_json()).unwrap();
    let first = &parsed["items"][0];
    assert!(parsed["items"].is_array());
    assert_eq!(first["type"], "Function");
    assert_eq!(first["name"], "manual_func");
    assert_eq!(first["return_type"], "i32");
    assert!(first.get("parameters").is_none());
    assert!(first.get("body").is_none());
}

#[test]
fn operator_symbols() {
    let symbols = [
        (BinOp::Add, "+"),
        (BinOp::Sub, "-"),
        (BinOp::Mul, "*"),
        (BinOp::Div, "/"),
        (BinOp::Eq, "=="),
        (BinOp::Lt, "<"),
        (BinOp::Le, "<="),
        (BinOp::Ne, "!="),
        (BinOp::Ge, ">="),
        (BinOp::Gt, ">"),
        (BinOp::Other(text("%")), "other_operator"),
        (BinOp::Other(text("+")), "other_operator"),
    ];
    for (op, symbol) in symbols {
        assert_eq!(op.symbol(), symbol);
        let lines = outline_of_expr(&binary(op, integer("1"), integer("2")));
        assert_eq!(lines[0], format!("Binary expression: {}", symbol));
    }
}

#[test]
fn literals_in_the_outline() {
    assert_eq!(outline_of_expr(&integer("10")), vec!["Integer literal: 10"]);
    assert_eq!(
        outline_of_expr(&Expr::Lit(Lit::Float { digits: text("1.5") })),
        vec!["Float literal: 1.5"]
    );
    assert_eq!(
        outline_of_expr(&Expr::Lit(Lit::Str { value: text("hi there") })),
        vec!["String literal: \"hi there\""]
    );
    assert_eq!(
        outline_of_expr(&Expr::Lit(Lit::Bool { value: true })),
        vec!["Boolean literal: true"]
    );
    assert_eq!(
        outline_of_expr(&Expr::Lit(Lit::Bool { value: false })),
        vec!["Boolean literal: false"]
    );
    assert_eq!(
        outline_of_expr(&Expr::Lit(Lit::Other { text: text("'c'") })),
        vec!["Other literal: 'c'"]
    );
    assert_eq!(outline_of_expr(&path("a :: b")), vec!["Identifier: a :: b"]);
    assert_eq!(
        outline_of_expr(&Expr::Other { text: text("x [0]") }),
        vec!["Other expression: x [0]"]
    );
}

#[test]
fn compound_expressions_in_the_outline() {
    let call = Expr::Call { func: Box::new(path("f")), args: vec![] };
    assert_eq!(outline_of_expr(&call), vec!["Function call:", "Function:", "  Identifier: f"]);

    let call = Expr::Call { func: Box::new(path("f")), args: vec![integer("1"), integer("2")] };
    assert_eq!(
        outline_of_expr(&call),
        vec![
            "Function call:",
            "Function:",
            "  Identifier: f",
            "Arguments:",
            "  Integer literal: 1",
            "  Integer literal: 2",
        ]
    );

    let branch = Expr::If {
        cond: Box::new(path("c")),
        then_branch: vec![Stmt::Expr(integer("1"))],
        else_branch: Some(Box::new(Expr::Other { text: text("{ 2 }") })),
    };
    assert_eq!(
        outline_of_expr(&branch),
        vec![
            "If statement:",
            "Condition:",
            "  Identifier: c",
            "Then branch:",
            "  Expression statement:",
            "    Integer literal: 1",
            "Else branch:",
            "  Other expression: { 2 }",
        ]
    );

    let looped = Expr::Loop { body: vec![Stmt::Expr(Expr::Return { value: None })] };
    assert_eq!(
        outline_of_expr(&looped),
        vec!["Loop:", "  Expression statement:", "    Return statement:"]
    );

    let whiled = Expr::While {
        cond: Box::new(binary(BinOp::Lt, path("i"), integer("3"))),
        body: vec![Stmt::Expr(Expr::Return { value: Some(Box::new(path("i"))) })],
    };
    assert_eq!(
        outline_of_expr(&whiled),
        vec![
            "While loop:",
            "Condition:",
            "  Binary expression: <",
            "  Left:",
            "    Identifier: i",
            "  Right:",
            "    Integer literal: 3",
            "Body:",
            "  Expression statement:",
            "    Return statement:",
            "      Identifier: i",
        ]
    );
}

#[test]
fn statements_in_the_outline() {
    let declared = Stmt::Local { pat: Pattern::Ident(text("x")), init: Some(integer("5")) };
    assert_eq!(
        outline_of_stmt(&declared),
        vec!["Variable declaration:", "Name: x", "Initializer:", "  Integer literal: 5"]
    );
    let bare = Stmt::Local { pat: Pattern::Other(text("(a , b)")), init: None };
    assert_eq!(outline_of_stmt(&bare), vec!["Variable declaration:", "Name: (a , b)"]);
    let annotated = Stmt::Local {
        pat: Pattern::Typed { pat: Box::new(Pattern::Ident(text("x"))), ty: text("i32") },
        init: Some(integer("1")),
    };
    assert_eq!(
        outline_of_stmt(&annotated),
        vec!["Variable declaration:", "Name: x", "Initializer:", "  Integer literal: 1"]
    );
    assert_eq!(
        outline_of_stmt(&Stmt::Other { text: text("println ! (\"x\") ;") }),
        vec!["Other statement: println ! (\"x\") ;"]
    );
}

#[test]
fn nested_items_follow_the_item_rules_in_the_outline() {
    let inner = Item::Fn(ItemFn {
        name: text("inner"),
        inputs: vec![],
        output: Some(text("u8")),
        body: vec![Stmt::Expr(integer("1"))],
    });
    let outer = Item::Fn(ItemFn {
        name: text("outer"),
        inputs: vec![],
        output: None,
        body: vec![
            Stmt::Item { item: inner, text: text("fn inner () -> u8 { 1 }") },
            Stmt::Item {
                item: Item::Struct {
                    name: text("S"),
                    fields: vec![Field { name: Some(text("a")), ty: text("u8") }],
                },
                text: text("struct S { a : u8 }"),
            },
            Stmt::Item {
                item: Item::Enum { name: text("E"), variants: vec![text("A")] },
                text: text("enum E { A }"),
            },
            Stmt::Item { item: Item::Other { text: text("use a :: b ;") }, text: text("use a :: b ;") },
        ],
    });
    assert_eq!(
        outline_of_item(&outer),
        vec![
            "Function: outer",
            "  Body:",
            "    Function: inner",
            "      Return type: u8",
            "      Body:",
            "        Expression statement:",
            "          Integer literal: 1",
            "    Struct: S",
            "    Fields:",
            "      Field: a - Type: u8",
            "    Enum: E",
            "    Variants:",
            "      Variant: A",
            "    Other item: use a :: b ;",
        ]
    );
}

#[test]
fn empty_structs_and_enums_have_only_a_header() {
    assert_eq!(
        outline_of_item(&Item::Struct { name: text("Unit"), fields: vec![] }),
        vec!["Struct: Unit"]
    );
    assert_eq!(
        outline_of_item(&Item::Enum { name: text("Never"), variants: vec![] }),
        vec!["Enum: Never"]
    );
}

#[test]
fn indentation_is_restored_after_each_visit() {
    let mut visitor = TextVisitor::new();
    visitor.visit_item(&add_function());
    assert_eq!(visitor.indent, 0);
    let lines_of_one = visitor.output.len();
    visitor.visit_item(&add_function());
    assert_eq!(visitor.indent, 0);
    assert_eq!(visitor.output.len(), 2 * lines_of_one);
    assert_eq!(visitor.output[..lines_of_one], visitor.output[lines_of_one..]);

    let mut visitor = TextVisitor { indent: 4, output: Vec::new() };
    visitor.visit_expr(&binary(BinOp::Mul, integer("2"), integer("3")));
    assert_eq!(visitor.indent, 4);
    assert_eq!(
        visitor.output,
        vec![
            "    Binary expression: *",
            "    Left:",
            "      Integer literal: 2",
            "    Right:",
            "      Integer literal: 3",
        ]
    );
}

#[test]
fn ast_visitor_renders_like_the_text_visitor() {
    let function = match add_function() {
        Item::Fn(function) => function,
        _ => unreachable!(),
    };
    let mut ast_visitor = AstVisitor::new();
    ast_visitor.visit_item_fn(&function);
    ast_visitor.visit_stmt(&Stmt::Expr(integer("1")));
    ast_visitor.visit_expr(&path("x"));
    let mut text_visitor = TextVisitor::new();
    text_visitor.visit_item_fn(&function);
    text_visitor.visit_stmt(&Stmt::Expr(integer("1")));
    text_visitor.visit_expr(&path("x"));
    assert_eq!(ast_visitor.renderer.output, text_visitor.output);
    assert_eq!(ast_visitor.renderer.output.len(), 15);

    let mut ast_visitor = AstVisitor::new();
    ast_visitor.visit_file(&SourceFile { items: vec![add_function()] });
    assert_eq!(ast_visitor.renderer.output[0], "Function: add");
}

#[test]
fn print_ast_starts_with_the_heading() {
    let file = SourceFile { items: vec![Item::Enum { name: text("E"), variants: vec![text("A")] }] };
    let expected = vec!["AST for Rust code:", "Enum: E", "Variants:", "  Variant: A"];
    assert_eq!(print_ast(&file), expected);
    assert_eq!(print_ast(&file), print_ast(&file));
    assert_eq!(print_ast(&SourceFile { items: vec![] }), vec!["AST for Rust code:"]);
}

#[test]
fn deep_nesting_is_rendered() {
    let mut expr = integer("0");
    for _ in 0..200 {
        expr = Expr::Return { value: Some(Box::new(expr)) };
    }
    let lines = outline_of_expr(&expr);
    assert_eq!(lines.len(), 201);
    assert_eq!(lines[0], "Return statement:");
    assert_eq!(lines[1], "  Return statement:");
    assert_eq!(lines[200], format!("{}Integer literal: 0", " ".repeat(400)));

    let mut visitor = TextVisitor { indent: 1000, output: Vec::new() };
    visitor.visit_stmt(&Stmt::Expr(integer("1")));
    assert_eq!(visitor.indent, 1000);
    assert_eq!(visitor.output[0], format!("{}Expression statement:", " ".repeat(1000)));
    assert_eq!(visitor.output[1], format!("{}Integer literal: 1", " ".repeat(1002)));
}

#[test]
fn document_of_a_file_node_by_node() {
    let file = SourceFile {
        items: vec![
            add_function(),
            Item::Struct {
                name: text("Pair"),
                fields: vec![
                    Field { name: Some(text("left")), ty: text("u8") },
                    Field { name: None, ty: text("u16") },
                ],
            },
            Item::Enum { name: text("Side"), variants: vec![text("Left"), text("Right")] },
            Item::Other { text: text("mod m ;") },
        ],
    };
    let mut visitor = JsonVisitor::new();
    visitor.visit_file(&file);
    let identifier = |name: &str| Box::new(ExprJson::Identifier { name: text(name) });
    let expected = AstJson {
        items: vec![
            ItemJson::Function {
                name: text("add"),
                parameters: vec![
                    ParameterJson { name: text("a"), type_info: text("i32") },
                    ParameterJson { name: text("b"), type_info: text("i32") },
                ],
                return_type: Some(text("i32")),
                body: vec![StmtJson::Expression {
                    expr: Box::new(ExprJson::Binary {
                        operator: text("+"),
                        left: identifier("a"),
                        right: identifier("b"),
                    }),
                }],
            },
            ItemJson::Struct {
                name: text("Pair"),
                fields: vec![
                    FieldJson { name: Some(text("left")), type_info: text("u8") },
                    FieldJson { name: None, type_info: text("u16") },
                ],
            },
            ItemJson::Enum {
                name: text("Side"),
                variants: vec![VariantJson { name: text("Left") }, VariantJson { name: text("Right") }],
            },
            ItemJson::Other { description: text("mod m ;") },
        ],
    };
    assert_eq!(visitor.ast, expected);
}

#[test]
fn whole_file_renderings() {
    let file = SourceFile { items: vec![add_function()] };
    let mut visitor = TextVisitor::new();
    visitor.visit_file(&file);
    assert_eq!(render_text(&file), visitor.output);
    assert_eq!(render_text(&file).len(), 12);
    assert_eq!(render_text(&SourceFile { items: vec![] }), Vec::<String>::new());

    let mut builder = JsonVisitor::new();
    builder.process_file(&file);
    assert_eq!(render_json(&file), builder.to_json());
    assert_eq!(render_json(&SourceFile { items: vec![] }), "{}");
    assert_eq!(render_json(&file), render_json(&file));
}
