use ruda::codeblock_parser::{generate_tree, get_ident, get_loop_ident, node_from_node};
use ruda::statements::{ErrType, Nodes};
use ruda::tokens::{Line, Operators, Tokens};
use ruda::tree::{step_inside_arr, step_inside_val, ArgNodeType, Node};

fn ln(l: usize) -> Line {
    Line { line: l, column: 0 }
}

fn node(name: &str, l: usize, fields: Vec<(&str, ArgNodeType)>) -> Node {
    Node {
        name: Tokens::Text(name.to_string()),
        nodes: fields.into_iter().map(|(k, v)| (k.to_string(), v)).collect(),
        line: ln(l),
    }
}

fn leaf(tok: Tokens, l: usize) -> Node {
    Node { name: tok, nodes: Vec::new(), line: ln(l) }
}

fn val(n: Node) -> ArgNodeType {
    ArgNodeType::Value(n)
}

fn arr(v: Vec<Node>) -> ArgNodeType {
    ArgNodeType::Array(v)
}

fn block(l: usize, stmts: Vec<Node>) -> Node {
    node("code_block", l, vec![("nodes", arr(stmts))])
}

fn expr(l: usize) -> Node {
    node("expression", l, vec![("nodes", arr(vec![leaf(Tokens::Text("x".to_string()), l)]))])
}

fn no_label(l: usize) -> ArgNodeType {
    val(leaf(Tokens::Char(' '), l))
}

fn label(name: &str, l: usize) -> ArgNodeType {
    val(leaf(Tokens::Text(name.to_string()), l))
}

fn bad_set(l: usize) -> Node {
    node(
        "set",
        l,
        vec![
            ("operator", val(node("operator", l, vec![("op", val(leaf(Tokens::Text("?".to_string()), l)))]))),
            ("value", val(expr(l))),
            ("expression", val(expr(l))),
        ],
    )
}

fn good_set(l: usize) -> Node {
    node(
        "set",
        l,
        vec![
            (
                "operator",
                val(node("operator", l, vec![("op", val(leaf(Tokens::Operator(Operators::AddEq), l)))])),
            ),
            ("value", val(expr(l))),
            ("expression", val(expr(l))),
        ],
    )
}

#[test]
fn generate_tree_ignores_other_nodes() {
    let mut errors = Vec::new();
    let n = node("expression", 1, vec![]);
    assert!(generate_tree(&n, &mut errors, "main.rd").is_empty());
    let n = leaf(Tokens::String("code_block".to_string()), 1);
    assert!(generate_tree(&n, &mut errors, "main.rd").is_empty());
    assert!(errors.is_empty());
}

#[test]
fn generate_tree_keeps_order_and_skips_non_statements() {
    let mut errors = vec![ErrType::NotOperator(ln(99))];
    let b = block(
        1,
        vec![
            expr(2),
            node("unknown", 3, vec![]),
            node("KWBreak", 4, vec![("ident", label("outer", 4))]),
            bad_set(5),
            node("KWContinue", 6, vec![("ident", no_label(6))]),
        ],
    );
    let out = generate_tree(&b, &mut errors, "main.rd");
    assert_eq!(out.len(), 3);
    assert!(matches!(&out[0], Nodes::Expr { line, .. } if line.line == 2));
    match &out[1] {
        Nodes::Break { line, ident } => {
            assert_eq!(line.line, 4);
            assert_eq!(ident.as_deref(), Some("outer"));
        }
        other => panic!("unexpected {:?}", other),
    }
    assert!(matches!(&out[2], Nodes::Continue { ident: None, .. }));
    // the error already there stays first; the assignment's error comes after it
    assert_eq!(errors, vec![ErrType::NotOperator(ln(99)), ErrType::NotOperator(ln(5))]);
}

#[test]
fn set_with_operator_is_an_assignment() {
    let mut errors = Vec::new();
    match node_from_node(&good_set(3), &mut errors, "f") {
        Some(Nodes::Assign { op, line, target, expr }) => {
            assert_eq!(op, Operators::AddEq);
            assert_eq!(line.line, 3);
            assert!(matches!(target.name, Tokens::Text(ref t) if t == "expression"));
            assert_eq!(expr.nodes.len(), 1);
        }
        other => panic!("unexpected {:?}", other),
    }
    assert!(errors.is_empty());
}

#[test]
fn set_without_operator_reports_error() {
    let mut errors = Vec::new();
    assert!(node_from_node(&bad_set(7), &mut errors, "f").is_none());
    assert_eq!(errors, vec![ErrType::NotOperator(ln(7))]);
}

#[test]
fn return_with_and_without_value() {
    let mut errors = Vec::new();
    let empty = node("KWReturn", 1, vec![("expression", val(node("expression", 1, vec![("nodes", arr(vec![]))])))]);
    assert!(matches!(node_from_node(&empty, &mut errors, "f"), Some(Nodes::Return { expr: None, .. })));
    let full = node("KWReturn", 2, vec![("expression", val(expr(2)))]);
    match node_from_node(&full, &mut errors, "f") {
        Some(Nodes::Return { expr: Some(e), line }) => {
            assert_eq!(line.line, 2);
            assert_eq!(e.line.line, 2);
        }
        other => panic!("unexpected {:?}", other),
    }
}

#[test]
fn if_with_elif_and_else() {
    let mut errors = Vec::new();
    let n = node(
        "KWIf",
        1,
        vec![
            ("expression", val(expr(1))),
            ("code", val(block(1, vec![expr(2)]))),
            (
                "elif",
                arr(vec![node(
                    "elif",
                    3,
                    vec![("expression", val(expr(3))), ("code", val(block(3, vec![bad_set(4)])))],
                )]),
            ),
            ("else", val(node("KWElse", 5, vec![("code", val(block(5, vec![expr(6), expr(7)])))]))),
        ],
    );
    match node_from_node(&n, &mut errors, "f") {
        Some(Nodes::If { body, elif, els, line, .. }) => {
            assert_eq!(line.line, 1);
            assert_eq!(body.len(), 1);
            assert_eq!(elif.len(), 1);
            assert_eq!(elif[0].2.line, 3);
            assert!(elif[0].1.is_empty());
            let (eb, el) = els.expect("else branch");
            assert_eq!(eb.len(), 2);
            assert_eq!(el.line, 5);
        }
        other => panic!("unexpected {:?}", other),
    }
    assert_eq!(errors, vec![ErrType::NotOperator(ln(4))]);
}

#[test]
fn if_without_else() {
    let mut errors = Vec::new();
    let n = node(
        "KWIf",
        1,
        vec![
            ("expression", val(expr(1))),
            ("code", val(block(1, vec![]))),
            ("elif", arr(vec![])),
            ("else", val(node("nothing", 1, vec![]))),
        ],
    );
    assert!(matches!(node_from_node(&n, &mut errors, "f"), Some(Nodes::If { els: None, .. })));
}

#[test]
fn loops_carry_labels() {
    let mut errors = Vec::new();
    let w = node(
        "KWWhile",
        1,
        vec![("expression", val(expr(1))), ("code", val(block(1, vec![expr(2)]))), ("ident", label("l1", 1))],
    );
    match node_from_node(&w, &mut errors, "f") {
        Some(Nodes::While { body, ident, .. }) => {
            assert_eq!(body.len(), 1);
            assert_eq!(ident.as_deref(), Some("l1"));
        }
        other => panic!("unexpected {:?}", other),
    }
    let l = node("KWLoop", 2, vec![("code", val(block(2, vec![]))), ("ident", no_label(2))]);
    assert!(matches!(node_from_node(&l, &mut errors, "f"), Some(Nodes::Loop { ident: None, .. })));
    let f = node(
        "KWFor",
        3,
        vec![
            ("identifier", val(leaf(Tokens::Text("i".to_string()), 3))),
            ("expression", val(expr(3))),
            ("code", val(block(3, vec![expr(4)]))),
            ("ident", label("outer", 3)),
        ],
    );
    match node_from_node(&f, &mut errors, "f") {
        Some(Nodes::For { ident, ident2, body, .. }) => {
            assert_eq!(ident, "i");
            assert_eq!(ident2.as_deref(), Some("outer"));
            assert_eq!(body.len(), 1);
        }
        other => panic!("unexpected {:?}", other),
    }
    assert!(errors.is_empty());
}

#[test]
fn yeet_and_nested_block() {
    let mut errors = Vec::new();
    let y = node("KWYeet", 1, vec![("err", val(expr(1)))]);
    assert!(matches!(node_from_node(&y, &mut errors, "f"), Some(Nodes::Yeet { .. })));
    let b = block(2, vec![block(3, vec![expr(4)])]);
    match node_from_node(&b, &mut errors, "f") {
        Some(Nodes::Block { body, line }) => {
            assert_eq!(line.line, 2);
            assert_eq!(body.len(), 1);
            assert!(matches!(&body[0], Nodes::Block { body, .. } if body.len() == 1));
        }
        other => panic!("unexpected {:?}", other),
    }
}

fn type_path(parts: Vec<Tokens>) -> Node {
    node(
        "type",
        1,
        vec![(
            "nodes",
            arr(parts.into_iter().map(|t| node("part", 1, vec![("identifier", val(leaf(t, 1)))])).collect()),
        )],
    )
}

fn catch_clause(l: usize, types: Vec<Node>, stmts: Vec<Node>) -> Node {
    node(
        "catch",
        l,
        vec![
            ("identifier", val(leaf(Tokens::Text("e".to_string()), l))),
            ("code", val(block(l, stmts))),
            ("types", arr(types)),
        ],
    )
}

#[test]
fn try_with_catch_and_finally() {
    let mut errors = Vec::new();
    let t = node(
        "KWTry",
        1,
        vec![
            ("code", val(block(1, vec![expr(2)]))),
            ("finally", val(node("KWFinally", 9, vec![("code", val(block(9, vec![expr(9)])))]))),
            (
                "catch",
                arr(vec![catch_clause(
                    4,
                    vec![type_path(vec![
                        Tokens::Text("io".to_string()),
                        Tokens::Text("Error".to_string()),
                    ])],
                    vec![expr(5)],
                )]),
            ),
        ],
    );
    match node_from_node(&t, &mut errors, "f") {
        Some(Nodes::Try { body, catch, finally, .. }) => {
            assert_eq!(body.len(), 1);
            assert_eq!(finally.map(|f| f.len()), Some(1));
            assert_eq!(catch.len(), 1);
            assert_eq!(catch[0].ident, "e");
            assert_eq!(catch[0].kinds, vec![vec!["io".to_string(), "Error".to_string()]]);
            assert_eq!(catch[0].body.len(), 1);
            assert_eq!(catch[0].line.line, 4);
        }
        other => panic!("unexpected {:?}", other),
    }
}

#[test]
fn try_with_bad_catch_type_gives_nothing_but_keeps_errors() {
    let mut errors = Vec::new();
    let t = node(
        "KWTry",
        1,
        vec![
            ("code", val(block(1, vec![bad_set(2)]))),
            ("finally", val(node("none", 1, vec![]))),
            (
                "catch",
                arr(vec![catch_clause(3, vec![type_path(vec![Tokens::Char('x')])], vec![bad_set(4)])]),
            ),
        ],
    );
    assert!(node_from_node(&t, &mut errors, "f").is_none());
    assert_eq!(errors, vec![ErrType::NotOperator(ln(2)), ErrType::NotOperator(ln(4))]);
}

fn arm(pattern: Tokens, l: usize, stmts: Vec<Node>) -> Node {
    node(
        "arm",
        l,
        vec![
            ("expression", val(node("expression", l, vec![("ignore", val(leaf(pattern, l)))]))),
            ("code", val(block(l, stmts))),
        ],
    )
}

#[test]
fn switch_arms_and_default() {
    let mut errors = Vec::new();
    let s = node(
        "KWSwitch",
        1,
        vec![
            ("expression", val(expr(1))),
            (
                "nodes",
                arr(vec![
                    arm(Tokens::Text("_".to_string()), 2, vec![expr(2)]),
                    arm(Tokens::Text("x".to_string()), 3, vec![expr(3), expr(3)]),
                    arm(Tokens::Char('c'), 4, vec![bad_set(4)]),
                    arm(Tokens::Text("_".to_string()), 5, vec![]),
                ]),
            ),
        ],
    );
    match node_from_node(&s, &mut errors, "f") {
        Some(Nodes::Switch { body, default, .. }) => {
            assert_eq!(body.len(), 1);
            assert_eq!(body[0].1.len(), 2);
            // the last `_` arm wins
            assert_eq!(default.map(|d| d.len()), Some(0));
        }
        other => panic!("unexpected {:?}", other),
    }
    // the skipped arm's body is not parsed
    assert!(errors.is_empty());
}

#[test]
fn let_with_value_and_type() {
    let mut errors = Vec::new();
    let l = node(
        "KWLet",
        1,
        vec![
            ("identifier", val(leaf(Tokens::Text("a".to_string()), 1))),
            ("expression", val(expr(1))),
            ("type", val(node("type_specifier", 1, vec![("type", val(leaf(Tokens::Text("int".to_string()), 1)))]))),
        ],
    );
    match node_from_node(&l, &mut errors, "f") {
        Some(Nodes::Let { ident, expr, kind, .. }) => {
            assert_eq!(ident, "a");
            assert!(expr.is_some());
            assert!(matches!(kind, Some(Node { name: Tokens::Text(ref t), .. }) if t == "int"));
        }
        other => panic!("unexpected {:?}", other),
    }
    let bare = node(
        "KWLet",
        2,
        vec![
            ("identifier", val(leaf(Tokens::Text("b".to_string()), 2))),
            ("expression", val(node("none", 2, vec![]))),
            ("type", val(node("none", 2, vec![]))),
        ],
    );
    assert!(matches!(node_from_node(&bare, &mut errors, "f"), Some(Nodes::Let { expr: None, kind: None, .. })));
}

#[test]
fn unknown_and_non_text_nodes_give_nothing() {
    let mut errors = Vec::new();
    assert!(node_from_node(&node("whatever", 1, vec![]), &mut errors, "f").is_none());
    assert!(node_from_node(&leaf(Tokens::Operator(Operators::Add), 1), &mut errors, "f").is_none());
    assert!(errors.is_empty());
}

#[test]
fn child_lookup_takes_the_named_child() {
    let n = node(
        "x",
        1,
        vec![
            ("a", val(leaf(Tokens::Text("first".to_string()), 1))),
            ("b", arr(vec![leaf(Tokens::Char('1'), 1), leaf(Tokens::Char('2'), 1)])),
            ("c", val(leaf(Tokens::Text("second".to_string()), 1))),
        ],
    );
    assert!(matches!(&step_inside_val(&n, "a").name, Tokens::Text(t) if t == "first"));
    assert!(matches!(&step_inside_val(&n, "c").name, Tokens::Text(t) if t == "second"));
    assert_eq!(step_inside_arr(&n, "b").len(), 2);
    let i = node("x", 1, vec![("identifier", val(leaf(Tokens::Text("name".to_string()), 1)))]);
    assert_eq!(get_ident(&i), "name");
    let j = node("x", 1, vec![("ident", label("lab", 1))]);
    assert_eq!(get_loop_ident(&j).as_deref(), Some("lab"));
}

#[test]
fn duplicate_copies_the_whole_tree() {
    let b = block(1, vec![expr(2), good_set(3)]);
    let c = b.duplicate();
    assert_eq!(format!("{:?}", b), format!("{:?}", c));
}
