use ruda::imports::{declared_imports, imports_to_build, new_imports, Linker};
use ruda::text::{str_eq, str_less};
use ruda::tokens::{Line, Tokens};
use ruda::tree::{ArgNodeType, Node};

fn strings(v: &[&str]) -> Vec<String> {
    v.iter().map(|s| s.to_string()).collect()
}

fn leaf(tok: Tokens) -> Node {
    Node { name: tok, nodes: Vec::new(), line: Line { line: 1, column: 0 } }
}

#[test]
fn new_imports_sorts_and_removes_duplicates() {
    let mut imports = strings(&["b.rd", "a.rd"]);
    new_imports(&mut imports, strings(&["c.rd", "a.rd", "b.rd"]));
    assert_eq!(imports, strings(&["a.rd", "b.rd", "c.rd"]));
}

#[test]
fn new_imports_duplicates_in_the_old_list_go_too() {
    let mut imports = strings(&["x", "x", "y", "x"]);
    new_imports(&mut imports, Vec::new());
    assert_eq!(imports, strings(&["x", "y"]));
}

#[test]
fn new_imports_is_idempotent_and_order_insensitive() {
    let mut a = Vec::new();
    new_imports(&mut a, strings(&["m", "k", "z"]));
    let first = a.clone();
    new_imports(&mut a, strings(&["z", "k"]));
    assert_eq!(a, first);
    let mut b = strings(&["z"]);
    new_imports(&mut b, strings(&["k", "m"]));
    assert_eq!(a, b);
}

#[test]
fn new_imports_uses_byte_order() {
    let mut imports = Vec::new();
    new_imports(&mut imports, strings(&["é", "z", "Z", "ab", "a", ""]));
    let mut expected = strings(&["é", "z", "Z", "ab", "a", ""]);
    expected.sort();
    assert_eq!(imports, expected);
    assert_eq!(imports, strings(&["", "Z", "a", "ab", "z", "é"]));
}

#[test]
fn new_imports_of_nothing_is_nothing() {
    let mut imports: Vec<String> = Vec::new();
    new_imports(&mut imports, Vec::new());
    assert!(imports.is_empty());
}

#[test]
fn declared_imports_reads_string_literals() {
    let globals = vec![
        ("other".to_string(), ArgNodeType::Value(leaf(Tokens::String("no".to_string())))),
        (
            "imports".to_string(),
            ArgNodeType::Array(vec![
                leaf(Tokens::String("lib.rd".to_string())),
                leaf(Tokens::Text("ignored".to_string())),
                leaf(Tokens::String("util.rd".to_string())),
            ]),
        ),
    ];
    assert_eq!(declared_imports(&globals), strings(&["lib.rd", "util.rd"]));
}

#[test]
fn declared_imports_of_a_single_node_is_empty() {
    let globals = vec![(
        "imports".to_string(),
        ArgNodeType::Value(leaf(Tokens::String("lib.rd".to_string()))),
    )];
    assert!(declared_imports(&globals).is_empty());
}

#[test]
fn imports_to_build_keeps_order() {
    let imports = strings(&["a", "b", "c", "d"]);
    let built = strings(&["main", "c", "a"]);
    assert_eq!(imports_to_build(&imports, &built), strings(&["b", "d"]));
    let all = strings(&["a", "b", "c", "d"]);
    assert!(imports_to_build(&imports, &all).is_empty());
}

#[test]
fn string_comparisons() {
    assert!(str_eq("code_block", "code_block"));
    assert!(!str_eq("code_block", "code_bloc"));
    assert!(str_less("a", "b"));
    assert!(str_less("a", "ab"));
    assert!(!str_less("ab", "a"));
    assert!(!str_less("x", "x"));
    assert!(str_less("z", "é"));
}

#[test]
fn linker_builds_each_import_once_until_closed() {
    let mut l = Linker::start("main.rd".to_string(), strings(&["b.rd", "a.rd"]));
    assert_eq!(*l.imports(), strings(&["a.rd", "b.rd"]));
    assert_eq!(*l.built(), strings(&["main.rd"]));
    assert_eq!(l.to_build(), strings(&["a.rd", "b.rd"]));
    l = l.record("a.rd".to_string(), strings(&["c.rd", "b.rd"]));
    assert_eq!(*l.imports(), strings(&["a.rd", "b.rd", "c.rd"]));
    assert_eq!(l.to_build(), strings(&["b.rd", "c.rd"]));
    l = l.record("b.rd".to_string(), Vec::new());
    l = l.record("c.rd".to_string(), strings(&["a.rd", "main.rd"]));
    assert_eq!(*l.imports(), strings(&["a.rd", "b.rd", "c.rd", "main.rd"]));
    assert!(l.to_build().is_empty());
    assert_eq!(*l.built(), strings(&["main.rd", "a.rd", "b.rd", "c.rd"]));
}
