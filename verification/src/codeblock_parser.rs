//! The code-block parser: turns the generic syntax tree of a code block into statements.
use vstd::prelude::*;
use crate::text::str_eq;
use crate::tokens::Tokens;
use crate::tree::{
    tree_wf,
    Node, node_view, spec_val, spec_arr, text_of, is_named, spec_ident, spec_label,
    lemma_val_decreases, lemma_arr_decreases, step_inside_val, step_inside_arr,
};
use crate::statements::{
    ErrType, Nodes, Catch, stmts_view, opt_stmt_view, opt_text_view, elifs_view, arms_view,
    catches_view, kinds_view, lemma_stmts_view_push, lemma_elifs_view_push, lemma_arms_view_push,
    lemma_catches_view_push,
};
use crate::codeblock_spec::{
    spec_generate_tree, spec_statements, spec_body, spec_elifs, spec_arms, spec_path, spec_kinds,
    spec_catch, spec_catches, spec_optional, spec_set, spec_return, spec_else, spec_if,
    spec_finally, spec_try, spec_switch, spec_let, spec_node_from_node, lemma_statements_prefix,
    lemma_elifs_prefix, lemma_arms_prefix, lemma_catches_prefix, lemma_kinds_prefix,
    lemma_path_prefix,
};

verus! {

/// Whether the node's name is the `Text` token `s`.
fn has_name(node: &Node, s: &str) -> (res: bool)
    ensures
        res == is_named(*node, s@),
{
    match &node.name {
        Tokens::Text(t) => str_eq(t.as_str(), s),
        _ => false,
    }
}

/// The identifier under the child `identifier`.
pub fn get_ident(node: &Node) -> (res: String)
    requires
        tree_wf(*node),
        spec_ident(*node) is Some,
    ensures
        res@ == spec_ident(*node).unwrap(),
{
    let v = step_inside_val(node, "identifier");
    match &v.name {
        Tokens::Text(t) => t.clone(),
        _ => unreached(),
    }
}

/// The label of a loop, `break` or `continue`: the text of the child `ident`
/// when that child is named by a `Text` token.
pub fn get_loop_ident(node: &Node) -> (res: Option<String>)
    requires
        tree_wf(*node),
        spec_label(*node) is Some,
    ensures
        opt_text_view(res) == spec_label(*node).unwrap(),
{
    let v = step_inside_val(node, "ident");
    match &v.name {
        Tokens::Text(t) => Some(t.clone()),
        _ => None,
    }
}

/// The child `key` when it is named `marker`.
fn optional_child<'a>(node: &'a Node, key: &str, marker: &str) -> (res: Option<&'a Node>)
    requires
        tree_wf(*node),
        spec_optional(*node, key@, marker@) is Some,
    ensures
        match res {
            Some(r) => spec_optional(*node, key@, marker@) == Some(Some(*r)),
            None => spec_optional(*node, key@, marker@) == Some(None::<Node>),
        },
        res matches Some(r) ==> tree_wf(*r),
{
    let v = step_inside_val(node, key);
    if has_name(v, marker) {
        Some(v)
    } else {
        None
    }
}

/// The statements of the code block under the child `key`.
fn body_of(node: &Node, key: &str, errors: &mut Vec<ErrType>, file_name: &str) -> (res: Vec<Nodes>)
    requires
        tree_wf(*node),
        spec_body(*node, key@) is Some,
    ensures
        stmts_view(res@) == spec_body(*node, key@).unwrap().0,
        final(errors)@ == old(errors)@ + spec_body(*node, key@).unwrap().1,
    decreases node, 1nat,
{
    let c = step_inside_val(node, key);
    proof {
        lemma_val_decreases(*node, key@);
    }
    generate_tree(c, errors, file_name)
}

/// Builds the statements of a code block: for a node named `code_block`, the
/// statements that its `nodes` give, in order (nodes that give no statement are
/// skipped); for any other node, none. Errors met on the way are appended to `errors`.
pub fn generate_tree(node: &Node, errors: &mut Vec<ErrType>, file_name: &str) -> (res: Vec<Nodes>)
    requires
        tree_wf(*node),
        spec_generate_tree(*node) is Some,
    ensures
        stmts_view(res@) == spec_generate_tree(*node).unwrap().0,
        final(errors)@ == old(errors)@ + spec_generate_tree(*node).unwrap().1,
    decreases node, 0nat,
{
    if !has_name(node, "code_block") {
        assert(errors@ =~= old(errors)@ + Seq::<ErrType>::empty());
        return Vec::new();
    }
    let stmts = step_inside_arr(node, "nodes");
    let ghost pre = errors@;
    let mut nodes: Vec<Nodes> = Vec::new();
    let mut i: usize = 0;
    assert(stmts@.take(0) =~= Seq::<Node>::empty());
    assert(errors@ =~= pre + Seq::<ErrType>::empty());
    while i < stmts.len()
        invariant
            i <= stmts@.len(),
            forall|j: int| 0 <= j < stmts@.len() ==> #[trigger] tree_wf(stmts@[j]),
            spec_arr(*node, "nodes"@) == Some(stmts@),
            spec_statements(stmts@) is Some,
            spec_statements(stmts@.take(i as int)) is Some,
            stmts_view(nodes@) == spec_statements(stmts@.take(i as int)).unwrap().0,
            errors@ == pre + spec_statements(stmts@.take(i as int)).unwrap().1,
        decreases stmts@.len() - i,
    {
        proof {
            assert(tree_wf(stmts@[i as int]));
            lemma_statements_prefix(stmts@, i + 1);
            assert(stmts@.take(i + 1).drop_last() =~= stmts@.take(i as int));
            assert(stmts@.take(i + 1).last() == stmts@[i as int]);
            lemma_arr_decreases(*node, "nodes"@);
            assert(decreases_to!(stmts@ => stmts@[i as int]));
        }
        let ghost e_before = errors@;
        let r = node_from_node(&stmts[i], errors, file_name);
        match r {
            Some(x) => {
                proof {
                    lemma_stmts_view_push(nodes@, x);
                }
                nodes.push(x);
            },
            None => {},
        }
        proof {
            let e1 = spec_statements(stmts@.take(i as int)).unwrap().1;
            let e2 = spec_node_from_node(stmts@[i as int]).unwrap().1;
            assert(errors@ =~= pre + (e1 + e2));
        }
        i = i + 1;
    }
    proof {
        assert(stmts@.take(i as int) =~= stmts@);
    }
    nodes
}

fn parse_return(node: &Node) -> (res: Option<Nodes>)
    requires
        tree_wf(*node),
        spec_return(*node) is Some,
    ensures
        opt_stmt_view(res) == spec_return(*node).unwrap().0,
{
    let expre = step_inside_val(node, "expression");
    let expr = if step_inside_arr(expre, "nodes").len() > 0 {
        Some(expre.duplicate())
    } else {
        None
    };
    Some(Nodes::Return { expr, line: node.line })
}

fn parse_set(node: &Node, errors: &mut Vec<ErrType>) -> (res: Option<Nodes>)
    requires
        tree_wf(*node),
        spec_set(*node) is Some,
    ensures
        opt_stmt_view(res) == spec_set(*node).unwrap().0,
        final(errors)@ == old(errors)@ + spec_set(*node).unwrap().1,
{
    let op = step_inside_val(step_inside_val(node, "operator"), "op");
    let op = if let Tokens::Operator(op) = &op.name {
        *op
    } else {
        errors.push(ErrType::NotOperator(node.line));
        return None;
    };
    let target = step_inside_val(node, "value").duplicate();
    let expr = step_inside_val(node, "expression").duplicate();
    assert(errors@ =~= old(errors)@ + Seq::<ErrType>::empty());
    Some(Nodes::Assign { target, expr, op, line: node.line })
}

fn parse_else(node: &Node, errors: &mut Vec<ErrType>, file_name: &str) -> (res: Option<(Vec<Nodes>, crate::tokens::Line)>)
    requires
        tree_wf(*node),
        spec_else(*node) is Some,
    ensures
        match res {
            Some(r) => spec_else(*node).unwrap().0 == Some((stmts_view(r.0@), r.1)),
            None => spec_else(*node).unwrap().0 is None,
        },
        final(errors)@ == old(errors)@ + spec_else(*node).unwrap().1,
    decreases node, 1nat,
{
    match optional_child(node, "else", "KWElse") {
        Some(en) => {
            proof {
                lemma_val_decreases(*node, "else"@);
            }
            let b = body_of(en, "code", errors, file_name);
            Some((b, en.line))
        },
        None => {
            assert(errors@ =~= old(errors)@ + Seq::<ErrType>::empty());
            None
        },
    }
}

fn parse_if(node: &Node, errors: &mut Vec<ErrType>, file_name: &str) -> (res: Option<Nodes>)
    requires
        tree_wf(*node),
        spec_if(*node) is Some,
    ensures
        opt_stmt_view(res) == spec_if(*node).unwrap().0,
        final(errors)@ == old(errors)@ + spec_if(*node).unwrap().1,
    decreases node, 2nat,
{
    let cond = step_inside_val(node, "expression").duplicate();
    let body = body_of(node, "code", errors, file_name);
    let arr = step_inside_arr(node, "elif");
    let ghost pre = errors@;
    let mut elif: Vec<(Node, Vec<Nodes>, crate::tokens::Line)> = Vec::new();
    let mut i: usize = 0;
    assert(arr@.take(0) =~= Seq::<Node>::empty());
    assert(errors@ =~= pre + Seq::<ErrType>::empty());
    while i < arr.len()
        invariant
            i <= arr@.len(),
            forall|j: int| 0 <= j < arr@.len() ==> #[trigger] tree_wf(arr@[j]),
            spec_arr(*node, "elif"@) == Some(arr@),
            spec_elifs(arr@) is Some,
            spec_elifs(arr@.take(i as int)) is Some,
            elifs_view(elif@) == spec_elifs(arr@.take(i as int)).unwrap().0,
            errors@ == pre + spec_elifs(arr@.take(i as int)).unwrap().1,
        decreases arr@.len() - i,
    {
        proof {
            assert(tree_wf(arr@[i as int]));
            lemma_elifs_prefix(arr@, i + 1);
            assert(arr@.take(i + 1).drop_last() =~= arr@.take(i as int));
            assert(arr@.take(i + 1).last() == arr@[i as int]);
            lemma_arr_decreases(*node, "elif"@);
            assert(decreases_to!(arr@ => arr@[i as int]));
        }
        let n = &arr[i];
        let c = step_inside_val(n, "expression").duplicate();
        let b = body_of(n, "code", errors, file_name);
        proof {
            lemma_elifs_view_push(elif@, (c, b, n.line));
            let e1 = spec_elifs(arr@.take(i as int)).unwrap().1;
            let e2 = spec_body(arr@[i as int], "code"@).unwrap().1;
            assert(errors@ =~= pre + (e1 + e2));
        }
        elif.push((c, b, n.line));
        i = i + 1;
    }
    proof {
        assert(arr@.take(i as int) =~= arr@);
    }
    let els = parse_else(node, errors, file_name);
    proof {
        let e1 = spec_body(*node, "code"@).unwrap().1;
        let e2 = spec_elifs(arr@).unwrap().1;
        let e3 = spec_else(*node).unwrap().1;
        assert(errors@ =~= old(errors)@ + (e1 + e2 + e3));
    }
    Some(Nodes::If { cond, body, elif, els, line: node.line })
}

fn parse_path(arr: &Vec<Node>) -> (res: Option<Vec<String>>)
    requires
        forall|j: int| 0 <= j < arr@.len() ==> #[trigger] tree_wf(arr@[j]),
        spec_path(arr@) is Some,
    ensures
        match res {
            Some(p) => spec_path(arr@).unwrap() == Some(p@.map_values(|s: String| s@)),
            None => spec_path(arr@).unwrap() is None,
        },
{
    let mut kind: Vec<String> = Vec::new();
    let mut i: usize = 0;
    assert(arr@.take(0) =~= Seq::<Node>::empty());
    while i < arr.len()
        invariant
            i <= arr@.len(),
            forall|j: int| 0 <= j < arr@.len() ==> #[trigger] tree_wf(arr@[j]),
            spec_path(arr@) is Some,
            spec_path(arr@.take(i as int)) == Some(Some(kind@.map_values(|s: String| s@))),
        decreases arr@.len() - i,
    {
        proof {
            assert(tree_wf(arr@[i as int]));
            lemma_path_prefix(arr@, i + 1);
            assert(arr@.take(i + 1).drop_last() =~= arr@.take(i as int));
            assert(arr@.take(i + 1).last() == arr@[i as int]);
        }
        let v = step_inside_val(&arr[i], "identifier");
        let txt = if let Tokens::Text(txt) = &v.name {
            txt
        } else {
            return None;
        };
        let ghost before = kind@;
        kind.push(txt.clone());
        proof {
            assert(kind@.map_values(|s: String| s@) =~= before.map_values(|s: String| s@).push(
                txt@,
            ));
        }
        i = i + 1;
    }
    proof {
        assert(arr@.take(i as int) =~= arr@);
    }
    Some(kind)
}

fn parse_kinds(arr: &Vec<Node>) -> (res: Option<Vec<Vec<String>>>)
    requires
        forall|j: int| 0 <= j < arr@.len() ==> #[trigger] tree_wf(arr@[j]),
        spec_kinds(arr@) is Some,
    ensures
        match res {
            Some(k) => spec_kinds(arr@).unwrap() == Some(kinds_view(k@)),
            None => spec_kinds(arr@).unwrap() is None,
        },
{
    let mut kinds: Vec<Vec<String>> = Vec::new();
    let mut i: usize = 0;
    assert(arr@.take(0) =~= Seq::<Node>::empty());
    assert(kinds_view(kinds@) =~= Seq::<Seq<Seq<char>>>::empty());
    while i < arr.len()
        invariant
            i <= arr@.len(),
            forall|j: int| 0 <= j < arr@.len() ==> #[trigger] tree_wf(arr@[j]),
            spec_kinds(arr@) is Some,
            spec_kinds(arr@.take(i as int)) == Some(Some(kinds_view(kinds@))),
        decreases arr@.len() - i,
    {
        proof {
            assert(tree_wf(arr@[i as int]));
            lemma_kinds_prefix(arr@, i + 1);
            assert(arr@.take(i + 1).drop_last() =~= arr@.take(i as int));
            assert(arr@.take(i + 1).last() == arr@[i as int]);
        }
        let path = step_inside_arr(&arr[i], "nodes");
        let kind = match parse_path(path) {
            Some(k) => k,
            None => {
                return None;
            },
        };
        let ghost before = kinds@;
        kinds.push(kind);
        proof {
            assert(kinds_view(kinds@) =~= kinds_view(before).push(kind@.map_values(|s: String| s@)));
        }
        i = i + 1;
    }
    proof {
        assert(arr@.take(i as int) =~= arr@);
    }
    Some(kinds)
}

fn parse_catch(n: &Node, errors: &mut Vec<ErrType>, file_name: &str) -> (res: Option<Catch>)
    requires
        tree_wf(*n),
        spec_catch(*n) is Some,
    ensures
        match res {
            Some(c) => spec_catch(*n).unwrap().0 == Some(
                crate::statements::CatchV {
                    ident: c.ident@,
                    kinds: kinds_view(c.kinds@),
                    body: stmts_view(c.body@),
                    line: c.line,
                },
            ),
            None => spec_catch(*n).unwrap().0 is None,
        },
        final(errors)@ == old(errors)@ + spec_catch(*n).unwrap().1,
    decreases n, 2nat,
{
    let ident = get_ident(n);
    let body = body_of(n, "code", errors, file_name);
    let kinds = match parse_kinds(step_inside_arr(n, "types")) {
        Some(k) => k,
        None => {
            return None;
        },
    };
    Some(Catch { ident, kinds, body, line: n.line })
}

fn parse_finally(node: &Node, errors: &mut Vec<ErrType>, file_name: &str) -> (res: Option<Vec<Nodes>>)
    requires
        tree_wf(*node),
        spec_finally(*node) is Some,
    ensures
        match res {
            Some(r) => spec_finally(*node).unwrap().0 == Some(stmts_view(r@)),
            None => spec_finally(*node).unwrap().0 is None,
        },
        final(errors)@ == old(errors)@ + spec_finally(*node).unwrap().1,
    decreases node, 1nat,
{
    match optional_child(node, "finally", "KWFinally") {
        Some(fnode) => {
            proof {
                lemma_val_decreases(*node, "finally"@);
            }
            Some(body_of(fnode, "code", errors, file_name))
        },
        None => {
            assert(errors@ =~= old(errors)@ + Seq::<ErrType>::empty());
            None
        },
    }
}

fn parse_catches(arr: &Vec<Node>, errors: &mut Vec<ErrType>, file_name: &str) -> (res: Option<Vec<Catch>>)
    requires
        forall|j: int| 0 <= j < arr@.len() ==> #[trigger] tree_wf(arr@[j]),
        spec_catches(arr@) is Some,
    ensures
        match res {
            Some(c) => spec_catches(arr@).unwrap().0 == Some(catches_view(c@)),
            None => spec_catches(arr@).unwrap().0 is None,
        },
        final(errors)@ == old(errors)@ + spec_catches(arr@).unwrap().1,
    decreases arr@, 0nat,
{
    let mut catch: Vec<Catch> = Vec::new();
    let mut i: usize = 0;
    assert(arr@.take(0) =~= Seq::<Node>::empty());
    assert(errors@ =~= old(errors)@ + Seq::<ErrType>::empty());
    while i < arr.len()
        invariant
            i <= arr@.len(),
            forall|j: int| 0 <= j < arr@.len() ==> #[trigger] tree_wf(arr@[j]),
            spec_catches(arr@) is Some,
            spec_catches(arr@.take(i as int)) is Some,
            spec_catches(arr@.take(i as int)).unwrap().0 == Some(catches_view(catch@)),
            errors@ == old(errors)@ + spec_catches(arr@.take(i as int)).unwrap().1,
        decreases arr@.len() - i,
    {
        proof {
            assert(tree_wf(arr@[i as int]));
            lemma_catches_prefix(arr@, i + 1);
            assert(arr@.take(i + 1).drop_last() =~= arr@.take(i as int));
            assert(arr@.take(i + 1).last() == arr@[i as int]);
            assert(decreases_to!(arr@ => arr@[i as int]));
        }
        let c = parse_catch(&arr[i], errors, file_name);
        proof {
            let e1 = spec_catches(arr@.take(i as int)).unwrap().1;
            let e2 = spec_catch(arr@[i as int]).unwrap().1;
            assert(errors@ =~= old(errors)@ + (e1 + e2));
        }
        match c {
            Some(c) => {
                proof {
                    lemma_catches_view_push(catch@, c);
                }
                catch.push(c);
            },
            None => {
                return None;
            },
        }
        i = i + 1;
    }
    proof {
        assert(arr@.take(i as int) =~= arr@);
    }
    Some(catch)
}

fn parse_try(node: &Node, errors: &mut Vec<ErrType>, file_name: &str) -> (res: Option<Nodes>)
    requires
        tree_wf(*node),
        spec_try(*node) is Some,
    ensures
        opt_stmt_view(res) == spec_try(*node).unwrap().0,
        final(errors)@ == old(errors)@ + spec_try(*node).unwrap().1,
    decreases node, 2nat,
{
    let body = body_of(node, "code", errors, file_name);
    let finally = parse_finally(node, errors, file_name);
    let arr = step_inside_arr(node, "catch");
    proof {
        lemma_arr_decreases(*node, "catch"@);
    }
    let catch = parse_catches(arr, errors, file_name);
    proof {
        let e0 = spec_body(*node, "code"@).unwrap().1;
        let ef = spec_finally(*node).unwrap().1;
        let ec = spec_catches(arr@).unwrap().1;
        assert(errors@ =~= old(errors)@ + (e0 + ef + ec));
    }
    match catch {
        Some(catch) => Some(Nodes::Try { body, catch, finally, line: node.line }),
        None => None,
    }
}

fn parse_switch(node: &Node, errors: &mut Vec<ErrType>, file_name: &str) -> (res: Option<Nodes>)
    requires
        tree_wf(*node),
        spec_switch(*node) is Some,
    ensures
        opt_stmt_view(res) == spec_switch(*node).unwrap().0,
        final(errors)@ == old(errors)@ + spec_switch(*node).unwrap().1,
    decreases node, 1nat,
{
    let expr = step_inside_val(node, "expression").duplicate();
    let arr = step_inside_arr(node, "nodes");
    let mut body: Vec<(Node, Vec<Nodes>)> = Vec::new();
    let mut default: Option<Vec<Nodes>> = None;
    let mut i: usize = 0;
    assert(arr@.take(0) =~= Seq::<Node>::empty());
    assert(errors@ =~= old(errors)@ + Seq::<ErrType>::empty());
    while i < arr.len()
        invariant
            i <= arr@.len(),
            forall|j: int| 0 <= j < arr@.len() ==> #[trigger] tree_wf(arr@[j]),
            spec_arr(*node, "nodes"@) == Some(arr@),
            spec_arms(arr@) is Some,
            spec_arms(arr@.take(i as int)) is Some,
            arms_view(body@) == spec_arms(arr@.take(i as int)).unwrap().0,
            match default {
                Some(d) => spec_arms(arr@.take(i as int)).unwrap().1 == Some(stmts_view(d@)),
                None => spec_arms(arr@.take(i as int)).unwrap().1 is None,
            },
            errors@ == old(errors)@ + spec_arms(arr@.take(i as int)).unwrap().2,
        decreases arr@.len() - i,
    {
        proof {
            assert(tree_wf(arr@[i as int]));
            lemma_arms_prefix(arr@, i + 1);
            assert(arr@.take(i + 1).drop_last() =~= arr@.take(i as int));
            assert(arr@.take(i + 1).last() == arr@[i as int]);
            lemma_arr_decreases(*node, "nodes"@);
            assert(decreases_to!(arr@ => arr@[i as int]));
        }
        let n = &arr[i];
        let ex = step_inside_val(n, "expression");
        if let Tokens::Text(txt) = &step_inside_val(ex, "ignore").name {
            if str_eq(txt.as_str(), "_") {
                let b = body_of(n, "code", errors, file_name);
                default = Some(b);
            } else {
                let e = ex.duplicate();
                let b = body_of(n, "code", errors, file_name);
                proof {
                    lemma_arms_view_push(body@, (e, b));
                }
                body.push((e, b));
            }
            proof {
                let e1 = spec_arms(arr@.take(i as int)).unwrap().2;
                let e2 = spec_body(arr@[i as int], "code"@).unwrap().1;
                assert(errors@ =~= old(errors)@ + (e1 + e2));
            }
        }
        i = i + 1;
    }
    proof {
        assert(arr@.take(i as int) =~= arr@);
    }
    Some(Nodes::Switch { expr, body, default, line: node.line })
}

fn parse_let(node: &Node) -> (res: Option<Nodes>)
    requires
        tree_wf(*node),
        spec_let(*node) is Some,
    ensures
        opt_stmt_view(res) == spec_let(*node).unwrap().0,
{
    let ident = get_ident(node);
    let expr = match optional_child(node, "expression", "expression") {
        Some(e) => Some(e.duplicate()),
        None => None,
    };
    let kind = match optional_child(node, "type", "type_specifier") {
        Some(k) => Some(step_inside_val(k, "type").duplicate()),
        None => None,
    };
    Some(Nodes::Let { ident, expr, kind, line: node.line })
}

/// Builds the statement that one node of a code block stands for, or `None`
/// for a node that is no statement. Errors met on the way are appended to `errors`.
pub fn node_from_node(node: &Node, errors: &mut Vec<ErrType>, file_name: &str) -> (res: Option<Nodes>)
    requires
        tree_wf(*node),
        spec_node_from_node(*node) is Some,
    ensures
        opt_stmt_view(res) == spec_node_from_node(*node).unwrap().0,
        final(errors)@ == old(errors)@ + spec_node_from_node(*node).unwrap().1,
    decreases node, 3nat,
{
    let txt = match &node.name {
        Tokens::Text(t) => t,
        _ => {
            assert(errors@ =~= old(errors)@ + Seq::<ErrType>::empty());
            return None;
        },
    };
    let line = node.line;
    if str_eq(txt.as_str(), "KWReturn") {
        assert(errors@ =~= old(errors)@ + Seq::<ErrType>::empty());
        parse_return(node)
    } else if str_eq(txt.as_str(), "KWBreak") {
        assert(errors@ =~= old(errors)@ + Seq::<ErrType>::empty());
        Some(Nodes::Break { line, ident: get_loop_ident(node) })
    } else if str_eq(txt.as_str(), "KWContinue") {
        assert(errors@ =~= old(errors)@ + Seq::<ErrType>::empty());
        Some(Nodes::Continue { line, ident: get_loop_ident(node) })
    } else if str_eq(txt.as_str(), "KWLoop") {
        let body = body_of(node, "code", errors, file_name);
        let ident = get_loop_ident(node);
        Some(Nodes::Loop { body, line, ident })
    } else if str_eq(txt.as_str(), "KWYeet") {
        assert(errors@ =~= old(errors)@ + Seq::<ErrType>::empty());
        let expr = step_inside_val(node, "err").duplicate();
        Some(Nodes::Yeet { expr, line })
    } else if str_eq(txt.as_str(), "code_block") {
        let body = generate_tree(node, errors, file_name);
        Some(Nodes::Block { body, line })
    } else if str_eq(txt.as_str(), "set") {
        parse_set(node, errors)
    } else if str_eq(txt.as_str(), "expression") {
        assert(errors@ =~= old(errors)@ + Seq::<ErrType>::empty());
        Some(Nodes::Expr { expr: node.duplicate(), line })
    } else if str_eq(txt.as_str(), "KWIf") {
        parse_if(node, errors, file_name)
    } else if str_eq(txt.as_str(), "KWWhile") {
        let cond = step_inside_val(node, "expression").duplicate();
        let body = body_of(node, "code", errors, file_name);
        let ident = get_loop_ident(node);
        Some(Nodes::While { cond, body, line, ident })
    } else if str_eq(txt.as_str(), "KWFor") {
        let ident = get_ident(node);
        let expr = step_inside_val(node, "expression").duplicate();
        let body = body_of(node, "code", errors, file_name);
        let ident2 = get_loop_ident(node);
        Some(Nodes::For { ident, expr, body, line, ident2 })
    } else if str_eq(txt.as_str(), "KWTry") {
        parse_try(node, errors, file_name)
    } else if str_eq(txt.as_str(), "KWSwitch") {
        parse_switch(node, errors, file_name)
    } else if str_eq(txt.as_str(), "KWLet") {
        assert(errors@ =~= old(errors)@ + Seq::<ErrType>::empty());
        parse_let(node)
    } else {
        assert(errors@ =~= old(errors)@ + Seq::<ErrType>::empty());
        None
    }
}

} // verus!
