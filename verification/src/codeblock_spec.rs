//! What the code-block parser computes, as spec functions over the syntax tree.
//!
//! Each function gives `None` exactly on the trees on which the parser cannot
//! go on (a child that a statement of that kind must have is missing or has the
//! wrong form); otherwise the statements it builds and the errors it reports,
//! in the order in which it reports them.
use vstd::prelude::*;
use crate::tokens::{Line, Tokens};
use crate::tree::{
    Node, NodeV, node_view, spec_val, spec_arr, text_of, is_named, spec_ident, spec_label,
    lemma_val_decreases, lemma_arr_decreases,
};
use crate::statements::{ErrType, NodesV, CatchV};

verus! {

/// The statements of a code block (its `nodes` array), when `node` is named
/// `code_block`; no statements for any other node.
pub open spec fn spec_generate_tree(node: Node) -> Option<(Seq<NodesV>, Seq<ErrType>)>
    decreases node, 0nat,
{
    if is_named(node, "code_block"@) {
        match spec_arr(node, "nodes"@) {
            Some(stmts) => {
                proof {
                    lemma_arr_decreases(node, "nodes"@);
                }
                spec_statements(stmts)
            },
            None => None,
        }
    } else {
        Some((Seq::empty(), Seq::empty()))
    }
}

/// The statements built from a sequence of statement nodes, skipping those
/// that give no statement.
pub open spec fn spec_statements(s: Seq<Node>) -> Option<(Seq<NodesV>, Seq<ErrType>)>
    decreases s, 0nat,
{
    if s.len() == 0 {
        Some((Seq::empty(), Seq::empty()))
    } else {
        match spec_statements(s.drop_last()) {
            None => None,
            Some((xs, e)) => match spec_node_from_node(s.last()) {
                None => None,
                Some((r, e2)) => Some(
                    (
                        match r {
                            Some(x) => xs.push(x),
                            None => xs,
                        },
                        e + e2,
                    ),
                ),
            },
        }
    }
}

/// The statements of the code block under the child `key` of `node`.
pub open spec fn spec_body(node: Node, key: Seq<char>) -> Option<(Seq<NodesV>, Seq<ErrType>)>
    decreases node, 0nat,
{
    match spec_val(node, key) {
        Some(c) => {
            proof {
                lemma_val_decreases(node, key);
            }
            spec_generate_tree(c)
        },
        None => None,
    }
}

/// The `elif` branches of an `if`: condition, body and position of each.
pub open spec fn spec_elifs(s: Seq<Node>) -> Option<(Seq<(NodeV, Seq<NodesV>, Line)>, Seq<ErrType>)>
    decreases s, 0nat,
{
    if s.len() == 0 {
        Some((Seq::empty(), Seq::empty()))
    } else {
        match spec_elifs(s.drop_last()) {
            None => None,
            Some((xs, e)) => {
                let n = s.last();
                match spec_val(n, "expression"@) {
                    None => None,
                    Some(c) => match spec_body(n, "code"@) {
                        None => None,
                        Some((b, e2)) => Some((xs.push((node_view(c), b, n.line)), e + e2)),
                    },
                }
            },
        }
    }
}

/// The arms of a `switch`: the arms with a pattern, and the body of the last
/// arm whose pattern is `_`, if any. An arm whose `ignore` child is not named
/// by a `Text` token is skipped.
pub open spec fn spec_arms(s: Seq<Node>) -> Option<
    (Seq<(NodeV, Seq<NodesV>)>, Option<Seq<NodesV>>, Seq<ErrType>),
>
    decreases s, 0nat,
{
    if s.len() == 0 {
        Some((Seq::empty(), None, Seq::empty()))
    } else {
        match spec_arms(s.drop_last()) {
            None => None,
            Some((arms, def, e)) => {
                let n = s.last();
                match spec_val(n, "expression"@) {
                    None => None,
                    Some(ex) => match spec_val(ex, "ignore"@) {
                        None => None,
                        Some(ig) => match text_of(ig.name) {
                            None => Some((arms, def, e)),
                            Some(t) => match spec_body(n, "code"@) {
                                None => None,
                                Some((b, e2)) => if t == "_"@ {
                                    Some((arms, Some(b), e + e2))
                                } else {
                                    Some((arms.push((node_view(ex), b)), def, e + e2))
                                },
                            },
                        },
                    },
                }
            },
        }
    }
}

/// A path of identifiers (one error type of a `catch`): `None` inside when an
/// element's identifier is not a `Text` token, which makes the whole statement
/// give no result.
pub open spec fn spec_path(s: Seq<Node>) -> Option<Option<Seq<Seq<char>>>>
    decreases s.len(),
{
    if s.len() == 0 {
        Some(Some(Seq::empty()))
    } else {
        match spec_path(s.drop_last()) {
            None => None,
            Some(None) => Some(None),
            Some(Some(ps)) => match spec_val(s.last(), "identifier"@) {
                None => None,
                Some(v) => match text_of(v.name) {
                    None => Some(None),
                    Some(t) => Some(Some(ps.push(t))),
                },
            },
        }
    }
}

/// The error types of a `catch`.
pub open spec fn spec_kinds(s: Seq<Node>) -> Option<Option<Seq<Seq<Seq<char>>>>>
    decreases s.len(),
{
    if s.len() == 0 {
        Some(Some(Seq::empty()))
    } else {
        match spec_kinds(s.drop_last()) {
            None => None,
            Some(None) => Some(None),
            Some(Some(ks)) => match spec_arr(s.last(), "nodes"@) {
                None => None,
                Some(ns) => match spec_path(ns) {
                    None => None,
                    Some(None) => Some(None),
                    Some(Some(p)) => Some(Some(ks.push(p))),
                },
            },
        }
    }
}

/// One `catch` clause.
pub open spec fn spec_catch(n: Node) -> Option<(Option<CatchV>, Seq<ErrType>)>
    decreases n, 1nat,
{
    match spec_ident(n) {
        None => None,
        Some(id) => match spec_body(n, "code"@) {
            None => None,
            Some((b, e)) => match spec_arr(n, "types"@) {
                None => None,
                Some(ts) => match spec_kinds(ts) {
                    None => None,
                    Some(None) => Some((None, e)),
                    Some(Some(k)) => Some(
                        (Some(CatchV { ident: id, kinds: k, body: b, line: n.line }), e),
                    ),
                },
            },
        },
    }
}

/// The `catch` clauses of a `try`, in order; `None` inside when one of them
/// gives no result (the clauses after it are not looked at).
pub open spec fn spec_catches(s: Seq<Node>) -> Option<(Option<Seq<CatchV>>, Seq<ErrType>)>
    decreases s, 0nat,
{
    if s.len() == 0 {
        Some((Some(Seq::empty()), Seq::empty()))
    } else {
        match spec_catches(s.drop_last()) {
            None => None,
            Some((None, e)) => Some((None, e)),
            Some((Some(cs), e)) => match spec_catch(s.last()) {
                None => None,
                Some((None, e2)) => Some((None, e + e2)),
                Some((Some(c), e2)) => Some((Some(cs.push(c)), e + e2)),
            },
        }
    }
}

/// The optional part of a statement under the child `key`: present when that
/// child is named `marker`.
pub open spec fn spec_optional(node: Node, key: Seq<char>, marker: Seq<char>) -> Option<Option<Node>> {
    match spec_val(node, key) {
        None => None,
        Some(v) => if is_named(v, marker) {
            Some(Some(v))
        } else {
            Some(None)
        },
    }
}

/// An assignment (`set`): the operator under `operator`/`op`; when that is not an
/// operator token, an error is reported and there is no statement.
pub open spec fn spec_set(node: Node) -> Option<(Option<NodesV>, Seq<ErrType>)>
    decreases node, 1nat,
{
    match spec_val(node, "operator"@) {
        None => None,
        Some(o) => match spec_val(o, "op"@) {
            None => None,
            Some(op) => match op.name {
                Tokens::Operator(x) => match (spec_val(node, "value"@), spec_val(node, "expression"@)) {
                    (Some(tg), Some(ex)) => Some(
                        (
                            Some(
                                NodesV::Assign {
                                    target: node_view(tg),
                                    expr: node_view(ex),
                                    op: x,
                                    line: node.line,
                                },
                            ),
                            Seq::empty(),
                        ),
                    ),
                    _ => None,
                },
                _ => Some((None, seq![ErrType::NotOperator(node.line)])),
            },
        },
    }
}

/// A `return`, with its expression when that expression has any nodes.
pub open spec fn spec_return(node: Node) -> Option<(Option<NodesV>, Seq<ErrType>)> {
    match spec_val(node, "expression"@) {
        None => None,
        Some(e) => match spec_arr(e, "nodes"@) {
            None => None,
            Some(a) => Some(
                (
                    Some(
                        NodesV::Return {
                            expr: if a.len() > 0 {
                                Some(node_view(e))
                            } else {
                                None
                            },
                            line: node.line,
                        },
                    ),
                    Seq::empty(),
                ),
            ),
        },
    }
}

/// The `else` branch of an `if`: its body and position, if there is one.
pub open spec fn spec_else(node: Node) -> Option<(Option<(Seq<NodesV>, Line)>, Seq<ErrType>)>
    decreases node, 1nat,
{
    match spec_optional(node, "else"@, "KWElse"@) {
        None => None,
        Some(None) => Some((None, Seq::empty())),
        Some(Some(en)) => {
            proof {
                lemma_val_decreases(node, "else"@);
            }
            match spec_body(en, "code"@) {
                None => None,
                Some((eb, e)) => Some((Some((eb, en.line)), e)),
            }
        },
    }
}

/// An `if` with its `elif` branches and optional `else`.
pub open spec fn spec_if(node: Node) -> Option<(Option<NodesV>, Seq<ErrType>)>
    decreases node, 2nat,
{
    match (spec_val(node, "expression"@), spec_body(node, "code"@), spec_arr(node, "elif"@)) {
        (Some(c), Some((b, e1)), Some(el)) => {
            proof {
                lemma_arr_decreases(node, "elif"@);
            }
            match (spec_elifs(el), spec_else(node)) {
                (Some((elifs, e2)), Some((els, e3))) => Some(
                    (
                        Some(
                            NodesV::If {
                                cond: node_view(c),
                                body: b,
                                elif: elifs,
                                els,
                                line: node.line,
                            },
                        ),
                        e1 + e2 + e3,
                    ),
                ),
                _ => None,
            }
        },
        _ => None,
    }
}

/// The `finally` block of a `try`, if there is one.
pub open spec fn spec_finally(node: Node) -> Option<(Option<Seq<NodesV>>, Seq<ErrType>)>
    decreases node, 1nat,
{
    match spec_optional(node, "finally"@, "KWFinally"@) {
        None => None,
        Some(None) => Some((None, Seq::empty())),
        Some(Some(fnode)) => {
            proof {
                lemma_val_decreases(node, "finally"@);
            }
            match spec_body(fnode, "code"@) {
                None => None,
                Some((fb, e)) => Some((Some(fb), e)),
            }
        },
    }
}

/// A `try` with its `catch` clauses and optional `finally`.
pub open spec fn spec_try(node: Node) -> Option<(Option<NodesV>, Seq<ErrType>)>
    decreases node, 2nat,
{
    match (spec_body(node, "code"@), spec_finally(node), spec_arr(node, "catch"@)) {
        (Some((b, e1)), Some((fb, e2)), Some(cs)) => {
            proof {
                lemma_arr_decreases(node, "catch"@);
            }
            match spec_catches(cs) {
                None => None,
                Some((None, e3)) => Some((None, e1 + e2 + e3)),
                Some((Some(catches), e3)) => Some(
                    (
                        Some(NodesV::Try { body: b, catch: catches, finally: fb, line: node.line }),
                        e1 + e2 + e3,
                    ),
                ),
            }
        },
        _ => None,
    }
}

/// A `switch` with its arms.
pub open spec fn spec_switch(node: Node) -> Option<(Option<NodesV>, Seq<ErrType>)>
    decreases node, 1nat,
{
    match (spec_val(node, "expression"@), spec_arr(node, "nodes"@)) {
        (Some(ex), Some(arms)) => {
            proof {
                lemma_arr_decreases(node, "nodes"@);
            }
            match spec_arms(arms) {
                None => None,
                Some((body, default, e)) => Some(
                    (
                        Some(NodesV::Switch { expr: node_view(ex), body, default, line: node.line }),
                        e,
                    ),
                ),
            }
        },
        _ => None,
    }
}

/// A `let`, with its optional initial expression and type annotation.
pub open spec fn spec_let(node: Node) -> Option<(Option<NodesV>, Seq<ErrType>)> {
    match (
        spec_ident(node),
        spec_optional(node, "expression"@, "expression"@),
        spec_optional(node, "type"@, "type_specifier"@),
    ) {
        (Some(id), Some(ex), Some(ty)) => {
            let kind: Option<Option<NodeV>> = match ty {
                None => Some(None),
                Some(tn) => match spec_val(tn, "type"@) {
                    None => None,
                    Some(k) => Some(Some(node_view(k))),
                },
            };
            match kind {
                None => None,
                Some(k) => Some(
                    (
                        Some(
                            NodesV::Let {
                                ident: id,
                                expr: match ex {
                                    Some(x) => Some(node_view(x)),
                                    None => None,
                                },
                                kind: k,
                                line: node.line,
                            },
                        ),
                        Seq::empty(),
                    ),
                ),
            }
        },
        _ => None,
    }
}

/// The statement that one statement node gives, and the errors reported on the way.
pub open spec fn spec_node_from_node(node: Node) -> Option<(Option<NodesV>, Seq<ErrType>)>
    decreases node, 3nat,
{
    let line = node.line;
    match text_of(node.name) {
        None => Some((None, Seq::empty())),
        Some(t) => if t == "KWReturn"@ {
            spec_return(node)
        } else if t == "KWBreak"@ {
            match spec_label(node) {
                None => None,
                Some(l) => Some((Some(NodesV::Break { line, ident: l }), Seq::empty())),
            }
        } else if t == "KWContinue"@ {
            match spec_label(node) {
                None => None,
                Some(l) => Some((Some(NodesV::Continue { line, ident: l }), Seq::empty())),
            }
        } else if t == "KWLoop"@ {
            match (spec_body(node, "code"@), spec_label(node)) {
                (Some((b, e)), Some(l)) => Some((Some(NodesV::Loop { body: b, line, ident: l }), e)),
                _ => None,
            }
        } else if t == "KWYeet"@ {
            match spec_val(node, "err"@) {
                None => None,
                Some(e) => Some((Some(NodesV::Yeet { expr: node_view(e), line }), Seq::empty())),
            }
        } else if t == "code_block"@ {
            match spec_generate_tree(node) {
                None => None,
                Some((b, e)) => Some((Some(NodesV::Block { body: b, line }), e)),
            }
        } else if t == "set"@ {
            spec_set(node)
        } else if t == "expression"@ {
            Some((Some(NodesV::Expr { expr: node_view(node), line }), Seq::empty()))
        } else if t == "KWIf"@ {
            spec_if(node)
        } else if t == "KWWhile"@ {
            match (spec_val(node, "expression"@), spec_body(node, "code"@), spec_label(node)) {
                (Some(c), Some((b, e)), Some(l)) => Some(
                    (Some(NodesV::While { cond: node_view(c), body: b, line, ident: l }), e),
                ),
                _ => None,
            }
        } else if t == "KWFor"@ {
            match (
                spec_ident(node),
                spec_val(node, "expression"@),
                spec_body(node, "code"@),
                spec_label(node),
            ) {
                (Some(id), Some(ex), Some((b, e)), Some(l)) => Some(
                    (
                        Some(
                            NodesV::For {
                                ident: id,
                                expr: node_view(ex),
                                body: b,
                                line,
                                ident2: l,
                            },
                        ),
                        e,
                    ),
                ),
                _ => None,
            }
        } else if t == "KWTry"@ {
            spec_try(node)
        } else if t == "KWSwitch"@ {
            spec_switch(node)
        } else if t == "KWLet"@ {
            spec_let(node)
        } else {
            Some((None, Seq::empty()))
        }
    }
}

pub proof fn lemma_statements_prefix(s: Seq<Node>, i: int)
    requires
        spec_statements(s) is Some,
        0 <= i <= s.len(),
    ensures
        spec_statements(s.take(i)) is Some,
    decreases s.len(),
{
    if i == s.len() {
        assert(s.take(i) =~= s);
    } else {
        assert(s.drop_last().take(i) =~= s.take(i));
        lemma_statements_prefix(s.drop_last(), i);
    }
}

pub proof fn lemma_elifs_prefix(s: Seq<Node>, i: int)
    requires
        spec_elifs(s) is Some,
        0 <= i <= s.len(),
    ensures
        spec_elifs(s.take(i)) is Some,
    decreases s.len(),
{
    if i == s.len() {
        assert(s.take(i) =~= s);
    } else {
        assert(s.drop_last().take(i) =~= s.take(i));
        lemma_elifs_prefix(s.drop_last(), i);
    }
}

pub proof fn lemma_arms_prefix(s: Seq<Node>, i: int)
    requires
        spec_arms(s) is Some,
        0 <= i <= s.len(),
    ensures
        spec_arms(s.take(i)) is Some,
    decreases s.len(),
{
    if i == s.len() {
        assert(s.take(i) =~= s);
    } else {
        assert(s.drop_last().take(i) =~= s.take(i));
        lemma_arms_prefix(s.drop_last(), i);
    }
}

/// A prefix of the `catch` clauses can be processed, and once processing stops
/// at a prefix, it stops with the same errors for the whole sequence.
pub proof fn lemma_catches_prefix(s: Seq<Node>, i: int)
    requires
        spec_catches(s) is Some,
        0 <= i <= s.len(),
    ensures
        spec_catches(s.take(i)) is Some,
        spec_catches(s.take(i)).unwrap().0 is None ==> spec_catches(s) == spec_catches(s.take(i)),
    decreases s.len(),
{
    if i == s.len() {
        assert(s.take(i) =~= s);
    } else {
        assert(s.drop_last().take(i) =~= s.take(i));
        lemma_catches_prefix(s.drop_last(), i);
    }
}

pub proof fn lemma_kinds_prefix(s: Seq<Node>, i: int)
    requires
        spec_kinds(s) is Some,
        0 <= i <= s.len(),
    ensures
        spec_kinds(s.take(i)) is Some,
        spec_kinds(s.take(i)).unwrap() is None ==> spec_kinds(s).unwrap() is None,
    decreases s.len(),
{
    if i == s.len() {
        assert(s.take(i) =~= s);
    } else {
        assert(s.drop_last().take(i) =~= s.take(i));
        lemma_kinds_prefix(s.drop_last(), i);
    }
}

pub proof fn lemma_path_prefix(s: Seq<Node>, i: int)
    requires
        spec_path(s) is Some,
        0 <= i <= s.len(),
    ensures
        spec_path(s.take(i)) is Some,
        spec_path(s.take(i)).unwrap() is None ==> spec_path(s).unwrap() is None,
    decreases s.len(),
{
    if i == s.len() {
        assert(s.take(i) =~= s);
    } else {
        assert(s.drop_last().take(i) =~= s.take(i));
        lemma_path_prefix(s.drop_last(), i);
    }
}

/// The statements of a sequence of nodes are the statements of its first part
/// followed by those of the rest, and likewise the errors; the parser fails on
/// the whole exactly when it fails on one of the parts.
pub proof fn lemma_statements_append(a: Seq<Node>, b: Seq<Node>)
    ensures
        spec_statements(a + b) == match (spec_statements(a), spec_statements(b)) {
            (Some((x, e)), Some((y, f))) => Some((x + y, e + f)),
            _ => None::<(Seq<NodesV>, Seq<ErrType>)>,
        },
    decreases b.len(),
{
    if b.len() == 0 {
        assert(a + b =~= a);
        match spec_statements(a) {
            Some((x, e)) => {
                assert(x + Seq::<NodesV>::empty() =~= x);
                assert(e + Seq::<ErrType>::empty() =~= e);
            },
            None => {},
        }
    } else {
        lemma_statements_append(a, b.drop_last());
        assert((a + b).drop_last() =~= a + b.drop_last());
        assert((a + b).last() == b.last());
        match (spec_statements(a), spec_statements(b.drop_last())) {
            (Some((x, e)), Some((y, f))) => {
                match spec_node_from_node(b.last()) {
                    Some((r, e2)) => {
                        assert(e + f + e2 =~= e + (f + e2));
                        match r {
                            Some(z) => {
                                assert((x + y).push(z) =~= x + y.push(z));
                            },
                            None => {},
                        }
                    },
                    None => {},
                }
            },
            _ => {},
        }
    }
}

/// A node named `code_block` stands for a block statement whose body is the
/// statements that `generate_tree` builds from it, with the same errors.
pub proof fn lemma_block_statement(node: Node)
    requires
        is_named(node, "code_block"@),
    ensures
        spec_node_from_node(node) == match spec_generate_tree(node) {
            Some((b, e)) => Some((Some(NodesV::Block { body: b, line: node.line }), e)),
            None => None::<(Option<NodesV>, Seq<ErrType>)>,
        },
{
    let t = text_of(node.name).unwrap();
    if t == "KWReturn"@ || t == "KWBreak"@ || t == "KWContinue"@ || t == "KWLoop"@ || t
        == "KWYeet"@ {
        // a node has one name
        assert(false) by {
            lemma_distinct_keywords();
        }
    }
}

proof fn lemma_distinct_keywords()
    ensures
        "code_block"@ != "KWReturn"@,
        "code_block"@ != "KWBreak"@,
        "code_block"@ != "KWContinue"@,
        "code_block"@ != "KWLoop"@,
        "code_block"@ != "KWYeet"@,
{
    reveal_strlit("code_block");
    reveal_strlit("KWReturn");
    reveal_strlit("KWBreak");
    reveal_strlit("KWContinue");
    reveal_strlit("KWLoop");
    reveal_strlit("KWYeet");
    assert("code_block"@[0] != "KWReturn"@[0]);
    assert("code_block"@[0] != "KWBreak"@[0]);
    assert("code_block"@[0] != "KWContinue"@[0]);
    assert("code_block"@[0] != "KWLoop"@[0]);
    assert("code_block"@[0] != "KWYeet"@[0]);
}

/// A node whose name is not a `Text` token is no statement, and nothing is reported.
pub proof fn lemma_non_text_node(node: Node)
    requires
        text_of(node.name) is None,
    ensures
        spec_node_from_node(node) == Some((None::<NodesV>, Seq::<ErrType>::empty())),
{
}

/// An assignment whose operator node holds no operator token gives no
/// statement and reports exactly one error, at the assignment's position.
pub proof fn lemma_set_error(node: Node)
    requires
        is_named(node, "set"@),
        spec_val(node, "operator"@) is Some,
        spec_val(spec_val(node, "operator"@).unwrap(), "op"@) is Some,
        !(spec_val(spec_val(node, "operator"@).unwrap(), "op"@).unwrap().name is Operator),
    ensures
        spec_node_from_node(node) == Some((None::<NodesV>, seq![ErrType::NotOperator(node.line)])),
{
    reveal_strlit("set");
    reveal_strlit("code_block");
    reveal_strlit("KWReturn");
    reveal_strlit("KWBreak");
    reveal_strlit("KWContinue");
    reveal_strlit("KWLoop");
    reveal_strlit("KWYeet");
    let t = text_of(node.name).unwrap();
    assert(t[0] == 's');
    assert(t != "code_block"@ && t != "KWReturn"@ && t != "KWBreak"@ && t != "KWContinue"@
        && t != "KWLoop"@ && t != "KWYeet"@) by {
        assert("code_block"@[0] == 'c');
        assert("KWReturn"@[0] == 'K');
        assert("KWBreak"@[0] == 'K');
        assert("KWContinue"@[0] == 'K');
        assert("KWLoop"@[0] == 'K');
        assert("KWYeet"@[0] == 'K');
    }
}

/// An assignment `target op= expression` assigns to the node under its child
/// `value` the node under its child `expression`, with the operator token of
/// its operator node, and reports nothing.
pub proof fn lemma_set_statement(node: Node)
    requires
        is_named(node, "set"@),
        spec_val(node, "operator"@) is Some,
        spec_val(spec_val(node, "operator"@).unwrap(), "op"@) is Some,
        spec_val(spec_val(node, "operator"@).unwrap(), "op"@).unwrap().name is Operator,
        spec_val(node, "value"@) is Some,
        spec_val(node, "expression"@) is Some,
    ensures
        spec_node_from_node(node) == Some(
            (
                Some(
                    NodesV::Assign {
                        target: node_view(spec_val(node, "value"@).unwrap()),
                        expr: node_view(spec_val(node, "expression"@).unwrap()),
                        op: spec_val(spec_val(node, "operator"@).unwrap(), "op"@).unwrap().name->Operator_0,
                        line: node.line,
                    },
                ),
                Seq::<ErrType>::empty(),
            ),
        ),
{
    reveal_strlit("set");
    reveal_strlit("code_block");
    reveal_strlit("KWReturn");
    reveal_strlit("KWBreak");
    reveal_strlit("KWContinue");
    reveal_strlit("KWLoop");
    reveal_strlit("KWYeet");
    let t = text_of(node.name).unwrap();
    assert(t[0] == 's');
    assert(t != "code_block"@ && t != "KWReturn"@ && t != "KWBreak"@ && t != "KWContinue"@
        && t != "KWLoop"@ && t != "KWYeet"@) by {
        assert("code_block"@[0] == 'c');
        assert("KWReturn"@[0] == 'K');
        assert("KWBreak"@[0] == 'K');
        assert("KWContinue"@[0] == 'K');
        assert("KWLoop"@[0] == 'K');
        assert("KWYeet"@[0] == 'K');
    }
}

/// A block of one statement node holds exactly the statement that node gives
/// (nothing when it gives none), with the errors reported on it; with
/// `lemma_statements_append`, every node's statement is kept, in order.
pub proof fn lemma_single_statement(x: Node)
    ensures
        spec_statements(seq![x]) == match spec_node_from_node(x) {
            None => None::<(Seq<NodesV>, Seq<ErrType>)>,
            Some((r, e)) => Some(
                (
                    match r {
                        Some(y) => seq![y],
                        None => Seq::<NodesV>::empty(),
                    },
                    e,
                ),
            ),
        },
{
    let s = seq![x];
    assert(s.drop_last() =~= Seq::<Node>::empty());
    assert(spec_statements(s.drop_last()) == Some((Seq::<NodesV>::empty(), Seq::<ErrType>::empty())));
    assert(s.last() == x);
    match spec_node_from_node(x) {
        Some((r, e)) => {
            assert(Seq::<ErrType>::empty() + e =~= e);
            match r {
                Some(y) => {
                    assert(Seq::<NodesV>::empty().push(y) =~= seq![y]);
                },
                None => {},
            }
        },
        None => {},
    }
}

/// The statements of a code block are, node by node, the statements its
/// nodes give: appending a node to a block appends that node's statement
/// (if any) and its errors.
pub proof fn lemma_statements_push(s: Seq<Node>, x: Node)
    ensures
        spec_statements(s.push(x)) == match (spec_statements(s), spec_node_from_node(x)) {
            (Some((xs, e)), Some((r, e2))) => Some(
                (
                    match r {
                        Some(y) => xs + seq![y],
                        None => xs,
                    },
                    e + e2,
                ),
            ),
            _ => None::<(Seq<NodesV>, Seq<ErrType>)>,
        },
{
    lemma_statements_append(s, seq![x]);
    lemma_single_statement(x);
    assert(s + seq![x] =~= s.push(x));
    match (spec_statements(s), spec_node_from_node(x)) {
        (Some((xs, e)), Some((r, e2))) => {
            match r {
                None => {
                    assert(xs + Seq::<NodesV>::empty() =~= xs);
                },
                Some(y) => {},
            }
        },
        _ => {},
    }
}

/// The statement names are told apart by their length and their first and
/// third letters.
proof fn lemma_statement_names()
    ensures
        "KWReturn"@.len() == 8 && "KWReturn"@[0] == 'K' && "KWReturn"@[2] == 'R',
        "KWBreak"@.len() == 7 && "KWBreak"@[0] == 'K' && "KWBreak"@[2] == 'B',
        "KWContinue"@.len() == 10 && "KWContinue"@[0] == 'K' && "KWContinue"@[2] == 'C',
        "KWLoop"@.len() == 6 && "KWLoop"@[0] == 'K' && "KWLoop"@[2] == 'L',
        "KWYeet"@.len() == 6 && "KWYeet"@[0] == 'K' && "KWYeet"@[2] == 'Y',
        "code_block"@.len() == 10 && "code_block"@[0] == 'c' && "code_block"@[2] == 'd',
        "set"@.len() == 3 && "set"@[0] == 's' && "set"@[2] == 't',
        "expression"@.len() == 10 && "expression"@[0] == 'e' && "expression"@[2] == 'p',
        "KWIf"@.len() == 4 && "KWIf"@[0] == 'K' && "KWIf"@[2] == 'I',
        "KWWhile"@.len() == 7 && "KWWhile"@[0] == 'K' && "KWWhile"@[2] == 'W',
        "KWFor"@.len() == 5 && "KWFor"@[0] == 'K' && "KWFor"@[2] == 'F',
        "KWTry"@.len() == 5 && "KWTry"@[0] == 'K' && "KWTry"@[2] == 'T',
        "KWSwitch"@.len() == 8 && "KWSwitch"@[0] == 'K' && "KWSwitch"@[2] == 'S',
        "KWLet"@.len() == 5 && "KWLet"@[0] == 'K' && "KWLet"@[2] == 'L',
{
    reveal_strlit("KWReturn");
    reveal_strlit("KWBreak");
    reveal_strlit("KWContinue");
    reveal_strlit("KWLoop");
    reveal_strlit("KWYeet");
    reveal_strlit("code_block");
    reveal_strlit("set");
    reveal_strlit("expression");
    reveal_strlit("KWIf");
    reveal_strlit("KWWhile");
    reveal_strlit("KWFor");
    reveal_strlit("KWTry");
    reveal_strlit("KWSwitch");
    reveal_strlit("KWLet");
}

/// The simple statements, each built from the children its kind names:
/// `yeet` throws the node under `err`; an `expression` node is an expression
/// statement of itself; `break` and `continue` carry the label named by the
/// child `ident`; `return` returns the node under `expression` when that node
/// has any nodes; `let` binds the name under `identifier` to the node under
/// `expression` (when that child is an expression) with the type under
/// `type`/`type` (when the child `type` is a type specifier).
pub proof fn lemma_simple_statements(node: Node)
    ensures
        is_named(node, "KWYeet"@) && spec_val(node, "err"@) is Some ==> spec_node_from_node(node)
            == Some(
            (
                Some(NodesV::Yeet { expr: node_view(spec_val(node, "err"@).unwrap()), line: node.line }),
                Seq::<ErrType>::empty(),
            ),
        ),
        is_named(node, "expression"@) ==> spec_node_from_node(node) == Some(
            (Some(NodesV::Expr { expr: node_view(node), line: node.line }), Seq::<ErrType>::empty()),
        ),
        is_named(node, "KWBreak"@) && spec_val(node, "ident"@) is Some ==> spec_node_from_node(node)
            == Some(
            (
                Some(
                    NodesV::Break {
                        line: node.line,
                        ident: text_of(spec_val(node, "ident"@).unwrap().name),
                    },
                ),
                Seq::<ErrType>::empty(),
            ),
        ),
        is_named(node, "KWContinue"@) && spec_val(node, "ident"@) is Some ==> spec_node_from_node(
            node,
        ) == Some(
            (
                Some(
                    NodesV::Continue {
                        line: node.line,
                        ident: text_of(spec_val(node, "ident"@).unwrap().name),
                    },
                ),
                Seq::<ErrType>::empty(),
            ),
        ),
        is_named(node, "KWReturn"@) && spec_val(node, "expression"@) is Some && spec_arr(
            spec_val(node, "expression"@).unwrap(),
            "nodes"@,
        ) is Some ==> spec_node_from_node(node) == Some(
            (
                Some(
                    NodesV::Return {
                        expr: if spec_arr(spec_val(node, "expression"@).unwrap(), "nodes"@).unwrap().len()
                            > 0 {
                            Some(node_view(spec_val(node, "expression"@).unwrap()))
                        } else {
                            None
                        },
                        line: node.line,
                    },
                ),
                Seq::<ErrType>::empty(),
            ),
        ),
        is_named(node, "KWLet"@) && spec_val(node, "identifier"@) is Some && text_of(
            spec_val(node, "identifier"@).unwrap().name,
        ) is Some && spec_val(node, "expression"@) is Some && spec_val(node, "type"@) is Some
            && !is_named(spec_val(node, "type"@).unwrap(), "type_specifier"@)
            ==> spec_node_from_node(node) == Some(
            (
                Some(
                    NodesV::Let {
                        ident: text_of(spec_val(node, "identifier"@).unwrap().name).unwrap(),
                        expr: if is_named(spec_val(node, "expression"@).unwrap(), "expression"@) {
                            Some(node_view(spec_val(node, "expression"@).unwrap()))
                        } else {
                            None
                        },
                        kind: None,
                        line: node.line,
                    },
                ),
                Seq::<ErrType>::empty(),
            ),
        ),
        is_named(node, "KWLet"@) && spec_val(node, "identifier"@) is Some && text_of(
            spec_val(node, "identifier"@).unwrap().name,
        ) is Some && spec_val(node, "expression"@) is Some && spec_val(node, "type"@) is Some
            && is_named(spec_val(node, "type"@).unwrap(), "type_specifier"@) && spec_val(
            spec_val(node, "type"@).unwrap(),
            "type"@,
        ) is Some ==> spec_node_from_node(node) == Some(
            (
                Some(
                    NodesV::Let {
                        ident: text_of(spec_val(node, "identifier"@).unwrap().name).unwrap(),
                        expr: if is_named(spec_val(node, "expression"@).unwrap(), "expression"@) {
                            Some(node_view(spec_val(node, "expression"@).unwrap()))
                        } else {
                            None
                        },
                        kind: Some(node_view(spec_val(spec_val(node, "type"@).unwrap(), "type"@).unwrap())),
                        line: node.line,
                    },
                ),
                Seq::<ErrType>::empty(),
            ),
        ),
{
    lemma_statement_names();
}

/// The statements with a body, each built from the children its kind names:
/// a loop runs the block under `code` with the label under `ident`; `while`
/// tests the node under `expression`; `for` binds the name under
/// `identifier` to the items of the node under `expression`; `if` tests the
/// node under `expression` and runs the block under `code`; `switch` looks at
/// the node under `expression`. The errors are those of the bodies.
pub proof fn lemma_body_statements(node: Node)
    ensures
        is_named(node, "KWLoop"@) && spec_body(node, "code"@) is Some && spec_val(node, "ident"@) is Some
            ==> spec_node_from_node(node) == Some(
            (
                Some(
                    NodesV::Loop {
                        body: spec_body(node, "code"@).unwrap().0,
                        line: node.line,
                        ident: text_of(spec_val(node, "ident"@).unwrap().name),
                    },
                ),
                spec_body(node, "code"@).unwrap().1,
            ),
        ),
        is_named(node, "KWWhile"@) && spec_val(node, "expression"@) is Some && spec_body(
            node,
            "code"@,
        ) is Some && spec_val(node, "ident"@) is Some ==> spec_node_from_node(node) == Some(
            (
                Some(
                    NodesV::While {
                        cond: node_view(spec_val(node, "expression"@).unwrap()),
                        body: spec_body(node, "code"@).unwrap().0,
                        line: node.line,
                        ident: text_of(spec_val(node, "ident"@).unwrap().name),
                    },
                ),
                spec_body(node, "code"@).unwrap().1,
            ),
        ),
        is_named(node, "KWFor"@) && spec_val(node, "identifier"@) is Some && text_of(
            spec_val(node, "identifier"@).unwrap().name,
        ) is Some && spec_val(node, "expression"@) is Some && spec_body(node, "code"@) is Some
            && spec_val(node, "ident"@) is Some ==> spec_node_from_node(node) == Some(
            (
                Some(
                    NodesV::For {
                        ident: text_of(spec_val(node, "identifier"@).unwrap().name).unwrap(),
                        expr: node_view(spec_val(node, "expression"@).unwrap()),
                        body: spec_body(node, "code"@).unwrap().0,
                        line: node.line,
                        ident2: text_of(spec_val(node, "ident"@).unwrap().name),
                    },
                ),
                spec_body(node, "code"@).unwrap().1,
            ),
        ),
        is_named(node, "KWIf"@) ==> (spec_node_from_node(node) matches Some((Some(st), _))
            ==> (st matches NodesV::If { cond, body, line, .. } && cond == node_view(
            spec_val(node, "expression"@).unwrap(),
        ) && body == spec_body(node, "code"@).unwrap().0 && line == node.line)),
        is_named(node, "KWSwitch"@) ==> (spec_node_from_node(node) matches Some((Some(st), _))
            ==> (st matches NodesV::Switch { expr, line, .. } && expr == node_view(
            spec_val(node, "expression"@).unwrap(),
        ) && line == node.line)),
{
    lemma_statement_names();
}

} // verus!
