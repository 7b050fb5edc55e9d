//! The statement tree that the code-block parser builds, and its mathematical value.
use vstd::prelude::*;
use crate::tokens::{Line, Operators};
use crate::tree::{Node, NodeV, node_view};

verus! {

/// An error that the code-block parser reports while it goes on.
#[derive(Clone, Copy, Debug, PartialEq, Eq, Structural)]
pub enum ErrType {
    /// An assignment whose operator node does not hold an operator token.
    NotOperator(Line),
}

/// A statement of a code block.
///
/// Expressions, assignment targets, thrown values and type annotations are
/// carried as their syntax subtrees (`Node`).
#[derive(Debug)]
#[allow(inconsistent_fields)]
pub enum Nodes {
    Let { ident: String, expr: Option<Node>, kind: Option<Node>, line: Line },
    If {
        cond: Node,
        body: Vec<Nodes>,
        elif: Vec<(Node, Vec<Nodes>, Line)>,
        els: Option<(Vec<Nodes>, Line)>,
        line: Line,
    },
    While { cond: Node, body: Vec<Nodes>, line: Line, ident: Option<String> },
    For { ident: String, expr: Node, body: Vec<Nodes>, line: Line, ident2: Option<String> },
    Return { expr: Option<Node>, line: Line },
    Expr { expr: Node, line: Line },
    Block { body: Vec<Nodes>, line: Line },
    Break { line: Line, ident: Option<String> },
    Continue { line: Line, ident: Option<String> },
    Loop { body: Vec<Nodes>, line: Line, ident: Option<String> },
    Yeet { expr: Node, line: Line },
    Try {
        body: Vec<Nodes>,
        /// catches ((ident, [types]), body)
        catch: Vec<Catch>,
        finally: Option<Vec<Nodes>>,
        line: Line,
    },
    Switch {
        expr: Node,
        body: Vec<(Node, Vec<Nodes>)>,
        default: Option<Vec<Nodes>>,
        line: Line,
    },
    Assign { target: Node, expr: Node, op: Operators, line: Line },
}

/// A `catch` clause: the name bound to the error, the error types it catches
/// (each a path of identifiers), and its body.
#[derive(Debug)]
pub struct Catch {
    pub ident: String,
    pub kinds: Vec<Vec<String>>,
    pub body: Vec<Nodes>,
    pub line: Line,
}

/// The mathematical value of a statement.
#[allow(inconsistent_fields)]
pub enum NodesV {
    Let { ident: Seq<char>, expr: Option<NodeV>, kind: Option<NodeV>, line: Line },
    If {
        cond: NodeV,
        body: Seq<NodesV>,
        elif: Seq<(NodeV, Seq<NodesV>, Line)>,
        els: Option<(Seq<NodesV>, Line)>,
        line: Line,
    },
    While { cond: NodeV, body: Seq<NodesV>, line: Line, ident: Option<Seq<char>> },
    For {
        ident: Seq<char>,
        expr: NodeV,
        body: Seq<NodesV>,
        line: Line,
        ident2: Option<Seq<char>>,
    },
    Return { expr: Option<NodeV>, line: Line },
    Expr { expr: NodeV, line: Line },
    Block { body: Seq<NodesV>, line: Line },
    Break { line: Line, ident: Option<Seq<char>> },
    Continue { line: Line, ident: Option<Seq<char>> },
    Loop { body: Seq<NodesV>, line: Line, ident: Option<Seq<char>> },
    Yeet { expr: NodeV, line: Line },
    Try {
        body: Seq<NodesV>,
        catch: Seq<CatchV>,
        finally: Option<Seq<NodesV>>,
        line: Line,
    },
    Switch {
        expr: NodeV,
        body: Seq<(NodeV, Seq<NodesV>)>,
        default: Option<Seq<NodesV>>,
        line: Line,
    },
    Assign { target: NodeV, expr: NodeV, op: Operators, line: Line },
}

/// The mathematical value of a `catch` clause.
pub struct CatchV {
    pub ident: Seq<char>,
    pub kinds: Seq<Seq<Seq<char>>>,
    pub body: Seq<NodesV>,
    pub line: Line,
}

pub open spec fn opt_text_view(o: Option<String>) -> Option<Seq<char>> {
    match o {
        Some(s) => Some(s@),
        None => None,
    }
}

pub open spec fn opt_node_view(o: Option<Node>) -> Option<NodeV> {
    match o {
        Some(n) => Some(node_view(n)),
        None => None,
    }
}

pub open spec fn kinds_view(k: Seq<Vec<String>>) -> Seq<Seq<Seq<char>>> {
    k.map_values(|v: Vec<String>| v@.map_values(|s: String| s@))
}

pub open spec fn stmt_view(n: Nodes) -> NodesV
    decreases n,
{
    match n {
        Nodes::Let { ident, expr, kind, line } => NodesV::Let {
            ident: ident@,
            expr: opt_node_view(expr),
            kind: opt_node_view(kind),
            line,
        },
        Nodes::If { cond, body, elif, els, line } => NodesV::If {
            cond: node_view(cond),
            body: stmts_view(body@),
            elif: elifs_view(elif@),
            els: match els {
                Some(e) => Some((stmts_view(e.0@), e.1)),
                None => None,
            },
            line,
        },
        Nodes::While { cond, body, line, ident } => NodesV::While {
            cond: node_view(cond),
            body: stmts_view(body@),
            line,
            ident: opt_text_view(ident),
        },
        Nodes::For { ident, expr, body, line, ident2 } => NodesV::For {
            ident: ident@,
            expr: node_view(expr),
            body: stmts_view(body@),
            line,
            ident2: opt_text_view(ident2),
        },
        Nodes::Return { expr, line } => NodesV::Return { expr: opt_node_view(expr), line },
        Nodes::Expr { expr, line } => NodesV::Expr { expr: node_view(expr), line },
        Nodes::Block { body, line } => NodesV::Block { body: stmts_view(body@), line },
        Nodes::Break { line, ident } => NodesV::Break { line, ident: opt_text_view(ident) },
        Nodes::Continue { line, ident } => NodesV::Continue { line, ident: opt_text_view(ident) },
        Nodes::Loop { body, line, ident } => NodesV::Loop {
            body: stmts_view(body@),
            line,
            ident: opt_text_view(ident),
        },
        Nodes::Yeet { expr, line } => NodesV::Yeet { expr: node_view(expr), line },
        Nodes::Try { body, catch, finally, line } => NodesV::Try {
            body: stmts_view(body@),
            catch: catches_view(catch@),
            finally: match finally {
                Some(f) => Some(stmts_view(f@)),
                None => None,
            },
            line,
        },
        Nodes::Switch { expr, body, default, line } => NodesV::Switch {
            expr: node_view(expr),
            body: arms_view(body@),
            default: match default {
                Some(d) => Some(stmts_view(d@)),
                None => None,
            },
            line,
        },
        Nodes::Assign { target, expr, op, line } => NodesV::Assign {
            target: node_view(target),
            expr: node_view(expr),
            op,
            line,
        },
    }
}

pub open spec fn stmts_view(s: Seq<Nodes>) -> Seq<NodesV>
    decreases s,
{
    if s.len() == 0 {
        Seq::empty()
    } else {
        stmts_view(s.drop_last()).push(stmt_view(s.last()))
    }
}

pub open spec fn elifs_view(s: Seq<(Node, Vec<Nodes>, Line)>) -> Seq<(NodeV, Seq<NodesV>, Line)>
    decreases s,
{
    if s.len() == 0 {
        Seq::empty()
    } else {
        elifs_view(s.drop_last()).push(
            (node_view(s.last().0), stmts_view(s.last().1@), s.last().2),
        )
    }
}

pub open spec fn arms_view(s: Seq<(Node, Vec<Nodes>)>) -> Seq<(NodeV, Seq<NodesV>)>
    decreases s,
{
    if s.len() == 0 {
        Seq::empty()
    } else {
        arms_view(s.drop_last()).push((node_view(s.last().0), stmts_view(s.last().1@)))
    }
}

pub open spec fn catches_view(s: Seq<Catch>) -> Seq<CatchV>
    decreases s,
{
    if s.len() == 0 {
        Seq::empty()
    } else {
        catches_view(s.drop_last()).push(
            CatchV {
                ident: s.last().ident@,
                kinds: kinds_view(s.last().kinds@),
                body: stmts_view(s.last().body@),
                line: s.last().line,
            },
        )
    }
}

impl View for Nodes {
    type V = NodesV;

    open spec fn view(&self) -> NodesV {
        stmt_view(*self)
    }
}

pub open spec fn opt_stmt_view(o: Option<Nodes>) -> Option<NodesV> {
    match o {
        Some(n) => Some(stmt_view(n)),
        None => None,
    }
}

pub proof fn lemma_stmts_view_push(s: Seq<Nodes>, x: Nodes)
    ensures
        stmts_view(s.push(x)) == stmts_view(s).push(stmt_view(x)),
{
    assert(s.push(x).drop_last() =~= s);
}

pub proof fn lemma_elifs_view_push(s: Seq<(Node, Vec<Nodes>, Line)>, x: (Node, Vec<Nodes>, Line))
    ensures
        elifs_view(s.push(x)) == elifs_view(s).push((node_view(x.0), stmts_view(x.1@), x.2)),
{
    assert(s.push(x).drop_last() =~= s);
}

pub proof fn lemma_arms_view_push(s: Seq<(Node, Vec<Nodes>)>, x: (Node, Vec<Nodes>))
    ensures
        arms_view(s.push(x)) == arms_view(s).push((node_view(x.0), stmts_view(x.1@))),
{
    assert(s.push(x).drop_last() =~= s);
}

pub proof fn lemma_catches_view_push(s: Seq<Catch>, x: Catch)
    ensures
        catches_view(s.push(x)) == catches_view(s).push(
            CatchV {
                ident: x.ident@,
                kinds: kinds_view(x.kinds@),
                body: stmts_view(x.body@),
                line: x.line,
            },
        ),
{
    assert(s.push(x).drop_last() =~= s);
}

} // verus!
