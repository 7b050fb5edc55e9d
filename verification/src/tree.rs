//! The generic syntax tree that the grammar-driven parser produces: every node
//! has a name (a token), a source position, and named children, each either
//! one node or an array of nodes.
use vstd::prelude::*;
use crate::text::str_eq;
use crate::tokens::{Line, Tokens, TokensV};

verus! {

/// A node of the generic syntax tree.
#[derive(Debug)]
pub struct Node {
    pub name: Tokens,
    /// Named children. In a tree that the parser built a name occurs at most
    /// once among the children of a node (`tree_wf`).
    pub nodes: Vec<(String, ArgNodeType)>,
    pub line: Line,
}

/// A named child: an array of nodes or a single node.
#[derive(Debug)]
pub enum ArgNodeType {
    Array(Vec<Node>),
    Value(Node),
}

/// The mathematical value of a node.
pub struct NodeV {
    pub name: TokensV,
    pub nodes: Seq<(Seq<char>, ArgV)>,
    pub line: Line,
}

/// The mathematical value of a named child.
pub enum ArgV {
    Array(Seq<NodeV>),
    Value(NodeV),
}

pub open spec fn node_view(n: Node) -> NodeV
    decreases n, 3nat,
{
    NodeV { name: n.name@, nodes: fields_view(n.nodes@), line: n.line }
}

pub open spec fn fields_view(s: Seq<(String, ArgNodeType)>) -> Seq<(Seq<char>, ArgV)>
    decreases s, 2nat,
{
    if s.len() == 0 {
        Seq::empty()
    } else {
        fields_view(s.drop_last()).push((s.last().0@, arg_view(s.last().1)))
    }
}

pub open spec fn arg_view(a: ArgNodeType) -> ArgV
    decreases a, 1nat,
{
    match a {
        ArgNodeType::Array(v) => ArgV::Array(nodes_view(v@)),
        ArgNodeType::Value(n) => ArgV::Value(node_view(n)),
    }
}

pub open spec fn nodes_view(s: Seq<Node>) -> Seq<NodeV>
    decreases s, 0nat,
{
    if s.len() == 0 {
        Seq::empty()
    } else {
        nodes_view(s.drop_last()).push(node_view(s.last()))
    }
}

impl View for Node {
    type V = NodeV;

    open spec fn view(&self) -> NodeV {
        node_view(*self)
    }
}

impl View for ArgNodeType {
    type V = ArgV;

    open spec fn view(&self) -> ArgV {
        arg_view(*self)
    }
}

/// Index of the first child named `key`, or -1 when there is none.
pub open spec fn find_key(s: Seq<(String, ArgNodeType)>, key: Seq<char>) -> int
    decreases s.len(),
{
    if s.len() == 0 {
        -1
    } else if s[0].0@ == key {
        0
    } else {
        let r = find_key(s.drop_first(), key);
        if r < 0 {
            -1
        } else {
            r + 1
        }
    }
}

pub proof fn lemma_find_key(s: Seq<(String, ArgNodeType)>, key: Seq<char>)
    ensures
        -1 <= find_key(s, key) < s.len(),
        find_key(s, key) == -1 <==> forall|j: int| 0 <= j < s.len() ==> s[j].0@ != key,
        find_key(s, key) >= 0 ==> s[find_key(s, key)].0@ == key && forall|j: int|
            0 <= j < find_key(s, key) ==> s[j].0@ != key,
    decreases s.len(),
{
    if s.len() > 0 && s[0].0@ != key {
        lemma_find_key(s.drop_first(), key);
        let r = find_key(s.drop_first(), key);
        if r < 0 {
            assert forall|j: int| 0 <= j < s.len() implies s[j].0@ != key by {
                if j > 0 {
                    assert(s[j] == s.drop_first()[j - 1]);
                }
            }
        } else {
            assert forall|j: int| 0 <= j < r + 1 implies s[j].0@ != key by {
                if j > 0 {
                    assert(s[j] == s.drop_first()[j - 1]);
                }
            }
            assert(s[r + 1] == s.drop_first()[r]);
        }
    }
}

/// The child node named `key`, if there is a child of that name and it is a single node.
pub open spec fn spec_val(n: Node, key: Seq<char>) -> Option<Node> {
    let i = find_key(n.nodes@, key);
    if 0 <= i < n.nodes@.len() {
        match n.nodes@[i].1 {
            ArgNodeType::Value(v) => Some(v),
            ArgNodeType::Array(_) => None,
        }
    } else {
        None
    }
}

/// The child array named `key`, if there is a child of that name and it is an array.
pub open spec fn spec_arr(n: Node, key: Seq<char>) -> Option<Seq<Node>> {
    let i = find_key(n.nodes@, key);
    if 0 <= i < n.nodes@.len() {
        match n.nodes@[i].1 {
            ArgNodeType::Array(v) => Some(v@),
            ArgNodeType::Value(_) => None,
        }
    } else {
        None
    }
}

/// A child node is smaller than its parent (for recursion over the tree).
pub proof fn lemma_val_decreases(n: Node, key: Seq<char>)
    requires
        spec_val(n, key) is Some,
    ensures
        decreases_to!(n => spec_val(n, key)->0),
{
    let i = find_key(n.nodes@, key);
    let p = n.nodes@[i];
    assert(decreases_to!(n => n.nodes));
    assert(decreases_to!(n.nodes => n.nodes@));
    assert(decreases_to!(n.nodes@ => p));
    assert(decreases_to!(p => p.1));
    assert(decreases_to!(p.1 => p.1->Value_0));
}

/// A child array is smaller than its parent (for recursion over the tree).
pub proof fn lemma_arr_decreases(n: Node, key: Seq<char>)
    requires
        spec_arr(n, key) is Some,
    ensures
        decreases_to!(n => spec_arr(n, key)->0),
{
    let i = find_key(n.nodes@, key);
    let p = n.nodes@[i];
    assert(decreases_to!(n => n.nodes));
    assert(decreases_to!(n.nodes => n.nodes@));
    assert(decreases_to!(n.nodes@ => p));
    assert(decreases_to!(p => p.1));
    assert(decreases_to!(p.1 => p.1->Array_0));
    assert(decreases_to!(p.1->Array_0 => p.1->Array_0@));
}

/// No two children have the same name.
pub open spec fn keys_unique(fields: Seq<(String, ArgNodeType)>) -> bool {
    forall|i: int, j: int| 0 <= i < j < fields.len() ==> fields[i].0@ != fields[j].0@
}

/// A tree as the parser builds it: in every node, no two children have the same name.
pub open spec fn tree_wf(n: Node) -> bool
    decreases n, 1nat,
{
    &&& keys_unique(n.nodes@)
    &&& forall|i: int| #![trigger n.nodes@[i]] 0 <= i < n.nodes@.len() ==> child_wf(n.nodes@[i].1)
}

/// Every node under a named child is as the parser builds it.
pub open spec fn child_wf(a: ArgNodeType) -> bool
    decreases a, 0nat,
{
    match a {
        ArgNodeType::Value(v) => tree_wf(v),
        ArgNodeType::Array(vs) => forall|j: int| #![trigger vs@[j]] 0 <= j < vs@.len() ==> tree_wf(vs@[j]),
    }
}

/// With unique names, the child named `key` is the one child with that name.
pub proof fn lemma_unique_key(s: Seq<(String, ArgNodeType)>, i: int)
    requires
        keys_unique(s),
        0 <= i < s.len(),
    ensures
        find_key(s, s[i].0@) == i,
{
    lemma_find_key(s, s[i].0@);
    let k = find_key(s, s[i].0@);
    if k != i {
        assert(s[k].0@ == s[i].0@);
    }
}

/// The child node of a tree as the parser builds it is such a tree too.
pub proof fn lemma_val_wf(n: Node, key: Seq<char>)
    requires
        tree_wf(n),
        spec_val(n, key) is Some,
    ensures
        tree_wf(spec_val(n, key)->0),
{
    lemma_find_key(n.nodes@, key);
    let i = find_key(n.nodes@, key);
    assert(child_wf(n.nodes@[i].1));
}

/// Every node of a child array of a tree as the parser builds it is such a tree too.
pub proof fn lemma_arr_wf(n: Node, key: Seq<char>)
    requires
        tree_wf(n),
        spec_arr(n, key) is Some,
    ensures
        forall|j: int|
            0 <= j < spec_arr(n, key)->0.len() ==> #[trigger] tree_wf(spec_arr(n, key)->0[j]),
{
    lemma_find_key(n.nodes@, key);
    let i = find_key(n.nodes@, key);
    assert(child_wf(n.nodes@[i].1));
}

/// The text of a `Text` token.
pub open spec fn text_of(t: Tokens) -> Option<Seq<char>> {
    match t {
        Tokens::Text(s) => Some(s@),
        _ => None,
    }
}

/// Whether a node's name is the `Text` token `s`.
pub open spec fn is_named(n: Node, s: Seq<char>) -> bool {
    text_of(n.name) == Some(s)
}

/// The identifier under the child `identifier`: present when that child exists
/// and its name is a `Text` token.
pub open spec fn spec_ident(n: Node) -> Option<Seq<char>> {
    match spec_val(n, "identifier"@) {
        Some(v) => text_of(v.name),
        None => None,
    }
}

/// The label of a loop (or of a `break` / `continue`): the text of the child `ident`
/// when that child is named by a `Text` token, else none. `None` as a whole when
/// there is no such child.
pub open spec fn spec_label(n: Node) -> Option<Option<Seq<char>>> {
    match spec_val(n, "ident"@) {
        Some(v) => Some(text_of(v.name)),
        None => None,
    }
}

/// The index of the first field named `name`.
pub fn find_field(fields: &Vec<(String, ArgNodeType)>, name: &str) -> (res: Option<usize>)
    ensures
        match res {
            Some(i) => i == find_key(fields@, name@),
            None => find_key(fields@, name@) == -1,
        },
{
    proof {
        lemma_find_key(fields@, name@);
    }
    let mut i: usize = 0;
    while i < fields.len()
        invariant
            i <= fields@.len(),
            forall|j: int| 0 <= j < i ==> fields@[j].0@ != name@,
        decreases fields@.len() - i,
    {
        if str_eq(fields[i].0.as_str(), name) {
            proof {
                lemma_find_key(fields@, name@);
                let k = find_key(fields@, name@);
                if k != i {
                    assert(fields@[k].0@ == name@);
                }
            }
            return Some(i);
        }
        i = i + 1;
    }
    None
}

/// The child node named `name`.
pub fn step_inside_val<'a>(node: &'a Node, name: &str) -> (res: &'a Node)
    requires
        keys_unique(node.nodes@),
        spec_val(*node, name@) is Some,
    ensures
        spec_val(*node, name@) == Some(*res),
        tree_wf(*node) ==> tree_wf(*res),
{
    proof {
        if tree_wf(*node) {
            lemma_val_wf(*node, name@);
        }
    }
    let i = find_field(&node.nodes, name);
    match i {
        Some(i) => match &node.nodes[i].1 {
            ArgNodeType::Value(v) => v,
            ArgNodeType::Array(_) => unreached(),
        },
        None => unreached(),
    }
}

/// The child array named `name`.
pub fn step_inside_arr<'a>(node: &'a Node, name: &str) -> (res: &'a Vec<Node>)
    requires
        keys_unique(node.nodes@),
        spec_arr(*node, name@) is Some,
    ensures
        spec_arr(*node, name@) == Some(res@),
        tree_wf(*node) ==> forall|j: int| 0 <= j < res@.len() ==> #[trigger] tree_wf(res@[j]),
{
    proof {
        if tree_wf(*node) {
            lemma_arr_wf(*node, name@);
        }
    }
    let i = find_field(&node.nodes, name);
    match i {
        Some(i) => match &node.nodes[i].1 {
            ArgNodeType::Array(v) => v,
            ArgNodeType::Value(_) => unreached(),
        },
        None => unreached(),
    }
}

impl Node {
    /// A copy of the node and of everything under it.
    pub fn duplicate(&self) -> (res: Node)
        ensures
            res@ == self@,
        decreases self,
    {
        let mut nodes: Vec<(String, ArgNodeType)> = Vec::new();
        let mut i: usize = 0;
        while i < self.nodes.len()
            invariant
                i <= self.nodes@.len(),
                fields_view(nodes@) == fields_view(self.nodes@.take(i as int)),
            decreases self.nodes@.len() - i,
        {
            proof {
                let p = self.nodes@[i as int];
                assert(decreases_to!(*self => self.nodes));
                assert(decreases_to!(self.nodes => self.nodes@));
                assert(decreases_to!(self.nodes@ => p));
                assert(decreases_to!(p => p.1));
            }
            let child = self.nodes[i].1.duplicate();
            let key = self.nodes[i].0.clone();
            let ghost before = nodes@;
            nodes.push((key, child));
            proof {
                assert(nodes@.drop_last() =~= before);
                assert(self.nodes@.take(i + 1).drop_last() =~= self.nodes@.take(i as int));
            }
            i = i + 1;
        }
        proof {
            assert(self.nodes@.take(i as int) =~= self.nodes@);
        }
        Node { name: self.name.duplicate(), nodes, line: self.line }
    }
}

impl ArgNodeType {
    /// A copy of the child and of everything under it.
    pub fn duplicate(&self) -> (res: ArgNodeType)
        ensures
            res@ == self@,
        decreases self,
    {
        match self {
            ArgNodeType::Value(n) => ArgNodeType::Value(n.duplicate()),
            ArgNodeType::Array(v) => {
                let mut out: Vec<Node> = Vec::new();
                let mut i: usize = 0;
                while i < v.len()
                    invariant
                        i <= v@.len(),
                        self is Array,
                        self->Array_0 == *v,
                        nodes_view(out@) == nodes_view(v@.take(i as int)),
                    decreases v@.len() - i,
                {
                    proof {
                        assert(decreases_to!(*self => self->Array_0));
                        assert(decreases_to!(self->Array_0 => v@));
                        assert(decreases_to!(v@ => v@[i as int]));
                    }
                    let c = v[i].duplicate();
                    let ghost before = out@;
                    out.push(c);
                    proof {
                        assert(out@.drop_last() =~= before);
                        assert(v@.take(i + 1).drop_last() =~= v@.take(i as int));
                    }
                    i = i + 1;
                }
                proof {
                    assert(v@.take(i as int) =~= v@);
                }
                ArgNodeType::Array(out)
            },
        }
    }
}

} // verus!
