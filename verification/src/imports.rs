//! Import lists: merging imports into a sorted list without duplicates, reading
//! the imports that a parsed file declares, and finding the imports that still
//! have to be built.
use vstd::prelude::*;
use crate::text::{str_lt, str_less, str_eq, lemma_str_lt_transitive, lemma_str_lt_total,
    lemma_str_lt_irreflexive, lemma_str_lt_asymmetric};
use crate::tokens::Tokens;
use crate::tree::{ArgNodeType, Node, find_key, lemma_find_key, find_field, keys_unique, lemma_unique_key};

verus! {

/// The contents of a list of strings.
pub open spec fn names(v: Seq<String>) -> Seq<Seq<char>> {
    v.map_values(|s: String| s@)
}

/// Every entry comes strictly before the next in the order of `Ord` on strings;
/// so the list is sorted and holds no entry twice.
pub open spec fn strictly_sorted(s: Seq<Seq<char>>) -> bool {
    forall|i: int, j: int| 0 <= i < j < s.len() ==> str_lt(#[trigger] s[i], #[trigger] s[j])
}

/// Inserts `x` at its place in a strictly sorted list, unless it is there already.
fn insert_sorted(out: &mut Vec<String>, x: String)
    requires
        strictly_sorted(names(old(out)@)),
    ensures
        strictly_sorted(names(final(out)@)),
        forall|y: Seq<char>|
            names(final(out)@).contains(y) <==> (names(old(out)@).contains(y) || y == x@),
{
    let ghost xs = names(out@);
    let mut j: usize = 0;
    while j < out.len() && str_less(out[j].as_str(), x.as_str())
        invariant
            j <= out@.len(),
            out@ == old(out)@,
            xs == names(out@),
            strictly_sorted(xs),
            forall|k: int| 0 <= k < j ==> str_lt(#[trigger] xs[k], x@),
        decreases out@.len() - j,
    {
        j = j + 1;
    }
    if j < out.len() && str_eq(out[j].as_str(), x.as_str()) {
        assert(xs[j as int] == x@);
        assert(xs.contains(x@));
        return;
    }
    proof {
        if j < out@.len() {
            lemma_str_lt_total(xs[j as int], x@);
        }
    }
    let ghost before = out@;
    out.insert(j, x);
    proof {
        let ys = names(out@);
        assert(ys =~= xs.insert(j as int, x@));
        assert forall|a: int, b: int| 0 <= a < b < ys.len() implies str_lt(
            #[trigger] ys[a],
            #[trigger] ys[b],
        ) by {
            if b < j {
                assert(ys[a] == xs[a] && ys[b] == xs[b]);
            } else if b == j {
                assert(ys[a] == xs[a]);
            } else if a == j {
                assert(ys[b] == xs[b - 1]);
                if b - 1 > j {
                    lemma_str_lt_transitive(x@, xs[j as int], xs[b - 1]);
                }
            } else if a < j {
                assert(ys[a] == xs[a] && ys[b] == xs[b - 1]);
            } else {
                assert(ys[a] == xs[a - 1] && ys[b] == xs[b - 1]);
            }
        }
        assert forall|y: Seq<char>| ys.contains(y) <==> (xs.contains(y) || y == x@) by {
            if ys.contains(y) {
                let k = choose|k: int| 0 <= k < ys.len() && ys[k] == y;
                if k < j {
                    assert(xs[k] == y);
                } else if k > j {
                    assert(xs[k - 1] == y);
                }
            }
            if xs.contains(y) {
                let k = choose|k: int| 0 <= k < xs.len() && xs[k] == y;
                if k < j {
                    assert(ys[k] == y);
                } else {
                    assert(ys[k + 1] == y);
                }
            }
            if y == x@ {
                assert(ys[j as int] == y);
            }
        }
    }
}

proof fn lemma_contains_push<A>(s: Seq<A>, x: A)
    ensures
        forall|y: A| #[trigger] s.push(x).contains(y) <==> (s.contains(y) || y == x),
{
    assert forall|y: A| #[trigger] s.push(x).contains(y) <==> (s.contains(y) || y == x) by {
        if s.push(x).contains(y) {
            let k = choose|k: int| 0 <= k < s.push(x).len() && s.push(x)[k] == y;
            if k < s.len() {
                assert(s[k] == y);
            }
        }
        if s.contains(y) {
            let k = choose|k: int| 0 <= k < s.len() && s[k] == y;
            assert(s.push(x)[k] == y);
        }
        if y == x {
            assert(s.push(x)[s.len() as int] == y);
        }
    }
}

/// Adds the strings of `src` to the strictly sorted list `out`.
fn insert_all(out: &mut Vec<String>, src: &Vec<String>)
    requires
        strictly_sorted(names(old(out)@)),
    ensures
        strictly_sorted(names(final(out)@)),
        forall|y: Seq<char>|
            #[trigger] names(final(out)@).contains(y) <==> (names(old(out)@).contains(y) || names(
                src@,
            ).contains(y)),
{
    let mut i: usize = 0;
    assert(names(src@).take(0) =~= Seq::<Seq<char>>::empty());
    while i < src.len()
        invariant
            i <= src@.len(),
            strictly_sorted(names(out@)),
            forall|y: Seq<char>|
                #[trigger] names(out@).contains(y) <==> (names(old(out)@).contains(y) || names(
                    src@,
                ).take(i as int).contains(y)),
        decreases src@.len() - i,
    {
        let s = src[i].clone();
        insert_sorted(out, s);
        proof {
            assert(names(src@).take(i + 1) =~= names(src@).take(i as int).push(src@[i as int]@));
            lemma_contains_push(names(src@).take(i as int), src@[i as int]@);
        }
        i = i + 1;
    }
    assert(names(src@).take(i as int) =~= names(src@));
}

/// Adds `new` to `imports`; the list is then sorted and holds each import once
/// (it extends, sorts and removes duplicates).
pub fn new_imports(imports: &mut Vec<String>, new: Vec<String>)
    ensures
        strictly_sorted(names(final(imports)@)),
        forall|y: Seq<char>|
            #[trigger] names(final(imports)@).contains(y) <==> (names(old(imports)@).contains(y)
                || names(new@).contains(y)),
{
    let mut out: Vec<String> = Vec::new();
    assert(names(out@) =~= Seq::<Seq<char>>::empty());
    insert_all(&mut out, imports);
    insert_all(&mut out, &new);
    *imports = out;
}

/// Two strictly sorted lists with the same entries are the same list; so the
/// contract of `new_imports` fixes its result.
pub proof fn lemma_strictly_sorted_unique(a: Seq<Seq<char>>, b: Seq<Seq<char>>)
    requires
        strictly_sorted(a),
        strictly_sorted(b),
        forall|y: Seq<char>| a.contains(y) <==> b.contains(y),
    ensures
        a == b,
    decreases a.len(),
{
    if a.len() == 0 {
        if b.len() > 0 {
            assert(b.contains(b[0]));
        }
        assert(a =~= b);
    } else if b.len() == 0 {
        assert(a.contains(a[0]));
    } else {
        // the first entries are both the least entry
        assert(a.contains(a[0]));
        assert(b.contains(b[0]));
        let ia = choose|k: int| 0 <= k < a.len() && a[k] == b[0];
        let ib = choose|k: int| 0 <= k < b.len() && b[k] == a[0];
        if ia > 0 {
            assert(str_lt(a[0], a[ia]));
            if ib > 0 {
                assert(str_lt(b[0], b[ib]));
                lemma_str_lt_asymmetric(a[0], b[0]);
            } else {
                lemma_str_lt_irreflexive(a[0]);
            }
        }
        assert(a[0] == b[0]);
        let ra = a.drop_first();
        let rb = b.drop_first();
        assert forall|y: Seq<char>| ra.contains(y) <==> rb.contains(y) by {
            if ra.contains(y) {
                let k = choose|k: int| 0 <= k < ra.len() && ra[k] == y;
                assert(a[k + 1] == y);
                assert(str_lt(a[0], y));
                assert(b.contains(y));
                let m = choose|m: int| 0 <= m < b.len() && b[m] == y;
                if m == 0 {
                    lemma_str_lt_irreflexive(y);
                }
                assert(rb[m - 1] == y);
            }
            if rb.contains(y) {
                let k = choose|k: int| 0 <= k < rb.len() && rb[k] == y;
                assert(b[k + 1] == y);
                assert(str_lt(b[0], y));
                assert(a.contains(y));
                let m = choose|m: int| 0 <= m < a.len() && a[m] == y;
                if m == 0 {
                    lemma_str_lt_irreflexive(y);
                }
                assert(ra[m - 1] == y);
            }
        }
        lemma_strictly_sorted_unique(ra, rb);
        assert(a =~= seq![a[0]] + ra);
        assert(b =~= seq![b[0]] + rb);
    }
}

/// The texts of the string-literal nodes among `s`, in order.
pub open spec fn string_literals(s: Seq<Node>) -> Seq<Seq<char>>
    decreases s.len(),
{
    if s.len() == 0 {
        Seq::empty()
    } else {
        let r = string_literals(s.drop_last());
        match s.last().name {
            Tokens::String(x) => r.push(x@),
            _ => r,
        }
    }
}

/// The text of a string-literal node; none for any other node.
pub open spec fn literal_text(n: Node) -> Option<Seq<char>> {
    match n.name {
        Tokens::String(x) => Some(x@),
        _ => None,
    }
}

/// The texts of all string-literal nodes of `s`, in order.
pub open spec fn literal_texts(s: Seq<Node>) -> Seq<Seq<char>> {
    s.filter_map(|n: Node| literal_text(n))
}

/// The string literals read from a sequence of nodes are the texts of its
/// string-literal nodes, all of them and in order: every string-literal node
/// gives its text, and every text comes from such a node.
pub proof fn lemma_string_literals(s: Seq<Node>)
    ensures
        string_literals(s) == literal_texts(s),
        forall|k: int|
            0 <= k < s.len() && #[trigger] literal_text(s[k]) is Some ==> string_literals(
                s,
            ).contains(literal_text(s[k])->0),
        forall|y: Seq<char>|
            #[trigger] string_literals(s).contains(y) ==> exists|k: int|
                0 <= k < s.len() && literal_text(s[k]) == Some(y),
    decreases s.len(),
{
    if s.len() > 0 {
        let init = s.drop_last();
        let last = s.last();
        lemma_string_literals(init);
        let r = string_literals(init);
        match last.name {
            Tokens::String(x) => {
                assert(r.push(x@) =~= r + seq![x@]);
            },
            _ => {},
        }
        assert forall|k: int|
            0 <= k < s.len() && #[trigger] literal_text(s[k]) is Some implies string_literals(
            s,
        ).contains(literal_text(s[k])->0) by {
            if k < s.len() - 1 {
                assert(init[k] == s[k]);
                let j = choose|j: int| 0 <= j < r.len() && r[j] == literal_text(init[k])->0;
                assert(string_literals(s)[j] == r[j]);
            } else {
                assert(string_literals(s)[r.len() as int] == literal_text(last)->0);
            }
        }
        assert forall|y: Seq<char>| #[trigger] string_literals(s).contains(y) implies exists|k: int|
            0 <= k < s.len() && literal_text(s[k]) == Some(y) by {
            let j = choose|j: int| 0 <= j < string_literals(s).len() && string_literals(s)[j] == y;
            if j < r.len() {
                assert(r[j] == y);
                assert(r.contains(y));
                let k = choose|k: int| 0 <= k < init.len() && literal_text(init[k]) == Some(y);
                assert(s[k] == init[k]);
            } else {
                assert(literal_text(s[s.len() - 1]) == Some(y));
            }
        }
    }
}

/// In globals keyed by name, the declared imports are the texts of all the
/// string-literal nodes of the array `imports`, in order (none when `imports`
/// is a single node).
pub proof fn lemma_declared_imports(globals: Seq<(String, ArgNodeType)>, i: int)
    requires
        keys_unique(globals),
        0 <= i < globals.len(),
        globals[i].0@ == "imports"@,
    ensures
        spec_declared_imports(globals) == Some(
            match globals[i].1 {
                ArgNodeType::Array(v) => literal_texts(v@),
                ArgNodeType::Value(_) => Seq::<Seq<char>>::empty(),
            },
        ),
{
    lemma_unique_key(globals, i);
    match globals[i].1 {
        ArgNodeType::Array(v) => {
            lemma_string_literals(v@);
        },
        ArgNodeType::Value(_) => {},
    }
}

/// The imports that the globals of a parsed file declare: the string literals
/// of the array `imports` (none when `imports` is a single node); `None` when
/// there is no global `imports`.
pub open spec fn spec_declared_imports(globals: Seq<(String, ArgNodeType)>) -> Option<Seq<Seq<char>>> {
    let i = find_key(globals, "imports"@);
    if 0 <= i < globals.len() {
        match globals[i].1 {
            ArgNodeType::Array(v) => Some(string_literals(v@)),
            ArgNodeType::Value(_) => Some(Seq::empty()),
        }
    } else {
        None
    }
}

/// The imports that a parsed file declares (its global `imports`); the globals
/// are keyed by name, each name once.
pub fn declared_imports(globals: &Vec<(String, ArgNodeType)>) -> (res: Vec<String>)
    requires
        keys_unique(globals@),
        spec_declared_imports(globals@) is Some,
    ensures
        names(res@) == spec_declared_imports(globals@).unwrap(),
{
    proof {
        lemma_find_key(globals@, "imports"@);
    }
    let mut imports: Vec<String> = Vec::new();
    let k = match find_field(globals, "imports") {
        Some(k) => k,
        None => unreached(),
    };
    if let ArgNodeType::Array(arr) = &globals[k].1 {
        let mut i: usize = 0;
        assert(arr@.take(0) =~= Seq::<Node>::empty());
        assert(names(imports@) =~= Seq::<Seq<char>>::empty());
        while i < arr.len()
            invariant
                i <= arr@.len(),
                names(imports@) == string_literals(arr@.take(i as int)),
            decreases arr@.len() - i,
        {
            proof {
                assert(arr@.take(i + 1).drop_last() =~= arr@.take(i as int));
                assert(arr@.take(i + 1).last() == arr@[i as int]);
            }
            if let Tokens::String(s) = &arr[i].name {
                let ghost before = imports@;
                imports.push(s.clone());
                assert(names(imports@) =~= names(before).push(s@));
            }
            i = i + 1;
        }
        assert(arr@.take(i as int) =~= arr@);
    }
    assert(names(imports@) =~= spec_declared_imports(globals@).unwrap());
    imports
}

/// The entries of `imports` that are not among `built`, in order.
pub open spec fn unbuilt(imports: Seq<Seq<char>>, built: Seq<Seq<char>>) -> Seq<Seq<char>>
    decreases imports.len(),
{
    if imports.len() == 0 {
        Seq::empty()
    } else {
        let r = unbuilt(imports.drop_last(), built);
        if built.contains(imports.last()) {
            r
        } else {
            r.push(imports.last())
        }
    }
}

fn contains_name(v: &Vec<String>, x: &String) -> (res: bool)
    ensures
        res == names(v@).contains(x@),
{
    let mut i: usize = 0;
    while i < v.len()
        invariant
            i <= v@.len(),
            forall|j: int| 0 <= j < i ==> names(v@)[j] != x@,
        decreases v@.len() - i,
    {
        if str_eq(v[i].as_str(), x.as_str()) {
            assert(names(v@)[i as int] == x@);
            return true;
        }
        i = i + 1;
    }
    false
}

/// The imports that have no dictionary yet (those not among `built`), in order;
/// the building of a program's files is done when there are none.
pub fn imports_to_build(imports: &Vec<String>, built: &Vec<String>) -> (res: Vec<String>)
    ensures
        names(res@) == unbuilt(names(imports@), names(built@)),
{
    let mut out: Vec<String> = Vec::new();
    let mut i: usize = 0;
    assert(names(imports@).take(0) =~= Seq::<Seq<char>>::empty());
    assert(names(out@) =~= Seq::<Seq<char>>::empty());
    while i < imports.len()
        invariant
            i <= imports@.len(),
            names(out@) == unbuilt(names(imports@).take(i as int), names(built@)),
        decreases imports@.len() - i,
    {
        proof {
            assert(names(imports@).take(i + 1).drop_last() =~= names(imports@).take(i as int));
            assert(names(imports@).take(i + 1).last() == imports@[i as int]@);
        }
        if !contains_name(built, &imports[i]) {
            let ghost before = out@;
            out.push(imports[i].clone());
            assert(names(out@) =~= names(before).push(imports@[i as int]@));
        }
        i = i + 1;
    }
    assert(names(imports@).take(i as int) =~= names(imports@));
    out
}

/// No import is left to build exactly when every import has been built.
pub proof fn lemma_unbuilt_empty(imports: Seq<Seq<char>>, built: Seq<Seq<char>>)
    ensures
        unbuilt(imports, built).len() == 0 <==> forall|i: int|
            0 <= i < imports.len() ==> built.contains(#[trigger] imports[i]),
    decreases imports.len(),
{
    if imports.len() > 0 {
        lemma_unbuilt_empty(imports.drop_last(), built);
        assert forall|i: int| 0 <= i < imports.len() - 1 implies #[trigger] imports.drop_last()[i]
            == imports[i] by {}
        if unbuilt(imports, built).len() == 0 {
            assert forall|i: int| 0 <= i < imports.len() implies built.contains(
                #[trigger] imports[i],
            ) by {
                if i < imports.len() - 1 {
                    assert(imports.drop_last()[i] == imports[i]);
                }
            }
        }
        if forall|i: int| 0 <= i < imports.len() ==> built.contains(#[trigger] imports[i]) {
            assert(built.contains(imports[imports.len() - 1]));
            assert forall|i: int| 0 <= i < imports.drop_last().len() implies built.contains(
                #[trigger] imports.drop_last()[i],
            ) by {
                assert(imports.drop_last()[i] == imports[i]);
            }
        }
    }
}

/// An entry is among the imports left to build exactly when it is an import
/// and has not been built.
pub proof fn lemma_unbuilt_contains(imports: Seq<Seq<char>>, built: Seq<Seq<char>>, x: Seq<char>)
    ensures
        unbuilt(imports, built).contains(x) <==> (imports.contains(x) && !built.contains(x)),
    decreases imports.len(),
{
    if imports.len() > 0 {
        let init = imports.drop_last();
        let last = imports.last();
        lemma_unbuilt_contains(init, built, x);
        let r = unbuilt(init, built);
        assert(unbuilt(imports, built) == if built.contains(last) { r } else { r.push(last) });
        assert(imports.contains(x) <==> (init.contains(x) || x == last)) by {
            if imports.contains(x) {
                let k = choose|k: int| 0 <= k < imports.len() && imports[k] == x;
                if k < imports.len() - 1 {
                    assert(init[k] == x);
                }
            }
            if init.contains(x) {
                let k = choose|k: int| 0 <= k < init.len() && init[k] == x;
                assert(imports[k] == x);
            }
            if x == last {
                assert(imports[imports.len() - 1] == x);
            }
        }
        if !built.contains(last) {
            assert(r.push(last).contains(x) <==> (r.contains(x) || x == last)) by {
                if r.push(last).contains(x) {
                    let k = choose|k: int| 0 <= k < r.len() + 1 && r.push(last)[k] == x;
                    if k < r.len() {
                        assert(r[k] == x);
                    }
                }
                if r.contains(x) {
                    let k = choose|k: int| 0 <= k < r.len() && r[k] == x;
                    assert(r.push(last)[k] == x);
                }
                if x == last {
                    assert(r.push(last)[r.len() as int] == x);
                }
            }
        }
    }
}

/// The building of a program's files: the imports found so far (sorted, each
/// once), the files that have a dictionary (the main file first), and the
/// imports that each built file declared.
pub struct Linker {
    imports: Vec<String>,
    built: Vec<String>,
    declared: Ghost<Map<Seq<char>, Seq<Seq<char>>>>,
}

impl Linker {
    /// The invariant of the building: the imports are sorted without
    /// repeats; no file is built twice; every built file but the main file is
    /// an import; the files that declared imports are the built files, and what
    /// each declared is among the imports.
    #[verifier::type_invariant]
    spec fn wf(&self) -> bool {
        &&& strictly_sorted(names(self.imports@))
        &&& self.built@.len() > 0
        &&& forall|i: int, j: int|
            0 <= i < j < self.built@.len() ==> #[trigger] names(self.built@)[i]
                != #[trigger] names(self.built@)[j]
        &&& forall|i: int|
            1 <= i < self.built@.len() ==> names(self.imports@).contains(
                #[trigger] names(self.built@)[i],
            )
        &&& forall|f: Seq<char>|
            #[trigger] self.declared@.dom().contains(f) <==> names(self.built@).contains(f)
        &&& forall|f: Seq<char>, x: Seq<char>|
            self.declared@.dom().contains(f) && #[trigger] self.declared@[f].contains(x)
                ==> names(self.imports@).contains(x)
    }

    /// The imports found so far.
    pub closed spec fn import_names(&self) -> Seq<Seq<char>> {
        names(self.imports@)
    }

    /// The files that have a dictionary, in the order they were built.
    pub closed spec fn built_names(&self) -> Seq<Seq<char>> {
        names(self.built@)
    }

    /// The imports that each built file declared.
    pub closed spec fn declared(&self) -> Map<Seq<char>, Seq<Seq<char>>> {
        self.declared@
    }

    /// The state after the main file `main` is built and declared `found`.
    pub fn start(main: String, found: Vec<String>) -> (res: Linker)
        ensures
            res.built_names() == seq![main@],
            forall|y: Seq<char>|
                #[trigger] res.import_names().contains(y) <==> names(found@).contains(y),
            res.declared() == map![main@ => names(found@)],
    {
        let ghost m = main@;
        let ghost fs = names(found@);
        let mut imports: Vec<String> = Vec::new();
        assert(names(imports@) =~= Seq::<Seq<char>>::empty());
        new_imports(&mut imports, found);
        let mut built: Vec<String> = Vec::new();
        built.push(main);
        assert(names(built@) =~= seq![m]);
        let ghost d = map![m => fs];
        assert forall|f: Seq<char>| #[trigger] d.dom().contains(f) <==> names(built@).contains(
            f,
        ) by {
            if names(built@).contains(f) {
                assert(names(built@)[0] == f);
            }
            if f == m {
                assert(names(built@)[0] == m);
            }
        }
        Linker { imports, built, declared: Ghost(d) }
    }

    /// The imports found so far: sorted, each once.
    pub fn imports(&self) -> (res: &Vec<String>)
        ensures
            names(res@) == self.import_names(),
            strictly_sorted(self.import_names()),
    {
        proof {
            use_type_invariant(self);
        }
        &self.imports
    }

    /// The files that have a dictionary: none twice, and each but the first
    /// (the main file) an import.
    pub fn built(&self) -> (res: &Vec<String>)
        ensures
            names(res@) == self.built_names(),
            self.built_names().len() > 0,
            forall|i: int, j: int|
                0 <= i < j < self.built_names().len() ==> #[trigger] self.built_names()[i]
                    != #[trigger] self.built_names()[j],
            forall|i: int|
                1 <= i < self.built_names().len() ==> self.import_names().contains(
                    #[trigger] self.built_names()[i],
                ),
    {
        proof {
            use_type_invariant(self);
        }
        &self.built
    }

    /// The imports that have no dictionary yet, in order. When there are none,
    /// the building is closed under imports: every file that a built file
    /// declared as an import has been built.
    pub fn to_build(&self) -> (res: Vec<String>)
        ensures
            names(res@) == unbuilt(self.import_names(), self.built_names()),
            forall|x: Seq<char>|
                #[trigger] names(res@).contains(x) <==> (self.import_names().contains(x)
                    && !self.built_names().contains(x)),
            res@.len() == 0 ==> forall|f: Seq<char>, x: Seq<char>|
                self.declared().dom().contains(f) && #[trigger] self.declared()[f].contains(x)
                    ==> self.built_names().contains(x),
    {
        proof {
            use_type_invariant(self);
        }
        let res = imports_to_build(&self.imports, &self.built);
        proof {
            let im = names(self.imports@);
            let bt = names(self.built@);
            assert forall|x: Seq<char>| #[trigger] names(res@).contains(x) <==> (im.contains(x)
                && !bt.contains(x)) by {
                lemma_unbuilt_contains(im, bt, x);
            }
            if res@.len() == 0 {
                lemma_unbuilt_empty(im, bt);
                assert forall|f: Seq<char>, x: Seq<char>|
                    self.declared@.dom().contains(f) && #[trigger] self.declared@[f].contains(
                        x,
                    ) implies bt.contains(x) by {
                    assert(im.contains(x));
                    let k = choose|k: int| 0 <= k < im.len() && im[k] == x;
                    assert(bt.contains(im[k]));
                }
            }
        }
        res
    }

    /// The state after the import `name`, which had no dictionary, was built
    /// and declared `found`.
    pub fn record(self, name: String, found: Vec<String>) -> (res: Linker)
        requires
            self.import_names().contains(name@),
            !self.built_names().contains(name@),
        ensures
            res.built_names() == self.built_names().push(name@),
            res.declared() == self.declared().insert(name@, names(found@)),
            forall|y: Seq<char>|
                #[trigger] res.import_names().contains(y) <==> (self.import_names().contains(y)
                    || names(found@).contains(y)),
    {
        proof {
            use_type_invariant(&self);
        }
        let ghost n = name@;
        let ghost fs = names(found@);
        let Linker { mut imports, mut built, declared } = self;
        let ghost old_built = names(built@);
        let ghost old_imports = names(imports@);
        new_imports(&mut imports, found);
        built.push(name);
        assert(names(built@) =~= old_built.push(n));
        let ghost d = declared@.insert(n, fs);
        proof {
            let b = names(built@);
            assert forall|i: int| 1 <= i < b.len() implies names(imports@).contains(
                #[trigger] b[i],
            ) by {
                if i < old_built.len() {
                    assert(old_built[i] == b[i]);
                    assert(old_imports.contains(b[i]));
                }
            }
            assert forall|i: int, j: int| 0 <= i < j < b.len() implies #[trigger] b[i]
                != #[trigger] b[j] by {
                if j == b.len() - 1 {
                    assert(old_built[i] == b[i]);
                } else {
                    assert(old_built[i] == b[i]);
                    assert(old_built[j] == b[j]);
                }
            }
            assert forall|f: Seq<char>| #[trigger] d.dom().contains(f) <==> b.contains(f) by {
                if b.contains(f) && f != n {
                    let k = choose|k: int| 0 <= k < b.len() && b[k] == f;
                    assert(old_built[k] == f);
                }
                if old_built.contains(f) {
                    let k = choose|k: int| 0 <= k < old_built.len() && old_built[k] == f;
                    assert(b[k] == f);
                }
                if f == n {
                    assert(b[b.len() - 1] == n);
                }
            }
        }
        Linker { imports, built, declared: Ghost(d) }
    }
}

} // verus!
