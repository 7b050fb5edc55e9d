//! What the core library's string and array functions compute, with the
//! string pool and the heap of the virtual machine taken as plain values: the
//! pool as its strings, the heap as its arrays. Where a function makes a new
//! string, the result here is that string's text; the place the pool gives it
//! is the pool's own affair.
use vstd::prelude::*;
use vstd::string::StringExecFns;
use crate::text::str_eq;

verus! {

/// Function 0 (`str_cpy`): the text of the copy of string `s` (an empty
/// string gives an empty copy).
pub fn str_copy(pool: &Vec<String>, s: usize) -> (res: String)
    requires
        s < pool@.len(),
    ensures
        res@ == pool@[s as int]@,
{
    pool[s].clone()
}

/// Function 2 (`str_concat`): the text of the new string, string `a` followed
/// by string `b`.
pub fn str_concat(pool: &Vec<String>, a: usize, b: usize) -> (res: String)
    requires
        a < pool@.len(),
        b < pool@.len(),
    ensures
        res@ == pool@[a as int]@ + pool@[b as int]@,
{
    let mut res = pool[a].clone();
    res.append(pool[b].as_str());
    res
}

/// Function 3 (comparison of strings): whether strings `a` and `b` have the same text.
pub fn str_equal(pool: &Vec<String>, a: usize, b: usize) -> (res: bool)
    requires
        a < pool@.len(),
        b < pool@.len(),
    ensures
        res == (pool@[a as int]@ == pool@[b as int]@),
{
    str_eq(pool[a].as_str(), pool[b].as_str())
}

/// Function 5 (`arrlen`): the length of array `a`.
pub fn arr_len<T>(heap: &Vec<Vec<T>>, a: usize) -> (res: usize)
    requires
        a < heap@.len(),
    ensures
        res == heap@[a as int]@.len(),
{
    heap[a].len()
}

/// Function 6 (`arrpush`): appends `value` to array `a`; the other arrays
/// stay as they were.
pub fn arr_push<T>(heap: &mut Vec<Vec<T>>, a: usize, value: T)
    requires
        a < old(heap)@.len(),
    ensures
        final(heap)@.len() == old(heap)@.len(),
        final(heap)@[a as int]@ == old(heap)@[a as int]@.push(value),
        forall|i: int| 0 <= i < old(heap)@.len() && i != a ==> #[trigger] final(heap)@[i] == old(heap)@[i],
{
    let mut array = heap.remove(a);
    array.push(value);
    heap.insert(a, array);
}

} // verus!
