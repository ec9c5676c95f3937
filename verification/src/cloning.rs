//! Copying vectors whose elements clone to equal values, and optional strings.

use vstd::prelude::*;

verus! {

/// A copy of `v`, element by element.
pub fn clone_vec<T: Clone>(v: &Vec<T>) -> (c: Vec<T>)
    requires
        forall|x: T, y: T| call_ensures(T::clone, (&x,), y) ==> y == x,
    ensures
        c@ == v@,
{
    let mut c: Vec<T> = Vec::new();
    let mut i: usize = 0;
    while i < v.len()
        invariant
            i <= v@.len(),
            c@ == v@.subrange(0, i as int),
            forall|x: T, y: T| call_ensures(T::clone, (&x,), y) ==> y == x,
        decreases v.len() - i,
    {
        c.push(v[i].clone());
        assert(c@ == v@.subrange(0, i + 1));
        i = i + 1;
    }
    assert(v@.subrange(0, v@.len() as int) == v@);
    c
}

/// A copy of an optional string.
pub fn clone_opt_string(o: &Option<String>) -> (r: Option<String>)
    ensures
        r == *o,
{
    match o {
        Some(s) => Some(s.clone()),
        None => None,
    }
}

} // verus!
