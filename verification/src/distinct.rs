//! Facts about sequences in which nothing occurs twice.

use vstd::prelude::*;

verus! {

/// Taking the element at `i` out of a sequence without duplicates leaves one
/// without duplicates that holds everything but that element.
pub proof fn lemma_remove_distinct<A>(s: Seq<A>, i: int)
    requires
        s.no_duplicates(),
        0 <= i < s.len(),
    ensures
        s.remove(i).no_duplicates(),
        !s.remove(i).contains(s[i]),
        forall|x: A| s.remove(i).contains(x) <==> (s.contains(x) && x != s[i]),
        s.remove_value(s[i]) == s.remove(i),
{
    let r = s.remove(i);
    assert forall|x: A| r.contains(x) <==> (s.contains(x) && x != s[i]) by {
        if r.contains(x) {
            let k = choose|k: int| 0 <= k < r.len() && r[k] == x;
            if k < i {
                assert(s[k] == x);
            } else {
                assert(s[k + 1] == x);
            }
        }
        if s.contains(x) && x != s[i] {
            let k = choose|k: int| 0 <= k < s.len() && s[k] == x;
            if k < i {
                assert(r[k] == x);
            } else {
                assert(r[k - 1] == x);
            }
        }
    }
    s.index_of_first_ensures(s[i]);
    assert(s.contains(s[i]));
}

/// Appending an element that a sequence without duplicates does not hold
/// leaves one without duplicates that holds that element besides.
pub proof fn lemma_push_distinct<A>(s: Seq<A>, x: A)
    requires
        s.no_duplicates(),
        !s.contains(x),
    ensures
        s.push(x).no_duplicates(),
        forall|y: A| s.push(x).contains(y) <==> (s.contains(y) || y == x),
{
    let p = s.push(x);
    assert forall|y: A| p.contains(y) <==> (s.contains(y) || y == x) by {
        if s.contains(y) {
            let k = choose|k: int| 0 <= k < s.len() && s[k] == y;
            assert(p[k] == y);
        }
        if y == x {
            assert(p[s.len() as int] == y);
        }
        if p.contains(y) {
            let k = choose|k: int| 0 <= k < p.len() && p[k] == y;
            if k < s.len() {
                assert(s[k] == y);
            }
        }
    }
    assert forall|a: int, b: int| 0 <= a < p.len() && 0 <= b < p.len() && a != b implies p[a]
        != p[b] by {
        if a == s.len() {
            assert(s[b] == p[b]);
            assert(s.contains(p[b]));
        } else if b == s.len() {
            assert(s[a] == p[a]);
            assert(s.contains(p[a]));
        }
    }
}

/// In a sequence without duplicates, the index of the element at `i` is `i`.
pub proof fn lemma_index_of<A>(s: Seq<A>, i: int)
    requires
        s.no_duplicates(),
        0 <= i < s.len(),
    ensures
        s.contains(s[i]),
        s.index_of(s[i]) == i,
{
    assert(s.contains(s[i]));
    let k = s.index_of(s[i]);
    assert(0 <= k < s.len() && s[k] == s[i]);
}

} // verus!
