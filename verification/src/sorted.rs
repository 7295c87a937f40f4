//! Texts in order: the order of the standard library on strings, and lists
//! of texts that are kept strictly ascending.

use vstd::prelude::*;
use crate::text::{chars_of, text_set};

verus! {

/// The order of texts: by the first character in which they differ, a
/// proper prefix before the longer text.
pub open spec fn text_less(a: Seq<char>, b: Seq<char>) -> bool
    decreases a.len(),
{
    if b.len() == 0 {
        false
    } else if a.len() == 0 {
        true
    } else if a[0] != b[0] {
        a[0] < b[0]
    } else {
        text_less(a.drop_first(), b.drop_first())
    }
}

/// The texts of a list ascend strictly.
pub open spec fn strictly_ascending(v: Seq<String>) -> bool {
    forall|i: int, j: int| 0 <= i < j < v.len() ==> text_less(v[i]@, v[j]@)
}

/// Whether `a` comes before `b` in the order of texts.
pub fn text_lt(a: &str, b: &str) -> (r: bool)
    ensures
        r == text_less(a@, b@),
{
    let x = chars_of(a);
    let y = chars_of(b);
    let mut i: usize = 0;
    assert(x@.skip(0) =~= x@);
    assert(y@.skip(0) =~= y@);
    while i < x.len() && i < y.len()
        invariant
            i <= x@.len(),
            i <= y@.len(),
            x@ == a@,
            y@ == b@,
            text_less(x@, y@) == text_less(x@.skip(i as int), y@.skip(i as int)),
        decreases x@.len() - i,
    {
        assert(x@.skip(i as int).drop_first() =~= x@.skip(i as int + 1));
        assert(y@.skip(i as int).drop_first() =~= y@.skip(i as int + 1));
        assert(x@.skip(i as int)[0] == x@[i as int]);
        assert(y@.skip(i as int)[0] == y@[i as int]);
        if x[i] != y[i] {
            return x[i] < y[i];
        }
        i += 1;
    }
    i < y.len()
}

/// Of two different texts one comes before the other.
pub proof fn lemma_text_order_total(a: Seq<char>, b: Seq<char>)
    ensures
        a == b || text_less(a, b) || text_less(b, a),
        !(text_less(a, b) && text_less(b, a)),
        !text_less(a, a),
    decreases a.len(),
{
    if a.len() > 0 && b.len() > 0 {
        if a[0] == b[0] {
            lemma_text_order_total(a.drop_first(), b.drop_first());
            if a.drop_first() == b.drop_first() {
                assert(a =~= seq![a[0]] + a.drop_first());
                assert(b =~= seq![b[0]] + b.drop_first());
            }
        }
    } else if a.len() == 0 && b.len() == 0 {
        assert(a =~= b);
    }
    if a.len() > 0 {
        lemma_text_order_irreflexive(a);
    }
}

/// No text comes before itself.
pub proof fn lemma_text_order_irreflexive(a: Seq<char>)
    ensures
        !text_less(a, a),
    decreases a.len(),
{
    if a.len() > 0 {
        lemma_text_order_irreflexive(a.drop_first());
    }
}

/// The order of texts is transitive.
pub proof fn lemma_text_order_transitive(a: Seq<char>, b: Seq<char>, c: Seq<char>)
    requires
        text_less(a, b),
        text_less(b, c),
    ensures
        text_less(a, c),
    decreases a.len(),
{
    if a.len() > 0 && b.len() > 0 && c.len() > 0 {
        if a[0] == b[0] && b[0] == c[0] {
            lemma_text_order_transitive(a.drop_first(), b.drop_first(), c.drop_first());
        }
    }
}

/// Puts `x` into a strictly ascending list at its place; a text that the
/// list holds already is not put in again.
pub fn insert_ascending(v: &mut Vec<String>, x: String)
    requires
        strictly_ascending(old(v)@),
    ensures
        strictly_ascending(final(v)@),
        text_set(final(v)@) == text_set(old(v)@).insert(x@),
{
    let mut p: usize = 0;
    while p < v.len() && text_lt(v[p].as_str(), x.as_str())
        invariant
            p <= v@.len(),
            v@ == old(v)@,
            forall|j: int| 0 <= j < p ==> text_less(#[trigger] v@[j]@, x@),
        decreases v@.len() - p,
    {
        p += 1;
    }
    if p < v.len() && v[p] == x {
        assert(text_set(v@).contains(x@));
        assert(text_set(v@) =~= text_set(v@).insert(x@));
        return ;
    }
    let ghost before = v@;
    proof {
        if p < before.len() {
            lemma_text_order_total(before[p as int]@, x@);
            assert forall|j: int| p <= j < before.len() implies text_less(
                x@,
                #[trigger] before[j]@,
            ) by {
                if j > p {
                    lemma_text_order_transitive(x@, before[p as int]@, before[j]@);
                }
            }
        }
    }
    v.insert(p, x);
    proof {
        assert forall|i: int, j: int| 0 <= i < j < v@.len() implies text_less(v@[i]@, v@[j]@) by {
            if j < p {
                assert(v@[i] == before[i] && v@[j] == before[j]);
            } else if j == p {
                assert(v@[i] == before[i]);
            } else if i < p {
                assert(v@[i] == before[i] && v@[j] == before[j - 1]);
            } else if i == p {
                assert(v@[j] == before[j - 1]);
            } else {
                assert(v@[i] == before[i - 1] && v@[j] == before[j - 1]);
            }
        }
        assert forall|t: Seq<char>| text_set(v@).contains(t) == text_set(before).insert(
            x@,
        ).contains(t) by {
            if text_set(v@).contains(t) {
                let k = choose|k: int| 0 <= k < v@.len() && #[trigger] v@[k]@ == t;
                if k < p {
                    assert(before[k]@ == t);
                } else if k > p {
                    assert(before[k - 1]@ == t);
                }
            }
            if text_set(before).contains(t) {
                let k = choose|k: int| 0 <= k < before.len() && #[trigger] before[k]@ == t;
                if k < p {
                    assert(v@[k]@ == t);
                } else {
                    assert(v@[k + 1]@ == t);
                }
            }
            if t == x@ {
                assert(v@[p as int]@ == t);
            }
        }
        assert(text_set(v@) =~= text_set(before).insert(x@));
    }
}

} // verus!
