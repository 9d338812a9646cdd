//! A stable ordering of records by a composite key: two numbers ascending,
//! then two character sequences lexicographically.
//!
//! The views sort albums and tracks by such keys; [`stable_order`] returns
//! the permutation that puts the keys in order, keeping records with equal
//! keys in the order they came in, as a stable sort does.

use vstd::prelude::*;

use crate::text::{Order, lemma_lex_equal, lemma_lex_flip, lemma_lex_transitive, lex, lex_compare};

verus! {

/// A composite sort key.
#[derive(Debug, Clone)]
pub struct SortKey {
    pub major: u64,
    pub minor: u64,
    pub first: Vec<char>,
    pub second: Vec<char>,
}

/// The order of two numbers.
pub open spec fn num_order(a: u64, b: u64) -> Order {
    if a < b {
        Order::Less
    } else if a > b {
        Order::Greater
    } else {
        Order::Equal
    }
}

/// The order of two keys: `major`, then `minor`, then `first`, then
/// `second`.
pub open spec fn key_order(a: SortKey, b: SortKey) -> Order {
    num_order(a.major, b.major).tie_break(num_order(a.minor, b.minor)).tie_break(
        lex(a.first@, b.first@),
    ).tie_break(lex(a.second@, b.second@))
}

/// Whether `a` sorts no later than `b`.
pub open spec fn key_le(a: SortKey, b: SortKey) -> bool {
    key_order(a, b) != Order::Greater
}

/// `key_order` flips with its operands and is transitive, so it is a total
/// preorder.
pub proof fn lemma_key_order(a: SortKey, b: SortKey, c: SortKey)
    ensures
        key_order(b, a) == key_order(a, b).flip(),
        key_le(a, b) && key_le(b, c) ==> key_le(a, c),
{
    lemma_lex_flip(a.first@, b.first@);
    lemma_lex_flip(a.second@, b.second@);
    if key_le(a, b) && key_le(b, c) && a.major == b.major && b.major == c.major && a.minor
        == b.minor && b.minor == c.minor {
        lemma_lex_equal(a.first@, b.first@);
        lemma_lex_equal(b.first@, c.first@);
        lemma_lex_transitive(a.first@, b.first@, c.first@);
        if lex(a.first@, b.first@) == Order::Equal && lex(b.first@, c.first@) == Order::Equal {
            lemma_lex_transitive(a.second@, b.second@, c.second@);
        }
    }
}

/// Compares two keys.
pub fn key_compare(a: &SortKey, b: &SortKey) -> (o: Order)
    ensures
        o == key_order(*a, *b),
{
    if a.major < b.major {
        return Order::Less;
    }
    if a.major > b.major {
        return Order::Greater;
    }
    if a.minor < b.minor {
        return Order::Less;
    }
    if a.minor > b.minor {
        return Order::Greater;
    }
    match lex_compare(&a.first, &b.first) {
        Order::Equal => lex_compare(&a.second, &b.second),
        other => other,
    }
}

/// Whether `idx` lists each of `0..n` exactly once.
pub open spec fn is_permutation(idx: Seq<usize>, n: nat) -> bool {
    &&& idx.len() == n
    &&& forall|i: int| 0 <= i < idx.len() ==> #[trigger] idx[i] < n
    &&& forall|i: int, j: int| 0 <= i < j < idx.len() ==> idx[i] != idx[j]
}

/// Whether `idx` puts `keys` in order, records with equal keys in their
/// input order.
pub open spec fn stably_sorted(keys: Seq<SortKey>, idx: Seq<usize>) -> bool {
    forall|i: int, j: int|
        0 <= i < j < idx.len() ==> {
            let o = key_order(keys[#[trigger] idx[i] as int], keys[#[trigger] idx[j] as int]);
            o == Order::Less || (o == Order::Equal && idx[i] < idx[j])
        }
}

/// The permutation of `keys`' indices that sorts them stably.
pub fn stable_order(keys: &Vec<SortKey>) -> (idx: Vec<usize>)
    ensures
        is_permutation(idx@, keys@.len()),
        stably_sorted(keys@, idx@),
{
    let n = keys.len();
    let mut idx: Vec<usize> = Vec::new();
    let mut k: usize = 0;
    while k < n
        invariant
            n == keys@.len(),
            k <= n,
            idx@.len() == k,
            forall|i: int| 0 <= i < idx@.len() ==> #[trigger] idx@[i] < k,
            forall|i: int, j: int| 0 <= i < j < idx@.len() ==> idx@[i] != idx@[j],
            stably_sorted(keys@, idx@),
        decreases n - k,
    {
        let mut p: usize = idx.len();
        while p > 0 && key_compare(&keys[idx[p - 1]], &keys[k]) == Order::Greater
            invariant
                n == keys@.len(),
                k < n,
                p <= idx@.len(),
                forall|i: int| 0 <= i < idx@.len() ==> #[trigger] idx@[i] < k,
                forall|q: int|
                    p <= q < idx@.len() ==> key_order(keys@[#[trigger] idx@[q] as int], keys@[k as int])
                        == Order::Greater,
            decreases p,
        {
            p = p - 1;
        }
        let ghost old_idx = idx@;
        let ghost x = keys@[k as int];
        proof {
            // Everything left of `p` sorts no later than the new key.
            assert forall|q: int| 0 <= q < p implies key_le(keys@[#[trigger] old_idx[q] as int], x) by {
                lemma_key_order(keys@[old_idx[q] as int], keys@[old_idx[p - 1] as int], x);
                if q < p - 1 {
                    assert(key_le(keys@[old_idx[q] as int], keys@[old_idx[p - 1] as int]));
                }
            }
        }
        idx.insert(p, k);
        proof {
            assert forall|q: int| 0 <= q < idx@.len() implies #[trigger] idx@[q] == if q < p {
                old_idx[q]
            } else if q == p {
                k
            } else {
                old_idx[q - 1]
            } by {}
            assert forall|i: int, j: int| 0 <= i < j < idx@.len() implies {
                let o = key_order(keys@[#[trigger] idx@[i] as int], keys@[#[trigger] idx@[j] as int]);
                o == Order::Less || (o == Order::Equal && idx@[i] < idx@[j])
            } by {
                if j < p {
                } else if j == p {
                    assert(key_le(keys@[old_idx[i] as int], x));
                } else if i < p {
                    let a = keys@[old_idx[i] as int];
                    let b = keys@[old_idx[j - 1] as int];
                    assert(stably_sorted(keys@, old_idx));
                    assert(idx@[i] == old_idx[i] && idx@[j] == old_idx[j - 1]);
                } else if i == p {
                    lemma_key_order(keys@[old_idx[j - 1] as int], x, x);
                } else {
                    assert(idx@[i] == old_idx[i - 1] && idx@[j] == old_idx[j - 1]);
                }
            }
        }
        k = k + 1;
    }
    idx
}

} // verus!
