use vstd::prelude::*;
use vstd::relations::{sorted_by, total_ordering};
use vstd::seq_lib::lemma_sorted_unique;

verus! {

/// The ascending order on keys.
pub open spec fn key_le(a: i64, b: i64) -> bool {
    a <= b
}

/// `s` in ascending order.
pub open spec fn ascending(s: Seq<i64>) -> Seq<i64> {
    s.sort_by(|a: i64, b: i64| key_le(a, b))
}

/// Position of the lower median in a sorted list of `n` items: `ceil(n / 2) - 1`.
pub open spec fn lower_median_position(n: nat) -> int {
    n / 2 + n % 2 - 1
}

/// The lower median of `s`: for an even length, the smaller of the two middle items.
pub open spec fn lower_median(s: Seq<i64>) -> i64 {
    ascending(s)[lower_median_position(s.len())]
}

proof fn lemma_key_le_total()
    ensures
        total_ordering(|a: i64, b: i64| key_le(a, b)),
{
}

/// The sorted form of `s` is a sorted permutation of it, of the same length.
proof fn lemma_ascending(s: Seq<i64>)
    ensures
        sorted_by(ascending(s), |a: i64, b: i64| key_le(a, b)),
        ascending(s).to_multiset() == s.to_multiset(),
        ascending(s).len() == s.len(),
{
    lemma_key_le_total();
    s.lemma_sort_by_ensures(|a: i64, b: i64| key_le(a, b));
    s.to_multiset_ensures();
    ascending(s).to_multiset_ensures();
}

/// Relies on `slice::sort_unstable`: the slice ends in ascending order and holds
/// the same items as before.
#[verifier::external_body]
fn sort_keys(v: &mut Vec<i64>)
    ensures
        sorted_by(final(v)@, |a: i64, b: i64| key_le(a, b)),
        final(v)@.to_multiset() == old(v)@.to_multiset(),
{
    v.sort_unstable();
}

/// Position of the lower median in a sorted list of `n` items.
pub fn median_position(n: usize) -> (r: usize)
    requires
        n > 0,
    ensures
        r == lower_median_position(n as nat),
        r < n,
        r == (n - 1) / 2,
{
    n / 2 + n % 2 - 1
}

/// The lower median of `keys`: the item at position `ceil(n / 2) - 1` once
/// they are sorted in ascending order.
pub fn median(keys: &Vec<i64>) -> (r: i64)
    requires
        keys@.len() > 0,
    ensures
        r == lower_median(keys@),
        keys@.contains(r),
{
    let mut sorted = keys.clone();
    sort_keys(&mut sorted);
    proof {
        lemma_ascending(keys@);
        lemma_key_le_total();
        lemma_sorted_unique(sorted@, ascending(keys@), |a: i64, b: i64| key_le(a, b));
        keys@.to_multiset_ensures();
        sorted@.to_multiset_ensures();
    }
    let pos = median_position(sorted.len());
    proof {
        assert(sorted@.to_multiset().count(sorted@[pos as int]) > 0);
    }
    sorted[pos]
}

/// Index in `keys` of an item equal to their lower median.
pub fn median_index(keys: &Vec<i64>) -> (r: usize)
    requires
        keys@.len() > 0,
    ensures
        r < keys@.len(),
        keys@[r as int] == lower_median(keys@),
{
    let m = median(keys);
    let mut i: usize = 0;
    while i < keys.len()
        invariant
            i <= keys@.len(),
            keys@.contains(m),
            m == lower_median(keys@),
            forall|j: int| 0 <= j < i ==> keys@[j] != m,
        decreases keys@.len() - i,
    {
        if keys[i] == m {
            return i;
        }
        i = i + 1;
    }
    proof {
        let j = choose|j: int| 0 <= j < keys@.len() && keys@[j] == m;
        assert(keys@[j] != m);
    }
    0
}

/// The lower median depends only on which keys occur and how often, not on
/// their order.
pub proof fn lemma_median_permutation(s: Seq<i64>, t: Seq<i64>)
    requires
        s.to_multiset() == t.to_multiset(),
    ensures
        lower_median(s) == lower_median(t),
        ascending(s) == ascending(t),
{
    lemma_ascending(s);
    lemma_ascending(t);
    lemma_key_le_total();
    lemma_sorted_unique(ascending(s), ascending(t), |a: i64, b: i64| key_le(a, b));
}

/// The lower median of a single key is that key.
pub proof fn lemma_median_single(k: i64)
    ensures
        lower_median(seq![k]) == k,
{
    lemma_ascending(seq![k]);
    broadcast use vstd::multiset::group_multiset_axioms;
    let s = seq![k];
    s.to_multiset_ensures();
    ascending(s).to_multiset_ensures();
    assert(s.to_multiset().contains(ascending(s)[0]));
    assert(s.contains(ascending(s)[0]));
}

} // verus!
