use vstd::prelude::*;

verus! {

/// Two truncated values agree when both are numbers and they are equal;
/// `None` stands for a value that is not a number and agrees with nothing.
pub open spec fn agree(a: Option<i64>, b: Option<i64>) -> bool {
    a is Some && a == b
}

/// Every two truncated values of `t` agree.
pub open spec fn all_agree(t: Seq<Option<i64>>) -> bool {
    forall|i: int, j: int| 0 <= i < j < t.len() ==> agree(#[trigger] t[i], #[trigger] t[j])
}

/// Every value of `t` is a number, the same as the first one.
pub open spec fn all_same_number(t: Seq<Option<i64>>) -> bool {
    forall|i: int| 0 <= i < t.len() ==> (#[trigger] t[i]) is Some && t[i] == t[0]
}

fn agrees(a: Option<i64>, b: Option<i64>) -> (r: bool)
    ensures
        r == agree(a, b),
{
    match (a, b) {
        (Some(x), Some(y)) => x == y,
        _ => false,
    }
}

/// Whether all the truncated values agree, tested on each pair of neighbours.
pub fn truncations_agree(t: &Vec<Option<i64>>) -> (r: bool)
    ensures
        r == all_agree(t@),
{
    let n = t.len();
    if n == 0 {
        return true;
    }
    let mut i: usize = 1;
    while i < n
        invariant
            1 <= i <= n,
            n == t@.len(),
            forall|a: int, b: int| 0 <= a < b < i ==> agree(#[trigger] t@[a], #[trigger] t@[b]),
        decreases n - i,
    {
        if !agrees(t[i - 1], t[i]) {
            assert(agree(t@[i - 1], t@[i as int]) == false);
            return false;
        }
        assert forall|a: int, b: int| 0 <= a < b < i + 1 implies agree(
            #[trigger] t@[a],
            #[trigger] t@[b],
        ) by {
            if b == i && a < i - 1 {
                assert(agree(t@[a], t@[i - 1]));
            }
        }
        i = i + 1;
    }
    true
}

/// With two or more values, all agree exactly when all are the same number.
pub proof fn lemma_all_agree_same_number(t: Seq<Option<i64>>)
    requires
        t.len() >= 2,
    ensures
        all_agree(t) <==> all_same_number(t),
{
    if all_agree(t) {
        assert forall|i: int| 0 <= i < t.len() implies (#[trigger] t[i]) is Some && t[i] == t[0] by {
            if i > 0 {
                assert(agree(t[0], t[i]));
            } else {
                assert(agree(t[0], t[1]));
            }
        }
    }
    if all_same_number(t) {
        assert forall|i: int, j: int| 0 <= i < j < t.len() implies agree(
            #[trigger] t[i],
            #[trigger] t[j],
        ) by {
            assert(t[i] == t[0]);
            assert(t[j] == t[0]);
        }
    }
}

/// Whether the truncated values all agree does not depend on their order.
pub proof fn lemma_agreement_permutation(s: Seq<Option<i64>>, t: Seq<Option<i64>>)
    requires
        s.to_multiset() == t.to_multiset(),
    ensures
        all_agree(s) == all_agree(t),
{
    s.to_multiset_ensures();
    t.to_multiset_ensures();
    assert(s.len() == t.len());
    if s.len() >= 2 {
        lemma_all_agree_same_number(s);
        lemma_all_agree_same_number(t);
        if all_same_number(s) {
            lemma_same_number_moves(s, t);
        }
        if all_same_number(t) {
            lemma_same_number_moves(t, s);
        }
    }
}

proof fn lemma_same_number_moves(s: Seq<Option<i64>>, t: Seq<Option<i64>>)
    requires
        s.to_multiset() == t.to_multiset(),
        s.len() >= 1,
        t.len() >= 1,
        all_same_number(s),
    ensures
        all_same_number(t),
{
    s.to_multiset_ensures();
    t.to_multiset_ensures();
    assert forall|j: int| 0 <= j < t.len() implies (#[trigger] t[j]) is Some && t[j] == t[0] by {
        assert(t.to_multiset().count(t[j]) > 0);
        assert(s.contains(t[j]));
        assert(t.to_multiset().count(t[0]) > 0);
        assert(s.contains(t[0]));
    }
}

} // verus!
