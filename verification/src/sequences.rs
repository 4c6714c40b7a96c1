//! Facts about filtered sequences.
use vstd::prelude::*;

verus! {

/// What a filter leaves passes it, and stood in the sequence.
pub proof fn lemma_kept<A>(s: Seq<A>, keep: spec_fn(A) -> bool, i: int)
    requires
        0 <= i < s.filter(keep).len(),
    ensures
        keep(s.filter(keep)[i]),
        s.contains(s.filter(keep)[i]),
    decreases s.len(),
{
    reveal(Seq::filter);
    if s.len() > 0 {
        let shorter = s.drop_last();
        if i < shorter.filter(keep).len() {
            lemma_kept(shorter, keep, i);
            let k = choose|k: int| 0 <= k < shorter.len() && shorter[k] == shorter.filter(keep)[i];
            assert(s[k] == s.filter(keep)[i]);
        } else {
            assert(s[s.len() - 1] == s.filter(keep)[i]);
        }
    }
}

/// What stands in a sequence and passes a filter is left by it.
pub proof fn lemma_passes<A>(s: Seq<A>, keep: spec_fn(A) -> bool, i: int)
    requires
        0 <= i < s.len(),
        keep(s[i]),
    ensures
        s.filter(keep).contains(s[i]),
    decreases s.len(),
{
    reveal(Seq::filter);
    let shorter = s.drop_last();
    let left = s.filter(keep);
    if i == s.len() - 1 {
        assert(left[left.len() - 1] == s[i]);
    } else {
        lemma_passes(shorter, keep, i);
        let k = choose|k: int|
            0 <= k < shorter.filter(keep).len() && shorter.filter(keep)[k] == shorter[i];
        assert(left[k] == s[i]);
    }
}

/// Where nothing passes a filter, nothing is left.
pub proof fn lemma_none_passes<A>(s: Seq<A>, keep: spec_fn(A) -> bool)
    requires
        forall|i: int| 0 <= i < s.len() ==> !keep(#[trigger] s[i]),
    ensures
        s.filter(keep) == Seq::<A>::empty(),
    decreases s.len(),
{
    reveal(Seq::filter);
    if s.len() > 0 {
        assert forall|i: int| 0 <= i < s.drop_last().len() implies !keep(
            #[trigger] s.drop_last()[i],
        ) by {
            assert(s.drop_last()[i] == s[i]);
        }
        lemma_none_passes(s.drop_last(), keep);
    }
}

/// Where one place alone passes a filter, what stands there is all that is left.
pub proof fn lemma_one_passes<A>(s: Seq<A>, keep: spec_fn(A) -> bool, i: int)
    requires
        0 <= i < s.len(),
        keep(s[i]),
        forall|j: int| 0 <= j < s.len() && j != i ==> !keep(#[trigger] s[j]),
    ensures
        s.filter(keep) == seq![s[i]],
    decreases s.len(),
{
    reveal(Seq::filter);
    let shorter = s.drop_last();
    if i == s.len() - 1 {
        lemma_none_passes(shorter, keep);
        assert(s.filter(keep) =~= seq![s[i]]);
    } else {
        lemma_one_passes(shorter, keep, i);
    }
}

/// Where two places pass a filter, two are left.
pub proof fn lemma_two_pass<A>(s: Seq<A>, keep: spec_fn(A) -> bool, i: int, j: int)
    requires
        0 <= i < j < s.len(),
        keep(s[i]),
        keep(s[j]),
    ensures
        s.filter(keep).len() >= 2,
    decreases s.len(),
{
    reveal(Seq::filter);
    let shorter = s.drop_last();
    if j == s.len() - 1 {
        lemma_passes(shorter, keep, i);
        assert(shorter.filter(keep).len() >= 1);
    } else {
        lemma_two_pass(shorter, keep, i, j);
    }
}

/// A filter of a filter.
pub proof fn lemma_both_pass<A>(
    s: Seq<A>,
    first: spec_fn(A) -> bool,
    second: spec_fn(A) -> bool,
    both: spec_fn(A) -> bool,
)
    requires
        forall|a: A| #[trigger] both(a) == (first(a) && second(a)),
    ensures
        s.filter(first).filter(second) == s.filter(both),
    decreases s.len(),
{
    reveal(Seq::filter);
    if s.len() > 0 {
        let shorter = s.drop_last();
        lemma_both_pass(shorter, first, second, both);
        let last = s.last();
        assert(both(last) == (first(last) && second(last)));
        if first(last) {
            assert(s.filter(first).drop_last() =~= shorter.filter(first));
            assert(s.filter(first).last() == last);
        }
    }
}

/// What does not pass a filter can be left out beforehand.
pub proof fn lemma_left_out<A>(s: Seq<A>, keep: spec_fn(A) -> bool, i: int)
    requires
        0 <= i < s.len(),
        !keep(s[i]),
    ensures
        s.remove(i).filter(keep) == s.filter(keep),
    decreases s.len(),
{
    reveal(Seq::filter);
    let shorter = s.drop_last();
    let n = s.len() - 1;
    if i == n {
        assert(s.remove(i) =~= shorter);
    } else {
        lemma_left_out(shorter, keep, i);
        assert(s.remove(i).drop_last() =~= shorter.remove(i));
        assert(s.remove(i).last() == s.last());
    }
}

} // verus!
