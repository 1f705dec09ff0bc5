//! The re-sequencing laws a fork-join scheduler relies on.
//!
//! `DataProducer::split_at` guarantees that the two halves are exactly the
//! subranges of the original view on either side of the split index.  The
//! lemmas here lift that guarantee to whole split trees: however a view is
//! cut into contiguous leaves, concatenating the leaves' sequences left to
//! right reproduces the original sequence, so a scheduler that merges leaf
//! results in index order recovers the serial iteration exactly.

use vstd::prelude::*;

verus! {

/// `cuts` bounds a partition of `[0, s.len())` into contiguous ranges: it
/// starts at zero, ends at the length, and never decreases.  This is the
/// shape of the index set that any sequence of recursive `split_at` calls
/// produces.
pub open spec fn is_partition<T>(s: Seq<Option<T>>, cuts: Seq<int>) -> bool {
    &&& cuts.len() >= 1
    &&& cuts[0] == 0
    &&& cuts[cuts.len() - 1] == s.len()
    &&& forall|i: int, j: int| 0 <= i <= j < cuts.len() ==> cuts[i] <= cuts[j]
}

/// The leaf sequences of a partition: the contiguous subranges of `s`
/// between consecutive cut points, in left-to-right order.
pub open spec fn leaves_of<T>(s: Seq<Option<T>>, cuts: Seq<int>) -> Seq<Seq<Option<T>>> {
    Seq::new((cuts.len() - 1) as nat, |i: int| s.subrange(cuts[i], cuts[i + 1]))
}

/// Splitting is associative: for any partition of `[0, s.len())` into
/// contiguous leaves, concatenating all leaf sequences left to right
/// equals the original sequence, regardless of the split points chosen.
pub proof fn lemma_partition_concat<T>(s: Seq<Option<T>>, cuts: Seq<int>)
    requires
        is_partition(s, cuts),
    ensures
        leaves_of(s, cuts).flatten() == s,
    decreases cuts.len(),
{
    let leaves = leaves_of(s, cuts);
    if cuts.len() == 1 {
        assert(s =~= Seq::<Option<T>>::empty());
        assert(leaves.flatten() == s);
    } else {
        let c1 = cuts[1];
        let s1 = s.subrange(c1, s.len() as int);
        let cuts1 = Seq::new((cuts.len() - 1) as nat, |i: int| cuts[i + 1] - c1);
        assert(is_partition(s1, cuts1));
        lemma_partition_concat(s1, cuts1);
        let tail = leaves_of(s1, cuts1);
        assert forall|i: int| 0 <= i < tail.len() implies leaves.drop_first()[i] == tail[i] by {
            assert(leaves.drop_first()[i] =~= tail[i]);
        }
        assert(leaves.drop_first() =~= tail);
        assert(leaves.flatten() == leaves.first() + tail.flatten());
        assert(leaves.first() + s1 =~= s);
    }
}

/// The starting point of every split tree: before any split there is one
/// leaf covering the whole view, and that is a partition.
pub proof fn lemma_trivial_partition<T>(s: Seq<Option<T>>)
    ensures
        is_partition(s, seq![0, s.len() as int]),
        leaves_of(s, seq![0, s.len() as int]) == seq![s],
{
    let cuts: Seq<int> = seq![0, s.len() as int];
    assert(leaves_of(s, cuts)[0] =~= s);
    assert(leaves_of(s, cuts) =~= seq![s]);
}

/// Each `split_at` call refines the partition: dividing one leaf at an
/// in-range index inserts one cut point between that leaf's bounds, and
/// the result is again a partition of the same view.  Together with
/// `lemma_trivial_partition` and `lemma_partition_concat`, this shows that
/// any sequence of recursive splits, to any depth, reproduces the original
/// sequence when the leaves are concatenated in order.
pub proof fn lemma_insert_cut<T>(s: Seq<Option<T>>, cuts: Seq<int>, i: int, k: int)
    requires
        is_partition(s, cuts),
        0 <= i < cuts.len() - 1,
        cuts[i] <= k <= cuts[i + 1],
    ensures
        is_partition(s, cuts.insert(i + 1, k)),
{
    let cuts2 = cuts.insert(i + 1, k);
    assert forall|a: int, b: int| 0 <= a <= b < cuts2.len() implies cuts2[a] <= cuts2[b] by {
        if a <= i + 1 <= b {
            assert(cuts2[a] <= k <= cuts2[b]);
        }
    }
}

/// The two extreme splits: at index zero the left half is empty and the
/// right half is the whole sequence; at the full length the case is
/// symmetric.  `split_at` gives its halves as exactly these subranges, so
/// this lemma pins both boundary splits.
pub proof fn lemma_split_at_extremes<T>(s: Seq<Option<T>>)
    ensures
        s.subrange(0, 0) == Seq::<Option<T>>::empty(),
        s.subrange(0, s.len() as int) == s,
{
    assert(s.subrange(0, 0) =~= Seq::<Option<T>>::empty());
    assert(s.subrange(0, s.len() as int) =~= s);
}

} // verus!
