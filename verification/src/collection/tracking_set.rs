use vstd::prelude::*;

use std::collections::{BTreeSet, VecDeque};
use vstd::std_specs::cmp::OrdSpec;

verus! {

broadcast use {vstd::laws_cmp::group_laws_cmp, vstd::std_specs::btree::group_btree_axioms};

/// The number of elements of `s` smaller than `x`.
pub open spec fn rank(s: Set<u8>, x: u8) -> nat {
    s.filter(|y: u8| y < x).len()
}

/// Whether `x` is the middle element of `s`: the element with `s.len() / 2` smaller ones.
pub open spec fn is_mid(s: Set<u8>, x: u8) -> bool {
    s.contains(x) && rank(s, x) == s.len() / 2
}

/// A queue of values beside the set of the values pushed since their last removal.
///
/// Values leave in the order they came. Popping a value removes it from the set even
/// where an equal value remains queued, and pushing a value already in the set leaves the
/// set as it is. [`TrackingSet::mid`] gives the middle element of the set.
pub struct TrackingSet {
    queue: VecDeque<u8>,
    tree: BTreeSet<u8>,
}

impl View for TrackingSet {
    /// `(queued values, set)`.
    type V = (Seq<u8>, Set<u8>);

    closed spec fn view(&self) -> (Seq<u8>, Set<u8>) {
        (self.queue@, self.tree@)
    }
}

impl TrackingSet {
    /// An empty [`TrackingSet`].
    pub fn new() -> (r: TrackingSet)
        ensures
            r@ == (Seq::<u8>::empty(), Set::<u8>::empty()),
    {
        TrackingSet { queue: VecDeque::new(), tree: BTreeSet::new() }
    }

    /// The middle element of the set, or `None` if it is empty.
    pub fn mid(&self) -> (r: Option<&u8>)
        ensures
            r is None <==> self@.1.len() == 0,
            r matches Some(x) ==> is_mid(self@.1, *x),
    {
        let skip = self.tree.len() / 2;
        let mut i: usize = 0;
        let ghost s = self.tree@;
        for x in it: self.tree.iter()
            invariant
                i == it.index(),
                skip == s.len() / 2,
                s == self.tree@,
                it.seq().unref().to_set() == s,
                it.seq().no_duplicates(),
                it.seq().len() == s.len(),
                vstd::std_specs::btree::increasing_seq(it.seq()),
                i <= skip,
        {
            if i == skip {
                proof {
                    lemma_increasing_values(it.seq());
                    lemma_rank_in_increasing(it.seq().unref(), i as int);
                }
                return Some(x);
            }
            i = i + 1;
        }
        None
    }

    /// Push `value` at the back of the queue and into the set.
    pub fn push(&mut self, value: u8)
        ensures
            final(self)@ == (old(self)@.0.push(value), old(self)@.1.insert(value)),
    {
        self.queue.push_back(value);
        self.tree.insert(value);
    }

    /// Take the value at the front of the queue and remove it from the set, or return
    /// `None` if the queue is empty.
    pub fn pop(&mut self) -> (r: Option<u8>)
        ensures
            old(self)@.0.len() == 0 ==> r is None && final(self)@ == old(self)@,
            old(self)@.0.len() > 0 ==> {
                &&& r == Some(old(self)@.0[0])
                &&& final(self)@ == (old(self)@.0.drop_first(), old(self)@.1.remove(old(self)@.0[0]))
            },
    {
        let value = match self.queue.pop_front() {
            Some(value) => value,
            None => return None,
        };
        self.tree.remove(&value);
        Some(value)
    }
}

impl Default for TrackingSet {
    fn default() -> (r: TrackingSet)
        ensures
            r@ == (Seq::<u8>::empty(), Set::<u8>::empty()),
    {
        TrackingSet::new()
    }
}

/// The values of an increasing sequence of references to `u8` strictly increase.
proof fn lemma_increasing_values(seq: Seq<&u8>)
    requires
        vstd::std_specs::btree::increasing_seq(seq),
    ensures
        forall|a: int, b: int| 0 <= a < b < seq.len() ==> seq.unref()[a] < seq.unref()[b],
{
    assert(vstd::laws_cmp::obeys_cmp::<u8>());
    assert(vstd::laws_cmp::obeys_cmp::<&u8>());
    vstd::std_specs::btree::axiom_increasing_seq_meaning(seq);
    assert forall|a: int, b: int| 0 <= a < b < seq.len() implies seq.unref()[a] < seq.unref()[b] by {
        assert(OrdSpec::cmp_spec(&seq[a], &seq[b]) is Less);
    }
}

/// In a strictly increasing sequence, the element at position `k` has exactly `k`
/// smaller elements in the set of the sequence's elements.
pub proof fn lemma_rank_in_increasing(seq: Seq<u8>, k: int)
    requires
        0 <= k < seq.len(),
        forall|i: int, j: int| 0 <= i < j < seq.len() ==> seq[i] < seq[j],
    ensures
        rank(seq.to_set(), seq[k]) == k,
        seq.to_set().contains(seq[k]),
{
    let s = seq.to_set();
    let below = seq.subrange(0, k);
    assert(s.filter(|y: u8| y < seq[k]) =~= below.to_set()) by {
        assert forall|y: u8| s.filter(|y: u8| y < seq[k]).contains(y) implies below.to_set().contains(y) by {
            let j = choose|j: int| 0 <= j < seq.len() && seq[j] == y;
            if j >= k {
                assert(seq[k] <= seq[j]);
            }
            assert(below[j] == y);
        }
        assert forall|y: u8| below.to_set().contains(y) implies s.filter(|y: u8| y < seq[k]).contains(y) by {
            let j = choose|j: int| 0 <= j < below.len() && below[j] == y;
            assert(seq[j] == y);
        }
    }
    assert(below.no_duplicates()) by {
        assert forall|i: int, j: int| 0 <= i < below.len() && 0 <= j < below.len() && i != j implies below[i] != below[j] by {
            if i < j {
                assert(seq[i] < seq[j]);
            } else {
                assert(seq[j] < seq[i]);
            }
        }
    }
    below.unique_seq_to_set();
    assert(s.contains(seq[k]));
}

} // verus!
