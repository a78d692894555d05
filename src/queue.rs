//! A priority queue of integers: `pop` hands out the largest item.
use crate::collection::nondecreasing;
use crate::scalar::Scalar;
use vstd::prelude::*;

verus! {

/// Items kept in non-decreasing order, so that the largest is last.
pub struct PriorityQueue<K> {
    items: Vec<K>,
}

impl<K: Scalar> View for PriorityQueue<K> {
    type V = Seq<K>;

    /// The items, smallest first.
    closed spec fn view(&self) -> Seq<K> {
        self.items@
    }
}

impl<K: Scalar> PriorityQueue<K> {
    pub closed spec fn wf(&self) -> bool {
        nondecreasing(self.items@)
    }

    pub fn new() -> (q: Self)
        ensures
            q.wf(),
            q@ == Seq::<K>::empty(),
    {
        PriorityQueue { items: Vec::new() }
    }

    pub fn len(&self) -> (n: usize)
        ensures
            n == self@.len(),
    {
        self.items.len()
    }

    /// Adds `k` after every item no larger than it and before every larger one.
    pub fn push(&mut self, k: K)
        requires
            old(self).wf(),
        ensures
            final(self).wf(),
            exists|p: int|
                {
                    &&& 0 <= p <= old(self)@.len()
                    &&& final(self)@ == old(self)@.insert(p, k)
                    &&& forall|j: int| 0 <= j < p ==> old(self)@[j].to_int() <= k.to_int()
                    &&& forall|j: int| p <= j < old(self)@.len() ==> k.to_int() < old(self)@[j].to_int()
                },
    {
        let mut p = self.items.len();
        while p > 0 && k.less(self.items[p - 1])
            invariant
                self == old(self),
                p <= self.items@.len(),
                forall|j: int| p <= j < self.items@.len() ==> k.to_int() < self.items@[j].to_int(),
            decreases p,
        {
            p = p - 1;
        }
        let ghost before = self.items@;
        assert forall|j: int| 0 <= j < p implies before[j].to_int() <= k.to_int() by {
            assert(before[j].to_int() <= before[p - 1].to_int());
        }
        self.items.insert(p, k);
        assert(before == old(self)@);
        assert({
            &&& 0 <= p <= old(self)@.len()
            &&& self@ == old(self)@.insert(p as int, k)
            &&& forall|j: int| 0 <= j < p ==> old(self)@[j].to_int() <= k.to_int()
            &&& forall|j: int| p <= j < old(self)@.len() ==> k.to_int() < old(self)@[j].to_int()
        });
        assert forall|i: int, j: int| 0 <= i < j < self.items@.len() implies self.items@[i].to_int()
            <= self.items@[j].to_int() by {
            if p > 0 {
                assert(before[p - 1].to_int() <= k.to_int());
            }
        }
    }

    /// The largest item, if any.
    pub fn peek(&self) -> (r: Option<K>)
        requires
            self.wf(),
        ensures
            self@.len() == 0 ==> r is None,
            self@.len() > 0 ==> r == Some(self@.last()),
            forall|j: int| 0 <= j < self@.len() ==> self@[j].to_int() <= r->Some_0.to_int(),
    {
        if self.items.len() == 0 {
            None
        } else {
            Some(self.items[self.items.len() - 1])
        }
    }

    /// Removes and returns the largest item, if any.
    pub fn pop(&mut self) -> (r: Option<K>)
        requires
            old(self).wf(),
        ensures
            final(self).wf(),
            old(self)@.len() == 0 ==> r is None && final(self)@ == old(self)@,
            old(self)@.len() > 0 ==> r == Some(old(self)@.last()) && final(self)@
                == old(self)@.drop_last(),
            forall|j: int| 0 <= j < old(self)@.len() ==> old(self)@[j].to_int() <= r->Some_0.to_int(),
    {
        let r = self.items.pop();
        assert(self.items@ =~= old(self)@.drop_last() || old(self)@.len() == 0);
        r
    }

    /// The items, smallest first.
    pub fn to_vec(&self) -> (v: Vec<K>)
        ensures
            v@ == self@,
    {
        let mut v: Vec<K> = Vec::new();
        let mut i: usize = 0;
        while i < self.items.len()
            invariant
                i <= self.items@.len(),
                v@ == self.items@.take(i as int),
            decreases self.items@.len() - i,
        {
            v.push(self.items[i]);
            i = i + 1;
            assert(v@ =~= self.items@.take(i as int));
        }
        assert(v@ =~= self.items@);
        v
    }
}

} // verus!
