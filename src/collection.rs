//! Strategies for collections of a concrete size, built from strategies for
//! their elements (or keys and values).
//!
//! The size is a plain number fixed when the strategy is made: a symbolic
//! size would defeat the engine's exploration. Ordered collections draw their
//! keys in non-decreasing order, each new key assumed no smaller than the last,
//! so that permutations of one collection are not explored as separate paths.
//! Equal keys coalesce, so an ordered collection may hold fewer entries than
//! its size.
use crate::annotations::{verifier_assume, Halt, Path};
use crate::queue::PriorityQueue;
use crate::scalar::Scalar;
use crate::strategy::{draw_seq, draws, halts_within, lemma_draws_push, Strategy};
use std::collections::{BTreeMap, BTreeSet, VecDeque};
use vstd::prelude::*;

verus! {

/// Each key is no smaller than any before it.
pub open spec fn nondecreasing<K: Scalar>(keys: Seq<K>) -> bool {
    forall|i: int, j: int| 0 <= i < j < keys.len() ==> keys[i].to_int() <= keys[j].to_int()
}

/// How drawing ordered keys from `s` ends silently: after `keys`, at most `n`
/// of them and in order, the next draw halts, or gives a smaller key and the
/// assumption prunes.
pub open spec fn ordered_halt<S: Strategy>(
    s: S,
    n: nat,
    input: Seq<u128>,
    h: Halt,
    rest: Seq<u128>,
) -> bool where S::Value: Scalar {
    exists|keys: Seq<S::Value>, mid: Seq<u128>|
        {
            &&& keys.len() <= n
            &&& #[trigger] draws(s, input, keys, mid)
            &&& nondecreasing(keys)
            &&& halt_after(s, keys, mid, h, rest)
        }
}

/// After `keys`, the next key drawn from `mid` halts or breaks the order.
pub open spec fn halt_after<S: Strategy>(
    s: S,
    keys: Seq<S::Value>,
    mid: Seq<u128>,
    h: Halt,
    rest: Seq<u128>,
) -> bool where S::Value: Scalar {
    ||| s.yields(mid, Err(h), rest)
    ||| h == Halt::Pruned && keys.len() > 0 && exists|x: S::Value|
        #[trigger] s.yields(mid, Ok(x), rest) && x.to_int() < keys.last().to_int()
}

/// Draws `n + 1` keys from `s`, each assumed no smaller than the one before.
pub fn draw_ordered<S: Strategy>(s: &S, n: usize, path: &mut Path) -> (r: Result<Vec<S::Value>, Halt>) where
    S::Value: Scalar,
    requires
        s.ready(),
        old(path).wf(),
        n < usize::MAX,
    ensures
        final(path).wf(),
        final(path).is_replay() == old(path).is_replay(),
        match r {
            Ok(keys) => {
                &&& keys@.len() == n + 1
                &&& draws(*s, old(path)@, keys@, final(path)@)
                &&& nondecreasing(keys@)
            },
            Err(h) => ordered_halt(*s, n as nat, old(path)@, h, final(path)@),
        },
{
    let ghost input = path@;
    let mut keys: Vec<S::Value> = Vec::new();
    assert(draws(*s, input, keys@, path@));
    let first = match s.value(path) {
        Ok(k) => k,
        Err(h) => {
            assert(halt_after(*s, keys@, input, h, path@));
            assert(ordered_halt(*s, n as nat, input, h, path@));
            return Err(h);
        },
    };
    proof {
        lemma_draws_push(*s, input, keys@, input, first, path@);
    }
    keys.push(first);
    let mut k = first;
    let mut i: usize = 0;
    while i < n
        invariant
            s.ready(),
            path.wf(),
            path.is_replay() == old(path).is_replay(),
            input == old(path)@,
            i <= n,
            keys@.len() == i + 1,
            keys@.last() == k,
            draws(*s, input, keys@, path@),
            nondecreasing(keys@),
        decreases n - i,
    {
        let ghost mid = path@;
        let next = match s.value(path) {
            Ok(x) => x,
            Err(h) => {
                assert(halt_after(*s, keys@, mid, h, path@));
                assert(ordered_halt(*s, n as nat, input, h, path@));
                return Err(h);
            },
        };
        if let Err(h) = verifier_assume(k.leq(next)) {
            assert(halt_after(*s, keys@, mid, h, path@));
            assert(ordered_halt(*s, n as nat, input, h, path@));
            return Err(h);
        }
        proof {
            lemma_draws_push(*s, input, keys@, mid, next, path@);
        }
        keys.push(next);
        k = next;
        i = i + 1;
    }
    Ok(keys)
}

/// Vectors of `size` elements, in the order drawn.
pub struct VecStrategy<S> {
    pub element: S,
    pub size: usize,
}

pub fn vec<S: Strategy>(element: S, size: usize) -> (r: VecStrategy<S>)
    ensures
        r.element == element,
        r.size == size,
{
    VecStrategy { element, size }
}

impl<S: Strategy> Strategy for VecStrategy<S> {
    type Value = Vec<S::Value>;

    open spec fn ready(&self) -> bool {
        self.element.ready()
    }

    open spec fn yields(&self, input: Seq<u128>, out: Result<Vec<S::Value>, Halt>, rest: Seq<u128>) -> bool {
        match out {
            Ok(v) => v@.len() == self.size && draws(self.element, input, v@, rest),
            Err(h) => halts_within(self.element, self.size as nat, input, h, rest),
        }
    }

    fn value(&self, path: &mut Path) -> (r: Result<Vec<S::Value>, Halt>) {
        draw_seq(&self.element, self.size, path)
    }
}

/// Moves `v` into a double-ended queue in reverse order: the queue that
/// putting each element at the front, in order, would give.
fn reversed<T>(v: Vec<T>) -> (d: VecDeque<T>)
    ensures
        d@ == v@.reverse(),
{
    let mut v = v;
    let ghost all = v@;
    let mut d: VecDeque<T> = VecDeque::new();
    assert(v@ + d@.reverse() =~= all);
    while v.len() > 0
        invariant
            v@ + d@.reverse() == all,
        decreases v.len(),
    {
        let ghost before = d@;
        let x = v.pop().unwrap();
        d.push_back(x);
        assert(d@.reverse() =~= seq![x] + before.reverse());
        assert(v@ + d@.reverse() =~= all);
    }
    assert(d@.reverse().reverse() =~= d@);
    assert(all.reverse() =~= d@);
    d
}

/// Double-ended queues of `size` elements, each put at the front as drawn.
pub struct VecDequeStrategy<S> {
    pub element: S,
    pub size: usize,
}

pub fn vec_deque<S: Strategy>(element: S, size: usize) -> (r: VecDequeStrategy<S>)
    ensures
        r.element == element,
        r.size == size,
{
    VecDequeStrategy { element, size }
}

impl<S: Strategy> Strategy for VecDequeStrategy<S> {
    type Value = VecDeque<S::Value>;

    open spec fn ready(&self) -> bool {
        self.element.ready()
    }

    open spec fn yields(&self, input: Seq<u128>, out: Result<VecDeque<S::Value>, Halt>, rest: Seq<u128>) -> bool {
        match out {
            Ok(d) => d@.len() == self.size && draws(self.element, input, d@.reverse(), rest),
            Err(h) => halts_within(self.element, self.size as nat, input, h, rest),
        }
    }

    fn value(&self, path: &mut Path) -> (r: Result<VecDeque<S::Value>, Halt>) {
        let v = draw_seq(&self.element, self.size, path)?;
        let d = reversed(v);
        assert(d@.reverse() =~= v@);
        Ok(d)
    }
}

/// Singly-linked sequences of `size` elements, each put at the front as drawn.
/// The sequence is held in a double-ended queue.
pub struct LinkedListStrategy<S> {
    pub element: S,
    pub size: usize,
}

pub fn linked_list<S: Strategy>(element: S, size: usize) -> (r: LinkedListStrategy<S>)
    ensures
        r.element == element,
        r.size == size,
{
    LinkedListStrategy { element, size }
}

impl<S: Strategy> Strategy for LinkedListStrategy<S> {
    type Value = VecDeque<S::Value>;

    open spec fn ready(&self) -> bool {
        self.element.ready()
    }

    open spec fn yields(&self, input: Seq<u128>, out: Result<VecDeque<S::Value>, Halt>, rest: Seq<u128>) -> bool {
        match out {
            Ok(d) => d@.len() == self.size && draws(self.element, input, d@.reverse(), rest),
            Err(h) => halts_within(self.element, self.size as nat, input, h, rest),
        }
    }

    fn value(&self, path: &mut Path) -> (r: Result<VecDeque<S::Value>, Halt>) {
        let v = draw_seq(&self.element, self.size, path)?;
        let d = reversed(v);
        assert(d@.reverse() =~= v@);
        Ok(d)
    }
}

/// Ordered sets: keys drawn in order, the first `size` of them inserted.
pub struct BTreeSetStrategy<S> {
    pub element: S,
    pub size: usize,
}

pub fn btree_set<S: Strategy>(element: S, size: usize) -> (r: BTreeSetStrategy<S>) where
    S::Value: Scalar,
    ensures
        r.element == element,
        r.size == size,
{
    BTreeSetStrategy { element, size }
}

impl<S: Strategy> Strategy for BTreeSetStrategy<S> where S::Value: Scalar {
    type Value = BTreeSet<S::Value>;

    open spec fn ready(&self) -> bool {
        self.element.ready() && self.size < usize::MAX
    }

    open spec fn yields(&self, input: Seq<u128>, out: Result<BTreeSet<S::Value>, Halt>, rest: Seq<u128>) -> bool {
        match out {
            Ok(set) => exists|keys: Seq<S::Value>|
                {
                    &&& keys.len() == self.size + 1
                    &&& #[trigger] draws(self.element, input, keys, rest)
                    &&& nondecreasing(keys)
                    &&& set@ == keys.take(self.size as int).to_set()
                },
            Err(h) => ordered_halt(self.element, self.size as nat, input, h, rest),
        }
    }

    fn value(&self, path: &mut Path) -> (r: Result<BTreeSet<S::Value>, Halt>) {
        let keys = draw_ordered(&self.element, self.size, path)?;
        proof {
            S::Value::lemma_obeys_cmp();
        }
        let mut set: BTreeSet<S::Value> = BTreeSet::new();
        let mut i: usize = 0;
        while i < self.size
            invariant
                i <= self.size,
                keys@.len() == self.size + 1,
                vstd::laws_cmp::obeys_cmp::<S::Value>(),
                set@ == keys@.take(i as int).to_set(),
            decreases self.size - i,
        {
            set.insert(keys[i]);
            assert(keys@.take(i + 1) =~= keys@.take(i as int).push(keys@[i as int]));
            proof {
                keys@.take(i as int).lemma_push_to_set_commute(keys@[i as int]);
            }
            i = i + 1;
        }
        Ok(set)
    }
}

/// Priority queues: keys drawn in order, the first `size` of them pushed.
/// Because keys come in non-decreasing order, each push appends, and the
/// queue's largest item is the largest key pushed.
pub struct BinaryHeapStrategy<S> {
    pub element: S,
    pub size: usize,
}

pub fn binary_heap<S: Strategy>(element: S, size: usize) -> (r: BinaryHeapStrategy<S>) where
    S::Value: Scalar,
    ensures
        r.element == element,
        r.size == size,
{
    BinaryHeapStrategy { element, size }
}

impl<S: Strategy> Strategy for BinaryHeapStrategy<S> where S::Value: Scalar {
    type Value = PriorityQueue<S::Value>;

    open spec fn ready(&self) -> bool {
        self.element.ready() && self.size < usize::MAX
    }

    open spec fn yields(&self, input: Seq<u128>, out: Result<PriorityQueue<S::Value>, Halt>, rest: Seq<u128>) -> bool {
        match out {
            Ok(q) => q.wf() && exists|keys: Seq<S::Value>|
                {
                    &&& keys.len() == self.size + 1
                    &&& #[trigger] draws(self.element, input, keys, rest)
                    &&& nondecreasing(keys)
                    &&& q@ == keys.take(self.size as int)
                },
            Err(h) => ordered_halt(self.element, self.size as nat, input, h, rest),
        }
    }

    fn value(&self, path: &mut Path) -> (r: Result<PriorityQueue<S::Value>, Halt>) {
        let keys = draw_ordered(&self.element, self.size, path)?;
        let mut q: PriorityQueue<S::Value> = PriorityQueue::new();
        let mut i: usize = 0;
        assert(q@ =~= keys@.take(0));
        while i < self.size
            invariant
                i <= self.size,
                keys@.len() == self.size + 1,
                nondecreasing(keys@),
                q.wf(),
                q@ == keys@.take(i as int),
            decreases self.size - i,
        {
            let k = keys[i];
            let ghost before = q@;
            q.push(k);
            proof {
                let p = choose|p: int|
                    {
                        &&& 0 <= p <= before.len()
                        &&& q@ == before.insert(p, k)
                        &&& forall|j: int| 0 <= j < p ==> before[j].to_int() <= k.to_int()
                        &&& forall|j: int| p <= j < before.len() ==> k.to_int() < before[j].to_int()
                    };
                if p < before.len() {
                    assert(before[p] == keys@[p]);
                    assert(keys@[p].to_int() <= keys@[i as int].to_int());
                }
                assert(q@ =~= keys@.take(i + 1));
            }
            i = i + 1;
        }
        Ok(q)
    }
}

/// The map made by inserting `(keys[i], vals[i])` for each `i < n`, in order:
/// of equal keys the later entry stays.
pub open spec fn entries<K, V>(keys: Seq<K>, vals: Seq<V>, n: int) -> Map<K, V>
    decreases n,
{
    if n <= 0 {
        Map::empty()
    } else {
        entries(keys, vals, n - 1).insert(keys[n - 1], vals[n - 1])
    }
}

/// `keys` (one more than `vals`) and `vals` drawn alternately from `ks` and
/// `vs`: first a key, then for each entry a value and the next key.
pub open spec fn entry_draws<K: Strategy, V: Strategy>(
    ks: K,
    vs: V,
    input: Seq<u128>,
    keys: Seq<K::Value>,
    vals: Seq<V::Value>,
    rest: Seq<u128>,
) -> bool
    decreases vals.len(),
{
    if vals.len() == 0 {
        keys.len() == 1 && ks.yields(input, Ok(keys[0]), rest)
    } else {
        &&& keys.len() == vals.len() + 1
        &&& exists|m1: Seq<u128>, m2: Seq<u128>|
            #![trigger vs.yields(m1, Ok(vals.last()), m2), ks.yields(m2, Ok(keys.last()), rest)]
            {
                &&& entry_draws(ks, vs, input, keys.drop_last(), vals.drop_last(), m1)
                &&& vs.yields(m1, Ok(vals.last()), m2)
                &&& ks.yields(m2, Ok(keys.last()), rest)
            }
    }
}

/// After the entries drawn so far, the next value or key drawn from `mid`
/// halts, or the key breaks the order.
pub open spec fn entry_halt_after<K: Strategy, V: Strategy>(
    ks: K,
    vs: V,
    keys: Seq<K::Value>,
    mid: Seq<u128>,
    h: Halt,
    rest: Seq<u128>,
) -> bool where K::Value: Scalar {
    ||| vs.yields(mid, Err(h), rest)
    ||| exists|v: V::Value, m2: Seq<u128>|
        #[trigger] vs.yields(mid, Ok(v), m2) && halt_after(ks, keys, m2, h, rest)
}

/// How drawing the entries of an ordered map ends silently.
pub open spec fn entry_halt<K: Strategy, V: Strategy>(
    ks: K,
    vs: V,
    n: nat,
    input: Seq<u128>,
    h: Halt,
    rest: Seq<u128>,
) -> bool where K::Value: Scalar {
    ||| ks.yields(input, Err(h), rest)
    ||| exists|keys: Seq<K::Value>, vals: Seq<V::Value>, mid: Seq<u128>|
        {
            &&& vals.len() < n
            &&& #[trigger] entry_draws(ks, vs, input, keys, vals, mid)
            &&& nondecreasing(keys)
            &&& entry_halt_after(ks, vs, keys, mid, h, rest)
        }
}

/// Entries that agree below `n` make the same map.
pub proof fn lemma_entries_prefix<K, V>(
    keys: Seq<K>,
    vals: Seq<V>,
    keys2: Seq<K>,
    vals2: Seq<V>,
    n: int,
)
    requires
        0 <= n <= keys.len(),
        n <= vals.len(),
        n <= keys2.len(),
        n <= vals2.len(),
        forall|j: int| 0 <= j < n ==> keys[j] == keys2[j] && vals[j] == vals2[j],
    ensures
        entries(keys, vals, n) == entries(keys2, vals2, n),
    decreases n,
{
    if n > 0 {
        lemma_entries_prefix(keys, vals, keys2, vals2, n - 1);
    }
}

/// Ordered maps: keys drawn in order, each but the last with a value drawn
/// before the next key, and the first `size` entries inserted.
pub struct BTreeMapStrategy<K, V> {
    pub keys: K,
    pub value: V,
    pub size: usize,
}

pub fn btree_map<K: Strategy, V: Strategy>(keys: K, value: V, size: usize) -> (r: BTreeMapStrategy<
    K,
    V,
>) where K::Value: Scalar
    ensures
        r.keys == keys,
        r.value == value,
        r.size == size,
{
    BTreeMapStrategy { keys, value, size }
}

impl<K: Strategy, V: Strategy> Strategy for BTreeMapStrategy<K, V> where K::Value: Scalar {
    type Value = BTreeMap<K::Value, V::Value>;

    open spec fn ready(&self) -> bool {
        self.keys.ready() && self.value.ready()
    }

    open spec fn yields(&self, input: Seq<u128>, out: Result<Self::Value, Halt>, rest: Seq<u128>) -> bool {
        match out {
            Ok(m) => exists|keys: Seq<K::Value>, vals: Seq<V::Value>|
                {
                    &&& vals.len() == self.size
                    &&& #[trigger] entry_draws(self.keys, self.value, input, keys, vals, rest)
                    &&& nondecreasing(keys)
                    &&& m@ == entries(keys, vals, self.size as int)
                },
            Err(h) => entry_halt(self.keys, self.value, self.size as nat, input, h, rest),
        }
    }

    fn value(&self, path: &mut Path) -> (r: Result<Self::Value, Halt>) {
        let ghost input = path@;
        proof {
            K::Value::lemma_obeys_cmp();
        }
        let mut m: BTreeMap<K::Value, V::Value> = BTreeMap::new();
        let mut k = self.keys.value(path)?;
        let ghost mut keys: Seq<K::Value> = seq![k];
        let ghost mut vals: Seq<V::Value> = Seq::empty();
        assert(m@ =~= entries(keys, vals, 0));
        let mut i: usize = 0;
        while i < self.size
            invariant
                self.ready(),
                path.wf(),
                path.is_replay() == old(path).is_replay(),
                input == old(path)@,
                vstd::laws_cmp::obeys_cmp::<K::Value>(),
                i <= self.size,
                keys.len() == i + 1,
                vals.len() == i,
                keys.last() == k,
                entry_draws(self.keys, self.value, input, keys, vals, path@),
                nondecreasing(keys),
                m@ == entries(keys, vals, i as int),
            decreases self.size - i,
        {
            let ghost m1 = path@;
            let v = match self.value.value(path) {
                Ok(v) => v,
                Err(h) => {
                    assert(entry_halt_after(self.keys, self.value, keys, m1, h, path@));
                    assert(entry_halt(self.keys, self.value, self.size as nat, input, h, path@));
                    return Err(h);
                },
            };
            let ghost m2 = path@;
            let ghost vv = v;
            m.insert(k, v);
            let next = match self.keys.value(path) {
                Ok(x) => x,
                Err(h) => {
                    assert(halt_after(self.keys, keys, m2, h, path@));
                    assert(entry_halt_after(self.keys, self.value, keys, m1, h, path@));
                    assert(entry_halt(self.keys, self.value, self.size as nat, input, h, path@));
                    return Err(h);
                },
            };
            if let Err(h) = verifier_assume(k.leq(next)) {
                assert(halt_after(self.keys, keys, m2, h, path@));
                assert(entry_halt_after(self.keys, self.value, keys, m1, h, path@));
                assert(entry_halt(self.keys, self.value, self.size as nat, input, h, path@));
                return Err(h);
            }
            proof {
                let keys2 = keys.push(next);
                let vals2 = vals.push(vv);
                assert(keys2.drop_last() =~= keys);
                assert(vals2.drop_last() =~= vals);
                assert(vals2.last() == vv && keys2.last() == next);
                assert(entry_draws(self.keys, self.value, input, keys2.drop_last(), vals2.drop_last(), m1));
                assert(self.value.yields(m1, Ok(vals2.last()), m2));
                assert(self.keys.yields(m2, Ok(keys2.last()), path@));
                assert(entry_draws(self.keys, self.value, input, keys2, vals2, path@));
                lemma_entries_prefix(keys, vals, keys2, vals2, i as int);
                assert(m@ == entries(keys2, vals2, i + 1));
                keys = keys2;
                vals = vals2;
            }
            k = next;
            i = i + 1;
        }
        Ok(m)
    }
}

} // verus!
