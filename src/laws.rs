//! What holds of strategies across all paths.
use crate::annotations::{head, tail, Halt};
use crate::collection::{
    entries, entry_draws, nondecreasing, BTreeMapStrategy, BTreeSetStrategy, BinaryHeapStrategy,
    VecStrategy,
};
use crate::scalar::Scalar;
use crate::queue::PriorityQueue;
use crate::strategy::{draws, Filter, Mapped, Strategy, Union};
use vstd::prelude::*;

verus! {

/// `v` is drawn from `s` on some path.
pub open spec fn can_yield<S: Strategy>(s: S, v: S::Value) -> bool {
    exists|input: Seq<u128>, rest: Seq<u128>| #[trigger] s.yields(input, Ok(v), rest)
}

/// A half-open range `lo..hi` with `lo <= hi` draws exactly the values `v`
/// of its type with `lo <= v < hi`: no other value survives on any path, and
/// each such value is drawn on some path.
pub proof fn range_yields_exactly<T: Scalar>(lo: T, hi: T, v: T)
    requires
        lo.to_int() <= hi.to_int(),
    ensures
        can_yield(lo..hi, v) <==> lo.to_int() <= v.to_int() < hi.to_int(),
{
    let r = lo..hi;
    if lo.to_int() <= v.to_int() < hi.to_int() {
        let input = seq![v.to_bits()];
        T::lemma_from_to_bits(v);
        assert(head(input) == v.to_bits());
        assert(r.yields(input, Ok(v), tail(input)));
    }
}

/// Every value that `s` draws from `input` in `draws` may be drawn from `s`.
pub proof fn lemma_draws_each<S: Strategy>(s: S, input: Seq<u128>, vals: Seq<S::Value>, rest: Seq<u128>)
    requires
        draws(s, input, vals, rest),
    ensures
        forall|i: int| 0 <= i < vals.len() ==> can_yield(s, #[trigger] vals[i]),
    decreases vals.len(),
{
    if vals.len() > 0 {
        let mid = choose|mid: Seq<u128>|
            draws(s, input, vals.drop_last(), mid) && #[trigger] s.yields(mid, Ok(vals.last()), rest);
        lemma_draws_each(s, input, vals.drop_last(), mid);
        assert forall|i: int| 0 <= i < vals.len() implies can_yield(s, #[trigger] vals[i]) by {
            if i < vals.len() - 1 {
                assert(vals[i] == vals.drop_last()[i]);
            } else {
                assert(s.yields(mid, Ok(vals[i]), rest));
            }
        }
    }
}

/// A vector strategy of size `n` draws vectors of exactly `n` elements, each
/// one its element strategy may draw.
pub proof fn vec_has_size_and_domain<S: Strategy>(
    st: VecStrategy<S>,
    input: Seq<u128>,
    v: Vec<S::Value>,
    rest: Seq<u128>,
)
    requires
        st.yields(input, Ok(v), rest),
    ensures
        v@.len() == st.size,
        forall|i: int| 0 <= i < v@.len() ==> can_yield(st.element, #[trigger] v@[i]),
{
    lemma_draws_each(st.element, input, v@, rest);
}

/// An ordered set strategy of size `n` draws sets of at most `n` keys, each
/// one its element strategy may draw.
pub proof fn btree_set_bounded<S: Strategy>(
    st: BTreeSetStrategy<S>,
    input: Seq<u128>,
    set: std::collections::BTreeSet<S::Value>,
    rest: Seq<u128>,
) where S::Value: Scalar
    requires
        st.yields(input, Ok(set), rest),
    ensures
        set@.len() <= st.size,
        forall|k: S::Value| set@.contains(k) ==> can_yield(st.element, k),
{
    let keys = choose|keys: Seq<S::Value>|
        {
            &&& keys.len() == st.size + 1
            &&& #[trigger] draws(st.element, input, keys, rest)
            &&& nondecreasing(keys)
            &&& set@ == keys.take(st.size as int).to_set()
        };
    keys.take(st.size as int).lemma_cardinality_of_set();
    lemma_draws_each(st.element, input, keys, rest);
    assert forall|k: S::Value| set@.contains(k) implies can_yield(st.element, k) by {
        let i = choose|i: int| 0 <= i < st.size && keys.take(st.size as int)[i] == k;
        assert(keys[i] == k);
    }
}

/// A priority queue strategy of size `n` draws queues of exactly `n` keys,
/// each one its element strategy may draw, pushed in non-decreasing order: the
/// last key pushed is the largest, and it is the one `pop` hands out.
pub proof fn binary_heap_max_is_last<S: Strategy>(
    st: BinaryHeapStrategy<S>,
    input: Seq<u128>,
    q: crate::queue::PriorityQueue<S::Value>,
    rest: Seq<u128>,
) where S::Value: Scalar
    requires
        st.yields(input, Ok(q), rest),
    ensures
        q.wf(),
        q@.len() == st.size,
        forall|i: int| 0 <= i < q@.len() ==> can_yield(st.element, #[trigger] q@[i]),
        st.size > 0 ==> forall|i: int| 0 <= i < q@.len() ==> #[trigger] q@[i].to_int() <= q@.last().to_int(),
{
    let keys = choose|keys: Seq<S::Value>|
        {
            &&& keys.len() == st.size + 1
            &&& #[trigger] draws(st.element, input, keys, rest)
            &&& nondecreasing(keys)
            &&& q@ == keys.take(st.size as int)
        };
    lemma_draws_each(st.element, input, keys, rest);
    assert forall|i: int| 0 <= i < q@.len() implies can_yield(st.element, #[trigger] q@[i]) by {
        assert(q@[i] == keys[i]);
    }
    if st.size > 0 {
        assert forall|i: int| 0 <= i < q@.len() implies #[trigger] q@[i].to_int() <= q@.last().to_int() by {
            assert(q@[i] == keys[i]);
            assert(q@.last() == keys[st.size - 1]);
        }
    }
}

/// The keys of `entries(keys, vals, n)` are the first `n` keys.
pub proof fn lemma_entries_dom<K, V>(keys: Seq<K>, vals: Seq<V>, n: int)
    requires
        0 <= n <= keys.len(),
        n <= vals.len(),
    ensures
        entries(keys, vals, n).dom() == keys.take(n).to_set(),
        forall|k: K| #[trigger] entries(keys, vals, n).contains_key(k) ==> exists|j: int|
            0 <= j < n && keys[j] == k && entries(keys, vals, n)[k] == vals[j],
    decreases n,
{
    if n == 0 {
        assert(keys.take(0).to_set() =~= Set::<K>::empty());
        assert(entries(keys, vals, 0).dom() =~= Set::<K>::empty());
    } else {
        lemma_entries_dom(keys, vals, n - 1);
        assert(keys.take(n) =~= keys.take(n - 1).push(keys[n - 1]));
        keys.take(n - 1).lemma_push_to_set_commute(keys[n - 1]);
        assert(entries(keys, vals, n).dom() =~= keys.take(n).to_set());
        assert forall|k: K| #[trigger] entries(keys, vals, n).contains_key(k) implies exists|j: int|
            0 <= j < n && keys[j] == k && entries(keys, vals, n)[k] == vals[j] by {
            if k != keys[n - 1] {
                assert(entries(keys, vals, n - 1).contains_key(k));
                let j = choose|j: int|
                    0 <= j < n - 1 && keys[j] == k && entries(keys, vals, n - 1)[k] == vals[j];
                assert(entries(keys, vals, n)[k] == vals[j]);
            } else {
                assert(entries(keys, vals, n)[k] == vals[n - 1]);
            }
        }
    }
}

/// Every key and value of `entry_draws` may be drawn from its strategy.
pub proof fn lemma_entry_draws_each<K: Strategy, V: Strategy>(
    ks: K,
    vs: V,
    input: Seq<u128>,
    keys: Seq<K::Value>,
    vals: Seq<V::Value>,
    rest: Seq<u128>,
)
    requires
        entry_draws(ks, vs, input, keys, vals, rest),
    ensures
        keys.len() == vals.len() + 1,
        forall|i: int| 0 <= i < keys.len() ==> can_yield(ks, #[trigger] keys[i]),
        forall|i: int| 0 <= i < vals.len() ==> can_yield(vs, #[trigger] vals[i]),
    decreases vals.len(),
{
    if vals.len() == 0 {
        assert forall|i: int| 0 <= i < keys.len() implies can_yield(ks, #[trigger] keys[i]) by {
            assert(ks.yields(input, Ok(keys[i]), rest));
        }
    } else {
        let (m1, m2) = choose|m1: Seq<u128>, m2: Seq<u128>|
            #![trigger vs.yields(m1, Ok(vals.last()), m2), ks.yields(m2, Ok(keys.last()), rest)]
            {
                &&& entry_draws(ks, vs, input, keys.drop_last(), vals.drop_last(), m1)
                &&& vs.yields(m1, Ok(vals.last()), m2)
                &&& ks.yields(m2, Ok(keys.last()), rest)
            };
        lemma_entry_draws_each(ks, vs, input, keys.drop_last(), vals.drop_last(), m1);
        assert forall|i: int| 0 <= i < keys.len() implies can_yield(ks, #[trigger] keys[i]) by {
            if i < keys.len() - 1 {
                assert(keys[i] == keys.drop_last()[i]);
            } else {
                assert(ks.yields(m2, Ok(keys[i]), rest));
            }
        }
        assert forall|i: int| 0 <= i < vals.len() implies can_yield(vs, #[trigger] vals[i]) by {
            if i < vals.len() - 1 {
                assert(vals[i] == vals.drop_last()[i]);
            } else {
                assert(vs.yields(m1, Ok(vals[i]), m2));
            }
        }
    }
}

/// An ordered map strategy of size `n` draws maps of at most `n` entries,
/// each key one its key strategy may draw and each value one its value
/// strategy may draw.
pub proof fn btree_map_bounded<K: Strategy, V: Strategy>(
    st: BTreeMapStrategy<K, V>,
    input: Seq<u128>,
    m: std::collections::BTreeMap<K::Value, V::Value>,
    rest: Seq<u128>,
) where K::Value: Scalar
    requires
        st.yields(input, Ok(m), rest),
    ensures
        m@.dom().len() <= st.size,
        forall|k: K::Value| #[trigger] m@.contains_key(k) ==> can_yield(st.keys, k) && can_yield(st.value, m@[k]),
{
    let (keys, vals) = choose|keys: Seq<K::Value>, vals: Seq<V::Value>|
        {
            &&& vals.len() == st.size
            &&& #[trigger] entry_draws(st.keys, st.value, input, keys, vals, rest)
            &&& nondecreasing(keys)
            &&& m@ == entries(keys, vals, st.size as int)
        };
    lemma_entry_draws_each(st.keys, st.value, input, keys, vals, rest);
    lemma_entries_dom(keys, vals, st.size as int);
    keys.take(st.size as int).lemma_cardinality_of_set();
    assert forall|k: K::Value| #[trigger] m@.contains_key(k) implies can_yield(st.keys, k) && can_yield(
        st.value,
        m@[k],
    ) by {
        let j = choose|j: int|
            0 <= j < st.size && keys[j] == k && entries(keys, vals, st.size as int)[k] == vals[j];
        assert(can_yield(st.keys, keys[j]));
        assert(can_yield(st.value, vals[j]));
    }
}

/// Mapping by `fun` changes nothing but the values: on each path the mapped
/// strategy draws `t` exactly where the source draws some `v` that `fun`
/// maps to `t`, and halts exactly where the source halts.
pub proof fn map_is_pointwise<S: Strategy, T, F: Fn(S::Value) -> T>(
    m: Mapped<S, F>,
    input: Seq<u128>,
    rest: Seq<u128>,
)
    ensures
        forall|t: T|
            #[trigger] m.yields(input, Ok(t), rest) <==> exists|v: S::Value|
                m.source.yields(input, Ok(v), rest) && call_ensures(m.fun, (v,), t),
        forall|h: Halt| #[trigger] m.yields(input, Err(h), rest) <==> m.source.yields(input, Err(h), rest),
{
}

/// A filter never draws a value that its predicate rejects.
pub proof fn filter_keeps_only_accepted<S: Strategy, F: Fn(&S::Value) -> bool>(
    f: Filter<S, F>,
    input: Seq<u128>,
    v: S::Value,
    rest: Seq<u128>,
)
    requires
        f.yields(input, Ok(v), rest),
    ensures
        call_ensures(f.fun, (&v,), true),
        f.source.yields(input, Ok(v), rest),
{
}

/// A union draws exactly the values that either of its two strategies draws.
pub proof fn union_yields_either<S: Strategy>(u: Union<S>, v: S::Value)
    ensures
        can_yield(u, v) <==> can_yield(u.x, v) || can_yield(u.y, v),
{
    if can_yield(u.x, v) {
        let (input, rest) = choose|input: Seq<u128>, rest: Seq<u128>| #[trigger] u.x.yields(input, Ok(v), rest);
        let w = seq![0u128] + input;
        assert(head(w) == 0u128);
        assert(tail(w) =~= input);
        assert(u.yields(w, Ok(v), rest));
    }
    if can_yield(u.y, v) {
        let (input, rest) = choose|input: Seq<u128>, rest: Seq<u128>| #[trigger] u.y.yields(input, Ok(v), rest);
        let w = seq![1u128] + input;
        assert(head(w) == 1u128);
        assert(tail(w) =~= input);
        assert(u.yields(w, Ok(v), rest));
    }
    if can_yield(u, v) {
        let (input, rest) = choose|input: Seq<u128>, rest: Seq<u128>| #[trigger] u.yields(input, Ok(v), rest);
        if (head(input) as u8) % 2 == 0 {
            assert(u.x.yields(tail(input), Ok(v), rest));
        } else {
            assert(u.y.yields(tail(input), Ok(v), rest));
        }
    }
}

/// The words from which a range reads `vals`, one word each.
pub open spec fn words_of<T: Scalar>(vals: Seq<T>) -> Seq<u128> {
    vals.map_values(|v: T| v.to_bits())
}

/// Values of `lo..hi`, one after another, are read from their own words.
pub proof fn lemma_range_draws<T: Scalar>(lo: T, hi: T, vals: Seq<T>, rest: Seq<u128>)
    requires
        forall|i: int| 0 <= i < vals.len() ==> lo.to_int() <= #[trigger] vals[i].to_int() < hi.to_int(),
    ensures
        draws(lo..hi, words_of(vals) + rest, vals, rest),
    decreases vals.len(),
{
    if vals.len() == 0 {
        assert(words_of(vals) + rest =~= rest);
    } else {
        let x = vals.last();
        let init = vals.drop_last();
        let rest2 = seq![x.to_bits()] + rest;
        assert forall|i: int| 0 <= i < init.len() implies lo.to_int() <= #[trigger] init[i].to_int()
            < hi.to_int() by {
            assert(init[i] == vals[i]);
        }
        lemma_range_draws(lo, hi, init, rest2);
        assert(words_of(vals) + rest =~= words_of(init) + rest2);
        T::lemma_from_to_bits(x);
        assert(head(rest2) == x.to_bits());
        assert(tail(rest2) =~= rest);
        assert(lo.to_int() <= vals[vals.len() - 1].to_int() < hi.to_int());
        assert((lo..hi).yields(rest2, Ok(x), rest));
    }
}

/// Draws are independent: a vector strategy over `lo..hi` draws every
/// vector of `n` values of the range, each on some path.
pub proof fn vec_draws_every_combination<T: Scalar>(lo: T, hi: T, n: usize, v: Vec<T>)
    requires
        v@.len() == n,
        forall|i: int| 0 <= i < v@.len() ==> lo.to_int() <= #[trigger] v@[i].to_int() < hi.to_int(),
    ensures
        can_yield(VecStrategy { element: lo..hi, size: n }, v),
{
    lemma_range_draws(lo, hi, v@, Seq::empty());
    let st = VecStrategy { element: lo..hi, size: n };
    assert(st.yields(words_of(v@) + Seq::empty(), Ok(v), Seq::empty()));
}

/// An ordered set strategy over `lo..hi` draws, on some path, the set of the
/// first `n` of any `n + 1` keys of the range in non-decreasing order. Every
/// set of one to `n` keys of the range is such a set (its keys in order, the
/// largest repeated), so each is drawn, fewer than `n` keys included.
pub proof fn btree_set_draws_every_ordered_choice<T: Scalar>(
    lo: T,
    hi: T,
    n: usize,
    keys: Seq<T>,
    set: std::collections::BTreeSet<T>,
)
    requires
        keys.len() == n + 1,
        nondecreasing(keys),
        forall|i: int| 0 <= i < keys.len() ==> lo.to_int() <= #[trigger] keys[i].to_int() < hi.to_int(),
        set@ == keys.take(n as int).to_set(),
    ensures
        can_yield(BTreeSetStrategy { element: lo..hi, size: n }, set),
{
    lemma_range_draws(lo, hi, keys, Seq::empty());
    let st = BTreeSetStrategy { element: lo..hi, size: n };
    assert(draws(st.element, words_of(keys) + Seq::empty(), keys, Seq::empty()));
    assert(st.yields(words_of(keys) + Seq::empty(), Ok(set), Seq::empty()));
}

/// A priority queue strategy over `lo..hi` draws, on some path, the queue of
/// the first `n` of any `n + 1` keys of the range in non-decreasing order:
/// among them queues whose largest key is held more than once.
pub proof fn binary_heap_draws_every_ordered_choice<T: Scalar>(
    lo: T,
    hi: T,
    n: usize,
    keys: Seq<T>,
    q: PriorityQueue<T>,
)
    requires
        keys.len() == n + 1,
        nondecreasing(keys),
        forall|i: int| 0 <= i < keys.len() ==> lo.to_int() <= #[trigger] keys[i].to_int() < hi.to_int(),
        q.wf(),
        q@ == keys.take(n as int),
    ensures
        can_yield(BinaryHeapStrategy { element: lo..hi, size: n }, q),
{
    lemma_range_draws(lo, hi, keys, Seq::empty());
    let st = BinaryHeapStrategy { element: lo..hi, size: n };
    assert(draws(st.element, words_of(keys) + Seq::empty(), keys, Seq::empty()));
    assert(st.yields(words_of(keys) + Seq::empty(), Ok(q), Seq::empty()));
}

} // verus!
