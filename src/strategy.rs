//! Strategies: descriptions of how to draw a value of some type from a path.
//!
//! Drawing is `value`. Its outcome on a path is described by `yields`: the
//! words left on the path before the draw, the outcome, and the words left
//! after it. `ready` states what a strategy needs of the functions it holds
//! (that they accept every argument it may hand them).
use crate::annotations::{head, tail, verifier_assume, verifier_reject, Halt, Path};
use crate::scalar::{verifier_abstract_value, Scalar};
use crate::symbolic::Symbolic;
use core::marker::PhantomData;
use vstd::prelude::*;
use vstd::std_specs::convert::FromSpec;

verus! {

/// A set of values from which one is drawn per path.
pub trait Strategy {
    type Value;

    /// What drawing needs: every function held accepts what it is handed.
    spec fn ready(&self) -> bool;

    /// Drawing from the words `input` may end in `out` and leave `rest`.
    spec fn yields(&self, input: Seq<u128>, out: Result<Self::Value, Halt>, rest: Seq<u128>) -> bool;

    /// Draws one value, or ends the path silently.
    fn value(&self, path: &mut Path) -> (r: Result<Self::Value, Halt>)
        requires
            self.ready(),
            old(path).wf(),
        ensures
            final(path).wf(),
            final(path).is_replay() == old(path).is_replay(),
            self.yields(old(path)@, r, final(path)@),
    ;

    /// Applies `fun` to each value drawn.
    fn prop_map<O, F: Fn(Self::Value) -> O>(self, fun: F) -> (r: Mapped<Self, F>) where Self: Sized
        ensures
            r.source == self,
            r.fun == fun,
    {
        Mapped { source: self, fun }
    }

    /// Converts each value drawn with `Into`.
    fn prop_map_into<O: From<Self::Value>>(self) -> (r: MapInto<Self, O>) where Self: Sized
        ensures
            r.source == self,
    {
        MapInto { source: self, output: PhantomData }
    }

    /// Keeps the paths whose value meets `fun`; the others are pruned.
    fn prop_filter<F: Fn(&Self::Value) -> bool>(self, _whence: &str, fun: F) -> (r: Filter<
        Self,
        F,
    >) where Self: Sized
        ensures
            r.source == self,
            r.fun == fun,
    {
        Filter { source: self, fun }
    }

    /// Maps each value with `fun`; the paths where it gives nothing are rejected.
    fn prop_filter_map<O, F: Fn(Self::Value) -> Option<O>>(self, _whence: &str, fun: F) -> (r:
        FilterMap<Self, F>) where Self: Sized
        ensures
            r.source == self,
            r.fun == fun,
    {
        FilterMap { source: self, fun }
    }

    /// Draws from `self` or from `other`, as a selector byte says.
    fn prop_union(self, other: Self) -> (r: Union<Self>) where Self: Sized
        ensures
            r.x == self,
            r.y == other,
    {
        Union { x: self, y: other }
    }

}

/// The strategy that always gives (a clone of) one value.
pub struct Just<T: Clone>(pub T);

impl<T: Clone> Strategy for Just<T> {
    type Value = T;

    open spec fn ready(&self) -> bool {
        true
    }

    open spec fn yields(&self, input: Seq<u128>, out: Result<T, Halt>, rest: Seq<u128>) -> bool {
        &&& rest == input
        &&& out is Ok
        &&& cloned(self.0, out->Ok_0)
    }

    fn value(&self, path: &mut Path) -> (r: Result<T, Halt>) {
        Ok(self.0.clone())
    }
}

/// Any value of `T`, drawn as `T::symbolic` draws it.
pub struct Any<T> {
    pub marker: PhantomData<T>,
}

impl<T> Any<T> {
    pub fn new() -> (r: Self)
        ensures
            r == (Any::<T> { marker: PhantomData }),
    {
        Any { marker: PhantomData }
    }
}

impl<T: Symbolic> Strategy for Any<T> {
    type Value = T;

    open spec fn ready(&self) -> bool {
        true
    }

    open spec fn yields(&self, input: Seq<u128>, out: Result<T, Halt>, rest: Seq<u128>) -> bool {
        T::sym_yields(input, out, rest)
    }

    fn value(&self, path: &mut Path) -> (r: Result<T, Halt>) {
        T::symbolic(path)
    }
}

/// One draw of `T`, kept where `keep` holds of it and pruned elsewhere.
pub open spec fn bounded_draw<T: Scalar>(
    input: Seq<u128>,
    out: Result<T, Halt>,
    rest: Seq<u128>,
    keep: spec_fn(int) -> bool,
) -> bool {
    let v = T::spec_from_bits(head(input));
    &&& rest == tail(input)
    &&& out == if keep(v.to_int()) {
        Ok::<T, Halt>(v)
    } else {
        Err(Halt::Pruned)
    }
}

impl<T: Scalar> Strategy for core::ops::Range<T> {
    type Value = T;

    open spec fn ready(&self) -> bool {
        true
    }

    open spec fn yields(&self, input: Seq<u128>, out: Result<T, Halt>, rest: Seq<u128>) -> bool {
        bounded_draw(
            input,
            out,
            rest,
            |n: int| self.start.to_int() <= n && n < self.end.to_int(),
        )
    }

    fn value(&self, path: &mut Path) -> (r: Result<T, Halt>) {
        let r: T = verifier_abstract_value(path);
        verifier_assume(self.start.leq(r))?;
        verifier_assume(r.less(self.end))?;
        Ok(r)
    }
}

} // verus!

verus! {

/// Values of `source`, each mapped by `fun`.
pub struct Mapped<S, F> {
    pub source: S,
    pub fun: F,
}

impl<S: Strategy, T, F: Fn(S::Value) -> T> Strategy for Mapped<S, F> {
    type Value = T;

    open spec fn ready(&self) -> bool {
        &&& self.source.ready()
        &&& forall|v: S::Value| call_requires(self.fun, (v,))
    }

    open spec fn yields(&self, input: Seq<u128>, out: Result<T, Halt>, rest: Seq<u128>) -> bool {
        match out {
            Ok(t) => exists|v: S::Value|
                self.source.yields(input, Ok(v), rest) && call_ensures(self.fun, (v,), t),
            Err(h) => self.source.yields(input, Err(h), rest),
        }
    }

    fn value(&self, path: &mut Path) -> (r: Result<T, Halt>) {
        let v = self.source.value(path)?;
        Ok((self.fun)(v))
    }
}

/// Values of `source`, each converted into `T` with `From`.
pub struct MapInto<S, T> {
    pub source: S,
    pub output: PhantomData<T>,
}

impl<V, S: Strategy<Value = V>, T: From<V>> Strategy for MapInto<S, T> {
    type Value = T;

    open spec fn ready(&self) -> bool {
        self.source.ready()
    }

    open spec fn yields(&self, input: Seq<u128>, out: Result<T, Halt>, rest: Seq<u128>) -> bool {
        match out {
            Ok(t) => exists|v: V|
                #[trigger] self.source.yields(input, Ok(v), rest) && (T::obeys_from_spec() ==> t
                    == T::from_spec(v)),
            Err(h) => self.source.yields(input, Err(h), rest),
        }
    }

    fn value(&self, path: &mut Path) -> (r: Result<T, Halt>) {
        let ghost input = path@;
        match self.source.value(path) {
            Ok(v) => {
                let t = T::from(v);
                assert(self.source.yields(input, Ok(v), path@));
                assert(T::obeys_from_spec() ==> t == T::from_spec(v));
                Ok(t)
            },
            Err(h) => Err(h),
        }
    }
}

/// Drawing from a strategy that `source` draws; ready only where every
/// strategy it may give is.
pub open spec fn nested_yields<S: Strategy>(
    source: S,
    input: Seq<u128>,
    out: Result<<S::Value as Strategy>::Value, Halt>,
    rest: Seq<u128>,
) -> bool where S::Value: Strategy {
    ||| exists|inner: S::Value, mid: Seq<u128>|
        source.yields(input, Ok(inner), mid) && inner.yields(mid, out, rest)
    ||| out is Err && source.yields(input, Err(out->Err_0), rest)
}

pub open spec fn nested_ready<S: Strategy>(source: S) -> bool where S::Value: Strategy {
    &&& source.ready()
    &&& forall|input: Seq<u128>, inner: S::Value, mid: Seq<u128>|
        source.yields(input, Ok(inner), mid) ==> inner.ready()
}

/// The values of the strategies that `source` draws.
pub struct Flatten<S> {
    pub source: S,
}

impl<S: Strategy> Strategy for Flatten<S> where S::Value: Strategy {
    type Value = <S::Value as Strategy>::Value;

    open spec fn ready(&self) -> bool {
        nested_ready(self.source)
    }

    open spec fn yields(&self, input: Seq<u128>, out: Result<Self::Value, Halt>, rest: Seq<u128>) -> bool {
        nested_yields(self.source, input, out, rest)
    }

    fn value(&self, path: &mut Path) -> (r: Result<Self::Value, Halt>) {
        let inner = self.source.value(path)?;
        inner.value(path)
    }
}

/// As `Flatten`.
pub struct IndFlatten<S> {
    pub source: S,
}

impl<S: Strategy> Strategy for IndFlatten<S> where S::Value: Strategy {
    type Value = <S::Value as Strategy>::Value;

    open spec fn ready(&self) -> bool {
        nested_ready(self.source)
    }

    open spec fn yields(&self, input: Seq<u128>, out: Result<Self::Value, Halt>, rest: Seq<u128>) -> bool {
        nested_yields(self.source, input, out, rest)
    }

    fn value(&self, path: &mut Path) -> (r: Result<Self::Value, Halt>) {
        let inner = self.source.value(path)?;
        inner.value(path)
    }
}

/// A value of `source` paired with a value of the strategy `fun` builds from it.
pub struct IndFlattenMap<S, F, T> {
    pub source: S,
    pub fun: F,
    pub inner: PhantomData<T>,
}

impl<S: Strategy, T: Strategy, F: Fn(S::Value) -> T> IndFlattenMap<S, F, T> {
    /// `v` drawn from `source`, `t` built from it, and `t` drawn from.
    pub open spec fn step(
        &self,
        input: Seq<u128>,
        v: S::Value,
        t: T,
        mid: Seq<u128>,
        out: Result<(S::Value, T::Value), Halt>,
        rest: Seq<u128>,
    ) -> bool {
        &&& self.source.yields(input, Ok(v), mid)
        &&& call_ensures(self.fun, (v,), t)
        &&& match out {
            Ok(p) => p.0 == v && t.yields(mid, Ok(p.1), rest),
            Err(h) => t.yields(mid, Err(h), rest),
        }
    }
}

impl<S: Strategy, T: Strategy, F: Fn(S::Value) -> T> Strategy for IndFlattenMap<S, F, T> where
    S::Value: Copy,
 {
    type Value = (S::Value, T::Value);

    open spec fn ready(&self) -> bool {
        &&& self.source.ready()
        &&& forall|v: S::Value| call_requires(self.fun, (v,))
        &&& forall|v: S::Value, t: T| #[trigger] call_ensures(self.fun, (v,), t) ==> t.ready()
    }

    open spec fn yields(&self, input: Seq<u128>, out: Result<Self::Value, Halt>, rest: Seq<u128>) -> bool {
        ||| out is Err && self.source.yields(input, Err(out->Err_0), rest)
        ||| exists|v: S::Value, t: T, mid: Seq<u128>| #[trigger] self.step(input, v, t, mid, out, rest)
    }

    fn value(&self, path: &mut Path) -> (r: Result<Self::Value, Halt>) {
        let ghost input = path@;
        let s: S::Value = self.source.value(path)?;
        let ghost mid = path@;
        let t: T = (self.fun)(s);
        let r = t.value(path);
        assert(t.yields(mid, r, path@));
        match r {
            Ok(x) => {
                let out: Result<(S::Value, T::Value), Halt> = Ok((s, x));
                assert(self.step(input, s, t, mid, out, path@));
                out
            },
            Err(h) => {
                let out: Result<(S::Value, T::Value), Halt> = Err(h);
                assert(self.step(input, s, t, mid, out, path@));
                out
            },
        }
    }
}

/// Values of `source` that meet `fun`; on other paths the assumption prunes.
pub struct Filter<S, F> {
    pub source: S,
    pub fun: F,
}

impl<S: Strategy, F: Fn(&S::Value) -> bool> Strategy for Filter<S, F> {
    type Value = S::Value;

    open spec fn ready(&self) -> bool {
        &&& self.source.ready()
        &&& forall|v: S::Value| call_requires(self.fun, (&v,))
    }

    open spec fn yields(&self, input: Seq<u128>, out: Result<S::Value, Halt>, rest: Seq<u128>) -> bool {
        match out {
            Ok(v) => self.source.yields(input, Ok(v), rest) && call_ensures(self.fun, (&v,), true),
            Err(h) => self.source.yields(input, Err(h), rest) || (h == Halt::Pruned && exists|
                v: S::Value,
            | self.source.yields(input, Ok(v), rest) && call_ensures(self.fun, (&v,), false)),
        }
    }

    fn value(&self, path: &mut Path) -> (r: Result<S::Value, Halt>) {
        let v = self.source.value(path)?;
        verifier_assume((self.fun)(&v))?;
        Ok(v)
    }
}

/// Values of `source` mapped by `fun`; where it gives nothing the path is rejected.
pub struct FilterMap<S, F> {
    pub source: S,
    pub fun: F,
}

impl<S: Strategy, T, F: Fn(S::Value) -> Option<T>> Strategy for FilterMap<S, F> {
    type Value = T;

    open spec fn ready(&self) -> bool {
        &&& self.source.ready()
        &&& forall|v: S::Value| call_requires(self.fun, (v,))
    }

    open spec fn yields(&self, input: Seq<u128>, out: Result<T, Halt>, rest: Seq<u128>) -> bool {
        match out {
            Ok(t) => exists|v: S::Value|
                self.source.yields(input, Ok(v), rest) && call_ensures(self.fun, (v,), Some(t)),
            Err(h) => self.source.yields(input, Err(h), rest) || (h == Halt::Rejected && exists|
                v: S::Value,
            | self.source.yields(input, Ok(v), rest) && call_ensures(self.fun, (v,), None::<T>)),
        }
    }

    fn value(&self, path: &mut Path) -> (r: Result<T, Halt>) {
        let v = self.source.value(path)?;
        match (self.fun)(v) {
            Some(t) => Ok(t),
            None => Err(verifier_reject()),
        }
    }
}

/// Values of `x` or of `y`: an even selector byte picks `x`, an odd one `y`.
pub struct Union<S> {
    pub x: S,
    pub y: S,
}

impl<S: Strategy> Strategy for Union<S> {
    type Value = S::Value;

    open spec fn ready(&self) -> bool {
        self.x.ready() && self.y.ready()
    }

    open spec fn yields(&self, input: Seq<u128>, out: Result<S::Value, Halt>, rest: Seq<u128>) -> bool {
        if (head(input) as u8) % 2 == 0 {
            self.x.yields(tail(input), out, rest)
        } else {
            self.y.yields(tail(input), out, rest)
        }
    }

    fn value(&self, path: &mut Path) -> (r: Result<S::Value, Halt>) {
        let selector: u8 = verifier_abstract_value(path);
        if selector % 2 == 0 {
            self.x.value(path)
        } else {
            self.y.value(path)
        }
    }
}

/// The face of a strategy that a `BoxedStrategy` keeps: its value type only.
pub trait ErasedStrategy<T> {
    spec fn erased_ready(&self) -> bool;

    spec fn erased_yields(&self, input: Seq<u128>, out: Result<T, Halt>, rest: Seq<u128>) -> bool;

    fn erased_value(&self, path: &mut Path) -> (r: Result<T, Halt>)
        requires
            self.erased_ready(),
            old(path).wf(),
        ensures
            final(path).wf(),
            final(path).is_replay() == old(path).is_replay(),
            self.erased_yields(old(path)@, r, final(path)@),
    ;
}

impl<S: Strategy> ErasedStrategy<S::Value> for S {
    open spec fn erased_ready(&self) -> bool {
        self.ready()
    }

    open spec fn erased_yields(&self, input: Seq<u128>, out: Result<S::Value, Halt>, rest: Seq<u128>) -> bool {
        self.yields(input, out, rest)
    }

    fn erased_value(&self, path: &mut Path) -> (r: Result<S::Value, Halt>) {
        self.value(path)
    }
}

/// A strategy whose type is hidden, so that strategies of one value type
/// can be stored and combined alike.
#[verifier::reject_recursive_types(T)]
pub struct BoxedStrategy<T> {
    b: Box<dyn ErasedStrategy<T>>,
}

impl<T> Strategy for BoxedStrategy<T> {
    type Value = T;

    closed spec fn ready(&self) -> bool {
        self.b.erased_ready()
    }

    closed spec fn yields(&self, input: Seq<u128>, out: Result<T, Halt>, rest: Seq<u128>) -> bool {
        self.b.erased_yields(input, out, rest)
    }

    fn value(&self, path: &mut Path) -> (r: Result<T, Halt>) {
        self.b.erased_value(path)
    }
}

/// Constructors that build on other strategies' types.
pub trait StrategyExt: Strategy + Sized {
    /// Draws a value, builds a second strategy from it, and draws from that.
    fn prop_flat_map<S: Strategy, F: Fn(Self::Value) -> S>(self, fun: F) -> (r: Flatten<
        Mapped<Self, F>,
    >)
        ensures
            r.source.source == self,
            r.source.fun == fun,
    ;

    /// As `prop_flat_map`: without shrinking the two coincide.
    fn prop_ind_flat_map<S: Strategy, F: Fn(Self::Value) -> S>(self, fun: F) -> (r: IndFlatten<
        Mapped<Self, F>,
    >)
        ensures
            r.source.source == self,
            r.source.fun == fun,
    ;

    /// As `prop_flat_map`, and keeps the first value beside the second.
    fn prop_ind_flat_map2<S: Strategy, F: Fn(Self::Value) -> S>(self, fun: F) -> (r:
        IndFlattenMap<Self, F, S>)
        ensures
            r.source == self,
            r.fun == fun,
    ;

    /// Hides the type of the strategy behind its value type; the boxed
    /// strategy draws exactly as the hidden one does.
    fn boxed(self) -> (r: BoxedStrategy<Self::Value>) where Self: 'static
        ensures
            r.ready() == self.ready(),
            forall|input: Seq<u128>, out: Result<Self::Value, Halt>, rest: Seq<u128>|
                r.yields(input, out, rest) == self.yields(input, out, rest),
    ;
}

impl<A: Strategy> StrategyExt for A {
    fn prop_flat_map<S: Strategy, F: Fn(A::Value) -> S>(self, fun: F) -> (r: Flatten<Mapped<A, F>>) {
        Flatten { source: Mapped { source: self, fun } }
    }

    fn prop_ind_flat_map<S: Strategy, F: Fn(A::Value) -> S>(self, fun: F) -> (r: IndFlatten<
        Mapped<A, F>,
    >) {
        IndFlatten { source: Mapped { source: self, fun } }
    }

    fn prop_ind_flat_map2<S: Strategy, F: Fn(A::Value) -> S>(self, fun: F) -> (r: IndFlattenMap<
        A,
        F,
        S,
    >) {
        IndFlattenMap { source: self, fun, inner: PhantomData }
    }

    fn boxed(self) -> (r: BoxedStrategy<A::Value>) where A: 'static {
        BoxedStrategy { b: Box::new(self) }
    }
}

} // verus!

verus! {

impl<A: Strategy, B: Strategy> Strategy for (A, B) {
    type Value = (A::Value, B::Value);

    open spec fn ready(&self) -> bool {
        self.0.ready() && self.1.ready()
    }

    /// The components are drawn left to right; the first to halt ends the draw.
    open spec fn yields(&self, input: Seq<u128>, out: Result<Self::Value, Halt>, rest: Seq<u128>) -> bool {
        match out {
            Ok(v) => exists|x0: A::Value, x1: B::Value, m1: Seq<u128>|
                {
                    &&& v == (x0, x1)
                    &&& self.0.yields(input, Ok(x0), m1)
                    &&& self.1.yields(m1, Ok(x1), rest)
                },
            Err(h) => {
                ||| self.0.yields(input, Err(h), rest)
                ||| exists|x0: A::Value, m1: Seq<u128>|
                    {
                        &&& self.0.yields(input, Ok(x0), m1)
                        &&& self.1.yields(m1, Err(h), rest)
                    }
            },
        }
    }

    #[verifier::rlimit(60)]
    fn value(&self, path: &mut Path) -> (r: Result<Self::Value, Halt>) {
        let ghost m0 = path@;
        let x0 = match self.0.value(path) {
            Ok(x) => x,
            Err(h) => {
                return Err(h);
            },
        };
        let ghost m1 = path@;
        let x1 = match self.1.value(path) {
            Ok(x) => x,
            Err(h) => {
                assert({
                    &&& self.0.yields(m0, Ok(x0), m1)
                    &&& self.1.yields(m1, Err(h), path@)
                });
                return Err(h);
            },
        };
        let ghost m2 = path@;
        assert({
            &&& self.0.yields(m0, Ok(x0), m1)
            &&& self.1.yields(m1, Ok(x1), m2)
        });
        Ok((x0, x1))
    }
}

impl<A: Strategy, B: Strategy, C: Strategy> Strategy for (A, B, C) {
    type Value = (A::Value, B::Value, C::Value);

    open spec fn ready(&self) -> bool {
        self.0.ready() && self.1.ready() && self.2.ready()
    }

    /// The components are drawn left to right; the first to halt ends the draw.
    open spec fn yields(&self, input: Seq<u128>, out: Result<Self::Value, Halt>, rest: Seq<u128>) -> bool {
        match out {
            Ok(v) => exists|x0: A::Value, x1: B::Value, x2: C::Value, m1: Seq<u128>, m2: Seq<u128>|
                {
                    &&& v == (x0, x1, x2)
                    &&& self.0.yields(input, Ok(x0), m1)
                    &&& self.1.yields(m1, Ok(x1), m2)
                    &&& self.2.yields(m2, Ok(x2), rest)
                },
            Err(h) => {
                ||| self.0.yields(input, Err(h), rest)
                ||| exists|x0: A::Value, m1: Seq<u128>|
                    {
                        &&& self.0.yields(input, Ok(x0), m1)
                        &&& self.1.yields(m1, Err(h), rest)
                    }
                ||| exists|x0: A::Value, m1: Seq<u128>, x1: B::Value, m2: Seq<u128>|
                    {
                        &&& self.0.yields(input, Ok(x0), m1)
                        &&& self.1.yields(m1, Ok(x1), m2)
                        &&& self.2.yields(m2, Err(h), rest)
                    }
            },
        }
    }

    #[verifier::rlimit(60)]
    fn value(&self, path: &mut Path) -> (r: Result<Self::Value, Halt>) {
        let ghost m0 = path@;
        let x0 = match self.0.value(path) {
            Ok(x) => x,
            Err(h) => {
                return Err(h);
            },
        };
        let ghost m1 = path@;
        let x1 = match self.1.value(path) {
            Ok(x) => x,
            Err(h) => {
                assert({
                    &&& self.0.yields(m0, Ok(x0), m1)
                    &&& self.1.yields(m1, Err(h), path@)
                });
                return Err(h);
            },
        };
        let ghost m2 = path@;
        let x2 = match self.2.value(path) {
            Ok(x) => x,
            Err(h) => {
                assert({
                    &&& self.0.yields(m0, Ok(x0), m1)
                    &&& self.1.yields(m1, Ok(x1), m2)
                    &&& self.2.yields(m2, Err(h), path@)
                });
                return Err(h);
            },
        };
        let ghost m3 = path@;
        assert({
            &&& self.0.yields(m0, Ok(x0), m1)
            &&& self.1.yields(m1, Ok(x1), m2)
            &&& self.2.yields(m2, Ok(x2), m3)
        });
        Ok((x0, x1, x2))
    }
}

impl<A: Strategy, B: Strategy, C: Strategy, D: Strategy> Strategy for (A, B, C, D) {
    type Value = (A::Value, B::Value, C::Value, D::Value);

    open spec fn ready(&self) -> bool {
        self.0.ready() && self.1.ready() && self.2.ready() && self.3.ready()
    }

    /// The components are drawn left to right; the first to halt ends the draw.
    open spec fn yields(&self, input: Seq<u128>, out: Result<Self::Value, Halt>, rest: Seq<u128>) -> bool {
        match out {
            Ok(v) => exists|x0: A::Value, x1: B::Value, x2: C::Value, x3: D::Value, m1: Seq<u128>, m2: Seq<u128>, m3: Seq<u128>|
                {
                    &&& v == (x0, x1, x2, x3)
                    &&& self.0.yields(input, Ok(x0), m1)
                    &&& self.1.yields(m1, Ok(x1), m2)
                    &&& self.2.yields(m2, Ok(x2), m3)
                    &&& self.3.yields(m3, Ok(x3), rest)
                },
            Err(h) => {
                ||| self.0.yields(input, Err(h), rest)
                ||| exists|x0: A::Value, m1: Seq<u128>|
                    {
                        &&& self.0.yields(input, Ok(x0), m1)
                        &&& self.1.yields(m1, Err(h), rest)
                    }
                ||| exists|x0: A::Value, m1: Seq<u128>, x1: B::Value, m2: Seq<u128>|
                    {
                        &&& self.0.yields(input, Ok(x0), m1)
                        &&& self.1.yields(m1, Ok(x1), m2)
                        &&& self.2.yields(m2, Err(h), rest)
                    }
                ||| exists|x0: A::Value, m1: Seq<u128>, x1: B::Value, m2: Seq<u128>, x2: C::Value, m3: Seq<u128>|
                    {
                        &&& self.0.yields(input, Ok(x0), m1)
                        &&& self.1.yields(m1, Ok(x1), m2)
                        &&& self.2.yields(m2, Ok(x2), m3)
                        &&& self.3.yields(m3, Err(h), rest)
                    }
            },
        }
    }

    #[verifier::rlimit(60)]
    fn value(&self, path: &mut Path) -> (r: Result<Self::Value, Halt>) {
        let ghost m0 = path@;
        let x0 = match self.0.value(path) {
            Ok(x) => x,
            Err(h) => {
                return Err(h);
            },
        };
        let ghost m1 = path@;
        let x1 = match self.1.value(path) {
            Ok(x) => x,
            Err(h) => {
                assert({
                    &&& self.0.yields(m0, Ok(x0), m1)
                    &&& self.1.yields(m1, Err(h), path@)
                });
                return Err(h);
            },
        };
        let ghost m2 = path@;
        let x2 = match self.2.value(path) {
            Ok(x) => x,
            Err(h) => {
                assert({
                    &&& self.0.yields(m0, Ok(x0), m1)
                    &&& self.1.yields(m1, Ok(x1), m2)
                    &&& self.2.yields(m2, Err(h), path@)
                });
                return Err(h);
            },
        };
        let ghost m3 = path@;
        let x3 = match self.3.value(path) {
            Ok(x) => x,
            Err(h) => {
                assert({
                    &&& self.0.yields(m0, Ok(x0), m1)
                    &&& self.1.yields(m1, Ok(x1), m2)
                    &&& self.2.yields(m2, Ok(x2), m3)
                    &&& self.3.yields(m3, Err(h), path@)
                });
                return Err(h);
            },
        };
        let ghost m4 = path@;
        assert({
            &&& self.0.yields(m0, Ok(x0), m1)
            &&& self.1.yields(m1, Ok(x1), m2)
            &&& self.2.yields(m2, Ok(x2), m3)
            &&& self.3.yields(m3, Ok(x3), m4)
        });
        Ok((x0, x1, x2, x3))
    }
}

impl<A: Strategy, B: Strategy, C: Strategy, D: Strategy, E: Strategy> Strategy for (A, B, C, D, E) {
    type Value = (A::Value, B::Value, C::Value, D::Value, E::Value);

    open spec fn ready(&self) -> bool {
        self.0.ready() && self.1.ready() && self.2.ready() && self.3.ready() && self.4.ready()
    }

    /// The components are drawn left to right; the first to halt ends the draw.
    open spec fn yields(&self, input: Seq<u128>, out: Result<Self::Value, Halt>, rest: Seq<u128>) -> bool {
        match out {
            Ok(v) => exists|x0: A::Value, x1: B::Value, x2: C::Value, x3: D::Value, x4: E::Value, m1: Seq<u128>, m2: Seq<u128>, m3: Seq<u128>, m4: Seq<u128>|
                {
                    &&& v == (x0, x1, x2, x3, x4)
                    &&& self.0.yields(input, Ok(x0), m1)
                    &&& self.1.yields(m1, Ok(x1), m2)
                    &&& self.2.yields(m2, Ok(x2), m3)
                    &&& self.3.yields(m3, Ok(x3), m4)
                    &&& self.4.yields(m4, Ok(x4), rest)
                },
            Err(h) => {
                ||| self.0.yields(input, Err(h), rest)
                ||| exists|x0: A::Value, m1: Seq<u128>|
                    {
                        &&& self.0.yields(input, Ok(x0), m1)
                        &&& self.1.yields(m1, Err(h), rest)
                    }
                ||| exists|x0: A::Value, m1: Seq<u128>, x1: B::Value, m2: Seq<u128>|
                    {
                        &&& self.0.yields(input, Ok(x0), m1)
                        &&& self.1.yields(m1, Ok(x1), m2)
                        &&& self.2.yields(m2, Err(h), rest)
                    }
                ||| exists|x0: A::Value, m1: Seq<u128>, x1: B::Value, m2: Seq<u128>, x2: C::Value, m3: Seq<u128>|
                    {
                        &&& self.0.yields(input, Ok(x0), m1)
                        &&& self.1.yields(m1, Ok(x1), m2)
                        &&& self.2.yields(m2, Ok(x2), m3)
                        &&& self.3.yields(m3, Err(h), rest)
                    }
                ||| exists|x0: A::Value, m1: Seq<u128>, x1: B::Value, m2: Seq<u128>, x2: C::Value, m3: Seq<u128>, x3: D::Value, m4: Seq<u128>|
                    {
                        &&& self.0.yields(input, Ok(x0), m1)
                        &&& self.1.yields(m1, Ok(x1), m2)
                        &&& self.2.yields(m2, Ok(x2), m3)
                        &&& self.3.yields(m3, Ok(x3), m4)
                        &&& self.4.yields(m4, Err(h), rest)
                    }
            },
        }
    }

    #[verifier::rlimit(60)]
    fn value(&self, path: &mut Path) -> (r: Result<Self::Value, Halt>) {
        let ghost m0 = path@;
        let x0 = match self.0.value(path) {
            Ok(x) => x,
            Err(h) => {
                return Err(h);
            },
        };
        let ghost m1 = path@;
        let x1 = match self.1.value(path) {
            Ok(x) => x,
            Err(h) => {
                assert({
                    &&& self.0.yields(m0, Ok(x0), m1)
                    &&& self.1.yields(m1, Err(h), path@)
                });
                return Err(h);
            },
        };
        let ghost m2 = path@;
        let x2 = match self.2.value(path) {
            Ok(x) => x,
            Err(h) => {
                assert({
                    &&& self.0.yields(m0, Ok(x0), m1)
                    &&& self.1.yields(m1, Ok(x1), m2)
                    &&& self.2.yields(m2, Err(h), path@)
                });
                return Err(h);
            },
        };
        let ghost m3 = path@;
        let x3 = match self.3.value(path) {
            Ok(x) => x,
            Err(h) => {
                assert({
                    &&& self.0.yields(m0, Ok(x0), m1)
                    &&& self.1.yields(m1, Ok(x1), m2)
                    &&& self.2.yields(m2, Ok(x2), m3)
                    &&& self.3.yields(m3, Err(h), path@)
                });
                return Err(h);
            },
        };
        let ghost m4 = path@;
        let x4 = match self.4.value(path) {
            Ok(x) => x,
            Err(h) => {
                assert({
                    &&& self.0.yields(m0, Ok(x0), m1)
                    &&& self.1.yields(m1, Ok(x1), m2)
                    &&& self.2.yields(m2, Ok(x2), m3)
                    &&& self.3.yields(m3, Ok(x3), m4)
                    &&& self.4.yields(m4, Err(h), path@)
                });
                return Err(h);
            },
        };
        let ghost m5 = path@;
        assert({
            &&& self.0.yields(m0, Ok(x0), m1)
            &&& self.1.yields(m1, Ok(x1), m2)
            &&& self.2.yields(m2, Ok(x2), m3)
            &&& self.3.yields(m3, Ok(x3), m4)
            &&& self.4.yields(m4, Ok(x4), m5)
        });
        Ok((x0, x1, x2, x3, x4))
    }
}

impl<A: Strategy, B: Strategy, C: Strategy, D: Strategy, E: Strategy, F: Strategy> Strategy for (A, B, C, D, E, F) {
    type Value = (A::Value, B::Value, C::Value, D::Value, E::Value, F::Value);

    open spec fn ready(&self) -> bool {
        self.0.ready() && self.1.ready() && self.2.ready() && self.3.ready() && self.4.ready() && self.5.ready()
    }

    /// The components are drawn left to right; the first to halt ends the draw.
    open spec fn yields(&self, input: Seq<u128>, out: Result<Self::Value, Halt>, rest: Seq<u128>) -> bool {
        match out {
            Ok(v) => exists|x0: A::Value, x1: B::Value, x2: C::Value, x3: D::Value, x4: E::Value, x5: F::Value, m1: Seq<u128>, m2: Seq<u128>, m3: Seq<u128>, m4: Seq<u128>, m5: Seq<u128>|
                {
                    &&& v == (x0, x1, x2, x3, x4, x5)
                    &&& self.0.yields(input, Ok(x0), m1)
                    &&& self.1.yields(m1, Ok(x1), m2)
                    &&& self.2.yields(m2, Ok(x2), m3)
                    &&& self.3.yields(m3, Ok(x3), m4)
                    &&& self.4.yields(m4, Ok(x4), m5)
                    &&& self.5.yields(m5, Ok(x5), rest)
                },
            Err(h) => {
                ||| self.0.yields(input, Err(h), rest)
                ||| exists|x0: A::Value, m1: Seq<u128>|
                    {
                        &&& self.0.yields(input, Ok(x0), m1)
                        &&& self.1.yields(m1, Err(h), rest)
                    }
                ||| exists|x0: A::Value, m1: Seq<u128>, x1: B::Value, m2: Seq<u128>|
                    {
                        &&& self.0.yields(input, Ok(x0), m1)
                        &&& self.1.yields(m1, Ok(x1), m2)
                        &&& self.2.yields(m2, Err(h), rest)
                    }
                ||| exists|x0: A::Value, m1: Seq<u128>, x1: B::Value, m2: Seq<u128>, x2: C::Value, m3: Seq<u128>|
                    {
                        &&& self.0.yields(input, Ok(x0), m1)
                        &&& self.1.yields(m1, Ok(x1), m2)
                        &&& self.2.yields(m2, Ok(x2), m3)
                        &&& self.3.yields(m3, Err(h), rest)
                    }
                ||| exists|x0: A::Value, m1: Seq<u128>, x1: B::Value, m2: Seq<u128>, x2: C::Value, m3: Seq<u128>, x3: D::Value, m4: Seq<u128>|
                    {
                        &&& self.0.yields(input, Ok(x0), m1)
                        &&& self.1.yields(m1, Ok(x1), m2)
                        &&& self.2.yields(m2, Ok(x2), m3)
                        &&& self.3.yields(m3, Ok(x3), m4)
                        &&& self.4.yields(m4, Err(h), rest)
                    }
                ||| exists|x0: A::Value, m1: Seq<u128>, x1: B::Value, m2: Seq<u128>, x2: C::Value, m3: Seq<u128>, x3: D::Value, m4: Seq<u128>, x4: E::Value, m5: Seq<u128>|
                    {
                        &&& self.0.yields(input, Ok(x0), m1)
                        &&& self.1.yields(m1, Ok(x1), m2)
                        &&& self.2.yields(m2, Ok(x2), m3)
                        &&& self.3.yields(m3, Ok(x3), m4)
                        &&& self.4.yields(m4, Ok(x4), m5)
                        &&& self.5.yields(m5, Err(h), rest)
                    }
            },
        }
    }

    #[verifier::rlimit(60)]
    fn value(&self, path: &mut Path) -> (r: Result<Self::Value, Halt>) {
        let ghost m0 = path@;
        let x0 = match self.0.value(path) {
            Ok(x) => x,
            Err(h) => {
                return Err(h);
            },
        };
        let ghost m1 = path@;
        let x1 = match self.1.value(path) {
            Ok(x) => x,
            Err(h) => {
                assert({
                    &&& self.0.yields(m0, Ok(x0), m1)
                    &&& self.1.yields(m1, Err(h), path@)
                });
                return Err(h);
            },
        };
        let ghost m2 = path@;
        let x2 = match self.2.value(path) {
            Ok(x) => x,
            Err(h) => {
                assert({
                    &&& self.0.yields(m0, Ok(x0), m1)
                    &&& self.1.yields(m1, Ok(x1), m2)
                    &&& self.2.yields(m2, Err(h), path@)
                });
                return Err(h);
            },
        };
        let ghost m3 = path@;
        let x3 = match self.3.value(path) {
            Ok(x) => x,
            Err(h) => {
                assert({
                    &&& self.0.yields(m0, Ok(x0), m1)
                    &&& self.1.yields(m1, Ok(x1), m2)
                    &&& self.2.yields(m2, Ok(x2), m3)
                    &&& self.3.yields(m3, Err(h), path@)
                });
                return Err(h);
            },
        };
        let ghost m4 = path@;
        let x4 = match self.4.value(path) {
            Ok(x) => x,
            Err(h) => {
                assert({
                    &&& self.0.yields(m0, Ok(x0), m1)
                    &&& self.1.yields(m1, Ok(x1), m2)
                    &&& self.2.yields(m2, Ok(x2), m3)
                    &&& self.3.yields(m3, Ok(x3), m4)
                    &&& self.4.yields(m4, Err(h), path@)
                });
                return Err(h);
            },
        };
        let ghost m5 = path@;
        let x5 = match self.5.value(path) {
            Ok(x) => x,
            Err(h) => {
                assert({
                    &&& self.0.yields(m0, Ok(x0), m1)
                    &&& self.1.yields(m1, Ok(x1), m2)
                    &&& self.2.yields(m2, Ok(x2), m3)
                    &&& self.3.yields(m3, Ok(x3), m4)
                    &&& self.4.yields(m4, Ok(x4), m5)
                    &&& self.5.yields(m5, Err(h), path@)
                });
                return Err(h);
            },
        };
        let ghost m6 = path@;
        assert({
            &&& self.0.yields(m0, Ok(x0), m1)
            &&& self.1.yields(m1, Ok(x1), m2)
            &&& self.2.yields(m2, Ok(x2), m3)
            &&& self.3.yields(m3, Ok(x3), m4)
            &&& self.4.yields(m4, Ok(x4), m5)
            &&& self.5.yields(m5, Ok(x5), m6)
        });
        Ok((x0, x1, x2, x3, x4, x5))
    }
}

impl<A: Strategy, B: Strategy, C: Strategy, D: Strategy, E: Strategy, F: Strategy, G: Strategy> Strategy for (A, B, C, D, E, F, G) {
    type Value = (A::Value, B::Value, C::Value, D::Value, E::Value, F::Value, G::Value);

    open spec fn ready(&self) -> bool {
        self.0.ready() && self.1.ready() && self.2.ready() && self.3.ready() && self.4.ready() && self.5.ready() && self.6.ready()
    }

    /// The components are drawn left to right; the first to halt ends the draw.
    open spec fn yields(&self, input: Seq<u128>, out: Result<Self::Value, Halt>, rest: Seq<u128>) -> bool {
        match out {
            Ok(v) => exists|x0: A::Value, x1: B::Value, x2: C::Value, x3: D::Value, x4: E::Value, x5: F::Value, x6: G::Value, m1: Seq<u128>, m2: Seq<u128>, m3: Seq<u128>, m4: Seq<u128>, m5: Seq<u128>, m6: Seq<u128>|
                {
                    &&& v == (x0, x1, x2, x3, x4, x5, x6)
                    &&& self.0.yields(input, Ok(x0), m1)
                    &&& self.1.yields(m1, Ok(x1), m2)
                    &&& self.2.yields(m2, Ok(x2), m3)
                    &&& self.3.yields(m3, Ok(x3), m4)
                    &&& self.4.yields(m4, Ok(x4), m5)
                    &&& self.5.yields(m5, Ok(x5), m6)
                    &&& self.6.yields(m6, Ok(x6), rest)
                },
            Err(h) => {
                ||| self.0.yields(input, Err(h), rest)
                ||| exists|x0: A::Value, m1: Seq<u128>|
                    {
                        &&& self.0.yields(input, Ok(x0), m1)
                        &&& self.1.yields(m1, Err(h), rest)
                    }
                ||| exists|x0: A::Value, m1: Seq<u128>, x1: B::Value, m2: Seq<u128>|
                    {
                        &&& self.0.yields(input, Ok(x0), m1)
                        &&& self.1.yields(m1, Ok(x1), m2)
                        &&& self.2.yields(m2, Err(h), rest)
                    }
                ||| exists|x0: A::Value, m1: Seq<u128>, x1: B::Value, m2: Seq<u128>, x2: C::Value, m3: Seq<u128>|
                    {
                        &&& self.0.yields(input, Ok(x0), m1)
                        &&& self.1.yields(m1, Ok(x1), m2)
                        &&& self.2.yields(m2, Ok(x2), m3)
                        &&& self.3.yields(m3, Err(h), rest)
                    }
                ||| exists|x0: A::Value, m1: Seq<u128>, x1: B::Value, m2: Seq<u128>, x2: C::Value, m3: Seq<u128>, x3: D::Value, m4: Seq<u128>|
                    {
                        &&& self.0.yields(input, Ok(x0), m1)
                        &&& self.1.yields(m1, Ok(x1), m2)
                        &&& self.2.yields(m2, Ok(x2), m3)
                        &&& self.3.yields(m3, Ok(x3), m4)
                        &&& self.4.yields(m4, Err(h), rest)
                    }
                ||| exists|x0: A::Value, m1: Seq<u128>, x1: B::Value, m2: Seq<u128>, x2: C::Value, m3: Seq<u128>, x3: D::Value, m4: Seq<u128>, x4: E::Value, m5: Seq<u128>|
                    {
                        &&& self.0.yields(input, Ok(x0), m1)
                        &&& self.1.yields(m1, Ok(x1), m2)
                        &&& self.2.yields(m2, Ok(x2), m3)
                        &&& self.3.yields(m3, Ok(x3), m4)
                        &&& self.4.yields(m4, Ok(x4), m5)
                        &&& self.5.yields(m5, Err(h), rest)
                    }
                ||| exists|x0: A::Value, m1: Seq<u128>, x1: B::Value, m2: Seq<u128>, x2: C::Value, m3: Seq<u128>, x3: D::Value, m4: Seq<u128>, x4: E::Value, m5: Seq<u128>, x5: F::Value, m6: Seq<u128>|
                    {
                        &&& self.0.yields(input, Ok(x0), m1)
                        &&& self.1.yields(m1, Ok(x1), m2)
                        &&& self.2.yields(m2, Ok(x2), m3)
                        &&& self.3.yields(m3, Ok(x3), m4)
                        &&& self.4.yields(m4, Ok(x4), m5)
                        &&& self.5.yields(m5, Ok(x5), m6)
                        &&& self.6.yields(m6, Err(h), rest)
                    }
            },
        }
    }

    #[verifier::rlimit(60)]
    fn value(&self, path: &mut Path) -> (r: Result<Self::Value, Halt>) {
        let ghost m0 = path@;
        let x0 = match self.0.value(path) {
            Ok(x) => x,
            Err(h) => {
                return Err(h);
            },
        };
        let ghost m1 = path@;
        let x1 = match self.1.value(path) {
            Ok(x) => x,
            Err(h) => {
                assert({
                    &&& self.0.yields(m0, Ok(x0), m1)
                    &&& self.1.yields(m1, Err(h), path@)
                });
                return Err(h);
            },
        };
        let ghost m2 = path@;
        let x2 = match self.2.value(path) {
            Ok(x) => x,
            Err(h) => {
                assert({
                    &&& self.0.yields(m0, Ok(x0), m1)
                    &&& self.1.yields(m1, Ok(x1), m2)
                    &&& self.2.yields(m2, Err(h), path@)
                });
                return Err(h);
            },
        };
        let ghost m3 = path@;
        let x3 = match self.3.value(path) {
            Ok(x) => x,
            Err(h) => {
                assert({
                    &&& self.0.yields(m0, Ok(x0), m1)
                    &&& self.1.yields(m1, Ok(x1), m2)
                    &&& self.2.yields(m2, Ok(x2), m3)
                    &&& self.3.yields(m3, Err(h), path@)
                });
                return Err(h);
            },
        };
        let ghost m4 = path@;
        let x4 = match self.4.value(path) {
            Ok(x) => x,
            Err(h) => {
                assert({
                    &&& self.0.yields(m0, Ok(x0), m1)
                    &&& self.1.yields(m1, Ok(x1), m2)
                    &&& self.2.yields(m2, Ok(x2), m3)
                    &&& self.3.yields(m3, Ok(x3), m4)
                    &&& self.4.yields(m4, Err(h), path@)
                });
                return Err(h);
            },
        };
        let ghost m5 = path@;
        let x5 = match self.5.value(path) {
            Ok(x) => x,
            Err(h) => {
                assert({
                    &&& self.0.yields(m0, Ok(x0), m1)
                    &&& self.1.yields(m1, Ok(x1), m2)
                    &&& self.2.yields(m2, Ok(x2), m3)
                    &&& self.3.yields(m3, Ok(x3), m4)
                    &&& self.4.yields(m4, Ok(x4), m5)
                    &&& self.5.yields(m5, Err(h), path@)
                });
                return Err(h);
            },
        };
        let ghost m6 = path@;
        let x6 = match self.6.value(path) {
            Ok(x) => x,
            Err(h) => {
                assert({
                    &&& self.0.yields(m0, Ok(x0), m1)
                    &&& self.1.yields(m1, Ok(x1), m2)
                    &&& self.2.yields(m2, Ok(x2), m3)
                    &&& self.3.yields(m3, Ok(x3), m4)
                    &&& self.4.yields(m4, Ok(x4), m5)
                    &&& self.5.yields(m5, Ok(x5), m6)
                    &&& self.6.yields(m6, Err(h), path@)
                });
                return Err(h);
            },
        };
        let ghost m7 = path@;
        assert({
            &&& self.0.yields(m0, Ok(x0), m1)
            &&& self.1.yields(m1, Ok(x1), m2)
            &&& self.2.yields(m2, Ok(x2), m3)
            &&& self.3.yields(m3, Ok(x3), m4)
            &&& self.4.yields(m4, Ok(x4), m5)
            &&& self.5.yields(m5, Ok(x5), m6)
            &&& self.6.yields(m6, Ok(x6), m7)
        });
        Ok((x0, x1, x2, x3, x4, x5, x6))
    }
}

impl<A: Strategy, B: Strategy, C: Strategy, D: Strategy, E: Strategy, F: Strategy, G: Strategy, H: Strategy> Strategy for (A, B, C, D, E, F, G, H) {
    type Value = (A::Value, B::Value, C::Value, D::Value, E::Value, F::Value, G::Value, H::Value);

    open spec fn ready(&self) -> bool {
        self.0.ready() && self.1.ready() && self.2.ready() && self.3.ready() && self.4.ready() && self.5.ready() && self.6.ready() && self.7.ready()
    }

    /// The components are drawn left to right; the first to halt ends the draw.
    open spec fn yields(&self, input: Seq<u128>, out: Result<Self::Value, Halt>, rest: Seq<u128>) -> bool {
        match out {
            Ok(v) => exists|x0: A::Value, x1: B::Value, x2: C::Value, x3: D::Value, x4: E::Value, x5: F::Value, x6: G::Value, x7: H::Value, m1: Seq<u128>, m2: Seq<u128>, m3: Seq<u128>, m4: Seq<u128>, m5: Seq<u128>, m6: Seq<u128>, m7: Seq<u128>|
                {
                    &&& v == (x0, x1, x2, x3, x4, x5, x6, x7)
                    &&& self.0.yields(input, Ok(x0), m1)
                    &&& self.1.yields(m1, Ok(x1), m2)
                    &&& self.2.yields(m2, Ok(x2), m3)
                    &&& self.3.yields(m3, Ok(x3), m4)
                    &&& self.4.yields(m4, Ok(x4), m5)
                    &&& self.5.yields(m5, Ok(x5), m6)
                    &&& self.6.yields(m6, Ok(x6), m7)
                    &&& self.7.yields(m7, Ok(x7), rest)
                },
            Err(h) => {
                ||| self.0.yields(input, Err(h), rest)
                ||| exists|x0: A::Value, m1: Seq<u128>|
                    {
                        &&& self.0.yields(input, Ok(x0), m1)
                        &&& self.1.yields(m1, Err(h), rest)
                    }
                ||| exists|x0: A::Value, m1: Seq<u128>, x1: B::Value, m2: Seq<u128>|
                    {
                        &&& self.0.yields(input, Ok(x0), m1)
                        &&& self.1.yields(m1, Ok(x1), m2)
                        &&& self.2.yields(m2, Err(h), rest)
                    }
                ||| exists|x0: A::Value, m1: Seq<u128>, x1: B::Value, m2: Seq<u128>, x2: C::Value, m3: Seq<u128>|
                    {
                        &&& self.0.yields(input, Ok(x0), m1)
                        &&& self.1.yields(m1, Ok(x1), m2)
                        &&& self.2.yields(m2, Ok(x2), m3)
                        &&& self.3.yields(m3, Err(h), rest)
                    }
                ||| exists|x0: A::Value, m1: Seq<u128>, x1: B::Value, m2: Seq<u128>, x2: C::Value, m3: Seq<u128>, x3: D::Value, m4: Seq<u128>|
                    {
                        &&& self.0.yields(input, Ok(x0), m1)
                        &&& self.1.yields(m1, Ok(x1), m2)
                        &&& self.2.yields(m2, Ok(x2), m3)
                        &&& self.3.yields(m3, Ok(x3), m4)
                        &&& self.4.yields(m4, Err(h), rest)
                    }
                ||| exists|x0: A::Value, m1: Seq<u128>, x1: B::Value, m2: Seq<u128>, x2: C::Value, m3: Seq<u128>, x3: D::Value, m4: Seq<u128>, x4: E::Value, m5: Seq<u128>|
                    {
                        &&& self.0.yields(input, Ok(x0), m1)
                        &&& self.1.yields(m1, Ok(x1), m2)
                        &&& self.2.yields(m2, Ok(x2), m3)
                        &&& self.3.yields(m3, Ok(x3), m4)
                        &&& self.4.yields(m4, Ok(x4), m5)
                        &&& self.5.yields(m5, Err(h), rest)
                    }
                ||| exists|x0: A::Value, m1: Seq<u128>, x1: B::Value, m2: Seq<u128>, x2: C::Value, m3: Seq<u128>, x3: D::Value, m4: Seq<u128>, x4: E::Value, m5: Seq<u128>, x5: F::Value, m6: Seq<u128>|
                    {
                        &&& self.0.yields(input, Ok(x0), m1)
                        &&& self.1.yields(m1, Ok(x1), m2)
                        &&& self.2.yields(m2, Ok(x2), m3)
                        &&& self.3.yields(m3, Ok(x3), m4)
                        &&& self.4.yields(m4, Ok(x4), m5)
                        &&& self.5.yields(m5, Ok(x5), m6)
                        &&& self.6.yields(m6, Err(h), rest)
                    }
                ||| exists|x0: A::Value, m1: Seq<u128>, x1: B::Value, m2: Seq<u128>, x2: C::Value, m3: Seq<u128>, x3: D::Value, m4: Seq<u128>, x4: E::Value, m5: Seq<u128>, x5: F::Value, m6: Seq<u128>, x6: G::Value, m7: Seq<u128>|
                    {
                        &&& self.0.yields(input, Ok(x0), m1)
                        &&& self.1.yields(m1, Ok(x1), m2)
                        &&& self.2.yields(m2, Ok(x2), m3)
                        &&& self.3.yields(m3, Ok(x3), m4)
                        &&& self.4.yields(m4, Ok(x4), m5)
                        &&& self.5.yields(m5, Ok(x5), m6)
                        &&& self.6.yields(m6, Ok(x6), m7)
                        &&& self.7.yields(m7, Err(h), rest)
                    }
            },
        }
    }

    #[verifier::rlimit(60)]
    fn value(&self, path: &mut Path) -> (r: Result<Self::Value, Halt>) {
        let ghost m0 = path@;
        let x0 = match self.0.value(path) {
            Ok(x) => x,
            Err(h) => {
                return Err(h);
            },
        };
        let ghost m1 = path@;
        let x1 = match self.1.value(path) {
            Ok(x) => x,
            Err(h) => {
                assert({
                    &&& self.0.yields(m0, Ok(x0), m1)
                    &&& self.1.yields(m1, Err(h), path@)
                });
                return Err(h);
            },
        };
        let ghost m2 = path@;
        let x2 = match self.2.value(path) {
            Ok(x) => x,
            Err(h) => {
                assert({
                    &&& self.0.yields(m0, Ok(x0), m1)
                    &&& self.1.yields(m1, Ok(x1), m2)
                    &&& self.2.yields(m2, Err(h), path@)
                });
                return Err(h);
            },
        };
        let ghost m3 = path@;
        let x3 = match self.3.value(path) {
            Ok(x) => x,
            Err(h) => {
                assert({
                    &&& self.0.yields(m0, Ok(x0), m1)
                    &&& self.1.yields(m1, Ok(x1), m2)
                    &&& self.2.yields(m2, Ok(x2), m3)
                    &&& self.3.yields(m3, Err(h), path@)
                });
                return Err(h);
            },
        };
        let ghost m4 = path@;
        let x4 = match self.4.value(path) {
            Ok(x) => x,
            Err(h) => {
                assert({
                    &&& self.0.yields(m0, Ok(x0), m1)
                    &&& self.1.yields(m1, Ok(x1), m2)
                    &&& self.2.yields(m2, Ok(x2), m3)
                    &&& self.3.yields(m3, Ok(x3), m4)
                    &&& self.4.yields(m4, Err(h), path@)
                });
                return Err(h);
            },
        };
        let ghost m5 = path@;
        let x5 = match self.5.value(path) {
            Ok(x) => x,
            Err(h) => {
                assert({
                    &&& self.0.yields(m0, Ok(x0), m1)
                    &&& self.1.yields(m1, Ok(x1), m2)
                    &&& self.2.yields(m2, Ok(x2), m3)
                    &&& self.3.yields(m3, Ok(x3), m4)
                    &&& self.4.yields(m4, Ok(x4), m5)
                    &&& self.5.yields(m5, Err(h), path@)
                });
                return Err(h);
            },
        };
        let ghost m6 = path@;
        let x6 = match self.6.value(path) {
            Ok(x) => x,
            Err(h) => {
                assert({
                    &&& self.0.yields(m0, Ok(x0), m1)
                    &&& self.1.yields(m1, Ok(x1), m2)
                    &&& self.2.yields(m2, Ok(x2), m3)
                    &&& self.3.yields(m3, Ok(x3), m4)
                    &&& self.4.yields(m4, Ok(x4), m5)
                    &&& self.5.yields(m5, Ok(x5), m6)
                    &&& self.6.yields(m6, Err(h), path@)
                });
                return Err(h);
            },
        };
        let ghost m7 = path@;
        let x7 = match self.7.value(path) {
            Ok(x) => x,
            Err(h) => {
                assert({
                    &&& self.0.yields(m0, Ok(x0), m1)
                    &&& self.1.yields(m1, Ok(x1), m2)
                    &&& self.2.yields(m2, Ok(x2), m3)
                    &&& self.3.yields(m3, Ok(x3), m4)
                    &&& self.4.yields(m4, Ok(x4), m5)
                    &&& self.5.yields(m5, Ok(x5), m6)
                    &&& self.6.yields(m6, Ok(x6), m7)
                    &&& self.7.yields(m7, Err(h), path@)
                });
                return Err(h);
            },
        };
        let ghost m8 = path@;
        assert({
            &&& self.0.yields(m0, Ok(x0), m1)
            &&& self.1.yields(m1, Ok(x1), m2)
            &&& self.2.yields(m2, Ok(x2), m3)
            &&& self.3.yields(m3, Ok(x3), m4)
            &&& self.4.yields(m4, Ok(x4), m5)
            &&& self.5.yields(m5, Ok(x5), m6)
            &&& self.6.yields(m6, Ok(x6), m7)
            &&& self.7.yields(m7, Ok(x7), m8)
        });
        Ok((x0, x1, x2, x3, x4, x5, x6, x7))
    }
}

impl<A: Strategy, B: Strategy, C: Strategy, D: Strategy, E: Strategy, F: Strategy, G: Strategy, H: Strategy, I: Strategy> Strategy for (A, B, C, D, E, F, G, H, I) {
    type Value = (A::Value, B::Value, C::Value, D::Value, E::Value, F::Value, G::Value, H::Value, I::Value);

    open spec fn ready(&self) -> bool {
        self.0.ready() && self.1.ready() && self.2.ready() && self.3.ready() && self.4.ready() && self.5.ready() && self.6.ready() && self.7.ready() && self.8.ready()
    }

    /// The components are drawn left to right; the first to halt ends the draw.
    open spec fn yields(&self, input: Seq<u128>, out: Result<Self::Value, Halt>, rest: Seq<u128>) -> bool {
        match out {
            Ok(v) => exists|x0: A::Value, x1: B::Value, x2: C::Value, x3: D::Value, x4: E::Value, x5: F::Value, x6: G::Value, x7: H::Value, x8: I::Value, m1: Seq<u128>, m2: Seq<u128>, m3: Seq<u128>, m4: Seq<u128>, m5: Seq<u128>, m6: Seq<u128>, m7: Seq<u128>, m8: Seq<u128>|
                {
                    &&& v == (x0, x1, x2, x3, x4, x5, x6, x7, x8)
                    &&& self.0.yields(input, Ok(x0), m1)
                    &&& self.1.yields(m1, Ok(x1), m2)
                    &&& self.2.yields(m2, Ok(x2), m3)
                    &&& self.3.yields(m3, Ok(x3), m4)
                    &&& self.4.yields(m4, Ok(x4), m5)
                    &&& self.5.yields(m5, Ok(x5), m6)
                    &&& self.6.yields(m6, Ok(x6), m7)
                    &&& self.7.yields(m7, Ok(x7), m8)
                    &&& self.8.yields(m8, Ok(x8), rest)
                },
            Err(h) => {
                ||| self.0.yields(input, Err(h), rest)
                ||| exists|x0: A::Value, m1: Seq<u128>|
                    {
                        &&& self.0.yields(input, Ok(x0), m1)
                        &&& self.1.yields(m1, Err(h), rest)
                    }
                ||| exists|x0: A::Value, m1: Seq<u128>, x1: B::Value, m2: Seq<u128>|
                    {
                        &&& self.0.yields(input, Ok(x0), m1)
                        &&& self.1.yields(m1, Ok(x1), m2)
                        &&& self.2.yields(m2, Err(h), rest)
                    }
                ||| exists|x0: A::Value, m1: Seq<u128>, x1: B::Value, m2: Seq<u128>, x2: C::Value, m3: Seq<u128>|
                    {
                        &&& self.0.yields(input, Ok(x0), m1)
                        &&& self.1.yields(m1, Ok(x1), m2)
                        &&& self.2.yields(m2, Ok(x2), m3)
                        &&& self.3.yields(m3, Err(h), rest)
                    }
                ||| exists|x0: A::Value, m1: Seq<u128>, x1: B::Value, m2: Seq<u128>, x2: C::Value, m3: Seq<u128>, x3: D::Value, m4: Seq<u128>|
                    {
                        &&& self.0.yields(input, Ok(x0), m1)
                        &&& self.1.yields(m1, Ok(x1), m2)
                        &&& self.2.yields(m2, Ok(x2), m3)
                        &&& self.3.yields(m3, Ok(x3), m4)
                        &&& self.4.yields(m4, Err(h), rest)
                    }
                ||| exists|x0: A::Value, m1: Seq<u128>, x1: B::Value, m2: Seq<u128>, x2: C::Value, m3: Seq<u128>, x3: D::Value, m4: Seq<u128>, x4: E::Value, m5: Seq<u128>|
                    {
                        &&& self.0.yields(input, Ok(x0), m1)
                        &&& self.1.yields(m1, Ok(x1), m2)
                        &&& self.2.yields(m2, Ok(x2), m3)
                        &&& self.3.yields(m3, Ok(x3), m4)
                        &&& self.4.yields(m4, Ok(x4), m5)
                        &&& self.5.yields(m5, Err(h), rest)
                    }
                ||| exists|x0: A::Value, m1: Seq<u128>, x1: B::Value, m2: Seq<u128>, x2: C::Value, m3: Seq<u128>, x3: D::Value, m4: Seq<u128>, x4: E::Value, m5: Seq<u128>, x5: F::Value, m6: Seq<u128>|
                    {
                        &&& self.0.yields(input, Ok(x0), m1)
                        &&& self.1.yields(m1, Ok(x1), m2)
                        &&& self.2.yields(m2, Ok(x2), m3)
                        &&& self.3.yields(m3, Ok(x3), m4)
                        &&& self.4.yields(m4, Ok(x4), m5)
                        &&& self.5.yields(m5, Ok(x5), m6)
                        &&& self.6.yields(m6, Err(h), rest)
                    }
                ||| exists|x0: A::Value, m1: Seq<u128>, x1: B::Value, m2: Seq<u128>, x2: C::Value, m3: Seq<u128>, x3: D::Value, m4: Seq<u128>, x4: E::Value, m5: Seq<u128>, x5: F::Value, m6: Seq<u128>, x6: G::Value, m7: Seq<u128>|
                    {
                        &&& self.0.yields(input, Ok(x0), m1)
                        &&& self.1.yields(m1, Ok(x1), m2)
                        &&& self.2.yields(m2, Ok(x2), m3)
                        &&& self.3.yields(m3, Ok(x3), m4)
                        &&& self.4.yields(m4, Ok(x4), m5)
                        &&& self.5.yields(m5, Ok(x5), m6)
                        &&& self.6.yields(m6, Ok(x6), m7)
                        &&& self.7.yields(m7, Err(h), rest)
                    }
                ||| exists|x0: A::Value, m1: Seq<u128>, x1: B::Value, m2: Seq<u128>, x2: C::Value, m3: Seq<u128>, x3: D::Value, m4: Seq<u128>, x4: E::Value, m5: Seq<u128>, x5: F::Value, m6: Seq<u128>, x6: G::Value, m7: Seq<u128>, x7: H::Value, m8: Seq<u128>|
                    {
                        &&& self.0.yields(input, Ok(x0), m1)
                        &&& self.1.yields(m1, Ok(x1), m2)
                        &&& self.2.yields(m2, Ok(x2), m3)
                        &&& self.3.yields(m3, Ok(x3), m4)
                        &&& self.4.yields(m4, Ok(x4), m5)
                        &&& self.5.yields(m5, Ok(x5), m6)
                        &&& self.6.yields(m6, Ok(x6), m7)
                        &&& self.7.yields(m7, Ok(x7), m8)
                        &&& self.8.yields(m8, Err(h), rest)
                    }
            },
        }
    }

    #[verifier::rlimit(60)]
    fn value(&self, path: &mut Path) -> (r: Result<Self::Value, Halt>) {
        let ghost m0 = path@;
        let x0 = match self.0.value(path) {
            Ok(x) => x,
            Err(h) => {
                return Err(h);
            },
        };
        let ghost m1 = path@;
        let x1 = match self.1.value(path) {
            Ok(x) => x,
            Err(h) => {
                assert({
                    &&& self.0.yields(m0, Ok(x0), m1)
                    &&& self.1.yields(m1, Err(h), path@)
                });
                return Err(h);
            },
        };
        let ghost m2 = path@;
        let x2 = match self.2.value(path) {
            Ok(x) => x,
            Err(h) => {
                assert({
                    &&& self.0.yields(m0, Ok(x0), m1)
                    &&& self.1.yields(m1, Ok(x1), m2)
                    &&& self.2.yields(m2, Err(h), path@)
                });
                return Err(h);
            },
        };
        let ghost m3 = path@;
        let x3 = match self.3.value(path) {
            Ok(x) => x,
            Err(h) => {
                assert({
                    &&& self.0.yields(m0, Ok(x0), m1)
                    &&& self.1.yields(m1, Ok(x1), m2)
                    &&& self.2.yields(m2, Ok(x2), m3)
                    &&& self.3.yields(m3, Err(h), path@)
                });
                return Err(h);
            },
        };
        let ghost m4 = path@;
        let x4 = match self.4.value(path) {
            Ok(x) => x,
            Err(h) => {
                assert({
                    &&& self.0.yields(m0, Ok(x0), m1)
                    &&& self.1.yields(m1, Ok(x1), m2)
                    &&& self.2.yields(m2, Ok(x2), m3)
                    &&& self.3.yields(m3, Ok(x3), m4)
                    &&& self.4.yields(m4, Err(h), path@)
                });
                return Err(h);
            },
        };
        let ghost m5 = path@;
        let x5 = match self.5.value(path) {
            Ok(x) => x,
            Err(h) => {
                assert({
                    &&& self.0.yields(m0, Ok(x0), m1)
                    &&& self.1.yields(m1, Ok(x1), m2)
                    &&& self.2.yields(m2, Ok(x2), m3)
                    &&& self.3.yields(m3, Ok(x3), m4)
                    &&& self.4.yields(m4, Ok(x4), m5)
                    &&& self.5.yields(m5, Err(h), path@)
                });
                return Err(h);
            },
        };
        let ghost m6 = path@;
        let x6 = match self.6.value(path) {
            Ok(x) => x,
            Err(h) => {
                assert({
                    &&& self.0.yields(m0, Ok(x0), m1)
                    &&& self.1.yields(m1, Ok(x1), m2)
                    &&& self.2.yields(m2, Ok(x2), m3)
                    &&& self.3.yields(m3, Ok(x3), m4)
                    &&& self.4.yields(m4, Ok(x4), m5)
                    &&& self.5.yields(m5, Ok(x5), m6)
                    &&& self.6.yields(m6, Err(h), path@)
                });
                return Err(h);
            },
        };
        let ghost m7 = path@;
        let x7 = match self.7.value(path) {
            Ok(x) => x,
            Err(h) => {
                assert({
                    &&& self.0.yields(m0, Ok(x0), m1)
                    &&& self.1.yields(m1, Ok(x1), m2)
                    &&& self.2.yields(m2, Ok(x2), m3)
                    &&& self.3.yields(m3, Ok(x3), m4)
                    &&& self.4.yields(m4, Ok(x4), m5)
                    &&& self.5.yields(m5, Ok(x5), m6)
                    &&& self.6.yields(m6, Ok(x6), m7)
                    &&& self.7.yields(m7, Err(h), path@)
                });
                return Err(h);
            },
        };
        let ghost m8 = path@;
        let x8 = match self.8.value(path) {
            Ok(x) => x,
            Err(h) => {
                assert({
                    &&& self.0.yields(m0, Ok(x0), m1)
                    &&& self.1.yields(m1, Ok(x1), m2)
                    &&& self.2.yields(m2, Ok(x2), m3)
                    &&& self.3.yields(m3, Ok(x3), m4)
                    &&& self.4.yields(m4, Ok(x4), m5)
                    &&& self.5.yields(m5, Ok(x5), m6)
                    &&& self.6.yields(m6, Ok(x6), m7)
                    &&& self.7.yields(m7, Ok(x7), m8)
                    &&& self.8.yields(m8, Err(h), path@)
                });
                return Err(h);
            },
        };
        let ghost m9 = path@;
        assert({
            &&& self.0.yields(m0, Ok(x0), m1)
            &&& self.1.yields(m1, Ok(x1), m2)
            &&& self.2.yields(m2, Ok(x2), m3)
            &&& self.3.yields(m3, Ok(x3), m4)
            &&& self.4.yields(m4, Ok(x4), m5)
            &&& self.5.yields(m5, Ok(x5), m6)
            &&& self.6.yields(m6, Ok(x6), m7)
            &&& self.7.yields(m7, Ok(x7), m8)
            &&& self.8.yields(m8, Ok(x8), m9)
        });
        Ok((x0, x1, x2, x3, x4, x5, x6, x7, x8))
    }
}

impl<A: Strategy, B: Strategy, C: Strategy, D: Strategy, E: Strategy, F: Strategy, G: Strategy, H: Strategy, I: Strategy, J: Strategy> Strategy for (A, B, C, D, E, F, G, H, I, J) {
    type Value = (A::Value, B::Value, C::Value, D::Value, E::Value, F::Value, G::Value, H::Value, I::Value, J::Value);

    open spec fn ready(&self) -> bool {
        self.0.ready() && self.1.ready() && self.2.ready() && self.3.ready() && self.4.ready() && self.5.ready() && self.6.ready() && self.7.ready() && self.8.ready() && self.9.ready()
    }

    /// The components are drawn left to right; the first to halt ends the draw.
    open spec fn yields(&self, input: Seq<u128>, out: Result<Self::Value, Halt>, rest: Seq<u128>) -> bool {
        match out {
            Ok(v) => exists|x0: A::Value, x1: B::Value, x2: C::Value, x3: D::Value, x4: E::Value, x5: F::Value, x6: G::Value, x7: H::Value, x8: I::Value, x9: J::Value, m1: Seq<u128>, m2: Seq<u128>, m3: Seq<u128>, m4: Seq<u128>, m5: Seq<u128>, m6: Seq<u128>, m7: Seq<u128>, m8: Seq<u128>, m9: Seq<u128>|
                {
                    &&& v == (x0, x1, x2, x3, x4, x5, x6, x7, x8, x9)
                    &&& self.0.yields(input, Ok(x0), m1)
                    &&& self.1.yields(m1, Ok(x1), m2)
                    &&& self.2.yields(m2, Ok(x2), m3)
                    &&& self.3.yields(m3, Ok(x3), m4)
                    &&& self.4.yields(m4, Ok(x4), m5)
                    &&& self.5.yields(m5, Ok(x5), m6)
                    &&& self.6.yields(m6, Ok(x6), m7)
                    &&& self.7.yields(m7, Ok(x7), m8)
                    &&& self.8.yields(m8, Ok(x8), m9)
                    &&& self.9.yields(m9, Ok(x9), rest)
                },
            Err(h) => {
                ||| self.0.yields(input, Err(h), rest)
                ||| exists|x0: A::Value, m1: Seq<u128>|
                    {
                        &&& self.0.yields(input, Ok(x0), m1)
                        &&& self.1.yields(m1, Err(h), rest)
                    }
                ||| exists|x0: A::Value, m1: Seq<u128>, x1: B::Value, m2: Seq<u128>|
                    {
                        &&& self.0.yields(input, Ok(x0), m1)
                        &&& self.1.yields(m1, Ok(x1), m2)
                        &&& self.2.yields(m2, Err(h), rest)
                    }
                ||| exists|x0: A::Value, m1: Seq<u128>, x1: B::Value, m2: Seq<u128>, x2: C::Value, m3: Seq<u128>|
                    {
                        &&& self.0.yields(input, Ok(x0), m1)
                        &&& self.1.yields(m1, Ok(x1), m2)
                        &&& self.2.yields(m2, Ok(x2), m3)
                        &&& self.3.yields(m3, Err(h), rest)
                    }
                ||| exists|x0: A::Value, m1: Seq<u128>, x1: B::Value, m2: Seq<u128>, x2: C::Value, m3: Seq<u128>, x3: D::Value, m4: Seq<u128>|
                    {
                        &&& self.0.yields(input, Ok(x0), m1)
                        &&& self.1.yields(m1, Ok(x1), m2)
                        &&& self.2.yields(m2, Ok(x2), m3)
                        &&& self.3.yields(m3, Ok(x3), m4)
                        &&& self.4.yields(m4, Err(h), rest)
                    }
                ||| exists|x0: A::Value, m1: Seq<u128>, x1: B::Value, m2: Seq<u128>, x2: C::Value, m3: Seq<u128>, x3: D::Value, m4: Seq<u128>, x4: E::Value, m5: Seq<u128>|
                    {
                        &&& self.0.yields(input, Ok(x0), m1)
                        &&& self.1.yields(m1, Ok(x1), m2)
                        &&& self.2.yields(m2, Ok(x2), m3)
                        &&& self.3.yields(m3, Ok(x3), m4)
                        &&& self.4.yields(m4, Ok(x4), m5)
                        &&& self.5.yields(m5, Err(h), rest)
                    }
                ||| exists|x0: A::Value, m1: Seq<u128>, x1: B::Value, m2: Seq<u128>, x2: C::Value, m3: Seq<u128>, x3: D::Value, m4: Seq<u128>, x4: E::Value, m5: Seq<u128>, x5: F::Value, m6: Seq<u128>|
                    {
                        &&& self.0.yields(input, Ok(x0), m1)
                        &&& self.1.yields(m1, Ok(x1), m2)
                        &&& self.2.yields(m2, Ok(x2), m3)
                        &&& self.3.yields(m3, Ok(x3), m4)
                        &&& self.4.yields(m4, Ok(x4), m5)
                        &&& self.5.yields(m5, Ok(x5), m6)
                        &&& self.6.yields(m6, Err(h), rest)
                    }
                ||| exists|x0: A::Value, m1: Seq<u128>, x1: B::Value, m2: Seq<u128>, x2: C::Value, m3: Seq<u128>, x3: D::Value, m4: Seq<u128>, x4: E::Value, m5: Seq<u128>, x5: F::Value, m6: Seq<u128>, x6: G::Value, m7: Seq<u128>|
                    {
                        &&& self.0.yields(input, Ok(x0), m1)
                        &&& self.1.yields(m1, Ok(x1), m2)
                        &&& self.2.yields(m2, Ok(x2), m3)
                        &&& self.3.yields(m3, Ok(x3), m4)
                        &&& self.4.yields(m4, Ok(x4), m5)
                        &&& self.5.yields(m5, Ok(x5), m6)
                        &&& self.6.yields(m6, Ok(x6), m7)
                        &&& self.7.yields(m7, Err(h), rest)
                    }
                ||| exists|x0: A::Value, m1: Seq<u128>, x1: B::Value, m2: Seq<u128>, x2: C::Value, m3: Seq<u128>, x3: D::Value, m4: Seq<u128>, x4: E::Value, m5: Seq<u128>, x5: F::Value, m6: Seq<u128>, x6: G::Value, m7: Seq<u128>, x7: H::Value, m8: Seq<u128>|
                    {
                        &&& self.0.yields(input, Ok(x0), m1)
                        &&& self.1.yields(m1, Ok(x1), m2)
                        &&& self.2.yields(m2, Ok(x2), m3)
                        &&& self.3.yields(m3, Ok(x3), m4)
                        &&& self.4.yields(m4, Ok(x4), m5)
                        &&& self.5.yields(m5, Ok(x5), m6)
                        &&& self.6.yields(m6, Ok(x6), m7)
                        &&& self.7.yields(m7, Ok(x7), m8)
                        &&& self.8.yields(m8, Err(h), rest)
                    }
                ||| exists|x0: A::Value, m1: Seq<u128>, x1: B::Value, m2: Seq<u128>, x2: C::Value, m3: Seq<u128>, x3: D::Value, m4: Seq<u128>, x4: E::Value, m5: Seq<u128>, x5: F::Value, m6: Seq<u128>, x6: G::Value, m7: Seq<u128>, x7: H::Value, m8: Seq<u128>, x8: I::Value, m9: Seq<u128>|
                    {
                        &&& self.0.yields(input, Ok(x0), m1)
                        &&& self.1.yields(m1, Ok(x1), m2)
                        &&& self.2.yields(m2, Ok(x2), m3)
                        &&& self.3.yields(m3, Ok(x3), m4)
                        &&& self.4.yields(m4, Ok(x4), m5)
                        &&& self.5.yields(m5, Ok(x5), m6)
                        &&& self.6.yields(m6, Ok(x6), m7)
                        &&& self.7.yields(m7, Ok(x7), m8)
                        &&& self.8.yields(m8, Ok(x8), m9)
                        &&& self.9.yields(m9, Err(h), rest)
                    }
            },
        }
    }

    #[verifier::rlimit(60)]
    fn value(&self, path: &mut Path) -> (r: Result<Self::Value, Halt>) {
        let ghost m0 = path@;
        let x0 = match self.0.value(path) {
            Ok(x) => x,
            Err(h) => {
                return Err(h);
            },
        };
        let ghost m1 = path@;
        let x1 = match self.1.value(path) {
            Ok(x) => x,
            Err(h) => {
                assert({
                    &&& self.0.yields(m0, Ok(x0), m1)
                    &&& self.1.yields(m1, Err(h), path@)
                });
                return Err(h);
            },
        };
        let ghost m2 = path@;
        let x2 = match self.2.value(path) {
            Ok(x) => x,
            Err(h) => {
                assert({
                    &&& self.0.yields(m0, Ok(x0), m1)
                    &&& self.1.yields(m1, Ok(x1), m2)
                    &&& self.2.yields(m2, Err(h), path@)
                });
                return Err(h);
            },
        };
        let ghost m3 = path@;
        let x3 = match self.3.value(path) {
            Ok(x) => x,
            Err(h) => {
                assert({
                    &&& self.0.yields(m0, Ok(x0), m1)
                    &&& self.1.yields(m1, Ok(x1), m2)
                    &&& self.2.yields(m2, Ok(x2), m3)
                    &&& self.3.yields(m3, Err(h), path@)
                });
                return Err(h);
            },
        };
        let ghost m4 = path@;
        let x4 = match self.4.value(path) {
            Ok(x) => x,
            Err(h) => {
                assert({
                    &&& self.0.yields(m0, Ok(x0), m1)
                    &&& self.1.yields(m1, Ok(x1), m2)
                    &&& self.2.yields(m2, Ok(x2), m3)
                    &&& self.3.yields(m3, Ok(x3), m4)
                    &&& self.4.yields(m4, Err(h), path@)
                });
                return Err(h);
            },
        };
        let ghost m5 = path@;
        let x5 = match self.5.value(path) {
            Ok(x) => x,
            Err(h) => {
                assert({
                    &&& self.0.yields(m0, Ok(x0), m1)
                    &&& self.1.yields(m1, Ok(x1), m2)
                    &&& self.2.yields(m2, Ok(x2), m3)
                    &&& self.3.yields(m3, Ok(x3), m4)
                    &&& self.4.yields(m4, Ok(x4), m5)
                    &&& self.5.yields(m5, Err(h), path@)
                });
                return Err(h);
            },
        };
        let ghost m6 = path@;
        let x6 = match self.6.value(path) {
            Ok(x) => x,
            Err(h) => {
                assert({
                    &&& self.0.yields(m0, Ok(x0), m1)
                    &&& self.1.yields(m1, Ok(x1), m2)
                    &&& self.2.yields(m2, Ok(x2), m3)
                    &&& self.3.yields(m3, Ok(x3), m4)
                    &&& self.4.yields(m4, Ok(x4), m5)
                    &&& self.5.yields(m5, Ok(x5), m6)
                    &&& self.6.yields(m6, Err(h), path@)
                });
                return Err(h);
            },
        };
        let ghost m7 = path@;
        let x7 = match self.7.value(path) {
            Ok(x) => x,
            Err(h) => {
                assert({
                    &&& self.0.yields(m0, Ok(x0), m1)
                    &&& self.1.yields(m1, Ok(x1), m2)
                    &&& self.2.yields(m2, Ok(x2), m3)
                    &&& self.3.yields(m3, Ok(x3), m4)
                    &&& self.4.yields(m4, Ok(x4), m5)
                    &&& self.5.yields(m5, Ok(x5), m6)
                    &&& self.6.yields(m6, Ok(x6), m7)
                    &&& self.7.yields(m7, Err(h), path@)
                });
                return Err(h);
            },
        };
        let ghost m8 = path@;
        let x8 = match self.8.value(path) {
            Ok(x) => x,
            Err(h) => {
                assert({
                    &&& self.0.yields(m0, Ok(x0), m1)
                    &&& self.1.yields(m1, Ok(x1), m2)
                    &&& self.2.yields(m2, Ok(x2), m3)
                    &&& self.3.yields(m3, Ok(x3), m4)
                    &&& self.4.yields(m4, Ok(x4), m5)
                    &&& self.5.yields(m5, Ok(x5), m6)
                    &&& self.6.yields(m6, Ok(x6), m7)
                    &&& self.7.yields(m7, Ok(x7), m8)
                    &&& self.8.yields(m8, Err(h), path@)
                });
                return Err(h);
            },
        };
        let ghost m9 = path@;
        let x9 = match self.9.value(path) {
            Ok(x) => x,
            Err(h) => {
                assert({
                    &&& self.0.yields(m0, Ok(x0), m1)
                    &&& self.1.yields(m1, Ok(x1), m2)
                    &&& self.2.yields(m2, Ok(x2), m3)
                    &&& self.3.yields(m3, Ok(x3), m4)
                    &&& self.4.yields(m4, Ok(x4), m5)
                    &&& self.5.yields(m5, Ok(x5), m6)
                    &&& self.6.yields(m6, Ok(x6), m7)
                    &&& self.7.yields(m7, Ok(x7), m8)
                    &&& self.8.yields(m8, Ok(x8), m9)
                    &&& self.9.yields(m9, Err(h), path@)
                });
                return Err(h);
            },
        };
        let ghost m10 = path@;
        assert({
            &&& self.0.yields(m0, Ok(x0), m1)
            &&& self.1.yields(m1, Ok(x1), m2)
            &&& self.2.yields(m2, Ok(x2), m3)
            &&& self.3.yields(m3, Ok(x3), m4)
            &&& self.4.yields(m4, Ok(x4), m5)
            &&& self.5.yields(m5, Ok(x5), m6)
            &&& self.6.yields(m6, Ok(x6), m7)
            &&& self.7.yields(m7, Ok(x7), m8)
            &&& self.8.yields(m8, Ok(x8), m9)
            &&& self.9.yields(m9, Ok(x9), m10)
        });
        Ok((x0, x1, x2, x3, x4, x5, x6, x7, x8, x9))
    }
}

impl<A: Strategy, B: Strategy, C: Strategy, D: Strategy, E: Strategy, F: Strategy, G: Strategy, H: Strategy, I: Strategy, J: Strategy, K: Strategy> Strategy for (A, B, C, D, E, F, G, H, I, J, K) {
    type Value = (A::Value, B::Value, C::Value, D::Value, E::Value, F::Value, G::Value, H::Value, I::Value, J::Value, K::Value);

    open spec fn ready(&self) -> bool {
        self.0.ready() && self.1.ready() && self.2.ready() && self.3.ready() && self.4.ready() && self.5.ready() && self.6.ready() && self.7.ready() && self.8.ready() && self.9.ready() && self.10.ready()
    }

    /// The components are drawn left to right; the first to halt ends the draw.
    open spec fn yields(&self, input: Seq<u128>, out: Result<Self::Value, Halt>, rest: Seq<u128>) -> bool {
        match out {
            Ok(v) => exists|x0: A::Value, x1: B::Value, x2: C::Value, x3: D::Value, x4: E::Value, x5: F::Value, x6: G::Value, x7: H::Value, x8: I::Value, x9: J::Value, x10: K::Value, m1: Seq<u128>, m2: Seq<u128>, m3: Seq<u128>, m4: Seq<u128>, m5: Seq<u128>, m6: Seq<u128>, m7: Seq<u128>, m8: Seq<u128>, m9: Seq<u128>, m10: Seq<u128>|
                {
                    &&& v == (x0, x1, x2, x3, x4, x5, x6, x7, x8, x9, x10)
                    &&& self.0.yields(input, Ok(x0), m1)
                    &&& self.1.yields(m1, Ok(x1), m2)
                    &&& self.2.yields(m2, Ok(x2), m3)
                    &&& self.3.yields(m3, Ok(x3), m4)
                    &&& self.4.yields(m4, Ok(x4), m5)
                    &&& self.5.yields(m5, Ok(x5), m6)
                    &&& self.6.yields(m6, Ok(x6), m7)
                    &&& self.7.yields(m7, Ok(x7), m8)
                    &&& self.8.yields(m8, Ok(x8), m9)
                    &&& self.9.yields(m9, Ok(x9), m10)
                    &&& self.10.yields(m10, Ok(x10), rest)
                },
            Err(h) => {
                ||| self.0.yields(input, Err(h), rest)
                ||| exists|x0: A::Value, m1: Seq<u128>|
                    {
                        &&& self.0.yields(input, Ok(x0), m1)
                        &&& self.1.yields(m1, Err(h), rest)
                    }
                ||| exists|x0: A::Value, m1: Seq<u128>, x1: B::Value, m2: Seq<u128>|
                    {
                        &&& self.0.yields(input, Ok(x0), m1)
                        &&& self.1.yields(m1, Ok(x1), m2)
                        &&& self.2.yields(m2, Err(h), rest)
                    }
                ||| exists|x0: A::Value, m1: Seq<u128>, x1: B::Value, m2: Seq<u128>, x2: C::Value, m3: Seq<u128>|
                    {
                        &&& self.0.yields(input, Ok(x0), m1)
                        &&& self.1.yields(m1, Ok(x1), m2)
                        &&& self.2.yields(m2, Ok(x2), m3)
                        &&& self.3.yields(m3, Err(h), rest)
                    }
                ||| exists|x0: A::Value, m1: Seq<u128>, x1: B::Value, m2: Seq<u128>, x2: C::Value, m3: Seq<u128>, x3: D::Value, m4: Seq<u128>|
                    {
                        &&& self.0.yields(input, Ok(x0), m1)
                        &&& self.1.yields(m1, Ok(x1), m2)
                        &&& self.2.yields(m2, Ok(x2), m3)
                        &&& self.3.yields(m3, Ok(x3), m4)
                        &&& self.4.yields(m4, Err(h), rest)
                    }
                ||| exists|x0: A::Value, m1: Seq<u128>, x1: B::Value, m2: Seq<u128>, x2: C::Value, m3: Seq<u128>, x3: D::Value, m4: Seq<u128>, x4: E::Value, m5: Seq<u128>|
                    {
                        &&& self.0.yields(input, Ok(x0), m1)
                        &&& self.1.yields(m1, Ok(x1), m2)
                        &&& self.2.yields(m2, Ok(x2), m3)
                        &&& self.3.yields(m3, Ok(x3), m4)
                        &&& self.4.yields(m4, Ok(x4), m5)
                        &&& self.5.yields(m5, Err(h), rest)
                    }
                ||| exists|x0: A::Value, m1: Seq<u128>, x1: B::Value, m2: Seq<u128>, x2: C::Value, m3: Seq<u128>, x3: D::Value, m4: Seq<u128>, x4: E::Value, m5: Seq<u128>, x5: F::Value, m6: Seq<u128>|
                    {
                        &&& self.0.yields(input, Ok(x0), m1)
                        &&& self.1.yields(m1, Ok(x1), m2)
                        &&& self.2.yields(m2, Ok(x2), m3)
                        &&& self.3.yields(m3, Ok(x3), m4)
                        &&& self.4.yields(m4, Ok(x4), m5)
                        &&& self.5.yields(m5, Ok(x5), m6)
                        &&& self.6.yields(m6, Err(h), rest)
                    }
                ||| exists|x0: A::Value, m1: Seq<u128>, x1: B::Value, m2: Seq<u128>, x2: C::Value, m3: Seq<u128>, x3: D::Value, m4: Seq<u128>, x4: E::Value, m5: Seq<u128>, x5: F::Value, m6: Seq<u128>, x6: G::Value, m7: Seq<u128>|
                    {
                        &&& self.0.yields(input, Ok(x0), m1)
                        &&& self.1.yields(m1, Ok(x1), m2)
                        &&& self.2.yields(m2, Ok(x2), m3)
                        &&& self.3.yields(m3, Ok(x3), m4)
                        &&& self.4.yields(m4, Ok(x4), m5)
                        &&& self.5.yields(m5, Ok(x5), m6)
                        &&& self.6.yields(m6, Ok(x6), m7)
                        &&& self.7.yields(m7, Err(h), rest)
                    }
                ||| exists|x0: A::Value, m1: Seq<u128>, x1: B::Value, m2: Seq<u128>, x2: C::Value, m3: Seq<u128>, x3: D::Value, m4: Seq<u128>, x4: E::Value, m5: Seq<u128>, x5: F::Value, m6: Seq<u128>, x6: G::Value, m7: Seq<u128>, x7: H::Value, m8: Seq<u128>|
                    {
                        &&& self.0.yields(input, Ok(x0), m1)
                        &&& self.1.yields(m1, Ok(x1), m2)
                        &&& self.2.yields(m2, Ok(x2), m3)
                        &&& self.3.yields(m3, Ok(x3), m4)
                        &&& self.4.yields(m4, Ok(x4), m5)
                        &&& self.5.yields(m5, Ok(x5), m6)
                        &&& self.6.yields(m6, Ok(x6), m7)
                        &&& self.7.yields(m7, Ok(x7), m8)
                        &&& self.8.yields(m8, Err(h), rest)
                    }
                ||| exists|x0: A::Value, m1: Seq<u128>, x1: B::Value, m2: Seq<u128>, x2: C::Value, m3: Seq<u128>, x3: D::Value, m4: Seq<u128>, x4: E::Value, m5: Seq<u128>, x5: F::Value, m6: Seq<u128>, x6: G::Value, m7: Seq<u128>, x7: H::Value, m8: Seq<u128>, x8: I::Value, m9: Seq<u128>|
                    {
                        &&& self.0.yields(input, Ok(x0), m1)
                        &&& self.1.yields(m1, Ok(x1), m2)
                        &&& self.2.yields(m2, Ok(x2), m3)
                        &&& self.3.yields(m3, Ok(x3), m4)
                        &&& self.4.yields(m4, Ok(x4), m5)
                        &&& self.5.yields(m5, Ok(x5), m6)
                        &&& self.6.yields(m6, Ok(x6), m7)
                        &&& self.7.yields(m7, Ok(x7), m8)
                        &&& self.8.yields(m8, Ok(x8), m9)
                        &&& self.9.yields(m9, Err(h), rest)
                    }
                ||| exists|x0: A::Value, m1: Seq<u128>, x1: B::Value, m2: Seq<u128>, x2: C::Value, m3: Seq<u128>, x3: D::Value, m4: Seq<u128>, x4: E::Value, m5: Seq<u128>, x5: F::Value, m6: Seq<u128>, x6: G::Value, m7: Seq<u128>, x7: H::Value, m8: Seq<u128>, x8: I::Value, m9: Seq<u128>, x9: J::Value, m10: Seq<u128>|
                    {
                        &&& self.0.yields(input, Ok(x0), m1)
                        &&& self.1.yields(m1, Ok(x1), m2)
                        &&& self.2.yields(m2, Ok(x2), m3)
                        &&& self.3.yields(m3, Ok(x3), m4)
                        &&& self.4.yields(m4, Ok(x4), m5)
                        &&& self.5.yields(m5, Ok(x5), m6)
                        &&& self.6.yields(m6, Ok(x6), m7)
                        &&& self.7.yields(m7, Ok(x7), m8)
                        &&& self.8.yields(m8, Ok(x8), m9)
                        &&& self.9.yields(m9, Ok(x9), m10)
                        &&& self.10.yields(m10, Err(h), rest)
                    }
            },
        }
    }

    #[verifier::rlimit(60)]
    fn value(&self, path: &mut Path) -> (r: Result<Self::Value, Halt>) {
        let ghost m0 = path@;
        let x0 = match self.0.value(path) {
            Ok(x) => x,
            Err(h) => {
                return Err(h);
            },
        };
        let ghost m1 = path@;
        let x1 = match self.1.value(path) {
            Ok(x) => x,
            Err(h) => {
                assert({
                    &&& self.0.yields(m0, Ok(x0), m1)
                    &&& self.1.yields(m1, Err(h), path@)
                });
                return Err(h);
            },
        };
        let ghost m2 = path@;
        let x2 = match self.2.value(path) {
            Ok(x) => x,
            Err(h) => {
                assert({
                    &&& self.0.yields(m0, Ok(x0), m1)
                    &&& self.1.yields(m1, Ok(x1), m2)
                    &&& self.2.yields(m2, Err(h), path@)
                });
                return Err(h);
            },
        };
        let ghost m3 = path@;
        let x3 = match self.3.value(path) {
            Ok(x) => x,
            Err(h) => {
                assert({
                    &&& self.0.yields(m0, Ok(x0), m1)
                    &&& self.1.yields(m1, Ok(x1), m2)
                    &&& self.2.yields(m2, Ok(x2), m3)
                    &&& self.3.yields(m3, Err(h), path@)
                });
                return Err(h);
            },
        };
        let ghost m4 = path@;
        let x4 = match self.4.value(path) {
            Ok(x) => x,
            Err(h) => {
                assert({
                    &&& self.0.yields(m0, Ok(x0), m1)
                    &&& self.1.yields(m1, Ok(x1), m2)
                    &&& self.2.yields(m2, Ok(x2), m3)
                    &&& self.3.yields(m3, Ok(x3), m4)
                    &&& self.4.yields(m4, Err(h), path@)
                });
                return Err(h);
            },
        };
        let ghost m5 = path@;
        let x5 = match self.5.value(path) {
            Ok(x) => x,
            Err(h) => {
                assert({
                    &&& self.0.yields(m0, Ok(x0), m1)
                    &&& self.1.yields(m1, Ok(x1), m2)
                    &&& self.2.yields(m2, Ok(x2), m3)
                    &&& self.3.yields(m3, Ok(x3), m4)
                    &&& self.4.yields(m4, Ok(x4), m5)
                    &&& self.5.yields(m5, Err(h), path@)
                });
                return Err(h);
            },
        };
        let ghost m6 = path@;
        let x6 = match self.6.value(path) {
            Ok(x) => x,
            Err(h) => {
                assert({
                    &&& self.0.yields(m0, Ok(x0), m1)
                    &&& self.1.yields(m1, Ok(x1), m2)
                    &&& self.2.yields(m2, Ok(x2), m3)
                    &&& self.3.yields(m3, Ok(x3), m4)
                    &&& self.4.yields(m4, Ok(x4), m5)
                    &&& self.5.yields(m5, Ok(x5), m6)
                    &&& self.6.yields(m6, Err(h), path@)
                });
                return Err(h);
            },
        };
        let ghost m7 = path@;
        let x7 = match self.7.value(path) {
            Ok(x) => x,
            Err(h) => {
                assert({
                    &&& self.0.yields(m0, Ok(x0), m1)
                    &&& self.1.yields(m1, Ok(x1), m2)
                    &&& self.2.yields(m2, Ok(x2), m3)
                    &&& self.3.yields(m3, Ok(x3), m4)
                    &&& self.4.yields(m4, Ok(x4), m5)
                    &&& self.5.yields(m5, Ok(x5), m6)
                    &&& self.6.yields(m6, Ok(x6), m7)
                    &&& self.7.yields(m7, Err(h), path@)
                });
                return Err(h);
            },
        };
        let ghost m8 = path@;
        let x8 = match self.8.value(path) {
            Ok(x) => x,
            Err(h) => {
                assert({
                    &&& self.0.yields(m0, Ok(x0), m1)
                    &&& self.1.yields(m1, Ok(x1), m2)
                    &&& self.2.yields(m2, Ok(x2), m3)
                    &&& self.3.yields(m3, Ok(x3), m4)
                    &&& self.4.yields(m4, Ok(x4), m5)
                    &&& self.5.yields(m5, Ok(x5), m6)
                    &&& self.6.yields(m6, Ok(x6), m7)
                    &&& self.7.yields(m7, Ok(x7), m8)
                    &&& self.8.yields(m8, Err(h), path@)
                });
                return Err(h);
            },
        };
        let ghost m9 = path@;
        let x9 = match self.9.value(path) {
            Ok(x) => x,
            Err(h) => {
                assert({
                    &&& self.0.yields(m0, Ok(x0), m1)
                    &&& self.1.yields(m1, Ok(x1), m2)
                    &&& self.2.yields(m2, Ok(x2), m3)
                    &&& self.3.yields(m3, Ok(x3), m4)
                    &&& self.4.yields(m4, Ok(x4), m5)
                    &&& self.5.yields(m5, Ok(x5), m6)
                    &&& self.6.yields(m6, Ok(x6), m7)
                    &&& self.7.yields(m7, Ok(x7), m8)
                    &&& self.8.yields(m8, Ok(x8), m9)
                    &&& self.9.yields(m9, Err(h), path@)
                });
                return Err(h);
            },
        };
        let ghost m10 = path@;
        let x10 = match self.10.value(path) {
            Ok(x) => x,
            Err(h) => {
                assert({
                    &&& self.0.yields(m0, Ok(x0), m1)
                    &&& self.1.yields(m1, Ok(x1), m2)
                    &&& self.2.yields(m2, Ok(x2), m3)
                    &&& self.3.yields(m3, Ok(x3), m4)
                    &&& self.4.yields(m4, Ok(x4), m5)
                    &&& self.5.yields(m5, Ok(x5), m6)
                    &&& self.6.yields(m6, Ok(x6), m7)
                    &&& self.7.yields(m7, Ok(x7), m8)
                    &&& self.8.yields(m8, Ok(x8), m9)
                    &&& self.9.yields(m9, Ok(x9), m10)
                    &&& self.10.yields(m10, Err(h), path@)
                });
                return Err(h);
            },
        };
        let ghost m11 = path@;
        assert({
            &&& self.0.yields(m0, Ok(x0), m1)
            &&& self.1.yields(m1, Ok(x1), m2)
            &&& self.2.yields(m2, Ok(x2), m3)
            &&& self.3.yields(m3, Ok(x3), m4)
            &&& self.4.yields(m4, Ok(x4), m5)
            &&& self.5.yields(m5, Ok(x5), m6)
            &&& self.6.yields(m6, Ok(x6), m7)
            &&& self.7.yields(m7, Ok(x7), m8)
            &&& self.8.yields(m8, Ok(x8), m9)
            &&& self.9.yields(m9, Ok(x9), m10)
            &&& self.10.yields(m10, Ok(x10), m11)
        });
        Ok((x0, x1, x2, x3, x4, x5, x6, x7, x8, x9, x10))
    }
}

impl<A: Strategy, B: Strategy, C: Strategy, D: Strategy, E: Strategy, F: Strategy, G: Strategy, H: Strategy, I: Strategy, J: Strategy, K: Strategy, L: Strategy> Strategy for (A, B, C, D, E, F, G, H, I, J, K, L) {
    type Value = (A::Value, B::Value, C::Value, D::Value, E::Value, F::Value, G::Value, H::Value, I::Value, J::Value, K::Value, L::Value);

    open spec fn ready(&self) -> bool {
        self.0.ready() && self.1.ready() && self.2.ready() && self.3.ready() && self.4.ready() && self.5.ready() && self.6.ready() && self.7.ready() && self.8.ready() && self.9.ready() && self.10.ready() && self.11.ready()
    }

    /// The components are drawn left to right; the first to halt ends the draw.
    open spec fn yields(&self, input: Seq<u128>, out: Result<Self::Value, Halt>, rest: Seq<u128>) -> bool {
        match out {
            Ok(v) => exists|x0: A::Value, x1: B::Value, x2: C::Value, x3: D::Value, x4: E::Value, x5: F::Value, x6: G::Value, x7: H::Value, x8: I::Value, x9: J::Value, x10: K::Value, x11: L::Value, m1: Seq<u128>, m2: Seq<u128>, m3: Seq<u128>, m4: Seq<u128>, m5: Seq<u128>, m6: Seq<u128>, m7: Seq<u128>, m8: Seq<u128>, m9: Seq<u128>, m10: Seq<u128>, m11: Seq<u128>|
                {
                    &&& v == (x0, x1, x2, x3, x4, x5, x6, x7, x8, x9, x10, x11)
                    &&& self.0.yields(input, Ok(x0), m1)
                    &&& self.1.yields(m1, Ok(x1), m2)
                    &&& self.2.yields(m2, Ok(x2), m3)
                    &&& self.3.yields(m3, Ok(x3), m4)
                    &&& self.4.yields(m4, Ok(x4), m5)
                    &&& self.5.yields(m5, Ok(x5), m6)
                    &&& self.6.yields(m6, Ok(x6), m7)
                    &&& self.7.yields(m7, Ok(x7), m8)
                    &&& self.8.yields(m8, Ok(x8), m9)
                    &&& self.9.yields(m9, Ok(x9), m10)
                    &&& self.10.yields(m10, Ok(x10), m11)
                    &&& self.11.yields(m11, Ok(x11), rest)
                },
            Err(h) => {
                ||| self.0.yields(input, Err(h), rest)
                ||| exists|x0: A::Value, m1: Seq<u128>|
                    {
                        &&& self.0.yields(input, Ok(x0), m1)
                        &&& self.1.yields(m1, Err(h), rest)
                    }
                ||| exists|x0: A::Value, m1: Seq<u128>, x1: B::Value, m2: Seq<u128>|
                    {
                        &&& self.0.yields(input, Ok(x0), m1)
                        &&& self.1.yields(m1, Ok(x1), m2)
                        &&& self.2.yields(m2, Err(h), rest)
                    }
                ||| exists|x0: A::Value, m1: Seq<u128>, x1: B::Value, m2: Seq<u128>, x2: C::Value, m3: Seq<u128>|
                    {
                        &&& self.0.yields(input, Ok(x0), m1)
                        &&& self.1.yields(m1, Ok(x1), m2)
                        &&& self.2.yields(m2, Ok(x2), m3)
                        &&& self.3.yields(m3, Err(h), rest)
                    }
                ||| exists|x0: A::Value, m1: Seq<u128>, x1: B::Value, m2: Seq<u128>, x2: C::Value, m3: Seq<u128>, x3: D::Value, m4: Seq<u128>|
                    {
                        &&& self.0.yields(input, Ok(x0), m1)
                        &&& self.1.yields(m1, Ok(x1), m2)
                        &&& self.2.yields(m2, Ok(x2), m3)
                        &&& self.3.yields(m3, Ok(x3), m4)
                        &&& self.4.yields(m4, Err(h), rest)
                    }
                ||| exists|x0: A::Value, m1: Seq<u128>, x1: B::Value, m2: Seq<u128>, x2: C::Value, m3: Seq<u128>, x3: D::Value, m4: Seq<u128>, x4: E::Value, m5: Seq<u128>|
                    {
                        &&& self.0.yields(input, Ok(x0), m1)
                        &&& self.1.yields(m1, Ok(x1), m2)
                        &&& self.2.yields(m2, Ok(x2), m3)
                        &&& self.3.yields(m3, Ok(x3), m4)
                        &&& self.4.yields(m4, Ok(x4), m5)
                        &&& self.5.yields(m5, Err(h), rest)
                    }
                ||| exists|x0: A::Value, m1: Seq<u128>, x1: B::Value, m2: Seq<u128>, x2: C::Value, m3: Seq<u128>, x3: D::Value, m4: Seq<u128>, x4: E::Value, m5: Seq<u128>, x5: F::Value, m6: Seq<u128>|
                    {
                        &&& self.0.yields(input, Ok(x0), m1)
                        &&& self.1.yields(m1, Ok(x1), m2)
                        &&& self.2.yields(m2, Ok(x2), m3)
                        &&& self.3.yields(m3, Ok(x3), m4)
                        &&& self.4.yields(m4, Ok(x4), m5)
                        &&& self.5.yields(m5, Ok(x5), m6)
                        &&& self.6.yields(m6, Err(h), rest)
                    }
                ||| exists|x0: A::Value, m1: Seq<u128>, x1: B::Value, m2: Seq<u128>, x2: C::Value, m3: Seq<u128>, x3: D::Value, m4: Seq<u128>, x4: E::Value, m5: Seq<u128>, x5: F::Value, m6: Seq<u128>, x6: G::Value, m7: Seq<u128>|
                    {
                        &&& self.0.yields(input, Ok(x0), m1)
                        &&& self.1.yields(m1, Ok(x1), m2)
                        &&& self.2.yields(m2, Ok(x2), m3)
                        &&& self.3.yields(m3, Ok(x3), m4)
                        &&& self.4.yields(m4, Ok(x4), m5)
                        &&& self.5.yields(m5, Ok(x5), m6)
                        &&& self.6.yields(m6, Ok(x6), m7)
                        &&& self.7.yields(m7, Err(h), rest)
                    }
                ||| exists|x0: A::Value, m1: Seq<u128>, x1: B::Value, m2: Seq<u128>, x2: C::Value, m3: Seq<u128>, x3: D::Value, m4: Seq<u128>, x4: E::Value, m5: Seq<u128>, x5: F::Value, m6: Seq<u128>, x6: G::Value, m7: Seq<u128>, x7: H::Value, m8: Seq<u128>|
                    {
                        &&& self.0.yields(input, Ok(x0), m1)
                        &&& self.1.yields(m1, Ok(x1), m2)
                        &&& self.2.yields(m2, Ok(x2), m3)
                        &&& self.3.yields(m3, Ok(x3), m4)
                        &&& self.4.yields(m4, Ok(x4), m5)
                        &&& self.5.yields(m5, Ok(x5), m6)
                        &&& self.6.yields(m6, Ok(x6), m7)
                        &&& self.7.yields(m7, Ok(x7), m8)
                        &&& self.8.yields(m8, Err(h), rest)
                    }
                ||| exists|x0: A::Value, m1: Seq<u128>, x1: B::Value, m2: Seq<u128>, x2: C::Value, m3: Seq<u128>, x3: D::Value, m4: Seq<u128>, x4: E::Value, m5: Seq<u128>, x5: F::Value, m6: Seq<u128>, x6: G::Value, m7: Seq<u128>, x7: H::Value, m8: Seq<u128>, x8: I::Value, m9: Seq<u128>|
                    {
                        &&& self.0.yields(input, Ok(x0), m1)
                        &&& self.1.yields(m1, Ok(x1), m2)
                        &&& self.2.yields(m2, Ok(x2), m3)
                        &&& self.3.yields(m3, Ok(x3), m4)
                        &&& self.4.yields(m4, Ok(x4), m5)
                        &&& self.5.yields(m5, Ok(x5), m6)
                        &&& self.6.yields(m6, Ok(x6), m7)
                        &&& self.7.yields(m7, Ok(x7), m8)
                        &&& self.8.yields(m8, Ok(x8), m9)
                        &&& self.9.yields(m9, Err(h), rest)
                    }
                ||| exists|x0: A::Value, m1: Seq<u128>, x1: B::Value, m2: Seq<u128>, x2: C::Value, m3: Seq<u128>, x3: D::Value, m4: Seq<u128>, x4: E::Value, m5: Seq<u128>, x5: F::Value, m6: Seq<u128>, x6: G::Value, m7: Seq<u128>, x7: H::Value, m8: Seq<u128>, x8: I::Value, m9: Seq<u128>, x9: J::Value, m10: Seq<u128>|
                    {
                        &&& self.0.yields(input, Ok(x0), m1)
                        &&& self.1.yields(m1, Ok(x1), m2)
                        &&& self.2.yields(m2, Ok(x2), m3)
                        &&& self.3.yields(m3, Ok(x3), m4)
                        &&& self.4.yields(m4, Ok(x4), m5)
                        &&& self.5.yields(m5, Ok(x5), m6)
                        &&& self.6.yields(m6, Ok(x6), m7)
                        &&& self.7.yields(m7, Ok(x7), m8)
                        &&& self.8.yields(m8, Ok(x8), m9)
                        &&& self.9.yields(m9, Ok(x9), m10)
                        &&& self.10.yields(m10, Err(h), rest)
                    }
                ||| exists|x0: A::Value, m1: Seq<u128>, x1: B::Value, m2: Seq<u128>, x2: C::Value, m3: Seq<u128>, x3: D::Value, m4: Seq<u128>, x4: E::Value, m5: Seq<u128>, x5: F::Value, m6: Seq<u128>, x6: G::Value, m7: Seq<u128>, x7: H::Value, m8: Seq<u128>, x8: I::Value, m9: Seq<u128>, x9: J::Value, m10: Seq<u128>, x10: K::Value, m11: Seq<u128>|
                    {
                        &&& self.0.yields(input, Ok(x0), m1)
                        &&& self.1.yields(m1, Ok(x1), m2)
                        &&& self.2.yields(m2, Ok(x2), m3)
                        &&& self.3.yields(m3, Ok(x3), m4)
                        &&& self.4.yields(m4, Ok(x4), m5)
                        &&& self.5.yields(m5, Ok(x5), m6)
                        &&& self.6.yields(m6, Ok(x6), m7)
                        &&& self.7.yields(m7, Ok(x7), m8)
                        &&& self.8.yields(m8, Ok(x8), m9)
                        &&& self.9.yields(m9, Ok(x9), m10)
                        &&& self.10.yields(m10, Ok(x10), m11)
                        &&& self.11.yields(m11, Err(h), rest)
                    }
            },
        }
    }

    #[verifier::rlimit(60)]
    fn value(&self, path: &mut Path) -> (r: Result<Self::Value, Halt>) {
        let ghost m0 = path@;
        let x0 = match self.0.value(path) {
            Ok(x) => x,
            Err(h) => {
                return Err(h);
            },
        };
        let ghost m1 = path@;
        let x1 = match self.1.value(path) {
            Ok(x) => x,
            Err(h) => {
                assert({
                    &&& self.0.yields(m0, Ok(x0), m1)
                    &&& self.1.yields(m1, Err(h), path@)
                });
                return Err(h);
            },
        };
        let ghost m2 = path@;
        let x2 = match self.2.value(path) {
            Ok(x) => x,
            Err(h) => {
                assert({
                    &&& self.0.yields(m0, Ok(x0), m1)
                    &&& self.1.yields(m1, Ok(x1), m2)
                    &&& self.2.yields(m2, Err(h), path@)
                });
                return Err(h);
            },
        };
        let ghost m3 = path@;
        let x3 = match self.3.value(path) {
            Ok(x) => x,
            Err(h) => {
                assert({
                    &&& self.0.yields(m0, Ok(x0), m1)
                    &&& self.1.yields(m1, Ok(x1), m2)
                    &&& self.2.yields(m2, Ok(x2), m3)
                    &&& self.3.yields(m3, Err(h), path@)
                });
                return Err(h);
            },
        };
        let ghost m4 = path@;
        let x4 = match self.4.value(path) {
            Ok(x) => x,
            Err(h) => {
                assert({
                    &&& self.0.yields(m0, Ok(x0), m1)
                    &&& self.1.yields(m1, Ok(x1), m2)
                    &&& self.2.yields(m2, Ok(x2), m3)
                    &&& self.3.yields(m3, Ok(x3), m4)
                    &&& self.4.yields(m4, Err(h), path@)
                });
                return Err(h);
            },
        };
        let ghost m5 = path@;
        let x5 = match self.5.value(path) {
            Ok(x) => x,
            Err(h) => {
                assert({
                    &&& self.0.yields(m0, Ok(x0), m1)
                    &&& self.1.yields(m1, Ok(x1), m2)
                    &&& self.2.yields(m2, Ok(x2), m3)
                    &&& self.3.yields(m3, Ok(x3), m4)
                    &&& self.4.yields(m4, Ok(x4), m5)
                    &&& self.5.yields(m5, Err(h), path@)
                });
                return Err(h);
            },
        };
        let ghost m6 = path@;
        let x6 = match self.6.value(path) {
            Ok(x) => x,
            Err(h) => {
                assert({
                    &&& self.0.yields(m0, Ok(x0), m1)
                    &&& self.1.yields(m1, Ok(x1), m2)
                    &&& self.2.yields(m2, Ok(x2), m3)
                    &&& self.3.yields(m3, Ok(x3), m4)
                    &&& self.4.yields(m4, Ok(x4), m5)
                    &&& self.5.yields(m5, Ok(x5), m6)
                    &&& self.6.yields(m6, Err(h), path@)
                });
                return Err(h);
            },
        };
        let ghost m7 = path@;
        let x7 = match self.7.value(path) {
            Ok(x) => x,
            Err(h) => {
                assert({
                    &&& self.0.yields(m0, Ok(x0), m1)
                    &&& self.1.yields(m1, Ok(x1), m2)
                    &&& self.2.yields(m2, Ok(x2), m3)
                    &&& self.3.yields(m3, Ok(x3), m4)
                    &&& self.4.yields(m4, Ok(x4), m5)
                    &&& self.5.yields(m5, Ok(x5), m6)
                    &&& self.6.yields(m6, Ok(x6), m7)
                    &&& self.7.yields(m7, Err(h), path@)
                });
                return Err(h);
            },
        };
        let ghost m8 = path@;
        let x8 = match self.8.value(path) {
            Ok(x) => x,
            Err(h) => {
                assert({
                    &&& self.0.yields(m0, Ok(x0), m1)
                    &&& self.1.yields(m1, Ok(x1), m2)
                    &&& self.2.yields(m2, Ok(x2), m3)
                    &&& self.3.yields(m3, Ok(x3), m4)
                    &&& self.4.yields(m4, Ok(x4), m5)
                    &&& self.5.yields(m5, Ok(x5), m6)
                    &&& self.6.yields(m6, Ok(x6), m7)
                    &&& self.7.yields(m7, Ok(x7), m8)
                    &&& self.8.yields(m8, Err(h), path@)
                });
                return Err(h);
            },
        };
        let ghost m9 = path@;
        let x9 = match self.9.value(path) {
            Ok(x) => x,
            Err(h) => {
                assert({
                    &&& self.0.yields(m0, Ok(x0), m1)
                    &&& self.1.yields(m1, Ok(x1), m2)
                    &&& self.2.yields(m2, Ok(x2), m3)
                    &&& self.3.yields(m3, Ok(x3), m4)
                    &&& self.4.yields(m4, Ok(x4), m5)
                    &&& self.5.yields(m5, Ok(x5), m6)
                    &&& self.6.yields(m6, Ok(x6), m7)
                    &&& self.7.yields(m7, Ok(x7), m8)
                    &&& self.8.yields(m8, Ok(x8), m9)
                    &&& self.9.yields(m9, Err(h), path@)
                });
                return Err(h);
            },
        };
        let ghost m10 = path@;
        let x10 = match self.10.value(path) {
            Ok(x) => x,
            Err(h) => {
                assert({
                    &&& self.0.yields(m0, Ok(x0), m1)
                    &&& self.1.yields(m1, Ok(x1), m2)
                    &&& self.2.yields(m2, Ok(x2), m3)
                    &&& self.3.yields(m3, Ok(x3), m4)
                    &&& self.4.yields(m4, Ok(x4), m5)
                    &&& self.5.yields(m5, Ok(x5), m6)
                    &&& self.6.yields(m6, Ok(x6), m7)
                    &&& self.7.yields(m7, Ok(x7), m8)
                    &&& self.8.yields(m8, Ok(x8), m9)
                    &&& self.9.yields(m9, Ok(x9), m10)
                    &&& self.10.yields(m10, Err(h), path@)
                });
                return Err(h);
            },
        };
        let ghost m11 = path@;
        let x11 = match self.11.value(path) {
            Ok(x) => x,
            Err(h) => {
                assert({
                    &&& self.0.yields(m0, Ok(x0), m1)
                    &&& self.1.yields(m1, Ok(x1), m2)
                    &&& self.2.yields(m2, Ok(x2), m3)
                    &&& self.3.yields(m3, Ok(x3), m4)
                    &&& self.4.yields(m4, Ok(x4), m5)
                    &&& self.5.yields(m5, Ok(x5), m6)
                    &&& self.6.yields(m6, Ok(x6), m7)
                    &&& self.7.yields(m7, Ok(x7), m8)
                    &&& self.8.yields(m8, Ok(x8), m9)
                    &&& self.9.yields(m9, Ok(x9), m10)
                    &&& self.10.yields(m10, Ok(x10), m11)
                    &&& self.11.yields(m11, Err(h), path@)
                });
                return Err(h);
            },
        };
        let ghost m12 = path@;
        assert({
            &&& self.0.yields(m0, Ok(x0), m1)
            &&& self.1.yields(m1, Ok(x1), m2)
            &&& self.2.yields(m2, Ok(x2), m3)
            &&& self.3.yields(m3, Ok(x3), m4)
            &&& self.4.yields(m4, Ok(x4), m5)
            &&& self.5.yields(m5, Ok(x5), m6)
            &&& self.6.yields(m6, Ok(x6), m7)
            &&& self.7.yields(m7, Ok(x7), m8)
            &&& self.8.yields(m8, Ok(x8), m9)
            &&& self.9.yields(m9, Ok(x9), m10)
            &&& self.10.yields(m10, Ok(x10), m11)
            &&& self.11.yields(m11, Ok(x11), m12)
        });
        Ok((x0, x1, x2, x3, x4, x5, x6, x7, x8, x9, x10, x11))
    }
}

} // verus!

verus! {

/// `RangeFrom` as std defines it: its one public field `start`.
#[verifier::external_type_specification]
#[verifier::reject_recursive_types(Idx)]
pub struct ExRangeFrom<Idx>(core::ops::RangeFrom<Idx>);

/// `RangeTo` as std defines it: its one public field `end`.
#[verifier::external_type_specification]
#[verifier::reject_recursive_types(Idx)]
pub struct ExRangeTo<Idx>(core::ops::RangeTo<Idx>);

/// `RangeToInclusive` as std defines it: its one public field `end`.
#[verifier::external_type_specification]
#[verifier::reject_recursive_types(Idx)]
pub struct ExRangeToInclusive<Idx>(core::ops::RangeToInclusive<Idx>);

/// Relies on `RangeInclusive::start`: the lower bound the range was made with.
pub assume_specification<Idx>[ core::ops::RangeInclusive::<Idx>::start ](
    r: &core::ops::RangeInclusive<Idx>,
) -> (s: &Idx)
    ensures
        *s == r@.start,
;

/// Relies on `RangeInclusive::end`: the upper bound the range was made with.
pub assume_specification<Idx>[ core::ops::RangeInclusive::<Idx>::end ](
    r: &core::ops::RangeInclusive<Idx>,
) -> (e: &Idx)
    ensures
        *e == r@.end,
;

impl<T: Scalar> Strategy for core::ops::RangeInclusive<T> {
    type Value = T;

    open spec fn ready(&self) -> bool {
        true
    }

    open spec fn yields(&self, input: Seq<u128>, out: Result<T, Halt>, rest: Seq<u128>) -> bool {
        bounded_draw(
            input,
            out,
            rest,
            |n: int| self@.start.to_int() <= n && n <= self@.end.to_int(),
        )
    }

    fn value(&self, path: &mut Path) -> (r: Result<T, Halt>) {
        let r: T = verifier_abstract_value(path);
        verifier_assume(self.start().leq(r))?;
        verifier_assume(r.leq(*self.end()))?;
        Ok(r)
    }
}

impl<T: Scalar> Strategy for core::ops::RangeFrom<T> {
    type Value = T;

    open spec fn ready(&self) -> bool {
        true
    }

    open spec fn yields(&self, input: Seq<u128>, out: Result<T, Halt>, rest: Seq<u128>) -> bool {
        bounded_draw(input, out, rest, |n: int| self.start.to_int() <= n)
    }

    fn value(&self, path: &mut Path) -> (r: Result<T, Halt>) {
        let r: T = verifier_abstract_value(path);
        verifier_assume(self.start.leq(r))?;
        Ok(r)
    }
}

impl<T: Scalar> Strategy for core::ops::RangeTo<T> {
    type Value = T;

    open spec fn ready(&self) -> bool {
        true
    }

    open spec fn yields(&self, input: Seq<u128>, out: Result<T, Halt>, rest: Seq<u128>) -> bool {
        bounded_draw(input, out, rest, |n: int| n < self.end.to_int())
    }

    fn value(&self, path: &mut Path) -> (r: Result<T, Halt>) {
        let r: T = verifier_abstract_value(path);
        verifier_assume(r.less(self.end))?;
        Ok(r)
    }
}

impl<T: Scalar> Strategy for core::ops::RangeToInclusive<T> {
    type Value = T;

    open spec fn ready(&self) -> bool {
        true
    }

    open spec fn yields(&self, input: Seq<u128>, out: Result<T, Halt>, rest: Seq<u128>) -> bool {
        bounded_draw(input, out, rest, |n: int| n <= self.end.to_int())
    }

    fn value(&self, path: &mut Path) -> (r: Result<T, Halt>) {
        let r: T = verifier_abstract_value(path);
        verifier_assume(r.leq(self.end))?;
        Ok(r)
    }
}

/// The selector drawn as a `bool` by `Any<bool>`: `Some` of it where the
/// byte is 0 or 1, `None` where the path is pruned.
pub open spec fn selector(input: Seq<u128>) -> Option<bool> {
    let c = head(input) as u8;
    if c == 0 || c == 1 {
        Some(c == 1)
    } else {
        None
    }
}

/// `None`, or `Some` of a value of `s`, as a drawn `bool` says.
pub struct OptionStrategy<S> {
    pub s: S,
}

impl<S: Strategy> OptionStrategy<S> {
    pub fn new(s: S) -> (r: Self)
        ensures
            r.s == s,
    {
        OptionStrategy { s }
    }
}

impl<S: Strategy> Strategy for OptionStrategy<S> {
    type Value = Option<S::Value>;

    open spec fn ready(&self) -> bool {
        self.s.ready()
    }

    open spec fn yields(&self, input: Seq<u128>, out: Result<Option<S::Value>, Halt>, rest: Seq<u128>) -> bool {
        match selector(input) {
            None => out == Err::<Option<S::Value>, Halt>(Halt::Pruned) && rest == tail(input),
            Some(false) => out == Ok::<Option<S::Value>, Halt>(None) && rest == tail(input),
            Some(true) => match out {
                Ok(Some(v)) => self.s.yields(tail(input), Ok(v), rest),
                Ok(None) => false,
                Err(h) => self.s.yields(tail(input), Err(h), rest),
            },
        }
    }

    fn value(&self, path: &mut Path) -> (r: Result<Option<S::Value>, Halt>) {
        if Any::<bool>::new().value(path)? {
            Ok(Some(self.s.value(path)?))
        } else {
            Ok(None)
        }
    }
}

/// `Ok` of a value of `a` or `Err` of a value of `b`, as a drawn `bool` says.
pub struct ResultStrategy<A, B> {
    pub a: A,
    pub b: B,
}

impl<A: Strategy, B: Strategy> ResultStrategy<A, B> {
    pub fn new(a: A, b: B) -> (r: Self)
        ensures
            r.a == a,
            r.b == b,
    {
        ResultStrategy { a, b }
    }
}

impl<A: Strategy, B: Strategy> Strategy for ResultStrategy<A, B> {
    type Value = Result<A::Value, B::Value>;

    open spec fn ready(&self) -> bool {
        self.a.ready() && self.b.ready()
    }

    open spec fn yields(&self, input: Seq<u128>, out: Result<Self::Value, Halt>, rest: Seq<u128>) -> bool {
        match selector(input) {
            None => out is Err && out->Err_0 == Halt::Pruned && rest == tail(input),
            Some(true) => match out {
                Ok(Ok(v)) => self.a.yields(tail(input), Ok(v), rest),
                Ok(Err(_)) => false,
                Err(h) => self.a.yields(tail(input), Err(h), rest),
            },
            Some(false) => match out {
                Ok(Err(v)) => self.b.yields(tail(input), Ok(v), rest),
                Ok(Ok(_)) => false,
                Err(h) => self.b.yields(tail(input), Err(h), rest),
            },
        }
    }

    fn value(&self, path: &mut Path) -> (r: Result<Self::Value, Halt>) {
        if Any::<bool>::new().value(path)? {
            Ok(Ok(self.a.value(path)?))
        } else {
            Ok(Err(self.b.value(path)?))
        }
    }
}

} // verus!

verus! {

/// `vals` are drawn one after another from `s`, reading from `input` and
/// leaving `rest`.
pub open spec fn draws<S: Strategy>(s: S, input: Seq<u128>, vals: Seq<S::Value>, rest: Seq<u128>) -> bool
    decreases vals.len(),
{
    if vals.len() == 0 {
        rest == input
    } else {
        exists|mid: Seq<u128>|
            draws(s, input, vals.drop_last(), mid) && #[trigger] s.yields(
                mid,
                Ok(vals.last()),
                rest,
            )
    }
}

/// Fewer than `n` values are drawn from `s`, and then drawing ends in `h`.
pub open spec fn halts_within<S: Strategy>(
    s: S,
    n: nat,
    input: Seq<u128>,
    h: Halt,
    rest: Seq<u128>,
) -> bool {
    exists|vals: Seq<S::Value>, mid: Seq<u128>|
        vals.len() < n && #[trigger] draws(s, input, vals, mid) && s.yields(mid, Err(h), rest)
}

/// One more value drawn after `vals`.
pub proof fn lemma_draws_push<S: Strategy>(
    s: S,
    input: Seq<u128>,
    vals: Seq<S::Value>,
    mid: Seq<u128>,
    v: S::Value,
    rest: Seq<u128>,
)
    requires
        draws(s, input, vals, mid),
        s.yields(mid, Ok(v), rest),
    ensures
        draws(s, input, vals.push(v), rest),
{
    let w = vals.push(v);
    assert(w.drop_last() =~= vals);
    assert(w.last() == v);
    assert(draws(s, input, w.drop_last(), mid) && s.yields(mid, Ok(w.last()), rest));
    assert(w.len() > 0);

}

/// Draws `n` values from `s`, in order.
pub fn draw_seq<S: Strategy>(s: &S, n: usize, path: &mut Path) -> (r: Result<Vec<S::Value>, Halt>)
    requires
        s.ready(),
        old(path).wf(),
    ensures
        final(path).wf(),
        final(path).is_replay() == old(path).is_replay(),
        match r {
            Ok(v) => v@.len() == n && draws(*s, old(path)@, v@, final(path)@),
            Err(h) => halts_within(*s, n as nat, old(path)@, h, final(path)@),
        },
{
    let ghost input = path@;
    let mut v: Vec<S::Value> = Vec::new();
    let mut i: usize = 0;
    assert(draws(*s, input, v@, path@));
    while i < n
        invariant
            s.ready(),
            path.wf(),
            path.is_replay() == old(path).is_replay(),
            input == old(path)@,
            i <= n,
            v@.len() == i,
            draws(*s, input, v@, path@),
        decreases n - i,
    {
        let ghost mid = path@;
        match s.value(path) {
            Ok(x) => {
                proof {
                    lemma_draws_push(*s, input, v@, mid, x, path@);
                }
                v.push(x);
            },
            Err(h) => {
                assert(v@.len() < n && draws(*s, input, v@, mid) && s.yields(mid, Err(h), path@));
                assert(halts_within(*s, n as nat, input, h, path@));
                return Err(h);
            },
        }
        i = i + 1;
    }
    Ok(v)
}

/// Relies on `<[T; N] as TryFrom<Vec<T>>>::try_from`: a vector of exactly
/// `N` items becomes the array of those items, in order.
#[verifier::external_body]
pub(crate) fn vec_into_array<T, const N: usize>(v: Vec<T>) -> (r: Option<[T; N]>)
    ensures
        v@.len() == N ==> r is Some && r->Some_0@ == v@,
{
    <[T; N]>::try_from(v).ok()
}

/// Arrays whose items are drawn independently from one strategy.
pub struct ArrayStrategy<S, T> {
    pub s: S,
    pub marker: PhantomData<T>,
}

impl<S: Strategy, T> ArrayStrategy<S, T> {
    pub fn new(s: S) -> (r: Self)
        ensures
            r.s == s,
    {
        ArrayStrategy { s, marker: PhantomData }
    }
}

impl<S: Strategy, const N: usize> Strategy for ArrayStrategy<S, [S::Value; N]> {
    type Value = [S::Value; N];

    open spec fn ready(&self) -> bool {
        self.s.ready()
    }

    open spec fn yields(&self, input: Seq<u128>, out: Result<[S::Value; N], Halt>, rest: Seq<u128>) -> bool {
        match out {
            Ok(a) => draws(self.s, input, a@, rest),
            Err(h) => halts_within(self.s, N as nat, input, h, rest),
        }
    }

    fn value(&self, path: &mut Path) -> (r: Result<[S::Value; N], Halt>) {
        let v = draw_seq(&self.s, N, path)?;
        match vec_into_array(v) {
            Some(a) => Ok(a),
            None => {
                // `draw_seq` gave exactly `N` values, so the conversion succeeds.
                proof {
                    assert(false);
                }
                Err(Halt::Rejected)
            },
        }
    }
}

} // verus!
