//! Values drawn from a type alone: each type that implements `Symbolic`
//! knows how to draw one of its values from a path.
use crate::annotations::{head, tail, verifier_assume, verifier_reject, Halt, Path};
use crate::scalar::{char_from_u32, is_scalar_value, verifier_abstract_value, Scalar};
use crate::strategy::{
    draw_seq, draws, halts_within, lemma_draws_push, vec_into_array, Any, Strategy,
};
use crate::collection::{entries, lemma_entries_prefix};
use std::collections::{BTreeMap, BTreeSet, VecDeque};
use vstd::prelude::*;
use vstd::utf8::{decode_utf8, valid_utf8};

verus! {

/// A type whose values can be drawn from a path.
pub trait Symbolic: Sized {
    /// Drawing from the words `input` may end in `out` and leave `rest`.
    spec fn sym_yields(input: Seq<u128>, out: Result<Self, Halt>, rest: Seq<u128>) -> bool;

    /// Draws a value of the type, or ends the path silently.
    fn symbolic(path: &mut Path) -> (r: Result<Self, Halt>)
        requires
            old(path).wf(),
        ensures
            final(path).wf(),
            final(path).is_replay() == old(path).is_replay(),
            Self::sym_yields(old(path)@, r, final(path)@),
    ;
}

impl Symbolic for () {
    open spec fn sym_yields(input: Seq<u128>, out: Result<(), Halt>, rest: Seq<u128>) -> bool {
        out == Ok::<(), Halt>(()) && rest == input
    }

    fn symbolic(path: &mut Path) -> (r: Result<(), Halt>) {
        Ok(())
    }
}

impl Symbolic for u8 {
    /// Every bit pattern is a value: one word is read.
    open spec fn sym_yields(input: Seq<u128>, out: Result<u8, Halt>, rest: Seq<u128>) -> bool {
        out == Ok::<u8, Halt>(u8::spec_from_bits(head(input))) && rest == tail(input)
    }

    fn symbolic(path: &mut Path) -> (r: Result<u8, Halt>) {
        Ok(verifier_abstract_value(path))
    }
}

impl Symbolic for u16 {
    /// Every bit pattern is a value: one word is read.
    open spec fn sym_yields(input: Seq<u128>, out: Result<u16, Halt>, rest: Seq<u128>) -> bool {
        out == Ok::<u16, Halt>(u16::spec_from_bits(head(input))) && rest == tail(input)
    }

    fn symbolic(path: &mut Path) -> (r: Result<u16, Halt>) {
        Ok(verifier_abstract_value(path))
    }
}

impl Symbolic for u32 {
    /// Every bit pattern is a value: one word is read.
    open spec fn sym_yields(input: Seq<u128>, out: Result<u32, Halt>, rest: Seq<u128>) -> bool {
        out == Ok::<u32, Halt>(u32::spec_from_bits(head(input))) && rest == tail(input)
    }

    fn symbolic(path: &mut Path) -> (r: Result<u32, Halt>) {
        Ok(verifier_abstract_value(path))
    }
}

impl Symbolic for u64 {
    /// Every bit pattern is a value: one word is read.
    open spec fn sym_yields(input: Seq<u128>, out: Result<u64, Halt>, rest: Seq<u128>) -> bool {
        out == Ok::<u64, Halt>(u64::spec_from_bits(head(input))) && rest == tail(input)
    }

    fn symbolic(path: &mut Path) -> (r: Result<u64, Halt>) {
        Ok(verifier_abstract_value(path))
    }
}

impl Symbolic for u128 {
    /// Every bit pattern is a value: one word is read.
    open spec fn sym_yields(input: Seq<u128>, out: Result<u128, Halt>, rest: Seq<u128>) -> bool {
        out == Ok::<u128, Halt>(u128::spec_from_bits(head(input))) && rest == tail(input)
    }

    fn symbolic(path: &mut Path) -> (r: Result<u128, Halt>) {
        Ok(verifier_abstract_value(path))
    }
}

impl Symbolic for usize {
    /// Every bit pattern is a value: one word is read.
    open spec fn sym_yields(input: Seq<u128>, out: Result<usize, Halt>, rest: Seq<u128>) -> bool {
        out == Ok::<usize, Halt>(usize::spec_from_bits(head(input))) && rest == tail(input)
    }

    fn symbolic(path: &mut Path) -> (r: Result<usize, Halt>) {
        Ok(verifier_abstract_value(path))
    }
}

impl Symbolic for i8 {
    /// Every bit pattern is a value: one word is read.
    open spec fn sym_yields(input: Seq<u128>, out: Result<i8, Halt>, rest: Seq<u128>) -> bool {
        out == Ok::<i8, Halt>(i8::spec_from_bits(head(input))) && rest == tail(input)
    }

    fn symbolic(path: &mut Path) -> (r: Result<i8, Halt>) {
        Ok(verifier_abstract_value(path))
    }
}

impl Symbolic for i16 {
    /// Every bit pattern is a value: one word is read.
    open spec fn sym_yields(input: Seq<u128>, out: Result<i16, Halt>, rest: Seq<u128>) -> bool {
        out == Ok::<i16, Halt>(i16::spec_from_bits(head(input))) && rest == tail(input)
    }

    fn symbolic(path: &mut Path) -> (r: Result<i16, Halt>) {
        Ok(verifier_abstract_value(path))
    }
}

impl Symbolic for i32 {
    /// Every bit pattern is a value: one word is read.
    open spec fn sym_yields(input: Seq<u128>, out: Result<i32, Halt>, rest: Seq<u128>) -> bool {
        out == Ok::<i32, Halt>(i32::spec_from_bits(head(input))) && rest == tail(input)
    }

    fn symbolic(path: &mut Path) -> (r: Result<i32, Halt>) {
        Ok(verifier_abstract_value(path))
    }
}

impl Symbolic for i64 {
    /// Every bit pattern is a value: one word is read.
    open spec fn sym_yields(input: Seq<u128>, out: Result<i64, Halt>, rest: Seq<u128>) -> bool {
        out == Ok::<i64, Halt>(i64::spec_from_bits(head(input))) && rest == tail(input)
    }

    fn symbolic(path: &mut Path) -> (r: Result<i64, Halt>) {
        Ok(verifier_abstract_value(path))
    }
}

impl Symbolic for i128 {
    /// Every bit pattern is a value: one word is read.
    open spec fn sym_yields(input: Seq<u128>, out: Result<i128, Halt>, rest: Seq<u128>) -> bool {
        out == Ok::<i128, Halt>(i128::spec_from_bits(head(input))) && rest == tail(input)
    }

    fn symbolic(path: &mut Path) -> (r: Result<i128, Halt>) {
        Ok(verifier_abstract_value(path))
    }
}

impl Symbolic for isize {
    /// Every bit pattern is a value: one word is read.
    open spec fn sym_yields(input: Seq<u128>, out: Result<isize, Halt>, rest: Seq<u128>) -> bool {
        out == Ok::<isize, Halt>(isize::spec_from_bits(head(input))) && rest == tail(input)
    }

    fn symbolic(path: &mut Path) -> (r: Result<isize, Halt>) {
        Ok(verifier_abstract_value(path))
    }
}

impl Symbolic for bool {
    /// A byte is drawn; only 0 and 1 survive, as `false` and `true`.
    open spec fn sym_yields(input: Seq<u128>, out: Result<bool, Halt>, rest: Seq<u128>) -> bool {
        let c = head(input) as u8;
        &&& rest == tail(input)
        &&& out == if c == 0 || c == 1 {
            Ok::<bool, Halt>(c == 1)
        } else {
            Err(Halt::Pruned)
        }
    }

    fn symbolic(path: &mut Path) -> (r: Result<bool, Halt>) {
        let c: u8 = verifier_abstract_value(path);
        verifier_assume(c == 0 || c == 1)?;
        Ok(c == 1)
    }
}

impl Symbolic for char {
    /// A 32-bit word is drawn; one that is no code point rejects the path.
    open spec fn sym_yields(input: Seq<u128>, out: Result<char, Halt>, rest: Seq<u128>) -> bool {
        let c = head(input) as u32;
        &&& rest == tail(input)
        &&& match out {
            Ok(ch) => is_scalar_value(c) && ch as u32 == c,
            Err(h) => !is_scalar_value(c) && h == Halt::Rejected,
        }
    }

    fn symbolic(path: &mut Path) -> (r: Result<char, Halt>) {
        let c: u32 = verifier_abstract_value(path);
        match char_from_u32(c) {
            Some(ch) => Ok(ch),
            None => Err(verifier_reject()),
        }
    }
}

impl<A: Symbolic> Symbolic for Option<A> {
    /// A `bool` is drawn: `true` draws a value, `false` gives `None`.
    open spec fn sym_yields(input: Seq<u128>, out: Result<Option<A>, Halt>, rest: Seq<u128>) -> bool {
        ||| exists|h: Halt| bool::sym_yields(input, Err(h), rest) && out == Err::<Option<A>, Halt>(h)
        ||| bool::sym_yields(input, Ok(false), rest) && out == Ok::<Option<A>, Halt>(None)
        ||| exists|mid: Seq<u128>|
            #[trigger] bool::sym_yields(input, Ok(true), mid) && match out {
                Ok(Some(a)) => A::sym_yields(mid, Ok(a), rest),
                Ok(None) => false,
                Err(h) => A::sym_yields(mid, Err(h), rest),
            }
    }

    fn symbolic(path: &mut Path) -> (r: Result<Option<A>, Halt>) {
        let ghost input = path@;
        let b = bool::symbolic(path)?;
        let ghost mid = path@;
        if b {
            let a = A::symbolic(path);
            assert(bool::sym_yields(input, Ok(true), mid));
            match a {
                Ok(a) => Ok(Some(a)),
                Err(h) => Err(h),
            }
        } else {
            Ok(None)
        }
    }
}

impl<A: Symbolic, B: Symbolic> Symbolic for Result<A, B> {
    /// A `bool` is drawn: `true` draws an `Ok`, `false` an `Err`.
    open spec fn sym_yields(input: Seq<u128>, out: Result<Result<A, B>, Halt>, rest: Seq<u128>) -> bool {
        ||| exists|h: Halt| bool::sym_yields(input, Err(h), rest) && out == Err::<Result<A, B>, Halt>(h)
        ||| exists|mid: Seq<u128>|
            #[trigger] bool::sym_yields(input, Ok(true), mid) && match out {
                Ok(Ok(a)) => A::sym_yields(mid, Ok(a), rest),
                Ok(Err(_)) => false,
                Err(h) => A::sym_yields(mid, Err(h), rest),
            }
        ||| exists|mid: Seq<u128>|
            #[trigger] bool::sym_yields(input, Ok(false), mid) && match out {
                Ok(Err(b)) => B::sym_yields(mid, Ok(b), rest),
                Ok(Ok(_)) => false,
                Err(h) => B::sym_yields(mid, Err(h), rest),
            }
    }

    fn symbolic(path: &mut Path) -> (r: Result<Result<A, B>, Halt>) {
        let ghost input = path@;
        let t = bool::symbolic(path)?;
        let ghost mid = path@;
        if t {
            assert(bool::sym_yields(input, Ok(true), mid));
            match A::symbolic(path) {
                Ok(a) => Ok(Ok(a)),
                Err(h) => Err(h),
            }
        } else {
            assert(bool::sym_yields(input, Ok(false), mid));
            match B::symbolic(path) {
                Ok(b) => Ok(Err(b)),
                Err(h) => Err(h),
            }
        }
    }
}

impl<A: Symbolic, B: Symbolic> Symbolic for (A, B) {
    /// The first component is drawn, then the second.
    open spec fn sym_yields(input: Seq<u128>, out: Result<(A, B), Halt>, rest: Seq<u128>) -> bool {
        match out {
            Ok(v) => exists|a: A, b: B, mid: Seq<u128>|
                #![trigger A::sym_yields(input, Ok(a), mid), B::sym_yields(mid, Ok(b), rest)]
                v == (a, b) && A::sym_yields(input, Ok(a), mid) && B::sym_yields(mid, Ok(b), rest),
            Err(h) => A::sym_yields(input, Err(h), rest) || exists|a: A, mid: Seq<u128>|
                #[trigger] A::sym_yields(input, Ok(a), mid) && B::sym_yields(mid, Err(h), rest),
        }
    }

    fn symbolic(path: &mut Path) -> (r: Result<(A, B), Halt>) {
        let ghost input = path@;
        let a = A::symbolic(path)?;
        let ghost mid = path@;
        match B::symbolic(path) {
            Ok(b) => {
                assert(A::sym_yields(input, Ok(a), mid) && B::sym_yields(mid, Ok(b), path@));
                Ok((a, b))
            },
            Err(h) => {
                assert(A::sym_yields(input, Ok(a), mid) && B::sym_yields(mid, Err(h), path@));
                Err(h)
            },
        }
    }
}

impl<A: Symbolic> Symbolic for Box<A> {
    open spec fn sym_yields(input: Seq<u128>, out: Result<Box<A>, Halt>, rest: Seq<u128>) -> bool {
        match out {
            Ok(b) => A::sym_yields(input, Ok(*b), rest),
            Err(h) => A::sym_yields(input, Err(h), rest),
        }
    }

    fn symbolic(path: &mut Path) -> (r: Result<Box<A>, Halt>) {
        Ok(Box::new(A::symbolic(path)?))
    }
}

/// Hands out `size` values of `S`, each drawn when asked for.
pub struct SymbolicIter<S> {
    pub size: usize,
    pub marker: core::marker::PhantomData<S>,
}

/// An iterator whose length is drawn as a `usize`.
pub fn symbolic_iter<S: Symbolic>(path: &mut Path) -> (r: Result<SymbolicIter<S>, Halt>)
    requires
        old(path).wf(),
    ensures
        final(path).wf(),
        final(path).is_replay() == old(path).is_replay(),
        final(path)@ == tail(old(path)@),
        r is Ok && r->Ok_0.size == usize::spec_from_bits(head(old(path)@)),
{
    let size = usize::symbolic(path)?;
    Ok(SymbolicIter { size, marker: core::marker::PhantomData })
}

impl<S: Symbolic> SymbolicIter<S> {
    /// The next value, or `None` once `size` values were handed out.
    pub fn next(&mut self, path: &mut Path) -> (r: Option<Result<S, Halt>>)
        requires
            old(path).wf(),
        ensures
            final(path).wf(),
            final(path).is_replay() == old(path).is_replay(),
            old(self).size == 0 ==> r is None && final(self).size == 0 && final(path)@ == old(path)@,
            old(self).size > 0 ==> {
                &&& final(self).size == old(self).size - 1
                &&& r is Some
                &&& S::sym_yields(old(path)@, r->Some_0, final(path)@)
            },
    {
        if self.size == 0 {
            None
        } else {
            self.size = self.size - 1;
            Some(S::symbolic(path))
        }
    }
}

impl<A: Symbolic> Symbolic for Vec<A> {
    /// A length is drawn as a `usize`, then that many values.
    open spec fn sym_yields(input: Seq<u128>, out: Result<Vec<A>, Halt>, rest: Seq<u128>) -> bool {
        let n = usize::spec_from_bits(head(input));
        let any = Any::<A> { marker: core::marker::PhantomData };
        match out {
            Ok(v) => v@.len() == n && draws(any, tail(input), v@, rest),
            Err(h) => halts_within(any, n as nat, tail(input), h, rest),
        }
    }

    fn symbolic(path: &mut Path) -> (r: Result<Vec<A>, Halt>) {
        let ghost input = path@;
        let ghost any = Any::<A> { marker: core::marker::PhantomData };
        let mut it: SymbolicIter<A> = symbolic_iter(path)?;
        let ghost n = it.size;
        let ghost start = path@;
        let mut v: Vec<A> = Vec::new();
        assert(draws(any, start, v@, path@));
        while it.size > 0
            invariant
                path.wf(),
                path.is_replay() == old(path).is_replay(),
                input == old(path)@,
                start == tail(input),
                n == usize::spec_from_bits(head(input)),
                v@.len() + it.size == n,
                draws(any, start, v@, path@),
            decreases it.size,
        {
            let ghost mid = path@;
            match it.next(path) {
                Some(Ok(x)) => {
                    assert(any.yields(mid, Ok(x), path@));
                    proof {
                        lemma_draws_push(any, start, v@, mid, x, path@);
                    }
                    v.push(x);
                },
                Some(Err(h)) => {
                    assert(v@.len() < n && draws(any, start, v@, mid) && any.yields(mid, Err(h), path@));
                    assert(halts_within(any, n as nat, start, h, path@));
                    return Err(h);
                },
                None => {},
            }
        }
        Ok(v)
    }
}

/// Orders the two drawn bounds and hands them to `cb`, which builds the range.
pub fn bounded_range<CB: Fn((I, I)) -> R, I: Scalar, R>(bounds: (I, I), cb: CB) -> (r: R)
    requires
        forall|p: (I, I)| call_requires(cb, (p,)),
    ensures
        bounds.0.to_int() <= bounds.1.to_int() ==> call_ensures(cb, (bounds,), r),
        bounds.0.to_int() > bounds.1.to_int() ==> call_ensures(cb, ((bounds.1, bounds.0),), r),
{
    let (mut start, mut end) = bounds;
    if end.less(start) {
        let t = start;
        start = end;
        end = t;
    }
    cb((start, end))
}

/// Hands the drawn bound to `cb`, which builds the range.
pub fn unbounded_range<CB: Fn(I) -> R, I, R>(bound: I, cb: CB) -> (r: R)
    requires
        call_requires(cb, (bound,)),
    ensures
        call_ensures(cb, (bound,), r),
{
    cb(bound)
}

fn half_open<S>(p: (S, S)) -> (r: core::ops::Range<S>)
    ensures
        r.start == p.0 && r.end == p.1,
{
    p.0..p.1
}

fn closed_range<S>(p: (S, S)) -> (r: core::ops::RangeInclusive<S>)
    ensures
        r@.start == p.0 && r@.end == p.1 && !r@.exhausted,
{
    p.0..=p.1
}

fn from_bound<S>(s: S) -> (r: core::ops::RangeFrom<S>)
    ensures
        r.start == s,
{
    s..
}

fn below_bound<S>(e: S) -> (r: core::ops::RangeTo<S>)
    ensures
        r.end == e,
{
    ..e
}

fn up_to_bound<S>(e: S) -> (r: core::ops::RangeToInclusive<S>)
    ensures
        r.end == e,
{
    ..=e
}

impl<S: Scalar + Symbolic> Symbolic for core::ops::Range<S> {
    /// Two bounds are drawn and put in order.
    open spec fn sym_yields(input: Seq<u128>, out: Result<core::ops::Range<S>, Halt>, rest: Seq<u128>) -> bool {
        let a = S::spec_from_bits(head(input));
        let b = S::spec_from_bits(head(tail(input)));
        &&& rest == tail(tail(input))
        &&& out is Ok
        &&& if a.to_int() <= b.to_int() {
            out->Ok_0.start == a && out->Ok_0.end == b
        } else {
            out->Ok_0.start == b && out->Ok_0.end == a
        }
    }

    fn symbolic(path: &mut Path) -> (r: Result<core::ops::Range<S>, Halt>) {
        let a: S = verifier_abstract_value(path);
        let b: S = verifier_abstract_value(path);
        Ok(
            bounded_range(
                (a, b),
                half_open::<S>,
            ),
        )
    }
}

impl<S: Scalar + Symbolic> Symbolic for core::ops::RangeFrom<S> {
    /// One bound is drawn.
    open spec fn sym_yields(input: Seq<u128>, out: Result<core::ops::RangeFrom<S>, Halt>, rest: Seq<u128>) -> bool {
        &&& rest == tail(input)
        &&& out is Ok
        &&& out->Ok_0.start == S::spec_from_bits(head(input))
    }

    fn symbolic(path: &mut Path) -> (r: Result<core::ops::RangeFrom<S>, Halt>) {
        let a: S = verifier_abstract_value(path);
        Ok(
            unbounded_range(
                a,
                from_bound::<S>,
            ),
        )
    }
}

impl<S: Scalar + Symbolic> Symbolic for core::ops::RangeTo<S> {
    /// One bound is drawn.
    open spec fn sym_yields(input: Seq<u128>, out: Result<core::ops::RangeTo<S>, Halt>, rest: Seq<u128>) -> bool {
        &&& rest == tail(input)
        &&& out is Ok
        &&& out->Ok_0.end == S::spec_from_bits(head(input))
    }

    fn symbolic(path: &mut Path) -> (r: Result<core::ops::RangeTo<S>, Halt>) {
        let b: S = verifier_abstract_value(path);
        Ok(
            unbounded_range(
                b,
                below_bound::<S>,
            ),
        )
    }
}

impl<S: Scalar + Symbolic> Symbolic for core::ops::RangeToInclusive<S> {
    /// One bound is drawn.
    open spec fn sym_yields(input: Seq<u128>, out: Result<core::ops::RangeToInclusive<S>, Halt>, rest: Seq<u128>) -> bool {
        &&& rest == tail(input)
        &&& out is Ok
        &&& out->Ok_0.end == S::spec_from_bits(head(input))
    }

    fn symbolic(path: &mut Path) -> (r: Result<core::ops::RangeToInclusive<S>, Halt>) {
        let b: S = verifier_abstract_value(path);
        Ok(
            unbounded_range(
                b,
                up_to_bound::<S>,
            ),
        )
    }
}

/// Relies on `String::from_utf8`: the bytes are taken exactly when they
/// are valid UTF-8, and the string holds the characters they encode.
#[verifier::external_body]
fn string_from_utf8(bytes: Vec<u8>) -> (r: Option<String>)
    ensures
        match r {
            Some(s) => valid_utf8(bytes@) && s@ == decode_utf8(bytes@),
            None => !valid_utf8(bytes@),
        },
{
    String::from_utf8(bytes).ok()
}

impl Symbolic for String {
    /// Bytes are drawn as a `Vec<u8>`; bytes that are not UTF-8 reject the path.
    open spec fn sym_yields(input: Seq<u128>, out: Result<String, Halt>, rest: Seq<u128>) -> bool {
        match out {
            Ok(s) => exists|bytes: Vec<u8>|
                #[trigger] Vec::<u8>::sym_yields(input, Ok(bytes), rest) && valid_utf8(bytes@) && s@
                    == decode_utf8(bytes@),
            Err(h) => Vec::<u8>::sym_yields(input, Err(h), rest) || (h == Halt::Rejected && exists|
                bytes: Vec<u8>,
            | #[trigger] Vec::<u8>::sym_yields(input, Ok(bytes), rest) && !valid_utf8(bytes@)),
        }
    }

    fn symbolic(path: &mut Path) -> (r: Result<String, Halt>) {
        let ghost input = path@;
        let bytes = Vec::<u8>::symbolic(path)?;
        let ghost seen = bytes;
        match string_from_utf8(bytes) {
            Some(s) => {
                assert(Vec::<u8>::sym_yields(input, Ok(seen), path@));
                Ok(s)
            },
            None => {
                assert(Vec::<u8>::sym_yields(input, Ok(seen), path@));
                Err(verifier_reject())
            },
        }
    }
}

} // verus!

verus! {

impl<A: Symbolic, B: Symbolic, C: Symbolic> Symbolic for (A, B, C) {
    /// The components are drawn left to right; the first to halt ends the draw.
    open spec fn sym_yields(input: Seq<u128>, out: Result<(A, B, C), Halt>, rest: Seq<u128>) -> bool {
        match out {
            Ok(v) => exists|x0: A, x1: B, x2: C, m1: Seq<u128>, m2: Seq<u128>|
                {
                    &&& v == (x0, x1, x2)
                    &&& A::sym_yields(input, Ok(x0), m1)
                    &&& B::sym_yields(m1, Ok(x1), m2)
                    &&& C::sym_yields(m2, Ok(x2), rest)
                },
            Err(h) => {
                ||| A::sym_yields(input, Err(h), rest)
                ||| exists|x0: A, m1: Seq<u128>|
                    {
                        &&& A::sym_yields(input, Ok(x0), m1)
                        &&& B::sym_yields(m1, Err(h), rest)
                    }
                ||| exists|x0: A, m1: Seq<u128>, x1: B, m2: Seq<u128>|
                    {
                        &&& A::sym_yields(input, Ok(x0), m1)
                        &&& B::sym_yields(m1, Ok(x1), m2)
                        &&& C::sym_yields(m2, Err(h), rest)
                    }
            },
        }
    }

    #[verifier::rlimit(60)]
    fn symbolic(path: &mut Path) -> (r: Result<(A, B, C), Halt>) {
        let ghost m0 = path@;
        let x0 = match A::symbolic(path) {
            Ok(x) => x,
            Err(h) => {
                return Err(h);
            },
        };
        let ghost m1 = path@;
        let x1 = match B::symbolic(path) {
            Ok(x) => x,
            Err(h) => {
                assert({
                    &&& A::sym_yields(m0, Ok(x0), m1)
                    &&& B::sym_yields(m1, Err(h), path@)
                });
                return Err(h);
            },
        };
        let ghost m2 = path@;
        let x2 = match C::symbolic(path) {
            Ok(x) => x,
            Err(h) => {
                assert({
                    &&& A::sym_yields(m0, Ok(x0), m1)
                    &&& B::sym_yields(m1, Ok(x1), m2)
                    &&& C::sym_yields(m2, Err(h), path@)
                });
                return Err(h);
            },
        };
        let ghost m3 = path@;
        assert({
            &&& A::sym_yields(m0, Ok(x0), m1)
            &&& B::sym_yields(m1, Ok(x1), m2)
            &&& C::sym_yields(m2, Ok(x2), m3)
        });
        Ok((x0, x1, x2))
    }
}


impl<A: Symbolic, B: Symbolic, C: Symbolic, D: Symbolic> Symbolic for (A, B, C, D) {
    /// The components are drawn left to right; the first to halt ends the draw.
    open spec fn sym_yields(input: Seq<u128>, out: Result<(A, B, C, D), Halt>, rest: Seq<u128>) -> bool {
        match out {
            Ok(v) => exists|x0: A, x1: B, x2: C, x3: D, m1: Seq<u128>, m2: Seq<u128>, m3: Seq<u128>|
                {
                    &&& v == (x0, x1, x2, x3)
                    &&& A::sym_yields(input, Ok(x0), m1)
                    &&& B::sym_yields(m1, Ok(x1), m2)
                    &&& C::sym_yields(m2, Ok(x2), m3)
                    &&& D::sym_yields(m3, Ok(x3), rest)
                },
            Err(h) => {
                ||| A::sym_yields(input, Err(h), rest)
                ||| exists|x0: A, m1: Seq<u128>|
                    {
                        &&& A::sym_yields(input, Ok(x0), m1)
                        &&& B::sym_yields(m1, Err(h), rest)
                    }
                ||| exists|x0: A, m1: Seq<u128>, x1: B, m2: Seq<u128>|
                    {
                        &&& A::sym_yields(input, Ok(x0), m1)
                        &&& B::sym_yields(m1, Ok(x1), m2)
                        &&& C::sym_yields(m2, Err(h), rest)
                    }
                ||| exists|x0: A, m1: Seq<u128>, x1: B, m2: Seq<u128>, x2: C, m3: Seq<u128>|
                    {
                        &&& A::sym_yields(input, Ok(x0), m1)
                        &&& B::sym_yields(m1, Ok(x1), m2)
                        &&& C::sym_yields(m2, Ok(x2), m3)
                        &&& D::sym_yields(m3, Err(h), rest)
                    }
            },
        }
    }

    #[verifier::rlimit(60)]
    fn symbolic(path: &mut Path) -> (r: Result<(A, B, C, D), Halt>) {
        let ghost m0 = path@;
        let x0 = match A::symbolic(path) {
            Ok(x) => x,
            Err(h) => {
                return Err(h);
            },
        };
        let ghost m1 = path@;
        let x1 = match B::symbolic(path) {
            Ok(x) => x,
            Err(h) => {
                assert({
                    &&& A::sym_yields(m0, Ok(x0), m1)
                    &&& B::sym_yields(m1, Err(h), path@)
                });
                return Err(h);
            },
        };
        let ghost m2 = path@;
        let x2 = match C::symbolic(path) {
            Ok(x) => x,
            Err(h) => {
                assert({
                    &&& A::sym_yields(m0, Ok(x0), m1)
                    &&& B::sym_yields(m1, Ok(x1), m2)
                    &&& C::sym_yields(m2, Err(h), path@)
                });
                return Err(h);
            },
        };
        let ghost m3 = path@;
        let x3 = match D::symbolic(path) {
            Ok(x) => x,
            Err(h) => {
                assert({
                    &&& A::sym_yields(m0, Ok(x0), m1)
                    &&& B::sym_yields(m1, Ok(x1), m2)
                    &&& C::sym_yields(m2, Ok(x2), m3)
                    &&& D::sym_yields(m3, Err(h), path@)
                });
                return Err(h);
            },
        };
        let ghost m4 = path@;
        assert({
            &&& A::sym_yields(m0, Ok(x0), m1)
            &&& B::sym_yields(m1, Ok(x1), m2)
            &&& C::sym_yields(m2, Ok(x2), m3)
            &&& D::sym_yields(m3, Ok(x3), m4)
        });
        Ok((x0, x1, x2, x3))
    }
}


impl<A: Symbolic, B: Symbolic, C: Symbolic, D: Symbolic, E: Symbolic> Symbolic for (A, B, C, D, E) {
    /// The components are drawn left to right; the first to halt ends the draw.
    open spec fn sym_yields(input: Seq<u128>, out: Result<(A, B, C, D, E), Halt>, rest: Seq<u128>) -> bool {
        match out {
            Ok(v) => exists|x0: A, x1: B, x2: C, x3: D, x4: E, m1: Seq<u128>, m2: Seq<u128>, m3: Seq<u128>, m4: Seq<u128>|
                {
                    &&& v == (x0, x1, x2, x3, x4)
                    &&& A::sym_yields(input, Ok(x0), m1)
                    &&& B::sym_yields(m1, Ok(x1), m2)
                    &&& C::sym_yields(m2, Ok(x2), m3)
                    &&& D::sym_yields(m3, Ok(x3), m4)
                    &&& E::sym_yields(m4, Ok(x4), rest)
                },
            Err(h) => {
                ||| A::sym_yields(input, Err(h), rest)
                ||| exists|x0: A, m1: Seq<u128>|
                    {
                        &&& A::sym_yields(input, Ok(x0), m1)
                        &&& B::sym_yields(m1, Err(h), rest)
                    }
                ||| exists|x0: A, m1: Seq<u128>, x1: B, m2: Seq<u128>|
                    {
                        &&& A::sym_yields(input, Ok(x0), m1)
                        &&& B::sym_yields(m1, Ok(x1), m2)
                        &&& C::sym_yields(m2, Err(h), rest)
                    }
                ||| exists|x0: A, m1: Seq<u128>, x1: B, m2: Seq<u128>, x2: C, m3: Seq<u128>|
                    {
                        &&& A::sym_yields(input, Ok(x0), m1)
                        &&& B::sym_yields(m1, Ok(x1), m2)
                        &&& C::sym_yields(m2, Ok(x2), m3)
                        &&& D::sym_yields(m3, Err(h), rest)
                    }
                ||| exists|x0: A, m1: Seq<u128>, x1: B, m2: Seq<u128>, x2: C, m3: Seq<u128>, x3: D, m4: Seq<u128>|
                    {
                        &&& A::sym_yields(input, Ok(x0), m1)
                        &&& B::sym_yields(m1, Ok(x1), m2)
                        &&& C::sym_yields(m2, Ok(x2), m3)
                        &&& D::sym_yields(m3, Ok(x3), m4)
                        &&& E::sym_yields(m4, Err(h), rest)
                    }
            },
        }
    }

    #[verifier::rlimit(60)]
    fn symbolic(path: &mut Path) -> (r: Result<(A, B, C, D, E), Halt>) {
        let ghost m0 = path@;
        let x0 = match A::symbolic(path) {
            Ok(x) => x,
            Err(h) => {
                return Err(h);
            },
        };
        let ghost m1 = path@;
        let x1 = match B::symbolic(path) {
            Ok(x) => x,
            Err(h) => {
                assert({
                    &&& A::sym_yields(m0, Ok(x0), m1)
                    &&& B::sym_yields(m1, Err(h), path@)
                });
                return Err(h);
            },
        };
        let ghost m2 = path@;
        let x2 = match C::symbolic(path) {
            Ok(x) => x,
            Err(h) => {
                assert({
                    &&& A::sym_yields(m0, Ok(x0), m1)
                    &&& B::sym_yields(m1, Ok(x1), m2)
                    &&& C::sym_yields(m2, Err(h), path@)
                });
                return Err(h);
            },
        };
        let ghost m3 = path@;
        let x3 = match D::symbolic(path) {
            Ok(x) => x,
            Err(h) => {
                assert({
                    &&& A::sym_yields(m0, Ok(x0), m1)
                    &&& B::sym_yields(m1, Ok(x1), m2)
                    &&& C::sym_yields(m2, Ok(x2), m3)
                    &&& D::sym_yields(m3, Err(h), path@)
                });
                return Err(h);
            },
        };
        let ghost m4 = path@;
        let x4 = match E::symbolic(path) {
            Ok(x) => x,
            Err(h) => {
                assert({
                    &&& A::sym_yields(m0, Ok(x0), m1)
                    &&& B::sym_yields(m1, Ok(x1), m2)
                    &&& C::sym_yields(m2, Ok(x2), m3)
                    &&& D::sym_yields(m3, Ok(x3), m4)
                    &&& E::sym_yields(m4, Err(h), path@)
                });
                return Err(h);
            },
        };
        let ghost m5 = path@;
        assert({
            &&& A::sym_yields(m0, Ok(x0), m1)
            &&& B::sym_yields(m1, Ok(x1), m2)
            &&& C::sym_yields(m2, Ok(x2), m3)
            &&& D::sym_yields(m3, Ok(x3), m4)
            &&& E::sym_yields(m4, Ok(x4), m5)
        });
        Ok((x0, x1, x2, x3, x4))
    }
}


impl<A: Symbolic, B: Symbolic, C: Symbolic, D: Symbolic, E: Symbolic, F: Symbolic> Symbolic for (A, B, C, D, E, F) {
    /// The components are drawn left to right; the first to halt ends the draw.
    open spec fn sym_yields(input: Seq<u128>, out: Result<(A, B, C, D, E, F), Halt>, rest: Seq<u128>) -> bool {
        match out {
            Ok(v) => exists|x0: A, x1: B, x2: C, x3: D, x4: E, x5: F, m1: Seq<u128>, m2: Seq<u128>, m3: Seq<u128>, m4: Seq<u128>, m5: Seq<u128>|
                {
                    &&& v == (x0, x1, x2, x3, x4, x5)
                    &&& A::sym_yields(input, Ok(x0), m1)
                    &&& B::sym_yields(m1, Ok(x1), m2)
                    &&& C::sym_yields(m2, Ok(x2), m3)
                    &&& D::sym_yields(m3, Ok(x3), m4)
                    &&& E::sym_yields(m4, Ok(x4), m5)
                    &&& F::sym_yields(m5, Ok(x5), rest)
                },
            Err(h) => {
                ||| A::sym_yields(input, Err(h), rest)
                ||| exists|x0: A, m1: Seq<u128>|
                    {
                        &&& A::sym_yields(input, Ok(x0), m1)
                        &&& B::sym_yields(m1, Err(h), rest)
                    }
                ||| exists|x0: A, m1: Seq<u128>, x1: B, m2: Seq<u128>|
                    {
                        &&& A::sym_yields(input, Ok(x0), m1)
                        &&& B::sym_yields(m1, Ok(x1), m2)
                        &&& C::sym_yields(m2, Err(h), rest)
                    }
                ||| exists|x0: A, m1: Seq<u128>, x1: B, m2: Seq<u128>, x2: C, m3: Seq<u128>|
                    {
                        &&& A::sym_yields(input, Ok(x0), m1)
                        &&& B::sym_yields(m1, Ok(x1), m2)
                        &&& C::sym_yields(m2, Ok(x2), m3)
                        &&& D::sym_yields(m3, Err(h), rest)
                    }
                ||| exists|x0: A, m1: Seq<u128>, x1: B, m2: Seq<u128>, x2: C, m3: Seq<u128>, x3: D, m4: Seq<u128>|
                    {
                        &&& A::sym_yields(input, Ok(x0), m1)
                        &&& B::sym_yields(m1, Ok(x1), m2)
                        &&& C::sym_yields(m2, Ok(x2), m3)
                        &&& D::sym_yields(m3, Ok(x3), m4)
                        &&& E::sym_yields(m4, Err(h), rest)
                    }
                ||| exists|x0: A, m1: Seq<u128>, x1: B, m2: Seq<u128>, x2: C, m3: Seq<u128>, x3: D, m4: Seq<u128>, x4: E, m5: Seq<u128>|
                    {
                        &&& A::sym_yields(input, Ok(x0), m1)
                        &&& B::sym_yields(m1, Ok(x1), m2)
                        &&& C::sym_yields(m2, Ok(x2), m3)
                        &&& D::sym_yields(m3, Ok(x3), m4)
                        &&& E::sym_yields(m4, Ok(x4), m5)
                        &&& F::sym_yields(m5, Err(h), rest)
                    }
            },
        }
    }

    #[verifier::rlimit(60)]
    fn symbolic(path: &mut Path) -> (r: Result<(A, B, C, D, E, F), Halt>) {
        let ghost m0 = path@;
        let x0 = match A::symbolic(path) {
            Ok(x) => x,
            Err(h) => {
                return Err(h);
            },
        };
        let ghost m1 = path@;
        let x1 = match B::symbolic(path) {
            Ok(x) => x,
            Err(h) => {
                assert({
                    &&& A::sym_yields(m0, Ok(x0), m1)
                    &&& B::sym_yields(m1, Err(h), path@)
                });
                return Err(h);
            },
        };
        let ghost m2 = path@;
        let x2 = match C::symbolic(path) {
            Ok(x) => x,
            Err(h) => {
                assert({
                    &&& A::sym_yields(m0, Ok(x0), m1)
                    &&& B::sym_yields(m1, Ok(x1), m2)
                    &&& C::sym_yields(m2, Err(h), path@)
                });
                return Err(h);
            },
        };
        let ghost m3 = path@;
        let x3 = match D::symbolic(path) {
            Ok(x) => x,
            Err(h) => {
                assert({
                    &&& A::sym_yields(m0, Ok(x0), m1)
                    &&& B::sym_yields(m1, Ok(x1), m2)
                    &&& C::sym_yields(m2, Ok(x2), m3)
                    &&& D::sym_yields(m3, Err(h), path@)
                });
                return Err(h);
            },
        };
        let ghost m4 = path@;
        let x4 = match E::symbolic(path) {
            Ok(x) => x,
            Err(h) => {
                assert({
                    &&& A::sym_yields(m0, Ok(x0), m1)
                    &&& B::sym_yields(m1, Ok(x1), m2)
                    &&& C::sym_yields(m2, Ok(x2), m3)
                    &&& D::sym_yields(m3, Ok(x3), m4)
                    &&& E::sym_yields(m4, Err(h), path@)
                });
                return Err(h);
            },
        };
        let ghost m5 = path@;
        let x5 = match F::symbolic(path) {
            Ok(x) => x,
            Err(h) => {
                assert({
                    &&& A::sym_yields(m0, Ok(x0), m1)
                    &&& B::sym_yields(m1, Ok(x1), m2)
                    &&& C::sym_yields(m2, Ok(x2), m3)
                    &&& D::sym_yields(m3, Ok(x3), m4)
                    &&& E::sym_yields(m4, Ok(x4), m5)
                    &&& F::sym_yields(m5, Err(h), path@)
                });
                return Err(h);
            },
        };
        let ghost m6 = path@;
        assert({
            &&& A::sym_yields(m0, Ok(x0), m1)
            &&& B::sym_yields(m1, Ok(x1), m2)
            &&& C::sym_yields(m2, Ok(x2), m3)
            &&& D::sym_yields(m3, Ok(x3), m4)
            &&& E::sym_yields(m4, Ok(x4), m5)
            &&& F::sym_yields(m5, Ok(x5), m6)
        });
        Ok((x0, x1, x2, x3, x4, x5))
    }
}


impl<A: Symbolic, B: Symbolic, C: Symbolic, D: Symbolic, E: Symbolic, F: Symbolic, G: Symbolic> Symbolic for (A, B, C, D, E, F, G) {
    /// The components are drawn left to right; the first to halt ends the draw.
    open spec fn sym_yields(input: Seq<u128>, out: Result<(A, B, C, D, E, F, G), Halt>, rest: Seq<u128>) -> bool {
        match out {
            Ok(v) => exists|x0: A, x1: B, x2: C, x3: D, x4: E, x5: F, x6: G, m1: Seq<u128>, m2: Seq<u128>, m3: Seq<u128>, m4: Seq<u128>, m5: Seq<u128>, m6: Seq<u128>|
                {
                    &&& v == (x0, x1, x2, x3, x4, x5, x6)
                    &&& A::sym_yields(input, Ok(x0), m1)
                    &&& B::sym_yields(m1, Ok(x1), m2)
                    &&& C::sym_yields(m2, Ok(x2), m3)
                    &&& D::sym_yields(m3, Ok(x3), m4)
                    &&& E::sym_yields(m4, Ok(x4), m5)
                    &&& F::sym_yields(m5, Ok(x5), m6)
                    &&& G::sym_yields(m6, Ok(x6), rest)
                },
            Err(h) => {
                ||| A::sym_yields(input, Err(h), rest)
                ||| exists|x0: A, m1: Seq<u128>|
                    {
                        &&& A::sym_yields(input, Ok(x0), m1)
                        &&& B::sym_yields(m1, Err(h), rest)
                    }
                ||| exists|x0: A, m1: Seq<u128>, x1: B, m2: Seq<u128>|
                    {
                        &&& A::sym_yields(input, Ok(x0), m1)
                        &&& B::sym_yields(m1, Ok(x1), m2)
                        &&& C::sym_yields(m2, Err(h), rest)
                    }
                ||| exists|x0: A, m1: Seq<u128>, x1: B, m2: Seq<u128>, x2: C, m3: Seq<u128>|
                    {
                        &&& A::sym_yields(input, Ok(x0), m1)
                        &&& B::sym_yields(m1, Ok(x1), m2)
                        &&& C::sym_yields(m2, Ok(x2), m3)
                        &&& D::sym_yields(m3, Err(h), rest)
                    }
                ||| exists|x0: A, m1: Seq<u128>, x1: B, m2: Seq<u128>, x2: C, m3: Seq<u128>, x3: D, m4: Seq<u128>|
                    {
                        &&& A::sym_yields(input, Ok(x0), m1)
                        &&& B::sym_yields(m1, Ok(x1), m2)
                        &&& C::sym_yields(m2, Ok(x2), m3)
                        &&& D::sym_yields(m3, Ok(x3), m4)
                        &&& E::sym_yields(m4, Err(h), rest)
                    }
                ||| exists|x0: A, m1: Seq<u128>, x1: B, m2: Seq<u128>, x2: C, m3: Seq<u128>, x3: D, m4: Seq<u128>, x4: E, m5: Seq<u128>|
                    {
                        &&& A::sym_yields(input, Ok(x0), m1)
                        &&& B::sym_yields(m1, Ok(x1), m2)
                        &&& C::sym_yields(m2, Ok(x2), m3)
                        &&& D::sym_yields(m3, Ok(x3), m4)
                        &&& E::sym_yields(m4, Ok(x4), m5)
                        &&& F::sym_yields(m5, Err(h), rest)
                    }
                ||| exists|x0: A, m1: Seq<u128>, x1: B, m2: Seq<u128>, x2: C, m3: Seq<u128>, x3: D, m4: Seq<u128>, x4: E, m5: Seq<u128>, x5: F, m6: Seq<u128>|
                    {
                        &&& A::sym_yields(input, Ok(x0), m1)
                        &&& B::sym_yields(m1, Ok(x1), m2)
                        &&& C::sym_yields(m2, Ok(x2), m3)
                        &&& D::sym_yields(m3, Ok(x3), m4)
                        &&& E::sym_yields(m4, Ok(x4), m5)
                        &&& F::sym_yields(m5, Ok(x5), m6)
                        &&& G::sym_yields(m6, Err(h), rest)
                    }
            },
        }
    }

    #[verifier::rlimit(60)]
    fn symbolic(path: &mut Path) -> (r: Result<(A, B, C, D, E, F, G), Halt>) {
        let ghost m0 = path@;
        let x0 = match A::symbolic(path) {
            Ok(x) => x,
            Err(h) => {
                return Err(h);
            },
        };
        let ghost m1 = path@;
        let x1 = match B::symbolic(path) {
            Ok(x) => x,
            Err(h) => {
                assert({
                    &&& A::sym_yields(m0, Ok(x0), m1)
                    &&& B::sym_yields(m1, Err(h), path@)
                });
                return Err(h);
            },
        };
        let ghost m2 = path@;
        let x2 = match C::symbolic(path) {
            Ok(x) => x,
            Err(h) => {
                assert({
                    &&& A::sym_yields(m0, Ok(x0), m1)
                    &&& B::sym_yields(m1, Ok(x1), m2)
                    &&& C::sym_yields(m2, Err(h), path@)
                });
                return Err(h);
            },
        };
        let ghost m3 = path@;
        let x3 = match D::symbolic(path) {
            Ok(x) => x,
            Err(h) => {
                assert({
                    &&& A::sym_yields(m0, Ok(x0), m1)
                    &&& B::sym_yields(m1, Ok(x1), m2)
                    &&& C::sym_yields(m2, Ok(x2), m3)
                    &&& D::sym_yields(m3, Err(h), path@)
                });
                return Err(h);
            },
        };
        let ghost m4 = path@;
        let x4 = match E::symbolic(path) {
            Ok(x) => x,
            Err(h) => {
                assert({
                    &&& A::sym_yields(m0, Ok(x0), m1)
                    &&& B::sym_yields(m1, Ok(x1), m2)
                    &&& C::sym_yields(m2, Ok(x2), m3)
                    &&& D::sym_yields(m3, Ok(x3), m4)
                    &&& E::sym_yields(m4, Err(h), path@)
                });
                return Err(h);
            },
        };
        let ghost m5 = path@;
        let x5 = match F::symbolic(path) {
            Ok(x) => x,
            Err(h) => {
                assert({
                    &&& A::sym_yields(m0, Ok(x0), m1)
                    &&& B::sym_yields(m1, Ok(x1), m2)
                    &&& C::sym_yields(m2, Ok(x2), m3)
                    &&& D::sym_yields(m3, Ok(x3), m4)
                    &&& E::sym_yields(m4, Ok(x4), m5)
                    &&& F::sym_yields(m5, Err(h), path@)
                });
                return Err(h);
            },
        };
        let ghost m6 = path@;
        let x6 = match G::symbolic(path) {
            Ok(x) => x,
            Err(h) => {
                assert({
                    &&& A::sym_yields(m0, Ok(x0), m1)
                    &&& B::sym_yields(m1, Ok(x1), m2)
                    &&& C::sym_yields(m2, Ok(x2), m3)
                    &&& D::sym_yields(m3, Ok(x3), m4)
                    &&& E::sym_yields(m4, Ok(x4), m5)
                    &&& F::sym_yields(m5, Ok(x5), m6)
                    &&& G::sym_yields(m6, Err(h), path@)
                });
                return Err(h);
            },
        };
        let ghost m7 = path@;
        assert({
            &&& A::sym_yields(m0, Ok(x0), m1)
            &&& B::sym_yields(m1, Ok(x1), m2)
            &&& C::sym_yields(m2, Ok(x2), m3)
            &&& D::sym_yields(m3, Ok(x3), m4)
            &&& E::sym_yields(m4, Ok(x4), m5)
            &&& F::sym_yields(m5, Ok(x5), m6)
            &&& G::sym_yields(m6, Ok(x6), m7)
        });
        Ok((x0, x1, x2, x3, x4, x5, x6))
    }
}


impl<A: Symbolic, B: Symbolic, C: Symbolic, D: Symbolic, E: Symbolic, F: Symbolic, G: Symbolic, H: Symbolic> Symbolic for (A, B, C, D, E, F, G, H) {
    /// The components are drawn left to right; the first to halt ends the draw.
    open spec fn sym_yields(input: Seq<u128>, out: Result<(A, B, C, D, E, F, G, H), Halt>, rest: Seq<u128>) -> bool {
        match out {
            Ok(v) => exists|x0: A, x1: B, x2: C, x3: D, x4: E, x5: F, x6: G, x7: H, m1: Seq<u128>, m2: Seq<u128>, m3: Seq<u128>, m4: Seq<u128>, m5: Seq<u128>, m6: Seq<u128>, m7: Seq<u128>|
                {
                    &&& v == (x0, x1, x2, x3, x4, x5, x6, x7)
                    &&& A::sym_yields(input, Ok(x0), m1)
                    &&& B::sym_yields(m1, Ok(x1), m2)
                    &&& C::sym_yields(m2, Ok(x2), m3)
                    &&& D::sym_yields(m3, Ok(x3), m4)
                    &&& E::sym_yields(m4, Ok(x4), m5)
                    &&& F::sym_yields(m5, Ok(x5), m6)
                    &&& G::sym_yields(m6, Ok(x6), m7)
                    &&& H::sym_yields(m7, Ok(x7), rest)
                },
            Err(h) => {
                ||| A::sym_yields(input, Err(h), rest)
                ||| exists|x0: A, m1: Seq<u128>|
                    {
                        &&& A::sym_yields(input, Ok(x0), m1)
                        &&& B::sym_yields(m1, Err(h), rest)
                    }
                ||| exists|x0: A, m1: Seq<u128>, x1: B, m2: Seq<u128>|
                    {
                        &&& A::sym_yields(input, Ok(x0), m1)
                        &&& B::sym_yields(m1, Ok(x1), m2)
                        &&& C::sym_yields(m2, Err(h), rest)
                    }
                ||| exists|x0: A, m1: Seq<u128>, x1: B, m2: Seq<u128>, x2: C, m3: Seq<u128>|
                    {
                        &&& A::sym_yields(input, Ok(x0), m1)
                        &&& B::sym_yields(m1, Ok(x1), m2)
                        &&& C::sym_yields(m2, Ok(x2), m3)
                        &&& D::sym_yields(m3, Err(h), rest)
                    }
                ||| exists|x0: A, m1: Seq<u128>, x1: B, m2: Seq<u128>, x2: C, m3: Seq<u128>, x3: D, m4: Seq<u128>|
                    {
                        &&& A::sym_yields(input, Ok(x0), m1)
                        &&& B::sym_yields(m1, Ok(x1), m2)
                        &&& C::sym_yields(m2, Ok(x2), m3)
                        &&& D::sym_yields(m3, Ok(x3), m4)
                        &&& E::sym_yields(m4, Err(h), rest)
                    }
                ||| exists|x0: A, m1: Seq<u128>, x1: B, m2: Seq<u128>, x2: C, m3: Seq<u128>, x3: D, m4: Seq<u128>, x4: E, m5: Seq<u128>|
                    {
                        &&& A::sym_yields(input, Ok(x0), m1)
                        &&& B::sym_yields(m1, Ok(x1), m2)
                        &&& C::sym_yields(m2, Ok(x2), m3)
                        &&& D::sym_yields(m3, Ok(x3), m4)
                        &&& E::sym_yields(m4, Ok(x4), m5)
                        &&& F::sym_yields(m5, Err(h), rest)
                    }
                ||| exists|x0: A, m1: Seq<u128>, x1: B, m2: Seq<u128>, x2: C, m3: Seq<u128>, x3: D, m4: Seq<u128>, x4: E, m5: Seq<u128>, x5: F, m6: Seq<u128>|
                    {
                        &&& A::sym_yields(input, Ok(x0), m1)
                        &&& B::sym_yields(m1, Ok(x1), m2)
                        &&& C::sym_yields(m2, Ok(x2), m3)
                        &&& D::sym_yields(m3, Ok(x3), m4)
                        &&& E::sym_yields(m4, Ok(x4), m5)
                        &&& F::sym_yields(m5, Ok(x5), m6)
                        &&& G::sym_yields(m6, Err(h), rest)
                    }
                ||| exists|x0: A, m1: Seq<u128>, x1: B, m2: Seq<u128>, x2: C, m3: Seq<u128>, x3: D, m4: Seq<u128>, x4: E, m5: Seq<u128>, x5: F, m6: Seq<u128>, x6: G, m7: Seq<u128>|
                    {
                        &&& A::sym_yields(input, Ok(x0), m1)
                        &&& B::sym_yields(m1, Ok(x1), m2)
                        &&& C::sym_yields(m2, Ok(x2), m3)
                        &&& D::sym_yields(m3, Ok(x3), m4)
                        &&& E::sym_yields(m4, Ok(x4), m5)
                        &&& F::sym_yields(m5, Ok(x5), m6)
                        &&& G::sym_yields(m6, Ok(x6), m7)
                        &&& H::sym_yields(m7, Err(h), rest)
                    }
            },
        }
    }

    #[verifier::rlimit(60)]
    fn symbolic(path: &mut Path) -> (r: Result<(A, B, C, D, E, F, G, H), Halt>) {
        let ghost m0 = path@;
        let x0 = match A::symbolic(path) {
            Ok(x) => x,
            Err(h) => {
                return Err(h);
            },
        };
        let ghost m1 = path@;
        let x1 = match B::symbolic(path) {
            Ok(x) => x,
            Err(h) => {
                assert({
                    &&& A::sym_yields(m0, Ok(x0), m1)
                    &&& B::sym_yields(m1, Err(h), path@)
                });
                return Err(h);
            },
        };
        let ghost m2 = path@;
        let x2 = match C::symbolic(path) {
            Ok(x) => x,
            Err(h) => {
                assert({
                    &&& A::sym_yields(m0, Ok(x0), m1)
                    &&& B::sym_yields(m1, Ok(x1), m2)
                    &&& C::sym_yields(m2, Err(h), path@)
                });
                return Err(h);
            },
        };
        let ghost m3 = path@;
        let x3 = match D::symbolic(path) {
            Ok(x) => x,
            Err(h) => {
                assert({
                    &&& A::sym_yields(m0, Ok(x0), m1)
                    &&& B::sym_yields(m1, Ok(x1), m2)
                    &&& C::sym_yields(m2, Ok(x2), m3)
                    &&& D::sym_yields(m3, Err(h), path@)
                });
                return Err(h);
            },
        };
        let ghost m4 = path@;
        let x4 = match E::symbolic(path) {
            Ok(x) => x,
            Err(h) => {
                assert({
                    &&& A::sym_yields(m0, Ok(x0), m1)
                    &&& B::sym_yields(m1, Ok(x1), m2)
                    &&& C::sym_yields(m2, Ok(x2), m3)
                    &&& D::sym_yields(m3, Ok(x3), m4)
                    &&& E::sym_yields(m4, Err(h), path@)
                });
                return Err(h);
            },
        };
        let ghost m5 = path@;
        let x5 = match F::symbolic(path) {
            Ok(x) => x,
            Err(h) => {
                assert({
                    &&& A::sym_yields(m0, Ok(x0), m1)
                    &&& B::sym_yields(m1, Ok(x1), m2)
                    &&& C::sym_yields(m2, Ok(x2), m3)
                    &&& D::sym_yields(m3, Ok(x3), m4)
                    &&& E::sym_yields(m4, Ok(x4), m5)
                    &&& F::sym_yields(m5, Err(h), path@)
                });
                return Err(h);
            },
        };
        let ghost m6 = path@;
        let x6 = match G::symbolic(path) {
            Ok(x) => x,
            Err(h) => {
                assert({
                    &&& A::sym_yields(m0, Ok(x0), m1)
                    &&& B::sym_yields(m1, Ok(x1), m2)
                    &&& C::sym_yields(m2, Ok(x2), m3)
                    &&& D::sym_yields(m3, Ok(x3), m4)
                    &&& E::sym_yields(m4, Ok(x4), m5)
                    &&& F::sym_yields(m5, Ok(x5), m6)
                    &&& G::sym_yields(m6, Err(h), path@)
                });
                return Err(h);
            },
        };
        let ghost m7 = path@;
        let x7 = match H::symbolic(path) {
            Ok(x) => x,
            Err(h) => {
                assert({
                    &&& A::sym_yields(m0, Ok(x0), m1)
                    &&& B::sym_yields(m1, Ok(x1), m2)
                    &&& C::sym_yields(m2, Ok(x2), m3)
                    &&& D::sym_yields(m3, Ok(x3), m4)
                    &&& E::sym_yields(m4, Ok(x4), m5)
                    &&& F::sym_yields(m5, Ok(x5), m6)
                    &&& G::sym_yields(m6, Ok(x6), m7)
                    &&& H::sym_yields(m7, Err(h), path@)
                });
                return Err(h);
            },
        };
        let ghost m8 = path@;
        assert({
            &&& A::sym_yields(m0, Ok(x0), m1)
            &&& B::sym_yields(m1, Ok(x1), m2)
            &&& C::sym_yields(m2, Ok(x2), m3)
            &&& D::sym_yields(m3, Ok(x3), m4)
            &&& E::sym_yields(m4, Ok(x4), m5)
            &&& F::sym_yields(m5, Ok(x5), m6)
            &&& G::sym_yields(m6, Ok(x6), m7)
            &&& H::sym_yields(m7, Ok(x7), m8)
        });
        Ok((x0, x1, x2, x3, x4, x5, x6, x7))
    }
}


impl<A: Symbolic, B: Symbolic, C: Symbolic, D: Symbolic, E: Symbolic, F: Symbolic, G: Symbolic, H: Symbolic, I: Symbolic> Symbolic for (A, B, C, D, E, F, G, H, I) {
    /// The components are drawn left to right; the first to halt ends the draw.
    open spec fn sym_yields(input: Seq<u128>, out: Result<(A, B, C, D, E, F, G, H, I), Halt>, rest: Seq<u128>) -> bool {
        match out {
            Ok(v) => exists|x0: A, x1: B, x2: C, x3: D, x4: E, x5: F, x6: G, x7: H, x8: I, m1: Seq<u128>, m2: Seq<u128>, m3: Seq<u128>, m4: Seq<u128>, m5: Seq<u128>, m6: Seq<u128>, m7: Seq<u128>, m8: Seq<u128>|
                {
                    &&& v == (x0, x1, x2, x3, x4, x5, x6, x7, x8)
                    &&& A::sym_yields(input, Ok(x0), m1)
                    &&& B::sym_yields(m1, Ok(x1), m2)
                    &&& C::sym_yields(m2, Ok(x2), m3)
                    &&& D::sym_yields(m3, Ok(x3), m4)
                    &&& E::sym_yields(m4, Ok(x4), m5)
                    &&& F::sym_yields(m5, Ok(x5), m6)
                    &&& G::sym_yields(m6, Ok(x6), m7)
                    &&& H::sym_yields(m7, Ok(x7), m8)
                    &&& I::sym_yields(m8, Ok(x8), rest)
                },
            Err(h) => {
                ||| A::sym_yields(input, Err(h), rest)
                ||| exists|x0: A, m1: Seq<u128>|
                    {
                        &&& A::sym_yields(input, Ok(x0), m1)
                        &&& B::sym_yields(m1, Err(h), rest)
                    }
                ||| exists|x0: A, m1: Seq<u128>, x1: B, m2: Seq<u128>|
                    {
                        &&& A::sym_yields(input, Ok(x0), m1)
                        &&& B::sym_yields(m1, Ok(x1), m2)
                        &&& C::sym_yields(m2, Err(h), rest)
                    }
                ||| exists|x0: A, m1: Seq<u128>, x1: B, m2: Seq<u128>, x2: C, m3: Seq<u128>|
                    {
                        &&& A::sym_yields(input, Ok(x0), m1)
                        &&& B::sym_yields(m1, Ok(x1), m2)
                        &&& C::sym_yields(m2, Ok(x2), m3)
                        &&& D::sym_yields(m3, Err(h), rest)
                    }
                ||| exists|x0: A, m1: Seq<u128>, x1: B, m2: Seq<u128>, x2: C, m3: Seq<u128>, x3: D, m4: Seq<u128>|
                    {
                        &&& A::sym_yields(input, Ok(x0), m1)
                        &&& B::sym_yields(m1, Ok(x1), m2)
                        &&& C::sym_yields(m2, Ok(x2), m3)
                        &&& D::sym_yields(m3, Ok(x3), m4)
                        &&& E::sym_yields(m4, Err(h), rest)
                    }
                ||| exists|x0: A, m1: Seq<u128>, x1: B, m2: Seq<u128>, x2: C, m3: Seq<u128>, x3: D, m4: Seq<u128>, x4: E, m5: Seq<u128>|
                    {
                        &&& A::sym_yields(input, Ok(x0), m1)
                        &&& B::sym_yields(m1, Ok(x1), m2)
                        &&& C::sym_yields(m2, Ok(x2), m3)
                        &&& D::sym_yields(m3, Ok(x3), m4)
                        &&& E::sym_yields(m4, Ok(x4), m5)
                        &&& F::sym_yields(m5, Err(h), rest)
                    }
                ||| exists|x0: A, m1: Seq<u128>, x1: B, m2: Seq<u128>, x2: C, m3: Seq<u128>, x3: D, m4: Seq<u128>, x4: E, m5: Seq<u128>, x5: F, m6: Seq<u128>|
                    {
                        &&& A::sym_yields(input, Ok(x0), m1)
                        &&& B::sym_yields(m1, Ok(x1), m2)
                        &&& C::sym_yields(m2, Ok(x2), m3)
                        &&& D::sym_yields(m3, Ok(x3), m4)
                        &&& E::sym_yields(m4, Ok(x4), m5)
                        &&& F::sym_yields(m5, Ok(x5), m6)
                        &&& G::sym_yields(m6, Err(h), rest)
                    }
                ||| exists|x0: A, m1: Seq<u128>, x1: B, m2: Seq<u128>, x2: C, m3: Seq<u128>, x3: D, m4: Seq<u128>, x4: E, m5: Seq<u128>, x5: F, m6: Seq<u128>, x6: G, m7: Seq<u128>|
                    {
                        &&& A::sym_yields(input, Ok(x0), m1)
                        &&& B::sym_yields(m1, Ok(x1), m2)
                        &&& C::sym_yields(m2, Ok(x2), m3)
                        &&& D::sym_yields(m3, Ok(x3), m4)
                        &&& E::sym_yields(m4, Ok(x4), m5)
                        &&& F::sym_yields(m5, Ok(x5), m6)
                        &&& G::sym_yields(m6, Ok(x6), m7)
                        &&& H::sym_yields(m7, Err(h), rest)
                    }
                ||| exists|x0: A, m1: Seq<u128>, x1: B, m2: Seq<u128>, x2: C, m3: Seq<u128>, x3: D, m4: Seq<u128>, x4: E, m5: Seq<u128>, x5: F, m6: Seq<u128>, x6: G, m7: Seq<u128>, x7: H, m8: Seq<u128>|
                    {
                        &&& A::sym_yields(input, Ok(x0), m1)
                        &&& B::sym_yields(m1, Ok(x1), m2)
                        &&& C::sym_yields(m2, Ok(x2), m3)
                        &&& D::sym_yields(m3, Ok(x3), m4)
                        &&& E::sym_yields(m4, Ok(x4), m5)
                        &&& F::sym_yields(m5, Ok(x5), m6)
                        &&& G::sym_yields(m6, Ok(x6), m7)
                        &&& H::sym_yields(m7, Ok(x7), m8)
                        &&& I::sym_yields(m8, Err(h), rest)
                    }
            },
        }
    }

    #[verifier::rlimit(60)]
    fn symbolic(path: &mut Path) -> (r: Result<(A, B, C, D, E, F, G, H, I), Halt>) {
        let ghost m0 = path@;
        let x0 = match A::symbolic(path) {
            Ok(x) => x,
            Err(h) => {
                return Err(h);
            },
        };
        let ghost m1 = path@;
        let x1 = match B::symbolic(path) {
            Ok(x) => x,
            Err(h) => {
                assert({
                    &&& A::sym_yields(m0, Ok(x0), m1)
                    &&& B::sym_yields(m1, Err(h), path@)
                });
                return Err(h);
            },
        };
        let ghost m2 = path@;
        let x2 = match C::symbolic(path) {
            Ok(x) => x,
            Err(h) => {
                assert({
                    &&& A::sym_yields(m0, Ok(x0), m1)
                    &&& B::sym_yields(m1, Ok(x1), m2)
                    &&& C::sym_yields(m2, Err(h), path@)
                });
                return Err(h);
            },
        };
        let ghost m3 = path@;
        let x3 = match D::symbolic(path) {
            Ok(x) => x,
            Err(h) => {
                assert({
                    &&& A::sym_yields(m0, Ok(x0), m1)
                    &&& B::sym_yields(m1, Ok(x1), m2)
                    &&& C::sym_yields(m2, Ok(x2), m3)
                    &&& D::sym_yields(m3, Err(h), path@)
                });
                return Err(h);
            },
        };
        let ghost m4 = path@;
        let x4 = match E::symbolic(path) {
            Ok(x) => x,
            Err(h) => {
                assert({
                    &&& A::sym_yields(m0, Ok(x0), m1)
                    &&& B::sym_yields(m1, Ok(x1), m2)
                    &&& C::sym_yields(m2, Ok(x2), m3)
                    &&& D::sym_yields(m3, Ok(x3), m4)
                    &&& E::sym_yields(m4, Err(h), path@)
                });
                return Err(h);
            },
        };
        let ghost m5 = path@;
        let x5 = match F::symbolic(path) {
            Ok(x) => x,
            Err(h) => {
                assert({
                    &&& A::sym_yields(m0, Ok(x0), m1)
                    &&& B::sym_yields(m1, Ok(x1), m2)
                    &&& C::sym_yields(m2, Ok(x2), m3)
                    &&& D::sym_yields(m3, Ok(x3), m4)
                    &&& E::sym_yields(m4, Ok(x4), m5)
                    &&& F::sym_yields(m5, Err(h), path@)
                });
                return Err(h);
            },
        };
        let ghost m6 = path@;
        let x6 = match G::symbolic(path) {
            Ok(x) => x,
            Err(h) => {
                assert({
                    &&& A::sym_yields(m0, Ok(x0), m1)
                    &&& B::sym_yields(m1, Ok(x1), m2)
                    &&& C::sym_yields(m2, Ok(x2), m3)
                    &&& D::sym_yields(m3, Ok(x3), m4)
                    &&& E::sym_yields(m4, Ok(x4), m5)
                    &&& F::sym_yields(m5, Ok(x5), m6)
                    &&& G::sym_yields(m6, Err(h), path@)
                });
                return Err(h);
            },
        };
        let ghost m7 = path@;
        let x7 = match H::symbolic(path) {
            Ok(x) => x,
            Err(h) => {
                assert({
                    &&& A::sym_yields(m0, Ok(x0), m1)
                    &&& B::sym_yields(m1, Ok(x1), m2)
                    &&& C::sym_yields(m2, Ok(x2), m3)
                    &&& D::sym_yields(m3, Ok(x3), m4)
                    &&& E::sym_yields(m4, Ok(x4), m5)
                    &&& F::sym_yields(m5, Ok(x5), m6)
                    &&& G::sym_yields(m6, Ok(x6), m7)
                    &&& H::sym_yields(m7, Err(h), path@)
                });
                return Err(h);
            },
        };
        let ghost m8 = path@;
        let x8 = match I::symbolic(path) {
            Ok(x) => x,
            Err(h) => {
                assert({
                    &&& A::sym_yields(m0, Ok(x0), m1)
                    &&& B::sym_yields(m1, Ok(x1), m2)
                    &&& C::sym_yields(m2, Ok(x2), m3)
                    &&& D::sym_yields(m3, Ok(x3), m4)
                    &&& E::sym_yields(m4, Ok(x4), m5)
                    &&& F::sym_yields(m5, Ok(x5), m6)
                    &&& G::sym_yields(m6, Ok(x6), m7)
                    &&& H::sym_yields(m7, Ok(x7), m8)
                    &&& I::sym_yields(m8, Err(h), path@)
                });
                return Err(h);
            },
        };
        let ghost m9 = path@;
        assert({
            &&& A::sym_yields(m0, Ok(x0), m1)
            &&& B::sym_yields(m1, Ok(x1), m2)
            &&& C::sym_yields(m2, Ok(x2), m3)
            &&& D::sym_yields(m3, Ok(x3), m4)
            &&& E::sym_yields(m4, Ok(x4), m5)
            &&& F::sym_yields(m5, Ok(x5), m6)
            &&& G::sym_yields(m6, Ok(x6), m7)
            &&& H::sym_yields(m7, Ok(x7), m8)
            &&& I::sym_yields(m8, Ok(x8), m9)
        });
        Ok((x0, x1, x2, x3, x4, x5, x6, x7, x8))
    }
}


impl<A: Symbolic, B: Symbolic, C: Symbolic, D: Symbolic, E: Symbolic, F: Symbolic, G: Symbolic, H: Symbolic, I: Symbolic, J: Symbolic> Symbolic for (A, B, C, D, E, F, G, H, I, J) {
    /// The components are drawn left to right; the first to halt ends the draw.
    open spec fn sym_yields(input: Seq<u128>, out: Result<(A, B, C, D, E, F, G, H, I, J), Halt>, rest: Seq<u128>) -> bool {
        match out {
            Ok(v) => exists|x0: A, x1: B, x2: C, x3: D, x4: E, x5: F, x6: G, x7: H, x8: I, x9: J, m1: Seq<u128>, m2: Seq<u128>, m3: Seq<u128>, m4: Seq<u128>, m5: Seq<u128>, m6: Seq<u128>, m7: Seq<u128>, m8: Seq<u128>, m9: Seq<u128>|
                {
                    &&& v == (x0, x1, x2, x3, x4, x5, x6, x7, x8, x9)
                    &&& A::sym_yields(input, Ok(x0), m1)
                    &&& B::sym_yields(m1, Ok(x1), m2)
                    &&& C::sym_yields(m2, Ok(x2), m3)
                    &&& D::sym_yields(m3, Ok(x3), m4)
                    &&& E::sym_yields(m4, Ok(x4), m5)
                    &&& F::sym_yields(m5, Ok(x5), m6)
                    &&& G::sym_yields(m6, Ok(x6), m7)
                    &&& H::sym_yields(m7, Ok(x7), m8)
                    &&& I::sym_yields(m8, Ok(x8), m9)
                    &&& J::sym_yields(m9, Ok(x9), rest)
                },
            Err(h) => {
                ||| A::sym_yields(input, Err(h), rest)
                ||| exists|x0: A, m1: Seq<u128>|
                    {
                        &&& A::sym_yields(input, Ok(x0), m1)
                        &&& B::sym_yields(m1, Err(h), rest)
                    }
                ||| exists|x0: A, m1: Seq<u128>, x1: B, m2: Seq<u128>|
                    {
                        &&& A::sym_yields(input, Ok(x0), m1)
                        &&& B::sym_yields(m1, Ok(x1), m2)
                        &&& C::sym_yields(m2, Err(h), rest)
                    }
                ||| exists|x0: A, m1: Seq<u128>, x1: B, m2: Seq<u128>, x2: C, m3: Seq<u128>|
                    {
                        &&& A::sym_yields(input, Ok(x0), m1)
                        &&& B::sym_yields(m1, Ok(x1), m2)
                        &&& C::sym_yields(m2, Ok(x2), m3)
                        &&& D::sym_yields(m3, Err(h), rest)
                    }
                ||| exists|x0: A, m1: Seq<u128>, x1: B, m2: Seq<u128>, x2: C, m3: Seq<u128>, x3: D, m4: Seq<u128>|
                    {
                        &&& A::sym_yields(input, Ok(x0), m1)
                        &&& B::sym_yields(m1, Ok(x1), m2)
                        &&& C::sym_yields(m2, Ok(x2), m3)
                        &&& D::sym_yields(m3, Ok(x3), m4)
                        &&& E::sym_yields(m4, Err(h), rest)
                    }
                ||| exists|x0: A, m1: Seq<u128>, x1: B, m2: Seq<u128>, x2: C, m3: Seq<u128>, x3: D, m4: Seq<u128>, x4: E, m5: Seq<u128>|
                    {
                        &&& A::sym_yields(input, Ok(x0), m1)
                        &&& B::sym_yields(m1, Ok(x1), m2)
                        &&& C::sym_yields(m2, Ok(x2), m3)
                        &&& D::sym_yields(m3, Ok(x3), m4)
                        &&& E::sym_yields(m4, Ok(x4), m5)
                        &&& F::sym_yields(m5, Err(h), rest)
                    }
                ||| exists|x0: A, m1: Seq<u128>, x1: B, m2: Seq<u128>, x2: C, m3: Seq<u128>, x3: D, m4: Seq<u128>, x4: E, m5: Seq<u128>, x5: F, m6: Seq<u128>|
                    {
                        &&& A::sym_yields(input, Ok(x0), m1)
                        &&& B::sym_yields(m1, Ok(x1), m2)
                        &&& C::sym_yields(m2, Ok(x2), m3)
                        &&& D::sym_yields(m3, Ok(x3), m4)
                        &&& E::sym_yields(m4, Ok(x4), m5)
                        &&& F::sym_yields(m5, Ok(x5), m6)
                        &&& G::sym_yields(m6, Err(h), rest)
                    }
                ||| exists|x0: A, m1: Seq<u128>, x1: B, m2: Seq<u128>, x2: C, m3: Seq<u128>, x3: D, m4: Seq<u128>, x4: E, m5: Seq<u128>, x5: F, m6: Seq<u128>, x6: G, m7: Seq<u128>|
                    {
                        &&& A::sym_yields(input, Ok(x0), m1)
                        &&& B::sym_yields(m1, Ok(x1), m2)
                        &&& C::sym_yields(m2, Ok(x2), m3)
                        &&& D::sym_yields(m3, Ok(x3), m4)
                        &&& E::sym_yields(m4, Ok(x4), m5)
                        &&& F::sym_yields(m5, Ok(x5), m6)
                        &&& G::sym_yields(m6, Ok(x6), m7)
                        &&& H::sym_yields(m7, Err(h), rest)
                    }
                ||| exists|x0: A, m1: Seq<u128>, x1: B, m2: Seq<u128>, x2: C, m3: Seq<u128>, x3: D, m4: Seq<u128>, x4: E, m5: Seq<u128>, x5: F, m6: Seq<u128>, x6: G, m7: Seq<u128>, x7: H, m8: Seq<u128>|
                    {
                        &&& A::sym_yields(input, Ok(x0), m1)
                        &&& B::sym_yields(m1, Ok(x1), m2)
                        &&& C::sym_yields(m2, Ok(x2), m3)
                        &&& D::sym_yields(m3, Ok(x3), m4)
                        &&& E::sym_yields(m4, Ok(x4), m5)
                        &&& F::sym_yields(m5, Ok(x5), m6)
                        &&& G::sym_yields(m6, Ok(x6), m7)
                        &&& H::sym_yields(m7, Ok(x7), m8)
                        &&& I::sym_yields(m8, Err(h), rest)
                    }
                ||| exists|x0: A, m1: Seq<u128>, x1: B, m2: Seq<u128>, x2: C, m3: Seq<u128>, x3: D, m4: Seq<u128>, x4: E, m5: Seq<u128>, x5: F, m6: Seq<u128>, x6: G, m7: Seq<u128>, x7: H, m8: Seq<u128>, x8: I, m9: Seq<u128>|
                    {
                        &&& A::sym_yields(input, Ok(x0), m1)
                        &&& B::sym_yields(m1, Ok(x1), m2)
                        &&& C::sym_yields(m2, Ok(x2), m3)
                        &&& D::sym_yields(m3, Ok(x3), m4)
                        &&& E::sym_yields(m4, Ok(x4), m5)
                        &&& F::sym_yields(m5, Ok(x5), m6)
                        &&& G::sym_yields(m6, Ok(x6), m7)
                        &&& H::sym_yields(m7, Ok(x7), m8)
                        &&& I::sym_yields(m8, Ok(x8), m9)
                        &&& J::sym_yields(m9, Err(h), rest)
                    }
            },
        }
    }

    #[verifier::rlimit(60)]
    fn symbolic(path: &mut Path) -> (r: Result<(A, B, C, D, E, F, G, H, I, J), Halt>) {
        let ghost m0 = path@;
        let x0 = match A::symbolic(path) {
            Ok(x) => x,
            Err(h) => {
                return Err(h);
            },
        };
        let ghost m1 = path@;
        let x1 = match B::symbolic(path) {
            Ok(x) => x,
            Err(h) => {
                assert({
                    &&& A::sym_yields(m0, Ok(x0), m1)
                    &&& B::sym_yields(m1, Err(h), path@)
                });
                return Err(h);
            },
        };
        let ghost m2 = path@;
        let x2 = match C::symbolic(path) {
            Ok(x) => x,
            Err(h) => {
                assert({
                    &&& A::sym_yields(m0, Ok(x0), m1)
                    &&& B::sym_yields(m1, Ok(x1), m2)
                    &&& C::sym_yields(m2, Err(h), path@)
                });
                return Err(h);
            },
        };
        let ghost m3 = path@;
        let x3 = match D::symbolic(path) {
            Ok(x) => x,
            Err(h) => {
                assert({
                    &&& A::sym_yields(m0, Ok(x0), m1)
                    &&& B::sym_yields(m1, Ok(x1), m2)
                    &&& C::sym_yields(m2, Ok(x2), m3)
                    &&& D::sym_yields(m3, Err(h), path@)
                });
                return Err(h);
            },
        };
        let ghost m4 = path@;
        let x4 = match E::symbolic(path) {
            Ok(x) => x,
            Err(h) => {
                assert({
                    &&& A::sym_yields(m0, Ok(x0), m1)
                    &&& B::sym_yields(m1, Ok(x1), m2)
                    &&& C::sym_yields(m2, Ok(x2), m3)
                    &&& D::sym_yields(m3, Ok(x3), m4)
                    &&& E::sym_yields(m4, Err(h), path@)
                });
                return Err(h);
            },
        };
        let ghost m5 = path@;
        let x5 = match F::symbolic(path) {
            Ok(x) => x,
            Err(h) => {
                assert({
                    &&& A::sym_yields(m0, Ok(x0), m1)
                    &&& B::sym_yields(m1, Ok(x1), m2)
                    &&& C::sym_yields(m2, Ok(x2), m3)
                    &&& D::sym_yields(m3, Ok(x3), m4)
                    &&& E::sym_yields(m4, Ok(x4), m5)
                    &&& F::sym_yields(m5, Err(h), path@)
                });
                return Err(h);
            },
        };
        let ghost m6 = path@;
        let x6 = match G::symbolic(path) {
            Ok(x) => x,
            Err(h) => {
                assert({
                    &&& A::sym_yields(m0, Ok(x0), m1)
                    &&& B::sym_yields(m1, Ok(x1), m2)
                    &&& C::sym_yields(m2, Ok(x2), m3)
                    &&& D::sym_yields(m3, Ok(x3), m4)
                    &&& E::sym_yields(m4, Ok(x4), m5)
                    &&& F::sym_yields(m5, Ok(x5), m6)
                    &&& G::sym_yields(m6, Err(h), path@)
                });
                return Err(h);
            },
        };
        let ghost m7 = path@;
        let x7 = match H::symbolic(path) {
            Ok(x) => x,
            Err(h) => {
                assert({
                    &&& A::sym_yields(m0, Ok(x0), m1)
                    &&& B::sym_yields(m1, Ok(x1), m2)
                    &&& C::sym_yields(m2, Ok(x2), m3)
                    &&& D::sym_yields(m3, Ok(x3), m4)
                    &&& E::sym_yields(m4, Ok(x4), m5)
                    &&& F::sym_yields(m5, Ok(x5), m6)
                    &&& G::sym_yields(m6, Ok(x6), m7)
                    &&& H::sym_yields(m7, Err(h), path@)
                });
                return Err(h);
            },
        };
        let ghost m8 = path@;
        let x8 = match I::symbolic(path) {
            Ok(x) => x,
            Err(h) => {
                assert({
                    &&& A::sym_yields(m0, Ok(x0), m1)
                    &&& B::sym_yields(m1, Ok(x1), m2)
                    &&& C::sym_yields(m2, Ok(x2), m3)
                    &&& D::sym_yields(m3, Ok(x3), m4)
                    &&& E::sym_yields(m4, Ok(x4), m5)
                    &&& F::sym_yields(m5, Ok(x5), m6)
                    &&& G::sym_yields(m6, Ok(x6), m7)
                    &&& H::sym_yields(m7, Ok(x7), m8)
                    &&& I::sym_yields(m8, Err(h), path@)
                });
                return Err(h);
            },
        };
        let ghost m9 = path@;
        let x9 = match J::symbolic(path) {
            Ok(x) => x,
            Err(h) => {
                assert({
                    &&& A::sym_yields(m0, Ok(x0), m1)
                    &&& B::sym_yields(m1, Ok(x1), m2)
                    &&& C::sym_yields(m2, Ok(x2), m3)
                    &&& D::sym_yields(m3, Ok(x3), m4)
                    &&& E::sym_yields(m4, Ok(x4), m5)
                    &&& F::sym_yields(m5, Ok(x5), m6)
                    &&& G::sym_yields(m6, Ok(x6), m7)
                    &&& H::sym_yields(m7, Ok(x7), m8)
                    &&& I::sym_yields(m8, Ok(x8), m9)
                    &&& J::sym_yields(m9, Err(h), path@)
                });
                return Err(h);
            },
        };
        let ghost m10 = path@;
        assert({
            &&& A::sym_yields(m0, Ok(x0), m1)
            &&& B::sym_yields(m1, Ok(x1), m2)
            &&& C::sym_yields(m2, Ok(x2), m3)
            &&& D::sym_yields(m3, Ok(x3), m4)
            &&& E::sym_yields(m4, Ok(x4), m5)
            &&& F::sym_yields(m5, Ok(x5), m6)
            &&& G::sym_yields(m6, Ok(x6), m7)
            &&& H::sym_yields(m7, Ok(x7), m8)
            &&& I::sym_yields(m8, Ok(x8), m9)
            &&& J::sym_yields(m9, Ok(x9), m10)
        });
        Ok((x0, x1, x2, x3, x4, x5, x6, x7, x8, x9))
    }
}


impl<A: Symbolic, B: Symbolic, C: Symbolic, D: Symbolic, E: Symbolic, F: Symbolic, G: Symbolic, H: Symbolic, I: Symbolic, J: Symbolic, K: Symbolic> Symbolic for (A, B, C, D, E, F, G, H, I, J, K) {
    /// The components are drawn left to right; the first to halt ends the draw.
    open spec fn sym_yields(input: Seq<u128>, out: Result<(A, B, C, D, E, F, G, H, I, J, K), Halt>, rest: Seq<u128>) -> bool {
        match out {
            Ok(v) => exists|x0: A, x1: B, x2: C, x3: D, x4: E, x5: F, x6: G, x7: H, x8: I, x9: J, x10: K, m1: Seq<u128>, m2: Seq<u128>, m3: Seq<u128>, m4: Seq<u128>, m5: Seq<u128>, m6: Seq<u128>, m7: Seq<u128>, m8: Seq<u128>, m9: Seq<u128>, m10: Seq<u128>|
                {
                    &&& v == (x0, x1, x2, x3, x4, x5, x6, x7, x8, x9, x10)
                    &&& A::sym_yields(input, Ok(x0), m1)
                    &&& B::sym_yields(m1, Ok(x1), m2)
                    &&& C::sym_yields(m2, Ok(x2), m3)
                    &&& D::sym_yields(m3, Ok(x3), m4)
                    &&& E::sym_yields(m4, Ok(x4), m5)
                    &&& F::sym_yields(m5, Ok(x5), m6)
                    &&& G::sym_yields(m6, Ok(x6), m7)
                    &&& H::sym_yields(m7, Ok(x7), m8)
                    &&& I::sym_yields(m8, Ok(x8), m9)
                    &&& J::sym_yields(m9, Ok(x9), m10)
                    &&& K::sym_yields(m10, Ok(x10), rest)
                },
            Err(h) => {
                ||| A::sym_yields(input, Err(h), rest)
                ||| exists|x0: A, m1: Seq<u128>|
                    {
                        &&& A::sym_yields(input, Ok(x0), m1)
                        &&& B::sym_yields(m1, Err(h), rest)
                    }
                ||| exists|x0: A, m1: Seq<u128>, x1: B, m2: Seq<u128>|
                    {
                        &&& A::sym_yields(input, Ok(x0), m1)
                        &&& B::sym_yields(m1, Ok(x1), m2)
                        &&& C::sym_yields(m2, Err(h), rest)
                    }
                ||| exists|x0: A, m1: Seq<u128>, x1: B, m2: Seq<u128>, x2: C, m3: Seq<u128>|
                    {
                        &&& A::sym_yields(input, Ok(x0), m1)
                        &&& B::sym_yields(m1, Ok(x1), m2)
                        &&& C::sym_yields(m2, Ok(x2), m3)
                        &&& D::sym_yields(m3, Err(h), rest)
                    }
                ||| exists|x0: A, m1: Seq<u128>, x1: B, m2: Seq<u128>, x2: C, m3: Seq<u128>, x3: D, m4: Seq<u128>|
                    {
                        &&& A::sym_yields(input, Ok(x0), m1)
                        &&& B::sym_yields(m1, Ok(x1), m2)
                        &&& C::sym_yields(m2, Ok(x2), m3)
                        &&& D::sym_yields(m3, Ok(x3), m4)
                        &&& E::sym_yields(m4, Err(h), rest)
                    }
                ||| exists|x0: A, m1: Seq<u128>, x1: B, m2: Seq<u128>, x2: C, m3: Seq<u128>, x3: D, m4: Seq<u128>, x4: E, m5: Seq<u128>|
                    {
                        &&& A::sym_yields(input, Ok(x0), m1)
                        &&& B::sym_yields(m1, Ok(x1), m2)
                        &&& C::sym_yields(m2, Ok(x2), m3)
                        &&& D::sym_yields(m3, Ok(x3), m4)
                        &&& E::sym_yields(m4, Ok(x4), m5)
                        &&& F::sym_yields(m5, Err(h), rest)
                    }
                ||| exists|x0: A, m1: Seq<u128>, x1: B, m2: Seq<u128>, x2: C, m3: Seq<u128>, x3: D, m4: Seq<u128>, x4: E, m5: Seq<u128>, x5: F, m6: Seq<u128>|
                    {
                        &&& A::sym_yields(input, Ok(x0), m1)
                        &&& B::sym_yields(m1, Ok(x1), m2)
                        &&& C::sym_yields(m2, Ok(x2), m3)
                        &&& D::sym_yields(m3, Ok(x3), m4)
                        &&& E::sym_yields(m4, Ok(x4), m5)
                        &&& F::sym_yields(m5, Ok(x5), m6)
                        &&& G::sym_yields(m6, Err(h), rest)
                    }
                ||| exists|x0: A, m1: Seq<u128>, x1: B, m2: Seq<u128>, x2: C, m3: Seq<u128>, x3: D, m4: Seq<u128>, x4: E, m5: Seq<u128>, x5: F, m6: Seq<u128>, x6: G, m7: Seq<u128>|
                    {
                        &&& A::sym_yields(input, Ok(x0), m1)
                        &&& B::sym_yields(m1, Ok(x1), m2)
                        &&& C::sym_yields(m2, Ok(x2), m3)
                        &&& D::sym_yields(m3, Ok(x3), m4)
                        &&& E::sym_yields(m4, Ok(x4), m5)
                        &&& F::sym_yields(m5, Ok(x5), m6)
                        &&& G::sym_yields(m6, Ok(x6), m7)
                        &&& H::sym_yields(m7, Err(h), rest)
                    }
                ||| exists|x0: A, m1: Seq<u128>, x1: B, m2: Seq<u128>, x2: C, m3: Seq<u128>, x3: D, m4: Seq<u128>, x4: E, m5: Seq<u128>, x5: F, m6: Seq<u128>, x6: G, m7: Seq<u128>, x7: H, m8: Seq<u128>|
                    {
                        &&& A::sym_yields(input, Ok(x0), m1)
                        &&& B::sym_yields(m1, Ok(x1), m2)
                        &&& C::sym_yields(m2, Ok(x2), m3)
                        &&& D::sym_yields(m3, Ok(x3), m4)
                        &&& E::sym_yields(m4, Ok(x4), m5)
                        &&& F::sym_yields(m5, Ok(x5), m6)
                        &&& G::sym_yields(m6, Ok(x6), m7)
                        &&& H::sym_yields(m7, Ok(x7), m8)
                        &&& I::sym_yields(m8, Err(h), rest)
                    }
                ||| exists|x0: A, m1: Seq<u128>, x1: B, m2: Seq<u128>, x2: C, m3: Seq<u128>, x3: D, m4: Seq<u128>, x4: E, m5: Seq<u128>, x5: F, m6: Seq<u128>, x6: G, m7: Seq<u128>, x7: H, m8: Seq<u128>, x8: I, m9: Seq<u128>|
                    {
                        &&& A::sym_yields(input, Ok(x0), m1)
                        &&& B::sym_yields(m1, Ok(x1), m2)
                        &&& C::sym_yields(m2, Ok(x2), m3)
                        &&& D::sym_yields(m3, Ok(x3), m4)
                        &&& E::sym_yields(m4, Ok(x4), m5)
                        &&& F::sym_yields(m5, Ok(x5), m6)
                        &&& G::sym_yields(m6, Ok(x6), m7)
                        &&& H::sym_yields(m7, Ok(x7), m8)
                        &&& I::sym_yields(m8, Ok(x8), m9)
                        &&& J::sym_yields(m9, Err(h), rest)
                    }
                ||| exists|x0: A, m1: Seq<u128>, x1: B, m2: Seq<u128>, x2: C, m3: Seq<u128>, x3: D, m4: Seq<u128>, x4: E, m5: Seq<u128>, x5: F, m6: Seq<u128>, x6: G, m7: Seq<u128>, x7: H, m8: Seq<u128>, x8: I, m9: Seq<u128>, x9: J, m10: Seq<u128>|
                    {
                        &&& A::sym_yields(input, Ok(x0), m1)
                        &&& B::sym_yields(m1, Ok(x1), m2)
                        &&& C::sym_yields(m2, Ok(x2), m3)
                        &&& D::sym_yields(m3, Ok(x3), m4)
                        &&& E::sym_yields(m4, Ok(x4), m5)
                        &&& F::sym_yields(m5, Ok(x5), m6)
                        &&& G::sym_yields(m6, Ok(x6), m7)
                        &&& H::sym_yields(m7, Ok(x7), m8)
                        &&& I::sym_yields(m8, Ok(x8), m9)
                        &&& J::sym_yields(m9, Ok(x9), m10)
                        &&& K::sym_yields(m10, Err(h), rest)
                    }
            },
        }
    }

    #[verifier::rlimit(60)]
    fn symbolic(path: &mut Path) -> (r: Result<(A, B, C, D, E, F, G, H, I, J, K), Halt>) {
        let ghost m0 = path@;
        let x0 = match A::symbolic(path) {
            Ok(x) => x,
            Err(h) => {
                return Err(h);
            },
        };
        let ghost m1 = path@;
        let x1 = match B::symbolic(path) {
            Ok(x) => x,
            Err(h) => {
                assert({
                    &&& A::sym_yields(m0, Ok(x0), m1)
                    &&& B::sym_yields(m1, Err(h), path@)
                });
                return Err(h);
            },
        };
        let ghost m2 = path@;
        let x2 = match C::symbolic(path) {
            Ok(x) => x,
            Err(h) => {
                assert({
                    &&& A::sym_yields(m0, Ok(x0), m1)
                    &&& B::sym_yields(m1, Ok(x1), m2)
                    &&& C::sym_yields(m2, Err(h), path@)
                });
                return Err(h);
            },
        };
        let ghost m3 = path@;
        let x3 = match D::symbolic(path) {
            Ok(x) => x,
            Err(h) => {
                assert({
                    &&& A::sym_yields(m0, Ok(x0), m1)
                    &&& B::sym_yields(m1, Ok(x1), m2)
                    &&& C::sym_yields(m2, Ok(x2), m3)
                    &&& D::sym_yields(m3, Err(h), path@)
                });
                return Err(h);
            },
        };
        let ghost m4 = path@;
        let x4 = match E::symbolic(path) {
            Ok(x) => x,
            Err(h) => {
                assert({
                    &&& A::sym_yields(m0, Ok(x0), m1)
                    &&& B::sym_yields(m1, Ok(x1), m2)
                    &&& C::sym_yields(m2, Ok(x2), m3)
                    &&& D::sym_yields(m3, Ok(x3), m4)
                    &&& E::sym_yields(m4, Err(h), path@)
                });
                return Err(h);
            },
        };
        let ghost m5 = path@;
        let x5 = match F::symbolic(path) {
            Ok(x) => x,
            Err(h) => {
                assert({
                    &&& A::sym_yields(m0, Ok(x0), m1)
                    &&& B::sym_yields(m1, Ok(x1), m2)
                    &&& C::sym_yields(m2, Ok(x2), m3)
                    &&& D::sym_yields(m3, Ok(x3), m4)
                    &&& E::sym_yields(m4, Ok(x4), m5)
                    &&& F::sym_yields(m5, Err(h), path@)
                });
                return Err(h);
            },
        };
        let ghost m6 = path@;
        let x6 = match G::symbolic(path) {
            Ok(x) => x,
            Err(h) => {
                assert({
                    &&& A::sym_yields(m0, Ok(x0), m1)
                    &&& B::sym_yields(m1, Ok(x1), m2)
                    &&& C::sym_yields(m2, Ok(x2), m3)
                    &&& D::sym_yields(m3, Ok(x3), m4)
                    &&& E::sym_yields(m4, Ok(x4), m5)
                    &&& F::sym_yields(m5, Ok(x5), m6)
                    &&& G::sym_yields(m6, Err(h), path@)
                });
                return Err(h);
            },
        };
        let ghost m7 = path@;
        let x7 = match H::symbolic(path) {
            Ok(x) => x,
            Err(h) => {
                assert({
                    &&& A::sym_yields(m0, Ok(x0), m1)
                    &&& B::sym_yields(m1, Ok(x1), m2)
                    &&& C::sym_yields(m2, Ok(x2), m3)
                    &&& D::sym_yields(m3, Ok(x3), m4)
                    &&& E::sym_yields(m4, Ok(x4), m5)
                    &&& F::sym_yields(m5, Ok(x5), m6)
                    &&& G::sym_yields(m6, Ok(x6), m7)
                    &&& H::sym_yields(m7, Err(h), path@)
                });
                return Err(h);
            },
        };
        let ghost m8 = path@;
        let x8 = match I::symbolic(path) {
            Ok(x) => x,
            Err(h) => {
                assert({
                    &&& A::sym_yields(m0, Ok(x0), m1)
                    &&& B::sym_yields(m1, Ok(x1), m2)
                    &&& C::sym_yields(m2, Ok(x2), m3)
                    &&& D::sym_yields(m3, Ok(x3), m4)
                    &&& E::sym_yields(m4, Ok(x4), m5)
                    &&& F::sym_yields(m5, Ok(x5), m6)
                    &&& G::sym_yields(m6, Ok(x6), m7)
                    &&& H::sym_yields(m7, Ok(x7), m8)
                    &&& I::sym_yields(m8, Err(h), path@)
                });
                return Err(h);
            },
        };
        let ghost m9 = path@;
        let x9 = match J::symbolic(path) {
            Ok(x) => x,
            Err(h) => {
                assert({
                    &&& A::sym_yields(m0, Ok(x0), m1)
                    &&& B::sym_yields(m1, Ok(x1), m2)
                    &&& C::sym_yields(m2, Ok(x2), m3)
                    &&& D::sym_yields(m3, Ok(x3), m4)
                    &&& E::sym_yields(m4, Ok(x4), m5)
                    &&& F::sym_yields(m5, Ok(x5), m6)
                    &&& G::sym_yields(m6, Ok(x6), m7)
                    &&& H::sym_yields(m7, Ok(x7), m8)
                    &&& I::sym_yields(m8, Ok(x8), m9)
                    &&& J::sym_yields(m9, Err(h), path@)
                });
                return Err(h);
            },
        };
        let ghost m10 = path@;
        let x10 = match K::symbolic(path) {
            Ok(x) => x,
            Err(h) => {
                assert({
                    &&& A::sym_yields(m0, Ok(x0), m1)
                    &&& B::sym_yields(m1, Ok(x1), m2)
                    &&& C::sym_yields(m2, Ok(x2), m3)
                    &&& D::sym_yields(m3, Ok(x3), m4)
                    &&& E::sym_yields(m4, Ok(x4), m5)
                    &&& F::sym_yields(m5, Ok(x5), m6)
                    &&& G::sym_yields(m6, Ok(x6), m7)
                    &&& H::sym_yields(m7, Ok(x7), m8)
                    &&& I::sym_yields(m8, Ok(x8), m9)
                    &&& J::sym_yields(m9, Ok(x9), m10)
                    &&& K::sym_yields(m10, Err(h), path@)
                });
                return Err(h);
            },
        };
        let ghost m11 = path@;
        assert({
            &&& A::sym_yields(m0, Ok(x0), m1)
            &&& B::sym_yields(m1, Ok(x1), m2)
            &&& C::sym_yields(m2, Ok(x2), m3)
            &&& D::sym_yields(m3, Ok(x3), m4)
            &&& E::sym_yields(m4, Ok(x4), m5)
            &&& F::sym_yields(m5, Ok(x5), m6)
            &&& G::sym_yields(m6, Ok(x6), m7)
            &&& H::sym_yields(m7, Ok(x7), m8)
            &&& I::sym_yields(m8, Ok(x8), m9)
            &&& J::sym_yields(m9, Ok(x9), m10)
            &&& K::sym_yields(m10, Ok(x10), m11)
        });
        Ok((x0, x1, x2, x3, x4, x5, x6, x7, x8, x9, x10))
    }
}


impl<A: Symbolic, B: Symbolic, C: Symbolic, D: Symbolic, E: Symbolic, F: Symbolic, G: Symbolic, H: Symbolic, I: Symbolic, J: Symbolic, K: Symbolic, L: Symbolic> Symbolic for (A, B, C, D, E, F, G, H, I, J, K, L) {
    /// The components are drawn left to right; the first to halt ends the draw.
    open spec fn sym_yields(input: Seq<u128>, out: Result<(A, B, C, D, E, F, G, H, I, J, K, L), Halt>, rest: Seq<u128>) -> bool {
        match out {
            Ok(v) => exists|x0: A, x1: B, x2: C, x3: D, x4: E, x5: F, x6: G, x7: H, x8: I, x9: J, x10: K, x11: L, m1: Seq<u128>, m2: Seq<u128>, m3: Seq<u128>, m4: Seq<u128>, m5: Seq<u128>, m6: Seq<u128>, m7: Seq<u128>, m8: Seq<u128>, m9: Seq<u128>, m10: Seq<u128>, m11: Seq<u128>|
                {
                    &&& v == (x0, x1, x2, x3, x4, x5, x6, x7, x8, x9, x10, x11)
                    &&& A::sym_yields(input, Ok(x0), m1)
                    &&& B::sym_yields(m1, Ok(x1), m2)
                    &&& C::sym_yields(m2, Ok(x2), m3)
                    &&& D::sym_yields(m3, Ok(x3), m4)
                    &&& E::sym_yields(m4, Ok(x4), m5)
                    &&& F::sym_yields(m5, Ok(x5), m6)
                    &&& G::sym_yields(m6, Ok(x6), m7)
                    &&& H::sym_yields(m7, Ok(x7), m8)
                    &&& I::sym_yields(m8, Ok(x8), m9)
                    &&& J::sym_yields(m9, Ok(x9), m10)
                    &&& K::sym_yields(m10, Ok(x10), m11)
                    &&& L::sym_yields(m11, Ok(x11), rest)
                },
            Err(h) => {
                ||| A::sym_yields(input, Err(h), rest)
                ||| exists|x0: A, m1: Seq<u128>|
                    {
                        &&& A::sym_yields(input, Ok(x0), m1)
                        &&& B::sym_yields(m1, Err(h), rest)
                    }
                ||| exists|x0: A, m1: Seq<u128>, x1: B, m2: Seq<u128>|
                    {
                        &&& A::sym_yields(input, Ok(x0), m1)
                        &&& B::sym_yields(m1, Ok(x1), m2)
                        &&& C::sym_yields(m2, Err(h), rest)
                    }
                ||| exists|x0: A, m1: Seq<u128>, x1: B, m2: Seq<u128>, x2: C, m3: Seq<u128>|
                    {
                        &&& A::sym_yields(input, Ok(x0), m1)
                        &&& B::sym_yields(m1, Ok(x1), m2)
                        &&& C::sym_yields(m2, Ok(x2), m3)
                        &&& D::sym_yields(m3, Err(h), rest)
                    }
                ||| exists|x0: A, m1: Seq<u128>, x1: B, m2: Seq<u128>, x2: C, m3: Seq<u128>, x3: D, m4: Seq<u128>|
                    {
                        &&& A::sym_yields(input, Ok(x0), m1)
                        &&& B::sym_yields(m1, Ok(x1), m2)
                        &&& C::sym_yields(m2, Ok(x2), m3)
                        &&& D::sym_yields(m3, Ok(x3), m4)
                        &&& E::sym_yields(m4, Err(h), rest)
                    }
                ||| exists|x0: A, m1: Seq<u128>, x1: B, m2: Seq<u128>, x2: C, m3: Seq<u128>, x3: D, m4: Seq<u128>, x4: E, m5: Seq<u128>|
                    {
                        &&& A::sym_yields(input, Ok(x0), m1)
                        &&& B::sym_yields(m1, Ok(x1), m2)
                        &&& C::sym_yields(m2, Ok(x2), m3)
                        &&& D::sym_yields(m3, Ok(x3), m4)
                        &&& E::sym_yields(m4, Ok(x4), m5)
                        &&& F::sym_yields(m5, Err(h), rest)
                    }
                ||| exists|x0: A, m1: Seq<u128>, x1: B, m2: Seq<u128>, x2: C, m3: Seq<u128>, x3: D, m4: Seq<u128>, x4: E, m5: Seq<u128>, x5: F, m6: Seq<u128>|
                    {
                        &&& A::sym_yields(input, Ok(x0), m1)
                        &&& B::sym_yields(m1, Ok(x1), m2)
                        &&& C::sym_yields(m2, Ok(x2), m3)
                        &&& D::sym_yields(m3, Ok(x3), m4)
                        &&& E::sym_yields(m4, Ok(x4), m5)
                        &&& F::sym_yields(m5, Ok(x5), m6)
                        &&& G::sym_yields(m6, Err(h), rest)
                    }
                ||| exists|x0: A, m1: Seq<u128>, x1: B, m2: Seq<u128>, x2: C, m3: Seq<u128>, x3: D, m4: Seq<u128>, x4: E, m5: Seq<u128>, x5: F, m6: Seq<u128>, x6: G, m7: Seq<u128>|
                    {
                        &&& A::sym_yields(input, Ok(x0), m1)
                        &&& B::sym_yields(m1, Ok(x1), m2)
                        &&& C::sym_yields(m2, Ok(x2), m3)
                        &&& D::sym_yields(m3, Ok(x3), m4)
                        &&& E::sym_yields(m4, Ok(x4), m5)
                        &&& F::sym_yields(m5, Ok(x5), m6)
                        &&& G::sym_yields(m6, Ok(x6), m7)
                        &&& H::sym_yields(m7, Err(h), rest)
                    }
                ||| exists|x0: A, m1: Seq<u128>, x1: B, m2: Seq<u128>, x2: C, m3: Seq<u128>, x3: D, m4: Seq<u128>, x4: E, m5: Seq<u128>, x5: F, m6: Seq<u128>, x6: G, m7: Seq<u128>, x7: H, m8: Seq<u128>|
                    {
                        &&& A::sym_yields(input, Ok(x0), m1)
                        &&& B::sym_yields(m1, Ok(x1), m2)
                        &&& C::sym_yields(m2, Ok(x2), m3)
                        &&& D::sym_yields(m3, Ok(x3), m4)
                        &&& E::sym_yields(m4, Ok(x4), m5)
                        &&& F::sym_yields(m5, Ok(x5), m6)
                        &&& G::sym_yields(m6, Ok(x6), m7)
                        &&& H::sym_yields(m7, Ok(x7), m8)
                        &&& I::sym_yields(m8, Err(h), rest)
                    }
                ||| exists|x0: A, m1: Seq<u128>, x1: B, m2: Seq<u128>, x2: C, m3: Seq<u128>, x3: D, m4: Seq<u128>, x4: E, m5: Seq<u128>, x5: F, m6: Seq<u128>, x6: G, m7: Seq<u128>, x7: H, m8: Seq<u128>, x8: I, m9: Seq<u128>|
                    {
                        &&& A::sym_yields(input, Ok(x0), m1)
                        &&& B::sym_yields(m1, Ok(x1), m2)
                        &&& C::sym_yields(m2, Ok(x2), m3)
                        &&& D::sym_yields(m3, Ok(x3), m4)
                        &&& E::sym_yields(m4, Ok(x4), m5)
                        &&& F::sym_yields(m5, Ok(x5), m6)
                        &&& G::sym_yields(m6, Ok(x6), m7)
                        &&& H::sym_yields(m7, Ok(x7), m8)
                        &&& I::sym_yields(m8, Ok(x8), m9)
                        &&& J::sym_yields(m9, Err(h), rest)
                    }
                ||| exists|x0: A, m1: Seq<u128>, x1: B, m2: Seq<u128>, x2: C, m3: Seq<u128>, x3: D, m4: Seq<u128>, x4: E, m5: Seq<u128>, x5: F, m6: Seq<u128>, x6: G, m7: Seq<u128>, x7: H, m8: Seq<u128>, x8: I, m9: Seq<u128>, x9: J, m10: Seq<u128>|
                    {
                        &&& A::sym_yields(input, Ok(x0), m1)
                        &&& B::sym_yields(m1, Ok(x1), m2)
                        &&& C::sym_yields(m2, Ok(x2), m3)
                        &&& D::sym_yields(m3, Ok(x3), m4)
                        &&& E::sym_yields(m4, Ok(x4), m5)
                        &&& F::sym_yields(m5, Ok(x5), m6)
                        &&& G::sym_yields(m6, Ok(x6), m7)
                        &&& H::sym_yields(m7, Ok(x7), m8)
                        &&& I::sym_yields(m8, Ok(x8), m9)
                        &&& J::sym_yields(m9, Ok(x9), m10)
                        &&& K::sym_yields(m10, Err(h), rest)
                    }
                ||| exists|x0: A, m1: Seq<u128>, x1: B, m2: Seq<u128>, x2: C, m3: Seq<u128>, x3: D, m4: Seq<u128>, x4: E, m5: Seq<u128>, x5: F, m6: Seq<u128>, x6: G, m7: Seq<u128>, x7: H, m8: Seq<u128>, x8: I, m9: Seq<u128>, x9: J, m10: Seq<u128>, x10: K, m11: Seq<u128>|
                    {
                        &&& A::sym_yields(input, Ok(x0), m1)
                        &&& B::sym_yields(m1, Ok(x1), m2)
                        &&& C::sym_yields(m2, Ok(x2), m3)
                        &&& D::sym_yields(m3, Ok(x3), m4)
                        &&& E::sym_yields(m4, Ok(x4), m5)
                        &&& F::sym_yields(m5, Ok(x5), m6)
                        &&& G::sym_yields(m6, Ok(x6), m7)
                        &&& H::sym_yields(m7, Ok(x7), m8)
                        &&& I::sym_yields(m8, Ok(x8), m9)
                        &&& J::sym_yields(m9, Ok(x9), m10)
                        &&& K::sym_yields(m10, Ok(x10), m11)
                        &&& L::sym_yields(m11, Err(h), rest)
                    }
            },
        }
    }

    #[verifier::rlimit(60)]
    fn symbolic(path: &mut Path) -> (r: Result<(A, B, C, D, E, F, G, H, I, J, K, L), Halt>) {
        let ghost m0 = path@;
        let x0 = match A::symbolic(path) {
            Ok(x) => x,
            Err(h) => {
                return Err(h);
            },
        };
        let ghost m1 = path@;
        let x1 = match B::symbolic(path) {
            Ok(x) => x,
            Err(h) => {
                assert({
                    &&& A::sym_yields(m0, Ok(x0), m1)
                    &&& B::sym_yields(m1, Err(h), path@)
                });
                return Err(h);
            },
        };
        let ghost m2 = path@;
        let x2 = match C::symbolic(path) {
            Ok(x) => x,
            Err(h) => {
                assert({
                    &&& A::sym_yields(m0, Ok(x0), m1)
                    &&& B::sym_yields(m1, Ok(x1), m2)
                    &&& C::sym_yields(m2, Err(h), path@)
                });
                return Err(h);
            },
        };
        let ghost m3 = path@;
        let x3 = match D::symbolic(path) {
            Ok(x) => x,
            Err(h) => {
                assert({
                    &&& A::sym_yields(m0, Ok(x0), m1)
                    &&& B::sym_yields(m1, Ok(x1), m2)
                    &&& C::sym_yields(m2, Ok(x2), m3)
                    &&& D::sym_yields(m3, Err(h), path@)
                });
                return Err(h);
            },
        };
        let ghost m4 = path@;
        let x4 = match E::symbolic(path) {
            Ok(x) => x,
            Err(h) => {
                assert({
                    &&& A::sym_yields(m0, Ok(x0), m1)
                    &&& B::sym_yields(m1, Ok(x1), m2)
                    &&& C::sym_yields(m2, Ok(x2), m3)
                    &&& D::sym_yields(m3, Ok(x3), m4)
                    &&& E::sym_yields(m4, Err(h), path@)
                });
                return Err(h);
            },
        };
        let ghost m5 = path@;
        let x5 = match F::symbolic(path) {
            Ok(x) => x,
            Err(h) => {
                assert({
                    &&& A::sym_yields(m0, Ok(x0), m1)
                    &&& B::sym_yields(m1, Ok(x1), m2)
                    &&& C::sym_yields(m2, Ok(x2), m3)
                    &&& D::sym_yields(m3, Ok(x3), m4)
                    &&& E::sym_yields(m4, Ok(x4), m5)
                    &&& F::sym_yields(m5, Err(h), path@)
                });
                return Err(h);
            },
        };
        let ghost m6 = path@;
        let x6 = match G::symbolic(path) {
            Ok(x) => x,
            Err(h) => {
                assert({
                    &&& A::sym_yields(m0, Ok(x0), m1)
                    &&& B::sym_yields(m1, Ok(x1), m2)
                    &&& C::sym_yields(m2, Ok(x2), m3)
                    &&& D::sym_yields(m3, Ok(x3), m4)
                    &&& E::sym_yields(m4, Ok(x4), m5)
                    &&& F::sym_yields(m5, Ok(x5), m6)
                    &&& G::sym_yields(m6, Err(h), path@)
                });
                return Err(h);
            },
        };
        let ghost m7 = path@;
        let x7 = match H::symbolic(path) {
            Ok(x) => x,
            Err(h) => {
                assert({
                    &&& A::sym_yields(m0, Ok(x0), m1)
                    &&& B::sym_yields(m1, Ok(x1), m2)
                    &&& C::sym_yields(m2, Ok(x2), m3)
                    &&& D::sym_yields(m3, Ok(x3), m4)
                    &&& E::sym_yields(m4, Ok(x4), m5)
                    &&& F::sym_yields(m5, Ok(x5), m6)
                    &&& G::sym_yields(m6, Ok(x6), m7)
                    &&& H::sym_yields(m7, Err(h), path@)
                });
                return Err(h);
            },
        };
        let ghost m8 = path@;
        let x8 = match I::symbolic(path) {
            Ok(x) => x,
            Err(h) => {
                assert({
                    &&& A::sym_yields(m0, Ok(x0), m1)
                    &&& B::sym_yields(m1, Ok(x1), m2)
                    &&& C::sym_yields(m2, Ok(x2), m3)
                    &&& D::sym_yields(m3, Ok(x3), m4)
                    &&& E::sym_yields(m4, Ok(x4), m5)
                    &&& F::sym_yields(m5, Ok(x5), m6)
                    &&& G::sym_yields(m6, Ok(x6), m7)
                    &&& H::sym_yields(m7, Ok(x7), m8)
                    &&& I::sym_yields(m8, Err(h), path@)
                });
                return Err(h);
            },
        };
        let ghost m9 = path@;
        let x9 = match J::symbolic(path) {
            Ok(x) => x,
            Err(h) => {
                assert({
                    &&& A::sym_yields(m0, Ok(x0), m1)
                    &&& B::sym_yields(m1, Ok(x1), m2)
                    &&& C::sym_yields(m2, Ok(x2), m3)
                    &&& D::sym_yields(m3, Ok(x3), m4)
                    &&& E::sym_yields(m4, Ok(x4), m5)
                    &&& F::sym_yields(m5, Ok(x5), m6)
                    &&& G::sym_yields(m6, Ok(x6), m7)
                    &&& H::sym_yields(m7, Ok(x7), m8)
                    &&& I::sym_yields(m8, Ok(x8), m9)
                    &&& J::sym_yields(m9, Err(h), path@)
                });
                return Err(h);
            },
        };
        let ghost m10 = path@;
        let x10 = match K::symbolic(path) {
            Ok(x) => x,
            Err(h) => {
                assert({
                    &&& A::sym_yields(m0, Ok(x0), m1)
                    &&& B::sym_yields(m1, Ok(x1), m2)
                    &&& C::sym_yields(m2, Ok(x2), m3)
                    &&& D::sym_yields(m3, Ok(x3), m4)
                    &&& E::sym_yields(m4, Ok(x4), m5)
                    &&& F::sym_yields(m5, Ok(x5), m6)
                    &&& G::sym_yields(m6, Ok(x6), m7)
                    &&& H::sym_yields(m7, Ok(x7), m8)
                    &&& I::sym_yields(m8, Ok(x8), m9)
                    &&& J::sym_yields(m9, Ok(x9), m10)
                    &&& K::sym_yields(m10, Err(h), path@)
                });
                return Err(h);
            },
        };
        let ghost m11 = path@;
        let x11 = match L::symbolic(path) {
            Ok(x) => x,
            Err(h) => {
                assert({
                    &&& A::sym_yields(m0, Ok(x0), m1)
                    &&& B::sym_yields(m1, Ok(x1), m2)
                    &&& C::sym_yields(m2, Ok(x2), m3)
                    &&& D::sym_yields(m3, Ok(x3), m4)
                    &&& E::sym_yields(m4, Ok(x4), m5)
                    &&& F::sym_yields(m5, Ok(x5), m6)
                    &&& G::sym_yields(m6, Ok(x6), m7)
                    &&& H::sym_yields(m7, Ok(x7), m8)
                    &&& I::sym_yields(m8, Ok(x8), m9)
                    &&& J::sym_yields(m9, Ok(x9), m10)
                    &&& K::sym_yields(m10, Ok(x10), m11)
                    &&& L::sym_yields(m11, Err(h), path@)
                });
                return Err(h);
            },
        };
        let ghost m12 = path@;
        assert({
            &&& A::sym_yields(m0, Ok(x0), m1)
            &&& B::sym_yields(m1, Ok(x1), m2)
            &&& C::sym_yields(m2, Ok(x2), m3)
            &&& D::sym_yields(m3, Ok(x3), m4)
            &&& E::sym_yields(m4, Ok(x4), m5)
            &&& F::sym_yields(m5, Ok(x5), m6)
            &&& G::sym_yields(m6, Ok(x6), m7)
            &&& H::sym_yields(m7, Ok(x7), m8)
            &&& I::sym_yields(m8, Ok(x8), m9)
            &&& J::sym_yields(m9, Ok(x9), m10)
            &&& K::sym_yields(m10, Ok(x10), m11)
            &&& L::sym_yields(m11, Ok(x11), m12)
        });
        Ok((x0, x1, x2, x3, x4, x5, x6, x7, x8, x9, x10, x11))
    }
}

impl<A: Symbolic, const N: usize> Symbolic for [A; N] {
    /// `N` values are drawn in order.
    open spec fn sym_yields(input: Seq<u128>, out: Result<[A; N], Halt>, rest: Seq<u128>) -> bool {
        let any = Any::<A> { marker: core::marker::PhantomData };
        match out {
            Ok(a) => draws(any, input, a@, rest),
            Err(h) => halts_within(any, N as nat, input, h, rest),
        }
    }

    fn symbolic(path: &mut Path) -> (r: Result<[A; N], Halt>) {
        let any = Any::<A>::new();
        let v = draw_seq(&any, N, path)?;
        match vec_into_array(v) {
            Some(a) => Ok(a),
            None => {
                // `draw_seq` gave exactly `N` values, so the conversion succeeds.
                proof {
                    assert(false);
                }
                Err(Halt::Rejected)
            },
        }
    }
}

impl<A: Symbolic> Symbolic for VecDeque<A> {
    /// Drawn as a `Vec<A>`, in the same order.
    open spec fn sym_yields(input: Seq<u128>, out: Result<VecDeque<A>, Halt>, rest: Seq<u128>) -> bool {
        match out {
            Ok(d) => exists|v: Vec<A>| #[trigger] Vec::<A>::sym_yields(input, Ok(v), rest) && d@ == v@,
            Err(h) => Vec::<A>::sym_yields(input, Err(h), rest),
        }
    }

    fn symbolic(path: &mut Path) -> (r: Result<VecDeque<A>, Halt>) {
        let ghost input = path@;
        let mut v = Vec::<A>::symbolic(path)?;
        let ghost drawn = v;
        let mut d: VecDeque<A> = VecDeque::new();
        // Take the items from the back and put each at the front.
        while v.len() > 0
            invariant
                v@ + d@ == drawn@,
            decreases v.len(),
        {
            let x = v.pop().unwrap();
            d.push_front(x);
            assert(v@ + d@ =~= drawn@);
        }
        assert(d@ =~= drawn@);
        assert(Vec::<A>::sym_yields(input, Ok(drawn), path@));
        Ok(d)
    }
}

impl<A: Symbolic + Scalar> Symbolic for BTreeSet<A> {
    /// Drawn as a `Vec<A>` whose items are all inserted.
    open spec fn sym_yields(input: Seq<u128>, out: Result<BTreeSet<A>, Halt>, rest: Seq<u128>) -> bool {
        match out {
            Ok(set) => exists|v: Vec<A>|
                #[trigger] Vec::<A>::sym_yields(input, Ok(v), rest) && set@ == v@.to_set(),
            Err(h) => Vec::<A>::sym_yields(input, Err(h), rest),
        }
    }

    fn symbolic(path: &mut Path) -> (r: Result<BTreeSet<A>, Halt>) {
        let ghost input = path@;
        let v = Vec::<A>::symbolic(path)?;
        proof {
            A::lemma_obeys_cmp();
        }
        let mut set: BTreeSet<A> = BTreeSet::new();
        let mut i: usize = 0;
        while i < v.len()
            invariant
                i <= v@.len(),
                vstd::laws_cmp::obeys_cmp::<A>(),
                set@ == v@.take(i as int).to_set(),
            decreases v@.len() - i,
        {
            set.insert(v[i]);
            assert(v@.take(i + 1) =~= v@.take(i as int).push(v@[i as int]));
            proof {
                v@.take(i as int).lemma_push_to_set_commute(v@[i as int]);
            }
            i = i + 1;
        }
        assert(v@.take(v@.len() as int) =~= v@);
        assert(Vec::<A>::sym_yields(input, Ok(v), path@));
        Ok(set)
    }
}

impl<S: Scalar + Symbolic> Symbolic for core::ops::RangeInclusive<S> {
    /// Two bounds are drawn and put in order.
    open spec fn sym_yields(input: Seq<u128>, out: Result<core::ops::RangeInclusive<S>, Halt>, rest: Seq<u128>) -> bool {
        let a = S::spec_from_bits(head(input));
        let b = S::spec_from_bits(head(tail(input)));
        &&& rest == tail(tail(input))
        &&& out is Ok
        &&& !out->Ok_0@.exhausted
        &&& if a.to_int() <= b.to_int() {
            out->Ok_0@.start == a && out->Ok_0@.end == b
        } else {
            out->Ok_0@.start == b && out->Ok_0@.end == a
        }
    }

    fn symbolic(path: &mut Path) -> (r: Result<core::ops::RangeInclusive<S>, Halt>) {
        let a: S = verifier_abstract_value(path);
        let b: S = verifier_abstract_value(path);
        Ok(bounded_range((a, b), closed_range::<S>))
    }
}

/// The keys of `pairs`, in order.
pub open spec fn keys_of<K, V>(pairs: Seq<(K, V)>) -> Seq<K> {
    pairs.map_values(|p: (K, V)| p.0)
}

/// The values of `pairs`, in order.
pub open spec fn values_of<K, V>(pairs: Seq<(K, V)>) -> Seq<V> {
    pairs.map_values(|p: (K, V)| p.1)
}

impl<K: Symbolic + Scalar, V: Symbolic> Symbolic for BTreeMap<K, V> {
    /// A count is drawn as a `usize`, then that many key-value pairs, each
    /// inserted in turn: of equal keys the later pair stays.
    open spec fn sym_yields(input: Seq<u128>, out: Result<BTreeMap<K, V>, Halt>, rest: Seq<u128>) -> bool {
        let n = usize::spec_from_bits(head(input));
        let any = Any::<(K, V)> { marker: core::marker::PhantomData };
        match out {
            Ok(m) => exists|pairs: Seq<(K, V)>|
                {
                    &&& pairs.len() == n
                    &&& #[trigger] draws(any, tail(input), pairs, rest)
                    &&& m@ == entries(keys_of(pairs), values_of(pairs), n as int)
                },
            Err(h) => halts_within(any, n as nat, tail(input), h, rest),
        }
    }

    fn symbolic(path: &mut Path) -> (r: Result<BTreeMap<K, V>, Halt>) {
        let ghost input = path@;
        let ghost any = Any::<(K, V)> { marker: core::marker::PhantomData };
        proof {
            K::lemma_obeys_cmp();
        }
        let mut it: SymbolicIter<(K, V)> = symbolic_iter(path)?;
        let ghost n = it.size;
        let ghost start = path@;
        let ghost mut pairs: Seq<(K, V)> = Seq::empty();
        let mut m: BTreeMap<K, V> = BTreeMap::new();
        assert(draws(any, start, pairs, path@));
        assert(m@ =~= entries(keys_of(pairs), values_of(pairs), 0));
        while it.size > 0
            invariant
                path.wf(),
                path.is_replay() == old(path).is_replay(),
                input == old(path)@,
                start == tail(input),
                n == usize::spec_from_bits(head(input)),
                vstd::laws_cmp::obeys_cmp::<K>(),
                pairs.len() + it.size == n,
                draws(any, start, pairs, path@),
                m@ == entries(keys_of(pairs), values_of(pairs), pairs.len() as int),
            decreases it.size,
        {
            let ghost mid = path@;
            match it.next(path) {
                Some(Ok((k, v))) => {
                    assert(any.yields(mid, Ok((k, v)), path@));
                    proof {
                        lemma_draws_push(any, start, pairs, mid, (k, v), path@);
                        let next = pairs.push((k, v));
                        assert(keys_of(next) =~= keys_of(pairs).push(k));
                        assert(values_of(next) =~= values_of(pairs).push(v));
                        lemma_entries_prefix(
                            keys_of(pairs),
                            values_of(pairs),
                            keys_of(next),
                            values_of(next),
                            pairs.len() as int,
                        );
                    }
                    m.insert(k, v);
                    proof {
                        pairs = pairs.push((k, v));
                    }
                },
                Some(Err(h)) => {
                    assert(pairs.len() < n && draws(any, start, pairs, mid) && any.yields(mid, Err(h), path@));
                    assert(halts_within(any, n as nat, start, h, path@));
                    return Err(h);
                },
                None => {},
            }
        }
        Ok(m)
    }
}

/// What `Duration::new` makes of a number of seconds and of nanoseconds.
pub uninterp spec fn duration_of(secs: u64, nanos: u32) -> core::time::Duration;

/// Relies on `Duration::new`: with fewer nanoseconds than make a second
/// nothing carries into the seconds, so it cannot overflow, and the duration
/// depends on the two numbers alone.
#[verifier::external_body]
fn duration_new(secs: u64, nanos: u32) -> (d: core::time::Duration)
    requires
        nanos < 1_000_000_000,
    ensures
        d == duration_of(secs, nanos),
{
    core::time::Duration::new(secs, nanos)
}

impl Symbolic for core::time::Duration {
    /// Seconds are drawn as a `u64` and nanoseconds as a `u32`, the latter
    /// taken modulo a second's worth.
    open spec fn sym_yields(input: Seq<u128>, out: Result<core::time::Duration, Halt>, rest: Seq<u128>) -> bool {
        let secs = u64::spec_from_bits(head(input));
        let nanos = u32::spec_from_bits(head(tail(input)));
        &&& rest == tail(tail(input))
        &&& out == Ok::<core::time::Duration, Halt>(duration_of(secs, (nanos % 1_000_000_000) as u32))
    }

    fn symbolic(path: &mut Path) -> (r: Result<core::time::Duration, Halt>) {
        let secs: u64 = verifier_abstract_value(path);
        let nanos: u32 = verifier_abstract_value(path);
        Ok(duration_new(secs, nanos % 1_000_000_000))
    }
}

} // verus!
