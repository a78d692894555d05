//! Small checked programs: each draws values, states assumptions and checks
//! a property. Each is proved never to end in a failure on any path.
use crate::annotations::{
    verifier_assume, verifier_reject, verifier_report_error, verifier_verify, Failure, Halt, Outcome,
    Path,
};
use crate::collection::binary_heap;
use crate::laws::{
    binary_heap_max_is_last, can_yield, range_yields_exactly, vec_has_size_and_domain,
};
use crate::scalar::Scalar;
use crate::strategy::Strategy;
use crate::symbolic::Symbolic;
use vstd::prelude::*;

verus! {

/// The outcome of a path whose checks came back `r`.
pub fn checked(r: Result<(), Failure>) -> (o: Outcome)
    ensures
        r is Ok ==> o == Outcome::Passed,
        r is Err ==> o == Outcome::Failed(r->Err_0),
{
    match r {
        Ok(()) => Outcome::Passed,
        Err(f) => Outcome::Failed(f),
    }
}

/// Adding one commutes for every `u32` below the largest.
pub fn test1(path: &mut Path) -> (r: Outcome)
    requires
        old(path).wf(),
    ensures
        final(path).wf(),
        !(r is Failed),
{
    let a = match u32::symbolic(path) {
        Ok(a) => a,
        Err(h) => return Outcome::Halted(h),
    };
    if let Err(h) = verifier_assume(a < u32::MAX) {
        return Outcome::Halted(h);
    }
    checked(verifier_verify(a + 1 == 1 + a))
}

/// Addition commutes on `u32` values of at most half the largest.
pub fn test2(path: &mut Path) -> (r: Outcome)
    requires
        old(path).wf(),
    ensures
        final(path).wf(),
        !(r is Failed),
{
    let a = match u32::symbolic(path) {
        Ok(a) => a,
        Err(h) => return Outcome::Halted(h),
    };
    let b = match u32::symbolic(path) {
        Ok(b) => b,
        Err(h) => return Outcome::Halted(h),
    };
    if let Err(h) = verifier_assume(a <= u32::MAX / 2) {
        return Outcome::Halted(h);
    }
    if let Err(h) = verifier_assume(b <= u32::MAX / 2) {
        return Outcome::Halted(h);
    }
    checked(verifier_verify(a + b == b + a))
}

/// Addition commutes on `i32` values within half the range on either side.
pub fn test3(path: &mut Path) -> (r: Outcome)
    requires
        old(path).wf(),
    ensures
        final(path).wf(),
        !(r is Failed),
{
    let a = match i32::symbolic(path) {
        Ok(a) => a,
        Err(h) => return Outcome::Halted(h),
    };
    let b = match i32::symbolic(path) {
        Ok(b) => b,
        Err(h) => return Outcome::Halted(h),
    };
    if let Err(h) = verifier_assume(i32::MIN / 2 <= a) {
        return Outcome::Halted(h);
    }
    if let Err(h) = verifier_assume(a <= i32::MAX / 2) {
        return Outcome::Halted(h);
    }
    if let Err(h) = verifier_assume(i32::MIN / 2 <= b) {
        return Outcome::Halted(h);
    }
    if let Err(h) = verifier_assume(b <= i32::MAX / 2) {
        return Outcome::Halted(h);
    }
    checked(verifier_verify(a + b == b + a))
}

/// Any two `u32` values are ordered one way or the other.
pub fn test4(path: &mut Path) -> (r: Outcome)
    requires
        old(path).wf(),
    ensures
        final(path).wf(),
        r == Outcome::Passed,
{
    let (a, b): (u32, u32) = match <(u32, u32)>::symbolic(path) {
        Ok(p) => p,
        Err(h) => return Outcome::Halted(h),
    };
    checked(verifier_verify(a <= b || b <= a))
}

/// A check over a vector of symbolic length, abandoned before it starts:
/// the exploration it would need does not end in reasonable time.
pub fn test5(path: &mut Path) -> (r: Outcome)
    requires
        old(path).wf(),
    ensures
        final(path)@ == old(path)@,
        r == Outcome::Halted(Halt::Rejected),
{
    Outcome::Halted(verifier_reject())
}

/// A value of `0..10` stays below ten, and adding one to it commutes.
pub fn test_int1(path: &mut Path) -> (r: Outcome)
    requires
        old(path).wf(),
    ensures
        final(path).wf(),
        !(r is Failed),
{
    let a = match (0u32..10u32).value(path) {
        Ok(a) => a,
        Err(h) => return Outcome::Halted(h),
    };
    if let Err(f) = verifier_verify(a + 1 == 1 + a) {
        return Outcome::Failed(f);
    }
    if let Err(f) = verifier_verify(a < 10) {
        return Outcome::Failed(f);
    }
    checked(verifier_verify(0 <= a))
}

/// `a <= b` and `b >= a` agree on a pair drawn from two unbounded ranges.
pub fn test_tuple1(path: &mut Path) -> (r: Outcome)
    requires
        old(path).wf(),
    ensures
        final(path).wf(),
        !(r is Failed),
{
    let s = (0u32.., 0u32..);
    let (a, b) = match s.value(path) {
        Ok(p) => p,
        Err(h) => return Outcome::Halted(h),
    };
    checked(verifier_verify((a <= b) == (b >= a)))
}

/// Addition commutes on a pair drawn from `MIN / 2 .. MAX / 2`.
pub fn test_range1(path: &mut Path) -> (r: Outcome)
    requires
        old(path).wf(),
    ensures
        final(path).wf(),
        !(r is Failed),
{
    let s = (i32::MIN / 2..i32::MAX / 2, i32::MIN / 2..i32::MAX / 2);
    let (a, b) = match s.value(path) {
        Ok(p) => p,
        Err(h) => return Outcome::Halted(h),
    };
    checked(verifier_verify(a + b == b + a))
}

/// A pair drawn from `MIN / 2 .. MAX / 2` is ordered one way or the other.
pub fn test_range2(path: &mut Path) -> (r: Outcome)
    requires
        old(path).wf(),
    ensures
        final(path).wf(),
        !(r is Failed),
{
    let s = (i32::MIN / 2..i32::MAX / 2, i32::MIN / 2..i32::MAX / 2);
    let (a, b) = match s.value(path) {
        Ok(p) => p,
        Err(h) => return Outcome::Halted(h),
    };
    checked(verifier_verify(a <= b || b <= a))
}

/// Five values of `0..10` make a vector of length five, each below ten.
pub fn vec_in_range(path: &mut Path) -> (r: Outcome)
    requires
        old(path).wf(),
    ensures
        final(path).wf(),
        !(r is Failed),
{
    let s = crate::collection::vec(0u32..10u32, 5);
    let ghost input = path@;
    let v = match s.value(path) {
        Ok(v) => v,
        Err(h) => return Outcome::Halted(h),
    };
    proof {
        vec_has_size_and_domain(s, input, v, path@);
    }
    if let Err(f) = verifier_verify(v.len() == 5) {
        return Outcome::Failed(f);
    }
    let mut i: usize = 0;
    while i < v.len()
        invariant
            path.wf(),
            s.element == (0u32..10u32),
            forall|j: int| 0 <= j < v@.len() ==> can_yield(s.element, #[trigger] v@[j]),
        decreases v.len() - i,
    {
        proof {
            range_yields_exactly(0u32, 10u32, v@[i as int]);
        }
        if let Err(f) = verifier_verify(v[i] < 10) {
            return Outcome::Failed(f);
        }
        i = i + 1;
    }
    Outcome::Passed
}

/// A priority queue of five values of `0..100`: every item is below a hundred,
/// and the first one popped is no smaller than any left.
pub fn binary_heap_pops_largest(path: &mut Path) -> (r: Outcome)
    requires
        old(path).wf(),
    ensures
        final(path).wf(),
        !(r is Failed),
{
    let s = binary_heap(0u32..100u32, 5);
    let ghost input = path@;
    let mut q = match s.value(path) {
        Ok(q) => q,
        Err(h) => return Outcome::Halted(h),
    };
    proof {
        binary_heap_max_is_last(s, input, q, path@);
    }
    if let Err(f) = verifier_verify(q.len() == 5) {
        return Outcome::Failed(f);
    }
    let items = q.to_vec();
    let mut i: usize = 0;
    while i < items.len()
        invariant
            path.wf(),
            s.element == (0u32..100u32),
            q.wf(),
            q@.len() == 5,
            forall|j: int| 0 <= j < q@.len() ==> #[trigger] q@[j].to_int() <= q@.last().to_int(),
            forall|j: int| 0 <= j < items@.len() ==> can_yield(s.element, #[trigger] items@[j]),
        decreases items.len() - i,
    {
        proof {
            range_yields_exactly(0u32, 100u32, items@[i as int]);
        }
        if let Err(f) = verifier_verify(items[i] < 100) {
            return Outcome::Failed(f);
        }
        i = i + 1;
    }
    let ghost before = q@;
    let x0 = match q.pop() {
        Some(x) => x,
        None => return Outcome::Failed(verifier_report_error("empty queue")),
    };
    let rest = q.to_vec();
    let mut k: usize = 0;
    while k < rest.len()
        invariant
            path.wf(),
            rest@ == before.drop_last(),
            before.len() == 5,
            forall|j: int| 0 <= j < before.len() ==> #[trigger] before[j].to_int() <= x0.to_int(),
        decreases rest.len() - k,
    {
        assert(rest@[k as int] == before[k as int]);
        assert(before[k as int].to_int() <= x0.to_int());
        if let Err(f) = verifier_verify(rest[k] <= x0) {
            return Outcome::Failed(f);
        }
        k = k + 1;
    }
    Outcome::Passed
}

} // verus!
