//! Fixed-width integers: every bit pattern of one is a legal value, so a
//! draw can be read as one directly.
use crate::annotations::{head, tail, Path};
use vstd::laws_cmp::obeys_cmp;
use vstd::prelude::*;

verus! {

/// An integer type whose values are read from the low bits of a draw.
pub trait Scalar: Copy + Ord + Sized {
    /// The number that the value stands for.
    spec fn to_int(self) -> int;

    /// The value read from the low bits of the word `w`.
    spec fn spec_from_bits(w: u128) -> Self;

    /// A word from which the value is read back.
    spec fn to_bits(self) -> u128;

    fn from_bits(w: u128) -> (r: Self)
        ensures
            r == Self::spec_from_bits(w),
    ;

    fn leq(self, other: Self) -> (r: bool)
        ensures
            r == (self.to_int() <= other.to_int()),
    ;

    fn less(self, other: Self) -> (r: bool)
        ensures
            r == (self.to_int() < other.to_int()),
    ;

    /// Every value of the type is read from some word.
    proof fn lemma_from_to_bits(v: Self)
        ensures
            Self::spec_from_bits(v.to_bits()) == v,
    ;

    /// Values that stand for the same number are the same value.
    proof fn lemma_to_int_injective(a: Self, b: Self)
        ensures
            a.to_int() == b.to_int() ==> a == b,
    ;

    /// `Ord` on the type is the order of the numbers.
    proof fn lemma_obeys_cmp()
        ensures
            obeys_cmp::<Self>(),
    ;
}

impl Scalar for u8 {
    open spec fn to_int(self) -> int {
        self as int
    }

    open spec fn spec_from_bits(w: u128) -> u8 {
        w as u8
    }

    open spec fn to_bits(self) -> u128 {
        self as u128
    }

    fn from_bits(w: u128) -> (r: u8) {
        #[verifier::truncate]
        (w as u8)
    }

    fn leq(self, other: u8) -> (r: bool) {
        self <= other
    }

    fn less(self, other: u8) -> (r: bool) {
        self < other
    }

    proof fn lemma_from_to_bits(v: u8) {
        assert((v as u128) as u8 == v) by (bit_vector);
    }

    proof fn lemma_obeys_cmp() {
        broadcast use vstd::laws_cmp::group_laws_cmp;

    }

    proof fn lemma_to_int_injective(a: u8, b: u8) {
    }
}

impl Scalar for u16 {
    open spec fn to_int(self) -> int {
        self as int
    }

    open spec fn spec_from_bits(w: u128) -> u16 {
        w as u16
    }

    open spec fn to_bits(self) -> u128 {
        self as u128
    }

    fn from_bits(w: u128) -> (r: u16) {
        #[verifier::truncate]
        (w as u16)
    }

    fn leq(self, other: u16) -> (r: bool) {
        self <= other
    }

    fn less(self, other: u16) -> (r: bool) {
        self < other
    }

    proof fn lemma_from_to_bits(v: u16) {
        assert((v as u128) as u16 == v) by (bit_vector);
    }

    proof fn lemma_obeys_cmp() {
        broadcast use vstd::laws_cmp::group_laws_cmp;

    }

    proof fn lemma_to_int_injective(a: u16, b: u16) {
    }
}

impl Scalar for u32 {
    open spec fn to_int(self) -> int {
        self as int
    }

    open spec fn spec_from_bits(w: u128) -> u32 {
        w as u32
    }

    open spec fn to_bits(self) -> u128 {
        self as u128
    }

    fn from_bits(w: u128) -> (r: u32) {
        #[verifier::truncate]
        (w as u32)
    }

    fn leq(self, other: u32) -> (r: bool) {
        self <= other
    }

    fn less(self, other: u32) -> (r: bool) {
        self < other
    }

    proof fn lemma_from_to_bits(v: u32) {
        assert((v as u128) as u32 == v) by (bit_vector);
    }

    proof fn lemma_obeys_cmp() {
        broadcast use vstd::laws_cmp::group_laws_cmp;

    }

    proof fn lemma_to_int_injective(a: u32, b: u32) {
    }
}

impl Scalar for u64 {
    open spec fn to_int(self) -> int {
        self as int
    }

    open spec fn spec_from_bits(w: u128) -> u64 {
        w as u64
    }

    open spec fn to_bits(self) -> u128 {
        self as u128
    }

    fn from_bits(w: u128) -> (r: u64) {
        #[verifier::truncate]
        (w as u64)
    }

    fn leq(self, other: u64) -> (r: bool) {
        self <= other
    }

    fn less(self, other: u64) -> (r: bool) {
        self < other
    }

    proof fn lemma_from_to_bits(v: u64) {
        assert((v as u128) as u64 == v) by (bit_vector);
    }

    proof fn lemma_obeys_cmp() {
        broadcast use vstd::laws_cmp::group_laws_cmp;

    }

    proof fn lemma_to_int_injective(a: u64, b: u64) {
    }
}

impl Scalar for u128 {
    open spec fn to_int(self) -> int {
        self as int
    }

    open spec fn spec_from_bits(w: u128) -> u128 {
        w as u128
    }

    open spec fn to_bits(self) -> u128 {
        self as u128
    }

    fn from_bits(w: u128) -> (r: u128) {
        #[verifier::truncate]
        (w as u128)
    }

    fn leq(self, other: u128) -> (r: bool) {
        self <= other
    }

    fn less(self, other: u128) -> (r: bool) {
        self < other
    }

    proof fn lemma_from_to_bits(v: u128) {
        assert((v as u128) as u128 == v) by (bit_vector);
    }

    proof fn lemma_obeys_cmp() {
        broadcast use vstd::laws_cmp::group_laws_cmp;

    }

    proof fn lemma_to_int_injective(a: u128, b: u128) {
    }
}

impl Scalar for usize {
    open spec fn to_int(self) -> int {
        self as int
    }

    open spec fn spec_from_bits(w: u128) -> usize {
        w as usize
    }

    open spec fn to_bits(self) -> u128 {
        self as u128
    }

    fn from_bits(w: u128) -> (r: usize) {
        #[verifier::truncate]
        (w as usize)
    }

    fn leq(self, other: usize) -> (r: bool) {
        self <= other
    }

    fn less(self, other: usize) -> (r: bool) {
        self < other
    }

    proof fn lemma_from_to_bits(v: usize) {
        assert((v as u128) as usize == v) by (bit_vector);
    }

    proof fn lemma_obeys_cmp() {
        broadcast use vstd::laws_cmp::group_laws_cmp;

    }

    proof fn lemma_to_int_injective(a: usize, b: usize) {
    }
}

impl Scalar for i8 {
    open spec fn to_int(self) -> int {
        self as int
    }

    open spec fn spec_from_bits(w: u128) -> i8 {
        w as i8
    }

    open spec fn to_bits(self) -> u128 {
        self as u128
    }

    fn from_bits(w: u128) -> (r: i8) {
        #[verifier::truncate]
        (w as i8)
    }

    fn leq(self, other: i8) -> (r: bool) {
        self <= other
    }

    fn less(self, other: i8) -> (r: bool) {
        self < other
    }

    proof fn lemma_from_to_bits(v: i8) {
        assert((v as u128) as i8 == v) by (bit_vector);
    }

    proof fn lemma_obeys_cmp() {
        broadcast use vstd::laws_cmp::group_laws_cmp;

    }

    proof fn lemma_to_int_injective(a: i8, b: i8) {
    }
}

impl Scalar for i16 {
    open spec fn to_int(self) -> int {
        self as int
    }

    open spec fn spec_from_bits(w: u128) -> i16 {
        w as i16
    }

    open spec fn to_bits(self) -> u128 {
        self as u128
    }

    fn from_bits(w: u128) -> (r: i16) {
        #[verifier::truncate]
        (w as i16)
    }

    fn leq(self, other: i16) -> (r: bool) {
        self <= other
    }

    fn less(self, other: i16) -> (r: bool) {
        self < other
    }

    proof fn lemma_from_to_bits(v: i16) {
        assert((v as u128) as i16 == v) by (bit_vector);
    }

    proof fn lemma_obeys_cmp() {
        broadcast use vstd::laws_cmp::group_laws_cmp;

    }

    proof fn lemma_to_int_injective(a: i16, b: i16) {
    }
}

impl Scalar for i32 {
    open spec fn to_int(self) -> int {
        self as int
    }

    open spec fn spec_from_bits(w: u128) -> i32 {
        w as i32
    }

    open spec fn to_bits(self) -> u128 {
        self as u128
    }

    fn from_bits(w: u128) -> (r: i32) {
        #[verifier::truncate]
        (w as i32)
    }

    fn leq(self, other: i32) -> (r: bool) {
        self <= other
    }

    fn less(self, other: i32) -> (r: bool) {
        self < other
    }

    proof fn lemma_from_to_bits(v: i32) {
        assert((v as u128) as i32 == v) by (bit_vector);
    }

    proof fn lemma_obeys_cmp() {
        broadcast use vstd::laws_cmp::group_laws_cmp;

    }

    proof fn lemma_to_int_injective(a: i32, b: i32) {
    }
}

impl Scalar for i64 {
    open spec fn to_int(self) -> int {
        self as int
    }

    open spec fn spec_from_bits(w: u128) -> i64 {
        w as i64
    }

    open spec fn to_bits(self) -> u128 {
        self as u128
    }

    fn from_bits(w: u128) -> (r: i64) {
        #[verifier::truncate]
        (w as i64)
    }

    fn leq(self, other: i64) -> (r: bool) {
        self <= other
    }

    fn less(self, other: i64) -> (r: bool) {
        self < other
    }

    proof fn lemma_from_to_bits(v: i64) {
        assert((v as u128) as i64 == v) by (bit_vector);
    }

    proof fn lemma_obeys_cmp() {
        broadcast use vstd::laws_cmp::group_laws_cmp;

    }

    proof fn lemma_to_int_injective(a: i64, b: i64) {
    }
}

impl Scalar for i128 {
    open spec fn to_int(self) -> int {
        self as int
    }

    open spec fn spec_from_bits(w: u128) -> i128 {
        w as i128
    }

    open spec fn to_bits(self) -> u128 {
        self as u128
    }

    fn from_bits(w: u128) -> (r: i128) {
        #[verifier::truncate]
        (w as i128)
    }

    fn leq(self, other: i128) -> (r: bool) {
        self <= other
    }

    fn less(self, other: i128) -> (r: bool) {
        self < other
    }

    proof fn lemma_from_to_bits(v: i128) {
        assert((v as u128) as i128 == v) by (bit_vector);
    }

    proof fn lemma_obeys_cmp() {
        broadcast use vstd::laws_cmp::group_laws_cmp;

    }

    proof fn lemma_to_int_injective(a: i128, b: i128) {
    }
}

impl Scalar for isize {
    open spec fn to_int(self) -> int {
        self as int
    }

    open spec fn spec_from_bits(w: u128) -> isize {
        w as isize
    }

    open spec fn to_bits(self) -> u128 {
        self as u128
    }

    fn from_bits(w: u128) -> (r: isize) {
        #[verifier::truncate]
        (w as isize)
    }

    fn leq(self, other: isize) -> (r: bool) {
        self <= other
    }

    fn less(self, other: isize) -> (r: bool) {
        self < other
    }

    proof fn lemma_from_to_bits(v: isize) {
        assert((v as u128) as isize == v) by (bit_vector);
    }

    proof fn lemma_obeys_cmp() {
        broadcast use vstd::laws_cmp::group_laws_cmp;

    }

    proof fn lemma_to_int_injective(a: isize, b: isize) {
    }
}

} // verus!

verus! {

/// Draws a value of `T` whose bit pattern is entirely up to the engine.
pub fn verifier_abstract_value<T: Scalar>(path: &mut Path) -> (r: T)
    requires
        old(path).wf(),
    ensures
        final(path).wf(),
        final(path).is_replay() == old(path).is_replay(),
        r == T::spec_from_bits(head(old(path)@)),
        final(path)@ == tail(old(path)@),
{
    T::from_bits(path.draw())
}

/// The code points that stand for a `char`.
pub open spec fn is_scalar_value(c: u32) -> bool {
    c < 0xD800 || (0xE000 <= c && c <= 0x10FFFF)
}

/// Relies on `char::from_u32`: a `char` exactly for the Unicode scalar
/// values, and then the one with that code point.
#[verifier::external_body]
pub(crate) fn char_from_u32(c: u32) -> (r: Option<char>)
    ensures
        match r {
            Some(ch) => is_scalar_value(c) && ch as u32 == c,
            None => !is_scalar_value(c),
        },
{
    char::from_u32(c)
}

} // verus!
