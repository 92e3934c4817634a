//! The unsigned integer types a register can be stored in.

use vstd::prelude::*;

verus! {

/// An unsigned integer type that can hold a register's bits.
///
/// The five unsigned widths a register may have implement this trait. All
/// contracts of this crate speak of values through [`Int::vw`], the value
/// widened to 128 bits, so that the algebra is stated once for every width.
pub trait Int: Copy + Sized {
    /// The value, widened to 128 bits.
    spec fn vw(self) -> u128;

    /// The all-ones pattern of this width.
    spec fn ones() -> u128;

    /// The bit width.
    spec fn width_spec() -> nat;

    /// Every value of the type fits in its width.
    proof fn lemma_in_width(self)
        ensures
            self.vw() & Self::ones() == self.vw(),
    ;

    /// The width is positive and at most 128 bits.
    proof fn lemma_width()
        ensures
            0 < Self::width_spec() <= 128,
    ;

    /// The bit width, in bits.
    fn width() -> (r: usize)
        ensures
            r == Self::width_spec(),
    ;

    /// The zero value.
    fn zero() -> (r: Self)
        ensures
            r.vw() == 0,
    ;

    /// Bitwise conjunction.
    fn and(self, other: Self) -> (r: Self)
        ensures
            r.vw() == self.vw() & other.vw(),
    ;

    /// Bitwise disjunction.
    fn or(self, other: Self) -> (r: Self)
        ensures
            r.vw() == self.vw() | other.vw(),
    ;

    /// Bitwise exclusive disjunction.
    fn xor(self, other: Self) -> (r: Self)
        ensures
            r.vw() == self.vw() ^ other.vw(),
    ;

    /// Bitwise complement, within the width.
    fn not(self) -> (r: Self)
        ensures
            r.vw() == !self.vw() & Self::ones(),
    ;

    /// Right shift.
    fn shr(self, n: usize) -> (r: Self)
        requires
            n < Self::width_spec(),
        ensures
            r.vw() == self.vw() >> n,
    ;

    /// Left shift; bits pushed beyond the width are lost.
    fn shl(self, n: usize) -> (r: Self)
        requires
            n < Self::width_spec(),
        ensures
            r.vw() == (self.vw() << n) & Self::ones(),
    ;

    /// Equality of the bit patterns.
    fn eq_bits(self, other: Self) -> (r: bool)
        ensures
            r == (self.vw() == other.vw()),
    ;

    /// The value with the given low 128 bits, truncated to the width.
    fn from_bits(v: u128) -> (r: Self)
        ensures
            r.vw() == v & Self::ones(),
    ;

    /// The value, widened to 128 bits.
    fn to_bits(self) -> (r: u128)
        ensures
            r == self.vw(),
    ;
}

impl Int for u8 {
    open spec fn vw(self) -> u128 {
        self as u128
    }

    open spec fn ones() -> u128 {
        0xff
    }

    open spec fn width_spec() -> nat {
        8
    }

    proof fn lemma_in_width(self) {
        assert((self as u128) & 0xff == self as u128) by (bit_vector);
    }

    proof fn lemma_width() {
    }

    fn width() -> usize {
        8
    }

    fn zero() -> u8 {
        0
    }

    fn and(self, other: u8) -> u8 {
        self & other
    }

    fn or(self, other: u8) -> u8 {
        self | other
    }

    fn xor(self, other: u8) -> u8 {
        self ^ other
    }

    fn not(self) -> (r: u8) {
        proof {
            assert((!self) as u128 == !(self as u128) & 0xff) by (bit_vector);
        }
        !self
    }

    fn shr(self, n: usize) -> (r: u8) {
        self >> n
    }

    fn shl(self, n: usize) -> (r: u8) {
        proof {
            assert(n < 8 ==> (self << n) as u128 == ((self as u128) << n) & 0xff)
                by (bit_vector);
        }
        self << n
    }

    fn eq_bits(self, other: u8) -> bool {
        self == other
    }

    fn from_bits(v: u128) -> (r: u8) {
        proof {
            assert((v as u8) as u128 == v & 0xff) by (bit_vector);
        }
        #[verifier::truncate]
        (v as u8)
    }

    fn to_bits(self) -> u128 {
        self as u128
    }
}

impl Int for u16 {
    open spec fn vw(self) -> u128 {
        self as u128
    }

    open spec fn ones() -> u128 {
        0xffff
    }

    open spec fn width_spec() -> nat {
        16
    }

    proof fn lemma_in_width(self) {
        assert((self as u128) & 0xffff == self as u128) by (bit_vector);
    }

    proof fn lemma_width() {
    }

    fn width() -> usize {
        16
    }

    fn zero() -> u16 {
        0
    }

    fn and(self, other: u16) -> u16 {
        self & other
    }

    fn or(self, other: u16) -> u16 {
        self | other
    }

    fn xor(self, other: u16) -> u16 {
        self ^ other
    }

    fn not(self) -> (r: u16) {
        proof {
            assert((!self) as u128 == !(self as u128) & 0xffff) by (bit_vector);
        }
        !self
    }

    fn shr(self, n: usize) -> (r: u16) {
        self >> n
    }

    fn shl(self, n: usize) -> (r: u16) {
        proof {
            assert(n < 16 ==> (self << n) as u128 == ((self as u128) << n) & 0xffff)
                by (bit_vector);
        }
        self << n
    }

    fn eq_bits(self, other: u16) -> bool {
        self == other
    }

    fn from_bits(v: u128) -> (r: u16) {
        proof {
            assert((v as u16) as u128 == v & 0xffff) by (bit_vector);
        }
        #[verifier::truncate]
        (v as u16)
    }

    fn to_bits(self) -> u128 {
        self as u128
    }
}

impl Int for u32 {
    open spec fn vw(self) -> u128 {
        self as u128
    }

    open spec fn ones() -> u128 {
        0xffff_ffff
    }

    open spec fn width_spec() -> nat {
        32
    }

    proof fn lemma_in_width(self) {
        assert((self as u128) & 0xffff_ffff == self as u128) by (bit_vector);
    }

    proof fn lemma_width() {
    }

    fn width() -> usize {
        32
    }

    fn zero() -> u32 {
        0
    }

    fn and(self, other: u32) -> u32 {
        self & other
    }

    fn or(self, other: u32) -> u32 {
        self | other
    }

    fn xor(self, other: u32) -> u32 {
        self ^ other
    }

    fn not(self) -> (r: u32) {
        proof {
            assert((!self) as u128 == !(self as u128) & 0xffff_ffff) by (bit_vector);
        }
        !self
    }

    fn shr(self, n: usize) -> (r: u32) {
        self >> n
    }

    fn shl(self, n: usize) -> (r: u32) {
        proof {
            assert(n < 32 ==> (self << n) as u128 == ((self as u128) << n) & 0xffff_ffff)
                by (bit_vector);
        }
        self << n
    }

    fn eq_bits(self, other: u32) -> bool {
        self == other
    }

    fn from_bits(v: u128) -> (r: u32) {
        proof {
            assert((v as u32) as u128 == v & 0xffff_ffff) by (bit_vector);
        }
        #[verifier::truncate]
        (v as u32)
    }

    fn to_bits(self) -> u128 {
        self as u128
    }
}

impl Int for u64 {
    open spec fn vw(self) -> u128 {
        self as u128
    }

    open spec fn ones() -> u128 {
        0xffff_ffff_ffff_ffff
    }

    open spec fn width_spec() -> nat {
        64
    }

    proof fn lemma_in_width(self) {
        assert((self as u128) & 0xffff_ffff_ffff_ffff == self as u128) by (bit_vector);
    }

    proof fn lemma_width() {
    }

    fn width() -> usize {
        64
    }

    fn zero() -> u64 {
        0
    }

    fn and(self, other: u64) -> u64 {
        self & other
    }

    fn or(self, other: u64) -> u64 {
        self | other
    }

    fn xor(self, other: u64) -> u64 {
        self ^ other
    }

    fn not(self) -> (r: u64) {
        proof {
            assert((!self) as u128 == !(self as u128) & 0xffff_ffff_ffff_ffff) by (bit_vector);
        }
        !self
    }

    fn shr(self, n: usize) -> (r: u64) {
        self >> n
    }

    fn shl(self, n: usize) -> (r: u64) {
        proof {
            assert(n < 64 ==> (self << n) as u128 == ((self as u128) << n) & 0xffff_ffff_ffff_ffff)
                by (bit_vector);
        }
        self << n
    }

    fn eq_bits(self, other: u64) -> bool {
        self == other
    }

    fn from_bits(v: u128) -> (r: u64) {
        proof {
            assert((v as u64) as u128 == v & 0xffff_ffff_ffff_ffff) by (bit_vector);
        }
        #[verifier::truncate]
        (v as u64)
    }

    fn to_bits(self) -> u128 {
        self as u128
    }
}

impl Int for u128 {
    open spec fn vw(self) -> u128 {
        self as u128
    }

    open spec fn ones() -> u128 {
        0xffff_ffff_ffff_ffff_ffff_ffff_ffff_ffff
    }

    open spec fn width_spec() -> nat {
        128
    }

    proof fn lemma_in_width(self) {
        assert((self as u128) & 0xffff_ffff_ffff_ffff_ffff_ffff_ffff_ffff == self as u128) by (bit_vector);
    }

    proof fn lemma_width() {
    }

    fn width() -> usize {
        128
    }

    fn zero() -> u128 {
        0
    }

    fn and(self, other: u128) -> u128 {
        self & other
    }

    fn or(self, other: u128) -> u128 {
        self | other
    }

    fn xor(self, other: u128) -> u128 {
        self ^ other
    }

    fn not(self) -> (r: u128) {
        proof {
            assert((!self) as u128 == !(self as u128) & 0xffff_ffff_ffff_ffff_ffff_ffff_ffff_ffff) by (bit_vector);
        }
        !self
    }

    fn shr(self, n: usize) -> (r: u128) {
        self >> n
    }

    fn shl(self, n: usize) -> (r: u128) {
        proof {
            assert(n < 128 ==> (self << n) as u128 == ((self as u128) << n) & 0xffff_ffff_ffff_ffff_ffff_ffff_ffff_ffff)
                by (bit_vector);
        }
        self << n
    }

    fn eq_bits(self, other: u128) -> bool {
        self == other
    }

    fn from_bits(v: u128) -> (r: u128) {
        proof {
            assert((v as u128) as u128 == v & 0xffff_ffff_ffff_ffff_ffff_ffff_ffff_ffff) by (bit_vector);
        }
        #[verifier::truncate]
        (v as u128)
    }

    fn to_bits(self) -> u128 {
        self as u128
    }
}

/// Bits within a mask that itself lies within a wider mask lie within the
/// wider mask too.
pub(crate) proof fn lemma_absorb(a: u128, m: u128, o: u128)
    by (bit_vector)
    requires
        a & m == a,
        m & o == m,
    ensures
        a & o == a,
{
}

/// Conjoining with a complement taken within the width is conjoining with the
/// plain complement, for a value that fits in the width.
pub(crate) proof fn lemma_mask_complement(v: u128, m: u128, o: u128)
    by (bit_vector)
    requires
        v & o == v,
    ensures
        v & (!m & o) == v & !m,
{
}

/// Masked bits lie within the mask.
pub(crate) proof fn lemma_within(v: u128, m: u128)
    by (bit_vector)
    ensures
        (v & m) & m == v & m,
{
}

} // verus!
