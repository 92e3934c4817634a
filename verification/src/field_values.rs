//! A set of bit positions of one register together with the bits to put there.

use vstd::prelude::*;
use crate::descriptor::RegisterValue;
use crate::fields::Fields;
use crate::width::Int;

verus! {

/// Field values: a mask of bit positions and the exact bits to write there.
///
/// A `FieldValues` commits to concrete bits at the masked positions; bits
/// outside the mask are zero. It is built by pairing a
/// [`Field`](crate::Field) with a value, or by extracting masked bits from a
/// [`Value`](crate::Value), and it is what a partial register update is made
/// of. Like [`Fields`] it is tied to one register and carries the
/// toggle capability.
pub struct FieldValues<R: RegisterValue> {
    bits: <R as RegisterValue>::Int,
    mask: <R as RegisterValue>::Int,
    toggle: bool,
}

impl<R: RegisterValue> FieldValues<R> {
    /// The bits to write, all within the mask.
    pub closed spec fn bits_spec(self) -> u128 {
        self.bits.vw()
    }

    /// The set of bit positions the values live at.
    pub closed spec fn mask_spec(self) -> u128 {
        self.mask.vw()
    }

    /// Whether every field of the set may be safely inverted.
    pub closed spec fn can_toggle(self) -> bool {
        self.toggle
    }

    /// The bits lie within the mask.
    pub open spec fn wf(self) -> bool {
        self.bits_spec() & self.mask_spec() == self.bits_spec()
    }

    /// Build from raw bits and mask.
    ///
    /// The bits must lie within the mask. The caller is responsible for the
    /// mask holding only bits of fields of the register, and for claiming
    /// `toggle` only when every one of those fields is safely invertible.
    pub fn from_raw(
        bits: <R as RegisterValue>::Int,
        mask: <R as RegisterValue>::Int,
        toggle: bool,
    ) -> (r: FieldValues<R>)
        requires
            bits.vw() & mask.vw() == bits.vw(),
        ensures
            r.bits_spec() == bits.vw(),
            r.mask_spec() == mask.vw(),
            r.can_toggle() == toggle,
            r.wf(),
    {
        FieldValues { bits, mask, toggle }
    }

    /// The bits to write.
    pub fn bits(self) -> (r: <R as RegisterValue>::Int)
        ensures
            r.vw() == self.bits_spec(),
    {
        self.bits
    }

    /// The set of bit positions, as a mask.
    pub fn mask(self) -> (r: <R as RegisterValue>::Int)
        ensures
            r.vw() == self.mask_spec(),
    {
        self.mask
    }

    /// Whether every field of the set may be safely inverted.
    pub fn toggleable(self) -> (r: bool)
        ensures
            r == self.can_toggle(),
    {
        self.toggle
    }

    /// The positions of this set, without the values.
    pub fn fields(self) -> (r: Fields<R>)
        ensures
            r.mask_spec() == self.mask_spec(),
            r.can_toggle() == self.can_toggle(),
    {
        Fields::from_raw(self.mask, self.toggle)
    }

    /// The values in either set; where the masks overlap, `other`'s bits win.
    ///
    /// The union is toggle-capable only if both operands are.
    pub fn or(self, other: FieldValues<R>) -> (r: FieldValues<R>)
        requires
            self.wf(),
            other.wf(),
        ensures
            r.bits_spec() == (self.bits_spec() & !other.mask_spec()) | other.bits_spec(),
            r.mask_spec() == self.mask_spec() | other.mask_spec(),
            r.can_toggle() == (self.can_toggle() && other.can_toggle()),
            r.wf(),
    {
        proof {
            self.bits.lemma_in_width();
            lemma_merge_bits(
                self.bits.vw(),
                self.mask.vw(),
                other.bits.vw(),
                other.mask.vw(),
                <R as RegisterValue>::Int::ones(),
            );
        }
        FieldValues {
            bits: self.bits.and(other.mask.not()).or(other.bits),
            mask: self.mask.or(other.mask),
            toggle: self.toggle && other.toggle,
        }
    }

    /// The values of the fields in both sets.
    ///
    /// The intersection is toggle-capable if either operand is.
    pub fn and(self, other: Fields<R>) -> (r: FieldValues<R>)
        requires
            self.wf(),
        ensures
            r.bits_spec() == self.bits_spec() & other.mask_spec(),
            r.mask_spec() == self.mask_spec() & other.mask_spec(),
            r.can_toggle() == (self.can_toggle() || other.can_toggle()),
            r.wf(),
    {
        proof {
            lemma_restrict_bits(self.bits.vw(), self.mask.vw(), other.mask_spec());
        }
        FieldValues {
            bits: self.bits.and(other.mask()),
            mask: self.mask.and(other.mask()),
            toggle: self.toggle || other.toggleable(),
        }
    }

    /// The values with the fields in both sets inverted.
    ///
    /// This builds the delta a toggle actually applies, so the other operand
    /// must be toggle-capable.
    pub fn xor(self, other: Fields<R>) -> (r: FieldValues<R>)
        requires
            self.wf(),
            other.can_toggle(),
        ensures
            r.bits_spec() == self.bits_spec() ^ (self.mask_spec() & other.mask_spec()),
            r.mask_spec() == self.mask_spec(),
            r.can_toggle() == self.can_toggle(),
            r.wf(),
    {
        proof {
            lemma_flip_bits(self.bits.vw(), self.mask.vw(), other.mask_spec());
        }
        FieldValues {
            bits: self.bits.xor(self.mask.and(other.mask())),
            mask: self.mask,
            toggle: self.toggle,
        }
    }
}

impl<R: RegisterValue> Clone for FieldValues<R> {
    fn clone(&self) -> (r: FieldValues<R>)
        ensures
            r.bits_spec() == self.bits_spec(),
            r.mask_spec() == self.mask_spec(),
            r.can_toggle() == self.can_toggle(),
    {
        FieldValues { bits: self.bits, mask: self.mask, toggle: self.toggle }
    }
}

impl<R: RegisterValue> Copy for FieldValues<R> {

}

/// The identity of [`FieldValues::or`]-folding: no positions, no bits.
///
/// The empty set is trivially toggle-capable, so that folding a union over no
/// fields keeps the capability.
impl<R: RegisterValue> Default for FieldValues<R> {
    fn default() -> (r: FieldValues<R>)
        ensures
            r.bits_spec() == 0,
            r.mask_spec() == 0,
            r.can_toggle(),
            r.wf(),
    {
        proof {
            assert(0u128 & 0u128 == 0u128) by (bit_vector);
        }
        FieldValues {
            bits: <R as RegisterValue>::Int::zero(),
            mask: <R as RegisterValue>::Int::zero(),
            toggle: true,
        }
    }
}

/// Merging keeps the right operand's bits where masks overlap, and the result
/// stays within the merged mask.
proof fn lemma_merge_bits(b1: u128, m1: u128, b2: u128, m2: u128, o: u128)
    by (bit_vector)
    requires
        b1 & o == b1,
        b1 & m1 == b1,
        b2 & m2 == b2,
    ensures
        (b1 & (!m2 & o)) | b2 == (b1 & !m2) | b2,
        ((b1 & !m2) | b2) & (m1 | m2) == (b1 & !m2) | b2,
{
}

/// Restricting bits to a second mask keeps them within the restricted mask.
proof fn lemma_restrict_bits(b1: u128, m1: u128, m2: u128)
    by (bit_vector)
    requires
        b1 & m1 == b1,
    ensures
        (b1 & m2) & (m1 & m2) == b1 & m2,
{
}

/// Flipping bits inside the mask keeps the result within the mask.
proof fn lemma_flip_bits(b1: u128, m1: u128, m2: u128)
    by (bit_vector)
    requires
        b1 & m1 == b1,
    ensures
        (b1 ^ (m1 & m2)) & m1 == b1 ^ (m1 & m2),
{
}

} // verus!
