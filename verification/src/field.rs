//! A single named bit-range of one register.

use vstd::prelude::*;
use crate::descriptor::FieldType;
use crate::descriptor::RegisterValue;
use crate::field_values::FieldValues;
use crate::fields::Fields;
use crate::width::Int;

verus! {

/// The mask is one contiguous run of set bits whose lowest bit is `offset`.
///
/// The run shifted down to bit zero must be all-ones (adding one to it clears
/// it), must have its lowest bit set, and must shift back up to the mask
/// itself, so the mask has no bits below `offset` either.
pub open spec fn mask_shape(mask: u128, offset: usize) -> bool {
    &&& mask != 0
    &&& (mask >> offset) << offset == mask
    &&& (mask >> offset) & 1 == 1
    &&& (((mask >> offset) + 1) as u128) & (mask >> offset) == 0
}

/// A single field: a contiguous bit-range of one register, with the type its
/// values decode to.
///
/// A field is declared once per register layout and then combined into
/// [`Fields`] and [`FieldValues`]. The first type parameter ties it to one
/// register's value type; the second is the semantic type of the field's
/// values, and decides whether the field may be toggled.
pub struct Field<R: RegisterValue, T> {
    mask: <R as RegisterValue>::Int,
    offset: usize,
    _type: core::marker::PhantomData<T>,
}

impl<R: RegisterValue, T> Field<R, T> {
    /// The field's bit positions, as a mask.
    pub closed spec fn mask_spec(self) -> u128 {
        self.mask.vw()
    }

    /// The position of the field's lowest bit.
    pub closed spec fn offset_spec(self) -> usize {
        self.offset
    }

    /// The mask is a contiguous run at `offset`, within the register's width.
    pub open spec fn wf(self) -> bool {
        &&& mask_shape(self.mask_spec(), self.offset_spec())
        &&& (self.offset_spec() as nat) < <R as RegisterValue>::Int::width_spec()
    }

    /// Build from a raw mask and offset.
    ///
    /// The mask must be a contiguous run of bits starting at `offset`, and it
    /// must cover exactly the field's positions in the register: a wrong mask
    /// here produces silently wrong reads and writes later.
    pub fn from_raw(mask: <R as RegisterValue>::Int, offset: usize) -> (r: Field<R, T>)
        requires
            mask_shape(mask.vw(), offset),
            (offset as nat) < <R as RegisterValue>::Int::width_spec(),
        ensures
            r.mask_spec() == mask.vw(),
            r.offset_spec() == offset,
            r.wf(),
    {
        Field { mask, offset, _type: core::marker::PhantomData }
    }

    /// The field's bit positions, as a mask.
    pub fn mask(self) -> (r: <R as RegisterValue>::Int)
        ensures
            r.vw() == self.mask_spec(),
    {
        self.mask
    }

    /// The position of the field's lowest bit.
    pub fn offset(self) -> (r: usize)
        ensures
            r == self.offset_spec(),
    {
        self.offset
    }
}

impl<R: RegisterValue, T: FieldType> Field<R, T> {
    /// The field's positions as a set, toggle-capable when the field's value
    /// type is.
    pub fn to_fields(self) -> (r: Fields<R>)
        ensures
            r.mask_spec() == self.mask_spec(),
            r.can_toggle() == <T as FieldType>::toggle_spec(),
    {
        Fields::from_raw(self.mask, T::toggleable())
    }

    /// The positions of this field and another, as a set.
    pub fn or_field<U: FieldType>(self, other: Field<R, U>) -> (r: Fields<R>)
        ensures
            r.mask_spec() == self.mask_spec() | other.mask_spec(),
            r.can_toggle() == (<T as FieldType>::toggle_spec()
                && <U as FieldType>::toggle_spec()),
    {
        self.to_fields().or(other.to_fields())
    }

    /// The positions in both this field and another, as a set.
    pub fn and_field<U: FieldType>(self, other: Field<R, U>) -> (r: Fields<R>)
        ensures
            r.mask_spec() == self.mask_spec() & other.mask_spec(),
            r.can_toggle() == (<T as FieldType>::toggle_spec()
                || <U as FieldType>::toggle_spec()),
    {
        self.to_fields().and(other.to_fields())
    }

    /// The positions in exactly one of this field and another, as a set.
    pub fn xor_field<U: FieldType>(self, other: Field<R, U>) -> (r: Fields<R>)
        ensures
            r.mask_spec() == self.mask_spec() ^ other.mask_spec(),
            r.can_toggle() == (<T as FieldType>::toggle_spec()
                && <U as FieldType>::toggle_spec()),
    {
        self.to_fields().xor(other.to_fields())
    }

    /// The encoded value lies within the field's bit-range, once the range
    /// is shifted down to bit zero.
    ///
    /// The descriptor contract makes every value of an exhaustive field type
    /// fit its field.
    pub open spec fn fits(self, value: T) -> bool {
        value.encode_spec() & (self.mask_spec() >> self.offset_spec()) == value.encode_spec()
    }

    /// This field holding the given value, as field values to write.
    pub fn with_value(self, value: T) -> (r: FieldValues<R>)
        requires
            self.wf(),
            self.fits(value),
        ensures
            r.bits_spec() == value.encode_spec() << self.offset_spec(),
            r.mask_spec() == self.mask_spec(),
            r.can_toggle() == <T as FieldType>::toggle_spec(),
            r.wf(),
    {
        proof {
            <R as RegisterValue>::Int::lemma_width();
            self.mask.lemma_in_width();
            lemma_encoded_within_mask(value.encode_spec(), self.mask_spec(), self.offset_spec());
            crate::width::lemma_absorb(
                value.encode_spec() << self.offset_spec(),
                self.mask_spec(),
                <R as RegisterValue>::Int::ones(),
            );
        }
        let shifted: u128 = value.encode() << self.offset;
        let bits = <R as RegisterValue>::Int::from_bits(shifted);
        FieldValues::from_raw(bits, self.mask, T::toggleable())
    }
}

/// Bits that fit a mask's shifted-down run, shifted back up, lie within the
/// mask.
pub(crate) proof fn lemma_encoded_within_mask(enc: u128, mask: u128, offset: usize)
    by (bit_vector)
    requires
        (mask >> offset) << offset == mask,
        enc & (mask >> offset) == enc,
    ensures
        (enc << offset) & mask == enc << offset,
{
}

impl<R: RegisterValue, T> Field<R, T> {
    /// The field's diagnostic description: its register's name and its mask
    /// in hexadecimal, one digit per four bits of the register.
    pub fn describe(self) -> (r: String)
        ensures
            r@ == "Field"@ + "<"@ + R::name_spec()@ + ">(0x"@ + crate::text::hex_seq(
                self.mask_spec(),
                <R as RegisterValue>::Int::width_spec() / 4,
            ) + ")"@,
    {
        let digits = <R as RegisterValue>::Int::width() / 4;
        crate::text::describe_tagged("Field", R::name(), self.mask.to_bits(), digits)
    }
}

impl<R: RegisterValue, T> Clone for Field<R, T> {
    fn clone(&self) -> (r: Field<R, T>)
        ensures
            r.mask_spec() == self.mask_spec(),
            r.offset_spec() == self.offset_spec(),
    {
        Field { mask: self.mask, offset: self.offset, _type: core::marker::PhantomData }
    }
}

impl<R: RegisterValue, T> Copy for Field<R, T> {

}

} // verus!
