//! The full raw content of one register.

use vstd::prelude::*;
use crate::descriptor::FieldType;
use crate::descriptor::InvalidValue;
use crate::descriptor::RegisterValue;
use crate::field::Field;
use crate::field_values::FieldValues;
use crate::fields::Fields;
use crate::width::Int;

verus! {

/// The raw content with the given bits set at the masked positions and every
/// other bit kept.
pub open spec fn set_bits(value: u128, bits: u128, mask: u128) -> u128 {
    (value & !mask) | bits
}

/// A value read from or to be written to a register.
///
/// A `Value` denotes one complete, concrete register state. It is produced by
/// reading a register or from the register's reset pattern, taken apart with
/// [`Value::field`] and [`Value::and`], and put together with [`Value::or`]
/// and [`Value::xor`] before being written back.
pub struct Value<R: RegisterValue> {
    value: <R as RegisterValue>::Int,
}

impl<R: RegisterValue> Value<R> {
    /// The raw content.
    pub closed spec fn get(self) -> u128 {
        self.value.vw()
    }

    /// The bits of the given field, shifted down to bit zero.
    pub open spec fn extracted<T>(self, field: Field<R, T>) -> u128 {
        (self.get() & field.mask_spec()) >> field.offset_spec()
    }

    /// The raw content, as the register's integer type.
    pub fn value(self) -> (r: <R as RegisterValue>::Int)
        ensures
            r.vw() == self.get(),
    {
        self.value
    }

    /// Build from a raw content.
    ///
    /// The integer type already enforces the register's width; no further
    /// validity holds of a full register state.
    pub fn from_raw(value: <R as RegisterValue>::Int) -> (r: Value<R>)
        ensures
            r.get() == value.vw(),
    {
        Value { value }
    }

    /// The register's state right after a hardware reset.
    pub fn reset() -> (r: Value<R>)
        ensures
            r.get() == R::reset_spec(),
    {
        Value { value: R::reset_value() }
    }

    /// Read the given field, decoded to the field's type.
    ///
    /// The field's bits are masked out, shifted down and decoded. Decoding
    /// fails exactly when the extracted bits name no value of the type; the
    /// failure is reported, never corrected.
    pub fn field<T: FieldType>(self, field: Field<R, T>) -> (r: Result<T, InvalidValue>)
        requires
            field.wf(),
        ensures
            match r {
                Ok(v) => <T as FieldType>::decode_spec(self.extracted(field)) == Some(v),
                Err(_) => <T as FieldType>::decode_spec(self.extracted(field)) is None,
            },
    {
        let masked = self.value.and(field.mask());
        let shifted = masked.shr(field.offset());
        match T::try_decode(shifted.to_bits()) {
            Some(v) => Ok(v),
            None => Err(InvalidValue),
        }
    }

    /// Test whether the given fields hold exactly the given values.
    ///
    /// True if and only if the bits at the set's positions equal the set's
    /// bits, for all its fields in one comparison.
    pub fn test(self, bits: FieldValues<R>) -> (r: bool)
        ensures
            r == ((self.get() & bits.mask_spec()) == bits.bits_spec()),
    {
        self.value.and(bits.mask()).eq_bits(bits.bits())
    }

    /// The value with the given field values set and every other bit kept.
    pub fn or(self, other: FieldValues<R>) -> (r: Value<R>)
        ensures
            r.get() == set_bits(self.get(), other.bits_spec(), other.mask_spec()),
    {
        proof {
            self.value.lemma_in_width();
            crate::width::lemma_mask_complement(
                self.get(),
                other.mask_spec(),
                <R as RegisterValue>::Int::ones(),
            );
        }
        Value { value: self.value.and(other.mask().not()).or(other.bits()) }
    }

    /// Set the given field values, keeping every other bit.
    pub fn or_assign(&mut self, other: FieldValues<R>)
        ensures
            final(self).get() == set_bits(old(self).get(), other.bits_spec(), other.mask_spec()),
    {
        let v = *self;
        *self = v.or(other);
    }

    /// Extract the values of the given fields.
    ///
    /// The result holds exactly the masked bits of this value; the toggle
    /// capability is the set's.
    pub fn and(self, other: Fields<R>) -> (r: FieldValues<R>)
        ensures
            r.bits_spec() == self.get() & other.mask_spec(),
            r.mask_spec() == other.mask_spec(),
            r.can_toggle() == other.can_toggle(),
            r.wf(),
    {
        proof {
            crate::width::lemma_within(self.get(), other.mask_spec());
        }
        FieldValues::from_raw(self.value.and(other.mask()), other.mask(), other.toggleable())
    }

    /// The value with the bits of the given fields flipped.
    ///
    /// Only a toggle-capable set may be applied: flipping a multi-bit field
    /// that is not two-valued would produce a meaningless state.
    pub fn xor(self, other: Fields<R>) -> (r: Value<R>)
        requires
            other.can_toggle(),
        ensures
            r.get() == self.get() ^ other.mask_spec(),
    {
        Value { value: self.value.xor(other.mask()) }
    }

    /// Flip the bits of the given toggle-capable fields.
    pub fn xor_assign(&mut self, other: Fields<R>)
        requires
            other.can_toggle(),
        ensures
            final(self).get() == old(self).get() ^ other.mask_spec(),
    {
        let v = *self;
        *self = v.xor(other);
    }
}

impl<R: RegisterValue> Value<R> {
    /// The value's diagnostic description: its register's name and its raw
    /// content in hexadecimal, one digit per four bits of the register.
    pub fn describe(self) -> (r: String)
        ensures
            r@ == "Value"@ + "<"@ + R::name_spec()@ + ">(0x"@ + crate::text::hex_seq(
                self.get(),
                <R as RegisterValue>::Int::width_spec() / 4,
            ) + ")"@,
    {
        let digits = <R as RegisterValue>::Int::width() / 4;
        crate::text::describe_tagged("Value", R::name(), self.value.to_bits(), digits)
    }
}

impl<R: RegisterValue> Clone for Value<R> {
    fn clone(&self) -> (r: Value<R>)
        ensures
            r.get() == self.get(),
    {
        Value { value: self.value }
    }
}

impl<R: RegisterValue> Copy for Value<R> {

}

/// The register's state right after a hardware reset.
impl<R: RegisterValue> Default for Value<R> {
    fn default() -> (r: Value<R>)
        ensures
            r.get() == R::reset_spec(),
    {
        Value { value: R::reset_value() }
    }
}

/// Two values are equal when their raw contents are equal.
impl<R: RegisterValue> PartialEq for Value<R> {
    fn eq(&self, other: &Value<R>) -> (r: bool) {
        self.value.eq_bits(other.value)
    }
}

impl<R: RegisterValue> vstd::std_specs::cmp::PartialEqSpecImpl for Value<R> {
    open spec fn obeys_eq_spec() -> bool {
        true
    }

    open spec fn eq_spec(&self, other: &Value<R>) -> bool {
        self.get() == other.get()
    }
}

impl<R: RegisterValue> Eq for Value<R> {

}

} // verus!
