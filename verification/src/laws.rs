//! The algebra's laws that relate several operations.

use vstd::prelude::*;
use crate::descriptor::FieldType;
use crate::descriptor::RegisterValue;
use crate::field::Field;
use crate::fields::Fields;
use crate::value::Value;
use crate::value::set_bits;

verus! {

/// Writing a field value into a register value and reading the field back
/// gives the value: over the contracts of [`Field::with_value`],
/// [`Value::or`] and [`Value::field`], the bits extracted from the merged
/// value decode to exactly the value written, whatever the register held
/// before.
pub proof fn lemma_written_field_reads_back<R: RegisterValue, T: FieldType>(
    value: Value<R>,
    field: Field<R, T>,
    x: T,
)
    requires
        field.wf(),
        field.fits(x),
    ensures
        <T as FieldType>::decode_spec(
            (set_bits(value.get(), x.encode_spec() << field.offset_spec(), field.mask_spec())
                & field.mask_spec()) >> field.offset_spec(),
        ) == Some(x),
{
    let v = value.get();
    let m = field.mask_spec();
    let off = field.offset_spec();
    let enc = x.encode_spec();
    crate::field::lemma_encoded_within_mask(enc, m, off);
    assert(((enc << off) & m == enc << off) ==> ((((v & !m) | (enc << off)) & m) == enc << off))
        by (bit_vector);
    assert((enc & (m >> off) == enc) ==> ((enc << off) >> off == enc)) by (bit_vector);
    x.lemma_decode_encode();
}

/// Setting back into a value the field values just extracted from it leaves
/// the value unchanged: `value | (value & fields) == value`, stated over the
/// raw contents that [`Value::or`] and [`Value::and`] promise.
pub proof fn lemma_or_extracted_identity<R: RegisterValue>(value: Value<R>, fields: Fields<R>)
    ensures
        set_bits(value.get(), value.get() & fields.mask_spec(), fields.mask_spec())
            == value.get(),
{
    let v = value.get();
    let m = fields.mask_spec();
    assert((v & !m) | (v & m) == v) by (bit_vector);
}

/// Toggling the same toggle-capable fields twice restores the value:
/// `(value ^ fields) ^ fields == value`, stated over the raw contents that
/// [`Value::xor`] promises.
pub proof fn lemma_toggle_twice<R: RegisterValue>(value: Value<R>, fields: Fields<R>)
    requires
        fields.can_toggle(),
    ensures
        (value.get() ^ fields.mask_spec()) ^ fields.mask_spec() == value.get(),
{
    let v = value.get();
    let m = fields.mask_spec();
    assert((v ^ m) ^ m == v) by (bit_vector);
}

} // verus!
