//! The descriptor contract a register declaration supplies.
//!
//! A register block is described to this crate by marker types implementing
//! these traits: one type per peripheral instance, one per register, one per
//! register value, and one per field value type. The crate itself declares no
//! peripheral; it consumes these descriptions.

use vstd::prelude::*;
use crate::width::Int;

verus! {

/// A peripheral instance: identity plus a fixed base address.
///
/// One marker type per physical occurrence of a peripheral. The base address
/// must be valid, accessible, memory-mapped I/O for the whole program's
/// duration; that obligation lies on the declaration, not on this crate.
pub trait Peripheral {
    /// The base address of this peripheral instance.
    spec fn base_spec() -> usize;

    /// The name shown in diagnostics.
    spec fn name_spec() -> &'static str;

    /// The name shown in diagnostics.
    fn name() -> (r: &'static str)
        ensures
            r@ == Self::name_spec()@,
    ;

    /// The base address of this peripheral instance.
    fn base() -> (r: usize)
        ensures
            r == Self::base_spec(),
    ;
}

/// The descriptor of a register's value: its width and its reset pattern.
pub trait RegisterValue {
    /// The integer type holding this register's bits.
    type Int: Int;

    /// The bit pattern the register holds right after a hardware reset.
    spec fn reset_spec() -> u128;

    /// The name shown in diagnostics.
    spec fn name_spec() -> &'static str;

    /// The name shown in diagnostics.
    fn name() -> (r: &'static str)
        ensures
            r@ == Self::name_spec()@,
    ;

    /// The bit pattern the register holds right after a hardware reset.
    fn reset_value() -> (r: Self::Int)
        ensures
            r.vw() == Self::reset_spec(),
    ;
}

/// The descriptor of a register: its width, its value type, and its byte
/// offset from the peripheral's base address.
pub trait Register {
    /// The integer type holding this register's bits.
    type Int: Int;

    /// The marker type for values read from or written to this register.
    type Value: RegisterValue<Int = Self::Int>;

    /// The byte offset from the peripheral's base address.
    spec fn offset_spec() -> usize;

    /// The name shown in diagnostics.
    spec fn name_spec() -> &'static str;

    /// The name shown in diagnostics.
    fn name() -> (r: &'static str)
        ensures
            r@ == Self::name_spec()@,
    ;

    /// The byte offset from the peripheral's base address.
    fn offset() -> (r: usize)
        ensures
            r == Self::offset_spec(),
    ;
}

/// A readable register.
///
/// The implementation supplies the one volatile load at the given address;
/// everything computed from what it returns is verified in this crate. The
/// returned bits depend on the hardware, so nothing is promised of them
/// beyond their width.
pub trait ReadRegister: Register {
    /// Perform the single volatile load this register's read consists of.
    fn read_raw(addr: usize) -> <Self as Register>::Int;
}

/// A writable register.
///
/// The implementation supplies the one volatile store at the given address.
pub trait WriteRegister: Register {
    /// Perform the single volatile store this register's write consists of.
    fn write_raw(addr: usize, value: <Self as Register>::Int);
}

/// A type that stands for the values of one field.
///
/// A field's semantic type decodes the field's raw bits (already shifted down
/// to bit 0) and encodes itself back into them. Decoding may fail: the
/// extracted bits need not name any value of the type. A type is toggleable
/// when it is exhaustively two-valued (a boolean wrapper or a two-variant
/// enumeration), so that flipping its bit always yields the other value.
pub trait FieldType: Copy + Sized {
    /// Which value of this type, if any, the given field bits decode to.
    spec fn decode_spec(bits: u128) -> Option<Self>;

    /// The field bits this value encodes to.
    spec fn encode_spec(self) -> u128;

    /// Whether values of this type can be safely inverted.
    spec fn toggle_spec() -> bool;

    /// Encoding a value and decoding the result gives the value back.
    proof fn lemma_decode_encode(self)
        ensures
            Self::decode_spec(self.encode_spec()) == Some(self),
    ;

    /// Which value of this type, if any, the given field bits decode to.
    fn try_decode(bits: u128) -> (r: Option<Self>)
        ensures
            r == Self::decode_spec(bits),
    ;

    /// The field bits this value encodes to.
    fn encode(self) -> (r: u128)
        ensures
            r == self.encode_spec(),
    ;

    /// Whether values of this type can be safely inverted.
    fn toggleable() -> (r: bool)
        ensures
            r == Self::toggle_spec(),
    ;
}

/// The error returned when the bits extracted for a field decode to no value
/// of the field's type.
#[derive(Clone, Copy, Debug, PartialEq, Eq, Structural)]
pub struct InvalidValue;

impl FieldType for bool {
    open spec fn decode_spec(bits: u128) -> Option<bool> {
        if bits == 0 {
            Some(false)
        } else if bits == 1 {
            Some(true)
        } else {
            None
        }
    }

    open spec fn encode_spec(self) -> u128 {
        if self {
            1
        } else {
            0
        }
    }

    open spec fn toggle_spec() -> bool {
        true
    }

    proof fn lemma_decode_encode(self) {
    }

    fn try_decode(bits: u128) -> Option<bool> {
        if bits == 0 {
            Some(false)
        } else if bits == 1 {
            Some(true)
        } else {
            None
        }
    }

    fn encode(self) -> u128 {
        if self {
            1
        } else {
            0
        }
    }

    fn toggleable() -> bool {
        true
    }
}

impl FieldType for u8 {
    open spec fn decode_spec(bits: u128) -> Option<u8> {
        if bits <= 0xff {
            Some(bits as u8)
        } else {
            None
        }
    }

    open spec fn encode_spec(self) -> u128 {
        self as u128
    }

    open spec fn toggle_spec() -> bool {
        false
    }

    proof fn lemma_decode_encode(self) {
    }

    fn try_decode(bits: u128) -> Option<u8> {
        if bits <= 0xff {
            Some(bits as u8)
        } else {
            None
        }
    }

    fn encode(self) -> u128 {
        self as u128
    }

    fn toggleable() -> bool {
        false
    }
}

} // verus!
