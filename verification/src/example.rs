//! A sample register block, showing what a declaration supplies.
//!
//! A real declaration describes actual hardware and performs the volatile
//! accesses. This sample has no hardware behind it: reads return the reset
//! pattern and writes are dropped. It shows every part of the descriptor
//! contract and gives the tests something concrete to drive.

use vstd::prelude::*;
use crate::descriptor::FieldType;
use crate::descriptor::Peripheral;
use crate::descriptor::ReadRegister;
use crate::descriptor::Register;
use crate::descriptor::RegisterValue;
use crate::descriptor::WriteRegister;
use crate::field::Field;
use crate::field::mask_shape;

verus! {

/// The first instance of the sample peripheral.
#[allow(non_camel_case_types)]
#[derive(Clone, Copy)]
pub struct PERIPH1;

impl Peripheral for PERIPH1 {
    open spec fn base_spec() -> usize {
        0x10
    }

    open spec fn name_spec() -> &'static str {
        "PERIPH1"
    }

    fn name() -> &'static str {
        "PERIPH1"
    }

    fn base() -> usize {
        0x10
    }
}

/// A second instance of the same peripheral.
#[allow(non_camel_case_types)]
#[derive(Clone, Copy)]
pub struct PERIPH2;

impl Peripheral for PERIPH2 {
    open spec fn base_spec() -> usize {
        0x20
    }

    open spec fn name_spec() -> &'static str {
        "PERIPH2"
    }

    fn name() -> &'static str {
        "PERIPH2"
    }

    fn base() -> usize {
        0x20
    }
}

/// Some mode for the peripheral.
#[derive(Clone, Copy, Debug, PartialEq, Eq, Structural)]
pub enum Mode {
    A,
    B,
    C,
    D,
}

impl FieldType for Mode {
    open spec fn decode_spec(bits: u128) -> Option<Mode> {
        if bits == 0 {
            Some(Mode::A)
        } else if bits == 1 {
            Some(Mode::B)
        } else if bits == 2 {
            Some(Mode::C)
        } else if bits == 3 {
            Some(Mode::D)
        } else {
            None
        }
    }

    open spec fn encode_spec(self) -> u128 {
        match self {
            Mode::A => 0,
            Mode::B => 1,
            Mode::C => 2,
            Mode::D => 3,
        }
    }

    open spec fn toggle_spec() -> bool {
        false
    }

    proof fn lemma_decode_encode(self) {
    }

    fn try_decode(bits: u128) -> Option<Mode> {
        if bits == 0 {
            Some(Mode::A)
        } else if bits == 1 {
            Some(Mode::B)
        } else if bits == 2 {
            Some(Mode::C)
        } else if bits == 3 {
            Some(Mode::D)
        } else {
            None
        }
    }

    fn encode(self) -> u128 {
        match self {
            Mode::A => 0,
            Mode::B => 1,
            Mode::C => 2,
            Mode::D => 3,
        }
    }

    fn toggleable() -> bool {
        false
    }
}

/// Some flag of the configuration register; two-valued, so toggleable.
#[derive(Clone, Copy, Debug, PartialEq, Eq, Structural)]
pub enum CfgFlag {
    False,
    True,
}

impl FieldType for CfgFlag {
    open spec fn decode_spec(bits: u128) -> Option<CfgFlag> {
        if bits == 0 {
            Some(CfgFlag::False)
        } else if bits == 1 {
            Some(CfgFlag::True)
        } else {
            None
        }
    }

    open spec fn encode_spec(self) -> u128 {
        match self {
            CfgFlag::False => 0,
            CfgFlag::True => 1,
        }
    }

    open spec fn toggle_spec() -> bool {
        true
    }

    proof fn lemma_decode_encode(self) {
    }

    fn try_decode(bits: u128) -> Option<CfgFlag> {
        if bits == 0 {
            Some(CfgFlag::False)
        } else if bits == 1 {
            Some(CfgFlag::True)
        } else {
            None
        }
    }

    fn encode(self) -> u128 {
        match self {
            CfgFlag::False => 0,
            CfgFlag::True => 1,
        }
    }

    fn toggleable() -> bool {
        true
    }
}

/// Some status of the peripheral.
#[derive(Clone, Copy, Debug, PartialEq, Eq, Structural)]
pub enum Status {
    A,
    B,
    C,
    D,
}

impl FieldType for Status {
    open spec fn decode_spec(bits: u128) -> Option<Status> {
        if bits == 0 {
            Some(Status::A)
        } else if bits == 1 {
            Some(Status::B)
        } else if bits == 2 {
            Some(Status::C)
        } else if bits == 3 {
            Some(Status::D)
        } else {
            None
        }
    }

    open spec fn encode_spec(self) -> u128 {
        match self {
            Status::A => 0,
            Status::B => 1,
            Status::C => 2,
            Status::D => 3,
        }
    }

    open spec fn toggle_spec() -> bool {
        false
    }

    proof fn lemma_decode_encode(self) {
    }

    fn try_decode(bits: u128) -> Option<Status> {
        if bits == 0 {
            Some(Status::A)
        } else if bits == 1 {
            Some(Status::B)
        } else if bits == 2 {
            Some(Status::C)
        } else if bits == 3 {
            Some(Status::D)
        } else {
            None
        }
    }

    fn encode(self) -> u128 {
        match self {
            Status::A => 0,
            Status::B => 1,
            Status::C => 2,
            Status::D => 3,
        }
    }

    fn toggleable() -> bool {
        false
    }
}

/// A flag of the status register, wrapped over a bool; toggleable.
#[derive(Clone, Copy, Debug, PartialEq, Eq, Structural)]
pub struct StatFlag(pub bool);

impl FieldType for StatFlag {
    open spec fn decode_spec(bits: u128) -> Option<StatFlag> {
        if bits == 0 {
            Some(StatFlag(false))
        } else if bits == 1 {
            Some(StatFlag(true))
        } else {
            None
        }
    }

    open spec fn encode_spec(self) -> u128 {
        if self.0 {
            1
        } else {
            0
        }
    }

    open spec fn toggle_spec() -> bool {
        true
    }

    proof fn lemma_decode_encode(self) {
    }

    fn try_decode(bits: u128) -> Option<StatFlag> {
        if bits == 0 {
            Some(StatFlag(false))
        } else if bits == 1 {
            Some(StatFlag(true))
        } else {
            None
        }
    }

    fn encode(self) -> u128 {
        if self.0 {
            1
        } else {
            0
        }
    }

    fn toggleable() -> bool {
        true
    }
}

/// Data to use with the peripheral, wrapped over a byte.
#[derive(Clone, Copy, Debug, PartialEq, Eq, Structural)]
pub struct Data(pub u8);

impl FieldType for Data {
    open spec fn decode_spec(bits: u128) -> Option<Data> {
        if bits <= 0xff {
            Some(Data(bits as u8))
        } else {
            None
        }
    }

    open spec fn encode_spec(self) -> u128 {
        self.0 as u128
    }

    open spec fn toggle_spec() -> bool {
        false
    }

    proof fn lemma_decode_encode(self) {
    }

    fn try_decode(bits: u128) -> Option<Data> {
        if bits <= 0xff {
            Some(Data(bits as u8))
        } else {
            None
        }
    }

    fn encode(self) -> u128 {
        self.0 as u128
    }

    fn toggleable() -> bool {
        false
    }
}

/// A three-valued state on a two-bit field: one bit pattern decodes to no
/// value.
#[derive(Clone, Copy, Debug, PartialEq, Eq, Structural)]
pub enum TriState {
    Off,
    Low,
    High,
}

impl FieldType for TriState {
    open spec fn decode_spec(bits: u128) -> Option<TriState> {
        if bits == 0 {
            Some(TriState::Off)
        } else if bits == 1 {
            Some(TriState::Low)
        } else if bits == 2 {
            Some(TriState::High)
        } else {
            None
        }
    }

    open spec fn encode_spec(self) -> u128 {
        match self {
            TriState::Off => 0,
            TriState::Low => 1,
            TriState::High => 2,
        }
    }

    open spec fn toggle_spec() -> bool {
        false
    }

    proof fn lemma_decode_encode(self) {
    }

    fn try_decode(bits: u128) -> Option<TriState> {
        if bits == 0 {
            Some(TriState::Off)
        } else if bits == 1 {
            Some(TriState::Low)
        } else if bits == 2 {
            Some(TriState::High)
        } else {
            None
        }
    }

    fn encode(self) -> u128 {
        match self {
            TriState::Off => 0,
            TriState::Low => 1,
            TriState::High => 2,
        }
    }

    fn toggleable() -> bool {
        false
    }
}

/// A read-write configuration register.
#[allow(non_camel_case_types)]
#[derive(Clone, Copy)]
pub struct CONFIG;

impl RegisterValue for CONFIG {
    type Int = u16;

    open spec fn reset_spec() -> u128 {
        0
    }

    open spec fn name_spec() -> &'static str {
        "CONFIG"
    }

    fn name() -> &'static str {
        "CONFIG"
    }

    fn reset_value() -> u16 {
        0
    }
}

impl Register for CONFIG {
    type Int = u16;

    type Value = CONFIG;

    open spec fn offset_spec() -> usize {
        0
    }

    open spec fn name_spec() -> &'static str {
        "CONFIG"
    }

    fn name() -> &'static str {
        "CONFIG"
    }

    fn offset() -> usize {
        0
    }
}

impl ReadRegister for CONFIG {
    fn read_raw(_addr: usize) -> u16 {
        0
    }
}

impl WriteRegister for CONFIG {
    fn write_raw(_addr: usize, _value: u16) {
    }
}

impl CONFIG {
    /// Some mode for the peripheral, in the two lowest bits.
    pub fn mode() -> (r: Field<CONFIG, Mode>)
        ensures
            r.wf(),
            r.mask_spec() == 0x03,
            r.offset_spec() == 0,
    {
        proof {
            assert(mask_shape(0x03u128, 0usize)) by (bit_vector);
        }
        Field::from_raw(0x03u16, 0)
    }

    /// Some flag, in bit two.
    pub fn flag() -> (r: Field<CONFIG, CfgFlag>)
        ensures
            r.wf(),
            r.mask_spec() == 0x04,
            r.offset_spec() == 2,
    {
        proof {
            assert(mask_shape(0x04u128, 2usize)) by (bit_vector);
        }
        Field::from_raw(0x04u16, 2)
    }
}

/// A read-only status register.
#[allow(non_camel_case_types)]
#[derive(Clone, Copy)]
pub struct STATUS;

impl RegisterValue for STATUS {
    type Int = u16;

    open spec fn reset_spec() -> u128 {
        0
    }

    open spec fn name_spec() -> &'static str {
        "STATUS"
    }

    fn name() -> &'static str {
        "STATUS"
    }

    fn reset_value() -> u16 {
        0
    }
}

impl Register for STATUS {
    type Int = u16;

    type Value = STATUS;

    open spec fn offset_spec() -> usize {
        2
    }

    open spec fn name_spec() -> &'static str {
        "STATUS"
    }

    fn name() -> &'static str {
        "STATUS"
    }

    fn offset() -> usize {
        2
    }
}

impl ReadRegister for STATUS {
    fn read_raw(_addr: usize) -> u16 {
        0
    }
}

impl STATUS {
    /// Some status for the peripheral, in the two lowest bits.
    pub fn stat() -> (r: Field<STATUS, Status>)
        ensures
            r.wf(),
            r.mask_spec() == 0x03,
            r.offset_spec() == 0,
    {
        proof {
            assert(mask_shape(0x03u128, 0usize)) by (bit_vector);
        }
        Field::from_raw(0x03u16, 0)
    }

    /// Some flag, in bit two.
    pub fn flag() -> (r: Field<STATUS, StatFlag>)
        ensures
            r.wf(),
            r.mask_spec() == 0x04,
            r.offset_spec() == 2,
    {
        proof {
            assert(mask_shape(0x04u128, 2usize)) by (bit_vector);
        }
        Field::from_raw(0x04u16, 2)
    }
}

/// A write-only buffer register.
#[allow(non_camel_case_types)]
#[derive(Clone, Copy)]
pub struct BUFFER;

impl RegisterValue for BUFFER {
    type Int = u16;

    open spec fn reset_spec() -> u128 {
        0
    }

    open spec fn name_spec() -> &'static str {
        "BUFFER"
    }

    fn name() -> &'static str {
        "BUFFER"
    }

    fn reset_value() -> u16 {
        0
    }
}

impl Register for BUFFER {
    type Int = u16;

    type Value = BUFFER;

    open spec fn offset_spec() -> usize {
        4
    }

    open spec fn name_spec() -> &'static str {
        "BUFFER"
    }

    fn name() -> &'static str {
        "BUFFER"
    }

    fn offset() -> usize {
        4
    }
}

impl WriteRegister for BUFFER {
    fn write_raw(_addr: usize, _value: u16) {
    }
}

impl BUFFER {
    /// Data to use with the peripheral, in the lowest byte.
    pub fn data() -> (r: Field<BUFFER, Data>)
        ensures
            r.wf(),
            r.mask_spec() == 0xff,
            r.offset_spec() == 0,
    {
        proof {
            assert(mask_shape(0xffu128, 0usize)) by (bit_vector);
        }
        Field::from_raw(0xffu16, 0)
    }
}

/// An eight-bit read-write control register with two single-bit flags and
/// one two-bit field.
#[allow(non_camel_case_types)]
#[derive(Clone, Copy)]
pub struct CTRL;

impl RegisterValue for CTRL {
    type Int = u8;

    open spec fn reset_spec() -> u128 {
        0b1001
    }

    open spec fn name_spec() -> &'static str {
        "CTRL"
    }

    fn name() -> &'static str {
        "CTRL"
    }

    fn reset_value() -> u8 {
        0b1001
    }
}

impl Register for CTRL {
    type Int = u8;

    type Value = CTRL;

    open spec fn offset_spec() -> usize {
        6
    }

    open spec fn name_spec() -> &'static str {
        "CTRL"
    }

    fn name() -> &'static str {
        "CTRL"
    }

    fn offset() -> usize {
        6
    }
}

impl ReadRegister for CTRL {
    fn read_raw(_addr: usize) -> u8 {
        0b1001
    }
}

impl WriteRegister for CTRL {
    fn write_raw(_addr: usize, _value: u8) {
    }
}

impl CTRL {
    /// A flag in the lowest bit.
    pub fn bit1() -> (r: Field<CTRL, bool>)
        ensures
            r.wf(),
            r.mask_spec() == 0x01,
            r.offset_spec() == 0,
    {
        proof {
            assert(mask_shape(0x01u128, 0usize)) by (bit_vector);
        }
        Field::from_raw(0x01u8, 0)
    }

    /// A flag in bit one.
    pub fn bit2() -> (r: Field<CTRL, bool>)
        ensures
            r.wf(),
            r.mask_spec() == 0x02,
            r.offset_spec() == 1,
    {
        proof {
            assert(mask_shape(0x02u128, 1usize)) by (bit_vector);
        }
        Field::from_raw(0x02u8, 1)
    }

    /// A two-bit numeric field in bits two and three.
    pub fn two_bits() -> (r: Field<CTRL, u8>)
        ensures
            r.wf(),
            r.mask_spec() == 0x0c,
            r.offset_spec() == 2,
    {
        proof {
            assert(mask_shape(0x0cu128, 2usize)) by (bit_vector);
        }
        Field::from_raw(0x0cu8, 2)
    }

    /// The same two bits read as a three-valued state; a second name for a
    /// field is an alias.
    pub fn tri() -> (r: Field<CTRL, TriState>)
        ensures
            r.wf(),
            r.mask_spec() == 0x0c,
            r.offset_spec() == 2,
    {
        proof {
            assert(mask_shape(0x0cu128, 2usize)) by (bit_vector);
        }
        Field::from_raw(0x0cu8, 2)
    }
}

} // verus!
