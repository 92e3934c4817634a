//! The sample register block's layout, as a user of the crate sees it.

use core::mem::size_of;
use peripherals::Reg;
use peripherals::Register;
use peripherals::example::BUFFER;
use peripherals::example::CONFIG;
use peripherals::example::CTRL;
use peripherals::example::PERIPH1;
use peripherals::example::PERIPH2;
use peripherals::example::STATUS;

struct SamplePeripheral1 {
    _config: Reg<CONFIG, PERIPH1>,
    _status: Reg<STATUS, PERIPH1>,
    _buffer: Reg<BUFFER, PERIPH1>,
    _ctrl: Reg<CTRL, PERIPH1>,
}

struct SamplePeripheral2 {
    _config: Reg<CONFIG, PERIPH2>,
    _status: Reg<STATUS, PERIPH2>,
    _buffer: Reg<BUFFER, PERIPH2>,
    _ctrl: Reg<CTRL, PERIPH2>,
}

struct Microcontroller {
    _periph1: SamplePeripheral1,
    _periph2: SamplePeripheral2,
}

#[test]
fn zero_sized() {
    assert_eq!(size_of::<Microcontroller>(), 0);
}

#[test]
fn periph_registers() {
    assert_eq!(size_of::<Reg<CONFIG, PERIPH1>>(), 0);
    assert_eq!(size_of::<Reg<STATUS, PERIPH1>>(), 0);
    assert_eq!(size_of::<Reg<BUFFER, PERIPH1>>(), 0);
    assert_eq!(<CONFIG as Register>::offset(), 0);
    assert_eq!(<STATUS as Register>::offset(), 2);
    assert_eq!(<BUFFER as Register>::offset(), 4);
}

#[test]
fn periph_fields() {
    assert_eq!(CONFIG::mode().mask(), 0x03);
    assert_eq!(CONFIG::mode().offset(), 0);
    assert_eq!(CONFIG::flag().mask(), 0x04);
    assert_eq!(CONFIG::flag().offset(), 2);
    assert_eq!(STATUS::stat().mask(), 0x03);
    assert_eq!(STATUS::stat().offset(), 0);
    assert_eq!(STATUS::flag().mask(), 0x04);
    assert_eq!(STATUS::flag().offset(), 2);
    assert_eq!(BUFFER::data().mask(), 0xff);
    assert_eq!(BUFFER::data().offset(), 0);
}

#[test]
fn peripheral_registers() {
    assert_eq!(size_of::<CONFIG>(), 0);
    assert_eq!(size_of::<STATUS>(), 0);
    assert_eq!(size_of::<BUFFER>(), 0);
    assert_eq!(<CONFIG as Register>::offset(), 0);
    assert_eq!(<STATUS as Register>::offset(), 2);
    assert_eq!(<BUFFER as Register>::offset(), 4);
}

#[test]
fn peripheral_fields() {
    assert_eq!(CONFIG::mode().offset(), 0);
    assert_eq!(CONFIG::mode().mask(), 0x03);
    assert_eq!(CONFIG::flag().offset(), 2);
    assert_eq!(CONFIG::flag().mask(), 0x04);
    assert_eq!(STATUS::stat().offset(), 0);
    assert_eq!(STATUS::stat().mask(), 0x03);
    assert_eq!(STATUS::flag().offset(), 2);
    assert_eq!(STATUS::flag().mask(), 0x04);
    assert_eq!(BUFFER::data().offset(), 0);
    assert_eq!(BUFFER::data().mask(), 0xff);
}
