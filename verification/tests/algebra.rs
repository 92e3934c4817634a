//! The register-value algebra on concrete values.

use peripherals::DynReg;
use peripherals::Field;
use peripherals::FieldValues;
use peripherals::Fields;
use peripherals::InvalidValue;
use peripherals::Reg;
use peripherals::Value;
use peripherals::example::CfgFlag;
use peripherals::example::CONFIG;
use peripherals::example::CTRL;
use peripherals::example::Mode;
use peripherals::example::PERIPH1;
use peripherals::example::PERIPH2;
use peripherals::example::TriState;

#[test]
fn reset_value() {
    assert_eq!(Value::<CTRL>::reset().value(), 0b1001);
    assert_eq!(Value::<CTRL>::default().value(), 0b1001);
    assert_eq!(Value::<CONFIG>::reset().value(), 0);
}

#[test]
fn field_reads() {
    let value = Value::<CTRL>::reset();
    assert_eq!(value.field(CTRL::bit1()), Ok(true));
    assert_eq!(value.field(CTRL::bit2()), Ok(false));
    assert_eq!(value.field(CTRL::two_bits()), Ok(0b10));
}

#[test]
fn field_read_enum() {
    let value = Value::<CONFIG>::from_raw(0x06);
    assert_eq!(value.field(CONFIG::mode()), Ok(Mode::C));
    assert_eq!(value.field(CONFIG::flag()), Ok(CfgFlag::True));
}

#[test]
fn field_read_invalid() {
    let value = Value::<CTRL>::from_raw(0b1100);
    assert_eq!(value.field(CTRL::tri()), Err(InvalidValue));
    let value = Value::<CTRL>::from_raw(0b1000);
    assert_eq!(value.field(CTRL::tri()), Ok(TriState::High));
}

#[test]
fn mask_offset_round_trip() {
    let field: Field<CTRL, u8> = Field::from_raw(0x0c, 2);
    assert_eq!(field.mask(), 0x0c);
    assert_eq!(field.offset(), 2);
    let field: Field<CONFIG, Mode> = Field::from_raw(0x03, 0);
    assert_eq!(field.mask(), 0x03);
    assert_eq!(field.offset(), 0);
}

#[test]
fn combination_masks() {
    let a = CTRL::bit1().to_fields();
    let b = CTRL::two_bits().to_fields();
    assert_eq!(a.or(b).mask(), 0x01 | 0x0c);
    assert_eq!(a.and(b).mask(), 0x01 & 0x0c);
    assert_eq!(a.xor(b).mask(), 0x01 ^ 0x0c);
    assert_eq!(CTRL::bit1().or_field(CTRL::bit2()).mask(), 0b011);
    assert_eq!(CTRL::bit1().and_field(CTRL::bit2()).mask(), 0);
    assert_eq!(CTRL::bit1().xor_field(CTRL::bit2()).mask(), 0b011);
}

#[test]
fn field_values_combination() {
    let a = CTRL::bit1().with_value(true);
    let b = CTRL::two_bits().with_value(0b11);
    let both = a.or(b);
    assert_eq!(both.mask(), 0x0d);
    assert_eq!(both.bits(), 0x0d);
    // the right operand's bits win where the masks overlap
    let left = CTRL::two_bits().with_value(0b10);
    let right = CTRL::two_bits().with_value(0b01);
    assert_eq!(left.or(right).bits(), 0b01 << 2);
    assert_eq!(left.or(right).mask(), 0x0c);
    // restriction to a second mask
    let narrowed = both.and(CTRL::bit1().to_fields());
    assert_eq!(narrowed.mask(), 0x01);
    assert_eq!(narrowed.bits(), 0x01);
    // flipping the fields of both operands
    let flipped = both.xor(CTRL::bit1().to_fields());
    assert_eq!(flipped.mask(), 0x0d);
    assert_eq!(flipped.bits(), 0x0c);
}

#[test]
fn capability_propagation() {
    let toggling = CTRL::bit1().to_fields();
    let toggling2 = CTRL::bit2().to_fields();
    let plain = CTRL::two_bits().to_fields();
    assert!(toggling.toggleable());
    assert!(!plain.toggleable());
    // union and symmetric difference need both operands toggle-capable
    assert!(toggling.or(toggling2).toggleable());
    assert!(!toggling.or(plain).toggleable());
    assert!(!plain.or(toggling).toggleable());
    assert!(toggling.xor(toggling2).toggleable());
    assert!(!toggling.xor(plain).toggleable());
    // intersection is toggle-capable if either operand is
    assert!(toggling.and(plain).toggleable());
    assert!(plain.and(toggling).toggleable());
    assert!(!plain.and(plain).toggleable());
}

#[test]
fn insert_extracted_is_identity() {
    let value = Value::<CTRL>::from_raw(0xa5);
    let fields = CTRL::two_bits().to_fields();
    let extracted = value.and(fields);
    assert_eq!(value.or(extracted).value(), value.value());
    let all = Fields::<CTRL>::from_raw(0xff, false);
    assert_eq!(value.or(value.and(all)).value(), value.value());
}

#[test]
fn toggle_twice_restores() {
    let value = Value::<CTRL>::from_raw(0x5a);
    let fields = CTRL::bit1().or_field(CTRL::bit2());
    let once = value.xor(fields);
    assert_ne!(once.value(), value.value());
    assert_eq!(once.xor(fields).value(), value.value());
}

#[test]
fn scenario_toggle_and_set() {
    let value = Value::<CTRL>::reset();
    assert_eq!(value.xor(CTRL::bit1().to_fields()).value(), 0b1000);
    let extracted = value.and(CTRL::bit1().or_field(CTRL::bit2()));
    assert_eq!(extracted.bits(), 0b001);
    assert_eq!(extracted.mask(), 0b011);
    let set = value.or(CTRL::two_bits().with_value(0b01));
    assert_eq!(set.value(), 0b0101);
    assert_eq!(set.field(CTRL::two_bits()), Ok(0b01));
}

#[test]
fn assign_operators() {
    let mut value = Value::<CTRL>::reset();
    value.xor_assign(CTRL::bit1().to_fields());
    assert_eq!(value.value(), 0b1000);
    value.or_assign(CTRL::two_bits().with_value(0b01));
    assert_eq!(value.value(), 0b0100);
}

#[test]
fn test_field_values() {
    let value = Value::<CTRL>::reset();
    assert!(value.test(CTRL::bit1().with_value(true)));
    assert!(!value.test(CTRL::bit1().with_value(false)));
    assert!(value.test(CTRL::two_bits().with_value(0b10)));
    let both = CTRL::bit1().with_value(true).or(CTRL::two_bits().with_value(0b10));
    assert!(value.test(both));
}

#[test]
fn folding_identity() {
    let empty = FieldValues::<CTRL>::default();
    assert!(empty.toggleable());
    let some = CTRL::two_bits().with_value(0b11);
    assert_eq!(empty.or(some).bits(), some.bits());
    assert_eq!(empty.or(some).mask(), some.mask());
    let value = Value::<CTRL>::reset();
    assert_eq!(value.or(empty).value(), value.value());
    let no_fields = Fields::<CTRL>::default();
    assert_eq!(no_fields.mask(), 0);
    assert!(no_fields.toggleable());
}

#[test]
fn fields_compare_by_mask() {
    let by_field = CTRL::bit1().to_fields();
    let by_raw = Fields::<CTRL>::from_raw(0x01, false);
    assert!(by_field == by_raw);
    assert!(by_field != CTRL::bit2().to_fields());
    let a = Value::<CTRL>::from_raw(7);
    let b = Value::<CTRL>::from_raw(7);
    assert!(a == b);
    assert!(a != Value::<CTRL>::from_raw(8));
}

#[test]
fn register_addresses() {
    let reg: Reg<CTRL, PERIPH1> = Reg::new();
    assert_eq!(reg.ptr(), 0x16);
    let reg: Reg<CONFIG, PERIPH2> = Reg::new();
    assert_eq!(reg.ptr(), 0x20);
    let mut reg: Reg<CONFIG, PERIPH1> = Reg::new();
    assert_eq!(reg.ptr_mut(), 0x10);
}

#[test]
fn dyn_register_addresses() {
    let dynreg: DynReg<CTRL> = DynReg::new(0x40);
    assert_eq!(dynreg.ptr(), 0x46);
    let from_static: DynReg<CTRL> = Reg::<CTRL, PERIPH1>::new().into_dyn();
    assert_eq!(from_static.ptr(), 0x16);
}

#[test]
fn register_reads() {
    let reg: Reg<CTRL, PERIPH1> = Reg::new();
    let first = reg.read();
    let second = reg.read();
    assert!(first == second);
    assert_eq!(reg.field(CTRL::bit1()), Ok(true));
    assert!(reg.test(CTRL::two_bits().with_value(0b10)));
    let extracted = reg.fields(CTRL::bit1().or_field(CTRL::bit2()));
    assert_eq!(extracted.bits(), 0b001);
    assert_eq!(extracted.mask(), 0b011);
}

#[test]
fn register_writes() {
    // the sample block drops writes; this drives the store path only
    let mut reg: Reg<CTRL, PERIPH1> = Reg::new();
    reg.write(Value::reset());
    reg.reset();
    reg.modify(CTRL::two_bits().with_value(0b01));
    reg.toggle(CTRL::bit1().to_fields());
    let mut dynreg: DynReg<CTRL> = reg.into_dyn();
    assert_eq!(dynreg.field(CTRL::bit2()), Ok(false));
    dynreg.write(Value::reset());
    dynreg.reset();
    dynreg.modify(CTRL::two_bits().with_value(0b01));
    dynreg.toggle(CTRL::bit1().to_fields());
    assert!(dynreg.test(CTRL::bit1().with_value(true)));
    let extracted = dynreg.fields(CTRL::two_bits().to_fields());
    assert_eq!(extracted.mask(), 0x0c);
}

#[test]
fn diagnostic_text() {
    assert_eq!(Value::<CTRL>::reset().describe(), "Value<CTRL>(0x09)");
    assert_eq!(Value::<CONFIG>::from_raw(0xabcd).describe(), "Value<CONFIG>(0xabcd)");
    assert_eq!(CTRL::bit1().describe(), "Field<CTRL>(0x01)");
    assert_eq!(CONFIG::mode().describe(), "Field<CONFIG>(0x0003)");
    let reg: Reg<CTRL, PERIPH1> = Reg::new();
    assert_eq!(reg.describe(), "Reg PERIPH1.CTRL @ 0x0000000000000016");
    let dynreg: DynReg<CTRL> = DynReg::new(0x40);
    assert_eq!(dynreg.describe(), "DynReg CTRL @ 0x0000000000000046");
}

#[test]
fn descriptor_names() {
    assert_eq!(<CTRL as peripherals::Register>::name(), "CTRL");
    assert_eq!(<CONFIG as peripherals::RegisterValue>::name(), "CONFIG");
    assert_eq!(<PERIPH2 as peripherals::Peripheral>::name(), "PERIPH2");
}

#[test]
fn field_values_accessors() {
    let fv = CTRL::two_bits().with_value(0b11);
    assert_eq!(fv.bits(), 0b1100);
    assert_eq!(fv.mask(), 0b1100);
    assert!(!fv.toggleable());
    let fields = fv.fields();
    assert_eq!(fields.mask(), 0b1100);
    assert!(!fields.toggleable());
    let raw: FieldValues<CTRL> = FieldValues::from_raw(0b0100, 0b1100, false);
    assert_eq!(raw.bits(), 0b0100);
    assert_eq!(raw.mask(), 0b1100);
}
