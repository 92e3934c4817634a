//! The register accessor bound to a peripheral instance known at compile time.

use vstd::prelude::*;
use crate::descriptor::FieldType;
use crate::descriptor::InvalidValue;
use crate::descriptor::Peripheral;
use crate::descriptor::ReadRegister;
use crate::descriptor::Register;
use crate::descriptor::WriteRegister;
use crate::dynreg::DynReg;
use crate::field::Field;
use crate::field_values::FieldValues;
use crate::fields::Fields;
use crate::value::Value;

verus! {

/// The accessor for one register of one peripheral instance.
///
/// A `Reg` carries no data: the register's address is computed from the
/// peripheral's base address and the register's offset, both compile-time
/// constants of the descriptor types. Each access is one volatile load or
/// store, performed by the [`ReadRegister`] or [`WriteRegister`]
/// implementation; read-modify-write operations are one load followed by one
/// store, with no atomicity between them.
///
/// The accessor is freely copyable; keeping one live accessor set per
/// physical peripheral is a program-level convention.
pub struct Reg<R: Register, P: Peripheral> {
    _reg: core::marker::PhantomData<R>,
    _periph: core::marker::PhantomData<P>,
}

impl<R: Register, P: Peripheral> Reg<R, P> {
    /// The register's address stays within the address space.
    ///
    /// This is an obligation on the register block's declaration; it is
    /// required wherever the address is computed.
    pub open spec fn addr_fits() -> bool {
        P::base_spec() + R::offset_spec() <= usize::MAX
    }

    /// Build the accessor for this register and peripheral instance.
    pub fn new() -> Reg<R, P> {
        Reg { _reg: core::marker::PhantomData, _periph: core::marker::PhantomData }
    }

    /// The register's address: the peripheral's base plus the register's
    /// offset.
    pub fn ptr(&self) -> (r: usize)
        requires
            Self::addr_fits(),
        ensures
            r == P::base_spec() + R::offset_spec(),
    {
        P::base() + R::offset()
    }

    /// The register's address, for a store.
    pub fn ptr_mut(&mut self) -> (r: usize)
        requires
            Self::addr_fits(),
        ensures
            r == P::base_spec() + R::offset_spec(),
    {
        P::base() + R::offset()
    }

    /// Erase the peripheral information into a runtime handle.
    ///
    /// This allows choosing at runtime which instance of a peripheral to use.
    pub fn into_dyn(self) -> (r: DynReg<R>)
        ensures
            r.base_spec() == P::base_spec(),
    {
        DynReg::new(P::base())
    }
}

impl<R: Register, P: Peripheral> Reg<R, P> {
    /// The accessor's diagnostic description: the peripheral's and the
    /// register's names, and the resolved address in hexadecimal.
    pub fn describe(&self) -> (r: String)
        requires
            Self::addr_fits(),
        ensures
            r@ == "Reg "@ + P::name_spec()@ + "."@ + R::name_spec()@ + " @ 0x"@
                + crate::text::hex_seq((P::base_spec() + R::offset_spec()) as u128, 16),
    {
        crate::text::describe_reg(P::name(), R::name(), self.ptr())
    }
}

impl<R: ReadRegister, P: Peripheral> Reg<R, P> {
    /// Read the current value of this register: one volatile load.
    ///
    /// The returned bits are whatever the hardware held; nothing more is
    /// promised of them.
    pub fn read(&self) -> Value<<R as Register>::Value>
        requires
            Self::addr_fits(),
    {
        Value::from_raw(R::read_raw(self.ptr()))
    }

    /// Read the given field of this register, decoded to the field's type.
    ///
    /// Same as reading the register and extracting the field from the value.
    pub fn field<T: FieldType>(&self, field: Field<<R as Register>::Value, T>) -> Result<
        T,
        InvalidValue,
    >
        requires
            Self::addr_fits(),
            field.wf(),
    {
        self.read().field(field)
    }

    /// Read the given fields of this register.
    ///
    /// Whatever the hardware held, the result carries exactly the given
    /// mask and capability, and its bits lie within the mask.
    pub fn fields(&self, fields: Fields<<R as Register>::Value>) -> (r: FieldValues<
        <R as Register>::Value,
    >)
        requires
            Self::addr_fits(),
        ensures
            r.mask_spec() == fields.mask_spec(),
            r.can_toggle() == fields.can_toggle(),
            r.wf(),
    {
        self.read().and(fields)
    }

    /// Test the given fields of this register against the given values.
    pub fn test(&self, bits: FieldValues<<R as Register>::Value>) -> bool
        requires
            Self::addr_fits(),
    {
        self.read().test(bits)
    }
}

impl<R: WriteRegister, P: Peripheral> Reg<R, P> {
    /// Write a value to this register: one volatile store.
    pub fn write(&mut self, value: Value<<R as Register>::Value>)
        requires
            Self::addr_fits(),
    {
        let addr = self.ptr_mut();
        R::write_raw(addr, value.value())
    }

    /// Write the register's reset pattern back to it.
    pub fn reset(&mut self)
        requires
            Self::addr_fits(),
    {
        self.write(Value::reset())
    }
}

impl<R: ReadRegister + WriteRegister, P: Peripheral> Reg<R, P> {
    /// Set the given field values, keeping every other bit.
    ///
    /// One load, the merge of [`Value::or`], one store; not atomic.
    pub fn modify(&mut self, bits: FieldValues<<R as Register>::Value>)
        requires
            Self::addr_fits(),
    {
        let value = self.read().or(bits);
        self.write(value)
    }

    /// Flip the bits of the given toggle-capable fields.
    ///
    /// One load, the flip of [`Value::xor`], one store; not atomic.
    pub fn toggle(&mut self, fields: Fields<<R as Register>::Value>)
        requires
            Self::addr_fits(),
            fields.can_toggle(),
    {
        let value = self.read().xor(fields);
        self.write(value)
    }
}

impl<R: Register, P: Peripheral> Clone for Reg<R, P> {
    fn clone(&self) -> Reg<R, P> {
        Reg { _reg: core::marker::PhantomData, _periph: core::marker::PhantomData }
    }
}

impl<R: Register, P: Peripheral> Copy for Reg<R, P> {

}

} // verus!
