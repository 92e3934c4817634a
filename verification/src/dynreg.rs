//! The register accessor for a peripheral instance chosen at runtime.

use vstd::prelude::*;
use crate::descriptor::FieldType;
use crate::descriptor::InvalidValue;
use crate::descriptor::ReadRegister;
use crate::descriptor::Register;
use crate::descriptor::WriteRegister;
use crate::field::Field;
use crate::field_values::FieldValues;
use crate::fields::Fields;
use crate::value::Value;

verus! {

/// The accessor for one register of a peripheral instance known only at
/// runtime.
///
/// A `DynReg` is the runtime-erased counterpart of
/// [`Reg`](crate::Reg): an explicit handle carrying the resolved base
/// address of the chosen instance. It offers the same operations; only the
/// address computation differs. It is created by
/// [`Reg::into_dyn`](crate::Reg::into_dyn) or directly from a base address.
pub struct DynReg<R: Register> {
    base: usize,
    _reg: core::marker::PhantomData<R>,
}

impl<R: Register> DynReg<R> {
    /// The base address of the chosen peripheral instance.
    pub closed spec fn base_spec(self) -> usize {
        self.base
    }

    /// The register's address stays within the address space.
    ///
    /// This is an obligation on the base address the handle was built from;
    /// it is required wherever the address is computed.
    pub open spec fn addr_fits(self) -> bool {
        self.base_spec() + R::offset_spec() <= usize::MAX
    }

    /// Build the handle for the peripheral instance at the given base
    /// address.
    ///
    /// The base address must be the one of a declared instance of the
    /// register's peripheral: valid, accessible, memory-mapped I/O for the
    /// whole program's duration.
    pub fn new(base: usize) -> (r: DynReg<R>)
        ensures
            r.base_spec() == base,
    {
        DynReg { base, _reg: core::marker::PhantomData }
    }

    /// The register's address: the instance's base plus the register's
    /// offset.
    pub fn ptr(&self) -> (r: usize)
        requires
            self.addr_fits(),
        ensures
            r == self.base_spec() + R::offset_spec(),
    {
        self.base + R::offset()
    }

    /// The register's address, for a store.
    pub fn ptr_mut(&mut self) -> (r: usize)
        requires
            old(self).addr_fits(),
        ensures
            r == old(self).base_spec() + R::offset_spec(),
            final(self).base_spec() == old(self).base_spec(),
    {
        self.base + R::offset()
    }
}

impl<R: Register> DynReg<R> {
    /// The accessor's diagnostic description: the register's name and the
    /// resolved address in hexadecimal.
    pub fn describe(&self) -> (r: String)
        requires
            self.addr_fits(),
        ensures
            r@ == "DynReg "@ + R::name_spec()@ + " @ 0x"@ + crate::text::hex_seq(
                (self.base_spec() + R::offset_spec()) as u128,
                16,
            ),
    {
        crate::text::describe_dynreg(R::name(), self.ptr())
    }
}

impl<R: ReadRegister> DynReg<R> {
    /// Read the current value of this register: one volatile load.
    ///
    /// The returned bits are whatever the hardware held; nothing more is
    /// promised of them.
    pub fn read(&self) -> Value<<R as Register>::Value>
        requires
            self.addr_fits(),
    {
        Value::from_raw(R::read_raw(self.ptr()))
    }

    /// Read the given field of this register, decoded to the field's type.
    pub fn field<T: FieldType>(&self, field: Field<<R as Register>::Value, T>) -> Result<
        T,
        InvalidValue,
    >
        requires
            self.addr_fits(),
            field.wf(),
    {
        self.read().field(field)
    }

    /// Read the given fields of this register.
    ///
    /// Whatever the hardware held, the result carries exactly the given
    /// mask and capability, and its bits lie within the mask.
    pub fn fields(&self, fields: Fields<<R as Register>::Value>) -> (r: FieldValues<
        <R as Register>::Value,
    >)
        requires
            self.addr_fits(),
        ensures
            r.mask_spec() == fields.mask_spec(),
            r.can_toggle() == fields.can_toggle(),
            r.wf(),
    {
        self.read().and(fields)
    }

    /// Test the given fields of this register against the given values.
    pub fn test(&self, bits: FieldValues<<R as Register>::Value>) -> bool
        requires
            self.addr_fits(),
    {
        self.read().test(bits)
    }
}

impl<R: WriteRegister> DynReg<R> {
    /// Write a value to this register: one volatile store.
    pub fn write(&mut self, value: Value<<R as Register>::Value>)
        requires
            old(self).addr_fits(),
        ensures
            final(self).base_spec() == old(self).base_spec(),
    {
        let addr = self.ptr_mut();
        R::write_raw(addr, value.value())
    }

    /// Write the register's reset pattern back to it.
    pub fn reset(&mut self)
        requires
            old(self).addr_fits(),
        ensures
            final(self).base_spec() == old(self).base_spec(),
    {
        self.write(Value::reset())
    }
}

impl<R: ReadRegister + WriteRegister> DynReg<R> {
    /// Set the given field values, keeping every other bit.
    ///
    /// One load, the merge of [`Value::or`], one store; not atomic.
    pub fn modify(&mut self, bits: FieldValues<<R as Register>::Value>)
        requires
            old(self).addr_fits(),
        ensures
            final(self).base_spec() == old(self).base_spec(),
    {
        let value = self.read().or(bits);
        self.write(value)
    }

    /// Flip the bits of the given toggle-capable fields.
    ///
    /// One load, the flip of [`Value::xor`], one store; not atomic.
    pub fn toggle(&mut self, fields: Fields<<R as Register>::Value>)
        requires
            old(self).addr_fits(),
            fields.can_toggle(),
        ensures
            final(self).base_spec() == old(self).base_spec(),
    {
        let value = self.read().xor(fields);
        self.write(value)
    }
}

impl<R: Register> Clone for DynReg<R> {
    fn clone(&self) -> (r: DynReg<R>)
        ensures
            r.base_spec() == self.base_spec(),
    {
        DynReg { base: self.base, _reg: core::marker::PhantomData }
    }
}

impl<R: Register> Copy for DynReg<R> {

}

} // verus!
