//! Type-safe access to memory-mapped hardware registers.
//!
//! This crate is the register-value algebra of a peripheral access layer:
//! the types that represent a register's raw bit pattern ([`Value`]), its
//! individual bit-fields ([`Field`]), sets of field positions ([`Fields`])
//! and partial updates ([`FieldValues`]), together with the accessors that
//! bind a register to an address ([`Reg`], [`DynReg`]).
//!
//! A register block is described by marker types implementing the descriptor
//! traits ([`Peripheral`], [`Register`], [`RegisterValue`], [`FieldType`]);
//! the [`example`] module shows a complete sample. The phantom type
//! parameters tie every field and value to one register, so values of
//! unrelated registers cannot be mixed: such misuse fails to compile.
//!
//! Partial updates compose: fields combine into sets with
//! [`Field::or_field`], a set extracts concrete bits from a value with
//! [`Value::and`], and field values merge into a value with [`Value::or`].
//! Each set carries a capability telling whether all its fields may be
//! safely inverted; toggling ([`Value::xor`], [`Reg::toggle`]) is only
//! verified for toggle-capable sets. The laws the algebra obeys are stated
//! on the operations themselves and in [`lemma_or_extracted_identity`],
//! [`lemma_toggle_twice`] and [`lemma_written_field_reads_back`].

mod descriptor;
mod dynreg;
pub mod example;
mod field;
mod field_values;
mod fields;
mod laws;
mod reg;
pub mod text;
mod value;
mod width;

pub use descriptor::FieldType;
pub use descriptor::InvalidValue;
pub use descriptor::Peripheral;
pub use descriptor::ReadRegister;
pub use descriptor::Register;
pub use descriptor::RegisterValue;
pub use descriptor::WriteRegister;
pub use dynreg::DynReg;
pub use field::Field;
pub use field::mask_shape;
pub use field_values::FieldValues;
pub use fields::Fields;
pub use laws::lemma_or_extracted_identity;
pub use laws::lemma_toggle_twice;
pub use laws::lemma_written_field_reads_back;
pub use reg::Reg;
pub use value::Value;
pub use value::set_bits;
pub use width::Int;
