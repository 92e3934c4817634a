//! A set of bit positions of one register.

use vstd::prelude::*;
use crate::descriptor::RegisterValue;
use crate::width::Int;

verus! {

/// A set of bit positions belonging to one register, without values.
///
/// A `Fields` says which bits of a register are of interest. It is built from
/// [`Field`](crate::Field)s of the register and combined with [`Fields::or`],
/// [`Fields::and`] and [`Fields::xor`]. The type parameter ties it to one
/// register's value type, so sets of two different registers cannot be
/// combined.
///
/// A set carries a capability flag: it is toggle-capable when it was built
/// exclusively from fields that can be safely inverted. Only a toggle-capable
/// set may be used to toggle a [`Value`](crate::Value) or a register.
pub struct Fields<R: RegisterValue> {
    mask: <R as RegisterValue>::Int,
    toggle: bool,
}

impl<R: RegisterValue> Fields<R> {
    /// The set of bit positions, as a mask.
    pub closed spec fn mask_spec(self) -> u128 {
        self.mask.vw()
    }

    /// Whether every bit of the set may be safely inverted.
    pub closed spec fn can_toggle(self) -> bool {
        self.toggle
    }

    /// Build from a raw mask.
    ///
    /// The caller is responsible for the mask holding only bits of fields of
    /// the register, and for claiming `toggle` only when every one of those
    /// fields is safely invertible; a false claim makes a later toggle
    /// silently corrupt neighbouring fields.
    pub fn from_raw(mask: <R as RegisterValue>::Int, toggle: bool) -> (r: Fields<R>)
        ensures
            r.mask_spec() == mask.vw(),
            r.can_toggle() == toggle,
    {
        Fields { mask, toggle }
    }

    /// The set of bit positions, as a mask.
    pub fn mask(self) -> (r: <R as RegisterValue>::Int)
        ensures
            r.vw() == self.mask_spec(),
    {
        self.mask
    }

    /// Whether every bit of the set may be safely inverted.
    pub fn toggleable(self) -> (r: bool)
        ensures
            r == self.can_toggle(),
    {
        self.toggle
    }

    /// The bits in either set.
    ///
    /// The union is toggle-capable only if both operands are: it is safe to
    /// invert only if every bit in it individually is.
    pub fn or(self, other: Fields<R>) -> (r: Fields<R>)
        ensures
            r.mask_spec() == self.mask_spec() | other.mask_spec(),
            r.can_toggle() == (self.can_toggle() && other.can_toggle()),
    {
        Fields { mask: self.mask.or(other.mask), toggle: self.toggle && other.toggle }
    }

    /// The bits in both sets.
    ///
    /// The intersection is toggle-capable if either operand is: intersection
    /// serves reading and testing, not committing a toggle, so the rule is
    /// deliberately permissive.
    pub fn and(self, other: Fields<R>) -> (r: Fields<R>)
        ensures
            r.mask_spec() == self.mask_spec() & other.mask_spec(),
            r.can_toggle() == (self.can_toggle() || other.can_toggle()),
    {
        Fields { mask: self.mask.and(other.mask), toggle: self.toggle || other.toggle }
    }

    /// The bits in exactly one of the sets.
    ///
    /// The capability rule is the union's: the result is toggle-capable only
    /// if both operands are.
    pub fn xor(self, other: Fields<R>) -> (r: Fields<R>)
        ensures
            r.mask_spec() == self.mask_spec() ^ other.mask_spec(),
            r.can_toggle() == (self.can_toggle() && other.can_toggle()),
    {
        Fields { mask: self.mask.xor(other.mask), toggle: self.toggle && other.toggle }
    }
}

impl<R: RegisterValue> Clone for Fields<R> {
    fn clone(&self) -> (r: Fields<R>)
        ensures
            r.mask_spec() == self.mask_spec(),
            r.can_toggle() == self.can_toggle(),
    {
        Fields { mask: self.mask, toggle: self.toggle }
    }
}

impl<R: RegisterValue> Copy for Fields<R> {

}

/// The identity of [`Fields::or`]-folding: the empty set.
///
/// An empty set is trivially toggle-capable, so that folding a union over no
/// fields keeps the capability.
impl<R: RegisterValue> Default for Fields<R> {
    fn default() -> (r: Fields<R>)
        ensures
            r.mask_spec() == 0,
            r.can_toggle(),
    {
        Fields { mask: <R as RegisterValue>::Int::zero(), toggle: true }
    }
}

/// Two sets are equal when their masks are equal; the capability flag does
/// not take part in the comparison.
impl<R: RegisterValue> PartialEq for Fields<R> {
    fn eq(&self, other: &Fields<R>) -> (r: bool) {
        self.mask.eq_bits(other.mask)
    }
}

impl<R: RegisterValue> vstd::std_specs::cmp::PartialEqSpecImpl for Fields<R> {
    open spec fn obeys_eq_spec() -> bool {
        true
    }

    open spec fn eq_spec(&self, other: &Fields<R>) -> bool {
        self.mask_spec() == other.mask_spec()
    }
}

impl<R: RegisterValue> Eq for Fields<R> {

}

} // verus!
