//! Verified building blocks for diagnostic text.

use vstd::prelude::*;

verus! {

broadcast use vstd::string::group_string_axioms;

/// The characters of the given text, in order.
pub fn str_chars(s: &str) -> (r: Vec<char>)
    ensures
        r@ == s@,
{
    let mut r: Vec<char> = Vec::new();
    for c in it: s.chars()
        invariant
            it.seq() == s@,
            r@ == s@.subrange(0, it.index()),
    {
        r.push(c);
    }
    proof {
        assert(r@ =~= s@);
    }
    r
}

/// The hexadecimal digit character for a nibble.
pub open spec fn hex_digit(nibble: u128) -> char {
    if nibble == 0 {
        '0'
    } else if nibble == 1 {
        '1'
    } else if nibble == 2 {
        '2'
    } else if nibble == 3 {
        '3'
    } else if nibble == 4 {
        '4'
    } else if nibble == 5 {
        '5'
    } else if nibble == 6 {
        '6'
    } else if nibble == 7 {
        '7'
    } else if nibble == 8 {
        '8'
    } else if nibble == 9 {
        '9'
    } else if nibble == 10 {
        'a'
    } else if nibble == 11 {
        'b'
    } else if nibble == 12 {
        'c'
    } else if nibble == 13 {
        'd'
    } else if nibble == 14 {
        'e'
    } else {
        'f'
    }
}

/// The hexadecimal digits of the value's low `digits * 4` bits, most
/// significant digit first.
pub open spec fn hex_seq(value: u128, digits: nat) -> Seq<char>
    decreases digits,
{
    if digits == 0 {
        Seq::empty()
    } else {
        hex_seq(value >> 4, (digits - 1) as nat).push(hex_digit(value & 0xf))
    }
}

/// The hexadecimal digit character for a value below sixteen.
fn nibble_char(nibble: u128) -> (r: char)
    requires
        nibble < 16,
    ensures
        r == hex_digit(nibble),
{
    if nibble == 0 {
        '0'
    } else if nibble == 1 {
        '1'
    } else if nibble == 2 {
        '2'
    } else if nibble == 3 {
        '3'
    } else if nibble == 4 {
        '4'
    } else if nibble == 5 {
        '5'
    } else if nibble == 6 {
        '6'
    } else if nibble == 7 {
        '7'
    } else if nibble == 8 {
        '8'
    } else if nibble == 9 {
        '9'
    } else if nibble == 10 {
        'a'
    } else if nibble == 11 {
        'b'
    } else if nibble == 12 {
        'c'
    } else if nibble == 13 {
        'd'
    } else if nibble == 14 {
        'e'
    } else {
        'f'
    }
}

/// The hexadecimal digits of the value's low `digits * 4` bits, most
/// significant digit first, zero-padded to the asked width.
pub fn hex_chars(value: u128, digits: usize) -> (r: Vec<char>)
    ensures
        r@ == hex_seq(value, digits as nat),
    decreases digits,
{
    if digits == 0 {
        Vec::new()
    } else {
        let mut r = hex_chars(value >> 4, digits - 1);
        proof {
            assert((value & 0xf) < 16) by (bit_vector);
        }
        r.push(nibble_char(value & 0xf));
        r
    }
}

/// Relies on String implementing FromIterator over chars: collecting the
/// characters yields the string of exactly those characters.
#[verifier::external_body]
fn string_from_chars(chars: Vec<char>) -> (r: String)
    ensures
        r@ == chars@,
{
    chars.into_iter().collect()
}

/// The string of the given pieces: the label, the name within angle
/// brackets, and the hexadecimal digits within brackets.
pub(crate) fn describe_tagged(label: &str, name: &str, value: u128, digits: usize) -> (r:
    String)
    ensures
        r@ == label@ + "<"@ + name@ + ">(0x"@ + hex_seq(value, digits as nat) + ")"@,
{
    let mut chars = str_chars(label);
    let mut part = str_chars("<");
    chars.append(&mut part);
    let mut part = str_chars(name);
    chars.append(&mut part);
    let mut part = str_chars(">(0x");
    chars.append(&mut part);
    let mut part = hex_chars(value, digits);
    chars.append(&mut part);
    let mut part = str_chars(")");
    chars.append(&mut part);
    string_from_chars(chars)
}

/// The description of a statically bound register: both names and the
/// resolved address, sixteen hexadecimal digits wide.
pub(crate) fn describe_reg(periph: &str, reg: &str, addr: usize) -> (r: String)
    ensures
        r@ == "Reg "@ + periph@ + "."@ + reg@ + " @ 0x"@ + hex_seq(addr as u128, 16),
{
    let mut chars = str_chars("Reg ");
    let mut part = str_chars(periph);
    chars.append(&mut part);
    let mut part = str_chars(".");
    chars.append(&mut part);
    let mut part = str_chars(reg);
    chars.append(&mut part);
    let mut part = str_chars(" @ 0x");
    chars.append(&mut part);
    let mut part = hex_chars(addr as u128, 16);
    chars.append(&mut part);
    string_from_chars(chars)
}

/// The description of a runtime-bound register: the register's name and the
/// resolved address, sixteen hexadecimal digits wide.
pub(crate) fn describe_dynreg(reg: &str, addr: usize) -> (r: String)
    ensures
        r@ == "DynReg "@ + reg@ + " @ 0x"@ + hex_seq(addr as u128, 16),
{
    let mut chars = str_chars("DynReg ");
    let mut part = str_chars(reg);
    chars.append(&mut part);
    let mut part = str_chars(" @ 0x");
    chars.append(&mut part);
    let mut part = hex_chars(addr as u128, 16);
    chars.append(&mut part);
    string_from_chars(chars)
}

} // verus!
