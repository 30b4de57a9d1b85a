//! A 128-bit identifier held as a plain integer, with a verified rendering
//! into the canonical hyphenated lowercase-hexadecimal form
//! (8-4-4-4-12 digit groups).

use vstd::prelude::*;

verus! {

/// Divisor that drops the 24 least significant hexadecimal digits.
pub const HEX_SHIFT_24: u128 = 0x1_0000_0000_0000_0000_0000_0000;

/// Divisor that drops the 20 least significant hexadecimal digits.
pub const HEX_SHIFT_20: u128 = 0x1_0000_0000_0000_0000_0000;

/// Divisor that drops the 16 least significant hexadecimal digits.
pub const HEX_SHIFT_16: u128 = 0x1_0000_0000_0000_0000;

/// Divisor that drops the 12 least significant hexadecimal digits.
pub const HEX_SHIFT_12: u128 = 0x1_0000_0000_0000;

/// A universally unique identifier, as a plain 128-bit integer.
#[derive(Clone, Copy, Debug, PartialEq, Eq, Hash, Structural)]
pub struct Uuid {
    pub value: u128,
}

/// The lowercase hexadecimal digit for a value below 16.
pub open spec fn hex_digit_char(d: int) -> char {
    if d < 10 {
        ((48 + d) as u8) as char
    } else {
        ((87 + d) as u8) as char
    }
}

/// The last `n` hexadecimal digits of `v`, most significant first.
pub open spec fn hex_chars(v: nat, n: nat) -> Seq<char>
    decreases n,
{
    if n == 0 {
        Seq::empty()
    } else {
        hex_chars(v / 16, (n - 1) as nat).push(hex_digit_char((v % 16) as int))
    }
}

/// The canonical hyphenated lowercase-hexadecimal form of a 128-bit
/// identifier: five digit groups of sizes 8, 4, 4, 4 and 12.
pub open spec fn uuid_chars(v: u128) -> Seq<char> {
    hex_chars((v / HEX_SHIFT_24) as nat, 8) + seq!['-'] + hex_chars((v / HEX_SHIFT_20) as nat, 4)
        + seq!['-'] + hex_chars((v / HEX_SHIFT_16) as nat, 4) + seq!['-'] + hex_chars(
        (v / HEX_SHIFT_12) as nat,
        4,
    ) + seq!['-'] + hex_chars(v as nat, 12)
}

/// Appends exactly one character at the end of a string.
///
/// Relies on `String::push`.
#[verifier::external_body]
pub(crate) fn push_char(s: &mut String, c: char)
    ensures
        final(s)@ == old(s)@.push(c),
{
    s.push(c);
}

/// The lowercase hexadecimal digit for a value below 16.
pub(crate) fn hex_digit(d: u8) -> (c: char)
    requires
        d < 16,
    ensures
        c == hex_digit_char(d as int),
{
    if d < 10 {
        (48 + d) as char
    } else {
        (87 + d) as char
    }
}

/// Appends the last `n` hexadecimal digits of `v`, most significant first.
fn push_hex(out: &mut String, v: u128, n: usize)
    ensures
        final(out)@ == old(out)@ + hex_chars(v as nat, n as nat),
    decreases n,
{
    if n == 0 {
        assert(out@ =~= out@ + hex_chars(v as nat, 0));
    } else {
        push_hex(out, v / 16, n - 1);
        let c: char = hex_digit((v % 16) as u8);
        push_char(out, c);
        assert(out@ =~= old(out)@ + hex_chars(v as nat, n as nat));
    }
}

impl Uuid {
    /// Renders the identifier in its canonical hyphenated lowercase form.
    pub fn to_hyphenated_string(&self) -> (r: String)
        ensures
            r@ == uuid_chars(self.value),
    {
        let mut out = String::new();
        push_hex(&mut out, self.value / HEX_SHIFT_24, 8);
        push_char(&mut out, '-');
        push_hex(&mut out, self.value / HEX_SHIFT_20, 4);
        push_char(&mut out, '-');
        push_hex(&mut out, self.value / HEX_SHIFT_16, 4);
        push_char(&mut out, '-');
        push_hex(&mut out, self.value / HEX_SHIFT_12, 4);
        push_char(&mut out, '-');
        push_hex(&mut out, self.value, 12);
        assert(out@ =~= uuid_chars(self.value));
        out
    }
}

} // verus!
