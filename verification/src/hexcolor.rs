//! Hex color strings: each palette color is reported as `#rrggbb` with
//! lower-case hex digits.

use vstd::prelude::*;

verus! {

/// The lower-case hex digit for a value in `[0, 16)`.
pub open spec fn hex_digit(n: int) -> char
    recommends
        0 <= n < 16,
{
    if n == 0 { '0' } else if n == 1 { '1' } else if n == 2 { '2' } else if n == 3 { '3' }
    else if n == 4 { '4' } else if n == 5 { '5' } else if n == 6 { '6' } else if n == 7 { '7' }
    else if n == 8 { '8' } else if n == 9 { '9' } else if n == 10 { 'a' } else if n == 11 { 'b' }
    else if n == 12 { 'c' } else if n == 13 { 'd' } else if n == 14 { 'e' } else { 'f' }
}

/// The two lower-case hex digits of one byte, high nibble first.
pub open spec fn hex_byte(b: u8) -> Seq<char> {
    seq![hex_digit(b as int / 16), hex_digit(b as int % 16)]
}

/// The lower-case hex encoding of a byte sequence, two digits per byte,
/// in order.
pub open spec fn hex_seq(s: Seq<u8>) -> Seq<char>
    decreases s.len(),
{
    if s.len() == 0 {
        Seq::empty()
    } else {
        hex_byte(s[0]) + hex_seq(s.drop_first())
    }
}

/// Relies on `hex::encode`: it returns the lower-case hex encoding of the
/// input, two digits per byte (high nibble first), in input order.
#[verifier::external_body]
fn hex_encode_bytes(bytes: &Vec<u8>) -> (r: String)
    ensures
        r@ == hex_seq(bytes@),
{
    hex::encode(bytes.as_slice())
}

/// The `#rrggbb` rendering of an RGB triple.
pub open spec fn hex_color_seq(r: u8, g: u8, b: u8) -> Seq<char> {
    seq!['#'] + hex_byte(r) + hex_byte(g) + hex_byte(b)
}

/// Renders an RGB triple as a `#rrggbb` string with lower-case hex digits.
pub fn hex_color(r: u8, g: u8, b: u8) -> (s: String)
    ensures
        s@ == hex_color_seq(r, g, b),
{
    let mut bytes: Vec<u8> = Vec::new();
    bytes.push(r);
    bytes.push(g);
    bytes.push(b);
    let digits = hex_encode_bytes(&bytes);
    proof {
        reveal_strlit("#");
        assert(bytes@ =~= seq![r, g, b]);
        assert(seq![r, g, b].drop_first() =~= seq![g, b]);
        assert(seq![g, b].drop_first() =~= seq![b]);
        assert(seq![b].drop_first() =~= Seq::<u8>::empty());
        assert(hex_seq(Seq::<u8>::empty()) =~= Seq::<char>::empty());
        assert(hex_seq(seq![b]) =~= hex_byte(b));
        assert(hex_seq(seq![g, b]) =~= hex_byte(g) + hex_byte(b));
        assert(hex_seq(seq![r, g, b]) =~= hex_byte(r) + hex_byte(g) + hex_byte(b));
        assert(digits@ =~= hex_byte(r) + hex_byte(g) + hex_byte(b));
    }
    let mut s = String::from_str("#");
    s.append(digits.as_str());
    proof {
        assert(s@ =~= hex_color_seq(r, g, b));
    }
    s
}

} // verus!
