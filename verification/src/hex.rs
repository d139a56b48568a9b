use vstd::prelude::*;

verus! {

/// Declares the decoding error of `prefix_hex` so that it can be carried through.
#[verifier::external_type_specification]
#[verifier::external_body]
pub struct ExPrefixHexError(prefix_hex::Error);

/// A character that `hex` accepts as one digit (either case).
pub open spec fn is_hex_digit(c: char) -> bool {
    ||| (48 <= c as u32 && c as u32 <= 57)
    ||| (97 <= c as u32 && c as u32 <= 102)
    ||| (65 <= c as u32 && c as u32 <= 70)
}

/// The value of one hexadecimal digit.
pub open spec fn hex_digit_value(c: char) -> nat {
    if 48 <= c as u32 && c as u32 <= 57 {
        (c as u32 - 48) as nat
    } else if 97 <= c as u32 && c as u32 <= 102 {
        (c as u32 - 87) as nat
    } else {
        (c as u32 - 55) as nat
    }
}

pub open spec fn all_hex_digits(s: Seq<char>) -> bool {
    forall|i: int| 0 <= i < s.len() ==> is_hex_digit(#[trigger] s[i])
}

/// The string starts with the two characters `0x`.
pub open spec fn has_hex_prefix(s: Seq<char>) -> bool {
    s.len() >= 2 && s[0] == '0' && s[1] == 'x'
}

/// `prefix_hex` panics on a string of one character that takes more than one
/// byte: it passes the byte-length check and then has no second character.
pub open spec fn hex_decodable(s: Seq<char>) -> bool {
    !(s.len() == 1 && s[0] as u32 >= 0x80)
}

/// The bytes that pairs of hexadecimal digits stand for, high digit first.
pub open spec fn hex_pairs(d: Seq<char>) -> Seq<u8> {
    Seq::new(
        d.len() / 2,
        |i: int| (hex_digit_value(d[2 * i]) * 16 + hex_digit_value(d[2 * i + 1])) as u8,
    )
}

/// What `prefix_hex::decode` gives for a byte vector: `0x`, then an even
/// number of hexadecimal digits.
pub open spec fn prefixed_hex_bytes(s: Seq<char>) -> Option<Seq<u8>> {
    let d = s.skip(2);
    if has_hex_prefix(s) && all_hex_digits(d) && d.len() % 2 == 0 {
        Some(hex_pairs(d))
    } else {
        None
    }
}

/// What `prefix_hex::decode` gives for a byte array of length `n`.
pub open spec fn prefixed_hex_array(s: Seq<char>, n: nat) -> Option<Seq<u8>> {
    match prefixed_hex_bytes(s) {
        Some(b) => if b.len() == n { Some(b) } else { None },
        None => None,
    }
}

/// The number that a string of hexadecimal digits denotes.
pub open spec fn hex_number(d: Seq<char>) -> nat
    decreases d.len(),
{
    if d.len() == 0 {
        0
    } else {
        hex_number(d.drop_last()) * 16 + hex_digit_value(d.last())
    }
}

/// The digits left once `prefix_hex` has taken `0x` off and the 256-bit
/// parser of `uint` has taken off a second `0x`, if there is one.
pub open spec fn u256_digits(s: Seq<char>) -> Seq<char> {
    let d = s.skip(2);
    if has_hex_prefix(d) {
        d.skip(2)
    } else {
        d
    }
}

/// What `prefix_hex::decode` gives for a 256-bit integer: `0x`, at least one
/// more character, and at most 64 hexadecimal digits.
pub open spec fn prefixed_hex_u256(s: Seq<char>) -> Option<nat> {
    let e = u256_digits(s);
    if has_hex_prefix(s) && s.len() > 2 && e.len() <= 64 && all_hex_digits(e) {
        Some(hex_number(e))
    } else {
        None
    }
}

/// The number that four little-endian 64-bit limbs stand for.
pub open spec fn limbs_value(l: [u64; 4]) -> nat {
    (l[0] as nat) + (l[1] as nat) * 0x1_0000_0000_0000_0000 + (l[2] as nat)
        * 0x1_0000_0000_0000_0000_0000_0000_0000_0000 + (l[3] as nat)
        * 0x1_0000_0000_0000_0000_0000_0000_0000_0000_0000_0000_0000_0000
}

/// Calls `prefix_hex::decode` into a `Vec<u8>`. Its source strips `0x` (or
/// fails) and hands the rest to `hex::decode`, which fails on an odd length
/// or a non-hexadecimal byte and otherwise turns each pair of digits into a
/// byte. A string of one character that takes more than one byte makes the
/// prefix check panic; `requires` leaves it out, here and in the other
/// decoders.
#[verifier::external_body]
pub(crate) fn decode_hex_vec(hex: &str) -> (r: Result<Vec<u8>, prefix_hex::Error>)
    requires
        hex_decodable(hex@),
    ensures
        match r {
            Ok(v) => prefixed_hex_bytes(hex@) == Some(v@),
            Err(_) => prefixed_hex_bytes(hex@) is None,
        },
{
    prefix_hex::decode::<Vec<u8>>(hex)
}

/// Calls `prefix_hex::decode` into a `[u8; 32]`. Its source strips `0x` and
/// uses `hex::decode_to_slice`, which also fails unless there are exactly
/// 64 digits.
#[verifier::external_body]
pub(crate) fn decode_hex_32(hex: &str) -> (r: Result<[u8; 32], prefix_hex::Error>)
    requires
        hex_decodable(hex@),
    ensures
        match r {
            Ok(v) => prefixed_hex_array(hex@, 32) == Some(v@),
            Err(_) => prefixed_hex_array(hex@, 32) is None,
        },
{
    prefix_hex::decode::<[u8; 32]>(hex)
}

/// Calls `prefix_hex::decode` into a `[u8; 38]`, as `decode_hex_32` does
/// for 32 bytes.
#[verifier::external_body]
pub(crate) fn decode_hex_38(hex: &str) -> (r: Result<[u8; 38], prefix_hex::Error>)
    requires
        hex_decodable(hex@),
    ensures
        match r {
            Ok(v) => prefixed_hex_array(hex@, 38) == Some(v@),
            Err(_) => prefixed_hex_array(hex@, 38) is None,
        },
{
    prefix_hex::decode::<[u8; 38]>(hex)
}

/// Calls `prefix_hex::decode` into a `primitive_types::U256` and hands back
/// its four little-endian limbs. Its source strips `0x`, fails on an empty
/// rest, and calls `U256::from_str_radix(_, 16)`, which strips one more
/// optional `0x`, fails on more than 64 digits or a non-hexadecimal byte, and
/// otherwise reads the digits as a big-endian number.
#[verifier::external_body]
pub(crate) fn decode_hex_u256(hex: &str) -> (r: Result<[u64; 4], prefix_hex::Error>)
    requires
        hex_decodable(hex@),
    ensures
        match r {
            Ok(l) => prefixed_hex_u256(hex@) == Some(limbs_value(l)),
            Err(_) => prefixed_hex_u256(hex@) is None,
        },
{
    prefix_hex::decode::<primitive_types::U256>(hex).map(|v| v.0)
}

/// Tests whether the hex decoders may be called on a string.
pub fn is_hex_decodable(s: &str) -> (r: bool)
    ensures
        r == hex_decodable(s@),
{
    !(s.unicode_len() == 1 && s.get_char(0) as u32 >= 0x80)
}

/// Four limbs are all zero exactly when the number they stand for is zero.
pub proof fn lemma_limbs_zero(l: [u64; 4])
    ensures
        (limbs_value(l) == 0) == (l[0] == 0 && l[1] == 0 && l[2] == 0 && l[3] == 0),
{
    assert((l[1] as nat) * 0x1_0000_0000_0000_0000 >= 0) by (nonlinear_arith);
    assert((l[2] as nat) * 0x1_0000_0000_0000_0000_0000_0000_0000_0000 >= 0) by (nonlinear_arith);
    assert((l[3] as nat) * 0x1_0000_0000_0000_0000_0000_0000_0000_0000_0000_0000_0000_0000 >= 0)
        by (nonlinear_arith);
    if l[1] != 0 {
        assert((l[1] as nat) * 0x1_0000_0000_0000_0000 > 0) by (nonlinear_arith)
            requires l[1] != 0;
    }
    if l[2] != 0 {
        assert((l[2] as nat) * 0x1_0000_0000_0000_0000_0000_0000_0000_0000 > 0) by (nonlinear_arith)
            requires l[2] != 0;
    }
    if l[3] != 0 {
        assert((l[3] as nat) * 0x1_0000_0000_0000_0000_0000_0000_0000_0000_0000_0000_0000_0000 > 0)
            by (nonlinear_arith)
            requires l[3] != 0;
    }
}

} // verus!
