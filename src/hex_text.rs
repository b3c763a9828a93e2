use vstd::prelude::*;

verus! {

/// An ASCII hexadecimal digit, in either case.
pub open spec fn is_hex_digit(c: char) -> bool {
    ('0' <= c && c <= '9') || ('a' <= c && c <= 'f') || ('A' <= c && c <= 'F')
}

/// A lower-case ASCII hexadecimal digit.
pub open spec fn is_lower_hex_digit(c: char) -> bool {
    ('0' <= c && c <= '9') || ('a' <= c && c <= 'f')
}

/// The value of one hexadecimal digit.
pub open spec fn hex_digit_value(c: char) -> int {
    if '0' <= c && c <= '9' {
        c as int - '0' as int
    } else if 'a' <= c && c <= 'f' {
        c as int - 'a' as int + 10
    } else {
        c as int - 'A' as int + 10
    }
}

/// The text without a leading `0x` or `0X`, if it has one.
pub open spec fn strip_hex_prefix(s: Seq<char>) -> Seq<char> {
    if s.len() >= 2 && s[0] == '0' && (s[1] == 'x' || s[1] == 'X') {
        s.skip(2)
    } else {
        s
    }
}

/// Text that decodes to exactly `n` bytes: an optional `0x` / `0X` prefix and
/// then `2 * n` hexadecimal digits.
pub open spec fn is_hex_bytes_text(s: Seq<char>, n: nat) -> bool {
    let body = strip_hex_prefix(s);
    &&& body.len() == 2 * n
    &&& forall|i: int| 0 <= i < body.len() ==> is_hex_digit(#[trigger] body[i])
}

/// The big-endian value of a run of hexadecimal digits.
pub open spec fn hex_value(s: Seq<char>) -> nat
    decreases s.len(),
{
    if s.len() == 0 {
        0
    } else {
        (hex_value(s.drop_last()) * 16 + hex_digit_value(s.last())) as nat
    }
}

/// The bytes that a run of hexadecimal digits encodes, two digits to a byte,
/// the high nibble first.
pub open spec fn hex_bytes(s: Seq<char>) -> Seq<u8>
    decreases s.len(),
{
    if s.len() < 2 {
        Seq::empty()
    } else {
        seq![(hex_digit_value(s[0]) * 16 + hex_digit_value(s[1])) as u8] + hex_bytes(s.skip(2))
    }
}

/// The order of the secp256k1 group: a secret scalar must lie below it.
pub open spec fn secp256k1_order() -> nat {
    let two_64: nat = 0x1_0000_0000_0000_0000;
    0xFFFF_FFFF_FFFF_FFFF_FFFF_FFFF_FFFF_FFFE * (two_64 * two_64)
        + 0xBAAE_DCE6_AF48_A03B_BFD2_5E8C_D036_4141
}

/// Text accepted as an account address: twenty bytes in hexadecimal.
pub open spec fn is_address_text(s: Seq<char>) -> bool {
    is_hex_bytes_text(s, 20)
}

/// Text accepted as a secp256k1 signing key: thirty-two bytes in hexadecimal
/// whose big-endian value is a non-zero scalar below the group order.
pub open spec fn is_signing_key_text(s: Seq<char>) -> bool {
    &&& is_hex_bytes_text(s, 32)
    &&& 0 < hex_value(strip_hex_prefix(s))
    &&& hex_value(strip_hex_prefix(s)) < secp256k1_order()
}

/// The form in which a wallet address is rendered: `0x` and forty lower-case
/// hexadecimal digits.
pub open spec fn is_rendered_address(s: Seq<char>) -> bool {
    &&& s.len() == 42
    &&& s[0] == '0'
    &&& s[1] == 'x'
    &&& forall|i: int| 2 <= i < 42 ==> is_lower_hex_digit(#[trigger] s[i])
}

/// A rendered wallet address is accepted back as an account address.
pub proof fn lemma_rendered_address_is_address(s: Seq<char>)
    requires
        is_rendered_address(s),
    ensures
        is_address_text(s),
{
    let body = strip_hex_prefix(s);
    assert(body =~= s.skip(2));
    assert forall|i: int| 0 <= i < body.len() implies is_hex_digit(#[trigger] body[i]) by {
        assert(body[i] == s[i + 2]);
    }
}

} // verus!
