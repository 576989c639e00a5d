//! Character-level helpers shared by invite codes, resume tokens and
//! diagnostics: ASCII classification, lowercase hex and string assembly.

use vstd::prelude::*;

verus! {

/// Whether two strings hold the same characters.
pub(crate) fn str_eq(a: &str, b: &str) -> (r: bool)
    ensures
        r == (a@ == b@),
{
    let a_len = vstd::string::StrSliceExecFns::unicode_len(a);
    let b_len = vstd::string::StrSliceExecFns::unicode_len(b);
    if a_len != b_len {
        return false;
    }
    let mut i: usize = 0;
    while i < a_len
        invariant
            a_len == a@.len(),
            b_len == b@.len(),
            a_len == b_len,
            i <= a_len,
            forall|j: int| 0 <= j < i ==> a@[j] == b@[j],
        decreases a_len - i,
    {
        if vstd::string::StrSliceExecFns::get_char(a, i) != vstd::string::StrSliceExecFns::get_char(b, i) {
            return false;
        }
        i = i + 1;
    }
    assert(a@ == b@);
    true
}

/// Builds a `String` from characters with `String::from_iter`.
#[verifier::external_body]
pub(crate) fn string_from_chars(chars: Vec<char>) -> (s: String)
    ensures
        s@ == chars@,
{
    String::from_iter(chars)
}

/// Lowercase hexadecimal digit of a nibble.
pub open spec fn hex_digit(n: u8) -> char {
    if n < 10 { (48 + n) as char } else { (87 + n) as char }
}

/// Two lowercase hex digits per byte, most significant nibble first.
pub open spec fn hex_of_bytes(bytes: Seq<u8>) -> Seq<char>
    decreases bytes.len(),
{
    if bytes.len() == 0 {
        Seq::empty()
    } else {
        let b = bytes.last();
        hex_of_bytes(bytes.drop_last()).push(hex_digit(b / 16)).push(hex_digit(b % 16))
    }
}

/// A lowercase hexadecimal digit.
pub open spec fn is_lower_hex_char(c: char) -> bool {
    ('0' <= c && c <= '9') || ('a' <= c && c <= 'f')
}

fn hex_digit_char(n: u8) -> (c: char)
    requires
        n < 16,
    ensures
        c == hex_digit(n),
        is_lower_hex_char(c),
{
    if n < 10 { (48 + n) as char } else { (87 + n) as char }
}

/// Every character of the hex form of `bytes` is a lowercase hex digit, and
/// there are two of them per byte.
pub proof fn lemma_hex_of_bytes_shape(bytes: Seq<u8>)
    ensures
        hex_of_bytes(bytes).len() == 2 * bytes.len(),
        forall|i: int| 0 <= i < hex_of_bytes(bytes).len() ==> is_lower_hex_char(#[trigger] hex_of_bytes(bytes)[i]),
    decreases bytes.len(),
{
    if bytes.len() > 0 {
        lemma_hex_of_bytes_shape(bytes.drop_last());
        let b = bytes.last();
        assert(b / 16 < 16);
        assert(is_lower_hex_char(hex_digit(b / 16)));
        assert(is_lower_hex_char(hex_digit(b % 16)));
    }
}

/// Appends the hex form of `bytes` to `out`.
pub(crate) fn push_hex(out: &mut Vec<char>, bytes: &[u8])
    ensures
        final(out)@ == old(out)@ + hex_of_bytes(bytes@),
{
    let mut i: usize = 0;
    while i < bytes.len()
        invariant
            i <= bytes@.len(),
            out@ == old(out)@ + hex_of_bytes(bytes@.subrange(0, i as int)),
        decreases bytes@.len() - i,
    {
        let b = bytes[i];
        proof {
            let next = bytes@.subrange(0, i + 1);
            assert(next.drop_last() == bytes@.subrange(0, i as int));
            assert(next.last() == b);
        }
        out.push(hex_digit_char(b / 16));
        out.push(hex_digit_char(b % 16));
        i = i + 1;
    }
    assert(bytes@.subrange(0, bytes@.len() as int) == bytes@);
}

/// Renders `bytes` as lowercase hexadecimal, two digits per byte.
pub fn lowercase_hex(bytes: &[u8]) -> (s: String)
    ensures
        s@ == hex_of_bytes(bytes@),
{
    let mut out: Vec<char> = Vec::new();
    push_hex(&mut out, bytes);
    assert(out@ == hex_of_bytes(bytes@));
    string_from_chars(out)
}

/// The sixteen bytes of `v`, most significant first.
pub open spec fn be_bytes_u128(v: u128) -> Seq<u8> {
    Seq::new(16, |i: int| ((v >> (8 * (15 - i)) as u128) & 0xffu128) as u8)
}

/// Splits `v` into its sixteen bytes, most significant first.
pub(crate) fn u128_to_be_bytes(v: u128) -> (bytes: Vec<u8>)
    ensures
        bytes@ == be_bytes_u128(v),
{
    let mut bytes: Vec<u8> = Vec::new();
    let mut i: usize = 0;
    while i < 16
        invariant
            i <= 16,
            bytes@.len() == i,
            forall|j: int| 0 <= j < i ==> bytes@[j] == be_bytes_u128(v)[j],
        decreases 16 - i,
    {
        let shift: u128 = (8 * (15 - i)) as u128;
        bytes.push(((v >> shift) & 0xff) as u8);
        i = i + 1;
    }
    assert(bytes@ == be_bytes_u128(v));
    bytes
}

} // verus!
