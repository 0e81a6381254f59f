//! Byte-level rules for identifiers and SHA-256 digests.
use vstd::prelude::*;
use vstd::string::StringSliceAdditionalSpecFns;

verus! {

/// An ASCII letter, an ASCII digit, `-` or `_`.
pub open spec fn is_identifier_byte(b: u8) -> bool {
    (48 <= b <= 57) || (65 <= b <= 90) || (97 <= b <= 122) || b == 45 || b == 95
}

/// An ASCII hexadecimal digit, either case.
pub open spec fn is_hex_byte(b: u8) -> bool {
    (48 <= b <= 57) || (65 <= b <= 70) || (97 <= b <= 102)
}

/// One to 128 bytes, each a letter, a digit, a hyphen or an underscore.
pub open spec fn identifier_bytes(bytes: Seq<u8>) -> bool {
    &&& 0 < bytes.len() <= 128
    &&& forall|i: int| 0 <= i < bytes.len() ==> is_identifier_byte(#[trigger] bytes[i])
}

/// Exactly 64 hexadecimal digits.
pub open spec fn sha256_bytes(bytes: Seq<u8>) -> bool {
    &&& bytes.len() == 64
    &&& forall|i: int| 0 <= i < bytes.len() ==> is_hex_byte(#[trigger] bytes[i])
}

fn identifier_byte(b: u8) -> (ok: bool)
    ensures
        ok == is_identifier_byte(b),
{
    (48u8 <= b && b <= 57u8) || (65u8 <= b && b <= 90u8) || (97u8 <= b && b <= 122u8) || b == 45u8
        || b == 95u8
}

fn hex_byte(b: u8) -> (ok: bool)
    ensures
        ok == is_hex_byte(b),
{
    (48u8 <= b && b <= 57u8) || (65u8 <= b && b <= 70u8) || (97u8 <= b && b <= 102u8)
}

/// Whether `value` is a session identifier: 1 to 128 ASCII letters, digits,
/// hyphens or underscores.
pub fn is_identifier(value: &str) -> (ok: bool)
    ensures
        ok == identifier_bytes(value.spec_bytes()),
{
    let bytes = value.as_bytes();
    if bytes.len() == 0 || bytes.len() > 128 {
        return false;
    }
    let mut i: usize = 0;
    while i < bytes.len()
        invariant
            bytes@ == value.spec_bytes(),
            0 < bytes@.len() <= 128,
            0 <= i <= bytes@.len(),
            forall|k: int| 0 <= k < i ==> is_identifier_byte(#[trigger] bytes@[k]),
        decreases bytes@.len() - i,
    {
        if !identifier_byte(bytes[i]) {
            return false;
        }
        i = i + 1;
    }
    true
}

/// Whether `value` is a SHA-256 digest written as 64 hexadecimal digits.
pub fn is_sha256(value: &str) -> (ok: bool)
    ensures
        ok == sha256_bytes(value.spec_bytes()),
{
    let bytes = value.as_bytes();
    if bytes.len() != 64 {
        return false;
    }
    let mut i: usize = 0;
    while i < bytes.len()
        invariant
            bytes@ == value.spec_bytes(),
            bytes@.len() == 64,
            0 <= i <= bytes@.len(),
            forall|k: int| 0 <= k < i ==> is_hex_byte(#[trigger] bytes@[k]),
        decreases bytes@.len() - i,
    {
        if !hex_byte(bytes[i]) {
            return false;
        }
        i = i + 1;
    }
    true
}

} // verus!
