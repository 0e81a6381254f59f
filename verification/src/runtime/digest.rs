//! SHA-256 digests of file contents, written as lower-case hexadecimal.
use sha2::{Digest, Sha256};
use vstd::prelude::*;
use vstd::string::StringExecFns;

verus! {

/// The SHA-256 digest of `data`, as computed by the `sha2` crate.
pub uninterp spec fn sha256_digest(data: Seq<u8>) -> Seq<u8>;

/// `Sha256::digest` of the `sha2` crate, as a vector: named by
/// [`sha256_digest`], and 32 bytes long, the output size of SHA-256.
#[verifier::external_body]
fn sha256_of(data: &[u8]) -> (digest: Vec<u8>)
    ensures
        digest@ == sha256_digest(data@),
        digest@.len() == 32,
{
    Sha256::digest(data).to_vec()
}

/// The lower-case hexadecimal digit of `n`, which is below 16.
pub open spec fn hex_digit(n: int) -> char {
    if n == 0 {
        '0'
    } else if n == 1 {
        '1'
    } else if n == 2 {
        '2'
    } else if n == 3 {
        '3'
    } else if n == 4 {
        '4'
    } else if n == 5 {
        '5'
    } else if n == 6 {
        '6'
    } else if n == 7 {
        '7'
    } else if n == 8 {
        '8'
    } else if n == 9 {
        '9'
    } else if n == 10 {
        'a'
    } else if n == 11 {
        'b'
    } else if n == 12 {
        'c'
    } else if n == 13 {
        'd'
    } else if n == 14 {
        'e'
    } else {
        'f'
    }
}

/// `bytes` in lower-case hexadecimal, two digits per byte, high digit first.
pub open spec fn lower_hex(bytes: Seq<u8>) -> Seq<char>
    decreases bytes.len(),
{
    if bytes.len() == 0 {
        seq![]
    } else {
        seq![hex_digit(bytes[0] as int / 16), hex_digit(bytes[0] as int % 16)] + lower_hex(bytes.drop_first())
    }
}

/// The SHA-256 digest of `data` as 64 lower-case hexadecimal digits.
pub open spec fn sha256_text(data: Seq<u8>) -> Seq<char> {
    lower_hex(sha256_digest(data))
}

/// The hexadecimal digit of `n` as text.
fn hex_digit_text(n: u8) -> (text: &'static str)
    requires
        n < 16,
    ensures
        text@ == seq![hex_digit(n as int)],
{
    proof {
        reveal_strlit("0");
        reveal_strlit("1");
        reveal_strlit("2");
        reveal_strlit("3");
        reveal_strlit("4");
        reveal_strlit("5");
        reveal_strlit("6");
        reveal_strlit("7");
        reveal_strlit("8");
        reveal_strlit("9");
        reveal_strlit("a");
        reveal_strlit("b");
        reveal_strlit("c");
        reveal_strlit("d");
        reveal_strlit("e");
        reveal_strlit("f");
    }
    match n {
        0 => "0",
        1 => "1",
        2 => "2",
        3 => "3",
        4 => "4",
        5 => "5",
        6 => "6",
        7 => "7",
        8 => "8",
        9 => "9",
        10 => "a",
        11 => "b",
        12 => "c",
        13 => "d",
        14 => "e",
        _ => "f",
    }
}

/// Writes `bytes` in lower-case hexadecimal.
pub fn to_lower_hex(bytes: &[u8]) -> (text: String)
    ensures
        text@ == lower_hex(bytes@),
        text@.len() == 2 * bytes@.len(),
{
    let mut text = "".to_owned();
    proof {
        reveal_strlit("");
    }
    let ghost all = bytes@;
    assert(all.skip(0) =~= all);
    let mut i: usize = 0;
    while i < bytes.len()
        invariant
            all == bytes@,
            i <= all.len(),
            lower_hex(all) =~= text@ + lower_hex(all.skip(i as int)),
            text@.len() == 2 * i,
        decreases all.len() - i,
    {
        let byte = bytes[i];
        text.append(hex_digit_text(byte / 16));
        text.append(hex_digit_text(byte % 16));
        assert(all.skip(i as int).drop_first() =~= all.skip(i + 1));
        assert(all.skip(i as int)[0] == byte);
        i = i + 1;
    }
    assert(all.skip(i as int) =~= Seq::<u8>::empty());
    text
}

/// The SHA-256 digest of `data` in lower-case hexadecimal.
pub fn sha256_hex(data: &[u8]) -> (hex: String)
    ensures
        hex@ == sha256_text(data@),
        hex@.len() == 64,
{
    let digest = sha256_of(data);
    to_lower_hex(digest.as_slice())
}

} // verus!
