//! Bytes written in hexadecimal.

use crate::text::string_of;
use vstd::prelude::*;

verus! {

/// The hexadecimal digit of a nibble, in lower case; `'0'` for what is no
/// nibble.
pub open spec fn hex_digit(nibble: u8) -> char {
    if nibble <= 9 {
        ('0' as u8 + nibble) as char
    } else if nibble <= 15 {
        ('a' as u8 + (nibble - 10)) as char
    } else {
        '0'
    }
}

pub fn hex_char(nibble: u8) -> (digit: char)
    ensures
        digit == hex_digit(nibble),
{
    if nibble <= 9 {
        ('0' as u8 + nibble) as char
    } else if nibble <= 15 {
        ('a' as u8 + (nibble - 10)) as char
    } else {
        '0'
    }
}

/// The two digits of every byte of `bytes`, the high nibble first.
pub open spec fn hex_of(bytes: Seq<u8>) -> Seq<char>
    decreases bytes.len(),
{
    if bytes.len() == 0 {
        Seq::empty()
    } else {
        hex_of(bytes.drop_last()) + seq![
            hex_digit(bytes.last() / 16),
            hex_digit(bytes.last() % 16),
        ]
    }
}

/// Writes `bytes` in hexadecimal: two lower-case digits for each byte.
pub fn hex_encode(bytes: &Vec<u8>) -> (out: String)
    ensures
        out@ == hex_of(bytes@),
        out@.len() == 2 * bytes@.len(),
{
    let mut out: Vec<char> = Vec::new();
    let mut i: usize = 0;
    assert(bytes@.take(0) =~= Seq::<u8>::empty());
    while i < bytes.len()
        invariant
            i <= bytes.len(),
            out@ == hex_of(bytes@.take(i as int)),
            out@.len() == 2 * i,
        decreases bytes.len() - i,
    {
        let b = bytes[i];
        assert(bytes@.take(i as int + 1).drop_last() =~= bytes@.take(i as int));
        let ghost before = out@;
        out.push(hex_char(b / 16));
        out.push(hex_char(b % 16));
        assert(out@ =~= before + seq![hex_digit(b / 16), hex_digit(b % 16)]);
        i = i + 1;
    }
    assert(bytes@.take(i as int) =~= bytes@);
    string_of(&out)
}


/// Calls `RngCore::fill_bytes` of `rand` on the random source of the
/// operating system, for a buffer of `count` bytes: as many bytes as were
/// asked for, of which nothing else is known.
#[verifier::external_body]
fn random_bytes(count: usize) -> (bytes: Vec<u8>)
    ensures
        bytes@.len() == count,
{
    let mut buf = vec![0u8; count];
    rand::RngCore::fill_bytes(&mut rand::rngs::OsRng, &mut buf);
    buf
}

/// `bytes` random bytes in hexadecimal.
pub fn random_hex(bytes: usize) -> (out: String)
    ensures
        out@.len() == 2 * bytes,
        exists|random: Seq<u8>| random.len() == bytes && out@ == hex_of(random),
{
    let buf = random_bytes(bytes);
    hex_encode(&buf)
}

} // verus!
