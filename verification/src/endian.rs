//! Big-endian integers, as the header carries them.

use vstd::arithmetic::div_mod::{lemma_fundamental_div_mod, lemma_fundamental_div_mod_converse};
use vstd::prelude::*;

verus! {

/// The two bytes of `x`, most significant first.
pub open spec fn spec_u16_to_be(x: u16) -> Seq<u8> {
    seq![(x / 256) as u8, (x % 256) as u8]
}

/// The number that two bytes stand for, most significant first.
pub open spec fn spec_u16_from_be(hi: u8, lo: u8) -> u16 {
    (hi * 256 + lo) as u16
}

/// The four bytes of `x`, most significant first.
pub open spec fn spec_u32_to_be(x: u32) -> Seq<u8> {
    seq![
        (x / 0x100_0000) as u8,
        (x / 0x1_0000 % 256) as u8,
        (x / 0x100 % 256) as u8,
        (x % 256) as u8,
    ]
}

/// The number that four bytes stand for, most significant first.
pub open spec fn spec_u32_from_be(b0: u8, b1: u8, b2: u8, b3: u8) -> u32 {
    (b0 * 0x100_0000 + b1 * 0x1_0000 + b2 * 0x100 + b3) as u32
}

/// Splits a 16-bit number into its big-endian bytes.
pub fn u16_to_be_bytes(x: u16) -> (bytes: [u8; 2])
    ensures
        bytes@ == spec_u16_to_be(x),
{
    let hi: u8 = (x / 256) as u8;
    let lo: u8 = (x % 256) as u8;
    let bytes: [u8; 2] = [hi, lo];
    assert(bytes@ =~= spec_u16_to_be(x));
    bytes
}

/// Joins two big-endian bytes into a 16-bit number.
pub fn u16_from_be_bytes(hi: u8, lo: u8) -> (x: u16)
    ensures
        x == spec_u16_from_be(hi, lo),
{
    let high: u16 = hi as u16;
    let low: u16 = lo as u16;
    high * 256 + low
}

/// Splits a 32-bit number into its big-endian bytes.
pub fn u32_to_be_bytes(x: u32) -> (bytes: [u8; 4])
    ensures
        bytes@ == spec_u32_to_be(x),
{
    let b0: u8 = (x / 0x100_0000) as u8;
    let b1: u8 = (x / 0x1_0000 % 256) as u8;
    let b2: u8 = (x / 0x100 % 256) as u8;
    let b3: u8 = (x % 256) as u8;
    let bytes: [u8; 4] = [b0, b1, b2, b3];
    assert(bytes@ =~= spec_u32_to_be(x));
    bytes
}

/// Joins four big-endian bytes into a 32-bit number.
pub fn u32_from_be_bytes(b0: u8, b1: u8, b2: u8, b3: u8) -> (x: u32)
    ensures
        x == spec_u32_from_be(b0, b1, b2, b3),
{
    let w0: u32 = b0 as u32;
    let w1: u32 = b1 as u32;
    let w2: u32 = b2 as u32;
    let w3: u32 = b3 as u32;
    w0 * 0x100_0000 + w1 * 0x1_0000 + w2 * 0x100 + w3
}

/// Reading back the bytes of a 32-bit number gives the number.
pub proof fn lemma_u32_be_round_trip(x: u32)
    ensures
        spec_u32_to_be(x).len() == 4,
        spec_u32_from_be(
            spec_u32_to_be(x)[0],
            spec_u32_to_be(x)[1],
            spec_u32_to_be(x)[2],
            spec_u32_to_be(x)[3],
        ) == x,
{
    let x0: int = x as int;
    let x1: int = x0 / 0x100;
    let x2: int = x1 / 0x100;
    let x3: int = x2 / 0x100;
    lemma_fundamental_div_mod(x0, 0x100);
    lemma_fundamental_div_mod(x1, 0x100);
    lemma_fundamental_div_mod(x2, 0x100);
    assert(x1 == x0 / 0x100);
    assert(x2 == x0 / 0x1_0000);
    assert(x3 == x0 / 0x100_0000);
    assert(x0 == 0x100 * x1 + x0 % 0x100);
    assert(x1 == 0x100 * x2 + x1 % 0x100);
    assert(x2 == 0x100 * x3 + x2 % 0x100);
}

/// Writing out the number that four bytes stand for gives the four bytes.
pub proof fn lemma_u32_be_bytes_round_trip(b0: u8, b1: u8, b2: u8, b3: u8)
    ensures
        spec_u32_to_be(spec_u32_from_be(b0, b1, b2, b3)) == seq![b0, b1, b2, b3],
{
    let x: int = b0 * 0x100_0000 + b1 * 0x1_0000 + b2 * 0x100 + b3;
    assert(spec_u32_from_be(b0, b1, b2, b3) == x);
    lemma_fundamental_div_mod_converse(x, 0x100_0000, b0 as int, b1 * 0x1_0000 + b2 * 0x100 + b3);
    lemma_fundamental_div_mod_converse(x, 0x1_0000, b0 * 0x100 + b1, b2 * 0x100 + b3);
    lemma_fundamental_div_mod_converse(b0 * 0x100 + b1, 256, b0 as int, b1 as int);
    lemma_fundamental_div_mod_converse(x, 0x100, b0 * 0x1_0000 + b1 * 0x100 + b2, b3 as int);
    lemma_fundamental_div_mod_converse(
        b0 * 0x1_0000 + b1 * 0x100 + b2,
        256,
        b0 * 0x100 + b1,
        b2 as int,
    );
    assert(spec_u32_to_be(spec_u32_from_be(b0, b1, b2, b3)) =~= seq![b0, b1, b2, b3]);
}

/// Reading back the bytes of a 16-bit number gives the number.
pub proof fn lemma_u16_be_round_trip(x: u16)
    ensures
        spec_u16_to_be(x).len() == 2,
        spec_u16_from_be(spec_u16_to_be(x)[0], spec_u16_to_be(x)[1]) == x,
{
}

/// Writing out the number that two bytes stand for gives the two bytes.
pub proof fn lemma_u16_be_bytes_round_trip(hi: u8, lo: u8)
    ensures
        spec_u16_to_be(spec_u16_from_be(hi, lo)) == seq![hi, lo],
{
    assert(spec_u16_to_be(spec_u16_from_be(hi, lo)) =~= seq![hi, lo]);
}

} // verus!
