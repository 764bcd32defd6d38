//! Fixed-width integer codecs over byte buffers.
//!
//! All numbers in an evtc file are stored little-endian; guild identifiers are laid out
//! big-endian. The conversions are done by `byteorder`; this module states what they compute.
use byteorder::{BigEndian, ByteOrder, LittleEndian};
use vstd::arithmetic::power::pow;
use vstd::prelude::*;

verus! {

/// The unsigned value of a little-endian byte sequence.
pub open spec fn le_value(b: Seq<u8>) -> nat
    decreases b.len(),
{
    if b.len() == 0 {
        0
    } else {
        b[0] as nat + 256 * le_value(b.drop_first())
    }
}

/// The `len` least significant bytes of `n`, least significant first.
pub open spec fn le_bytes(n: nat, len: nat) -> Seq<u8> {
    Seq::new(len, |i: int| ((n / pow(256, i as nat) as nat) % 256) as u8)
}

/// The `len` least significant bytes of `n`, most significant first.
pub open spec fn be_bytes(n: nat, len: nat) -> Seq<u8> {
    le_bytes(n, len).reverse()
}

/// The little-endian value of the `len` least significant bytes of `n` is `n` cut to those bytes:
/// reading back what `le_bytes` writes gives the number written, as far as it fits.
pub proof fn lemma_le_bytes_value(n: nat, len: nat)
    ensures
        le_value(le_bytes(n, len)) == (n as int) % pow(256, len),
    decreases len,
{
    let s = le_bytes(n, len);
    vstd::arithmetic::power::lemma_pow_positive(256, len);
    if len == 0 {
        assert(pow(256, 0) == 1) by {
            vstd::arithmetic::power::lemma_pow0(256);
        }
    } else {
        let k = (len - 1) as nat;
        let m = n / 256;
        vstd::arithmetic::power::lemma_pow_positive(256, k);
        assert(pow(256, 0) == 1) by {
            vstd::arithmetic::power::lemma_pow0(256);
        }
        vstd::arithmetic::div_mod::lemma_div_basics(n as int);
        assert(s[0] == (n % 256) as u8);
        assert forall|j: int| 0 <= j < k implies #[trigger] s.drop_first()[j] == le_bytes(m, k)[j] by {
            vstd::arithmetic::power::lemma_pow_positive(256, j as nat);
            assert(pow(256, (j + 1) as nat) == 256 * pow(256, j as nat)) by {
                reveal(pow);
            }
            vstd::arithmetic::div_mod::lemma_div_denominator(n as int, 256, pow(256, j as nat));
        }
        assert(s.drop_first() =~= le_bytes(m, k));
        lemma_le_bytes_value(m, k);
        assert(pow(256, len) == 256 * pow(256, k)) by {
            reveal(pow);
        }
        vstd::arithmetic::div_mod::lemma_mod_breakdown(n as int, 256, pow(256, k));
    }
}

/// The little-endian `u16` stored at `pos`.
pub open spec fn u16_at(b: Seq<u8>, pos: int) -> u16 {
    le_value(b.subrange(pos, pos + 2)) as u16
}

/// The little-endian `u32` stored at `pos`.
pub open spec fn u32_at(b: Seq<u8>, pos: int) -> u32 {
    le_value(b.subrange(pos, pos + 4)) as u32
}

/// The little-endian `u64` stored at `pos`.
pub open spec fn u64_at(b: Seq<u8>, pos: int) -> u64 {
    le_value(b.subrange(pos, pos + 8)) as u64
}

/// The little-endian two's complement `i16` stored at `pos`.
pub open spec fn i16_at(b: Seq<u8>, pos: int) -> i16 {
    u16_at(b, pos) as i16
}

/// The little-endian two's complement `i32` stored at `pos`.
pub open spec fn i32_at(b: Seq<u8>, pos: int) -> i32 {
    u32_at(b, pos) as i32
}

/// `LittleEndian::read_u16` of byteorder on the two bytes at `pos`: their little-endian value.
#[verifier::external_body]
pub(crate) fn read_u16_le(buf: &[u8], pos: usize) -> (r: u16)
    requires
        pos + 2 <= buf@.len(),
    ensures
        r == le_value(buf@.subrange(pos as int, pos + 2)),
{
    LittleEndian::read_u16(&buf[pos..])
}

/// `LittleEndian::read_u32` of byteorder on the four bytes at `pos`: their little-endian value.
#[verifier::external_body]
pub(crate) fn read_u32_le(buf: &[u8], pos: usize) -> (r: u32)
    requires
        pos + 4 <= buf@.len(),
    ensures
        r == le_value(buf@.subrange(pos as int, pos + 4)),
{
    LittleEndian::read_u32(&buf[pos..])
}

/// `LittleEndian::read_u64` of byteorder on the eight bytes at `pos`: their little-endian value.
#[verifier::external_body]
pub(crate) fn read_u64_le(buf: &[u8], pos: usize) -> (r: u64)
    requires
        pos + 8 <= buf@.len(),
    ensures
        r == le_value(buf@.subrange(pos as int, pos + 8)),
{
    LittleEndian::read_u64(&buf[pos..])
}

/// `LittleEndian::read_i16` of byteorder on the two bytes at `pos`: their little-endian value,
/// read as two's complement.
#[verifier::external_body]
pub(crate) fn read_i16_le(buf: &[u8], pos: usize) -> (r: i16)
    requires
        pos + 2 <= buf@.len(),
    ensures
        r == i16_at(buf@, pos as int),
{
    LittleEndian::read_i16(&buf[pos..])
}

/// `LittleEndian::read_i32` of byteorder on the four bytes at `pos`: their little-endian value,
/// read as two's complement.
#[verifier::external_body]
pub(crate) fn read_i32_le(buf: &[u8], pos: usize) -> (r: i32)
    requires
        pos + 4 <= buf@.len(),
    ensures
        r == i32_at(buf@, pos as int),
{
    LittleEndian::read_i32(&buf[pos..])
}

/// `LittleEndian::write_u64` of byteorder into a fresh eight-byte buffer: the bytes of `n`,
/// least significant first.
#[verifier::external_body]
pub(crate) fn u64_le_bytes(n: u64) -> (r: [u8; 8])
    ensures
        r@ == le_bytes(n as nat, 8),
{
    let mut b = [0u8;8];
    LittleEndian::write_u64(&mut b, n);
    b
}

/// `LittleEndian::write_i32` of byteorder into a fresh four-byte buffer: the two's complement
/// bytes of `n`, least significant first.
#[verifier::external_body]
pub(crate) fn i32_le_bytes(n: i32) -> (r: [u8; 4])
    ensures
        r@ == le_bytes((n as u32) as nat, 4),
{
    let mut b = [0u8;4];
    LittleEndian::write_i32(&mut b, n);
    b
}

/// `BigEndian::write_u64` of byteorder into a fresh eight-byte buffer: the bytes of `n`, most
/// significant first.
#[verifier::external_body]
pub(crate) fn u64_be_bytes(n: u64) -> (r: [u8; 8])
    ensures
        r@ == be_bytes(n as nat, 8),
{
    let mut b = [0u8;8];
    BigEndian::write_u64(&mut b, n);
    b
}

/// `BigEndian::write_i32` of byteorder into a fresh four-byte buffer: the two's complement bytes
/// of `n`, most significant first.
#[verifier::external_body]
pub(crate) fn i32_be_bytes(n: i32) -> (r: [u8; 4])
    ensures
        r@ == be_bytes((n as u32) as nat, 4),
{
    let mut b = [0u8;4];
    BigEndian::write_i32(&mut b, n);
    b
}

} // verus!
