//! The binary encoding of WebAssembly values: bytes, integers, floating-point bit patterns,
//! names and vectors.
//!
//! See <https://webassembly.github.io/spec/core/binary/values.html>
use crate::web_assembly::Name;
use byteorder::{LittleEndian, WriteBytesExt};
use vstd::prelude::*;

verus! {

/// The unsigned LEB128 encoding of `v`: seven bits per byte, least significant first, with
/// the high bit set on every byte but the last.
pub open spec fn leb128_unsigned(v: nat) -> Seq<u8>
    decreases v,
{
    if v < 128 {
        seq![v as u8]
    } else {
        seq![(v % 128 + 128) as u8] + leb128_unsigned(v / 128)
    }
}

/// The signed LEB128 encoding of `v`: seven bits per byte of the two's complement value,
/// least significant first, ending with the first byte whose bit 6 is the sign of what
/// remains.
pub open spec fn leb128_signed(v: int) -> Seq<u8>
    decreases (if v < 0 {
        -v
    } else {
        v
    }),
{
    if -64 <= v < 64 {
        seq![(v % 128) as u8]
    } else {
        seq![(v % 128 + 128) as u8] + leb128_signed(v / 128)
    }
}

/// The `n` bytes of `v` in little-endian order.
pub open spec fn little_endian(v: nat, n: nat) -> Seq<u8>
    decreases n,
{
    if n == 0 {
        Seq::empty()
    } else {
        seq![(v % 256) as u8] + little_endian(v / 256, (n - 1) as nat)
    }
}

/// `bytes` preceded by their length when `include_length` holds.
pub open spec fn bytes_encoding(bytes: Seq<u8>, include_length: bool) -> Seq<u8> {
    if include_length {
        leb128_unsigned(bytes.len()) + bytes
    } else {
        bytes
    }
}

/// A name is the vector of the bytes of its UTF-8 encoding.
pub open spec fn name_encoding(name: Name) -> Seq<u8> {
    bytes_encoding(name.bytes@, true)
}

/// `leb128::write::unsigned`: writes the unsigned LEB128 encoding of `value` to `output`.
/// The claim is the crate's encoding, and that writing to a vector does not fail.
#[verifier::external_body]
fn write_unsigned(output: &mut Vec<u8>, value: u64) -> (n: usize)
    ensures
        final(output)@ == old(output)@ + leb128_unsigned(value as nat),
        n == leb128_unsigned(value as nat).len(),
{
    match leb128::write::unsigned(output, value) {
        Ok(n) => n,
        Err(_) => 0,
    }
}

/// `leb128::write::signed`: writes the signed LEB128 encoding of `value` to `output`.
/// The claim is the crate's encoding, and that writing to a vector does not fail.
#[verifier::external_body]
fn write_signed(output: &mut Vec<u8>, value: i64) -> (n: usize)
    ensures
        final(output)@ == old(output)@ + leb128_signed(value as int),
        n == leb128_signed(value as int).len(),
{
    match leb128::write::signed(output, value) {
        Ok(n) => n,
        Err(_) => 0,
    }
}

/// `byteorder::WriteBytesExt::write_u32::<LittleEndian>`: writes the four bytes of `value`,
/// least significant first. The claim is that order, and that writing to a vector does not
/// fail.
#[verifier::external_body]
fn write_u32_little_endian(output: &mut Vec<u8>, value: u32)
    ensures
        final(output)@ == old(output)@ + little_endian(value as nat, 4),
{
    let _ = output.write_u32::<LittleEndian>(value);
}

/// `byteorder::WriteBytesExt::write_u64::<LittleEndian>`: writes the eight bytes of `value`,
/// least significant first. The claim is that order, and that writing to a vector does not
/// fail.
#[verifier::external_body]
fn write_u64_little_endian(output: &mut Vec<u8>, value: u64)
    ensures
        final(output)@ == old(output)@ + little_endian(value as nat, 8),
{
    let _ = output.write_u64::<LittleEndian>(value);
}

pub proof fn lemma_little_endian_len(v: nat, n: nat)
    ensures
        little_endian(v, n).len() == n,
    decreases n,
{
    if n > 0 {
        lemma_little_endian_len(v / 256, (n - 1) as nat);
    }
}

/// Emits a single byte.
pub fn emit_byte(value: u8, output: &mut Vec<u8>) -> (r: usize)
    ensures
        final(output)@ == old(output)@.push(value),
        r == 1,
{
    output.push(value);
    1
}

/// Emits an unsigned 32-bit integer in unsigned LEB128.
pub fn emit_u32(value: u32, output: &mut Vec<u8>) -> (r: usize)
    ensures
        final(output)@ == old(output)@ + leb128_unsigned(value as nat),
        r == leb128_unsigned(value as nat).len(),
{
    write_unsigned(output, value as u64)
}

/// Emits an unsigned 64-bit integer in unsigned LEB128.
pub fn emit_u64(value: u64, output: &mut Vec<u8>) -> (r: usize)
    ensures
        final(output)@ == old(output)@ + leb128_unsigned(value as nat),
        r == leb128_unsigned(value as nat).len(),
{
    write_unsigned(output, value)
}

/// Emits a size or an index in unsigned LEB128.
pub fn emit_usize(value: usize, output: &mut Vec<u8>) -> (r: usize)
    ensures
        final(output)@ == old(output)@ + leb128_unsigned(value as nat),
        r == leb128_unsigned(value as nat).len(),
{
    write_unsigned(output, value as u64)
}

/// Emits a signed 32-bit integer in signed LEB128.
pub fn emit_i32(value: i32, output: &mut Vec<u8>) -> (r: usize)
    ensures
        final(output)@ == old(output)@ + leb128_signed(value as int),
        r == leb128_signed(value as int).len(),
{
    write_signed(output, value as i64)
}

/// Emits a signed 64-bit integer in signed LEB128.
pub fn emit_i64(value: i64, output: &mut Vec<u8>) -> (r: usize)
    ensures
        final(output)@ == old(output)@ + leb128_signed(value as int),
        r == leb128_signed(value as int).len(),
{
    write_signed(output, value)
}

/// Emits a 32-bit floating-point number, given by its bit pattern, in little-endian order.
pub fn emit_f32(bits: u32, output: &mut Vec<u8>) -> (r: usize)
    ensures
        final(output)@ == old(output)@ + little_endian(bits as nat, 4),
        r == 4,
{
    write_u32_little_endian(output, bits);
    4
}

/// Emits a 64-bit floating-point number, given by its bit pattern, in little-endian order.
pub fn emit_f64(bits: u64, output: &mut Vec<u8>) -> (r: usize)
    ensures
        final(output)@ == old(output)@ + little_endian(bits as nat, 8),
        r == 8,
{
    write_u64_little_endian(output, bits);
    8
}

/// Emits the given bytes, preceded by their length when `include_length` holds.
pub fn emit_bytes(bytes: &[u8], output: &mut Vec<u8>, include_length: bool) -> (r: usize)
    ensures
        final(output)@ == old(output)@ + bytes_encoding(bytes@, include_length),
        r == bytes_encoding(bytes@, include_length).len(),
{
    let start = output.len();
    if include_length {
        emit_usize(bytes.len(), output);
    }
    let ghost prefix = output@;
    let mut i: usize = 0;
    while i < bytes.len()
        invariant
            i <= bytes@.len(),
            output@ == prefix + bytes@.take(i as int),
        decreases bytes.len() - i,
    {
        output.push(bytes[i]);
        assert(bytes@.take(i as int + 1) =~= bytes@.take(i as int).push(bytes@[i as int]));
        i = i + 1;
    }
    assert(bytes@.take(bytes.len() as int) =~= bytes@);
    assert(output@ =~= old(output)@ + bytes_encoding(bytes@, include_length));
    output.len() - start
}

/// Emits a name as the vector of its bytes.
pub fn emit_name(name: &Name, output: &mut Vec<u8>) -> (r: usize)
    ensures
        final(output)@ == old(output)@ + name_encoding(*name),
        r == name_encoding(*name).len(),
{
    emit_bytes(name.as_bytes(), output, true)
}

} // verus!
