//! Fixed-width integers as little-endian bytes: the arithmetic model, what is
//! proved of it, and the calls that read and write such integers.

use vstd::prelude::*;

verus! {

/// How many numbers `width` bytes can tell apart: 256 to the power `width`.
pub open spec fn span(width: nat) -> nat
    decreases width,
{
    if width == 0 {
        1
    } else {
        256 * span((width - 1) as nat)
    }
}

/// The `width` lowest base-256 digits of `n`, least significant first.
pub open spec fn le_bytes(n: nat, width: nat) -> Seq<u8>
    decreases width,
{
    if width == 0 {
        Seq::empty()
    } else {
        seq![(n % 256) as u8] + le_bytes(n / 256, (width - 1) as nat)
    }
}

/// The number whose base-256 digits, least significant first, are `bytes`.
pub open spec fn le_value(bytes: Seq<u8>) -> nat
    decreases bytes.len(),
{
    if bytes.len() == 0 {
        0
    } else {
        bytes[0] as nat + 256 * le_value(bytes.drop_first())
    }
}

/// Two's complement: the unsigned number that stands for `v` in `width` bytes.
pub open spec fn to_unsigned(v: int, width: nat) -> nat {
    if v < 0 {
        (v + span(width)) as nat
    } else {
        v as nat
    }
}

/// Two's complement: the signed number that `n` stands for in `width` bytes.
pub open spec fn to_signed(n: nat, width: nat) -> int {
    if 2 * n >= span(width) {
        n - span(width)
    } else {
        n as int
    }
}

/// Whether `v` is a signed integer of `width` bytes.
pub open spec fn fits_signed(v: int, width: nat) -> bool {
    -(span(width) as int) <= 2 * v < span(width)
}

/// The spans of the four widths in use.
pub proof fn lemma_span_values()
    ensures
        span(1) == 0x100,
        span(2) == 0x1_0000,
        span(4) == 0x1_0000_0000,
        span(8) == 0x1_0000_0000_0000_0000,
{
    reveal_with_fuel(span, 9);
}

/// `le_bytes` gives exactly `width` bytes.
pub proof fn lemma_le_bytes_len(n: nat, width: nat)
    ensures
        le_bytes(n, width).len() == width,
    decreases width,
{
    if width > 0 {
        lemma_le_bytes_len(n / 256, (width - 1) as nat);
    }
}

/// The number that bytes stand for is below the span of their count.
pub proof fn lemma_le_value_bound(bytes: Seq<u8>)
    ensures
        le_value(bytes) < span(bytes.len()),
    decreases bytes.len(),
{
    if bytes.len() > 0 {
        lemma_le_value_bound(bytes.drop_first());
    }
}

/// Reading back the bytes of a number that fits gives that number.
pub proof fn lemma_value_of_bytes(n: nat, width: nat)
    requires
        n < span(width),
    ensures
        le_value(le_bytes(n, width)) == n,
    decreases width,
{
    if width > 0 {
        let rest = le_bytes(n / 256, (width - 1) as nat);
        let all = le_bytes(n, width);
        lemma_le_bytes_len(n / 256, (width - 1) as nat);
        assert(all.drop_first() =~= rest);
        lemma_value_of_bytes(n / 256, (width - 1) as nat);
    }
}

/// Writing the number that bytes stand for gives those bytes.
pub proof fn lemma_bytes_of_value(bytes: Seq<u8>)
    ensures
        le_bytes(le_value(bytes), bytes.len()) == bytes,
    decreases bytes.len(),
{
    if bytes.len() > 0 {
        let tail = bytes.drop_first();
        lemma_bytes_of_value(tail);
        let n = le_value(bytes);
        assert(n % 256 == bytes[0] as nat);
        assert(n / 256 == le_value(tail));
        assert(le_bytes(n, bytes.len()) =~= bytes);
    } else {
        assert(le_bytes(le_value(bytes), bytes.len()) =~= bytes);
    }
}

/// Two's complement loses nothing of an unsigned number that fits.
pub proof fn lemma_unsigned_round_trip(n: nat, width: nat)
    requires
        n < span(width),
    ensures
        fits_signed(to_signed(n, width), width),
        to_unsigned(to_signed(n, width), width) == n,
{
}

/// The error type of std's readers and writers. Nothing is known of a value of
/// it; it is only passed on.
#[verifier::external_type_specification]
#[verifier::external_body]
pub struct ExIoError(std::io::Error);

/// Appends a number to `out` through byteorder's `WriteBytesExt::write_u8`,
/// whose writer is the `Vec` itself. Believed, not proved: `out` grows by the
/// byte `value` and is otherwise unchanged.
#[verifier::external_body]
pub(crate) fn write_u8(out: &mut Vec<u8>, value: u8)
    ensures
        final(out)@ == old(out)@ + le_bytes(value as nat, 1),
{
    let _ = byteorder::WriteBytesExt::write_u8(out, value);
}

/// Appends a number to `out` through byteorder's `WriteBytesExt::write_u16`
/// with `LittleEndian`, whose writer is the `Vec` itself. Believed, not proved:
/// `out` grows by the two bytes of `value`, least significant first, and is
/// otherwise unchanged.
#[verifier::external_body]
pub(crate) fn write_u16(out: &mut Vec<u8>, value: u16)
    ensures
        final(out)@ == old(out)@ + le_bytes(value as nat, 2),
{
    let _ = byteorder::WriteBytesExt::write_u16::<byteorder::LittleEndian>(out, value);
}

/// Appends a number to `out` through byteorder's `WriteBytesExt::write_u32`
/// with `LittleEndian`, whose writer is the `Vec` itself. Believed, not proved:
/// `out` grows by the four bytes of `value`, least significant first, and is
/// otherwise unchanged.
#[verifier::external_body]
pub(crate) fn write_u32(out: &mut Vec<u8>, value: u32)
    ensures
        final(out)@ == old(out)@ + le_bytes(value as nat, 4),
{
    let _ = byteorder::WriteBytesExt::write_u32::<byteorder::LittleEndian>(out, value);
}

/// Appends a number to `out` through byteorder's `WriteBytesExt::write_u64`
/// with `LittleEndian`, whose writer is the `Vec` itself. Believed, not proved:
/// `out` grows by the eight bytes of `value`, least significant first, and is
/// otherwise unchanged.
#[verifier::external_body]
pub(crate) fn write_u64(out: &mut Vec<u8>, value: u64)
    ensures
        final(out)@ == old(out)@ + le_bytes(value as nat, 8),
{
    let _ = byteorder::WriteBytesExt::write_u64::<byteorder::LittleEndian>(out, value);
}

/// Appends a number to `out` through byteorder's `WriteBytesExt::write_i8`,
/// whose writer is the `Vec` itself. Believed, not proved: `out` grows by the
/// byte that is the two's complement of `value` and is otherwise unchanged.
#[verifier::external_body]
pub(crate) fn write_i8(out: &mut Vec<u8>, value: i8)
    ensures
        final(out)@ == old(out)@ + le_bytes(to_unsigned(value as int, 1), 1),
{
    let _ = byteorder::WriteBytesExt::write_i8(out, value);
}

/// Appends a number to `out` through byteorder's `WriteBytesExt::write_i16`
/// with `LittleEndian`, whose writer is the `Vec` itself. Believed, not proved:
/// `out` grows by the two bytes of the two's complement of `value`, least
/// significant first, and is otherwise unchanged.
#[verifier::external_body]
pub(crate) fn write_i16(out: &mut Vec<u8>, value: i16)
    ensures
        final(out)@ == old(out)@ + le_bytes(to_unsigned(value as int, 2), 2),
{
    let _ = byteorder::WriteBytesExt::write_i16::<byteorder::LittleEndian>(out, value);
}

/// Appends a number to `out` through byteorder's `WriteBytesExt::write_i32`
/// with `LittleEndian`, whose writer is the `Vec` itself. Believed, not proved:
/// `out` grows by the four bytes of the two's complement of `value`, least
/// significant first, and is otherwise unchanged.
#[verifier::external_body]
pub(crate) fn write_i32(out: &mut Vec<u8>, value: i32)
    ensures
        final(out)@ == old(out)@ + le_bytes(to_unsigned(value as int, 4), 4),
{
    let _ = byteorder::WriteBytesExt::write_i32::<byteorder::LittleEndian>(out, value);
}

/// Appends a number to `out` through byteorder's `WriteBytesExt::write_i64`
/// with `LittleEndian`, whose writer is the `Vec` itself. Believed, not proved:
/// `out` grows by the eight bytes of the two's complement of `value`, least
/// significant first, and is otherwise unchanged.
#[verifier::external_body]
pub(crate) fn write_i64(out: &mut Vec<u8>, value: i64)
    ensures
        final(out)@ == old(out)@ + le_bytes(to_unsigned(value as int, 8), 8),
{
    let _ = byteorder::WriteBytesExt::write_i64::<byteorder::LittleEndian>(out, value);
}

/// Reads a number from the start of `bytes` through byteorder's
/// `ReadBytesExt::read_u8`, whose reader is a `Cursor` over `bytes`. Believed,
/// not proved: the read fails exactly when `bytes` is empty, and otherwise
/// gives the first byte.
#[verifier::external_body]
pub(crate) fn read_u8(bytes: &[u8]) -> (r: Result<u8, std::io::Error>)
    ensures
        r is Ok <==> bytes@.len() >= 1,
        r matches Ok(value) ==> value as nat == le_value(bytes@.subrange(0, 1)),
{
    byteorder::ReadBytesExt::read_u8(&mut std::io::Cursor::new(bytes))
}

/// Reads a number from the start of `bytes` through byteorder's
/// `ReadBytesExt::read_u16` with `LittleEndian`, whose reader is a `Cursor`
/// over `bytes`. Believed, not proved: the read fails exactly when `bytes`
/// holds fewer than two bytes, and otherwise gives the number that the first
/// two stand for, least significant first.
#[verifier::external_body]
pub(crate) fn read_u16(bytes: &[u8]) -> (r: Result<u16, std::io::Error>)
    ensures
        r is Ok <==> bytes@.len() >= 2,
        r matches Ok(value) ==> value as nat == le_value(bytes@.subrange(0, 2)),
{
    byteorder::ReadBytesExt::read_u16::<byteorder::LittleEndian>(&mut std::io::Cursor::new(bytes))
}

/// Reads a number from the start of `bytes` through byteorder's
/// `ReadBytesExt::read_u32` with `LittleEndian`, whose reader is a `Cursor`
/// over `bytes`. Believed, not proved: the read fails exactly when `bytes`
/// holds fewer than four bytes, and otherwise gives the number that the first
/// four stand for, least significant first.
#[verifier::external_body]
pub(crate) fn read_u32(bytes: &[u8]) -> (r: Result<u32, std::io::Error>)
    ensures
        r is Ok <==> bytes@.len() >= 4,
        r matches Ok(value) ==> value as nat == le_value(bytes@.subrange(0, 4)),
{
    byteorder::ReadBytesExt::read_u32::<byteorder::LittleEndian>(&mut std::io::Cursor::new(bytes))
}

/// Reads a number from the start of `bytes` through byteorder's
/// `ReadBytesExt::read_u64` with `LittleEndian`, whose reader is a `Cursor`
/// over `bytes`. Believed, not proved: the read fails exactly when `bytes`
/// holds fewer than eight bytes, and otherwise gives the number that the first
/// eight stand for, least significant first.
#[verifier::external_body]
pub(crate) fn read_u64(bytes: &[u8]) -> (r: Result<u64, std::io::Error>)
    ensures
        r is Ok <==> bytes@.len() >= 8,
        r matches Ok(value) ==> value as nat == le_value(bytes@.subrange(0, 8)),
{
    byteorder::ReadBytesExt::read_u64::<byteorder::LittleEndian>(&mut std::io::Cursor::new(bytes))
}

/// Reads a number from the start of `bytes` through byteorder's
/// `ReadBytesExt::read_i8`, whose reader is a `Cursor` over `bytes`. Believed,
/// not proved: the read fails exactly when `bytes` is empty, and otherwise
/// gives the first byte, read as two's complement.
#[verifier::external_body]
pub(crate) fn read_i8(bytes: &[u8]) -> (r: Result<i8, std::io::Error>)
    ensures
        r is Ok <==> bytes@.len() >= 1,
        r matches Ok(value) ==> value as int == to_signed(le_value(bytes@.subrange(0, 1)), 1),
{
    byteorder::ReadBytesExt::read_i8(&mut std::io::Cursor::new(bytes))
}

/// Reads a number from the start of `bytes` through byteorder's
/// `ReadBytesExt::read_i16` with `LittleEndian`, whose reader is a `Cursor`
/// over `bytes`. Believed, not proved: the read fails exactly when `bytes`
/// holds fewer than two bytes, and otherwise gives the number that the first
/// two stand for, least significant first, read as two's complement.
#[verifier::external_body]
pub(crate) fn read_i16(bytes: &[u8]) -> (r: Result<i16, std::io::Error>)
    ensures
        r is Ok <==> bytes@.len() >= 2,
        r matches Ok(value) ==> value as int == to_signed(le_value(bytes@.subrange(0, 2)), 2),
{
    byteorder::ReadBytesExt::read_i16::<byteorder::LittleEndian>(&mut std::io::Cursor::new(bytes))
}

/// Reads a number from the start of `bytes` through byteorder's
/// `ReadBytesExt::read_i32` with `LittleEndian`, whose reader is a `Cursor`
/// over `bytes`. Believed, not proved: the read fails exactly when `bytes`
/// holds fewer than four bytes, and otherwise gives the number that the first
/// four stand for, least significant first, read as two's complement.
#[verifier::external_body]
pub(crate) fn read_i32(bytes: &[u8]) -> (r: Result<i32, std::io::Error>)
    ensures
        r is Ok <==> bytes@.len() >= 4,
        r matches Ok(value) ==> value as int == to_signed(le_value(bytes@.subrange(0, 4)), 4),
{
    byteorder::ReadBytesExt::read_i32::<byteorder::LittleEndian>(&mut std::io::Cursor::new(bytes))
}

/// Reads a number from the start of `bytes` through byteorder's
/// `ReadBytesExt::read_i64` with `LittleEndian`, whose reader is a `Cursor`
/// over `bytes`. Believed, not proved: the read fails exactly when `bytes`
/// holds fewer than eight bytes, and otherwise gives the number that the first
/// eight stand for, least significant first, read as two's complement.
#[verifier::external_body]
pub(crate) fn read_i64(bytes: &[u8]) -> (r: Result<i64, std::io::Error>)
    ensures
        r is Ok <==> bytes@.len() >= 8,
        r matches Ok(value) ==> value as int == to_signed(le_value(bytes@.subrange(0, 8)), 8),
{
    byteorder::ReadBytesExt::read_i64::<byteorder::LittleEndian>(&mut std::io::Cursor::new(bytes))
}

} // verus!
