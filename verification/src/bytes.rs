//! Little-endian integers and GUIDs: how they are read from and written to
//! a byte sequence.
use byteorder::{ByteOrder, LittleEndian};
use vstd::bytes::*;
use vstd::prelude::*;

use crate::model::{Error, Guid, ParseError, SpecError, SpecParseError, SpecResult, opt_guid_view};

verus! {

// ---------------------------------------------------------------------------
// The outside calls: byteorder's little-endian conversions.

/// `LittleEndian::read_u16` on the bytes at `pos`: the integer whose
/// little-endian encoding they are.
#[verifier::external_body]
pub(crate) fn le_read_u16(data: &[u8], pos: usize) -> (r: u16)
    requires
        pos + 2 <= data@.len(),
    ensures
        r == spec_u16_from_le_bytes(data@.subrange(pos as int, pos + 2)),
{
    LittleEndian::read_u16(&data[pos..])
}

/// `LittleEndian::read_u32` on the bytes at `pos`.
#[verifier::external_body]
fn le_read_u32(data: &[u8], pos: usize) -> (r: u32)
    requires
        pos + 4 <= data@.len(),
    ensures
        r == spec_u32_from_le_bytes(data@.subrange(pos as int, pos + 4)),
{
    LittleEndian::read_u32(&data[pos..])
}

/// `LittleEndian::read_u64` on the bytes at `pos`.
#[verifier::external_body]
fn le_read_u64(data: &[u8], pos: usize) -> (r: u64)
    requires
        pos + 8 <= data@.len(),
    ensures
        r == spec_u64_from_le_bytes(data@.subrange(pos as int, pos + 8)),
{
    LittleEndian::read_u64(&data[pos..])
}

/// `LittleEndian::write_u16` into a fresh buffer: the little-endian
/// encoding of `n`.
#[verifier::external_body]
fn le_write_u16(n: u16) -> (r: [u8; 2])
    ensures
        r@ == spec_u16_to_le_bytes(n),
{
    let mut b = [0u8; 2];
    LittleEndian::write_u16(&mut b, n);
    b
}

/// `LittleEndian::write_u32` into a fresh buffer.
#[verifier::external_body]
fn le_write_u32(n: u32) -> (r: [u8; 4])
    ensures
        r@ == spec_u32_to_le_bytes(n),
{
    let mut b = [0u8; 4];
    LittleEndian::write_u32(&mut b, n);
    b
}

/// `LittleEndian::write_u64` into a fresh buffer.
#[verifier::external_body]
fn le_write_u64(n: u64) -> (r: [u8; 8])
    ensures
        r@ == spec_u64_to_le_bytes(n),
{
    let mut b = [0u8; 8];
    LittleEndian::write_u64(&mut b, n);
    b
}

// ---------------------------------------------------------------------------
// The format of the primitive values.

/// The error for data that ends too early; it is reported at the end of the
/// data, where reading stopped.
pub open spec fn eof(d: Seq<u8>) -> SpecParseError {
    SpecParseError { offset: d.len() as int, error: SpecError::UnexpectedEof }
}

/// `n` raw bytes at `p`.
pub open spec fn sp_bytes(d: Seq<u8>, p: int, n: nat) -> SpecResult<Seq<u8>> {
    if 0 <= p && p + n <= d.len() {
        Ok((d.subrange(p, p + n), n))
    } else {
        Err(eof(d))
    }
}

pub open spec fn sp_u8(d: Seq<u8>, p: int) -> SpecResult<u8> {
    if 0 <= p && p + 1 <= d.len() {
        Ok((d[p], 1))
    } else {
        Err(eof(d))
    }
}

pub open spec fn sp_i8(d: Seq<u8>, p: int) -> SpecResult<i8> {
    if 0 <= p && p + 1 <= d.len() {
        Ok((d[p] as i8, 1))
    } else {
        Err(eof(d))
    }
}

pub open spec fn sp_u16(d: Seq<u8>, p: int) -> SpecResult<u16> {
    if 0 <= p && p + 2 <= d.len() {
        Ok((spec_u16_from_le_bytes(d.subrange(p, p + 2)), 2))
    } else {
        Err(eof(d))
    }
}

pub open spec fn sp_i16(d: Seq<u8>, p: int) -> SpecResult<i16> {
    if 0 <= p && p + 2 <= d.len() {
        Ok((spec_u16_from_le_bytes(d.subrange(p, p + 2)) as i16, 2))
    } else {
        Err(eof(d))
    }
}

pub open spec fn sp_u32(d: Seq<u8>, p: int) -> SpecResult<u32> {
    if 0 <= p && p + 4 <= d.len() {
        Ok((spec_u32_from_le_bytes(d.subrange(p, p + 4)), 4))
    } else {
        Err(eof(d))
    }
}

pub open spec fn sp_i32(d: Seq<u8>, p: int) -> SpecResult<i32> {
    if 0 <= p && p + 4 <= d.len() {
        Ok((spec_u32_from_le_bytes(d.subrange(p, p + 4)) as i32, 4))
    } else {
        Err(eof(d))
    }
}

pub open spec fn sp_u64(d: Seq<u8>, p: int) -> SpecResult<u64> {
    if 0 <= p && p + 8 <= d.len() {
        Ok((spec_u64_from_le_bytes(d.subrange(p, p + 8)), 8))
    } else {
        Err(eof(d))
    }
}

pub open spec fn sp_i64(d: Seq<u8>, p: int) -> SpecResult<i64> {
    if 0 <= p && p + 8 <= d.len() {
        Ok((spec_u64_from_le_bytes(d.subrange(p, p + 8)) as i64, 8))
    } else {
        Err(eof(d))
    }
}

/// The GUID stored in 16 bytes: each of its four 32-bit groups is stored
/// in reverse byte order.
pub open spec fn guid_from_stored(b: Seq<u8>) -> Seq<u8> {
    seq![
        b[3], b[2], b[1], b[0],
        b[7], b[6], b[5], b[4],
        b[11], b[10], b[9], b[8],
        b[15], b[14], b[13], b[12],
    ]
}

pub open spec fn sp_guid(d: Seq<u8>, p: int) -> SpecResult<Seq<u8>> {
    if 0 <= p && p + 16 <= d.len() {
        Ok((guid_from_stored(d.subrange(p, p + 16)), 16))
    } else {
        Err(eof(d))
    }
}

/// An optional GUID: a flag byte, then the GUID when the flag is not zero.
pub open spec fn sp_opt_guid(d: Seq<u8>, p: int) -> SpecResult<Option<Seq<u8>>> {
    match sp_u8(d, p) {
        Err(e) => Err(e),
        Ok((flag, n)) => if flag > 0 {
            match sp_guid(d, p + n) {
                Err(e) => Err(e),
                Ok((g, m)) => Ok((Some(g), n + m)),
            }
        } else {
            Ok((None, n))
        },
    }
}

/// The encodings that the writer produces.
pub open spec fn u8_bytes(x: u8) -> Seq<u8> {
    seq![x]
}

pub open spec fn i8_bytes(x: i8) -> Seq<u8> {
    seq![x as u8]
}

pub open spec fn u16_bytes(x: u16) -> Seq<u8> {
    spec_u16_to_le_bytes(x)
}

pub open spec fn i16_bytes(x: i16) -> Seq<u8> {
    spec_u16_to_le_bytes(x as u16)
}

pub open spec fn u32_bytes(x: u32) -> Seq<u8> {
    spec_u32_to_le_bytes(x)
}

pub open spec fn i32_bytes(x: i32) -> Seq<u8> {
    spec_u32_to_le_bytes(x as u32)
}

pub open spec fn u64_bytes(x: u64) -> Seq<u8> {
    spec_u64_to_le_bytes(x)
}

pub open spec fn i64_bytes(x: i64) -> Seq<u8> {
    spec_u64_to_le_bytes(x as u64)
}

/// How a GUID is stored (the same byte swap as when reading).
pub open spec fn guid_bytes(g: Seq<u8>) -> Seq<u8> {
    guid_from_stored(g)
}

pub open spec fn opt_guid_bytes(g: Option<Seq<u8>>) -> Seq<u8> {
    match g {
        Some(g) => seq![1u8] + guid_bytes(g),
        None => seq![0u8],
    }
}

/// The view, by `f`, of a reader's result at `p`: the value and the
/// number of bytes read, or the error.
pub open spec fn outcome_by<T, V>(r: Result<(T, usize), ParseError>, p: int, f: spec_fn(T) -> V) -> SpecResult<V> {
    match r {
        Ok((v, end)) => Ok((f(v), if end >= p { (end - p) as nat } else { 0 })),
        Err(e) => Err(e@),
    }
}

/// A reader's result agrees with the format, its value taken by `f`: same
/// outcome, and on success the position it returns lies between where it
/// started and the end of the data.
pub open spec fn agrees_by<T, V>(
    r: Result<(T, usize), ParseError>,
    d: Seq<u8>,
    p: int,
    s: SpecResult<V>,
    f: spec_fn(T) -> V,
) -> bool {
    &&& outcome_by(r, p, f) == s
    &&& r matches Ok((_, e)) ==> p <= e <= d.len()
}

/// `agrees_by` with the value taken by its view.
pub open spec fn agrees<T: View>(
    r: Result<(T, usize), ParseError>,
    d: Seq<u8>,
    p: int,
    s: SpecResult<T::V>,
) -> bool {
    agrees_by(r, d, p, s, |v: T| v@)
}

pub(crate) fn eof_error(data: &[u8]) -> (e: ParseError)
    ensures
        e@ == eof(data@),
{
    ParseError { offset: data.len(), error: Error::UnexpectedEof }
}

// ---------------------------------------------------------------------------
// Readers.

pub fn read_u8(data: &[u8], pos: usize) -> (r: Result<(u8, usize), ParseError>)
    requires
        pos <= data@.len(),
    ensures
        agrees(r, data@, pos as int, sp_u8(data@, pos as int)),
{
    if data.len() - pos < 1 {
        return Err(eof_error(data));
    }
    Ok((data[pos], pos + 1))
}

pub fn read_i8(data: &[u8], pos: usize) -> (r: Result<(i8, usize), ParseError>)
    requires
        pos <= data@.len(),
    ensures
        agrees(r, data@, pos as int, sp_i8(data@, pos as int)),
{
    if data.len() - pos < 1 {
        return Err(eof_error(data));
    }
    Ok((data[pos] as i8, pos + 1))
}

pub fn read_u16(data: &[u8], pos: usize) -> (r: Result<(u16, usize), ParseError>)
    requires
        pos <= data@.len(),
    ensures
        agrees(r, data@, pos as int, sp_u16(data@, pos as int)),
{
    if data.len() - pos < 2 {
        return Err(eof_error(data));
    }
    Ok((le_read_u16(data, pos), pos + 2))
}

pub fn read_i16(data: &[u8], pos: usize) -> (r: Result<(i16, usize), ParseError>)
    requires
        pos <= data@.len(),
    ensures
        agrees(r, data@, pos as int, sp_i16(data@, pos as int)),
{
    if data.len() - pos < 2 {
        return Err(eof_error(data));
    }
    Ok((le_read_u16(data, pos) as i16, pos + 2))
}

pub fn read_u32(data: &[u8], pos: usize) -> (r: Result<(u32, usize), ParseError>)
    requires
        pos <= data@.len(),
    ensures
        agrees(r, data@, pos as int, sp_u32(data@, pos as int)),
{
    if data.len() - pos < 4 {
        return Err(eof_error(data));
    }
    Ok((le_read_u32(data, pos), pos + 4))
}

pub fn read_i32(data: &[u8], pos: usize) -> (r: Result<(i32, usize), ParseError>)
    requires
        pos <= data@.len(),
    ensures
        agrees(r, data@, pos as int, sp_i32(data@, pos as int)),
{
    if data.len() - pos < 4 {
        return Err(eof_error(data));
    }
    Ok((le_read_u32(data, pos) as i32, pos + 4))
}

pub fn read_u64(data: &[u8], pos: usize) -> (r: Result<(u64, usize), ParseError>)
    requires
        pos <= data@.len(),
    ensures
        agrees(r, data@, pos as int, sp_u64(data@, pos as int)),
{
    if data.len() - pos < 8 {
        return Err(eof_error(data));
    }
    Ok((le_read_u64(data, pos), pos + 8))
}

pub fn read_i64(data: &[u8], pos: usize) -> (r: Result<(i64, usize), ParseError>)
    requires
        pos <= data@.len(),
    ensures
        agrees(r, data@, pos as int, sp_i64(data@, pos as int)),
{
    if data.len() - pos < 8 {
        return Err(eof_error(data));
    }
    Ok((le_read_u64(data, pos) as i64, pos + 8))
}

/// Reads a GUID (16 bytes, each 32-bit group in reverse byte order).
pub fn read_guid(data: &[u8], pos: usize) -> (r: Result<(Guid, usize), ParseError>)
    requires
        pos <= data@.len(),
    ensures
        agrees(r, data@, pos as int, sp_guid(data@, pos as int)),
{
    if data.len() - pos < 16 {
        return Err(eof_error(data));
    }
    let b = &data[pos..pos + 16];
    let g = Guid {
        bytes: [
            b[3], b[2], b[1], b[0],
            b[7], b[6], b[5], b[4],
            b[11], b[10], b[9], b[8],
            b[15], b[14], b[13], b[12],
        ],
    };
    assert(g@ =~= guid_from_stored(data@.subrange(pos as int, pos + 16)));
    Ok((g, pos + 16))
}

/// Reads an optional GUID: a flag byte, and the GUID when it is not zero.
pub fn read_optional_guid(data: &[u8], pos: usize) -> (r: Result<(Option<Guid>, usize), ParseError>)
    requires
        pos <= data@.len(),
    ensures
        r matches Ok((g, e)) ==> pos <= e <= data@.len() && sp_opt_guid(data@, pos as int) == Ok::<
            (Option<Seq<u8>>, nat),
            SpecParseError,
        >((opt_guid_view(g), (e - pos) as nat)),
        r matches Err(err) ==> sp_opt_guid(data@, pos as int) == Err::<(Option<Seq<u8>>, nat), SpecParseError>(err@),
{
    let (flag, p1) = read_u8(data, pos)?;
    if flag > 0 {
        let (g, p2) = read_guid(data, p1)?;
        Ok((Some(g), p2))
    } else {
        Ok((None, p1))
    }
}

// ---------------------------------------------------------------------------
// Writers: each appends the encoding of its value to `out`.

pub fn push_bytes(out: &mut Vec<u8>, b: &[u8])
    ensures
        final(out)@ == old(out)@ + b@,
{
    let mut i: usize = 0;
    while i < b.len()
        invariant
            i <= b@.len(),
            out@ == old(out)@ + b@.subrange(0, i as int),
        decreases b@.len() - i,
    {
        out.push(b[i]);
        i = i + 1;
        assert(out@ =~= old(out)@ + b@.subrange(0, i as int));
    }
    assert(b@.subrange(0, b@.len() as int) =~= b@);
}

pub fn write_u8(out: &mut Vec<u8>, x: u8)
    ensures
        final(out)@ == old(out)@ + u8_bytes(x),
{
    out.push(x);
    assert(out@ =~= old(out)@ + u8_bytes(x));
}

pub fn write_i8(out: &mut Vec<u8>, x: i8)
    ensures
        final(out)@ == old(out)@ + i8_bytes(x),
{
    out.push(x as u8);
    assert(out@ =~= old(out)@ + i8_bytes(x));
}

pub fn write_u16(out: &mut Vec<u8>, x: u16)
    ensures
        final(out)@ == old(out)@ + u16_bytes(x),
{
    let b = le_write_u16(x);
    push_bytes(out, &b);
}

pub fn write_i16(out: &mut Vec<u8>, x: i16)
    ensures
        final(out)@ == old(out)@ + i16_bytes(x),
{
    let b = le_write_u16(x as u16);
    push_bytes(out, &b);
}

pub fn write_u32(out: &mut Vec<u8>, x: u32)
    ensures
        final(out)@ == old(out)@ + u32_bytes(x),
{
    let b = le_write_u32(x);
    push_bytes(out, &b);
}

pub fn write_i32(out: &mut Vec<u8>, x: i32)
    ensures
        final(out)@ == old(out)@ + i32_bytes(x),
{
    let b = le_write_u32(x as u32);
    push_bytes(out, &b);
}

pub fn write_u64(out: &mut Vec<u8>, x: u64)
    ensures
        final(out)@ == old(out)@ + u64_bytes(x),
{
    let b = le_write_u64(x);
    push_bytes(out, &b);
}

pub fn write_i64(out: &mut Vec<u8>, x: i64)
    ensures
        final(out)@ == old(out)@ + i64_bytes(x),
{
    let b = le_write_u64(x as u64);
    push_bytes(out, &b);
}

/// Writes a GUID in its stored byte order.
pub fn write_guid(out: &mut Vec<u8>, g: &Guid)
    ensures
        final(out)@ == old(out)@ + guid_bytes(g@),
{
    let b = &g.bytes;
    let stored: [u8; 16] = [
        b[3], b[2], b[1], b[0],
        b[7], b[6], b[5], b[4],
        b[11], b[10], b[9], b[8],
        b[15], b[14], b[13], b[12],
    ];
    assert(stored@ =~= guid_bytes(g@));
    push_bytes(out, &stored);
}

/// Writes an optional GUID: a flag byte, then the GUID if there is one.
pub fn write_optional_guid(out: &mut Vec<u8>, id: &Option<Guid>)
    ensures
        final(out)@ == old(out)@ + opt_guid_bytes(opt_guid_view(*id)),
{
    match id {
        Some(g) => {
            write_u8(out, 1);
            write_guid(out, g);
            assert(out@ =~= old(out)@ + opt_guid_bytes(opt_guid_view(*id)));
        },
        None => {
            write_u8(out, 0);
        },
    }
}

// ---------------------------------------------------------------------------
// Reading back what was written

/// The bytes `b` stand in `d` from position `p` on.
pub open spec fn at(d: Seq<u8>, p: int, b: Seq<u8>) -> bool {
    0 <= p && p + b.len() <= d.len() && d.subrange(p, p + b.len()) == b
}

/// Two sequences that stand one after the other each stand at their place.
pub proof fn lemma_at_split(d: Seq<u8>, p: int, a: Seq<u8>, b: Seq<u8>)
    requires
        at(d, p, a + b),
    ensures
        at(d, p, a),
        at(d, p + a.len(), b),
{
    assert(d.subrange(p, p + a.len()) =~= (a + b).subrange(0, a.len() as int));
    assert((a + b).subrange(0, a.len() as int) =~= a);
    assert(d.subrange(p + a.len(), p + a.len() + b.len()) =~= (a + b).subrange(
        a.len() as int,
        (a + b).len() as int,
    ));
    assert((a + b).subrange(a.len() as int, (a + b).len() as int) =~= b);
}

/// Two sequences that stand one after the other stand together.
pub proof fn lemma_at_join(d: Seq<u8>, p: int, a: Seq<u8>, b: Seq<u8>)
    requires
        at(d, p, a),
        at(d, p + a.len(), b),
    ensures
        at(d, p, a + b),
{
    assert(d.subrange(p, p + a.len() + b.len()) =~= d.subrange(p, p + a.len()) + d.subrange(
        p + a.len(),
        p + a.len() + b.len(),
    ));
}

pub proof fn lemma_read_u8(d: Seq<u8>, p: int, x: u8)
    requires
        at(d, p, u8_bytes(x)),
    ensures
        sp_u8(d, p) == Ok::<(u8, nat), SpecParseError>((x, 1)),
        u8_bytes(x).len() == 1,
{
    assert(d[p] == d.subrange(p, p + 1)[0]);
}

pub proof fn lemma_read_i8(d: Seq<u8>, p: int, x: i8)
    requires
        at(d, p, i8_bytes(x)),
    ensures
        sp_i8(d, p) == Ok::<(i8, nat), SpecParseError>((x, 1)),
        i8_bytes(x).len() == 1,
{
    assert(d[p] == d.subrange(p, p + 1)[0]);
    assert((x as u8) as i8 == x) by (bit_vector);
}

pub proof fn lemma_read_u16(d: Seq<u8>, p: int, x: u16)
    requires
        at(d, p, u16_bytes(x)),
    ensures
        sp_u16(d, p) == Ok::<(u16, nat), SpecParseError>((x, 2)),
        u16_bytes(x).len() == 2,
{
    lemma_auto_spec_u16_to_from_le_bytes();
}

pub proof fn lemma_read_i16(d: Seq<u8>, p: int, x: i16)
    requires
        at(d, p, i16_bytes(x)),
    ensures
        sp_i16(d, p) == Ok::<(i16, nat), SpecParseError>((x, 2)),
        i16_bytes(x).len() == 2,
{
    lemma_auto_spec_u16_to_from_le_bytes();
    assert((x as u16) as i16 == x) by (bit_vector);
}

pub proof fn lemma_read_u32(d: Seq<u8>, p: int, x: u32)
    requires
        at(d, p, u32_bytes(x)),
    ensures
        sp_u32(d, p) == Ok::<(u32, nat), SpecParseError>((x, 4)),
        u32_bytes(x).len() == 4,
{
    lemma_auto_spec_u32_to_from_le_bytes();
}

pub proof fn lemma_read_i32(d: Seq<u8>, p: int, x: i32)
    requires
        at(d, p, i32_bytes(x)),
    ensures
        sp_i32(d, p) == Ok::<(i32, nat), SpecParseError>((x, 4)),
        i32_bytes(x).len() == 4,
{
    lemma_auto_spec_u32_to_from_le_bytes();
    assert((x as u32) as i32 == x) by (bit_vector);
}

pub proof fn lemma_read_u64(d: Seq<u8>, p: int, x: u64)
    requires
        at(d, p, u64_bytes(x)),
    ensures
        sp_u64(d, p) == Ok::<(u64, nat), SpecParseError>((x, 8)),
        u64_bytes(x).len() == 8,
{
    lemma_auto_spec_u64_to_from_le_bytes();
}

pub proof fn lemma_read_i64(d: Seq<u8>, p: int, x: i64)
    requires
        at(d, p, i64_bytes(x)),
    ensures
        sp_i64(d, p) == Ok::<(i64, nat), SpecParseError>((x, 8)),
        i64_bytes(x).len() == 8,
{
    lemma_auto_spec_u64_to_from_le_bytes();
    assert((x as u64) as i64 == x) by (bit_vector);
}

/// The byte swap of a GUID undoes itself.
pub proof fn lemma_read_guid(d: Seq<u8>, p: int, g: Seq<u8>)
    requires
        g.len() == 16,
        at(d, p, guid_bytes(g)),
    ensures
        sp_guid(d, p) == Ok::<(Seq<u8>, nat), SpecParseError>((g, 16)),
{
    assert(guid_from_stored(guid_from_stored(g)) =~= g);
}

pub proof fn lemma_read_opt_guid(d: Seq<u8>, p: int, g: Option<Seq<u8>>)
    requires
        g matches Some(x) ==> x.len() == 16,
        at(d, p, opt_guid_bytes(g)),
    ensures
        sp_opt_guid(d, p) == Ok::<(Option<Seq<u8>>, nat), SpecParseError>((g, opt_guid_bytes(g).len())),
{
    match g {
        Some(x) => {
            lemma_at_split(d, p, seq![1u8], guid_bytes(x));
            lemma_read_u8(d, p, 1);
            lemma_read_guid(d, p + 1, x);
        },
        None => {
            lemma_read_u8(d, p, 0);
        },
    }
}

} // verus!
