//! Reading a save: each reader computes exactly the value (or the error)
//! that `decode` assigns to the data at its position.
use vstd::prelude::*;

use crate::bytes::{
    agrees, agrees_by, eof_error, read_i16, read_i32, read_i64, read_i8, read_u16, read_u32,
    read_u64, read_u8,
};
use crate::decode::{
    le_bool, le_i16, le_i32, le_i64, le_u16, le_u32, le_u64, le_u8, rem, sp_box, sp_color,
    sp_components, sp_delegate, sp_delegates, sp_field_path, sp_fixed, sp_format_arguments,
    sp_format_value, sp_history_base, sp_history_date, sp_history_format, sp_history_none,
    sp_history_number, sp_int_point, sp_linear_color, sp_multicast, sp_number_options,
    sp_property_type, sp_quat, sp_rotator, sp_string_list, sp_string_pair, sp_string_pairs,
    sp_strings, sp_struct_type, sp_text, sp_text_history, sp_texts, sp_vector, sp_vector2d,
};

use crate::model::{
    Box, Color, Delegate, Error, FFormatArgumentData, FFormatArgumentDataValue,
    FFormatArgumentValue, FNumberFormattingOptions, FieldPath, IntPoint, LinearColor, ParseError,
    Quat, Rotator, SpecDelegate, SpecFormatArgument, SpecResult, SpecText, Text, TextVariant,
    Vector, Vector2D, delegates_view, format_arguments_view, pairs_view,
};

use crate::strings::read_string;
use crate::types::{PropertyType, StructType};
use vstd::string::StringExecFns;

verus! {

broadcast use vstd::std_specs::vec::group_vec_axioms;

/// A list read so far, `acc`, followed by the rest, read `k` bytes in.
pub open spec fn prepend<T>(acc: Seq<T>, k: int, r: SpecResult<Seq<T>>) -> SpecResult<Seq<T>> {
    match r {
        Ok((rest, m)) => Ok((acc + rest, (k + m) as nat)),
        Err(e) => Err(e),
    }
}

/// Reads a property type name.
pub fn read_property_type(data: &[u8], pos: usize) -> (r: Result<(PropertyType, usize), ParseError>)
    requires
        pos <= data@.len(),
    ensures
        agrees(r, data@, pos as int, sp_property_type(data@, pos as int)),
{
    let (s, q) = read_string(data, pos)?;
    match PropertyType::from_name(s.as_str()) {
        Some(t) => Ok((t, q)),
        None => Err(ParseError { offset: q, error: Error::UnknownPropertyType(s) }),
    }
}

/// Reads a struct type name.
pub fn read_struct_type(data: &[u8], pos: usize) -> (r: Result<(StructType, usize), ParseError>)
    requires
        pos <= data@.len(),
    ensures
        agrees(r, data@, pos as int, sp_struct_type(data@, pos as int)),
{
    let (s, q) = read_string(data, pos)?;
    Ok((StructType::from_name(s), q))
}

/// `count` values of 4 bytes each.
pub fn read_i32s(data: &[u8], pos: usize, count: u32) -> (r: Result<(Vec<i32>, usize), ParseError>)
    requires
        pos <= data@.len(),
    ensures
        agrees(r, data@, pos as int, sp_fixed(data@, pos as int, count as nat, 4, |b: Seq<u8>| le_i32(b))),
{
    let avail = data.len() - pos;
    if (avail as u64) < 4u64 * (count as u64) {
        return Err(eof_error(data));
    }
    let mut v: Vec<i32> = Vec::new();
    let mut i: u32 = 0;
    let mut q = pos;
    while i < count
        invariant
            i <= count,
            q == pos + 4 * i,
            pos + 4 * count <= data@.len(),
            v@ =~= Seq::new(i as nat, |j: int| le_i32(data@.subrange(pos + 4 * j, pos + 4 * j + 4))),
        decreases count - i,
    {
        let (x, q2) = read_i32(data, q)?;
        v.push(x);
        q = q2;
        i = i + 1;
        assert(v@ =~= Seq::new(i as nat, |j: int| le_i32(data@.subrange(pos + 4 * j, pos + 4 * j + 4))));
    }
    proof {
        let s = sp_fixed(data@, pos as int, count as nat, 4, |b: Seq<u8>| le_i32(b));
        assert(s->Ok_0.0 =~= v@);
    }
    Ok((v, q))
}

/// `count` values of 2 bytes each.
pub fn read_i16s(data: &[u8], pos: usize, count: u32) -> (r: Result<(Vec<i16>, usize), ParseError>)
    requires
        pos <= data@.len(),
    ensures
        agrees(r, data@, pos as int, sp_fixed(data@, pos as int, count as nat, 2, |b: Seq<u8>| le_i16(b))),
{
    let avail = data.len() - pos;
    if (avail as u64) < 2u64 * (count as u64) {
        return Err(eof_error(data));
    }
    let mut v: Vec<i16> = Vec::new();
    let mut i: u32 = 0;
    let mut q = pos;
    while i < count
        invariant
            i <= count,
            q == pos + 2 * i,
            pos + 2 * count <= data@.len(),
            v@ =~= Seq::new(i as nat, |j: int| le_i16(data@.subrange(pos + 2 * j, pos + 2 * j + 2))),
        decreases count - i,
    {
        let (x, q2) = read_i16(data, q)?;
        v.push(x);
        q = q2;
        i = i + 1;
        assert(v@ =~= Seq::new(i as nat, |j: int| le_i16(data@.subrange(pos + 2 * j, pos + 2 * j + 2))));
    }
    proof {
        let s = sp_fixed(data@, pos as int, count as nat, 2, |b: Seq<u8>| le_i16(b));
        assert(s->Ok_0.0 =~= v@);
    }
    Ok((v, q))
}

/// `count` values of 8 bytes each.
pub fn read_i64s(data: &[u8], pos: usize, count: u32) -> (r: Result<(Vec<i64>, usize), ParseError>)
    requires
        pos <= data@.len(),
    ensures
        agrees(r, data@, pos as int, sp_fixed(data@, pos as int, count as nat, 8, |b: Seq<u8>| le_i64(b))),
{
    let avail = data.len() - pos;
    if (avail as u64) < 8u64 * (count as u64) {
        return Err(eof_error(data));
    }
    let mut v: Vec<i64> = Vec::new();
    let mut i: u32 = 0;
    let mut q = pos;
    while i < count
        invariant
            i <= count,
            q == pos + 8 * i,
            pos + 8 * count <= data@.len(),
            v@ =~= Seq::new(i as nat, |j: int| le_i64(data@.subrange(pos + 8 * j, pos + 8 * j + 8))),
        decreases count - i,
    {
        let (x, q2) = read_i64(data, q)?;
        v.push(x);
        q = q2;
        i = i + 1;
        assert(v@ =~= Seq::new(i as nat, |j: int| le_i64(data@.subrange(pos + 8 * j, pos + 8 * j + 8))));
    }
    proof {
        let s = sp_fixed(data@, pos as int, count as nat, 8, |b: Seq<u8>| le_i64(b));
        assert(s->Ok_0.0 =~= v@);
    }
    Ok((v, q))
}

/// `count` values of 2 bytes each.
pub fn read_u16s(data: &[u8], pos: usize, count: u32) -> (r: Result<(Vec<u16>, usize), ParseError>)
    requires
        pos <= data@.len(),
    ensures
        agrees(r, data@, pos as int, sp_fixed(data@, pos as int, count as nat, 2, |b: Seq<u8>| le_u16(b))),
{
    let avail = data.len() - pos;
    if (avail as u64) < 2u64 * (count as u64) {
        return Err(eof_error(data));
    }
    let mut v: Vec<u16> = Vec::new();
    let mut i: u32 = 0;
    let mut q = pos;
    while i < count
        invariant
            i <= count,
            q == pos + 2 * i,
            pos + 2 * count <= data@.len(),
            v@ =~= Seq::new(i as nat, |j: int| le_u16(data@.subrange(pos + 2 * j, pos + 2 * j + 2))),
        decreases count - i,
    {
        let (x, q2) = read_u16(data, q)?;
        v.push(x);
        q = q2;
        i = i + 1;
        assert(v@ =~= Seq::new(i as nat, |j: int| le_u16(data@.subrange(pos + 2 * j, pos + 2 * j + 2))));
    }
    proof {
        let s = sp_fixed(data@, pos as int, count as nat, 2, |b: Seq<u8>| le_u16(b));
        assert(s->Ok_0.0 =~= v@);
    }
    Ok((v, q))
}

/// `count` values of 4 bytes each.
pub fn read_u32s(data: &[u8], pos: usize, count: u32) -> (r: Result<(Vec<u32>, usize), ParseError>)
    requires
        pos <= data@.len(),
    ensures
        agrees(r, data@, pos as int, sp_fixed(data@, pos as int, count as nat, 4, |b: Seq<u8>| le_u32(b))),
{
    let avail = data.len() - pos;
    if (avail as u64) < 4u64 * (count as u64) {
        return Err(eof_error(data));
    }
    let mut v: Vec<u32> = Vec::new();
    let mut i: u32 = 0;
    let mut q = pos;
    while i < count
        invariant
            i <= count,
            q == pos + 4 * i,
            pos + 4 * count <= data@.len(),
            v@ =~= Seq::new(i as nat, |j: int| le_u32(data@.subrange(pos + 4 * j, pos + 4 * j + 4))),
        decreases count - i,
    {
        let (x, q2) = read_u32(data, q)?;
        v.push(x);
        q = q2;
        i = i + 1;
        assert(v@ =~= Seq::new(i as nat, |j: int| le_u32(data@.subrange(pos + 4 * j, pos + 4 * j + 4))));
    }
    proof {
        let s = sp_fixed(data@, pos as int, count as nat, 4, |b: Seq<u8>| le_u32(b));
        assert(s->Ok_0.0 =~= v@);
    }
    Ok((v, q))
}

/// `count` values of 8 bytes each.
pub fn read_u64s(data: &[u8], pos: usize, count: u32) -> (r: Result<(Vec<u64>, usize), ParseError>)
    requires
        pos <= data@.len(),
    ensures
        agrees(r, data@, pos as int, sp_fixed(data@, pos as int, count as nat, 8, |b: Seq<u8>| le_u64(b))),
{
    let avail = data.len() - pos;
    if (avail as u64) < 8u64 * (count as u64) {
        return Err(eof_error(data));
    }
    let mut v: Vec<u64> = Vec::new();
    let mut i: u32 = 0;
    let mut q = pos;
    while i < count
        invariant
            i <= count,
            q == pos + 8 * i,
            pos + 8 * count <= data@.len(),
            v@ =~= Seq::new(i as nat, |j: int| le_u64(data@.subrange(pos + 8 * j, pos + 8 * j + 8))),
        decreases count - i,
    {
        let (x, q2) = read_u64(data, q)?;
        v.push(x);
        q = q2;
        i = i + 1;
        assert(v@ =~= Seq::new(i as nat, |j: int| le_u64(data@.subrange(pos + 8 * j, pos + 8 * j + 8))));
    }
    proof {
        let s = sp_fixed(data@, pos as int, count as nat, 8, |b: Seq<u8>| le_u64(b));
        assert(s->Ok_0.0 =~= v@);
    }
    Ok((v, q))
}

/// `count` values of 1 bytes each.
pub fn read_u8s(data: &[u8], pos: usize, count: u32) -> (r: Result<(Vec<u8>, usize), ParseError>)
    requires
        pos <= data@.len(),
    ensures
        agrees(r, data@, pos as int, sp_fixed(data@, pos as int, count as nat, 1, |b: Seq<u8>| le_u8(b))),
{
    let avail = data.len() - pos;
    if (avail as u64) < 1u64 * (count as u64) {
        return Err(eof_error(data));
    }
    let mut v: Vec<u8> = Vec::new();
    let mut i: u32 = 0;
    let mut q = pos;
    while i < count
        invariant
            i <= count,
            q == pos + 1 * i,
            pos + 1 * count <= data@.len(),
            v@ =~= Seq::new(i as nat, |j: int| le_u8(data@.subrange(pos + 1 * j, pos + 1 * j + 1))),
        decreases count - i,
    {
        let (x, q2) = read_u8(data, q)?;
        v.push(x);
        q = q2;
        i = i + 1;
        assert(v@ =~= Seq::new(i as nat, |j: int| le_u8(data@.subrange(pos + 1 * j, pos + 1 * j + 1))));
    }
    proof {
        let s = sp_fixed(data@, pos as int, count as nat, 1, |b: Seq<u8>| le_u8(b));
        assert(s->Ok_0.0 =~= v@);
    }
    Ok((v, q))
}

/// `count` values of 1 bytes each.
pub fn read_bools(data: &[u8], pos: usize, count: u32) -> (r: Result<(Vec<bool>, usize), ParseError>)
    requires
        pos <= data@.len(),
    ensures
        agrees(r, data@, pos as int, sp_fixed(data@, pos as int, count as nat, 1, |b: Seq<u8>| le_bool(b))),
{
    let avail = data.len() - pos;
    if (avail as u64) < 1u64 * (count as u64) {
        return Err(eof_error(data));
    }
    let mut v: Vec<bool> = Vec::new();
    let mut i: u32 = 0;
    let mut q = pos;
    while i < count
        invariant
            i <= count,
            q == pos + 1 * i,
            pos + 1 * count <= data@.len(),
            v@ =~= Seq::new(i as nat, |j: int| le_bool(data@.subrange(pos + 1 * j, pos + 1 * j + 1))),
        decreases count - i,
    {
        let (x, q2) = read_u8(data, q)?;
        v.push(x > 0);
        q = q2;
        i = i + 1;
        assert(v@ =~= Seq::new(i as nat, |j: int| le_bool(data@.subrange(pos + 1 * j, pos + 1 * j + 1))));
    }
    proof {
        let s = sp_fixed(data@, pos as int, count as nat, 1, |b: Seq<u8>| le_bool(b));
        assert(s->Ok_0.0 =~= v@);
    }
    Ok((v, q))
}

/// `count` strings.
pub fn read_strings(data: &[u8], pos: usize, count: u32) -> (r: Result<(Vec<String>, usize), ParseError>)
    requires
        pos <= data@.len(),
    ensures
        agrees_by(r, data@, pos as int, sp_strings(data@, pos as int, count as nat), |v: Vec<String>| v.deep_view()),
{
    let mut v: Vec<String> = Vec::new();
    let mut i: u32 = 0;
    let mut q = pos;
    while i < count
        invariant
            i <= count,
            pos <= q <= data@.len(),
            prepend(v.deep_view(), q - pos, sp_strings(data@, q as int, (count - i) as nat))
                == sp_strings(data@, pos as int, count as nat),
        decreases count - i,
    {
        let ghost old_v = v.deep_view();
        let (s, q2) = read_string(data, q)?;
        v.push(s);
        assert(v.deep_view() =~= old_v.push(s@));
        assert(old_v + (seq![s@] + sp_strings(data@, q2 as int, (count - i - 1) as nat)->Ok_0.0)
            =~= v.deep_view() + sp_strings(data@, q2 as int, (count - i - 1) as nat)->Ok_0.0);
        q = q2;
        i = i + 1;
    }
    assert(v.deep_view() + Seq::<Seq<char>>::empty() =~= v.deep_view());
    Ok((v, q))
}

/// Two strings.
pub fn read_string_pair(data: &[u8], pos: usize) -> (r: Result<((String, String), usize), ParseError>)
    requires
        pos <= data@.len(),
    ensures
        agrees(r, data@, pos as int, sp_string_pair(data@, pos as int)),
{
    let (a, q) = read_string(data, pos)?;
    let (b, e) = read_string(data, q)?;
    Ok(((a, b), e))
}

/// `count` pairs of strings.
pub fn read_string_pairs(data: &[u8], pos: usize, count: u32) -> (r: Result<(Vec<(String, String)>, usize), ParseError>)
    requires
        pos <= data@.len(),
    ensures
        agrees_by(r, data@, pos as int, sp_string_pairs(data@, pos as int, count as nat), |v: Vec<(String, String)>| pairs_view(v@)),
{
    let mut v: Vec<(String, String)> = Vec::new();
    let mut i: u32 = 0;
    let mut q = pos;
    while i < count
        invariant
            i <= count,
            pos <= q <= data@.len(),
            prepend(pairs_view(v@), q - pos, sp_string_pairs(data@, q as int, (count - i) as nat))
                == sp_string_pairs(data@, pos as int, count as nat),
        decreases count - i,
    {
        let ghost old_v = pairs_view(v@);
        let (s, q2) = read_string_pair(data, q)?;
        v.push(s);
        assert(pairs_view(v@) =~= old_v.push(s@));
        assert(old_v + (seq![s@] + sp_string_pairs(data@, q2 as int, (count - i - 1) as nat)->Ok_0.0)
            =~= pairs_view(v@) + sp_string_pairs(data@, q2 as int, (count - i - 1) as nat)->Ok_0.0);
        q = q2;
        i = i + 1;
    }
    assert(pairs_view(v@) + Seq::<(Seq<char>, Seq<char>)>::empty() =~= pairs_view(v@));
    Ok((v, q))
}

/// A 32-bit count, then that many strings.
pub fn read_string_list(data: &[u8], pos: usize) -> (r: Result<(Vec<String>, usize), ParseError>)
    requires
        pos <= data@.len(),
    ensures
        agrees_by(r, data@, pos as int, sp_string_list(data@, pos as int), |v: Vec<String>| v.deep_view()),
{
    let (count, q) = read_u32(data, pos)?;
    read_strings(data, q, count)
}

pub fn read_field_path(data: &[u8], pos: usize) -> (r: Result<(FieldPath, usize), ParseError>)
    requires
        pos <= data@.len(),
    ensures
        agrees(r, data@, pos as int, sp_field_path(data@, pos as int)),
{
    let (path, q) = read_string_list(data, pos)?;
    let (owner, e) = read_string(data, q)?;
    Ok((FieldPath { path, owner }, e))
}

pub fn read_delegate(data: &[u8], pos: usize) -> (r: Result<(Delegate, usize), ParseError>)
    requires
        pos <= data@.len(),
    ensures
        agrees(r, data@, pos as int, sp_delegate(data@, pos as int)),
{
    let ((name, path), e) = read_string_pair(data, pos)?;
    Ok((Delegate { name, path }, e))
}

/// `count` delegates.
pub fn read_delegates(data: &[u8], pos: usize, count: u32) -> (r: Result<(Vec<Delegate>, usize), ParseError>)
    requires
        pos <= data@.len(),
    ensures
        agrees_by(r, data@, pos as int, sp_delegates(data@, pos as int, count as nat), |v: Vec<Delegate>| delegates_view(v@)),
{
    let mut v: Vec<Delegate> = Vec::new();
    let mut i: u32 = 0;
    let mut q = pos;
    while i < count
        invariant
            i <= count,
            pos <= q <= data@.len(),
            prepend(delegates_view(v@), q - pos, sp_delegates(data@, q as int, (count - i) as nat))
                == sp_delegates(data@, pos as int, count as nat),
        decreases count - i,
    {
        let ghost old_v = delegates_view(v@);
        let (x, q2) = read_delegate(data, q)?;
        v.push(x);
        assert(delegates_view(v@) =~= old_v.push(x@));
        assert(old_v + (seq![x@] + sp_delegates(data@, q2 as int, (count - i - 1) as nat)->Ok_0.0)
            =~= delegates_view(v@) + sp_delegates(data@, q2 as int, (count - i - 1) as nat)->Ok_0.0);
        q = q2;
        i = i + 1;
    }
    assert(delegates_view(v@) + Seq::<SpecDelegate>::empty() =~= delegates_view(v@));
    Ok((v, q))
}

/// A 32-bit count, then that many delegates.
pub fn read_multicast(data: &[u8], pos: usize) -> (r: Result<(Vec<Delegate>, usize), ParseError>)
    requires
        pos <= data@.len(),
    ensures
        agrees_by(r, data@, pos as int, sp_multicast(data@, pos as int), |v: Vec<Delegate>| delegates_view(v@)),
{
    let (count, start) = read_u32(data, pos)?;
    read_delegates(data, start, count)
}

pub fn read_linear_color(data: &[u8], pos: usize) -> (r: Result<(LinearColor, usize), ParseError>)
    requires
        pos <= data@.len(),
    ensures
        agrees(r, data@, pos as int, sp_linear_color(data@, pos as int)),
{
    let (c, e) = read_u32s(data, pos, 4)?;
    Ok((LinearColor { r: c[0], g: c[1], b: c[2], a: c[3] }, e))
}

/// `count` float components, 64-bit with large world coordinates and
/// 32-bit otherwise.
pub fn read_components(data: &[u8], pos: usize, lwc: bool, count: u32) -> (r: Result<(Vec<u64>, usize), ParseError>)
    requires
        pos <= data@.len(),
    ensures
        agrees(r, data@, pos as int, sp_components(data@, pos as int, lwc, count as nat)),
{
    if lwc {
        read_u64s(data, pos, count)
    } else {
        let (c, e) = read_u32s(data, pos, count)?;
        let mut v: Vec<u64> = Vec::new();
        let mut i: usize = 0;
        while i < c.len()
            invariant
                i <= c@.len(),
                v@ =~= Seq::new(i as nat, |j: int| c@[j] as u64),
            decreases c@.len() - i,
        {
            v.push(c[i] as u64);
            i = i + 1;
        }
        proof {
            let s = sp_components(data@, pos as int, lwc, count as nat);
            let t = sp_fixed(data@, pos as int, count as nat, 4, |b: Seq<u8>| le_u32(b));
            assert(s->Ok_0.0 =~= v@);
        }
        Ok((v, e))
    }
}

pub fn read_quat(data: &[u8], pos: usize, lwc: bool) -> (r: Result<(Quat, usize), ParseError>)
    requires
        pos <= data@.len(),
    ensures
        agrees(r, data@, pos as int, sp_quat(data@, pos as int, lwc)),
{
    let (c, e) = read_components(data, pos, lwc, 4)?;
    Ok((Quat { x: c[0], y: c[1], z: c[2], w: c[3] }, e))
}

pub fn read_rotator(data: &[u8], pos: usize, lwc: bool) -> (r: Result<(Rotator, usize), ParseError>)
    requires
        pos <= data@.len(),
    ensures
        agrees(r, data@, pos as int, sp_rotator(data@, pos as int, lwc)),
{
    let (c, e) = read_components(data, pos, lwc, 3)?;
    Ok((Rotator { x: c[0], y: c[1], z: c[2] }, e))
}

pub fn read_vector(data: &[u8], pos: usize, lwc: bool) -> (r: Result<(Vector, usize), ParseError>)
    requires
        pos <= data@.len(),
    ensures
        agrees(r, data@, pos as int, sp_vector(data@, pos as int, lwc)),
{
    let (c, e) = read_components(data, pos, lwc, 3)?;
    Ok((Vector { x: c[0], y: c[1], z: c[2] }, e))
}

pub fn read_color(data: &[u8], pos: usize) -> (r: Result<(Color, usize), ParseError>)
    requires
        pos <= data@.len(),
    ensures
        agrees(r, data@, pos as int, sp_color(data@, pos as int)),
{
    if data.len() - pos < 4 {
        return Err(eof_error(data));
    }
    Ok((Color { r: data[pos], g: data[pos + 1], b: data[pos + 2], a: data[pos + 3] }, pos + 4))
}

pub fn read_vector2d(data: &[u8], pos: usize) -> (r: Result<(Vector2D, usize), ParseError>)
    requires
        pos <= data@.len(),
    ensures
        agrees(r, data@, pos as int, sp_vector2d(data@, pos as int)),
{
    let (c, e) = read_u32s(data, pos, 2)?;
    Ok((Vector2D { x: c[0], y: c[1] }, e))
}

/// Two vectors, then a byte that is skipped.
pub fn read_box(data: &[u8], pos: usize, lwc: bool) -> (r: Result<(Box, usize), ParseError>)
    requires
        pos <= data@.len(),
    ensures
        agrees(r, data@, pos as int, sp_box(data@, pos as int, lwc)),
{
    let (a, q1) = read_vector(data, pos, lwc)?;
    let (b, q2) = read_vector(data, q1, lwc)?;
    let (_, e) = read_u8(data, q2)?;
    Ok((Box { a, b }, e))
}

pub fn read_int_point(data: &[u8], pos: usize) -> (r: Result<(IntPoint, usize), ParseError>)
    requires
        pos <= data@.len(),
    ensures
        agrees(r, data@, pos as int, sp_int_point(data@, pos as int)),
{
    let (c, e) = read_i32s(data, pos, 2)?;
    Ok((IntPoint { x: c[0], y: c[1] }, e))
}

pub fn read_number_options(data: &[u8], pos: usize) -> (r: Result<(FNumberFormattingOptions, usize), ParseError>)
    requires
        pos <= data@.len(),
    ensures
        agrees(r, data@, pos as int, sp_number_options(data@, pos as int)),
{
    let (flags, q1) = read_u32s(data, pos, 2)?;
    let (rounding_mode, q2) = read_i8(data, q1)?;
    let (digits, e) = read_i32s(data, q2, 4)?;
    Ok((
        FNumberFormattingOptions {
            always_sign: flags[0] != 0,
            use_grouping: flags[1] != 0,
            rounding_mode,
            minimum_integral_digits: digits[0],
            maximum_integral_digits: digits[1],
            minimum_fractional_digits: digits[2],
            maximum_fractional_digits: digits[3],
        },
        e,
    ))
}


/// An argument value in the 64-bit form: a kind byte, then the value.
pub fn read_format_value(data: &[u8], pos: usize) -> (r: Result<(FFormatArgumentValue, usize), ParseError>)
    requires
        pos <= data@.len(),
    ensures
        agrees(r, data@, pos as int, sp_format_value(data@, pos as int, true)),
    decreases rem(data@, pos as int), 1nat,
{
    let (kind, q) = read_u8(data, pos)?;
    if kind == 0 {
        let (v, e) = read_i64(data, q)?;
        Ok((FFormatArgumentValue::Int(v), e))
    } else if kind == 1 {
        let (v, e) = read_u64(data, q)?;
        Ok((FFormatArgumentValue::UInt(v), e))
    } else if kind == 2 {
        let (v, e) = read_u32(data, q)?;
        Ok((FFormatArgumentValue::Float(v), e))
    } else if kind == 3 {
        let (v, e) = read_u64(data, q)?;
        Ok((FFormatArgumentValue::Double(v), e))
    } else if kind == 4 {
        let (t, e) = read_text(data, q)?;
        Ok((FFormatArgumentValue::Text(std::boxed::Box::new(t)), e))
    } else if kind == 5 {
        let (v, e) = read_u64(data, q)?;
        Ok((FFormatArgumentValue::Gender(v), e))
    } else {
        Err(ParseError { offset: q, error: Error::UnknownFormatArgumentValue(kind) })
    }
}

/// An argument value in the 32-bit form: a kind byte, then the value.
pub fn read_format_data_value(data: &[u8], pos: usize) -> (r: Result<(FFormatArgumentDataValue, usize), ParseError>)
    requires
        pos <= data@.len(),
    ensures
        agrees(r, data@, pos as int, sp_format_value(data@, pos as int, false)),
    decreases rem(data@, pos as int), 1nat,
{
    let (kind, q) = read_u8(data, pos)?;
    if kind == 0 {
        let (v, e) = read_i32(data, q)?;
        Ok((FFormatArgumentDataValue::Int(v), e))
    } else if kind == 1 {
        let (v, e) = read_u32(data, q)?;
        Ok((FFormatArgumentDataValue::UInt(v), e))
    } else if kind == 2 {
        let (v, e) = read_u32(data, q)?;
        Ok((FFormatArgumentDataValue::Float(v), e))
    } else if kind == 3 {
        let (v, e) = read_u64(data, q)?;
        Ok((FFormatArgumentDataValue::Double(v), e))
    } else if kind == 4 {
        let (t, e) = read_text(data, q)?;
        Ok((FFormatArgumentDataValue::Text(std::boxed::Box::new(t)), e))
    } else if kind == 5 {
        let (v, e) = read_u64(data, q)?;
        Ok((FFormatArgumentDataValue::Gender(v), e))
    } else {
        Err(ParseError { offset: q, error: Error::UnknownFormatArgumentDataValue(kind) })
    }
}

/// `count` named arguments.
#[verifier::rlimit(60)]
pub fn read_format_arguments(data: &[u8], pos: usize, count: u32) -> (r: Result<(Vec<FFormatArgumentData>, usize), ParseError>)
    requires
        pos <= data@.len(),
    ensures
        agrees_by(
            r,
            data@,
            pos as int,
            sp_format_arguments(data@, pos as int, count as nat),
            |v: Vec<FFormatArgumentData>| format_arguments_view(v),
        ),
    decreases rem(data@, pos as int), 1nat,
{
    let mut v: Vec<FFormatArgumentData> = Vec::new();
    let mut i: u32 = 0;
    let mut q = pos;
    while i < count
        invariant
            i <= count,
            pos <= q <= data@.len(),
            prepend(format_arguments_view(v), q - pos, sp_format_arguments(data@, q as int, (count - i) as nat))
                == sp_format_arguments(data@, pos as int, count as nat),
        decreases count - i,
    {
        let ghost old_v = format_arguments_view(v);
        let (name, q1) = read_string(data, q)?;
        let (value, q2) = read_format_data_value(data, q1)?;
        let arg = FFormatArgumentData { name, value };
        let ghost a = arg@;
        v.push(arg);
        assert(format_arguments_view(v) =~= old_v.push(a));
        assert(old_v + (seq![a] + sp_format_arguments(data@, q2 as int, (count - i - 1) as nat)->Ok_0.0)
            =~= format_arguments_view(v) + sp_format_arguments(data@, q2 as int, (count - i - 1) as nat)->Ok_0.0);
        q = q2;
        i = i + 1;
    }
    assert(format_arguments_view(v) + Seq::<SpecFormatArgument>::empty() =~= format_arguments_view(v));
    Ok((v, q))
}

/// A text: flags, a history kind, then the history.
pub fn read_text(data: &[u8], pos: usize) -> (r: Result<(Text, usize), ParseError>)
    requires
        pos <= data@.len(),
    ensures
        agrees(r, data@, pos as int, sp_text(data@, pos as int)),
    decreases rem(data@, pos as int), 1nat,
{
    let (flags, q0) = read_u32(data, pos)?;
    let (kind, q1) = read_i8(data, q0)?;
    let (variant, e) = read_text_history(data, q1, kind)?;
    Ok((Text { flags, variant }, e))
}

/// The history of a text, of the given kind.
pub fn read_text_history(data: &[u8], pos: usize, kind: i8) -> (r: Result<(TextVariant, usize), ParseError>)
    requires
        pos <= data@.len(),
    ensures
        agrees(r, data@, pos as int, sp_text_history(data@, pos as int, kind)),
    decreases rem(data@, pos as int), 3nat,
{
    if kind == -1 {
        read_history_none(data, pos)
    } else if kind == 0 {
        read_history_base(data, pos)
    } else if kind == 3 {
        read_history_format(data, pos)
    } else if kind == 4 {
        read_history_number(data, pos)
    } else if kind == 7 {
        read_history_date(data, pos)
    } else if kind == 0xb {
        let ((table, key), e) = read_string_pair(data, pos)?;
        Ok((TextVariant::StringTableEntry { table, key }, e))
    } else {
        Err(ParseError { offset: pos, error: Error::UnknownTextHistory(kind) })
    }
}

fn read_history_none(data: &[u8], pos: usize) -> (r: Result<(TextVariant, usize), ParseError>)
    requires
        pos <= data@.len(),
    ensures
        agrees(r, data@, pos as int, sp_history_none(data@, pos as int)),
{
    let (has, q) = read_u32(data, pos)?;
    if has != 0 {
        let (s, e) = read_string(data, q)?;
        Ok((TextVariant::NoHistory { culture_invariant: Some(s) }, e))
    } else {
        Ok((TextVariant::NoHistory { culture_invariant: None }, q))
    }
}

fn read_history_base(data: &[u8], pos: usize) -> (r: Result<(TextVariant, usize), ParseError>)
    requires
        pos <= data@.len(),
    ensures
        agrees(r, data@, pos as int, sp_history_base(data@, pos as int)),
{
    let (namespace, q) = read_string(data, pos)?;
    let ((key, source_string), e) = read_string_pair(data, q)?;
    Ok((TextVariant::Base { namespace, key, source_string }, e))
}

fn read_history_date(data: &[u8], pos: usize) -> (r: Result<(TextVariant, usize), ParseError>)
    requires
        pos <= data@.len(),
    ensures
        agrees(r, data@, pos as int, sp_history_date(data@, pos as int)),
{
    let (source_date_time, q1) = read_u64(data, pos)?;
    let (date_style, q2) = read_i8(data, q1)?;
    let ((time_zone, culture_name), e) = read_string_pair(data, q2)?;
    Ok((TextVariant::AsDate { source_date_time, date_style, time_zone, culture_name }, e))
}

fn read_history_format(data: &[u8], pos: usize) -> (r: Result<(TextVariant, usize), ParseError>)
    requires
        pos <= data@.len(),
    ensures
        agrees(r, data@, pos as int, sp_history_format(data@, pos as int)),
    decreases rem(data@, pos as int), 2nat,
{
    let (format_text, q1) = read_text(data, pos)?;
    let (count, q2) = read_u32(data, q1)?;
    let (arguments, e) = read_format_arguments(data, q2, count)?;
    Ok((TextVariant::ArgumentFormat { format_text: std::boxed::Box::new(format_text), arguments }, e))
}

fn read_history_number(data: &[u8], pos: usize) -> (r: Result<(TextVariant, usize), ParseError>)
    requires
        pos <= data@.len(),
    ensures
        agrees(r, data@, pos as int, sp_history_number(data@, pos as int)),
    decreases rem(data@, pos as int), 2nat,
{
    let (source_value, q1) = read_format_value(data, pos)?;
    let (has, q2) = read_u32(data, q1)?;
    if has != 0 {
        let (o, q3) = read_number_options(data, q2)?;
        let (culture_name, e) = read_string(data, q3)?;
        Ok((TextVariant::AsNumber { source_value, format_options: Some(o), culture_name }, e))
    } else {
        let (culture_name, e) = read_string(data, q2)?;
        Ok((TextVariant::AsNumber { source_value, format_options: None, culture_name }, e))
    }
}

/// `count` texts.
#[verifier::spinoff_prover]
#[verifier::rlimit(100)]
pub fn read_texts(data: &[u8], pos: usize, count: u32) -> (r: Result<(Vec<Text>, usize), ParseError>)
    requires
        pos <= data@.len(),
    ensures
        agrees_by(r, data@, pos as int, sp_texts(data@, pos as int, count as nat), |v: Vec<Text>| v@.map_values(|t: Text| t@)),
{
    let mut v: Vec<Text> = Vec::new();
    let mut i: u32 = 0;
    let mut q = pos;
    while i < count
        invariant
            i <= count,
            pos <= q <= data@.len(),
            prepend(v@.map_values(|t: Text| t@), q - pos, sp_texts(data@, q as int, (count - i) as nat))
                == sp_texts(data@, pos as int, count as nat),
        decreases count - i,
    {
        let ghost old_v = v@.map_values(|t: Text| t@);
        let (x, q2) = read_text(data, q)?;
        let ghost xv = x@;
        v.push(x);
        assert(v@.map_values(|t: Text| t@) =~= old_v.push(xv));
        assert(old_v + (seq![xv] + sp_texts(data@, q2 as int, (count - i - 1) as nat)->Ok_0.0)
            =~= v@.map_values(|t: Text| t@) + sp_texts(data@, q2 as int, (count - i - 1) as nat)->Ok_0.0);
        q = q2;
        i = i + 1;
    }
    assert(v@.map_values(|t: Text| t@) + Seq::<SpecText>::empty() =~= v@.map_values(|t: Text| t@));
    Ok((v, q))
}

} // verus!
