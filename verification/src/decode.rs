//! The save format, as what a byte sequence stands for.
//!
//! Each `sp_*` function gives the value stored at a position of the data
//! and the number of bytes it takes, or the error (with its offset) that a
//! reader meets there.  The readers in `read` are proved to compute exactly
//! these functions.
use vstd::prelude::*;
use vstd::bytes::{spec_u16_from_le_bytes, spec_u32_from_le_bytes, spec_u64_from_le_bytes};

use crate::bytes::{
    eof, sp_bytes, sp_guid, sp_i16, sp_i32, sp_i64, sp_i8, sp_opt_guid, sp_u16, sp_u32, sp_u64,
    sp_u8,
};
use crate::model::{
    Box, Color, FNumberFormattingOptions, IntPoint, LinearColor, PackageVersion, Quat, Rotator,
    SpecByte, SpecByteArray, SpecDelegate, SpecError, SpecFieldPath, SpecFormatArgument,
    SpecFormatValue, SpecHeader, SpecMapEntry, SpecParseError, SpecProperty, SpecPropertyValue,
    SpecResult, SpecRoot, SpecSave, SpecStructValue, SpecText, SpecTextVariant, SpecValueArray,
    SpecValueSet, SpecValueVec, Vector, Vector2D,
};
use crate::strings::sp_string;
use crate::types::{PropertyType, SpecStructType, property_type_from_name, struct_type_from_name};

verus! {

/// The bytes left from `p` on; the measure that every recursive reader
/// decreases.
pub open spec fn rem(d: Seq<u8>, p: int) -> nat {
    if p < d.len() {
        (d.len() - p) as nat
    } else {
        0
    }
}

/// Moves a result's byte count by `k` (the bytes read before it).
pub open spec fn after<T>(r: SpecResult<T>, k: nat) -> SpecResult<T> {
    match r {
        Ok((v, n)) => Ok((v, n + k)),
        Err(e) => Err(e),
    }
}

/// The type table and the setting that a reader carries along.
pub struct Ctx {
    /// Vectors, quaternions and rotators hold 64-bit floats.
    pub lwc: bool,
    /// The struct types registered for paths.
    pub types: Map<Seq<char>, SpecStructType>,
}

/// The path of a property named `name` inside the property at `path`.
pub open spec fn child_path(path: Seq<char>, name: Seq<char>) -> Seq<char> {
    path + "."@ + name
}

/// The struct type registered at `path`, or `default`.
pub open spec fn type_or(ctx: Ctx, path: Seq<char>, default: SpecStructType) -> SpecStructType {
    if ctx.types.contains_key(path) {
        ctx.types[path]
    } else {
        default
    }
}

// ---------------------------------------------------------------------------
// Tags

/// A property type, stored as its name.
pub open spec fn sp_property_type(d: Seq<u8>, p: int) -> SpecResult<PropertyType> {
    match sp_string(d, p) {
        Err(e) => Err(e),
        Ok((s, n)) => match property_type_from_name(s) {
            Some(t) => Ok((t, n)),
            None => Err(SpecParseError { offset: p + n, error: SpecError::UnknownPropertyType(s) }),
        },
    }
}

/// A struct type, stored as its name.
pub open spec fn sp_struct_type(d: Seq<u8>, p: int) -> SpecResult<SpecStructType> {
    match sp_string(d, p) {
        Err(e) => Err(e),
        Ok((s, n)) => Ok((struct_type_from_name(s), n)),
    }
}

// ---------------------------------------------------------------------------
// Lists

/// `count` elements of `w` bytes each, each decoded by `f`.
pub open spec fn sp_fixed<T>(d: Seq<u8>, p: int, count: nat, w: nat, f: spec_fn(Seq<u8>) -> T) -> SpecResult<Seq<T>> {
    if 0 <= p && p + w * count <= d.len() {
        Ok((Seq::new(count, |i: int| f(d.subrange(p + w * i, p + w * i + w))), w * count))
    } else {
        Err(eof(d))
    }
}

pub open spec fn le_i8(b: Seq<u8>) -> i8 {
    b[0] as i8
}

pub open spec fn le_u8(b: Seq<u8>) -> u8 {
    b[0]
}

pub open spec fn le_bool(b: Seq<u8>) -> bool {
    b[0] > 0
}

pub open spec fn le_i16(b: Seq<u8>) -> i16 {
    spec_u16_from_le_bytes(b) as i16
}

pub open spec fn le_u16(b: Seq<u8>) -> u16 {
    spec_u16_from_le_bytes(b)
}

pub open spec fn le_i32(b: Seq<u8>) -> i32 {
    spec_u32_from_le_bytes(b) as i32
}

pub open spec fn le_u32(b: Seq<u8>) -> u32 {
    spec_u32_from_le_bytes(b)
}

pub open spec fn le_i64(b: Seq<u8>) -> i64 {
    spec_u64_from_le_bytes(b) as i64
}

pub open spec fn le_u64(b: Seq<u8>) -> u64 {
    spec_u64_from_le_bytes(b)
}

/// `count` stored strings.
pub open spec fn sp_strings(d: Seq<u8>, p: int, count: nat) -> SpecResult<Seq<Seq<char>>>
    decreases count,
{
    if count == 0 {
        Ok((Seq::empty(), 0))
    } else {
        match sp_string(d, p) {
            Err(e) => Err(e),
            Ok((s, n)) => match sp_strings(d, p + n, (count - 1) as nat) {
                Err(e) => Err(e),
                Ok((rest, m)) => Ok((seq![s] + rest, n + m)),
            },
        }
    }
}

/// `count` pairs of stored strings.
pub open spec fn sp_string_pairs(d: Seq<u8>, p: int, count: nat) -> SpecResult<Seq<(Seq<char>, Seq<char>)>>
    decreases count,
{
    if count == 0 {
        Ok((Seq::empty(), 0))
    } else {
        match sp_string_pair(d, p) {
            Err(e) => Err(e),
            Ok((s, n)) => match sp_string_pairs(d, p + n, (count - 1) as nat) {
                Err(e) => Err(e),
                Ok((rest, m)) => Ok((seq![s] + rest, n + m)),
            },
        }
    }
}

/// Two stored strings, one after the other.
pub open spec fn sp_string_pair(d: Seq<u8>, p: int) -> SpecResult<(Seq<char>, Seq<char>)> {
    match sp_string(d, p) {
        Err(e) => Err(e),
        Ok((a, n)) => match sp_string(d, p + n) {
            Err(e) => Err(e),
            Ok((b, m)) => Ok(((a, b), n + m)),
        },
    }
}

/// A list: a 32-bit count, then that many strings.
pub open spec fn sp_string_list(d: Seq<u8>, p: int) -> SpecResult<Seq<Seq<char>>> {
    match sp_u32(d, p) {
        Err(e) => Err(e),
        Ok((count, n)) => after(sp_strings(d, p + n, count as nat), n),
    }
}

// ---------------------------------------------------------------------------
// Plain structs

pub open spec fn sp_field_path(d: Seq<u8>, p: int) -> SpecResult<SpecFieldPath> {
    match sp_string_list(d, p) {
        Err(e) => Err(e),
        Ok((path, n)) => match sp_string(d, p + n) {
            Err(e) => Err(e),
            Ok((owner, m)) => Ok((SpecFieldPath { path, owner }, n + m)),
        },
    }
}

pub open spec fn sp_delegate(d: Seq<u8>, p: int) -> SpecResult<SpecDelegate> {
    match sp_string_pair(d, p) {
        Err(e) => Err(e),
        Ok(((name, path), n)) => Ok((SpecDelegate { name, path }, n)),
    }
}

pub open spec fn sp_delegates(d: Seq<u8>, p: int, count: nat) -> SpecResult<Seq<SpecDelegate>>
    decreases count,
{
    if count == 0 {
        Ok((Seq::empty(), 0))
    } else {
        match sp_delegate(d, p) {
            Err(e) => Err(e),
            Ok((x, n)) => match sp_delegates(d, p + n, (count - 1) as nat) {
                Err(e) => Err(e),
                Ok((rest, m)) => Ok((seq![x] + rest, n + m)),
            },
        }
    }
}

/// A multicast delegate: a 32-bit count, then that many delegates.
pub open spec fn sp_multicast(d: Seq<u8>, p: int) -> SpecResult<Seq<SpecDelegate>> {
    match sp_u32(d, p) {
        Err(e) => Err(e),
        Ok((count, n)) => after(sp_delegates(d, p + n, count as nat), n),
    }
}

pub open spec fn sp_linear_color(d: Seq<u8>, p: int) -> SpecResult<LinearColor> {
    match sp_fixed(d, p, 4, 4, |b: Seq<u8>| le_u32(b)) {
        Err(e) => Err(e),
        Ok((c, n)) => Ok((LinearColor { r: c[0], g: c[1], b: c[2], a: c[3] }, n)),
    }
}

/// `count` float components: 64-bit with large world coordinates,
/// otherwise 32-bit (held in the low half).
pub open spec fn sp_components(d: Seq<u8>, p: int, lwc: bool, count: nat) -> SpecResult<Seq<u64>> {
    if lwc {
        sp_fixed(d, p, count, 8, |b: Seq<u8>| le_u64(b))
    } else {
        sp_fixed(d, p, count, 4, |b: Seq<u8>| le_u32(b) as u64)
    }
}

pub open spec fn sp_quat(d: Seq<u8>, p: int, lwc: bool) -> SpecResult<Quat> {
    match sp_components(d, p, lwc, 4) {
        Err(e) => Err(e),
        Ok((c, n)) => Ok((Quat { x: c[0], y: c[1], z: c[2], w: c[3] }, n)),
    }
}

pub open spec fn sp_rotator(d: Seq<u8>, p: int, lwc: bool) -> SpecResult<Rotator> {
    match sp_components(d, p, lwc, 3) {
        Err(e) => Err(e),
        Ok((c, n)) => Ok((Rotator { x: c[0], y: c[1], z: c[2] }, n)),
    }
}

pub open spec fn sp_vector(d: Seq<u8>, p: int, lwc: bool) -> SpecResult<Vector> {
    match sp_components(d, p, lwc, 3) {
        Err(e) => Err(e),
        Ok((c, n)) => Ok((Vector { x: c[0], y: c[1], z: c[2] }, n)),
    }
}

pub open spec fn sp_color(d: Seq<u8>, p: int) -> SpecResult<Color> {
    match sp_bytes(d, p, 4) {
        Err(e) => Err(e),
        Ok((c, n)) => Ok((Color { r: c[0], g: c[1], b: c[2], a: c[3] }, n)),
    }
}

pub open spec fn sp_vector2d(d: Seq<u8>, p: int) -> SpecResult<Vector2D> {
    match sp_fixed(d, p, 2, 4, |b: Seq<u8>| le_u32(b)) {
        Err(e) => Err(e),
        Ok((c, n)) => Ok((Vector2D { x: c[0], y: c[1] }, n)),
    }
}

/// A box: two vectors and a trailing byte that is skipped.
pub open spec fn sp_box(d: Seq<u8>, p: int, lwc: bool) -> SpecResult<Box> {
    match sp_vector(d, p, lwc) {
        Err(e) => Err(e),
        Ok((a, n)) => match sp_vector(d, p + n, lwc) {
            Err(e) => Err(e),
            Ok((b, m)) => match sp_u8(d, p + n + m) {
                Err(e) => Err(e),
                Ok((_, k)) => Ok((Box { a, b }, n + m + k)),
            },
        },
    }
}

pub open spec fn sp_int_point(d: Seq<u8>, p: int) -> SpecResult<IntPoint> {
    match sp_fixed(d, p, 2, 4, |b: Seq<u8>| le_i32(b)) {
        Err(e) => Err(e),
        Ok((c, n)) => Ok((IntPoint { x: c[0], y: c[1] }, n)),
    }
}

// ---------------------------------------------------------------------------
// Text

pub open spec fn sp_number_options(d: Seq<u8>, p: int) -> SpecResult<FNumberFormattingOptions> {
    match sp_fixed(d, p, 2, 4, |b: Seq<u8>| le_u32(b)) {
        Err(e) => Err(e),
        Ok((flags, n)) => match sp_i8(d, p + n) {
            Err(e) => Err(e),
            Ok((rounding_mode, m)) => match sp_fixed(d, p + n + m, 4, 4, |b: Seq<u8>| le_i32(b)) {
                Err(e) => Err(e),
                Ok((digits, k)) => Ok((
                    FNumberFormattingOptions {
                        always_sign: flags[0] != 0,
                        use_grouping: flags[1] != 0,
                        rounding_mode,
                        minimum_integral_digits: digits[0],
                        maximum_integral_digits: digits[1],
                        minimum_fractional_digits: digits[2],
                        maximum_fractional_digits: digits[3],
                    },
                    n + m + k,
                )),
            },
        },
    }
}

/// An argument value: a kind byte, then the value.  `wide` selects the
/// form with 64-bit integers.
pub open spec fn sp_format_value(d: Seq<u8>, p: int, wide: bool) -> SpecResult<SpecFormatValue>
    decreases rem(d, p), 1nat,
{
    match sp_u8(d, p) {
        Err(e) => Err(e),
        Ok((kind, n)) => {
            let q = p + n;
            if kind == 0 {
                if wide {
                    match sp_i64(d, q) {
                        Err(e) => Err(e),
                        Ok((v, m)) => Ok((SpecFormatValue::Int(v as int), n + m)),
                    }
                } else {
                    match sp_i32(d, q) {
                        Err(e) => Err(e),
                        Ok((v, m)) => Ok((SpecFormatValue::Int(v as int), n + m)),
                    }
                }
            } else if kind == 1 {
                if wide {
                    match sp_u64(d, q) {
                        Err(e) => Err(e),
                        Ok((v, m)) => Ok((SpecFormatValue::UInt(v as int), n + m)),
                    }
                } else {
                    match sp_u32(d, q) {
                        Err(e) => Err(e),
                        Ok((v, m)) => Ok((SpecFormatValue::UInt(v as int), n + m)),
                    }
                }
            } else if kind == 2 {
                match sp_u32(d, q) {
                    Err(e) => Err(e),
                    Ok((v, m)) => Ok((SpecFormatValue::Float(v), n + m)),
                }
            } else if kind == 3 {
                match sp_u64(d, q) {
                    Err(e) => Err(e),
                    Ok((v, m)) => Ok((SpecFormatValue::Double(v), n + m)),
                }
            } else if kind == 4 {
                match sp_text(d, q) {
                    Err(e) => Err(e),
                    Ok((t, m)) => Ok((SpecFormatValue::Text(std::boxed::Box::new(t)), n + m)),
                }
            } else if kind == 5 {
                match sp_u64(d, q) {
                    Err(e) => Err(e),
                    Ok((v, m)) => Ok((SpecFormatValue::Gender(v), n + m)),
                }
            } else {
                Err(
                    SpecParseError {
                        offset: q,
                        error: if wide {
                            SpecError::UnknownFormatArgumentValue(kind)
                        } else {
                            SpecError::UnknownFormatArgumentDataValue(kind)
                        },
                    },
                )
            }
        },
    }
}

/// `count` named arguments (the 32-bit argument form).
pub open spec fn sp_format_arguments(d: Seq<u8>, p: int, count: nat) -> SpecResult<Seq<SpecFormatArgument>>
    decreases rem(d, p), 1nat,
{
    if count == 0 {
        Ok((Seq::empty(), 0))
    } else {
        match sp_string(d, p) {
            Err(e) => Err(e),
            Ok((name, n)) => match sp_format_value(d, p + n, false) {
                Err(e) => Err(e),
                Ok((value, m)) => match sp_format_arguments(d, p + n + m, (count - 1) as nat) {
                    Err(e) => Err(e),
                    Ok((rest, k)) => Ok((seq![SpecFormatArgument { name, value }] + rest, n + m + k)),
                },
            },
        }
    }
}

/// A text: 32 bits of flags, a history kind, then the history.
pub open spec fn sp_text(d: Seq<u8>, p: int) -> SpecResult<SpecText>
    decreases rem(d, p), 1nat,
{
    match sp_u32(d, p) {
        Err(e) => Err(e),
        Ok((flags, n0)) => match sp_i8(d, p + n0) {
            Err(e) => Err(e),
            Ok((kind, n1)) => {
                let q = p + n0 + n1;
                match sp_text_history(d, q, kind) {
                    Err(e) => Err(e),
                    Ok((variant, m)) => Ok((SpecText { flags, variant }, n0 + n1 + m)),
                }
            },
        },
    }
}

/// The history of a text, of the given kind, at `q`.
pub open spec fn sp_text_history(d: Seq<u8>, q: int, kind: i8) -> SpecResult<SpecTextVariant>
    decreases rem(d, q), 3nat,
{
    if kind == -1 {
        sp_history_none(d, q)
    } else if kind == 0 {
        sp_history_base(d, q)
    } else if kind == 3 {
        sp_history_format(d, q)
    } else if kind == 4 {
        sp_history_number(d, q)
    } else if kind == 7 {
        sp_history_date(d, q)
    } else if kind == 0xb {
        match sp_string_pair(d, q) {
            Err(e) => Err(e),
            Ok(((table, key), n)) => Ok((SpecTextVariant::StringTableEntry { table, key }, n)),
        }
    } else {
        Err(SpecParseError { offset: q, error: SpecError::UnknownTextHistory(kind) })
    }
}

/// No history: a flag, then the culture invariant string when it is set.
pub open spec fn sp_history_none(d: Seq<u8>, q: int) -> SpecResult<SpecTextVariant> {
    match sp_u32(d, q) {
        Err(e) => Err(e),
        Ok((has, n)) => if has != 0 {
            match sp_string(d, q + n) {
                Err(e) => Err(e),
                Ok((s, m)) => Ok((SpecTextVariant::NoHistory { culture_invariant: Some(s) }, n + m)),
            }
        } else {
            Ok((SpecTextVariant::NoHistory { culture_invariant: None }, n))
        },
    }
}

/// A base history: namespace, key and source string.
pub open spec fn sp_history_base(d: Seq<u8>, q: int) -> SpecResult<SpecTextVariant> {
    match sp_string(d, q) {
        Err(e) => Err(e),
        Ok((namespace, n)) => match sp_string_pair(d, q + n) {
            Err(e) => Err(e),
            Ok(((key, source_string), m)) => Ok(
                (SpecTextVariant::Base { namespace, key, source_string }, n + m),
            ),
        },
    }
}

/// An argument format: the format text, a count, then the arguments.
pub open spec fn sp_history_format(d: Seq<u8>, q: int) -> SpecResult<SpecTextVariant>
    decreases rem(d, q), 2nat,
{
    match sp_text(d, q) {
        Err(e) => Err(e),
        Ok((format_text, n)) => match sp_u32(d, q + n) {
            Err(e) => Err(e),
            Ok((count, m)) => match sp_format_arguments(d, q + n + m, count as nat) {
                Err(e) => Err(e),
                Ok((arguments, k)) => Ok((
                    SpecTextVariant::ArgumentFormat {
                        format_text: std::boxed::Box::new(format_text),
                        arguments,
                    },
                    n + m + k,
                )),
            },
        },
    }
}

/// A number: the value, a flag, the formatting options when the flag is
/// set, and the culture name.
pub open spec fn sp_history_number(d: Seq<u8>, q: int) -> SpecResult<SpecTextVariant>
    decreases rem(d, q), 2nat,
{
    match sp_format_value(d, q, true) {
        Err(e) => Err(e),
        Ok((source_value, n)) => match sp_u32(d, q + n) {
            Err(e) => Err(e),
            Ok((has, m)) => if has != 0 {
                match sp_number_options(d, q + n + m) {
                    Err(e) => Err(e),
                    Ok((o, k)) => match sp_string(d, q + n + m + k) {
                        Err(e) => Err(e),
                        Ok((culture_name, j)) => Ok((
                            SpecTextVariant::AsNumber { source_value, format_options: Some(o), culture_name },
                            n + m + k + j,
                        )),
                    },
                }
            } else {
                match sp_string(d, q + n + m) {
                    Err(e) => Err(e),
                    Ok((culture_name, j)) => Ok((
                        SpecTextVariant::AsNumber { source_value, format_options: None, culture_name },
                        n + m + j,
                    )),
                }
            },
        },
    }
}

/// A date: the date and time, a style, the time zone and the culture name.
pub open spec fn sp_history_date(d: Seq<u8>, q: int) -> SpecResult<SpecTextVariant> {
    match sp_u64(d, q) {
        Err(e) => Err(e),
        Ok((source_date_time, n)) => match sp_i8(d, q + n) {
            Err(e) => Err(e),
            Ok((date_style, m)) => match sp_string_pair(d, q + n + m) {
                Err(e) => Err(e),
                Ok(((time_zone, culture_name), k)) => Ok((
                    SpecTextVariant::AsDate { source_date_time, date_style, time_zone, culture_name },
                    n + m + k,
                )),
            },
        },
    }
}

/// `count` texts.
pub open spec fn sp_texts(d: Seq<u8>, p: int, count: nat) -> SpecResult<Seq<SpecText>>
    decreases count,
{
    if count == 0 {
        Ok((Seq::empty(), 0))
    } else {
        match sp_text(d, p) {
            Err(e) => Err(e),
            Ok((x, n)) => match sp_texts(d, p + n, (count - 1) as nat) {
                Err(e) => Err(e),
                Ok((rest, m)) => Ok((seq![x] + rest, n + m)),
            },
        }
    }
}

// ---------------------------------------------------------------------------
// Vectorized values

/// `count` values of type `t`, stored without tags.  Byte values are raw
/// bytes when `size` equals `count`, enum labels otherwise.
#[verifier::opaque]
pub open spec fn sp_value_vec(d: Seq<u8>, p: int, t: PropertyType, size: u64, count: nat) -> SpecResult<SpecValueVec> {
    match t {
        PropertyType::IntProperty => match sp_fixed(d, p, count, 4, |b: Seq<u8>| le_i32(b)) {
            Err(e) => Err(e),
            Ok((v, n)) => Ok((SpecValueVec::Int(v), n)),
        },
        PropertyType::Int16Property => match sp_fixed(d, p, count, 2, |b: Seq<u8>| le_i16(b)) {
            Err(e) => Err(e),
            Ok((v, n)) => Ok((SpecValueVec::Int16(v), n)),
        },
        PropertyType::Int64Property => match sp_fixed(d, p, count, 8, |b: Seq<u8>| le_i64(b)) {
            Err(e) => Err(e),
            Ok((v, n)) => Ok((SpecValueVec::Int64(v), n)),
        },
        PropertyType::UInt16Property => match sp_fixed(d, p, count, 2, |b: Seq<u8>| le_u16(b)) {
            Err(e) => Err(e),
            Ok((v, n)) => Ok((SpecValueVec::UInt16(v), n)),
        },
        PropertyType::UInt32Property => match sp_fixed(d, p, count, 4, |b: Seq<u8>| le_u32(b)) {
            Err(e) => Err(e),
            Ok((v, n)) => Ok((SpecValueVec::UInt32(v), n)),
        },
        PropertyType::FloatProperty => match sp_fixed(d, p, count, 4, |b: Seq<u8>| le_u32(b)) {
            Err(e) => Err(e),
            Ok((v, n)) => Ok((SpecValueVec::Float(v), n)),
        },
        PropertyType::DoubleProperty => match sp_fixed(d, p, count, 8, |b: Seq<u8>| le_u64(b)) {
            Err(e) => Err(e),
            Ok((v, n)) => Ok((SpecValueVec::Double(v), n)),
        },
        PropertyType::BoolProperty => match sp_fixed(d, p, count, 1, |b: Seq<u8>| le_bool(b)) {
            Err(e) => Err(e),
            Ok((v, n)) => Ok((SpecValueVec::Bool(v), n)),
        },
        PropertyType::ByteProperty => if size == count {
            match sp_fixed(d, p, count, 1, |b: Seq<u8>| le_u8(b)) {
                Err(e) => Err(e),
                Ok((v, n)) => Ok((SpecValueVec::Byte(SpecByteArray::Byte(v)), n)),
            }
        } else {
            match sp_strings(d, p, count) {
                Err(e) => Err(e),
                Ok((v, n)) => Ok((SpecValueVec::Byte(SpecByteArray::Label(v)), n)),
            }
        },
        PropertyType::EnumProperty => match sp_strings(d, p, count) {
            Err(e) => Err(e),
            Ok((v, n)) => Ok((SpecValueVec::Enum(v), n)),
        },
        PropertyType::StrProperty => match sp_strings(d, p, count) {
            Err(e) => Err(e),
            Ok((v, n)) => Ok((SpecValueVec::Str(v), n)),
        },
        PropertyType::TextProperty => match sp_texts(d, p, count) {
            Err(e) => Err(e),
            Ok((v, n)) => Ok((SpecValueVec::Text(v), n)),
        },
        PropertyType::SoftObjectProperty => match sp_string_pairs(d, p, count) {
            Err(e) => Err(e),
            Ok((v, n)) => Ok((SpecValueVec::SoftObject(v), n)),
        },
        PropertyType::NameProperty => match sp_strings(d, p, count) {
            Err(e) => Err(e),
            Ok((v, n)) => Ok((SpecValueVec::Name(v), n)),
        },
        PropertyType::ObjectProperty => match sp_strings(d, p, count) {
            Err(e) => Err(e),
            Ok((v, n)) => Ok((SpecValueVec::Object(v), n)),
        },
        _ => Err(SpecParseError { offset: p, error: SpecError::UnknownVecType(t) }),
    }
}

// ---------------------------------------------------------------------------
// Properties

/// `acc` with the property `name` set to `prop`: an existing property of
/// that name keeps its place and takes the new value; otherwise it is
/// appended.
pub open spec fn insert_property(
    acc: Seq<(Seq<char>, SpecProperty)>,
    name: Seq<char>,
    prop: SpecProperty,
) -> Seq<(Seq<char>, SpecProperty)> {
    if exists|i: int| 0 <= i < acc.len() && #[trigger] acc[i].0 == name {
        let i = choose|i: int| 0 <= i < acc.len() && #[trigger] acc[i].0 == name;
        acc.update(i, (name, prop))
    } else {
        acc.push((name, prop))
    }
}

/// No name occurs twice.
pub open spec fn unique_names(s: Seq<(Seq<char>, SpecProperty)>) -> bool {
    forall|i: int, j: int| 0 <= i < j < s.len() ==> #[trigger] s[i].0 != #[trigger] s[j].0
}

/// Setting a name that occurs once replaces that entry, in its place.
pub proof fn lemma_insert_existing(
    acc: Seq<(Seq<char>, SpecProperty)>,
    name: Seq<char>,
    prop: SpecProperty,
    i: int,
)
    requires
        unique_names(acc),
        0 <= i < acc.len(),
        acc[i].0 == name,
    ensures
        insert_property(acc, name, prop) == acc.update(i, (name, prop)),
{
    let j = choose|j: int| 0 <= j < acc.len() && #[trigger] acc[j].0 == name;
    assert(0 <= j < acc.len() && acc[j].0 == name);
    if j < i {
        assert(acc[j].0 != acc[i].0);
    } else if i < j {
        assert(acc[i].0 != acc[j].0);
    }
}

/// Properties until one named "None": each is a name, a type, a 64-bit
/// size and the property itself; they are gathered into `acc`.
#[verifier::opaque]
pub open spec fn sp_properties(
    d: Seq<u8>,
    p: int,
    ctx: Ctx,
    path: Seq<char>,
    acc: Seq<(Seq<char>, SpecProperty)>,
) -> SpecResult<Seq<(Seq<char>, SpecProperty)>>
    decreases rem(d, p), 1nat, 0nat,
{
    match sp_string(d, p) {
        Err(e) => Err(e),
        Ok((name, n)) => if name == "None"@ {
            Ok((acc, n))
        } else {
            match sp_property_type(d, p + n) {
                Err(e) => Err(e),
                Ok((t, m)) => match sp_u64(d, p + n + m) {
                    Err(e) => Err(e),
                    Ok((size, k)) => match sp_property_body(
                        d,
                        p + n + m + k,
                        ctx,
                        child_path(path, name),
                        t,
                        size,
                    ) {
                        Err(e) => Err(e),
                        Ok((prop, j)) => after(
                            sp_properties(
                                d,
                                p + n + m + k + j,
                                ctx,
                                path,
                                insert_property(acc, name, prop),
                            ),
                            n + m + k + j,
                        ),
                    },
                },
            }
        },
    }
}

/// A struct value of type `st`.
#[verifier::opaque]
pub open spec fn sp_struct_value(
    d: Seq<u8>,
    p: int,
    ctx: Ctx,
    path: Seq<char>,
    st: SpecStructType,
) -> SpecResult<SpecStructValue>
    decreases rem(d, p), 2nat, 0nat,
{
    match st {
        SpecStructType::Guid => match sp_guid(d, p) {
            Err(e) => Err(e),
            Ok((v, n)) => Ok((SpecStructValue::Guid(v), n)),
        },
        SpecStructType::DateTime => match sp_u64(d, p) {
            Err(e) => Err(e),
            Ok((v, n)) => Ok((SpecStructValue::DateTime(v), n)),
        },
        SpecStructType::Timespan => match sp_i64(d, p) {
            Err(e) => Err(e),
            Ok((v, n)) => Ok((SpecStructValue::Timespan(v), n)),
        },
        SpecStructType::Vector2D => match sp_vector2d(d, p) {
            Err(e) => Err(e),
            Ok((v, n)) => Ok((SpecStructValue::Vector2D(v), n)),
        },
        SpecStructType::Vector => match sp_vector(d, p, ctx.lwc) {
            Err(e) => Err(e),
            Ok((v, n)) => Ok((SpecStructValue::Vector(v), n)),
        },
        SpecStructType::Box => match sp_box(d, p, ctx.lwc) {
            Err(e) => Err(e),
            Ok((v, n)) => Ok((SpecStructValue::Box(v), n)),
        },
        SpecStructType::IntPoint => match sp_int_point(d, p) {
            Err(e) => Err(e),
            Ok((v, n)) => Ok((SpecStructValue::IntPoint(v), n)),
        },
        SpecStructType::Quat => match sp_quat(d, p, ctx.lwc) {
            Err(e) => Err(e),
            Ok((v, n)) => Ok((SpecStructValue::Quat(v), n)),
        },
        SpecStructType::LinearColor => match sp_linear_color(d, p) {
            Err(e) => Err(e),
            Ok((v, n)) => Ok((SpecStructValue::LinearColor(v), n)),
        },
        SpecStructType::Color => match sp_color(d, p) {
            Err(e) => Err(e),
            Ok((v, n)) => Ok((SpecStructValue::Color(v), n)),
        },
        SpecStructType::Rotator => match sp_rotator(d, p, ctx.lwc) {
            Err(e) => Err(e),
            Ok((v, n)) => Ok((SpecStructValue::Rotator(v), n)),
        },
        SpecStructType::SoftObjectPath => match sp_string_pair(d, p) {
            Err(e) => Err(e),
            Ok(((a, b), n)) => Ok((SpecStructValue::SoftObjectPath(a, b), n)),
        },
        SpecStructType::GameplayTagContainer => match sp_string_list(d, p) {
            Err(e) => Err(e),
            Ok((v, n)) => Ok((SpecStructValue::GameplayTagContainer(v), n)),
        },
        SpecStructType::Struct(_) => match sp_properties(d, p, ctx, path, Seq::empty()) {
            Err(e) => Err(e),
            Ok((v, n)) => Ok((SpecStructValue::Struct(v), n)),
        },
    }
}

/// `count` struct values of type `st`.
#[verifier::opaque]
pub open spec fn sp_struct_values(
    d: Seq<u8>,
    p: int,
    ctx: Ctx,
    path: Seq<char>,
    st: SpecStructType,
    count: nat,
) -> SpecResult<Seq<SpecStructValue>>
    decreases rem(d, p), 4nat, count,
{
    if count == 0 {
        Ok((Seq::empty(), 0))
    } else {
        match sp_struct_value(d, p, ctx, path, st) {
            Err(e) => Err(e),
            Ok((x, n)) => match sp_struct_values(d, p + n, ctx, path, st, (count - 1) as nat) {
                Err(e) => Err(e),
                Ok((rest, m)) => Ok((seq![x] + rest, n + m)),
            },
        }
    }
}

/// A map key or value of type `t` (struct type `st` for structs).
#[verifier::opaque]
pub open spec fn sp_property_value(
    d: Seq<u8>,
    p: int,
    ctx: Ctx,
    path: Seq<char>,
    t: PropertyType,
    st: SpecStructType,
) -> SpecResult<SpecPropertyValue>
    decreases rem(d, p), 3nat, 0nat,
{
    match t {
        PropertyType::IntProperty => match sp_i32(d, p) {
            Err(e) => Err(e),
            Ok((v, n)) => Ok((SpecPropertyValue::Int(v), n)),
        },
        PropertyType::Int8Property => match sp_i8(d, p) {
            Err(e) => Err(e),
            Ok((v, n)) => Ok((SpecPropertyValue::Int8(v), n)),
        },
        PropertyType::Int16Property => match sp_i16(d, p) {
            Err(e) => Err(e),
            Ok((v, n)) => Ok((SpecPropertyValue::Int16(v), n)),
        },
        PropertyType::Int64Property => match sp_i64(d, p) {
            Err(e) => Err(e),
            Ok((v, n)) => Ok((SpecPropertyValue::Int64(v), n)),
        },
        PropertyType::UInt16Property => match sp_u16(d, p) {
            Err(e) => Err(e),
            Ok((v, n)) => Ok((SpecPropertyValue::UInt16(v), n)),
        },
        PropertyType::UInt32Property => match sp_u32(d, p) {
            Err(e) => Err(e),
            Ok((v, n)) => Ok((SpecPropertyValue::UInt32(v), n)),
        },
        PropertyType::FloatProperty => match sp_u32(d, p) {
            Err(e) => Err(e),
            Ok((v, n)) => Ok((SpecPropertyValue::Float(v), n)),
        },
        PropertyType::DoubleProperty => match sp_u64(d, p) {
            Err(e) => Err(e),
            Ok((v, n)) => Ok((SpecPropertyValue::Double(v), n)),
        },
        PropertyType::BoolProperty => match sp_u8(d, p) {
            Err(e) => Err(e),
            Ok((v, n)) => Ok((SpecPropertyValue::Bool(v > 0), n)),
        },
        PropertyType::NameProperty => match sp_string(d, p) {
            Err(e) => Err(e),
            Ok((v, n)) => Ok((SpecPropertyValue::Name(v), n)),
        },
        PropertyType::StrProperty => match sp_string(d, p) {
            Err(e) => Err(e),
            Ok((v, n)) => Ok((SpecPropertyValue::Str(v), n)),
        },
        PropertyType::SoftObjectProperty => match sp_string_pair(d, p) {
            Err(e) => Err(e),
            Ok(((a, b), n)) => Ok((SpecPropertyValue::SoftObject(a, b), n)),
        },
        PropertyType::ObjectProperty => match sp_string(d, p) {
            Err(e) => Err(e),
            Ok((v, n)) => Ok((SpecPropertyValue::Object(v), n)),
        },
        PropertyType::ByteProperty => match sp_string(d, p) {
            Err(e) => Err(e),
            Ok((v, n)) => Ok((SpecPropertyValue::Byte(SpecByte::Label(v)), n)),
        },
        PropertyType::EnumProperty => match sp_string(d, p) {
            Err(e) => Err(e),
            Ok((v, n)) => Ok((SpecPropertyValue::Enum(v), n)),
        },
        PropertyType::StructProperty => match sp_struct_value(d, p, ctx, path, st) {
            Err(e) => Err(e),
            Ok((v, n)) => Ok((SpecPropertyValue::Struct(v), n)),
        },
        _ => Err(SpecParseError { offset: p, error: SpecError::UnsupportedValueType(t) }),
    }
}

/// `count` map entries: each a key, then a value.
#[verifier::opaque]
pub open spec fn sp_map_entries(
    d: Seq<u8>,
    p: int,
    ctx: Ctx,
    path: Seq<char>,
    kt: PropertyType,
    kst: SpecStructType,
    vt: PropertyType,
    vst: SpecStructType,
    count: nat,
) -> SpecResult<Seq<SpecMapEntry>>
    decreases rem(d, p), 4nat, count,
{
    if count == 0 {
        Ok((Seq::empty(), 0))
    } else {
        match sp_property_value(d, p, ctx, path, kt, kst) {
            Err(e) => Err(e),
            Ok((key, n)) => match sp_property_value(d, p + n, ctx, path, vt, vst) {
                Err(e) => Err(e),
                Ok((value, m)) => match sp_map_entries(
                    d,
                    p + n + m,
                    ctx,
                    path,
                    kt,
                    kst,
                    vt,
                    vst,
                    (count - 1) as nat,
                ) {
                    Err(e) => Err(e),
                    Ok((rest, k)) => Ok((seq![SpecMapEntry { key, value }] + rest, n + m + k)),
                },
            },
        }
    }
}

/// The elements of a set: a 32-bit count, then the elements.
#[verifier::opaque]
pub open spec fn sp_value_set(
    d: Seq<u8>,
    p: int,
    ctx: Ctx,
    path: Seq<char>,
    t: PropertyType,
    st: SpecStructType,
    size: u64,
) -> SpecResult<SpecValueSet>
    decreases rem(d, p), 5nat, 0nat,
{
    match sp_u32(d, p) {
        Err(e) => Err(e),
        Ok((count, n)) => if t == PropertyType::StructProperty {
            match sp_struct_values(d, p + n, ctx, path, st, count as nat) {
                Err(e) => Err(e),
                Ok((v, m)) => Ok((SpecValueSet::Struct(v), n + m)),
            }
        } else {
            match sp_value_vec(d, p + n, t, size, count as nat) {
                Err(e) => Err(e),
                Ok((v, m)) => Ok((SpecValueSet::Base(v), n + m)),
            }
        },
    }
}

/// The elements of an array: a 32-bit count, then, for structs, a header
/// (a type name, a name, a size that is skipped, the struct type, a GUID
/// and a skipped byte) before the elements.
#[verifier::opaque]
pub open spec fn sp_value_array(
    d: Seq<u8>,
    p: int,
    ctx: Ctx,
    path: Seq<char>,
    t: PropertyType,
    size: u64,
) -> SpecResult<SpecValueArray>
    decreases rem(d, p), 5nat, 0nat,
{
    match sp_u32(d, p) {
        Err(e) => Err(e),
        Ok((count, n)) => if t == PropertyType::StructProperty {
            match sp_string_pair(d, p + n) {
                Err(e) => Err(e),
                Ok(((element_type, name), n1)) => match sp_u64(d, p + n + n1) {
                    Err(e) => Err(e),
                    Ok((_, n2)) => match sp_struct_type(d, p + n + n1 + n2) {
                        Err(e) => Err(e),
                        Ok((struct_type, n3)) => match sp_guid(d, p + n + n1 + n2 + n3) {
                            Err(e) => Err(e),
                            Ok((id, n4)) => match sp_u8(d, p + n + n1 + n2 + n3 + n4) {
                                Err(e) => Err(e),
                                Ok((_, n5)) => match sp_struct_values(
                                    d,
                                    p + n + n1 + n2 + n3 + n4 + n5,
                                    ctx,
                                    path,
                                    struct_type,
                                    count as nat,
                                ) {
                                    Err(e) => Err(e),
                                    Ok((value, n6)) => Ok((
                                        SpecValueArray::Struct { element_type, name, struct_type, id, value },
                                        n + n1 + n2 + n3 + n4 + n5 + n6,
                                    )),
                                },
                            },
                        },
                    },
                },
            }
        } else {
            match sp_value_vec(d, p + n, t, size, count as nat) {
                Err(e) => Err(e),
                Ok((v, m)) => Ok((SpecValueArray::Base(v), n + m)),
            }
        },
    }
}

/// A property of type `t` whose stored size is `size`, at `path`.
#[verifier::opaque]
pub open spec fn sp_property_body(
    d: Seq<u8>,
    p: int,
    ctx: Ctx,
    path: Seq<char>,
    t: PropertyType,
    size: u64,
) -> SpecResult<SpecProperty>
    decreases rem(d, p), 5nat, 0nat,
{
    match t {
        PropertyType::SetProperty => match sp_property_type(d, p) {
            Err(e) => Err(e),
            Ok((set_type, n)) => match sp_opt_guid(d, p + n) {
                Err(e) => Err(e),
                Ok((id, m)) => match sp_u32(d, p + n + m) {
                    Err(e) => Err(e),
                    Ok((_, k)) => {
                        let st = type_or(ctx, path, SpecStructType::Guid);
                        match sp_value_set(
                            d,
                            p + n + m + k,
                            ctx,
                            path,
                            set_type,
                            st,
                            vstd::wrapping::u64_specs::wrapping_sub(size, 8),
                        ) {
                            Err(e) => Err(e),
                            Ok((value, j)) => Ok((SpecProperty::SetOf { id, set_type, value }, n + m + k + j)),
                        }
                    },
                },
            },
        },
        PropertyType::MapProperty => match sp_property_type(d, p) {
            Err(e) => Err(e),
            Ok((key_type, n)) => match sp_property_type(d, p + n) {
                Err(e) => Err(e),
                Ok((value_type, n1)) => match sp_opt_guid(d, p + n + n1) {
                    Err(e) => Err(e),
                    Ok((id, n2)) => match sp_u32(d, p + n + n1 + n2) {
                        Err(e) => Err(e),
                        Ok((_, n3)) => match sp_u32(d, p + n + n1 + n2 + n3) {
                            Err(e) => Err(e),
                            Ok((count, n4)) => {
                                let kst = type_or(ctx, child_path(path, "Key"@), SpecStructType::Guid);
                                let vst = type_or(
                                    ctx,
                                    child_path(path, "Value"@),
                                    SpecStructType::Struct(None),
                                );
                                match sp_map_entries(
                                    d,
                                    p + n + n1 + n2 + n3 + n4,
                                    ctx,
                                    path,
                                    key_type,
                                    kst,
                                    value_type,
                                    vst,
                                    count as nat,
                                ) {
                                    Err(e) => Err(e),
                                    Ok((value, n5)) => Ok((
                                        SpecProperty::MapOf { id, key_type, value_type, value },
                                        n + n1 + n2 + n3 + n4 + n5,
                                    )),
                                }
                            },
                        },
                    },
                },
            },
        },
        PropertyType::StructProperty => match sp_struct_type(d, p) {
            Err(e) => Err(e),
            Ok((struct_type, n)) => match sp_guid(d, p + n) {
                Err(e) => Err(e),
                Ok((struct_id, n1)) => match sp_opt_guid(d, p + n + n1) {
                    Err(e) => Err(e),
                    Ok((id, n2)) => match sp_struct_value(d, p + n + n1 + n2, ctx, path, struct_type) {
                        Err(e) => Err(e),
                        Ok((value, n3)) => Ok((
                            SpecProperty::Struct { id, value, struct_type, struct_id },
                            n + n1 + n2 + n3,
                        )),
                    },
                },
            },
        },
        PropertyType::ArrayProperty => match sp_property_type(d, p) {
            Err(e) => Err(e),
            Ok((array_type, n)) => match sp_opt_guid(d, p + n) {
                Err(e) => Err(e),
                Ok((id, m)) => match sp_value_array(
                    d,
                    p + n + m,
                    ctx,
                    path,
                    array_type,
                    vstd::wrapping::u64_specs::wrapping_sub(size, 4),
                ) {
                    Err(e) => Err(e),
                    Ok((value, k)) => Ok((SpecProperty::Array { array_type, id, value }, n + m + k)),
                },
            },
        },
        _ => sp_simple_property(d, p, t),
    }
}

/// A property of any type that holds no further properties.
#[verifier::opaque]
pub open spec fn sp_simple_property(d: Seq<u8>, p: int, t: PropertyType) -> SpecResult<SpecProperty> {
    match t {
        PropertyType::BoolProperty => match sp_u8(d, p) {
            Err(e) => Err(e),
            Ok((v, n)) => match sp_opt_guid(d, p + n) {
                Err(e) => Err(e),
                Ok((id, m)) => Ok((SpecProperty::Bool { id, value: v > 0 }, n + m)),
            },
        },
        PropertyType::ByteProperty => match sp_string(d, p) {
            Err(e) => Err(e),
            Ok((enum_type, n)) => match sp_opt_guid(d, p + n) {
                Err(e) => Err(e),
                Ok((id, m)) => if enum_type == "None"@ {
                    match sp_u8(d, p + n + m) {
                        Err(e) => Err(e),
                        Ok((b, k)) => Ok((SpecProperty::Byte { id, value: SpecByte::Byte(b), enum_type }, n + m + k)),
                    }
                } else {
                    match sp_string(d, p + n + m) {
                        Err(e) => Err(e),
                        Ok((l, k)) => Ok((SpecProperty::Byte { id, value: SpecByte::Label(l), enum_type }, n + m + k)),
                    }
                },
            },
        },
        PropertyType::EnumProperty => match sp_string(d, p) {
            Err(e) => Err(e),
            Ok((enum_type, n)) => match sp_opt_guid(d, p + n) {
                Err(e) => Err(e),
                Ok((id, m)) => match sp_string(d, p + n + m) {
                    Err(e) => Err(e),
                    Ok((value, k)) => Ok((SpecProperty::Enum { id, value, enum_type }, n + m + k)),
                },
            },
        },
        _ => match sp_opt_guid(d, p) {
            Err(e) => Err(e),
            Ok((id, n)) => match sp_tagged_value(d, p + n, t, id) {
                Err(e) => Err(e),
                Ok((v, m)) => Ok((v, n + m)),
            },
        },
    }
}

/// The value of a property whose optional GUID `id` comes first.
#[verifier::opaque]
pub open spec fn sp_tagged_value(d: Seq<u8>, p: int, t: PropertyType, id: Option<Seq<u8>>) -> SpecResult<SpecProperty> {
    match t {
        PropertyType::Int8Property => match sp_i8(d, p) {
            Err(e) => Err(e),
            Ok((value, n)) => Ok((SpecProperty::Int8 { id, value }, n)),
        },
        PropertyType::Int16Property => match sp_i16(d, p) {
            Err(e) => Err(e),
            Ok((value, n)) => Ok((SpecProperty::Int16 { id, value }, n)),
        },
        PropertyType::IntProperty => match sp_i32(d, p) {
            Err(e) => Err(e),
            Ok((value, n)) => Ok((SpecProperty::Int { id, value }, n)),
        },
        PropertyType::Int64Property => match sp_i64(d, p) {
            Err(e) => Err(e),
            Ok((value, n)) => Ok((SpecProperty::Int64 { id, value }, n)),
        },
        PropertyType::UInt8Property => match sp_u8(d, p) {
            Err(e) => Err(e),
            Ok((value, n)) => Ok((SpecProperty::UInt8 { id, value }, n)),
        },
        PropertyType::UInt16Property => match sp_u16(d, p) {
            Err(e) => Err(e),
            Ok((value, n)) => Ok((SpecProperty::UInt16 { id, value }, n)),
        },
        PropertyType::UInt32Property => match sp_u32(d, p) {
            Err(e) => Err(e),
            Ok((value, n)) => Ok((SpecProperty::UInt32 { id, value }, n)),
        },
        PropertyType::UInt64Property => match sp_u64(d, p) {
            Err(e) => Err(e),
            Ok((value, n)) => Ok((SpecProperty::UInt64 { id, value }, n)),
        },
        PropertyType::FloatProperty => match sp_u32(d, p) {
            Err(e) => Err(e),
            Ok((value, n)) => Ok((SpecProperty::Float { id, value }, n)),
        },
        PropertyType::DoubleProperty => match sp_u64(d, p) {
            Err(e) => Err(e),
            Ok((value, n)) => Ok((SpecProperty::Double { id, value }, n)),
        },
        PropertyType::NameProperty => match sp_string(d, p) {
            Err(e) => Err(e),
            Ok((value, n)) => Ok((SpecProperty::Name { id, value }, n)),
        },
        PropertyType::StrProperty => match sp_string(d, p) {
            Err(e) => Err(e),
            Ok((value, n)) => Ok((SpecProperty::Str { id, value }, n)),
        },
        PropertyType::FieldPathProperty => match sp_field_path(d, p) {
            Err(e) => Err(e),
            Ok((value, n)) => Ok((SpecProperty::FieldPath { id, value }, n)),
        },
        PropertyType::SoftObjectProperty => match sp_string_pair(d, p) {
            Err(e) => Err(e),
            Ok(((value, value2), n)) => Ok((SpecProperty::SoftObject { id, value, value2 }, n)),
        },
        PropertyType::ObjectProperty => match sp_string(d, p) {
            Err(e) => Err(e),
            Ok((value, n)) => Ok((SpecProperty::Object { id, value }, n)),
        },
        PropertyType::TextProperty => match sp_text(d, p) {
            Err(e) => Err(e),
            Ok((value, n)) => Ok((SpecProperty::Text { id, value }, n)),
        },
        PropertyType::DelegateProperty => match sp_delegate(d, p) {
            Err(e) => Err(e),
            Ok((value, n)) => Ok((SpecProperty::Delegate { id, value }, n)),
        },
        PropertyType::MulticastDelegateProperty => match sp_multicast(d, p) {
            Err(e) => Err(e),
            Ok((value, n)) => Ok((SpecProperty::MulticastDelegate { id, value }, n)),
        },
        PropertyType::MulticastInlineDelegateProperty => match sp_multicast(d, p) {
            Err(e) => Err(e),
            Ok((value, n)) => Ok((SpecProperty::MulticastInlineDelegate { id, value }, n)),
        },
        _ => match sp_multicast(d, p) {
            Err(e) => Err(e),
            Ok((value, n)) => Ok((SpecProperty::MulticastSparseDelegate { id, value }, n)),
        },
    }
}

// ---------------------------------------------------------------------------
// The save

/// One custom format entry: a GUID and a 32-bit value.
pub open spec fn custom_format_from(b: Seq<u8>) -> (Seq<u8>, i32) {
    (crate::bytes::guid_from_stored(b.subrange(0, 16)), le_i32(b.subrange(16, 20)))
}

/// The header of a save.
pub open spec fn sp_header(d: Seq<u8>, p: int) -> SpecResult<SpecHeader> {
    match sp_fixed(d, p, 2, 4, |b: Seq<u8>| le_u32(b)) {
        Err(e) => Err(e),
        Ok((mv, n0)) => {
            let magic = mv[0];
            let save_game_version = mv[1];
            let pv = if save_game_version < 3 {
                match sp_u32(d, p + n0) {
                    Err(e) => Err(e),
                    Ok((a, k)) => Ok((PackageVersion::Old(a), k)),
                }
            } else {
                match sp_fixed(d, p + n0, 2, 4, |b: Seq<u8>| le_u32(b)) {
                    Err(e) => Err(e),
                    Ok((ab, k)) => Ok((PackageVersion::New(ab[0], ab[1]), k)),
                }
            };
            match pv {
                Err(e) => Err(e),
                Ok((package_version, n1)) => match sp_fixed(d, p + n0 + n1, 3, 2, |b: Seq<u8>| le_u16(b)) {
                    Err(e) => Err(e),
                    Ok((ver, n2)) => match sp_u32(d, p + n0 + n1 + n2) {
                        Err(e) => Err(e),
                        Ok((engine_version_build, n3)) => match sp_string(d, p + n0 + n1 + n2 + n3) {
                            Err(e) => Err(e),
                            Ok((engine_version, n4)) => match sp_fixed(
                                d,
                                p + n0 + n1 + n2 + n3 + n4,
                                2,
                                4,
                                |b: Seq<u8>| le_u32(b),
                            ) {
                                Err(e) => Err(e),
                                Ok((cf, n5)) => match sp_fixed(
                                    d,
                                    p + n0 + n1 + n2 + n3 + n4 + n5,
                                    cf[1] as nat,
                                    20,
                                    |b: Seq<u8>| custom_format_from(b),
                                ) {
                                    Err(e) => Err(e),
                                    Ok((custom_format, n6)) => Ok((
                                        SpecHeader {
                                            magic,
                                            save_game_version,
                                            package_version,
                                            engine_version_major: ver[0],
                                            engine_version_minor: ver[1],
                                            engine_version_patch: ver[2],
                                            engine_version_build,
                                            engine_version,
                                            custom_format_version: cf[0],
                                            custom_format,
                                        },
                                        n0 + n1 + n2 + n3 + n4 + n5 + n6,
                                    )),
                                },
                            },
                        },
                    },
                },
            }
        },
    }
}

/// The root: the save game type, then its properties.
pub open spec fn sp_root(d: Seq<u8>, p: int, ctx: Ctx) -> SpecResult<SpecRoot> {
    match sp_string(d, p) {
        Err(e) => Err(e),
        Ok((save_game_type, n)) => match sp_properties(d, p + n, ctx, Seq::empty(), Seq::empty()) {
            Err(e) => Err(e),
            Ok((properties, m)) => Ok((SpecRoot { save_game_type, properties }, n + m)),
        },
    }
}

/// A whole save: the header, the root, and whatever bytes follow it.
pub open spec fn sp_save(d: Seq<u8>, types: Map<Seq<char>, SpecStructType>) -> Result<SpecSave, SpecParseError> {
    match sp_header(d, 0) {
        Err(e) => Err(e),
        Ok((header, n)) => {
            let ctx = Ctx { lwc: header.engine_version_major >= 5, types };
            match sp_root(d, n as int, ctx) {
                Err(e) => Err(e),
                Ok((root, m)) => Ok(SpecSave { header, root, extra: d.subrange((n + m) as int, d.len() as int) }),
            }
        },
    }
}

} // verus!
