//! The save format as the writer produces it: each `*_bytes` function
//! gives the bytes written for a value.  The writers in `write` are proved
//! to append exactly these bytes.
use vstd::prelude::*;
use vstd::utf8::encode_utf8;
use vstd::wrapping::u64_specs;

use crate::bytes::{
    guid_bytes, i16_bytes, i32_bytes, i64_bytes, i8_bytes, opt_guid_bytes, u16_bytes, u32_bytes,
    u64_bytes, u8_bytes,
};
use crate::model::{
    Box, Color, FNumberFormattingOptions, IntPoint, LinearColor, PackageVersion, Quat, Rotator,
    SpecByte, SpecByteArray, SpecDelegate, SpecFieldPath, SpecFormatArgument, SpecFormatValue,
    SpecHeader, SpecMapEntry, SpecProperty, SpecPropertyValue, SpecRoot, SpecSave, SpecStructValue,
    SpecText, SpecTextVariant, SpecValueArray, SpecValueSet, SpecValueVec, Vector, Vector2D,
};
use crate::strings::{string_bytes, string_bytes_trailing};
use crate::types::{PropertyType, SpecStructType, property_type_name, struct_type_name};

verus! {

// ---------------------------------------------------------------------------
// Lists of plain values

/// A count as the writer stores it: the length, truncated to 32 bits.
pub open spec fn count_bytes(n: nat) -> Seq<u8> {
    u32_bytes(n as u32)
}

pub open spec fn strings_bytes(s: Seq<Seq<char>>) -> Seq<u8>
    decreases s.len(),
{
    if s.len() == 0 {
        Seq::empty()
    } else {
        strings_bytes(s.drop_last()) + string_bytes(s.last())
    }
}

pub open spec fn string_pairs_bytes(s: Seq<(Seq<char>, Seq<char>)>) -> Seq<u8>
    decreases s.len(),
{
    if s.len() == 0 {
        Seq::empty()
    } else {
        string_pairs_bytes(s.drop_last()) + string_bytes(s.last().0) + string_bytes(s.last().1)
    }
}

/// Each element of `s` encoded by `f`, one after the other.
pub open spec fn fixed_bytes<T>(s: Seq<T>, f: spec_fn(T) -> Seq<u8>) -> Seq<u8>
    decreases s.len(),
{
    if s.len() == 0 {
        Seq::empty()
    } else {
        fixed_bytes(s.drop_last(), f) + f(s.last())
    }
}

pub open spec fn bool_byte(b: bool) -> Seq<u8> {
    u8_bytes(if b { 1 } else { 0 })
}

// ---------------------------------------------------------------------------
// Plain structs

pub open spec fn field_path_bytes(v: SpecFieldPath) -> Seq<u8> {
    count_bytes(v.path.len()) + strings_bytes(v.path) + string_bytes(v.owner)
}

pub open spec fn delegate_bytes(v: SpecDelegate) -> Seq<u8> {
    string_bytes(v.name) + string_bytes(v.path)
}

pub open spec fn delegates_bytes(s: Seq<SpecDelegate>) -> Seq<u8>
    decreases s.len(),
{
    if s.len() == 0 {
        Seq::empty()
    } else {
        delegates_bytes(s.drop_last()) + delegate_bytes(s.last())
    }
}

pub open spec fn multicast_bytes(s: Seq<SpecDelegate>) -> Seq<u8> {
    count_bytes(s.len()) + delegates_bytes(s)
}

/// A float component of a vector, quaternion or rotator: 64 bits with large
/// world coordinates, otherwise the low 32 bits.
pub open spec fn component_bytes(x: u64, lwc: bool) -> Seq<u8> {
    if lwc {
        u64_bytes(x)
    } else {
        u32_bytes(x as u32)
    }
}

pub open spec fn vector_bytes(v: Vector, lwc: bool) -> Seq<u8> {
    component_bytes(v.x, lwc) + component_bytes(v.y, lwc) + component_bytes(v.z, lwc)
}

pub open spec fn rotator_bytes(v: Rotator, lwc: bool) -> Seq<u8> {
    component_bytes(v.x, lwc) + component_bytes(v.y, lwc) + component_bytes(v.z, lwc)
}

pub open spec fn quat_bytes(v: Quat, lwc: bool) -> Seq<u8> {
    component_bytes(v.x, lwc) + component_bytes(v.y, lwc) + component_bytes(v.z, lwc)
        + component_bytes(v.w, lwc)
}

/// A box is written as its two vectors (no trailing byte).
pub open spec fn box_bytes(v: Box, lwc: bool) -> Seq<u8> {
    vector_bytes(v.a, lwc) + vector_bytes(v.b, lwc)
}

pub open spec fn boxes_bytes(s: Seq<Box>, lwc: bool) -> Seq<u8>
    decreases s.len(),
{
    if s.len() == 0 {
        Seq::empty()
    } else {
        boxes_bytes(s.drop_last(), lwc) + box_bytes(s.last(), lwc)
    }
}

pub open spec fn linear_color_bytes(v: LinearColor) -> Seq<u8> {
    u32_bytes(v.r) + u32_bytes(v.g) + u32_bytes(v.b) + u32_bytes(v.a)
}

pub open spec fn color_bytes(v: Color) -> Seq<u8> {
    seq![v.r, v.g, v.b, v.a]
}

pub open spec fn vector2d_bytes(v: Vector2D) -> Seq<u8> {
    u32_bytes(v.x) + u32_bytes(v.y)
}

pub open spec fn int_point_bytes(v: IntPoint) -> Seq<u8> {
    i32_bytes(v.x) + i32_bytes(v.y)
}

// ---------------------------------------------------------------------------
// Text

pub open spec fn number_options_bytes(o: FNumberFormattingOptions) -> Seq<u8> {
    u32_bytes(if o.always_sign { 1 } else { 0 }) + u32_bytes(if o.use_grouping { 1 } else { 0 })
        + i8_bytes(o.rounding_mode) + i32_bytes(o.minimum_integral_digits) + i32_bytes(
        o.maximum_integral_digits,
    ) + i32_bytes(o.minimum_fractional_digits) + i32_bytes(o.maximum_fractional_digits)
}

/// An argument value: its kind byte, then the value; integers take 64 bits
/// when `wide`, 32 bits otherwise.
pub open spec fn format_value_bytes(v: SpecFormatValue, wide: bool) -> Seq<u8>
    decreases v,
{
    match v {
        SpecFormatValue::Int(x) => u8_bytes(0) + if wide {
            i64_bytes(x as i64)
        } else {
            i32_bytes(x as i32)
        },
        SpecFormatValue::UInt(x) => u8_bytes(1) + if wide {
            u64_bytes(x as u64)
        } else {
            u32_bytes(x as u32)
        },
        SpecFormatValue::Float(x) => u8_bytes(2) + u32_bytes(x),
        SpecFormatValue::Double(x) => u8_bytes(3) + u64_bytes(x),
        SpecFormatValue::Text(t) => u8_bytes(4) + text_bytes(*t),
        SpecFormatValue::Gender(x) => u8_bytes(5) + u64_bytes(x),
    }
}

pub open spec fn format_arguments_bytes(a: Seq<SpecFormatArgument>) -> Seq<u8>
    decreases a,
{
    if a.len() == 0 {
        Seq::empty()
    } else {
        format_arguments_bytes(a.drop_last()) + string_bytes(a.last().name) + format_value_bytes(
            a.last().value,
            false,
        )
    }
}

pub open spec fn text_bytes(t: SpecText) -> Seq<u8>
    decreases t,
{
    u32_bytes(t.flags) + text_variant_bytes(t.variant)
}

/// A text history: its kind, then its fields.  The namespace of a base
/// history always carries a terminator.
pub open spec fn text_variant_bytes(v: SpecTextVariant) -> Seq<u8>
    decreases v,
{
    match v {
        SpecTextVariant::NoHistory { culture_invariant } => i8_bytes(-1i8) + match culture_invariant {
            Some(s) => u32_bytes(1) + string_bytes(s),
            None => u32_bytes(0),
        },
        SpecTextVariant::Base { namespace, key, source_string } => i8_bytes(0)
            + string_bytes_trailing(namespace) + string_bytes(key) + string_bytes(source_string),
        SpecTextVariant::ArgumentFormat { format_text, arguments } => i8_bytes(3) + text_bytes(
            *format_text,
        ) + count_bytes(arguments.len()) + format_arguments_bytes(arguments),
        SpecTextVariant::AsNumber { source_value, format_options, culture_name } => i8_bytes(4)
            + format_value_bytes(source_value, true) + match format_options {
            Some(o) => u32_bytes(1) + number_options_bytes(o),
            None => u32_bytes(0),
        } + string_bytes(culture_name),
        SpecTextVariant::AsDate { source_date_time, date_style, time_zone, culture_name } => i8_bytes(
            7,
        ) + u64_bytes(source_date_time) + i8_bytes(date_style) + string_bytes(time_zone)
            + string_bytes(culture_name),
        SpecTextVariant::StringTableEntry { table, key } => i8_bytes(0xb) + string_bytes(table)
            + string_bytes(key),
    }
}

pub open spec fn texts_bytes(s: Seq<SpecText>) -> Seq<u8>
    decreases s.len(),
{
    if s.len() == 0 {
        Seq::empty()
    } else {
        texts_bytes(s.drop_last()) + text_bytes(s.last())
    }
}

// ---------------------------------------------------------------------------
// Vectorized values

/// A vector of values: the count, then the values without tags.
pub open spec fn value_vec_bytes(v: SpecValueVec, lwc: bool) -> Seq<u8> {
    match v {
        SpecValueVec::Int8(s) => count_bytes(s.len()) + fixed_bytes(s, |x: i8| i8_bytes(x)),
        SpecValueVec::Int16(s) => count_bytes(s.len()) + fixed_bytes(s, |x: i16| i16_bytes(x)),
        SpecValueVec::Int(s) => count_bytes(s.len()) + fixed_bytes(s, |x: i32| i32_bytes(x)),
        SpecValueVec::Int64(s) => count_bytes(s.len()) + fixed_bytes(s, |x: i64| i64_bytes(x)),
        SpecValueVec::UInt8(s) => count_bytes(s.len()) + s,
        SpecValueVec::UInt16(s) => count_bytes(s.len()) + fixed_bytes(s, |x: u16| u16_bytes(x)),
        SpecValueVec::UInt32(s) => count_bytes(s.len()) + fixed_bytes(s, |x: u32| u32_bytes(x)),
        SpecValueVec::UInt64(s) => count_bytes(s.len()) + fixed_bytes(s, |x: u64| u64_bytes(x)),
        SpecValueVec::Float(s) => count_bytes(s.len()) + fixed_bytes(s, |x: u32| u32_bytes(x)),
        SpecValueVec::Double(s) => count_bytes(s.len()) + fixed_bytes(s, |x: u64| u64_bytes(x)),
        SpecValueVec::Bool(s) => count_bytes(s.len()) + fixed_bytes(s, |x: bool| bool_byte(x)),
        SpecValueVec::Byte(SpecByteArray::Byte(s)) => count_bytes(s.len()) + s,
        SpecValueVec::Byte(SpecByteArray::Label(s)) => count_bytes(s.len()) + strings_bytes(s),
        SpecValueVec::Enum(s) => count_bytes(s.len()) + strings_bytes(s),
        SpecValueVec::Str(s) => count_bytes(s.len()) + strings_bytes(s),
        SpecValueVec::Text(s) => count_bytes(s.len()) + texts_bytes(s),
        SpecValueVec::SoftObject(s) => count_bytes(s.len()) + string_pairs_bytes(s),
        SpecValueVec::Name(s) => count_bytes(s.len()) + strings_bytes(s),
        SpecValueVec::Object(s) => count_bytes(s.len()) + strings_bytes(s),
        SpecValueVec::Box(s) => count_bytes(s.len()) + boxes_bytes(s, lwc),
    }
}

// ---------------------------------------------------------------------------
// Structs, values and properties

pub open spec fn struct_value_bytes(v: SpecStructValue, lwc: bool) -> Seq<u8>
    decreases v, 0nat,
{
    match v {
        SpecStructValue::Guid(g) => guid_bytes(g),
        SpecStructValue::DateTime(x) => u64_bytes(x),
        SpecStructValue::Timespan(x) => i64_bytes(x),
        SpecStructValue::Vector2D(x) => vector2d_bytes(x),
        SpecStructValue::Vector(x) => vector_bytes(x, lwc),
        SpecStructValue::Box(x) => box_bytes(x, lwc),
        SpecStructValue::IntPoint(x) => int_point_bytes(x),
        SpecStructValue::Quat(x) => quat_bytes(x, lwc),
        SpecStructValue::LinearColor(x) => linear_color_bytes(x),
        SpecStructValue::Color(x) => color_bytes(x),
        SpecStructValue::Rotator(x) => rotator_bytes(x, lwc),
        SpecStructValue::SoftObjectPath(a, b) => string_bytes(a) + string_bytes(b),
        SpecStructValue::GameplayTagContainer(t) => count_bytes(t.len()) + strings_bytes(t),
        SpecStructValue::Struct(ps) => properties_bytes(ps, lwc),
    }
}

pub open spec fn struct_values_bytes(s: Seq<SpecStructValue>, lwc: bool) -> Seq<u8>
    decreases s, 0nat,
{
    if s.len() == 0 {
        Seq::empty()
    } else {
        struct_values_bytes(s.drop_last(), lwc) + struct_value_bytes(s.last(), lwc)
    }
}

pub open spec fn property_value_bytes(v: SpecPropertyValue, lwc: bool) -> Seq<u8>
    decreases v, 0nat,
{
    match v {
        SpecPropertyValue::Int(x) => i32_bytes(x),
        SpecPropertyValue::Int8(x) => i8_bytes(x),
        SpecPropertyValue::Int16(x) => i16_bytes(x),
        SpecPropertyValue::Int64(x) => i64_bytes(x),
        SpecPropertyValue::UInt16(x) => u16_bytes(x),
        SpecPropertyValue::UInt32(x) => u32_bytes(x),
        SpecPropertyValue::Float(x) => u32_bytes(x),
        SpecPropertyValue::Double(x) => u64_bytes(x),
        SpecPropertyValue::Bool(x) => bool_byte(x),
        SpecPropertyValue::Byte(SpecByte::Byte(b)) => u8_bytes(b),
        SpecPropertyValue::Byte(SpecByte::Label(l)) => string_bytes(l),
        SpecPropertyValue::Enum(s) => string_bytes(s),
        SpecPropertyValue::Name(s) => string_bytes(s),
        SpecPropertyValue::Str(s) => string_bytes(s),
        SpecPropertyValue::SoftObject(a, b) => string_bytes(a) + string_bytes(b),
        SpecPropertyValue::SoftObjectPath(a, b) => string_bytes(a) + string_bytes(b),
        SpecPropertyValue::Object(s) => string_bytes(s),
        SpecPropertyValue::Struct(s) => struct_value_bytes(s, lwc),
    }
}

pub open spec fn map_entries_bytes(s: Seq<SpecMapEntry>, lwc: bool) -> Seq<u8>
    decreases s, 0nat,
{
    if s.len() == 0 {
        Seq::empty()
    } else {
        map_entries_bytes(s.drop_last(), lwc) + property_value_bytes(s.last().key, lwc)
            + property_value_bytes(s.last().value, lwc)
    }
}

pub open spec fn value_set_bytes(v: SpecValueSet, lwc: bool) -> Seq<u8>
    decreases v, 0nat,
{
    match v {
        SpecValueSet::Base(b) => value_vec_bytes(b, lwc),
        SpecValueSet::Struct(s) => count_bytes(s.len()) + struct_values_bytes(s, lwc),
    }
}

/// An array of structs carries a header before its elements: the element
/// type name, the name, the byte length of the elements, the struct type, a
/// GUID and a zero byte.
pub open spec fn value_array_bytes(v: SpecValueArray, lwc: bool) -> Seq<u8>
    decreases v, 0nat,
{
    match v {
        SpecValueArray::Base(b) => value_vec_bytes(b, lwc),
        SpecValueArray::Struct { element_type, name, struct_type, id, value } => {
            let buf = struct_values_bytes(value, lwc);
            count_bytes(value.len()) + string_bytes(element_type) + string_bytes(name) + u64_bytes(
                buf.len() as u64,
            ) + string_bytes(struct_type_name(struct_type)) + guid_bytes(id) + u8_bytes(0) + buf
        },
    }
}

/// The type a property is stored under; raw data is stored as an array.
pub open spec fn property_type_of(p: SpecProperty) -> PropertyType {
    match p {
        SpecProperty::Int8 { .. } => PropertyType::Int8Property,
        SpecProperty::Int16 { .. } => PropertyType::Int16Property,
        SpecProperty::Int { .. } => PropertyType::IntProperty,
        SpecProperty::Int64 { .. } => PropertyType::Int64Property,
        SpecProperty::UInt8 { .. } => PropertyType::UInt8Property,
        SpecProperty::UInt16 { .. } => PropertyType::UInt16Property,
        SpecProperty::UInt32 { .. } => PropertyType::UInt32Property,
        SpecProperty::UInt64 { .. } => PropertyType::UInt64Property,
        SpecProperty::Float { .. } => PropertyType::FloatProperty,
        SpecProperty::Double { .. } => PropertyType::DoubleProperty,
        SpecProperty::Bool { .. } => PropertyType::BoolProperty,
        SpecProperty::Byte { .. } => PropertyType::ByteProperty,
        SpecProperty::Enum { .. } => PropertyType::EnumProperty,
        SpecProperty::Name { .. } => PropertyType::NameProperty,
        SpecProperty::Str { .. } => PropertyType::StrProperty,
        SpecProperty::FieldPath { .. } => PropertyType::FieldPathProperty,
        SpecProperty::SoftObject { .. } => PropertyType::SoftObjectProperty,
        SpecProperty::Object { .. } => PropertyType::ObjectProperty,
        SpecProperty::Text { .. } => PropertyType::TextProperty,
        SpecProperty::Delegate { .. } => PropertyType::DelegateProperty,
        SpecProperty::MulticastDelegate { .. } => PropertyType::MulticastDelegateProperty,
        SpecProperty::MulticastInlineDelegate { .. } => PropertyType::MulticastInlineDelegateProperty,
        SpecProperty::MulticastSparseDelegate { .. } => PropertyType::MulticastSparseDelegateProperty,
        SpecProperty::SetOf { .. } => PropertyType::SetProperty,
        SpecProperty::MapOf { .. } => PropertyType::MapProperty,
        SpecProperty::Struct { .. } => PropertyType::StructProperty,
        SpecProperty::RawData { .. } => PropertyType::ArrayProperty,
        SpecProperty::Array { .. } => PropertyType::ArrayProperty,
    }
}

/// The bytes of raw data: its properties, the terminating "None", a zero
/// and the struct GUID.
pub open spec fn raw_data_bytes(ps: Seq<(Seq<char>, SpecProperty)>, struct_id: Seq<u8>, lwc: bool) -> Seq<u8>
    decreases ps, 2nat,
{
    property_list_bytes(ps, lwc) + string_bytes("None"@) + u32_bytes(0) + guid_bytes(struct_id)
}

/// What the writer stores after a property's type name: the size it records
/// and the bytes that follow the size.  The size counts the bytes of the
/// value proper, without the tags that come before it.
pub open spec fn property_body(p: SpecProperty, lwc: bool) -> (u64, Seq<u8>)
    decreases p, 0nat,
{
    match p {
        SpecProperty::Int8 { id, value } => (1, opt_guid_bytes(id) + i8_bytes(value)),
        SpecProperty::Int16 { id, value } => (2, opt_guid_bytes(id) + i16_bytes(value)),
        SpecProperty::Int { id, value } => (4, opt_guid_bytes(id) + i32_bytes(value)),
        SpecProperty::Int64 { id, value } => (8, opt_guid_bytes(id) + i64_bytes(value)),
        SpecProperty::UInt8 { id, value } => (1, opt_guid_bytes(id) + u8_bytes(value)),
        SpecProperty::UInt16 { id, value } => (2, opt_guid_bytes(id) + u16_bytes(value)),
        SpecProperty::UInt32 { id, value } => (4, opt_guid_bytes(id) + u32_bytes(value)),
        SpecProperty::UInt64 { id, value } => (8, opt_guid_bytes(id) + u64_bytes(value)),
        SpecProperty::Float { id, value } => (4, opt_guid_bytes(id) + u32_bytes(value)),
        SpecProperty::Double { id, value } => (8, opt_guid_bytes(id) + u64_bytes(value)),
        SpecProperty::Bool { id, value } => (0, bool_byte(value) + opt_guid_bytes(id)),
        SpecProperty::Byte { id, value, enum_type } => {
            let head = string_bytes(enum_type) + opt_guid_bytes(id);
            match value {
                SpecByte::Byte(b) => (1, head + u8_bytes(b)),
                SpecByte::Label(l) => (
                    u64_specs::wrapping_add((encode_utf8(l).len() as usize) as u64, 5),
                    head + string_bytes(l),
                ),
            }
        },
        SpecProperty::Enum { id, value, enum_type } => (
            u64_specs::wrapping_add((encode_utf8(value).len() as usize) as u64, 5),
            string_bytes(enum_type) + opt_guid_bytes(id) + string_bytes(value),
        ),
        SpecProperty::Str { id, value } => tagged(id, string_bytes(value)),
        SpecProperty::Name { id, value } => tagged(id, string_bytes(value)),
        SpecProperty::Object { id, value } => tagged(id, string_bytes(value)),
        SpecProperty::FieldPath { id, value } => tagged(id, field_path_bytes(value)),
        SpecProperty::SoftObject { id, value, value2 } => tagged(
            id,
            string_bytes(value) + string_bytes(value2),
        ),
        SpecProperty::Text { id, value } => tagged(id, text_bytes(value)),
        SpecProperty::Delegate { id, value } => tagged(id, delegate_bytes(value)),
        SpecProperty::MulticastDelegate { id, value } => tagged(id, multicast_bytes(value)),
        SpecProperty::MulticastInlineDelegate { id, value } => tagged(id, multicast_bytes(value)),
        SpecProperty::MulticastSparseDelegate { id, value } => tagged(id, multicast_bytes(value)),
        SpecProperty::SetOf { id, set_type, value } => {
            let buf = u32_bytes(0) + value_set_bytes(value, lwc);
            (buf.len() as u64, string_bytes(property_type_name(set_type)) + opt_guid_bytes(id) + buf)
        },
        SpecProperty::MapOf { id, key_type, value_type, value } => {
            let buf = u32_bytes(0) + count_bytes(value.len()) + map_entries_bytes(value, lwc);
            (
                buf.len() as u64,
                string_bytes(property_type_name(key_type)) + string_bytes(
                    property_type_name(value_type),
                ) + opt_guid_bytes(id) + buf,
            )
        },
        SpecProperty::RawData { id, properties, struct_id } => {
            let raw = raw_data_bytes(properties, struct_id, lwc);
            let buf = count_bytes(raw.len()) + raw;
            (
                buf.len() as u64,
                string_bytes(property_type_name(PropertyType::ByteProperty)) + opt_guid_bytes(id)
                    + buf,
            )
        },
        SpecProperty::Struct { id, value, struct_type, struct_id } => {
            let buf = struct_value_bytes(value, lwc);
            (
                buf.len() as u64,
                string_bytes(struct_type_name(struct_type)) + guid_bytes(struct_id) + opt_guid_bytes(
                    id,
                ) + buf,
            )
        },
        SpecProperty::Array { array_type, id, value } => {
            let buf = value_array_bytes(value, lwc);
            (buf.len() as u64, string_bytes(property_type_name(array_type)) + opt_guid_bytes(id) + buf)
        },
    }
}

/// A value that follows the optional GUID; the size is its length.
pub open spec fn tagged(id: Option<Seq<u8>>, value: Seq<u8>) -> (u64, Seq<u8>) {
    (value.len() as u64, opt_guid_bytes(id) + value)
}

/// One stored property: its name, its type name, the recorded size, then
/// the rest of the body.
pub open spec fn property_bytes(name: Seq<char>, p: SpecProperty, lwc: bool) -> Seq<u8>
    decreases p, 1nat,
{
    let (size, body) = property_body(p, lwc);
    string_bytes(name) + string_bytes(property_type_name(property_type_of(p))) + u64_bytes(size) + body
}

/// The properties one after the other, without the terminator.
pub open spec fn property_list_bytes(ps: Seq<(Seq<char>, SpecProperty)>, lwc: bool) -> Seq<u8>
    decreases ps, 1nat,
{
    if ps.len() == 0 {
        Seq::empty()
    } else {
        property_list_bytes(ps.drop_last(), lwc) + property_bytes(ps.last().0, ps.last().1, lwc)
    }
}

/// The properties, then "None".
pub open spec fn properties_bytes(ps: Seq<(Seq<char>, SpecProperty)>, lwc: bool) -> Seq<u8>
    decreases ps, 2nat,
{
    property_list_bytes(ps, lwc) + string_bytes("None"@)
}

// ---------------------------------------------------------------------------
// What the writer can store

/// Every struct type that the writer stores by name has a name: no struct
/// property and no array of structs has the bare type `Struct(None)`.
pub open spec fn property_writable(p: SpecProperty) -> bool
    decreases p, 0nat,
{
    match p {
        SpecProperty::SetOf { value, .. } => value_set_writable(value),
        SpecProperty::MapOf { value, .. } => map_entries_writable(value),
        SpecProperty::Struct { value, struct_type, .. } => struct_type != SpecStructType::Struct(None)
            && struct_value_writable(value),
        SpecProperty::RawData { properties, .. } => properties_writable(properties),
        SpecProperty::Array { value, .. } => value_array_writable(value),
        _ => true,
    }
}

pub open spec fn properties_writable(ps: Seq<(Seq<char>, SpecProperty)>) -> bool
    decreases ps, 1nat,
{
    ps.len() == 0 || (properties_writable(ps.drop_last()) && property_writable(ps.last().1))
}

pub open spec fn struct_value_writable(v: SpecStructValue) -> bool
    decreases v, 0nat,
{
    match v {
        SpecStructValue::Struct(ps) => properties_writable(ps),
        _ => true,
    }
}

pub open spec fn struct_values_writable(s: Seq<SpecStructValue>) -> bool
    decreases s, 1nat,
{
    s.len() == 0 || (struct_values_writable(s.drop_last()) && struct_value_writable(s.last()))
}

pub open spec fn property_value_writable(v: SpecPropertyValue) -> bool
    decreases v, 0nat,
{
    match v {
        SpecPropertyValue::Struct(s) => struct_value_writable(s),
        _ => true,
    }
}

pub open spec fn map_entries_writable(s: Seq<SpecMapEntry>) -> bool
    decreases s, 1nat,
{
    s.len() == 0 || (map_entries_writable(s.drop_last()) && property_value_writable(s.last().key)
        && property_value_writable(s.last().value))
}

pub open spec fn value_set_writable(v: SpecValueSet) -> bool
    decreases v, 0nat,
{
    match v {
        SpecValueSet::Struct(s) => struct_values_writable(s),
        _ => true,
    }
}

pub open spec fn value_array_writable(v: SpecValueArray) -> bool
    decreases v, 0nat,
{
    match v {
        SpecValueArray::Struct { struct_type, value, .. } => struct_type != SpecStructType::Struct(None)
            && struct_values_writable(value),
        _ => true,
    }
}

// ---------------------------------------------------------------------------
// The save

pub open spec fn custom_format_bytes(c: (Seq<u8>, i32)) -> Seq<u8> {
    guid_bytes(c.0) + i32_bytes(c.1)
}

pub open spec fn header_bytes(h: SpecHeader) -> Seq<u8> {
    u32_bytes(h.magic) + u32_bytes(h.save_game_version) + match h.package_version {
        PackageVersion::Old(a) => u32_bytes(a),
        PackageVersion::New(a, b) => u32_bytes(a) + u32_bytes(b),
    } + u16_bytes(h.engine_version_major) + u16_bytes(h.engine_version_minor) + u16_bytes(
        h.engine_version_patch,
    ) + u32_bytes(h.engine_version_build) + string_bytes(h.engine_version) + u32_bytes(
        h.custom_format_version,
    ) + count_bytes(h.custom_format.len()) + fixed_bytes(
        h.custom_format,
        |c: (Seq<u8>, i32)| custom_format_bytes(c),
    )
}

pub open spec fn root_bytes(r: SpecRoot, lwc: bool) -> Seq<u8> {
    string_bytes(r.save_game_type) + properties_bytes(r.properties, lwc)
}

/// Each element of a writable list is writable.
pub proof fn lemma_struct_values_writable(s: Seq<SpecStructValue>, i: int)
    requires
        struct_values_writable(s),
        0 <= i < s.len(),
    ensures
        struct_value_writable(s[i]),
    decreases s.len(),
{
    if i < s.len() - 1 {
        lemma_struct_values_writable(s.drop_last(), i);
    }
}

pub proof fn lemma_properties_writable(ps: Seq<(Seq<char>, SpecProperty)>, i: int)
    requires
        properties_writable(ps),
        0 <= i < ps.len(),
    ensures
        property_writable(ps[i].1),
    decreases ps.len(),
{
    if i < ps.len() - 1 {
        lemma_properties_writable(ps.drop_last(), i);
    }
}

pub proof fn lemma_map_entries_writable(s: Seq<SpecMapEntry>, i: int)
    requires
        map_entries_writable(s),
        0 <= i < s.len(),
    ensures
        property_value_writable(s[i].key),
        property_value_writable(s[i].value),
    decreases s.len(),
{
    if i < s.len() - 1 {
        lemma_map_entries_writable(s.drop_last(), i);
    }
}

/// A save the writer can store.
pub open spec fn save_writable(s: SpecSave) -> bool {
    properties_writable(s.root.properties)
}

/// A whole save: the header, the root (with the header's setting for
/// vector components) and the extra bytes.
pub open spec fn save_bytes(s: SpecSave) -> Seq<u8> {
    header_bytes(s.header) + root_bytes(s.root, s.header.engine_version_major >= 5) + s.extra
}

} // verus!
