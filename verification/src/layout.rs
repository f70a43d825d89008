//! Where each field of a value lies in the stored bytes, stated over the
//! little-endian decoding of byte ranges: what the writer puts at each
//! offset, and what the reader takes from it.
use vstd::prelude::*;
use vstd::utf8::encode_utf8;
use vstd::bytes::{
    lemma_auto_spec_u16_to_from_le_bytes, lemma_auto_spec_u32_to_from_le_bytes,
    lemma_auto_spec_u64_to_from_le_bytes, spec_u16_from_le_bytes, spec_u16_to_le_bytes,
    spec_u32_from_le_bytes, spec_u32_to_le_bytes, spec_u64_from_le_bytes, spec_u64_to_le_bytes,
};

use crate::decode::{
    sp_box, sp_color, sp_int_point, sp_linear_color, sp_quat, sp_rotator, sp_vector, sp_vector2d,
};
use crate::encode::{
    box_bytes, color_bytes, component_bytes, int_point_bytes, linear_color_bytes, quat_bytes,
    rotator_bytes, vector2d_bytes, vector_bytes,
};
use crate::bytes::{
    guid_bytes, i16_bytes, i32_bytes, i64_bytes, i8_bytes, opt_guid_bytes, u16_bytes, u32_bytes,
    u64_bytes, u8_bytes,
};
use crate::encode::{
    bool_byte, count_bytes, map_entries_bytes, property_body, raw_data_bytes, struct_value_bytes,
    value_array_bytes, value_set_bytes, value_vec_bytes,
};
use crate::strings::string_bytes;
use crate::types::{PropertyType, property_type_name, struct_type_name};
use crate::model::{
    Box, Color, IntPoint, LinearColor, Quat, Rotator, SpecByte, SpecByteArray, SpecProperty,
    SpecValueVec, Vector, Vector2D,
};
use crate::roundtrip::{
    lemma_fixed_at, lemma_fixed_len, lemma_tagged_body, lemma_vec_bytes, prop_id, tagged_rest,
    vec_elems, vec_len,
};

verus! {

/// The 16-bit value stored little-endian at offset `k` of `b`.
pub open spec fn u16_at(b: Seq<u8>, k: int) -> u16 {
    spec_u16_from_le_bytes(b.subrange(k, k + 2))
}

/// The 32-bit value stored little-endian at offset `k` of `b`.
pub open spec fn u32_at(b: Seq<u8>, k: int) -> u32 {
    spec_u32_from_le_bytes(b.subrange(k, k + 4))
}

/// The 64-bit value stored little-endian at offset `k` of `b`.
pub open spec fn u64_at(b: Seq<u8>, k: int) -> u64 {
    spec_u64_from_le_bytes(b.subrange(k, k + 8))
}

/// The byte width of a float component: 8 with large world coordinates,
/// otherwise 4.
pub open spec fn component_width(lwc: bool) -> int {
    if lwc {
        8
    } else {
        4
    }
}

/// The float component stored at offset `k`: 64 bits with large world
/// coordinates, otherwise 32 bits held in the low half.
pub open spec fn component_at(b: Seq<u8>, k: int, lwc: bool) -> u64 {
    if lwc {
        u64_at(b, k)
    } else {
        u32_at(b, k) as u64
    }
}

/// What is kept of a component when it is stored: all of it with large
/// world coordinates, otherwise its low 32 bits.
pub open spec fn stored_component(x: u64, lwc: bool) -> u64 {
    if lwc {
        x
    } else {
        (x as u32) as u64
    }
}

proof fn lemma_component_at(b: Seq<u8>, k: int, x: u64, lwc: bool)
    requires
        0 <= k,
        k + component_width(lwc) <= b.len(),
        b.subrange(k, k + component_width(lwc)) == component_bytes(x, lwc),
    ensures
        component_at(b, k, lwc) == stored_component(x, lwc),
        component_bytes(x, lwc).len() == component_width(lwc),
{
    lemma_auto_spec_u32_to_from_le_bytes();
    lemma_auto_spec_u64_to_from_le_bytes();
}

proof fn lemma_component_len(x: u64, lwc: bool)
    ensures
        component_bytes(x, lwc).len() == component_width(lwc),
{
    lemma_auto_spec_u32_to_from_le_bytes();
    lemma_auto_spec_u64_to_from_le_bytes();
}

/// An int point is stored as `x`, then `y`, each a 32-bit integer.
pub proof fn law_int_point_layout(v: IntPoint)
    ensures
        int_point_bytes(v).len() == 8,
        u32_at(int_point_bytes(v), 0) as i32 == v.x,
        u32_at(int_point_bytes(v), 4) as i32 == v.y,
{
    lemma_auto_spec_u32_to_from_le_bytes();
    let b = int_point_bytes(v);
    assert(b.subrange(0, 4) =~= spec_u32_to_le_bytes(v.x as u32));
    assert(b.subrange(4, 8) =~= spec_u32_to_le_bytes(v.y as u32));
    let (x, y) = (v.x, v.y);
    assert((x as u32) as i32 == x) by (bit_vector);
    assert((y as u32) as i32 == y) by (bit_vector);
}

/// The reader takes an int point's `x` from its first four bytes and `y`
/// from the next four.
pub proof fn law_read_int_point(d: Seq<u8>, p: int)
    ensures
        sp_int_point(d, p) matches Ok((v, n)) ==> n == 8 && v.x == u32_at(d, p) as i32 && v.y == u32_at(
            d,
            p + 4,
        ) as i32,
{
}

/// A 2D vector is stored as `x`, then `y`, each 32 bits.
pub proof fn law_vector2d_layout(v: Vector2D)
    ensures
        vector2d_bytes(v).len() == 8,
        u32_at(vector2d_bytes(v), 0) == v.x,
        u32_at(vector2d_bytes(v), 4) == v.y,
{
    lemma_auto_spec_u32_to_from_le_bytes();
    let b = vector2d_bytes(v);
    assert(b.subrange(0, 4) =~= spec_u32_to_le_bytes(v.x));
    assert(b.subrange(4, 8) =~= spec_u32_to_le_bytes(v.y));
}

/// The reader takes a 2D vector's `x` from its first four bytes and `y`
/// from the next four.
pub proof fn law_read_vector2d(d: Seq<u8>, p: int)
    ensures
        sp_vector2d(d, p) matches Ok((v, n)) ==> n == 8 && v.x == u32_at(d, p) && v.y == u32_at(d, p + 4),
{
}

/// A linear color is stored as `r`, `g`, `b`, `a`, each 32 bits.
pub proof fn law_linear_color_layout(v: LinearColor)
    ensures
        linear_color_bytes(v).len() == 16,
        u32_at(linear_color_bytes(v), 0) == v.r,
        u32_at(linear_color_bytes(v), 4) == v.g,
        u32_at(linear_color_bytes(v), 8) == v.b,
        u32_at(linear_color_bytes(v), 12) == v.a,
{
    lemma_auto_spec_u32_to_from_le_bytes();
    let b = linear_color_bytes(v);
    assert(b.subrange(0, 4) =~= spec_u32_to_le_bytes(v.r));
    assert(b.subrange(4, 8) =~= spec_u32_to_le_bytes(v.g));
    assert(b.subrange(8, 12) =~= spec_u32_to_le_bytes(v.b));
    assert(b.subrange(12, 16) =~= spec_u32_to_le_bytes(v.a));
}

/// The reader takes a linear color's `r`, `g`, `b`, `a` from four 32-bit
/// values in that order.
pub proof fn law_read_linear_color(d: Seq<u8>, p: int)
    ensures
        sp_linear_color(d, p) matches Ok((v, n)) ==> n == 16 && v.r == u32_at(d, p) && v.g == u32_at(
            d,
            p + 4,
        ) && v.b == u32_at(d, p + 8) && v.a == u32_at(d, p + 12),
{
}

/// A color is stored as the bytes `r`, `g`, `b`, `a`.
pub proof fn law_color_layout(v: Color)
    ensures
        color_bytes(v).len() == 4,
        color_bytes(v)[0] == v.r,
        color_bytes(v)[1] == v.g,
        color_bytes(v)[2] == v.b,
        color_bytes(v)[3] == v.a,
{
}

/// The reader takes a color's `r`, `g`, `b`, `a` from four bytes in that
/// order.
pub proof fn law_read_color(d: Seq<u8>, p: int)
    ensures
        sp_color(d, p) matches Ok((v, n)) ==> n == 4 && v.r == d[p] && v.g == d[p + 1] && v.b == d[p + 2]
            && v.a == d[p + 3],
{
}

/// A vector is stored as `x`, `y`, `z`, each a component.
pub proof fn law_vector_layout(v: Vector, lwc: bool)
    ensures
        vector_bytes(v, lwc).len() == 3 * component_width(lwc),
        component_at(vector_bytes(v, lwc), 0, lwc) == stored_component(v.x, lwc),
        component_at(vector_bytes(v, lwc), component_width(lwc), lwc) == stored_component(v.y, lwc),
        component_at(vector_bytes(v, lwc), 2 * component_width(lwc), lwc) == stored_component(v.z, lwc),
{
    let w = component_width(lwc);
    let b = vector_bytes(v, lwc);
    lemma_component_len(v.x, lwc);
    lemma_component_len(v.y, lwc);
    lemma_component_len(v.z, lwc);
    assert(b.subrange(0, w) =~= component_bytes(v.x, lwc));
    assert(b.subrange(w, 2 * w) =~= component_bytes(v.y, lwc));
    assert(b.subrange(2 * w, 3 * w) =~= component_bytes(v.z, lwc));
    lemma_component_at(b, 0, v.x, lwc);
    lemma_component_at(b, w, v.y, lwc);
    lemma_component_at(b, 2 * w, v.z, lwc);
}

/// The reader takes a vector's `x`, `y`, `z` from three components in
/// that order.
pub proof fn law_read_vector(d: Seq<u8>, p: int, lwc: bool)
    ensures
        sp_vector(d, p, lwc) matches Ok((v, n)) ==> n == 3 * component_width(lwc) && v.x == component_at(
            d,
            p,
            lwc,
        ) && v.y == component_at(d, p + component_width(lwc), lwc) && v.z == component_at(
            d,
            p + 2 * component_width(lwc),
            lwc,
        ),
{
}

/// A rotator is stored as `x`, `y`, `z`, each a component.
pub proof fn law_rotator_layout(v: Rotator, lwc: bool)
    ensures
        rotator_bytes(v, lwc).len() == 3 * component_width(lwc),
        component_at(rotator_bytes(v, lwc), 0, lwc) == stored_component(v.x, lwc),
        component_at(rotator_bytes(v, lwc), component_width(lwc), lwc) == stored_component(v.y, lwc),
        component_at(rotator_bytes(v, lwc), 2 * component_width(lwc), lwc) == stored_component(v.z, lwc),
{
    let w = component_width(lwc);
    let b = rotator_bytes(v, lwc);
    lemma_component_len(v.x, lwc);
    lemma_component_len(v.y, lwc);
    lemma_component_len(v.z, lwc);
    assert(b.subrange(0, w) =~= component_bytes(v.x, lwc));
    assert(b.subrange(w, 2 * w) =~= component_bytes(v.y, lwc));
    assert(b.subrange(2 * w, 3 * w) =~= component_bytes(v.z, lwc));
    lemma_component_at(b, 0, v.x, lwc);
    lemma_component_at(b, w, v.y, lwc);
    lemma_component_at(b, 2 * w, v.z, lwc);
}

/// The reader takes a rotator's `x`, `y`, `z` from three components in
/// that order.
pub proof fn law_read_rotator(d: Seq<u8>, p: int, lwc: bool)
    ensures
        sp_rotator(d, p, lwc) matches Ok((v, n)) ==> n == 3 * component_width(lwc) && v.x == component_at(
            d,
            p,
            lwc,
        ) && v.y == component_at(d, p + component_width(lwc), lwc) && v.z == component_at(
            d,
            p + 2 * component_width(lwc),
            lwc,
        ),
{
}

/// A quaternion is stored as `x`, `y`, `z`, `w`, each a component.
pub proof fn law_quat_layout(v: Quat, lwc: bool)
    ensures
        quat_bytes(v, lwc).len() == 4 * component_width(lwc),
        component_at(quat_bytes(v, lwc), 0, lwc) == stored_component(v.x, lwc),
        component_at(quat_bytes(v, lwc), component_width(lwc), lwc) == stored_component(v.y, lwc),
        component_at(quat_bytes(v, lwc), 2 * component_width(lwc), lwc) == stored_component(v.z, lwc),
        component_at(quat_bytes(v, lwc), 3 * component_width(lwc), lwc) == stored_component(v.w, lwc),
{
    let w = component_width(lwc);
    let b = quat_bytes(v, lwc);
    lemma_component_len(v.x, lwc);
    lemma_component_len(v.y, lwc);
    lemma_component_len(v.z, lwc);
    lemma_component_len(v.w, lwc);
    assert(b.subrange(0, w) =~= component_bytes(v.x, lwc));
    assert(b.subrange(w, 2 * w) =~= component_bytes(v.y, lwc));
    assert(b.subrange(2 * w, 3 * w) =~= component_bytes(v.z, lwc));
    assert(b.subrange(3 * w, 4 * w) =~= component_bytes(v.w, lwc));
    lemma_component_at(b, 0, v.x, lwc);
    lemma_component_at(b, w, v.y, lwc);
    lemma_component_at(b, 2 * w, v.z, lwc);
    lemma_component_at(b, 3 * w, v.w, lwc);
}

/// The reader takes a quaternion's `x`, `y`, `z`, `w` from four components
/// in that order.
pub proof fn law_read_quat(d: Seq<u8>, p: int, lwc: bool)
    ensures
        sp_quat(d, p, lwc) matches Ok((v, n)) ==> n == 4 * component_width(lwc) && v.x == component_at(
            d,
            p,
            lwc,
        ) && v.y == component_at(d, p + component_width(lwc), lwc) && v.z == component_at(
            d,
            p + 2 * component_width(lwc),
            lwc,
        ) && v.w == component_at(d, p + 3 * component_width(lwc), lwc),
{
}

/// A box is stored as its corner `a`, then its corner `b`, each a vector.
pub proof fn law_box_layout(v: Box, lwc: bool)
    ensures
        box_bytes(v, lwc).len() == 6 * component_width(lwc),
        box_bytes(v, lwc).subrange(0, 3 * component_width(lwc)) == vector_bytes(v.a, lwc),
        box_bytes(v, lwc).subrange(3 * component_width(lwc), 6 * component_width(lwc)) == vector_bytes(
            v.b,
            lwc,
        ),
{
    law_vector_layout(v.a, lwc);
    law_vector_layout(v.b, lwc);
    let w = component_width(lwc);
    assert(box_bytes(v, lwc).subrange(0, 3 * w) =~= vector_bytes(v.a, lwc));
    assert(box_bytes(v, lwc).subrange(3 * w, 6 * w) =~= vector_bytes(v.b, lwc));
}

/// The reader takes a box's corner `a` from the first vector and `b` from
/// the second, then one more byte.
pub proof fn law_read_box(d: Seq<u8>, p: int, lwc: bool)
    ensures
        sp_box(d, p, lwc) matches Ok((v, n)) ==> n == 6 * component_width(lwc) + 1 && sp_vector(d, p, lwc)
            == Ok::<(Vector, nat), crate::model::SpecParseError>((v.a, (3 * component_width(lwc)) as nat))
            && sp_vector(d, p + 3 * component_width(lwc), lwc) == Ok::<
            (Vector, nat),
            crate::model::SpecParseError,
        >((v.b, (3 * component_width(lwc)) as nat)),
{
}

// ---------------------------------------------------------------------------
// Properties

/// The properties whose value has a fixed width.
pub open spec fn is_fixed_width(p: SpecProperty) -> bool {
    ||| p is Int8
    ||| p is Int16
    ||| p is Int
    ||| p is Int64
    ||| p is UInt8
    ||| p is UInt16
    ||| p is UInt32
    ||| p is UInt64
    ||| p is Float
    ||| p is Double
}

/// `b` is the little-endian form of the value of the fixed-width property
/// `p`, of the width that its type has.
pub open spec fn holds_value(p: SpecProperty, b: Seq<u8>) -> bool {
    match p {
        SpecProperty::Int8 { value, .. } => b.len() == 1 && b[0] as i8 == value,
        SpecProperty::Int16 { value, .. } => b.len() == 2 && u16_at(b, 0) as i16 == value,
        SpecProperty::Int { value, .. } => b.len() == 4 && u32_at(b, 0) as i32 == value,
        SpecProperty::Int64 { value, .. } => b.len() == 8 && u64_at(b, 0) as i64 == value,
        SpecProperty::UInt8 { value, .. } => b.len() == 1 && b[0] == value,
        SpecProperty::UInt16 { value, .. } => b.len() == 2 && u16_at(b, 0) == value,
        SpecProperty::UInt32 { value, .. } => b.len() == 4 && u32_at(b, 0) == value,
        SpecProperty::UInt64 { value, .. } => b.len() == 8 && u64_at(b, 0) == value,
        SpecProperty::Float { value, .. } => b.len() == 4 && u32_at(b, 0) == value,
        SpecProperty::Double { value, .. } => b.len() == 8 && u64_at(b, 0) == value,
        _ => false,
    }
}

/// A fixed-width property is stored as its optional GUID, then its value in
/// little-endian form, and the size recorded for it is the width of that
/// value: 1 for 8-bit integers, 2 for 16-bit, 4 for 32-bit integers and
/// floats, 8 for 64-bit integers and doubles.
pub proof fn law_fixed_width_property(p: SpecProperty, lwc: bool)
    requires
        is_fixed_width(p),
    ensures
        ({
            let size = property_body(p, lwc).0;
            let body = property_body(p, lwc).1;
            let g = opt_guid_bytes(prop_id(p));
            &&& body.len() == g.len() + size
            &&& body.subrange(0, g.len() as int) == g
            &&& holds_value(p, body.subrange(g.len() as int, body.len() as int))
        }),
{
    lemma_auto_spec_u16_to_from_le_bytes();
    lemma_auto_spec_u32_to_from_le_bytes();
    lemma_auto_spec_u64_to_from_le_bytes();
    let body = property_body(p, lwc).1;
    let g = opt_guid_bytes(prop_id(p));
    assert(body.subrange(0, g.len() as int) =~= g);
    let v = body.subrange(g.len() as int, body.len() as int);
    match p {
        SpecProperty::Int8 { value, .. } => {
            assert(v =~= seq![value as u8]);
            assert((value as u8) as i8 == value) by (bit_vector);
        },
        SpecProperty::Int16 { value, .. } => {
            assert(v =~= spec_u16_to_le_bytes(value as u16));
            assert(v.subrange(0, 2) =~= v);
            assert((value as u16) as i16 == value) by (bit_vector);
        },
        SpecProperty::Int { value, .. } => {
            assert(v =~= spec_u32_to_le_bytes(value as u32));
            assert(v.subrange(0, 4) =~= v);
            assert((value as u32) as i32 == value) by (bit_vector);
        },
        SpecProperty::Int64 { value, .. } => {
            assert(v =~= spec_u64_to_le_bytes(value as u64));
            assert(v.subrange(0, 8) =~= v);
            assert((value as u64) as i64 == value) by (bit_vector);
        },
        SpecProperty::UInt8 { value, .. } => {
            assert(v =~= seq![value]);
        },
        SpecProperty::UInt16 { value, .. } => {
            assert(v =~= spec_u16_to_le_bytes(value));
            assert(v.subrange(0, 2) =~= v);
        },
        SpecProperty::UInt32 { value, .. } => {
            assert(v =~= spec_u32_to_le_bytes(value));
            assert(v.subrange(0, 4) =~= v);
        },
        SpecProperty::UInt64 { value, .. } => {
            assert(v =~= spec_u64_to_le_bytes(value));
            assert(v.subrange(0, 8) =~= v);
        },
        SpecProperty::Float { value, .. } => {
            assert(v =~= spec_u32_to_le_bytes(value));
            assert(v.subrange(0, 4) =~= v);
        },
        SpecProperty::Double { value, .. } => {
            assert(v =~= spec_u64_to_le_bytes(value));
            assert(v.subrange(0, 8) =~= v);
        },
        _ => {},
    }
}

proof fn lemma_guid_before_last(pre: Seq<u8>, g: Seq<u8>, rest: Seq<u8>)
    ensures
        (pre + g + rest).subrange(
            (pre + g + rest).len() - rest.len() - g.len(),
            (pre + g + rest).len() - rest.len(),
        ) == g,
{
    assert((pre + g + rest).subrange(
        (pre + g + rest).len() - rest.len() - g.len(),
        (pre + g + rest).len() - rest.len(),
    ) =~= g);
}

/// The size recorded before a property's body counts exactly the bytes that
/// follow its optional GUID, which closes the body's header: nothing for a
/// bool (whose value comes before the GUID), the value for a plain
/// property, everything after the GUID for sets, maps, structs and arrays.
/// A byte property with a label and an enum property record the length of
/// their label's text instead, and are left out here.
#[verifier::spinoff_prover]
#[verifier::rlimit(100)]
pub proof fn law_recorded_size(p: SpecProperty, lwc: bool)
    requires
        !(p matches SpecProperty::Byte { value: SpecByte::Label(_), .. }),
        !(p is Enum),
        property_body(p, lwc).1.len() <= u64::MAX,
    ensures
        ({
            let size = property_body(p, lwc).0;
            let body = property_body(p, lwc).1;
            let g = opt_guid_bytes(prop_id(p));
            &&& size + g.len() <= body.len()
            &&& body.subrange(body.len() - size - g.len(), body.len() - size) == g
        }),
{
    let body = property_body(p, lwc).1;
    let g = opt_guid_bytes(prop_id(p));
    let e = Seq::<u8>::empty();
    match p {
        SpecProperty::Bool { value, .. } => {
            assert(body =~= bool_byte(value) + g + e);
            lemma_guid_before_last(bool_byte(value), g, e);
        },
        SpecProperty::Byte { value: SpecByte::Byte(b), enum_type, .. } => {
            lemma_guid_before_last(string_bytes(enum_type), g, u8_bytes(b));
        },
        SpecProperty::SetOf { set_type, value, .. } => {
            lemma_guid_before_last(
                string_bytes(property_type_name(set_type)),
                g,
                u32_bytes(0) + value_set_bytes(value, lwc),
            );
        },
        SpecProperty::MapOf { key_type, value_type, value, .. } => {
            lemma_guid_before_last(
                string_bytes(property_type_name(key_type)) + string_bytes(property_type_name(value_type)),
                g,
                u32_bytes(0) + count_bytes(value.len()) + map_entries_bytes(value, lwc),
            );
        },
        SpecProperty::RawData { properties, struct_id, .. } => {
            let raw = raw_data_bytes(properties, struct_id, lwc);
            lemma_guid_before_last(
                string_bytes(property_type_name(PropertyType::ByteProperty)),
                g,
                count_bytes(raw.len()) + raw,
            );
        },
        SpecProperty::Struct { value, struct_type, struct_id, .. } => {
            lemma_guid_before_last(
                string_bytes(struct_type_name(struct_type)) + guid_bytes(struct_id),
                g,
                struct_value_bytes(value, lwc),
            );
        },
        SpecProperty::Array { array_type, value, .. } => {
            lemma_guid_before_last(
                string_bytes(property_type_name(array_type)),
                g,
                value_array_bytes(value, lwc),
            );
        },
        _ => {
            lemma_auto_spec_u16_to_from_le_bytes();
            lemma_auto_spec_u32_to_from_le_bytes();
            lemma_auto_spec_u64_to_from_le_bytes();
            lemma_tagged_body(p, lwc);
            let v = tagged_rest(p);
            assert(property_body(p, lwc).0 == v.len());
            assert(body =~= e + g + v);
            lemma_guid_before_last(e, g, v);
        },
    }
}

/// A byte property holding a label, and an enum property, record as their
/// size the number of UTF-8 bytes of the label plus five (its 32-bit length
/// and its terminator).
pub proof fn law_label_size(p: SpecProperty, lwc: bool)
    ensures
        p matches SpecProperty::Byte { value: SpecByte::Label(l), .. } ==> (encode_utf8(l).len() + 5
            < 0x1_0000_0000 ==> property_body(p, lwc).0 == encode_utf8(l).len() + 5),
        p matches SpecProperty::Enum { value, .. } ==> (encode_utf8(value).len() + 5 < 0x1_0000_0000
            ==> property_body(p, lwc).0 == encode_utf8(value).len() + 5),
{
}

// ---------------------------------------------------------------------------
// Vectors of plain values

/// `b` holds the elements of `v` one after the other, each in its
/// little-endian form at the width of its type.
pub open spec fn holds_elements(v: SpecValueVec, b: Seq<u8>) -> bool {
    match v {
        SpecValueVec::Int8(s) => b.len() == s.len() && forall|i: int| 0 <= i < s.len() ==> b[i] as i8 == #[trigger] s[i],
        SpecValueVec::Int16(s) => b.len() == 2 * s.len() && forall|i: int|
            0 <= i < s.len() ==> u16_at(b, 2 * i) as i16 == #[trigger] s[i],
        SpecValueVec::Int(s) => b.len() == 4 * s.len() && forall|i: int|
            0 <= i < s.len() ==> u32_at(b, 4 * i) as i32 == #[trigger] s[i],
        SpecValueVec::Int64(s) => b.len() == 8 * s.len() && forall|i: int|
            0 <= i < s.len() ==> u64_at(b, 8 * i) as i64 == #[trigger] s[i],
        SpecValueVec::UInt16(s) => b.len() == 2 * s.len() && forall|i: int|
            0 <= i < s.len() ==> u16_at(b, 2 * i) == #[trigger] s[i],
        SpecValueVec::UInt32(s) => b.len() == 4 * s.len() && forall|i: int|
            0 <= i < s.len() ==> u32_at(b, 4 * i) == #[trigger] s[i],
        SpecValueVec::UInt64(s) => b.len() == 8 * s.len() && forall|i: int|
            0 <= i < s.len() ==> u64_at(b, 8 * i) == #[trigger] s[i],
        SpecValueVec::Float(s) => b.len() == 4 * s.len() && forall|i: int|
            0 <= i < s.len() ==> u32_at(b, 4 * i) == #[trigger] s[i],
        SpecValueVec::Double(s) => b.len() == 8 * s.len() && forall|i: int|
            0 <= i < s.len() ==> u64_at(b, 8 * i) == #[trigger] s[i],
        SpecValueVec::Bool(s) => b.len() == s.len() && forall|i: int|
            0 <= i < s.len() ==> b[i] == (if #[trigger] s[i] { 1u8 } else { 0u8 }),
        SpecValueVec::UInt8(s) => b == s,
        SpecValueVec::Byte(SpecByteArray::Byte(s)) => b == s,
        _ => true,
    }
}

/// A vector of values is stored as its 32-bit count, then its elements in
/// order, each a fixed-width value for numbers and bools.
#[verifier::spinoff_prover]
#[verifier::rlimit(100)]
pub proof fn law_value_vec_layout(v: SpecValueVec, lwc: bool)
    ensures
        value_vec_bytes(v, lwc).len() >= 4,
        u32_at(value_vec_bytes(v, lwc), 0) == vec_len(v) as u32,
        holds_elements(v, value_vec_bytes(v, lwc).subrange(4, value_vec_bytes(v, lwc).len() as int)),
{
    lemma_auto_spec_u16_to_from_le_bytes();
    lemma_auto_spec_u32_to_from_le_bytes();
    lemma_auto_spec_u64_to_from_le_bytes();
    lemma_vec_bytes(v, lwc);
    let b = value_vec_bytes(v, lwc);
    let e = vec_elems(v, lwc);
    assert(b.subrange(0, 4) =~= count_bytes(vec_len(v)));
    assert(b.subrange(4, b.len() as int) =~= e);
    assert(e.subrange(0, e.len() as int) =~= e);
    match v {
        SpecValueVec::Int8(s) => {
            let f = |x: i8| i8_bytes(x);
            lemma_fixed_len(s, f, 1);
            assert forall|i: int| 0 <= i < s.len() implies e[i] as i8 == #[trigger] s[i] by {
                lemma_fixed_at(e, 0, s, f, 1, i);
                assert(e[i] == e.subrange(i, i + 1)[0]);
                let x = s[i];
                assert((x as u8) as i8 == x) by (bit_vector);
            }
        },
        SpecValueVec::Int16(s) => {
            let f = |x: i16| i16_bytes(x);
            lemma_fixed_len(s, f, 2);
            assert forall|i: int| 0 <= i < s.len() implies u16_at(e, 2 * i) as i16 == #[trigger] s[i] by {
                lemma_fixed_at(e, 0, s, f, 2, i);
                let x = s[i];
                assert((x as u16) as i16 == x) by (bit_vector);
            }
        },
        SpecValueVec::Int(s) => {
            let f = |x: i32| i32_bytes(x);
            lemma_fixed_len(s, f, 4);
            assert forall|i: int| 0 <= i < s.len() implies u32_at(e, 4 * i) as i32 == #[trigger] s[i] by {
                lemma_fixed_at(e, 0, s, f, 4, i);
                let x = s[i];
                assert((x as u32) as i32 == x) by (bit_vector);
            }
        },
        SpecValueVec::Int64(s) => {
            let f = |x: i64| i64_bytes(x);
            lemma_fixed_len(s, f, 8);
            assert forall|i: int| 0 <= i < s.len() implies u64_at(e, 8 * i) as i64 == #[trigger] s[i] by {
                lemma_fixed_at(e, 0, s, f, 8, i);
                let x = s[i];
                assert((x as u64) as i64 == x) by (bit_vector);
            }
        },
        SpecValueVec::UInt16(s) => {
            let f = |x: u16| u16_bytes(x);
            lemma_fixed_len(s, f, 2);
            assert forall|i: int| 0 <= i < s.len() implies u16_at(e, 2 * i) == #[trigger] s[i] by {
                lemma_fixed_at(e, 0, s, f, 2, i);
            }
        },
        SpecValueVec::UInt32(s) => {
            let f = |x: u32| u32_bytes(x);
            lemma_fixed_len(s, f, 4);
            assert forall|i: int| 0 <= i < s.len() implies u32_at(e, 4 * i) == #[trigger] s[i] by {
                lemma_fixed_at(e, 0, s, f, 4, i);
            }
        },
        SpecValueVec::UInt64(s) => {
            let f = |x: u64| u64_bytes(x);
            lemma_fixed_len(s, f, 8);
            assert forall|i: int| 0 <= i < s.len() implies u64_at(e, 8 * i) == #[trigger] s[i] by {
                lemma_fixed_at(e, 0, s, f, 8, i);
            }
        },
        SpecValueVec::Float(s) => {
            let f = |x: u32| u32_bytes(x);
            lemma_fixed_len(s, f, 4);
            assert forall|i: int| 0 <= i < s.len() implies u32_at(e, 4 * i) == #[trigger] s[i] by {
                lemma_fixed_at(e, 0, s, f, 4, i);
            }
        },
        SpecValueVec::Double(s) => {
            let f = |x: u64| u64_bytes(x);
            lemma_fixed_len(s, f, 8);
            assert forall|i: int| 0 <= i < s.len() implies u64_at(e, 8 * i) == #[trigger] s[i] by {
                lemma_fixed_at(e, 0, s, f, 8, i);
            }
        },
        SpecValueVec::Bool(s) => {
            let f = |x: bool| bool_byte(x);
            lemma_fixed_len(s, f, 1);
            assert forall|i: int| 0 <= i < s.len() implies e[i] == (if #[trigger] s[i] { 1u8 } else { 0u8 }) by {
                lemma_fixed_at(e, 0, s, f, 1, i);
                assert(e[i] == e.subrange(i, i + 1)[0]);
            }
        },
        _ => {},
    }
}

} // verus!
