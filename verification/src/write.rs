//! Writing a save: each writer appends exactly the bytes that `encode`
//! assigns to its value.
use vstd::prelude::*;

use crate::bytes::{
    i16_bytes, i32_bytes, i64_bytes, i8_bytes, push_bytes, u16_bytes, u32_bytes, u64_bytes,
    write_guid, write_i16, write_i32, write_i64, write_i8, write_optional_guid, write_u16,
    write_u32, write_u64, write_u8,
};
use crate::encode::{
    bool_byte, box_bytes, boxes_bytes, color_bytes, component_bytes, count_bytes, delegate_bytes,
    delegates_bytes, field_path_bytes, fixed_bytes, format_arguments_bytes, format_value_bytes,
    int_point_bytes, lemma_map_entries_writable, lemma_properties_writable,
    lemma_struct_values_writable, linear_color_bytes, map_entries_bytes, map_entries_writable,
    multicast_bytes, number_options_bytes, properties_bytes, properties_writable, property_body,
    property_bytes, property_list_bytes, property_type_of, property_value_bytes,
    property_value_writable, property_writable, quat_bytes, rotator_bytes, string_pairs_bytes,
    strings_bytes, struct_value_bytes, struct_value_writable, struct_values_bytes,
    struct_values_writable, tagged, text_bytes, text_variant_bytes, texts_bytes, value_array_bytes,
    value_array_writable, value_set_bytes, value_set_writable, value_vec_bytes, vector2d_bytes,
    vector_bytes,
};
use crate::model::{
    Box, Byte, ByteArray, Color, Delegate, FFormatArgumentData, FFormatArgumentDataValue,
    FFormatArgumentValue, FNumberFormattingOptions, FieldPath, GameplayTag, Guid, IntPoint,
    LinearColor, MapEntry, Properties, Property, PropertyValue, Quat, Rotator, StructValue, Text,
    TextVariant, ValueArray, ValueSet, ValueVec, Vector, Vector2D, delegates_view,
    format_arguments_view, format_data_value_view, map_entries_view, opt_guid_view, pairs_view,
    properties_view, struct_values_view,
};
use crate::strings::{string_bytes, write_string, write_string_always_trailing};
use crate::types::PropertyType;

verus! {

broadcast use vstd::std_specs::vec::group_vec_axioms;

/// Writes a count: the length, truncated to 32 bits.
pub fn write_count(out: &mut Vec<u8>, n: usize)
    ensures
        final(out)@ == old(out)@ + count_bytes(n as nat),
{
    write_u32(out, n as u32);
}

/// Each value, one after the other.
pub fn write_i8s(out: &mut Vec<u8>, v: &Vec<i8>)
    ensures
        final(out)@ == old(out)@ + fixed_bytes(v@, |x: i8| i8_bytes(x)),
{
    let mut i: usize = 0;
    while i < v.len()
        invariant
            i <= v@.len(),
            out@ == old(out)@ + fixed_bytes(v@.take(i as int), |x: i8| i8_bytes(x)),
        decreases v@.len() - i,
    {
        write_i8(out, v[i]);
        proof {
            assert(v@.take(i + 1).drop_last() =~= v@.take(i as int));
        }
        i = i + 1;
    }
    assert(v@.take(v@.len() as int) =~= v@);
}

/// Each value, one after the other.
pub fn write_i16s(out: &mut Vec<u8>, v: &Vec<i16>)
    ensures
        final(out)@ == old(out)@ + fixed_bytes(v@, |x: i16| i16_bytes(x)),
{
    let mut i: usize = 0;
    while i < v.len()
        invariant
            i <= v@.len(),
            out@ == old(out)@ + fixed_bytes(v@.take(i as int), |x: i16| i16_bytes(x)),
        decreases v@.len() - i,
    {
        write_i16(out, v[i]);
        proof {
            assert(v@.take(i + 1).drop_last() =~= v@.take(i as int));
        }
        i = i + 1;
    }
    assert(v@.take(v@.len() as int) =~= v@);
}

/// Each value, one after the other.
pub fn write_i32s(out: &mut Vec<u8>, v: &Vec<i32>)
    ensures
        final(out)@ == old(out)@ + fixed_bytes(v@, |x: i32| i32_bytes(x)),
{
    let mut i: usize = 0;
    while i < v.len()
        invariant
            i <= v@.len(),
            out@ == old(out)@ + fixed_bytes(v@.take(i as int), |x: i32| i32_bytes(x)),
        decreases v@.len() - i,
    {
        write_i32(out, v[i]);
        proof {
            assert(v@.take(i + 1).drop_last() =~= v@.take(i as int));
        }
        i = i + 1;
    }
    assert(v@.take(v@.len() as int) =~= v@);
}

/// Each value, one after the other.
pub fn write_i64s(out: &mut Vec<u8>, v: &Vec<i64>)
    ensures
        final(out)@ == old(out)@ + fixed_bytes(v@, |x: i64| i64_bytes(x)),
{
    let mut i: usize = 0;
    while i < v.len()
        invariant
            i <= v@.len(),
            out@ == old(out)@ + fixed_bytes(v@.take(i as int), |x: i64| i64_bytes(x)),
        decreases v@.len() - i,
    {
        write_i64(out, v[i]);
        proof {
            assert(v@.take(i + 1).drop_last() =~= v@.take(i as int));
        }
        i = i + 1;
    }
    assert(v@.take(v@.len() as int) =~= v@);
}

/// Each value, one after the other.
pub fn write_u16s(out: &mut Vec<u8>, v: &Vec<u16>)
    ensures
        final(out)@ == old(out)@ + fixed_bytes(v@, |x: u16| u16_bytes(x)),
{
    let mut i: usize = 0;
    while i < v.len()
        invariant
            i <= v@.len(),
            out@ == old(out)@ + fixed_bytes(v@.take(i as int), |x: u16| u16_bytes(x)),
        decreases v@.len() - i,
    {
        write_u16(out, v[i]);
        proof {
            assert(v@.take(i + 1).drop_last() =~= v@.take(i as int));
        }
        i = i + 1;
    }
    assert(v@.take(v@.len() as int) =~= v@);
}

/// Each value, one after the other.
pub fn write_u32s(out: &mut Vec<u8>, v: &Vec<u32>)
    ensures
        final(out)@ == old(out)@ + fixed_bytes(v@, |x: u32| u32_bytes(x)),
{
    let mut i: usize = 0;
    while i < v.len()
        invariant
            i <= v@.len(),
            out@ == old(out)@ + fixed_bytes(v@.take(i as int), |x: u32| u32_bytes(x)),
        decreases v@.len() - i,
    {
        write_u32(out, v[i]);
        proof {
            assert(v@.take(i + 1).drop_last() =~= v@.take(i as int));
        }
        i = i + 1;
    }
    assert(v@.take(v@.len() as int) =~= v@);
}

/// Each value, one after the other.
pub fn write_u64s(out: &mut Vec<u8>, v: &Vec<u64>)
    ensures
        final(out)@ == old(out)@ + fixed_bytes(v@, |x: u64| u64_bytes(x)),
{
    let mut i: usize = 0;
    while i < v.len()
        invariant
            i <= v@.len(),
            out@ == old(out)@ + fixed_bytes(v@.take(i as int), |x: u64| u64_bytes(x)),
        decreases v@.len() - i,
    {
        write_u64(out, v[i]);
        proof {
            assert(v@.take(i + 1).drop_last() =~= v@.take(i as int));
        }
        i = i + 1;
    }
    assert(v@.take(v@.len() as int) =~= v@);
}

/// Each value, one after the other.
pub fn write_bools(out: &mut Vec<u8>, v: &Vec<bool>)
    ensures
        final(out)@ == old(out)@ + fixed_bytes(v@, |x: bool| bool_byte(x)),
{
    let mut i: usize = 0;
    while i < v.len()
        invariant
            i <= v@.len(),
            out@ == old(out)@ + fixed_bytes(v@.take(i as int), |x: bool| bool_byte(x)),
        decreases v@.len() - i,
    {
        write_u8(out, if v[i] { 1 } else { 0 });
        proof {
            assert(v@.take(i + 1).drop_last() =~= v@.take(i as int));
        }
        i = i + 1;
    }
    assert(v@.take(v@.len() as int) =~= v@);
}

/// Each string, one after the other.
pub fn write_strings(out: &mut Vec<u8>, v: &Vec<String>)
    ensures
        final(out)@ == old(out)@ + strings_bytes(v.deep_view()),
{
    let mut i: usize = 0;
    while i < v.len()
        invariant
            i <= v@.len(),
            out@ == old(out)@ + strings_bytes(v.deep_view().take(i as int)),
        decreases v@.len() - i,
    {
        write_string(out, v[i].as_str());
        proof {
            assert(v.deep_view().take(i + 1).drop_last() =~= v.deep_view().take(i as int));
        }
        i = i + 1;
    }
    assert(v.deep_view().take(v@.len() as int) =~= v.deep_view());
}

/// Each pair of strings, one after the other.
pub fn write_string_pairs(out: &mut Vec<u8>, v: &Vec<(String, String)>)
    ensures
        final(out)@ == old(out)@ + string_pairs_bytes(pairs_view(v@)),
{
    let mut i: usize = 0;
    while i < v.len()
        invariant
            i <= v@.len(),
            out@ == old(out)@ + string_pairs_bytes(pairs_view(v@).take(i as int)),
        decreases v@.len() - i,
    {
        let ghost o = out@;
        write_string(out, v[i].0.as_str());
        write_string(out, v[i].1.as_str());
        proof {
            assert(pairs_view(v@).take(i + 1).drop_last() =~= pairs_view(v@).take(i as int));
            assert(out@ =~= o + string_bytes(v@[i as int].0@) + string_bytes(v@[i as int].1@));
        }
        i = i + 1;
    }
    assert(pairs_view(v@).take(v@.len() as int) =~= pairs_view(v@));
}

pub fn write_field_path(out: &mut Vec<u8>, v: &FieldPath)
    ensures
        final(out)@ == old(out)@ + field_path_bytes(v@),
{
    write_count(out, v.path.len());
    write_strings(out, &v.path);
    write_string(out, v.owner.as_str());
    assert(out@ =~= old(out)@ + field_path_bytes(v@));
}

pub fn write_delegate(out: &mut Vec<u8>, v: &Delegate)
    ensures
        final(out)@ == old(out)@ + delegate_bytes(v@),
{
    write_string(out, v.name.as_str());
    write_string(out, v.path.as_str());
    assert(out@ =~= old(out)@ + delegate_bytes(v@));
}

/// A count, then each delegate.
pub fn write_multicast(out: &mut Vec<u8>, v: &Vec<Delegate>)
    ensures
        final(out)@ == old(out)@ + multicast_bytes(delegates_view(v@)),
{
    write_count(out, v.len());
    let ghost start = out@;
    let mut i: usize = 0;
    while i < v.len()
        invariant
            i <= v@.len(),
            start == old(out)@ + count_bytes(v@.len()),
            out@ == start + delegates_bytes(delegates_view(v@).take(i as int)),
        decreases v@.len() - i,
    {
        write_delegate(out, &v[i]);
        proof {
            assert(delegates_view(v@).take(i + 1).drop_last() =~= delegates_view(v@).take(i as int));
        }
        i = i + 1;
    }
    assert(delegates_view(v@).take(v@.len() as int) =~= delegates_view(v@));
    assert(out@ =~= old(out)@ + multicast_bytes(delegates_view(v@)));
}

/// A float component: 64 bits with large world coordinates, otherwise the
/// low 32 bits.
pub fn write_component(out: &mut Vec<u8>, x: u64, lwc: bool)
    ensures
        final(out)@ == old(out)@ + component_bytes(x, lwc),
{
    if lwc {
        write_u64(out, x);
    } else {
        write_u32(out, x as u32);
    }
}

pub fn write_vector(out: &mut Vec<u8>, v: &Vector, lwc: bool)
    ensures
        final(out)@ == old(out)@ + vector_bytes(*v, lwc),
{
    write_component(out, v.x, lwc);
    write_component(out, v.y, lwc);
    write_component(out, v.z, lwc);
    assert(out@ =~= old(out)@ + vector_bytes(*v, lwc));
}

pub fn write_rotator(out: &mut Vec<u8>, v: &Rotator, lwc: bool)
    ensures
        final(out)@ == old(out)@ + rotator_bytes(*v, lwc),
{
    write_component(out, v.x, lwc);
    write_component(out, v.y, lwc);
    write_component(out, v.z, lwc);
    assert(out@ =~= old(out)@ + rotator_bytes(*v, lwc));
}

pub fn write_quat(out: &mut Vec<u8>, v: &Quat, lwc: bool)
    ensures
        final(out)@ == old(out)@ + quat_bytes(*v, lwc),
{
    write_component(out, v.x, lwc);
    write_component(out, v.y, lwc);
    write_component(out, v.z, lwc);
    write_component(out, v.w, lwc);
    assert(out@ =~= old(out)@ + quat_bytes(*v, lwc));
}

/// The two vectors of a box.
pub fn write_box(out: &mut Vec<u8>, v: &Box, lwc: bool)
    ensures
        final(out)@ == old(out)@ + box_bytes(*v, lwc),
{
    write_vector(out, &v.a, lwc);
    write_vector(out, &v.b, lwc);
    assert(out@ =~= old(out)@ + box_bytes(*v, lwc));
}

/// Each box, one after the other.
pub fn write_boxes(out: &mut Vec<u8>, v: &Vec<Box>, lwc: bool)
    ensures
        final(out)@ == old(out)@ + boxes_bytes(v@, lwc),
{
    let mut i: usize = 0;
    while i < v.len()
        invariant
            i <= v@.len(),
            out@ == old(out)@ + boxes_bytes(v@.take(i as int), lwc),
        decreases v@.len() - i,
    {
        write_box(out, &v[i], lwc);
        proof {
            assert(v@.take(i + 1).drop_last() =~= v@.take(i as int));
        }
        i = i + 1;
    }
    assert(v@.take(v@.len() as int) =~= v@);
}

pub fn write_linear_color(out: &mut Vec<u8>, v: &LinearColor)
    ensures
        final(out)@ == old(out)@ + linear_color_bytes(*v),
{
    write_u32(out, v.r);
    write_u32(out, v.g);
    write_u32(out, v.b);
    write_u32(out, v.a);
    assert(out@ =~= old(out)@ + linear_color_bytes(*v));
}

pub fn write_color(out: &mut Vec<u8>, v: &Color)
    ensures
        final(out)@ == old(out)@ + color_bytes(*v),
{
    write_u8(out, v.r);
    write_u8(out, v.g);
    write_u8(out, v.b);
    write_u8(out, v.a);
    assert(out@ =~= old(out)@ + color_bytes(*v));
}

pub fn write_vector2d(out: &mut Vec<u8>, v: &Vector2D)
    ensures
        final(out)@ == old(out)@ + vector2d_bytes(*v),
{
    write_u32(out, v.x);
    write_u32(out, v.y);
    assert(out@ =~= old(out)@ + vector2d_bytes(*v));
}

pub fn write_int_point(out: &mut Vec<u8>, v: &IntPoint)
    ensures
        final(out)@ == old(out)@ + int_point_bytes(*v),
{
    write_i32(out, v.x);
    write_i32(out, v.y);
    assert(out@ =~= old(out)@ + int_point_bytes(*v));
}

// ---------------------------------------------------------------------------
// Text

pub fn write_number_options(out: &mut Vec<u8>, o: &FNumberFormattingOptions)
    ensures
        final(out)@ == old(out)@ + number_options_bytes(*o),
{
    write_u32(out, if o.always_sign { 1 } else { 0 });
    write_u32(out, if o.use_grouping { 1 } else { 0 });
    write_i8(out, o.rounding_mode);
    write_i32(out, o.minimum_integral_digits);
    write_i32(out, o.maximum_integral_digits);
    write_i32(out, o.minimum_fractional_digits);
    write_i32(out, o.maximum_fractional_digits);
    assert(out@ =~= old(out)@ + number_options_bytes(*o));
}

/// An argument value in the 64-bit form.
pub fn write_format_value(out: &mut Vec<u8>, v: &FFormatArgumentValue)
    ensures
        final(out)@ == old(out)@ + format_value_bytes(v@, true),
    decreases *v,
{
    match v {
        FFormatArgumentValue::Int(x) => {
            write_u8(out, 0);
            write_i64(out, *x);
        },
        FFormatArgumentValue::UInt(x) => {
            write_u8(out, 1);
            write_u64(out, *x);
        },
        FFormatArgumentValue::Float(x) => {
            write_u8(out, 2);
            write_u32(out, *x);
        },
        FFormatArgumentValue::Double(x) => {
            write_u8(out, 3);
            write_u64(out, *x);
        },
        FFormatArgumentValue::Text(t) => {
            write_u8(out, 4);
            write_text(out, t);
        },
        FFormatArgumentValue::Gender(x) => {
            write_u8(out, 5);
            write_u64(out, *x);
        },
    }
    assert(out@ =~= old(out)@ + format_value_bytes(v@, true));
}

/// An argument value in the 32-bit form.
pub fn write_format_data_value(out: &mut Vec<u8>, v: &FFormatArgumentDataValue)
    ensures
        final(out)@ == old(out)@ + format_value_bytes(v@, false),
    decreases *v,
{
    match v {
        FFormatArgumentDataValue::Int(x) => {
            write_u8(out, 0);
            write_i32(out, *x);
        },
        FFormatArgumentDataValue::UInt(x) => {
            write_u8(out, 1);
            write_u32(out, *x);
        },
        FFormatArgumentDataValue::Float(x) => {
            write_u8(out, 2);
            write_u32(out, *x);
        },
        FFormatArgumentDataValue::Double(x) => {
            write_u8(out, 3);
            write_u64(out, *x);
        },
        FFormatArgumentDataValue::Text(t) => {
            write_u8(out, 4);
            write_text(out, t);
        },
        FFormatArgumentDataValue::Gender(x) => {
            write_u8(out, 5);
            write_u64(out, *x);
        },
    }
    assert(out@ =~= old(out)@ + format_value_bytes(v@, false));
}

/// Each named argument, one after the other.
pub fn write_format_arguments(out: &mut Vec<u8>, a: &Vec<FFormatArgumentData>)
    ensures
        final(out)@ == old(out)@ + format_arguments_bytes(format_arguments_view(*a)),
    decreases *a,
{
    let ghost av = format_arguments_view(*a);
    let mut i: usize = 0;
    while i < a.len()
        invariant
            i <= a@.len(),
            av == format_arguments_view(*a),
            out@ == old(out)@ + format_arguments_bytes(av.take(i as int)),
        decreases a@.len() - i,
    {
        let ghost o = out@;
        write_string(out, a[i].name.as_str());
        assert(av[i as int].value == format_data_value_view(a@[i as int].value));
        proof {
            assert(decreases_to!(*a => a@));
            assert(decreases_to!(a@ => a@[i as int]));
        }
        write_format_data_value(out, &a[i].value);
        proof {
            assert(av.take(i + 1).drop_last() =~= av.take(i as int));
            assert(out@ =~= o + string_bytes(av[i as int].name) + format_value_bytes(av[i as int].value, false));
        }
        i = i + 1;
    }
    assert(av.take(a@.len() as int) =~= av);
}

pub fn write_text(out: &mut Vec<u8>, t: &Text)
    ensures
        final(out)@ == old(out)@ + text_bytes(t@),
    decreases *t,
{
    write_u32(out, t.flags);
    write_text_variant(out, &t.variant);
    assert(out@ =~= old(out)@ + text_bytes(t@));
}

/// A text history: its kind, then its fields.
pub fn write_text_variant(out: &mut Vec<u8>, v: &TextVariant)
    ensures
        final(out)@ == old(out)@ + text_variant_bytes(v@),
    decreases *v,
{
    match v {
        TextVariant::NoHistory { culture_invariant } => {
            write_i8(out, -1);
            match culture_invariant {
                Some(s) => {
                    write_u32(out, 1);
                    write_string(out, s.as_str());
                },
                None => {
                    write_u32(out, 0);
                },
            }
        },
        TextVariant::Base { namespace, key, source_string } => {
            write_i8(out, 0);
            write_string_always_trailing(out, namespace.as_str());
            write_string(out, key.as_str());
            write_string(out, source_string.as_str());
        },
        TextVariant::ArgumentFormat { format_text, arguments } => {
            write_i8(out, 3);
            write_text(out, format_text);
            write_count(out, arguments.len());
            write_format_arguments(out, arguments);
        },
        TextVariant::AsNumber { source_value, format_options, culture_name } => {
            write_i8(out, 4);
            write_format_value(out, source_value);
            match format_options {
                Some(o) => {
                    write_u32(out, 1);
                    write_number_options(out, o);
                },
                None => {
                    write_u32(out, 0);
                },
            }
            write_string(out, culture_name.as_str());
        },
        TextVariant::AsDate { source_date_time, date_style, time_zone, culture_name } => {
            write_i8(out, 7);
            write_u64(out, *source_date_time);
            write_i8(out, *date_style);
            write_string(out, time_zone.as_str());
            write_string(out, culture_name.as_str());
        },
        TextVariant::StringTableEntry { table, key } => {
            write_i8(out, 0xb);
            write_string(out, table.as_str());
            write_string(out, key.as_str());
        },
    }
    assert(out@ =~= old(out)@ + text_variant_bytes(v@));
}

/// Each text, one after the other.
pub fn write_texts(out: &mut Vec<u8>, v: &Vec<Text>)
    ensures
        final(out)@ == old(out)@ + texts_bytes(v@.map_values(|t: Text| t@)),
{
    let ghost tv = v@.map_values(|t: Text| t@);
    let mut i: usize = 0;
    while i < v.len()
        invariant
            i <= v@.len(),
            tv == v@.map_values(|t: Text| t@),
            out@ == old(out)@ + texts_bytes(tv.take(i as int)),
        decreases v@.len() - i,
    {
        write_text(out, &v[i]);
        proof {
            assert(tv.take(i + 1).drop_last() =~= tv.take(i as int));
        }
        i = i + 1;
    }
    assert(tv.take(v@.len() as int) =~= tv);
}

// ---------------------------------------------------------------------------
// Vectorized values

/// A vector of values: the count, then the values.
pub fn write_value_vec(out: &mut Vec<u8>, v: &ValueVec, lwc: bool)
    ensures
        final(out)@ == old(out)@ + value_vec_bytes(v@, lwc),
{
    match v {
        ValueVec::Int8(x) => {
            write_count(out, x.len());
            write_i8s(out, x);
        },
        ValueVec::Int16(x) => {
            write_count(out, x.len());
            write_i16s(out, x);
        },
        ValueVec::Int(x) => {
            write_count(out, x.len());
            write_i32s(out, x);
        },
        ValueVec::Int64(x) => {
            write_count(out, x.len());
            write_i64s(out, x);
        },
        ValueVec::UInt8(x) => {
            write_count(out, x.len());
            push_bytes(out, x.as_slice());
        },
        ValueVec::UInt16(x) => {
            write_count(out, x.len());
            write_u16s(out, x);
        },
        ValueVec::UInt32(x) => {
            write_count(out, x.len());
            write_u32s(out, x);
        },
        ValueVec::UInt64(x) => {
            write_count(out, x.len());
            write_u64s(out, x);
        },
        ValueVec::Float(x) => {
            write_count(out, x.len());
            write_u32s(out, x);
        },
        ValueVec::Double(x) => {
            write_count(out, x.len());
            write_u64s(out, x);
        },
        ValueVec::Bool(x) => {
            write_count(out, x.len());
            write_bools(out, x);
        },
        ValueVec::Byte(ByteArray::Byte(x)) => {
            write_count(out, x.len());
            push_bytes(out, x.as_slice());
        },
        ValueVec::Byte(ByteArray::Label(x)) => {
            write_count(out, x.len());
            write_strings(out, x);
        },
        ValueVec::Enum(x) => {
            write_count(out, x.len());
            write_strings(out, x);
        },
        ValueVec::Str(x) => {
            write_count(out, x.len());
            write_strings(out, x);
        },
        ValueVec::Text(x) => {
            write_count(out, x.len());
            write_texts(out, x);
        },
        ValueVec::SoftObject(x) => {
            write_count(out, x.len());
            write_string_pairs(out, x);
        },
        ValueVec::Name(x) => {
            write_count(out, x.len());
            write_strings(out, x);
        },
        ValueVec::Object(x) => {
            write_count(out, x.len());
            write_strings(out, x);
        },
        ValueVec::Box(x) => {
            write_count(out, x.len());
            write_boxes(out, x, lwc);
        },
    }
    assert(out@ =~= old(out)@ + value_vec_bytes(v@, lwc));
}

// ---------------------------------------------------------------------------
// Structs, values and properties

/// A struct value.
#[verifier::spinoff_prover]
#[verifier::rlimit(100)]
pub fn write_struct_value(out: &mut Vec<u8>, v: &StructValue, lwc: bool)
    requires
        struct_value_writable(v@),
    ensures
        final(out)@ == old(out)@ + struct_value_bytes(v@, lwc),
    decreases *v, 0nat,
{
    match v {
        StructValue::Guid(g) => write_guid(out, g),
        StructValue::DateTime(x) => write_u64(out, *x),
        StructValue::Timespan(x) => write_i64(out, *x),
        StructValue::Vector2D(x) => write_vector2d(out, x),
        StructValue::Vector(x) => write_vector(out, x, lwc),
        StructValue::Box(x) => write_box(out, x, lwc),
        StructValue::IntPoint(x) => write_int_point(out, x),
        StructValue::Quat(x) => write_quat(out, x, lwc),
        StructValue::LinearColor(x) => write_linear_color(out, x),
        StructValue::Color(x) => write_color(out, x),
        StructValue::Rotator(x) => write_rotator(out, x, lwc),
        StructValue::SoftObjectPath(a, b) => {
            write_string(out, a.as_str());
            write_string(out, b.as_str());
        },
        StructValue::GameplayTagContainer(c) => {
            write_count(out, c.gameplay_tags.len());
            write_gameplay_tags(out, &c.gameplay_tags);
        },
        StructValue::Struct(ps) => write_properties(out, ps, lwc),
    }
    assert(out@ =~= old(out)@ + struct_value_bytes(v@, lwc));
}

/// The names of gameplay tags, one after the other.
fn write_gameplay_tags(out: &mut Vec<u8>, v: &Vec<GameplayTag>)
    ensures
        final(out)@ == old(out)@ + strings_bytes(v@.map_values(|t: GameplayTag| t@)),
{
    let ghost tv = v@.map_values(|t: GameplayTag| t@);
    let mut i: usize = 0;
    while i < v.len()
        invariant
            i <= v@.len(),
            tv == v@.map_values(|t: GameplayTag| t@),
            out@ == old(out)@ + strings_bytes(tv.take(i as int)),
        decreases v@.len() - i,
    {
        write_string(out, v[i].name.as_str());
        proof {
            assert(tv.take(i + 1).drop_last() =~= tv.take(i as int));
        }
        i = i + 1;
    }
    assert(tv.take(v@.len() as int) =~= tv);
}

/// Struct values, one after the other.
#[verifier::spinoff_prover]
#[verifier::rlimit(100)]
pub fn write_struct_values(out: &mut Vec<u8>, vs: &Vec<StructValue>, lwc: bool)
    requires
        struct_values_writable(struct_values_view(*vs)),
    ensures
        final(out)@ == old(out)@ + struct_values_bytes(struct_values_view(*vs), lwc),
    decreases *vs, 0nat,
{
    let ghost sv = struct_values_view(*vs);
    let mut i: usize = 0;
    while i < vs.len()
        invariant
            i <= vs@.len(),
            sv == struct_values_view(*vs),
            struct_values_writable(sv),
            out@ == old(out)@ + struct_values_bytes(sv.take(i as int), lwc),
        decreases vs@.len() - i,
    {
        assert(sv[i as int] == vs@[i as int]@);
        proof {
            lemma_struct_values_writable(sv, i as int);
        }
        proof {
            assert(decreases_to!(*vs => vs@));
            assert(decreases_to!(vs@ => vs@[i as int]));
        }
        write_struct_value(out, &vs[i], lwc);
        proof {
            assert(sv.take(i + 1).drop_last() =~= sv.take(i as int));
        }
        i = i + 1;
    }
    assert(sv.take(vs@.len() as int) =~= sv);
}

/// A map key or value.
#[verifier::spinoff_prover]
#[verifier::rlimit(100)]
pub fn write_property_value(out: &mut Vec<u8>, v: &PropertyValue, lwc: bool)
    requires
        property_value_writable(v@),
    ensures
        final(out)@ == old(out)@ + property_value_bytes(v@, lwc),
    decreases *v, 0nat,
{
    match v {
        PropertyValue::Int(x) => write_i32(out, *x),
        PropertyValue::Int8(x) => write_i8(out, *x),
        PropertyValue::Int16(x) => write_i16(out, *x),
        PropertyValue::Int64(x) => write_i64(out, *x),
        PropertyValue::UInt16(x) => write_u16(out, *x),
        PropertyValue::UInt32(x) => write_u32(out, *x),
        PropertyValue::Float(x) => write_u32(out, *x),
        PropertyValue::Double(x) => write_u64(out, *x),
        PropertyValue::Bool(x) => write_u8(out, if *x { 1 } else { 0 }),
        PropertyValue::Byte(Byte::Byte(b)) => write_u8(out, *b),
        PropertyValue::Byte(Byte::Label(l)) => write_string(out, l.as_str()),
        PropertyValue::Enum(x) => write_string(out, x.as_str()),
        PropertyValue::Name(x) => write_string(out, x.as_str()),
        PropertyValue::Str(x) => write_string(out, x.as_str()),
        PropertyValue::SoftObject(a, b) => {
            write_string(out, a.as_str());
            write_string(out, b.as_str());
        },
        PropertyValue::SoftObjectPath(a, b) => {
            write_string(out, a.as_str());
            write_string(out, b.as_str());
        },
        PropertyValue::Object(x) => write_string(out, x.as_str()),
        PropertyValue::Struct(x) => write_struct_value(out, x, lwc),
    }
    assert(out@ =~= old(out)@ + property_value_bytes(v@, lwc));
}

/// Map entries: each key, then its value.
#[verifier::spinoff_prover]
#[verifier::rlimit(100)]
pub fn write_map_entries(out: &mut Vec<u8>, es: &Vec<MapEntry>, lwc: bool)
    requires
        map_entries_writable(map_entries_view(*es)),
    ensures
        final(out)@ == old(out)@ + map_entries_bytes(map_entries_view(*es), lwc),
    decreases *es, 0nat,
{
    let ghost ev = map_entries_view(*es);
    let mut i: usize = 0;
    while i < es.len()
        invariant
            i <= es@.len(),
            ev == map_entries_view(*es),
            map_entries_writable(ev),
            out@ == old(out)@ + map_entries_bytes(ev.take(i as int), lwc),
        decreases es@.len() - i,
    {
        let ghost o = out@;
        assert(ev[i as int].key == es@[i as int].key@ && ev[i as int].value == es@[i as int].value@);
        proof {
            lemma_map_entries_writable(ev, i as int);
        }
        proof {
            assert(decreases_to!(*es => es@));
            assert(decreases_to!(es@ => es@[i as int]));
        }
        write_property_value(out, &es[i].key, lwc);
        write_property_value(out, &es[i].value, lwc);
        proof {
            assert(ev.take(i + 1).drop_last() =~= ev.take(i as int));
            assert(out@ =~= o + property_value_bytes(ev[i as int].key, lwc) + property_value_bytes(ev[i as int].value, lwc));
        }
        i = i + 1;
    }
    assert(ev.take(es@.len() as int) =~= ev);
}

/// The elements of a set.
#[verifier::spinoff_prover]
#[verifier::rlimit(100)]
pub fn write_value_set(out: &mut Vec<u8>, v: &ValueSet, lwc: bool)
    requires
        value_set_writable(v@),
    ensures
        final(out)@ == old(out)@ + value_set_bytes(v@, lwc),
    decreases *v, 0nat,
{
    match v {
        ValueSet::Base(b) => write_value_vec(out, b, lwc),
        ValueSet::Struct(vs) => {
            write_count(out, vs.len());
            write_struct_values(out, vs, lwc);
        },
    }
    assert(out@ =~= old(out)@ + value_set_bytes(v@, lwc));
}

/// The elements of an array; an array of structs has its header first.
#[verifier::spinoff_prover]
#[verifier::rlimit(100)]
pub fn write_value_array(out: &mut Vec<u8>, v: &ValueArray, lwc: bool)
    requires
        value_array_writable(v@),
    ensures
        final(out)@ == old(out)@ + value_array_bytes(v@, lwc),
    decreases *v, 0nat,
{
    match v {
        ValueArray::Base(b) => write_value_vec(out, b, lwc),
        ValueArray::Struct { _type, name, struct_type, id, value } => {
            write_count(out, value.len());
            write_string(out, _type.as_str());
            write_string(out, name.as_str());
            let mut buf: Vec<u8> = Vec::new();
            write_struct_values(&mut buf, value, lwc);
            write_u64(out, buf.len() as u64);
            write_string(out, struct_type.name());
            write_guid(out, id);
            write_u8(out, 0);
            push_bytes(out, buf.as_slice());
        },
    }
    assert(out@ =~= old(out)@ + value_array_bytes(v@, lwc));
}

/// The optional GUID, then a string; gives the string's length, which is
/// the size recorded for it.
fn write_tagged_string(out: &mut Vec<u8>, id: &Option<Guid>, s: &str) -> (size: u64)
    ensures
        final(out)@ == old(out)@ + tagged(opt_guid_view(*id), string_bytes(s@)).1,
        size == tagged(opt_guid_view(*id), string_bytes(s@)).0,
{
    write_optional_guid(out, id);
    let mut buf: Vec<u8> = Vec::new();
    write_string(&mut buf, s);
    push_bytes(out, buf.as_slice());
    assert(out@ =~= old(out)@ + tagged(opt_guid_view(*id), string_bytes(s@)).1);
    buf.len() as u64
}

/// The body of a property: everything after its type name, with the size
/// field left out; gives the size that is recorded for it.
#[verifier::spinoff_prover]
#[verifier::rlimit(100)]
pub fn write_property_body(out: &mut Vec<u8>, p: &Property, lwc: bool) -> (size: u64)
    requires
        property_writable(p@),
    ensures
        final(out)@ == old(out)@ + property_body(p@, lwc).1,
        size == property_body(p@, lwc).0,
    decreases *p, 2nat,
{
    let size: u64 = match p {
        Property::Int8 { id, value } => {
            write_optional_guid(out, id);
            write_i8(out, *value);
            1
        },
        Property::Int16 { id, value } => {
            write_optional_guid(out, id);
            write_i16(out, *value);
            2
        },
        Property::Int { id, value } => {
            write_optional_guid(out, id);
            write_i32(out, *value);
            4
        },
        Property::Int64 { id, value } => {
            write_optional_guid(out, id);
            write_i64(out, *value);
            8
        },
        Property::UInt8 { id, value } => {
            write_optional_guid(out, id);
            write_u8(out, *value);
            1
        },
        Property::UInt16 { id, value } => {
            write_optional_guid(out, id);
            write_u16(out, *value);
            2
        },
        Property::UInt32 { id, value } => {
            write_optional_guid(out, id);
            write_u32(out, *value);
            4
        },
        Property::UInt64 { id, value } => {
            write_optional_guid(out, id);
            write_u64(out, *value);
            8
        },
        Property::Float { id, value } => {
            write_optional_guid(out, id);
            write_u32(out, *value);
            4
        },
        Property::Double { id, value } => {
            write_optional_guid(out, id);
            write_u64(out, *value);
            8
        },
        Property::Bool { id, value } => {
            write_u8(out, if *value { 1 } else { 0 });
            write_optional_guid(out, id);
            0
        },
        Property::Byte { id, value, enum_type } => {
            write_string(out, enum_type.as_str());
            write_optional_guid(out, id);
            match value {
                Byte::Byte(b) => {
                    write_u8(out, *b);
                    1
                },
                Byte::Label(l) => {
                    write_string(out, l.as_str());
                    (l.as_str().len() as u64).wrapping_add(5)
                },
            }
        },
        Property::Enum { id, value, enum_type } => {
            write_string(out, enum_type.as_str());
            write_optional_guid(out, id);
            write_string(out, value.as_str());
            (value.as_str().len() as u64).wrapping_add(5)
        },
        Property::Str { id, value } => write_tagged_string(out, id, value.as_str()),
        Property::Name { id, value } => write_tagged_string(out, id, value.as_str()),
        Property::Object { id, value } => write_tagged_string(out, id, value.as_str()),
        _ => write_structured_body(out, p, lwc),
    };
    assert(out@ =~= old(out)@ + property_body(p@, lwc).1);
    size
}

/// The body of a property whose value is structured.
#[verifier::spinoff_prover]
#[verifier::rlimit(100)]
fn write_structured_body(out: &mut Vec<u8>, p: &Property, lwc: bool) -> (size: u64)
    requires
        property_writable(p@),
        !(p@ is Int8 || p@ is Int16 || p@ is Int || p@ is Int64 || p@ is UInt8 || p@ is UInt16
            || p@ is UInt32 || p@ is UInt64 || p@ is Float || p@ is Double || p@ is Bool
            || p@ is Byte || p@ is Enum || p@ is Str || p@ is Name || p@ is Object),
    ensures
        final(out)@ == old(out)@ + property_body(p@, lwc).1,
        size == property_body(p@, lwc).0,
    decreases *p, 1nat,
{
    let mut buf: Vec<u8> = Vec::new();
    match p {
        Property::FieldPath { id, value } => {
            write_optional_guid(out, id);
            write_field_path(&mut buf, value);
        },
        Property::SoftObject { id, value, value2 } => {
            write_optional_guid(out, id);
            write_string(&mut buf, value.as_str());
            write_string(&mut buf, value2.as_str());
        },
        Property::Text { id, value } => {
            write_optional_guid(out, id);
            write_text(&mut buf, value);
        },
        Property::Delegate { id, value } => {
            write_optional_guid(out, id);
            write_delegate(&mut buf, value);
        },
        Property::MulticastDelegate { id, value } => {
            write_optional_guid(out, id);
            write_multicast(&mut buf, &value.0);
        },
        Property::MulticastInlineDelegate { id, value } => {
            write_optional_guid(out, id);
            write_multicast(&mut buf, &value.0);
        },
        Property::MulticastSparseDelegate { id, value } => {
            write_optional_guid(out, id);
            write_multicast(&mut buf, &value.0);
        },
        _ => {
            return write_container_body(out, p, lwc);
        },
    }
    push_bytes(out, buf.as_slice());
    assert(out@ =~= old(out)@ + property_body(p@, lwc).1);
    buf.len() as u64
}

/// The body of a set, map, struct, array or raw data property.
#[verifier::spinoff_prover]
#[verifier::rlimit(100)]
fn write_container_body(out: &mut Vec<u8>, p: &Property, lwc: bool) -> (size: u64)
    requires
        property_writable(p@),
        p@ is SetOf || p@ is MapOf || p@ is RawData || p@ is Struct || p@ is Array,
    ensures
        final(out)@ == old(out)@ + property_body(p@, lwc).1,
        size == property_body(p@, lwc).0,
    decreases *p, 0nat,
{
    let mut buf: Vec<u8> = Vec::new();
    match p {
        Property::SetOf { id, set_type, value } => {
            write_string(out, set_type.get_name());
            write_optional_guid(out, id);
            write_u32(&mut buf, 0);
            write_value_set(&mut buf, value, lwc);
        },
        Property::MapOf { id, key_type, value_type, value } => {
            write_string(out, key_type.get_name());
            write_string(out, value_type.get_name());
            write_optional_guid(out, id);
            write_u32(&mut buf, 0);
            write_count(&mut buf, value.len());
            write_map_entries(&mut buf, value, lwc);
        },
        Property::RawData { id, properties, struct_id } => {
            let mut raw: Vec<u8> = Vec::new();
            write_properties(&mut raw, properties, lwc);
            write_u32(&mut raw, 0);
            write_guid(&mut raw, struct_id);
            write_string(out, PropertyType::ByteProperty.get_name());
            write_optional_guid(out, id);
            write_count(&mut buf, raw.len());
            push_bytes(&mut buf, raw.as_slice());
        },
        Property::Struct { id, value, struct_type, struct_id } => {
            write_string(out, struct_type.name());
            write_guid(out, struct_id);
            write_optional_guid(out, id);
            write_struct_value(&mut buf, value, lwc);
        },
        Property::Array { array_type, id, value } => {
            write_string(out, array_type.get_name());
            write_optional_guid(out, id);
            write_value_array(&mut buf, value, lwc);
        },
        _ => {},
    }
    push_bytes(out, buf.as_slice());
    assert(out@ =~= old(out)@ + property_body(p@, lwc).1);
    buf.len() as u64
}

impl Property {
    /// The type this property is stored under.
    pub fn get_type(&self) -> (r: PropertyType)
        ensures
            r == property_type_of(self@),
    {
        match self {
            Property::Int8 { .. } => PropertyType::Int8Property,
            Property::Int16 { .. } => PropertyType::Int16Property,
            Property::Int { .. } => PropertyType::IntProperty,
            Property::Int64 { .. } => PropertyType::Int64Property,
            Property::UInt8 { .. } => PropertyType::UInt8Property,
            Property::UInt16 { .. } => PropertyType::UInt16Property,
            Property::UInt32 { .. } => PropertyType::UInt32Property,
            Property::UInt64 { .. } => PropertyType::UInt64Property,
            Property::Float { .. } => PropertyType::FloatProperty,
            Property::Double { .. } => PropertyType::DoubleProperty,
            Property::Bool { .. } => PropertyType::BoolProperty,
            Property::Byte { .. } => PropertyType::ByteProperty,
            Property::Enum { .. } => PropertyType::EnumProperty,
            Property::Name { .. } => PropertyType::NameProperty,
            Property::Str { .. } => PropertyType::StrProperty,
            Property::FieldPath { .. } => PropertyType::FieldPathProperty,
            Property::SoftObject { .. } => PropertyType::SoftObjectProperty,
            Property::Object { .. } => PropertyType::ObjectProperty,
            Property::Text { .. } => PropertyType::TextProperty,
            Property::Delegate { .. } => PropertyType::DelegateProperty,
            Property::MulticastDelegate { .. } => PropertyType::MulticastDelegateProperty,
            Property::MulticastInlineDelegate { .. } => PropertyType::MulticastInlineDelegateProperty,
            Property::MulticastSparseDelegate { .. } => PropertyType::MulticastSparseDelegateProperty,
            Property::SetOf { .. } => PropertyType::SetProperty,
            Property::MapOf { .. } => PropertyType::MapProperty,
            Property::Struct { .. } => PropertyType::StructProperty,
            Property::RawData { .. } => PropertyType::ArrayProperty,
            Property::Array { .. } => PropertyType::ArrayProperty,
        }
    }
}

/// One property: its name, its type name, the size of its value, then the
/// rest of its body.
#[verifier::spinoff_prover]
#[verifier::rlimit(100)]
pub fn write_property(out: &mut Vec<u8>, name: &str, p: &Property, lwc: bool)
    requires
        property_writable(p@),
    ensures
        final(out)@ == old(out)@ + property_bytes(name@, p@, lwc),
    decreases *p, 3nat,
{
    write_string(out, name);
    write_string(out, p.get_type().get_name());
    let mut buf: Vec<u8> = Vec::new();
    let size = write_property_body(&mut buf, p, lwc);
    write_u64(out, size);
    push_bytes(out, buf.as_slice());
    assert(out@ =~= old(out)@ + property_bytes(name@, p@, lwc));
}

/// The properties one after the other, then "None".
#[verifier::spinoff_prover]
#[verifier::rlimit(100)]
pub fn write_properties(out: &mut Vec<u8>, ps: &Properties, lwc: bool)
    requires
        properties_writable(properties_view(*ps)),
    ensures
        final(out)@ == old(out)@ + properties_bytes(properties_view(*ps), lwc),
    decreases *ps, 4nat,
{
    let ghost pv = properties_view(*ps);
    let mut i: usize = 0;
    while i < ps.len()
        invariant
            i <= ps@.len(),
            pv == properties_view(*ps),
            properties_writable(pv),
            out@ == old(out)@ + property_list_bytes(pv.take(i as int), lwc),
        decreases ps@.len() - i,
    {
        assert(pv[i as int] == (ps@[i as int].0@, ps@[i as int].1@));
        proof {
            lemma_properties_writable(pv, i as int);
        }
        proof {
            assert(decreases_to!(*ps => ps@));
            assert(decreases_to!(ps@ => ps@[i as int]));
        }
        write_property(out, ps[i].0.as_str(), &ps[i].1, lwc);
        proof {
            assert(pv.take(i + 1).drop_last() =~= pv.take(i as int));
        }
        i = i + 1;
    }
    assert(pv.take(ps@.len() as int) =~= pv);
    write_string(out, "None");
    assert(out@ =~= old(out)@ + properties_bytes(pv, lwc));
}

} // verus!
