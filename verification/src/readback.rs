//! Reading back nested values: struct values, map entries, sets, arrays and
//! whole property lists.  These proofs call one another as the values nest,
//! each on a part of the value it was given.
use vstd::prelude::*;
use vstd::wrapping::u64_specs::wrapping_sub;

use crate::bytes::{
    at, guid_bytes, guid_from_stored, i32_bytes, lemma_at_split, lemma_read_guid, lemma_read_i16,
    lemma_read_i32, lemma_read_i64, lemma_read_i8, lemma_read_opt_guid, lemma_read_u16,
    lemma_read_u32, lemma_read_u64, lemma_read_u8, opt_guid_bytes, u16_bytes, u32_bytes, u64_bytes,
    u8_bytes,
};
use crate::decode::{
    Ctx, child_path, custom_format_from, le_u16, le_u32, sp_fixed, sp_header, sp_map_entries,
    sp_properties, sp_property_body, sp_property_value, sp_root, sp_struct_value, sp_struct_values,
    sp_value_array, sp_value_set, type_or,
};
use crate::encode::{
    count_bytes, custom_format_bytes, fixed_bytes, header_bytes, map_entries_bytes,
    map_entries_writable, properties_bytes, properties_writable, property_body, property_bytes,
    property_type_of, property_value_bytes, property_value_writable, property_writable, root_bytes,
    struct_value_bytes, struct_value_writable, struct_values_bytes, struct_values_writable,
    value_array_bytes, value_set_bytes,
};
use crate::model::{
    PackageVersion, SpecByte, SpecHeader, SpecMapEntry, SpecParseError, SpecProperty,
    SpecPropertyValue, SpecRoot, SpecStructValue, SpecValueArray, SpecValueSet,
};
use crate::roundtrip::{
    count_fits, kind_matches, lemma_base_size, lemma_fixed2, lemma_insert_new,
    lemma_map_entries_front, lemma_none_name, lemma_properties_front, lemma_read_color,
    lemma_read_count, lemma_read_fixed, lemma_read_int_point, lemma_read_linear_color,
    lemma_read_property_type, lemma_read_quat, lemma_read_rotator, lemma_read_simple_property,
    lemma_read_string_list, lemma_read_string_pair, lemma_read_struct_type, lemma_read_value_vec,
    lemma_read_vector, lemma_read_vector2d, lemma_struct_values_front, lemma_vec_bytes,
    map_entries_roundtrip, properties_roundtrip, property_roundtrips, property_value_roundtrips,
    struct_value_roundtrips, struct_values_roundtrip, value_array_roundtrips, value_set_roundtrips,
    vec_elems, vec_len, vec_size_ok,
};
use crate::strings::{lemma_read_string, string_bytes, string_roundtrips};
use crate::types::{PropertyType, SpecStructType, property_type_name, struct_type_name};

verus! {

/// A struct value of the struct type the reader expects reads back.
#[verifier::spinoff_prover]
#[verifier::rlimit(100)]
pub proof fn lemma_read_struct_value(
    d: Seq<u8>,
    p: int,
    v: SpecStructValue,
    st: SpecStructType,
    ctx: Ctx,
    path: Seq<char>,
)
    requires
        kind_matches(st, v),
        struct_value_roundtrips(v, ctx, path),
        at(d, p, struct_value_bytes(v, ctx.lwc)),
    ensures
        sp_struct_value(d, p, ctx, path, st) == Ok::<(SpecStructValue, nat), SpecParseError>(
            (v, struct_value_bytes(v, ctx.lwc).len()),
        ),
    decreases v, 0nat,
{
    reveal_with_fuel(sp_struct_value, 1);
    match v {
        SpecStructValue::Guid(g) => lemma_read_guid(d, p, g),
        SpecStructValue::DateTime(x) => lemma_read_u64(d, p, x),
        SpecStructValue::Timespan(x) => lemma_read_i64(d, p, x),
        SpecStructValue::Vector2D(x) => lemma_read_vector2d(d, p, x),
        SpecStructValue::Vector(x) => lemma_read_vector(d, p, x, ctx.lwc),
        SpecStructValue::Box(_) => {},
        SpecStructValue::IntPoint(x) => lemma_read_int_point(d, p, x),
        SpecStructValue::Quat(x) => lemma_read_quat(d, p, x, ctx.lwc),
        SpecStructValue::LinearColor(x) => lemma_read_linear_color(d, p, x),
        SpecStructValue::Color(x) => lemma_read_color(d, p, x),
        SpecStructValue::Rotator(x) => lemma_read_rotator(d, p, x, ctx.lwc),
        SpecStructValue::SoftObjectPath(a, b) => lemma_read_string_pair(d, p, a, b),
        SpecStructValue::GameplayTagContainer(t) => lemma_read_string_list(d, p, t),
        SpecStructValue::Struct(ps) => {
            let empty = Seq::<(Seq<char>, SpecProperty)>::empty();
            lemma_read_properties(d, p, ps, ctx, path, empty);
            assert(empty + ps =~= ps);
        },
    }
}

/// Struct values one after the other read back, as many as there are.
#[verifier::spinoff_prover]
#[verifier::rlimit(100)]
pub proof fn lemma_read_struct_values(
    d: Seq<u8>,
    p: int,
    s: Seq<SpecStructValue>,
    st: SpecStructType,
    ctx: Ctx,
    path: Seq<char>,
)
    requires
        struct_values_roundtrip(s, st, ctx, path),
        at(d, p, struct_values_bytes(s, ctx.lwc)),
    ensures
        sp_struct_values(d, p, ctx, path, st, s.len()) == Ok::<(Seq<SpecStructValue>, nat), SpecParseError>(
            (s, struct_values_bytes(s, ctx.lwc).len()),
        ),
    decreases s, 0nat,
{
    reveal_with_fuel(sp_struct_values, 1);
    if s.len() > 0 {
        lemma_struct_values_front(s, st, ctx, path);
        let first = struct_value_bytes(s[0], ctx.lwc);
        lemma_at_split(d, p, first, struct_values_bytes(s.drop_first(), ctx.lwc));
        lemma_read_struct_value(d, p, s[0], st, ctx, path);
        assert(decreases_to!(s => s.drop_first()));
        lemma_read_struct_values(d, p + first.len(), s.drop_first(), st, ctx, path);
        assert(seq![s[0]] + s.drop_first() =~= s);
    } else {
        assert(s =~= Seq::<SpecStructValue>::empty());
    }
}

/// A map key or value of the declared type reads back.
#[verifier::spinoff_prover]
#[verifier::rlimit(100)]
pub proof fn lemma_read_property_value(
    d: Seq<u8>,
    p: int,
    v: SpecPropertyValue,
    t: PropertyType,
    st: SpecStructType,
    ctx: Ctx,
    path: Seq<char>,
)
    requires
        property_value_roundtrips(v, t, st, ctx, path),
        at(d, p, property_value_bytes(v, ctx.lwc)),
    ensures
        sp_property_value(d, p, ctx, path, t, st) == Ok::<(SpecPropertyValue, nat), SpecParseError>(
            (v, property_value_bytes(v, ctx.lwc).len()),
        ),
    decreases v, 0nat,
{
    reveal_with_fuel(sp_property_value, 1);
    match v {
        SpecPropertyValue::Int(x) => lemma_read_i32(d, p, x),
        SpecPropertyValue::Int8(x) => lemma_read_i8(d, p, x),
        SpecPropertyValue::Int16(x) => lemma_read_i16(d, p, x),
        SpecPropertyValue::Int64(x) => lemma_read_i64(d, p, x),
        SpecPropertyValue::UInt16(x) => lemma_read_u16(d, p, x),
        SpecPropertyValue::UInt32(x) => lemma_read_u32(d, p, x),
        SpecPropertyValue::Float(x) => lemma_read_u32(d, p, x),
        SpecPropertyValue::Double(x) => lemma_read_u64(d, p, x),
        SpecPropertyValue::Bool(x) => lemma_read_u8(d, p, if x { 1 } else { 0 }),
        SpecPropertyValue::Byte(SpecByte::Label(l)) => lemma_read_string(d, p, l),
        SpecPropertyValue::Enum(x) => lemma_read_string(d, p, x),
        SpecPropertyValue::Name(x) => lemma_read_string(d, p, x),
        SpecPropertyValue::Str(x) => lemma_read_string(d, p, x),
        SpecPropertyValue::SoftObject(a, b) => lemma_read_string_pair(d, p, a, b),
        SpecPropertyValue::Object(x) => lemma_read_string(d, p, x),
        SpecPropertyValue::Struct(sv) => lemma_read_struct_value(d, p, sv, st, ctx, path),
        _ => {},
    }
}

/// Map entries, each a key and a value, read back, as many as there are.
#[verifier::spinoff_prover]
#[verifier::rlimit(100)]
pub proof fn lemma_read_map_entries(
    d: Seq<u8>,
    p: int,
    s: Seq<SpecMapEntry>,
    kt: PropertyType,
    kst: SpecStructType,
    vt: PropertyType,
    vst: SpecStructType,
    ctx: Ctx,
    path: Seq<char>,
)
    requires
        map_entries_roundtrip(s, kt, kst, vt, vst, ctx, path),
        at(d, p, map_entries_bytes(s, ctx.lwc)),
    ensures
        sp_map_entries(d, p, ctx, path, kt, kst, vt, vst, s.len()) == Ok::<
            (Seq<SpecMapEntry>, nat),
            SpecParseError,
        >((s, map_entries_bytes(s, ctx.lwc).len())),
    decreases s, 0nat,
{
    reveal_with_fuel(sp_map_entries, 1);
    if s.len() > 0 {
        lemma_map_entries_front(s, kt, kst, vt, vst, ctx, path);
        let kb = property_value_bytes(s[0].key, ctx.lwc);
        let vb = property_value_bytes(s[0].value, ctx.lwc);
        lemma_at_split(d, p, kb + vb, map_entries_bytes(s.drop_first(), ctx.lwc));
        lemma_at_split(d, p, kb, vb);
        lemma_read_property_value(d, p, s[0].key, kt, kst, ctx, path);
        lemma_read_property_value(d, p + kb.len(), s[0].value, vt, vst, ctx, path);
        assert(decreases_to!(s => s.drop_first()));
        lemma_read_map_entries(d, p + kb.len() + vb.len(), s.drop_first(), kt, kst, vt, vst, ctx, path);
        assert(seq![SpecMapEntry { key: s[0].key, value: s[0].value }] + s.drop_first() =~= s);
    } else {
        assert(s =~= Seq::<SpecMapEntry>::empty());
    }
}

/// The elements of a set read back; for plain values, `size` is what the
/// reader takes for their byte length.
#[verifier::spinoff_prover]
#[verifier::rlimit(100)]
pub proof fn lemma_read_value_set(
    d: Seq<u8>,
    p: int,
    v: SpecValueSet,
    t: PropertyType,
    st: SpecStructType,
    ctx: Ctx,
    path: Seq<char>,
    size: u64,
)
    requires
        value_set_roundtrips(v, t, st, ctx, path),
        v matches SpecValueSet::Base(b) ==> vec_size_ok(b, size),
        at(d, p, value_set_bytes(v, ctx.lwc)),
    ensures
        sp_value_set(d, p, ctx, path, t, st, size) == Ok::<(SpecValueSet, nat), SpecParseError>(
            (v, value_set_bytes(v, ctx.lwc).len()),
        ),
    decreases v, 0nat,
{
    reveal_with_fuel(sp_value_set, 1);
    match v {
        SpecValueSet::Base(b) => {
            lemma_vec_bytes(b, ctx.lwc);
            lemma_at_split(d, p, count_bytes(vec_len(b)), vec_elems(b, ctx.lwc));
            lemma_read_count(d, p, vec_len(b));
            lemma_read_value_vec(d, p + 4, b, ctx.lwc, size);
        },
        SpecValueSet::Struct(s) => {
            lemma_at_split(d, p, count_bytes(s.len()), struct_values_bytes(s, ctx.lwc));
            lemma_read_count(d, p, s.len());
            lemma_read_struct_values(d, p + 4, s, st, ctx, path);
        },
    }
}

/// The elements of an array read back, with the header that an array of
/// structs carries; for plain values, `size` is what the reader takes for
/// their byte length.
#[verifier::spinoff_prover]
#[verifier::rlimit(100)]
pub proof fn lemma_read_value_array(
    d: Seq<u8>,
    p: int,
    v: SpecValueArray,
    t: PropertyType,
    ctx: Ctx,
    path: Seq<char>,
    size: u64,
)
    requires
        value_array_roundtrips(v, t, ctx, path),
        v matches SpecValueArray::Base(b) ==> vec_size_ok(b, size),
        at(d, p, value_array_bytes(v, ctx.lwc)),
    ensures
        sp_value_array(d, p, ctx, path, t, size) == Ok::<(SpecValueArray, nat), SpecParseError>(
            (v, value_array_bytes(v, ctx.lwc).len()),
        ),
    decreases v, 0nat,
{
    reveal_with_fuel(sp_value_array, 1);
    match v {
        SpecValueArray::Base(b) => {
            lemma_vec_bytes(b, ctx.lwc);
            lemma_at_split(d, p, count_bytes(vec_len(b)), vec_elems(b, ctx.lwc));
            lemma_read_count(d, p, vec_len(b));
            lemma_read_value_vec(d, p + 4, b, ctx.lwc, size);
        },
        SpecValueArray::Struct { element_type, name, struct_type, id, value } => {
            let buf = struct_values_bytes(value, ctx.lwc);
            let s1 = count_bytes(value.len());
            let s2 = s1 + string_bytes(element_type);
            let s3 = s2 + string_bytes(name);
            let s4 = s3 + u64_bytes(buf.len() as u64);
            let s5 = s4 + string_bytes(struct_type_name(struct_type));
            let s6 = s5 + guid_bytes(id);
            let s7 = s6 + u8_bytes(0);
            assert(value_array_bytes(v, ctx.lwc) == s7 + buf);
            lemma_at_split(d, p, s7, buf);
            lemma_at_split(d, p, s6, u8_bytes(0));
            lemma_at_split(d, p, s5, guid_bytes(id));
            lemma_at_split(d, p, s4, string_bytes(struct_type_name(struct_type)));
            lemma_at_split(d, p, s3, u64_bytes(buf.len() as u64));
            assert(s3 =~= s1 + (string_bytes(element_type) + string_bytes(name)));
            lemma_at_split(d, p, s1, string_bytes(element_type) + string_bytes(name));
            lemma_read_count(d, p, value.len());
            lemma_read_string_pair(d, p + s1.len(), element_type, name);
            lemma_read_u64(d, p + s3.len(), buf.len() as u64);
            lemma_read_struct_type(d, p + s4.len(), struct_type);
            lemma_read_guid(d, p + s5.len(), id);
            lemma_read_u8(d, p + s6.len(), 0);
            lemma_read_struct_values(d, p + s7.len(), value, struct_type, ctx, path);
        },
    }
}

/// A set property reads back.
#[verifier::spinoff_prover]
#[verifier::rlimit(100)]
pub proof fn lemma_read_set_property(d: Seq<u8>, p: int, prop: SpecProperty, ctx: Ctx, path: Seq<char>)
    requires
        prop is SetOf,
        property_roundtrips(prop, ctx, path),
        at(d, p, property_body(prop, ctx.lwc).1),
    ensures
        sp_property_body(d, p, ctx, path, property_type_of(prop), property_body(prop, ctx.lwc).0) == Ok::<
            (SpecProperty, nat),
            SpecParseError,
        >((prop, property_body(prop, ctx.lwc).1.len())),
    decreases prop, 0nat,
{
    reveal_with_fuel(sp_property_body, 1);
    vstd::bytes::lemma_auto_spec_u32_to_from_le_bytes();
    match prop {
        SpecProperty::SetOf { id, set_type, value } => {
            let lwc = ctx.lwc;
            let tn = string_bytes(property_type_name(set_type));
            let g = opt_guid_bytes(id);
            let vs = value_set_bytes(value, lwc);
            let buf = u32_bytes(0) + vs;
            assert(property_body(prop, lwc).1 == (tn + g) + buf);
            lemma_at_split(d, p, tn + g, buf);
            lemma_at_split(d, p, tn, g);
            lemma_at_split(d, p + (tn + g).len(), u32_bytes(0), vs);
            lemma_read_property_type(d, p, set_type);
            lemma_read_opt_guid(d, p + tn.len(), id);
            lemma_read_u32(d, p + (tn + g).len(), 0);
            let st = type_or(ctx, path, SpecStructType::Guid);
            let size = property_body(prop, lwc).0;
            match value {
                SpecValueSet::Base(b) => {
                    lemma_vec_bytes(b, lwc);
                    lemma_base_size(b, set_type, lwc);
                    assert(wrapping_sub(size, 8) == vec_elems(b, lwc).len() as u64);
                },
                _ => {},
            }
            lemma_read_value_set(d, p + (tn + g).len() + 4, value, set_type, st, ctx, path, wrapping_sub(size, 8));
        },
        _ => {},
    }
}

/// A map property reads back.
#[verifier::spinoff_prover]
#[verifier::rlimit(100)]
pub proof fn lemma_read_map_property(d: Seq<u8>, p: int, prop: SpecProperty, ctx: Ctx, path: Seq<char>)
    requires
        prop is MapOf,
        property_roundtrips(prop, ctx, path),
        at(d, p, property_body(prop, ctx.lwc).1),
    ensures
        sp_property_body(d, p, ctx, path, property_type_of(prop), property_body(prop, ctx.lwc).0) == Ok::<
            (SpecProperty, nat),
            SpecParseError,
        >((prop, property_body(prop, ctx.lwc).1.len())),
    decreases prop, 0nat,
{
    reveal_with_fuel(sp_property_body, 1);
    vstd::bytes::lemma_auto_spec_u32_to_from_le_bytes();
    match prop {
        SpecProperty::MapOf { id, key_type, value_type, value } => {
            let lwc = ctx.lwc;
            let kn = string_bytes(property_type_name(key_type));
            let vn = string_bytes(property_type_name(value_type));
            let g = opt_guid_bytes(id);
            let c = count_bytes(value.len());
            let es = map_entries_bytes(value, lwc);
            let h = kn + vn + g;
            assert(property_body(prop, lwc).1 == ((h + u32_bytes(0)) + c) + es);
            lemma_at_split(d, p, (h + u32_bytes(0)) + c, es);
            lemma_at_split(d, p, h + u32_bytes(0), c);
            lemma_at_split(d, p, h, u32_bytes(0));
            lemma_at_split(d, p, kn + vn, g);
            lemma_at_split(d, p, kn, vn);
            lemma_read_property_type(d, p, key_type);
            lemma_read_property_type(d, p + kn.len(), value_type);
            lemma_read_opt_guid(d, p + (kn + vn).len(), id);
            lemma_read_u32(d, p + h.len(), 0);
            lemma_read_count(d, p + h.len() + 4, value.len());
            let kst = type_or(ctx, child_path(path, "Key"@), SpecStructType::Guid);
            let vst = type_or(ctx, child_path(path, "Value"@), SpecStructType::Struct(None));
            lemma_read_map_entries(d, p + h.len() + 8, value, key_type, kst, value_type, vst, ctx, path);
        },
        _ => {},
    }
}

/// A struct property reads back.
#[verifier::spinoff_prover]
#[verifier::rlimit(100)]
pub proof fn lemma_read_struct_property(d: Seq<u8>, p: int, prop: SpecProperty, ctx: Ctx, path: Seq<char>)
    requires
        prop is Struct,
        property_roundtrips(prop, ctx, path),
        at(d, p, property_body(prop, ctx.lwc).1),
    ensures
        sp_property_body(d, p, ctx, path, property_type_of(prop), property_body(prop, ctx.lwc).0) == Ok::<
            (SpecProperty, nat),
            SpecParseError,
        >((prop, property_body(prop, ctx.lwc).1.len())),
    decreases prop, 0nat,
{
    reveal_with_fuel(sp_property_body, 1);
    match prop {
        SpecProperty::Struct { id, value, struct_type, struct_id } => {
            let lwc = ctx.lwc;
            let tn = string_bytes(struct_type_name(struct_type));
            let sg = guid_bytes(struct_id);
            let g = opt_guid_bytes(id);
            let buf = struct_value_bytes(value, lwc);
            assert(property_body(prop, lwc).1 == ((tn + sg) + g) + buf);
            lemma_at_split(d, p, (tn + sg) + g, buf);
            lemma_at_split(d, p, tn + sg, g);
            lemma_at_split(d, p, tn, sg);
            lemma_read_struct_type(d, p, struct_type);
            lemma_read_guid(d, p + tn.len(), struct_id);
            lemma_read_opt_guid(d, p + (tn + sg).len(), id);
            lemma_read_struct_value(d, p + ((tn + sg) + g).len(), value, struct_type, ctx, path);
        },
        _ => {},
    }
}

/// An array property reads back.
#[verifier::spinoff_prover]
#[verifier::rlimit(100)]
pub proof fn lemma_read_array_property(d: Seq<u8>, p: int, prop: SpecProperty, ctx: Ctx, path: Seq<char>)
    requires
        prop is Array,
        property_roundtrips(prop, ctx, path),
        at(d, p, property_body(prop, ctx.lwc).1),
    ensures
        sp_property_body(d, p, ctx, path, property_type_of(prop), property_body(prop, ctx.lwc).0) == Ok::<
            (SpecProperty, nat),
            SpecParseError,
        >((prop, property_body(prop, ctx.lwc).1.len())),
    decreases prop, 0nat,
{
    reveal_with_fuel(sp_property_body, 1);
    vstd::bytes::lemma_auto_spec_u32_to_from_le_bytes();
    match prop {
        SpecProperty::Array { array_type, id, value } => {
            let lwc = ctx.lwc;
            let tn = string_bytes(property_type_name(array_type));
            let g = opt_guid_bytes(id);
            let buf = value_array_bytes(value, lwc);
            assert(property_body(prop, lwc).1 == (tn + g) + buf);
            lemma_at_split(d, p, tn + g, buf);
            lemma_at_split(d, p, tn, g);
            lemma_read_property_type(d, p, array_type);
            lemma_read_opt_guid(d, p + tn.len(), id);
            let size = property_body(prop, lwc).0;
            match value {
                SpecValueArray::Base(b) => {
                    lemma_vec_bytes(b, lwc);
                    lemma_base_size(b, array_type, lwc);
                    assert(wrapping_sub(size, 4) == vec_elems(b, lwc).len() as u64);
                },
                _ => {},
            }
            lemma_read_value_array(d, p + (tn + g).len(), value, array_type, ctx, path, wrapping_sub(size, 4));
        },
        _ => {},
    }
}

/// A property's body, after its name, type name and size, reads back.
#[verifier::spinoff_prover]
#[verifier::rlimit(100)]
pub proof fn lemma_read_property_body(d: Seq<u8>, p: int, prop: SpecProperty, ctx: Ctx, path: Seq<char>)
    requires
        property_roundtrips(prop, ctx, path),
        at(d, p, property_body(prop, ctx.lwc).1),
    ensures
        sp_property_body(d, p, ctx, path, property_type_of(prop), property_body(prop, ctx.lwc).0) == Ok::<
            (SpecProperty, nat),
            SpecParseError,
        >((prop, property_body(prop, ctx.lwc).1.len())),
    decreases prop, 1nat,
{
    match prop {
        SpecProperty::SetOf { .. } => lemma_read_set_property(d, p, prop, ctx, path),
        SpecProperty::MapOf { .. } => lemma_read_map_property(d, p, prop, ctx, path),
        SpecProperty::Struct { .. } => lemma_read_struct_property(d, p, prop, ctx, path),
        SpecProperty::Array { .. } => lemma_read_array_property(d, p, prop, ctx, path),
        SpecProperty::RawData { .. } => {},
        _ => {
            reveal_with_fuel(sp_property_body, 1);
            lemma_read_simple_property(d, p, prop, ctx, path);
        },
    }
}

/// A property list followed by "None" reads back, each property added to
/// `acc`, whose names are not among those of the list.
#[verifier::spinoff_prover]
#[verifier::rlimit(100)]
pub proof fn lemma_read_properties(
    d: Seq<u8>,
    p: int,
    ps: Seq<(Seq<char>, SpecProperty)>,
    ctx: Ctx,
    path: Seq<char>,
    acc: Seq<(Seq<char>, SpecProperty)>,
)
    requires
        properties_roundtrip(ps, ctx, path),
        forall|i: int, j: int|
            0 <= i < acc.len() && 0 <= j < ps.len() ==> #[trigger] acc[i].0 != #[trigger] ps[j].0,
        at(d, p, properties_bytes(ps, ctx.lwc)),
    ensures
        sp_properties(d, p, ctx, path, acc) == Ok::<(Seq<(Seq<char>, SpecProperty)>, nat), SpecParseError>(
            (acc + ps, properties_bytes(ps, ctx.lwc).len()),
        ),
    decreases ps, 0nat,
{
    reveal_with_fuel(sp_properties, 1);
    lemma_none_name();
    if ps.len() == 0 {
        assert(properties_bytes(ps, ctx.lwc) =~= string_bytes("None"@));
        lemma_read_string(d, p, "None"@);
        assert(acc + ps =~= acc);
    } else {
        lemma_properties_front(ps, ctx, path);
        let name = ps[0].0;
        let prop = ps[0].1;
        let size = property_body(prop, ctx.lwc).0;
        let body = property_body(prop, ctx.lwc).1;
        let tn = string_bytes(property_type_name(property_type_of(prop)));
        let rest = properties_bytes(ps.drop_first(), ctx.lwc);
        let h1 = string_bytes(name);
        let h2 = h1 + tn;
        let h3 = h2 + u64_bytes(size);
        let h4 = h3 + body;
        assert(property_bytes(name, prop, ctx.lwc) == h4);
        assert(properties_bytes(ps, ctx.lwc) =~= h4 + rest);
        lemma_at_split(d, p, h4, rest);
        lemma_at_split(d, p, h3, body);
        lemma_at_split(d, p, h2, u64_bytes(size));
        lemma_at_split(d, p, h1, tn);
        lemma_read_string(d, p, name);
        lemma_read_property_type(d, p + h1.len(), property_type_of(prop));
        lemma_read_u64(d, p + h2.len(), size);
        assert(decreases_to!(ps => ps[0].1));
        lemma_read_property_body(d, p + h3.len(), prop, ctx, child_path(path, name));
        assert forall|i: int| 0 <= i < acc.len() implies #[trigger] acc[i].0 != name by {
            assert(acc[i].0 != ps[0].0);
        }
        lemma_insert_new(acc, name, prop);
        let acc2 = acc.push((name, prop));
        let tail = ps.drop_first();
        assert forall|i: int, j: int| 0 <= i < acc2.len() && 0 <= j < tail.len() implies #[trigger] acc2[i].0
            != #[trigger] tail[j].0 by {
            assert(tail[j] == ps[j + 1]);
            if i < acc.len() {
                assert(acc[i].0 != ps[j + 1].0);
            } else {
                assert(ps[0].0 != ps[j + 1].0);
            }
        }
        assert(decreases_to!(ps => ps.drop_first()));
        lemma_read_properties(d, p + h4.len(), tail, ctx, path, acc2);
        assert(acc2 + tail =~= acc + ps);
    }
}

// ---------------------------------------------------------------------------
// The save

/// A header the reader reads back: its package version has the form that
/// its save game version calls for, its engine version string reads back,
/// the count of custom formats fits in 32 bits and each has a 16-byte GUID.
pub open spec fn header_roundtrips(h: SpecHeader) -> bool {
    &&& (h.package_version is Old <==> h.save_game_version < 3)
    &&& string_roundtrips(h.engine_version)
    &&& count_fits(h.custom_format.len())
    &&& forall|i: int| 0 <= i < h.custom_format.len() ==> (#[trigger] h.custom_format[i]).0.len() == 16
}

/// Two 32-bit values written one after the other read back as a pair.
#[verifier::spinoff_prover]
proof fn lemma_read_u32_pair(d: Seq<u8>, p: int, a: u32, b: u32)
    requires
        at(d, p, u32_bytes(a) + u32_bytes(b)),
    ensures
        sp_fixed(d, p, 2, 4, |x: Seq<u8>| le_u32(x)) == Ok::<(Seq<u32>, nat), SpecParseError>(
            (seq![a, b], 8),
        ),
{
    vstd::bytes::lemma_auto_spec_u32_to_from_le_bytes();
    let f = |x: u32| u32_bytes(x);
    lemma_fixed2(a, b, f);
    lemma_read_fixed(d, p, seq![a, b], f, |x: Seq<u8>| le_u32(x), 4);
}

#[verifier::spinoff_prover]
#[verifier::rlimit(100)]
pub proof fn lemma_read_header(d: Seq<u8>, p: int, h: SpecHeader)
    requires
        header_roundtrips(h),
        at(d, p, header_bytes(h)),
    ensures
        sp_header(d, p) == Ok::<(SpecHeader, nat), SpecParseError>((h, header_bytes(h).len())),
{
    vstd::bytes::lemma_auto_spec_u32_to_from_le_bytes();
    vstd::bytes::lemma_auto_spec_u16_to_from_le_bytes();
    let pvb = match h.package_version {
        PackageVersion::Old(a) => u32_bytes(a),
        PackageVersion::New(a, b) => u32_bytes(a) + u32_bytes(b),
    };
    let f = |c: (Seq<u8>, i32)| custom_format_bytes(c);
    let g = |b: Seq<u8>| custom_format_from(b);
    let cfs = fixed_bytes(h.custom_format, f);
    let a1 = u32_bytes(h.magic) + u32_bytes(h.save_game_version);
    let a2 = a1 + pvb;
    let vers = u16_bytes(h.engine_version_major) + u16_bytes(h.engine_version_minor) + u16_bytes(
        h.engine_version_patch,
    );
    let a5 = a2 + vers;
    let a6 = a5 + u32_bytes(h.engine_version_build);
    let a7 = a6 + string_bytes(h.engine_version);
    let cfh = u32_bytes(h.custom_format_version) + count_bytes(h.custom_format.len());
    let a9 = a7 + cfh;
    assert(header_bytes(h) =~= a9 + cfs);
    lemma_at_split(d, p, a9, cfs);
    lemma_at_split(d, p, a7, cfh);
    lemma_at_split(d, p, a6, string_bytes(h.engine_version));
    lemma_at_split(d, p, a5, u32_bytes(h.engine_version_build));
    lemma_at_split(d, p, a2, vers);
    lemma_at_split(d, p, a1, pvb);
    lemma_read_u32_pair(d, p, h.magic, h.save_game_version);
    match h.package_version {
        PackageVersion::Old(a) => lemma_read_u32(d, p + 8, a),
        PackageVersion::New(a, b) => lemma_read_u32_pair(d, p + 8, a, b),
    }
    let q = p + a2.len();
    lemma_at_split(d, q, u16_bytes(h.engine_version_major) + u16_bytes(h.engine_version_minor), u16_bytes(
        h.engine_version_patch,
    ));
    lemma_at_split(d, q, u16_bytes(h.engine_version_major), u16_bytes(h.engine_version_minor));
    let r = Seq::new(3, |i: int| le_u16(d.subrange(q + 2 * i, q + 2 * i + 2)));
    assert(r =~= seq![h.engine_version_major, h.engine_version_minor, h.engine_version_patch]);
    lemma_read_u32(d, p + a5.len(), h.engine_version_build);
    lemma_read_string(d, p + a6.len(), h.engine_version);
    lemma_read_u32_pair(d, p + a7.len(), h.custom_format_version, h.custom_format.len() as u32);
    assert forall|c: (Seq<u8>, i32)| #[trigger] f(c).len() == 20 by {
        assert(i32_bytes(c.1).len() == 4);
    }
    assert forall|i: int| 0 <= i < h.custom_format.len() implies #[trigger] g(f(h.custom_format[i]))
        == h.custom_format[i] by {
        let c = h.custom_format[i];
        let b = f(c);
        assert(b.subrange(0, 16) =~= guid_bytes(c.0));
        assert(guid_from_stored(guid_bytes(c.0)) =~= c.0);
        assert(b.subrange(16, 20) =~= i32_bytes(c.1));
        lemma_read_i32(b, 16, c.1);
    }
    lemma_read_fixed(d, p + a9.len(), h.custom_format, f, g, 20);
}

/// The root reads back: its save game type, then its properties.
#[verifier::spinoff_prover]
#[verifier::rlimit(100)]
pub proof fn lemma_read_root(d: Seq<u8>, p: int, r: SpecRoot, ctx: Ctx)
    requires
        string_roundtrips(r.save_game_type),
        properties_roundtrip(r.properties, ctx, Seq::empty()),
        at(d, p, root_bytes(r, ctx.lwc)),
    ensures
        sp_root(d, p, ctx) == Ok::<(SpecRoot, nat), SpecParseError>((r, root_bytes(r, ctx.lwc).len())),
{
    let empty = Seq::<(Seq<char>, SpecProperty)>::empty();
    lemma_at_split(d, p, string_bytes(r.save_game_type), properties_bytes(r.properties, ctx.lwc));
    lemma_read_string(d, p, r.save_game_type);
    lemma_read_properties(d, p + string_bytes(r.save_game_type).len(), r.properties, ctx, Seq::empty(), empty);
    assert(empty + r.properties =~= r.properties);
}

// ---------------------------------------------------------------------------
// What reads back, the writer can store

#[verifier::spinoff_prover]
pub proof fn lemma_struct_value_writable(v: SpecStructValue, ctx: Ctx, path: Seq<char>)
    requires
        struct_value_roundtrips(v, ctx, path),
    ensures
        struct_value_writable(v),
    decreases v, 0nat,
{
    if let SpecStructValue::Struct(ps) = v {
        lemma_properties_writable_rt(ps, ctx, path);
    }
}

#[verifier::spinoff_prover]
pub proof fn lemma_struct_values_writable_rt(s: Seq<SpecStructValue>, st: SpecStructType, ctx: Ctx, path: Seq<char>)
    requires
        struct_values_roundtrip(s, st, ctx, path),
    ensures
        struct_values_writable(s),
    decreases s, 0nat,
{
    if s.len() > 0 {
        assert(decreases_to!(s => s.drop_last()));
        lemma_struct_values_writable_rt(s.drop_last(), st, ctx, path);
        lemma_struct_value_writable(s.last(), ctx, path);
    }
}

#[verifier::spinoff_prover]
pub proof fn lemma_map_entries_writable_rt(
    s: Seq<SpecMapEntry>,
    kt: PropertyType,
    kst: SpecStructType,
    vt: PropertyType,
    vst: SpecStructType,
    ctx: Ctx,
    path: Seq<char>,
)
    requires
        map_entries_roundtrip(s, kt, kst, vt, vst, ctx, path),
    ensures
        map_entries_writable(s),
    decreases s, 0nat,
{
    if s.len() > 0 {
        assert(decreases_to!(s => s.drop_last()));
        lemma_map_entries_writable_rt(s.drop_last(), kt, kst, vt, vst, ctx, path);
        assert(property_value_roundtrips(s.last().key, kt, kst, ctx, path));
        assert(property_value_roundtrips(s.last().value, vt, vst, ctx, path));
        if let SpecPropertyValue::Struct(sv) = s.last().key {
            lemma_struct_value_writable(sv, ctx, path);
        }
        if let SpecPropertyValue::Struct(sv) = s.last().value {
            lemma_struct_value_writable(sv, ctx, path);
        }
        assert(property_value_writable(s.last().key));
        assert(property_value_writable(s.last().value));
    }
}

#[verifier::spinoff_prover]
pub proof fn lemma_property_writable_rt(prop: SpecProperty, ctx: Ctx, path: Seq<char>)
    requires
        property_roundtrips(prop, ctx, path),
    ensures
        property_writable(prop),
    decreases prop, 0nat,
{
    match prop {
        SpecProperty::SetOf { set_type, value, .. } => {
            if let SpecValueSet::Struct(s) = value {
                lemma_struct_values_writable_rt(s, type_or(ctx, path, SpecStructType::Guid), ctx, path);
            }
        },
        SpecProperty::MapOf { key_type, value_type, value, .. } => {
            lemma_map_entries_writable_rt(
                value,
                key_type,
                type_or(ctx, child_path(path, "Key"@), SpecStructType::Guid),
                value_type,
                type_or(ctx, child_path(path, "Value"@), SpecStructType::Struct(None)),
                ctx,
                path,
            );
        },
        SpecProperty::Struct { value, .. } => lemma_struct_value_writable(value, ctx, path),
        SpecProperty::Array { value, .. } => {
            if let SpecValueArray::Struct { struct_type, value: s, .. } = value {
                lemma_struct_values_writable_rt(s, struct_type, ctx, path);
            }
        },
        _ => {},
    }
}

#[verifier::spinoff_prover]
pub proof fn lemma_properties_writable_rt(ps: Seq<(Seq<char>, SpecProperty)>, ctx: Ctx, path: Seq<char>)
    requires
        properties_roundtrip(ps, ctx, path),
    ensures
        properties_writable(ps),
    decreases ps, 0nat,
{
    if ps.len() > 0 {
        assert(decreases_to!(ps => ps.drop_last()));
        lemma_properties_writable_rt(ps.drop_last(), ctx, path);
        lemma_property_writable_rt(ps.last().1, ctx, child_path(path, ps.last().0));
    }
}

} // verus!
