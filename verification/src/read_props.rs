//! Reading properties: the vectorized values, structs, maps, sets and
//! arrays that a save's properties hold, and the property lists themselves.
use vstd::prelude::*;

use crate::bytes::{
    agrees, agrees_by, read_guid, read_i16, read_i32, read_i64, read_i8, read_optional_guid,
    read_u16, read_u32, read_u64, read_u8,
};
use crate::decode::{
    Ctx, after, child_path, insert_property, lemma_insert_existing, rem, sp_map_entries,
    sp_properties, sp_property_body, sp_property_value, sp_simple_property, sp_string_list,
    sp_strings, sp_struct_value, sp_struct_values, sp_tagged_value, sp_value_array, sp_value_set,
    sp_value_vec, type_or, unique_names,
};

use crate::model::{
    Byte, ByteArray, Error, GameplayTag, GameplayTagContainer, Guid, MapEntry, MulticastDelegate,
    MulticastInlineDelegate, MulticastSparseDelegate, ParseError, Properties, Property,
    PropertyValue, SpecMapEntry, SpecProperty, SpecStructValue, StructValue, ValueArray, ValueSet,
    ValueVec, map_entries_view, opt_guid_view, properties_view, struct_values_view,
};

use crate::strings::read_string;
use crate::read::{
    prepend, read_bools, read_box, read_color, read_delegate, read_field_path, read_i16s, read_i32s,
    read_i64s, read_int_point, read_linear_color, read_multicast, read_property_type, read_quat,
    read_rotator, read_string_pair, read_string_pairs, read_strings, read_struct_type, read_text,
    read_texts, read_u16s, read_u32s, read_u64s, read_u8s, read_vector, read_vector2d,
};
use crate::types::{PropertyType, SpecStructType, StructType, Types, str_eq};
use vstd::string::StringExecFns;

verus! {

broadcast use vstd::std_specs::vec::group_vec_axioms;

// ---------------------------------------------------------------------------
// Vectorized values

/// `count` values of type `t` without tags.
#[verifier::spinoff_prover]
#[verifier::rlimit(100)]
pub fn read_value_vec(data: &[u8], pos: usize, t: PropertyType, size: u64, count: u32) -> (r: Result<(ValueVec, usize), ParseError>)
    requires
        pos <= data@.len(),
    ensures
        agrees(r, data@, pos as int, sp_value_vec(data@, pos as int, t, size, count as nat)),
{
    proof {
        reveal_with_fuel(sp_value_vec, 1);
    }
    match t {
        PropertyType::IntProperty => {
            let (v, e) = read_i32s(data, pos, count)?;
            Ok((ValueVec::Int(v), e))
        },
        PropertyType::Int16Property => {
            let (v, e) = read_i16s(data, pos, count)?;
            Ok((ValueVec::Int16(v), e))
        },
        PropertyType::Int64Property => {
            let (v, e) = read_i64s(data, pos, count)?;
            Ok((ValueVec::Int64(v), e))
        },
        PropertyType::UInt16Property => {
            let (v, e) = read_u16s(data, pos, count)?;
            Ok((ValueVec::UInt16(v), e))
        },
        PropertyType::UInt32Property => {
            let (v, e) = read_u32s(data, pos, count)?;
            Ok((ValueVec::UInt32(v), e))
        },
        PropertyType::FloatProperty => {
            let (v, e) = read_u32s(data, pos, count)?;
            Ok((ValueVec::Float(v), e))
        },
        PropertyType::DoubleProperty => {
            let (v, e) = read_u64s(data, pos, count)?;
            Ok((ValueVec::Double(v), e))
        },
        PropertyType::BoolProperty => {
            let (v, e) = read_bools(data, pos, count)?;
            Ok((ValueVec::Bool(v), e))
        },
        _ => read_string_value_vec(data, pos, t, size, count),
    }
}

/// The element types stored as strings (or texts), and bytes.
#[verifier::spinoff_prover]
#[verifier::rlimit(100)]
fn read_string_value_vec(data: &[u8], pos: usize, t: PropertyType, size: u64, count: u32) -> (r: Result<(ValueVec, usize), ParseError>)
    requires
        pos <= data@.len(),
        t != PropertyType::IntProperty,
        t != PropertyType::Int16Property,
        t != PropertyType::Int64Property,
        t != PropertyType::UInt16Property,
        t != PropertyType::UInt32Property,
        t != PropertyType::FloatProperty,
        t != PropertyType::DoubleProperty,
        t != PropertyType::BoolProperty,
    ensures
        agrees(r, data@, pos as int, sp_value_vec(data@, pos as int, t, size, count as nat)),
{
    proof {
        reveal_with_fuel(sp_value_vec, 1);
    }
    match t {
        PropertyType::ByteProperty => if size == count as u64 {
            let (v, e) = read_u8s(data, pos, count)?;
            Ok((ValueVec::Byte(ByteArray::Byte(v)), e))
        } else {
            let (v, e) = read_strings(data, pos, count)?;
            Ok((ValueVec::Byte(ByteArray::Label(v)), e))
        },
        PropertyType::EnumProperty => {
            let (v, e) = read_strings(data, pos, count)?;
            Ok((ValueVec::Enum(v), e))
        },
        PropertyType::StrProperty => {
            let (v, e) = read_strings(data, pos, count)?;
            Ok((ValueVec::Str(v), e))
        },
        PropertyType::TextProperty => {
            let (v, e) = read_texts(data, pos, count)?;
            Ok((ValueVec::Text(v), e))
        },
        PropertyType::SoftObjectProperty => {
            let (v, e) = read_string_pairs(data, pos, count)?;
            Ok((ValueVec::SoftObject(v), e))
        },
        PropertyType::NameProperty => {
            let (v, e) = read_strings(data, pos, count)?;
            Ok((ValueVec::Name(v), e))
        },
        PropertyType::ObjectProperty => {
            let (v, e) = read_strings(data, pos, count)?;
            Ok((ValueVec::Object(v), e))
        },
        _ => Err(ParseError { offset: pos, error: Error::UnknownVecType(t) }),
    }
}

// ---------------------------------------------------------------------------
// Properties

/// What a reader carries along: whether the save uses large world
/// coordinates, and the registered struct types.
pub struct ReadContext<'a> {
    pub lwc: bool,
    pub types: &'a Types,
}

pub open spec fn rc(c: &ReadContext) -> Ctx {
    Ctx { lwc: c.lwc, types: c.types@ }
}

/// The path of the property `name` inside the one at `path`.
#[verifier::spinoff_prover]
#[verifier::rlimit(100)]
fn child_path_of(path: &str, name: &str) -> (r: String)
    ensures
        r@ == child_path(path@, name@),
{
    let s = <String as StringExecFns>::from_str(path);
    let s = s.concat(".");
    s.concat(name)
}

/// The struct type registered at `path`, or `default`.
#[verifier::spinoff_prover]
#[verifier::rlimit(100)]
fn struct_type_or(ctx: &ReadContext, path: &str, default: StructType) -> (r: StructType)
    ensures
        r@ == type_or(rc(ctx), path@, default@),
{
    match ctx.types.get(path) {
        Some(t) => t.duplicate(),
        None => default,
    }
}

/// Sets the property `name` to `prop`, in place if it is already there.
#[verifier::spinoff_prover]
#[verifier::rlimit(100)]
fn insert_named(props: &mut Properties, name: String, prop: Property)
    requires
        unique_names(properties_view(*old(props))),
    ensures
        properties_view(*final(props)) == insert_property(properties_view(*old(props)), name@, prop@),
        unique_names(properties_view(*final(props))),
{
    let ghost old_view = properties_view(*props);
    let mut i: usize = 0;
    while i < props.len()
        invariant
            i <= props@.len(),
            properties_view(*props) == old_view,
            old_view == properties_view(*old(props)),
            unique_names(old_view),
            forall|j: int| 0 <= j < i ==> #[trigger] old_view[j].0 != name@,
        decreases props@.len() - i,
    {
        if props[i].0 == name {
            let ghost pv = prop@;
            assert(old_view[i as int].0 == name@);
            proof {
                lemma_insert_existing(old_view, name@, pv, i as int);
            }
            props[i] = (name, prop);
            assert(properties_view(*props) =~= old_view.update(i as int, (old_view[i as int].0, pv)));
            return;
        }
        i = i + 1;
    }
    let ghost pv = prop@;
    let ghost nv = name@;
    props.push((name, prop));
    assert(properties_view(*props) =~= old_view.push((nv, pv)));
}

/// Properties until one named "None".
#[verifier::spinoff_prover]
#[verifier::rlimit(100)]
pub fn read_properties(data: &[u8], pos: usize, ctx: &ReadContext, path: &str) -> (r: Result<(Properties, usize), ParseError>)
    requires
        pos <= data@.len(),
    ensures
        agrees_by(
            r,
            data@,
            pos as int,
            sp_properties(data@, pos as int, rc(ctx), path@, Seq::empty()),
            |v: Properties| properties_view(v),
        ),
    decreases rem(data@, pos as int), 1nat, 0nat,
{
    let mut props: Properties = Vec::new();
    let mut q = pos;
    assert(properties_view(props) =~= Seq::<(Seq<char>, SpecProperty)>::empty());
    loop
        invariant
            pos <= q <= data@.len(),
            unique_names(properties_view(props)),
            after(sp_properties(data@, q as int, rc(ctx), path@, properties_view(props)), (q - pos) as nat)
                == sp_properties(data@, pos as int, rc(ctx), path@, Seq::empty()),
        decreases rem(data@, q as int),
    {
        proof {
            reveal_with_fuel(sp_properties, 1);
        }
        let (name, q1) = read_string(data, q)?;
        if str_eq(name.as_str(), "None") {
            return Ok((props, q1));
        }
        let cp = child_path_of(path, name.as_str());
        let (t, q2) = read_property_type(data, q1)?;
        let (size, q3) = read_u64(data, q2)?;
        let (prop, q4) = read_property_body(data, q3, ctx, cp.as_str(), t, size)?;
        insert_named(&mut props, name, prop);
        q = q4;
    }
}

/// A struct value of type `st`.
#[verifier::spinoff_prover]
#[verifier::rlimit(100)]
pub fn read_struct_value(data: &[u8], pos: usize, ctx: &ReadContext, path: &str, st: &StructType) -> (r: Result<(StructValue, usize), ParseError>)
    requires
        pos <= data@.len(),
    ensures
        agrees(r, data@, pos as int, sp_struct_value(data@, pos as int, rc(ctx), path@, st@)),
    decreases rem(data@, pos as int), 2nat, 0nat,
{
    proof {
        reveal_with_fuel(sp_struct_value, 1);
    }
    match st {
        StructType::Struct(_) => {
            let (v, e) = read_properties(data, pos, ctx, path)?;
            Ok((StructValue::Struct(v), e))
        },
        _ => read_builtin_struct_value(data, pos, ctx, path, st),
    }
}

/// A struct value of a built-in struct type.
#[verifier::spinoff_prover]
#[verifier::rlimit(100)]
fn read_builtin_struct_value(data: &[u8], pos: usize, ctx: &ReadContext, path: &str, st: &StructType) -> (r: Result<(StructValue, usize), ParseError>)
    requires
        pos <= data@.len(),
        !(st@ is Struct),
    ensures
        agrees(r, data@, pos as int, sp_struct_value(data@, pos as int, rc(ctx), path@, st@)),
{
    proof {
        reveal_with_fuel(sp_struct_value, 1);
    }
    match st {
        StructType::Guid => {
            let (v, e) = read_guid(data, pos)?;
            Ok((StructValue::Guid(v), e))
        },
        StructType::DateTime => {
            let (v, e) = read_u64(data, pos)?;
            Ok((StructValue::DateTime(v), e))
        },
        StructType::Timespan => {
            let (v, e) = read_i64(data, pos)?;
            Ok((StructValue::Timespan(v), e))
        },
        StructType::Vector2D => {
            let (v, e) = read_vector2d(data, pos)?;
            Ok((StructValue::Vector2D(v), e))
        },
        StructType::Vector => {
            let (v, e) = read_vector(data, pos, ctx.lwc)?;
            Ok((StructValue::Vector(v), e))
        },
        StructType::Box => {
            let (v, e) = read_box(data, pos, ctx.lwc)?;
            Ok((StructValue::Box(v), e))
        },
        StructType::IntPoint => {
            let (v, e) = read_int_point(data, pos)?;
            Ok((StructValue::IntPoint(v), e))
        },
        StructType::Quat => {
            let (v, e) = read_quat(data, pos, ctx.lwc)?;
            Ok((StructValue::Quat(v), e))
        },
        StructType::LinearColor => {
            let (v, e) = read_linear_color(data, pos)?;
            Ok((StructValue::LinearColor(v), e))
        },
        StructType::Color => {
            let (v, e) = read_color(data, pos)?;
            Ok((StructValue::Color(v), e))
        },
        StructType::Rotator => {
            let (v, e) = read_rotator(data, pos, ctx.lwc)?;
            Ok((StructValue::Rotator(v), e))
        },
        StructType::SoftObjectPath => {
            let ((a, b), e) = read_string_pair(data, pos)?;
            Ok((StructValue::SoftObjectPath(a, b), e))
        },
        _ => {
            let (c, e) = read_gameplay_tags(data, pos)?;
            Ok((StructValue::GameplayTagContainer(c), e))
        },
    }
}

/// A 32-bit count, then that many tag names.
#[verifier::spinoff_prover]
#[verifier::rlimit(100)]
fn read_gameplay_tags(data: &[u8], pos: usize) -> (r: Result<(GameplayTagContainer, usize), ParseError>)
    requires
        pos <= data@.len(),
    ensures
        agrees(r, data@, pos as int, sp_string_list(data@, pos as int)),
{
    let (count, start) = read_u32(data, pos)?;
    let mut v: Vec<GameplayTag> = Vec::new();
    let mut i: u32 = 0;
    let mut q = start;
    while i < count
        invariant
            i <= count,
            start <= q <= data@.len(),
            pos <= start,
            sp_string_list(data@, pos as int) == after(sp_strings(data@, start as int, count as nat), (start - pos) as nat),
            prepend(v@.map_values(|t: GameplayTag| t@), q - start, sp_strings(data@, q as int, (count - i) as nat))
                == sp_strings(data@, start as int, count as nat),
        decreases count - i,
    {
        let ghost old_v = v@.map_values(|t: GameplayTag| t@);
        let (name, q2) = read_string(data, q)?;
        let ghost nv = name@;
        v.push(GameplayTag { name });
        assert(v@.map_values(|t: GameplayTag| t@) =~= old_v.push(nv));
        assert(old_v + (seq![nv] + sp_strings(data@, q2 as int, (count - i - 1) as nat)->Ok_0.0)
            =~= v@.map_values(|t: GameplayTag| t@) + sp_strings(data@, q2 as int, (count - i - 1) as nat)->Ok_0.0);
        q = q2;
        i = i + 1;
    }
    assert(v@.map_values(|t: GameplayTag| t@) + Seq::<Seq<char>>::empty() =~= v@.map_values(|t: GameplayTag| t@));
    Ok((GameplayTagContainer { gameplay_tags: v }, q))
}

/// `count` struct values of type `st`.
#[verifier::spinoff_prover]
#[verifier::rlimit(100)]
pub fn read_struct_values(
    data: &[u8],
    pos: usize,
    ctx: &ReadContext,
    path: &str,
    st: &StructType,
    count: u32,
) -> (r: Result<(Vec<StructValue>, usize), ParseError>)
    requires
        pos <= data@.len(),
    ensures
        agrees_by(
            r,
            data@,
            pos as int,
            sp_struct_values(data@, pos as int, rc(ctx), path@, st@, count as nat),
            |v: Vec<StructValue>| struct_values_view(v),
        ),
    decreases rem(data@, pos as int), 4nat, count,
{
    let mut v: Vec<StructValue> = Vec::new();
    let mut i: u32 = 0;
    let mut q = pos;
    assert(struct_values_view(v) =~= Seq::<SpecStructValue>::empty());
    while i < count
        invariant
            i <= count,
            pos <= q <= data@.len(),
            prepend(struct_values_view(v), q - pos, sp_struct_values(data@, q as int, rc(ctx), path@, st@, (count - i) as nat))
                == sp_struct_values(data@, pos as int, rc(ctx), path@, st@, count as nat),
        decreases count - i,
    {
        proof {
            reveal_with_fuel(sp_struct_values, 1);
        }
        let ghost old_v = struct_values_view(v);
        let (x, q2) = read_struct_value(data, q, ctx, path, st)?;
        let ghost xv = x@;
        v.push(x);
        assert(struct_values_view(v) =~= old_v.push(xv));
        assert(old_v + (seq![xv] + sp_struct_values(data@, q2 as int, rc(ctx), path@, st@, (count - i - 1) as nat)->Ok_0.0)
            =~= struct_values_view(v) + sp_struct_values(data@, q2 as int, rc(ctx), path@, st@, (count - i - 1) as nat)->Ok_0.0);
        q = q2;
        i = i + 1;
    }
    proof {
        reveal_with_fuel(sp_struct_values, 1);
    }
    assert(struct_values_view(v) + Seq::<SpecStructValue>::empty() =~= struct_values_view(v));
    Ok((v, q))
}

/// A map key or value of type `t`.
#[verifier::spinoff_prover]
#[verifier::rlimit(100)]
pub fn read_property_value(
    data: &[u8],
    pos: usize,
    ctx: &ReadContext,
    path: &str,
    t: PropertyType,
    st: &StructType,
) -> (r: Result<(PropertyValue, usize), ParseError>)
    requires
        pos <= data@.len(),
    ensures
        agrees(r, data@, pos as int, sp_property_value(data@, pos as int, rc(ctx), path@, t, st@)),
    decreases rem(data@, pos as int), 3nat, 0nat,
{
    proof {
        reveal_with_fuel(sp_property_value, 1);
    }
    if t == PropertyType::StructProperty {
        let (v, e) = read_struct_value(data, pos, ctx, path, st)?;
        Ok((PropertyValue::Struct(v), e))
    } else {
        read_plain_property_value(data, pos, t)
    }
}

/// A map key or value of a type other than a struct.
#[verifier::spinoff_prover]
#[verifier::rlimit(100)]
fn read_plain_property_value(data: &[u8], pos: usize, t: PropertyType) -> (r: Result<(PropertyValue, usize), ParseError>)
    requires
        pos <= data@.len(),
        t != PropertyType::StructProperty,
    ensures
        forall|c: Ctx, path: Seq<char>, st: SpecStructType|
            agrees(r, data@, pos as int, #[trigger] sp_property_value(data@, pos as int, c, path, t, st)),
{
    proof {
        reveal_with_fuel(sp_property_value, 1);
    }
    match t {
        PropertyType::IntProperty => {
            let (v, e) = read_i32(data, pos)?;
            Ok((PropertyValue::Int(v), e))
        },
        PropertyType::Int8Property => {
            let (v, e) = read_i8(data, pos)?;
            Ok((PropertyValue::Int8(v), e))
        },
        PropertyType::Int16Property => {
            let (v, e) = read_i16(data, pos)?;
            Ok((PropertyValue::Int16(v), e))
        },
        PropertyType::Int64Property => {
            let (v, e) = read_i64(data, pos)?;
            Ok((PropertyValue::Int64(v), e))
        },
        PropertyType::UInt16Property => {
            let (v, e) = read_u16(data, pos)?;
            Ok((PropertyValue::UInt16(v), e))
        },
        PropertyType::UInt32Property => {
            let (v, e) = read_u32(data, pos)?;
            Ok((PropertyValue::UInt32(v), e))
        },
        PropertyType::FloatProperty => {
            let (v, e) = read_u32(data, pos)?;
            Ok((PropertyValue::Float(v), e))
        },
        PropertyType::DoubleProperty => {
            let (v, e) = read_u64(data, pos)?;
            Ok((PropertyValue::Double(v), e))
        },
        PropertyType::BoolProperty => {
            let (v, e) = read_u8(data, pos)?;
            Ok((PropertyValue::Bool(v > 0), e))
        },
        PropertyType::NameProperty => {
            let (v, e) = read_string(data, pos)?;
            Ok((PropertyValue::Name(v), e))
        },
        PropertyType::StrProperty => {
            let (v, e) = read_string(data, pos)?;
            Ok((PropertyValue::Str(v), e))
        },
        PropertyType::SoftObjectProperty => {
            let ((a, b), e) = read_string_pair(data, pos)?;
            Ok((PropertyValue::SoftObject(a, b), e))
        },
        PropertyType::ObjectProperty => {
            let (v, e) = read_string(data, pos)?;
            Ok((PropertyValue::Object(v), e))
        },
        PropertyType::ByteProperty => {
            let (v, e) = read_string(data, pos)?;
            Ok((PropertyValue::Byte(Byte::Label(v)), e))
        },
        PropertyType::EnumProperty => {
            let (v, e) = read_string(data, pos)?;
            Ok((PropertyValue::Enum(v), e))
        },
        _ => Err(ParseError { offset: pos, error: Error::UnsupportedValueType(t) }),
    }
}

/// `count` map entries.
#[verifier::spinoff_prover]
#[verifier::rlimit(100)]
pub fn read_map_entries(
    data: &[u8],
    pos: usize,
    ctx: &ReadContext,
    path: &str,
    kt: PropertyType,
    kst: &StructType,
    vt: PropertyType,
    vst: &StructType,
    count: u32,
) -> (r: Result<(Vec<MapEntry>, usize), ParseError>)
    requires
        pos <= data@.len(),
    ensures
        agrees_by(
            r,
            data@,
            pos as int,
            sp_map_entries(data@, pos as int, rc(ctx), path@, kt, kst@, vt, vst@, count as nat),
            |v: Vec<MapEntry>| map_entries_view(v),
        ),
    decreases rem(data@, pos as int), 4nat, count,
{
    let mut v: Vec<MapEntry> = Vec::new();
    let mut i: u32 = 0;
    let mut q = pos;
    assert(map_entries_view(v) =~= Seq::<SpecMapEntry>::empty());
    while i < count
        invariant
            i <= count,
            pos <= q <= data@.len(),
            prepend(map_entries_view(v), q - pos, sp_map_entries(data@, q as int, rc(ctx), path@, kt, kst@, vt, vst@, (count - i) as nat))
                == sp_map_entries(data@, pos as int, rc(ctx), path@, kt, kst@, vt, vst@, count as nat),
        decreases count - i,
    {
        proof {
            reveal_with_fuel(sp_map_entries, 1);
        }
        let ghost old_v = map_entries_view(v);
        let (key, q1) = read_property_value(data, q, ctx, path, kt, kst)?;
        let (value, q2) = read_property_value(data, q1, ctx, path, vt, vst)?;
        let entry = MapEntry { key, value };
        let ghost ev = SpecMapEntry { key: entry.key@, value: entry.value@ };
        v.push(entry);
        assert(map_entries_view(v) =~= old_v.push(ev));
        assert(old_v + (seq![ev] + sp_map_entries(data@, q2 as int, rc(ctx), path@, kt, kst@, vt, vst@, (count - i - 1) as nat)->Ok_0.0)
            =~= map_entries_view(v) + sp_map_entries(data@, q2 as int, rc(ctx), path@, kt, kst@, vt, vst@, (count - i - 1) as nat)->Ok_0.0);
        q = q2;
        i = i + 1;
    }
    proof {
        reveal_with_fuel(sp_map_entries, 1);
    }
    assert(map_entries_view(v) + Seq::<SpecMapEntry>::empty() =~= map_entries_view(v));
    Ok((v, q))
}

/// The elements of a set.
#[verifier::spinoff_prover]
#[verifier::rlimit(100)]
pub fn read_value_set(
    data: &[u8],
    pos: usize,
    ctx: &ReadContext,
    path: &str,
    t: PropertyType,
    st: &StructType,
    size: u64,
) -> (r: Result<(ValueSet, usize), ParseError>)
    requires
        pos <= data@.len(),
    ensures
        agrees(r, data@, pos as int, sp_value_set(data@, pos as int, rc(ctx), path@, t, st@, size)),
    decreases rem(data@, pos as int), 5nat, 0nat,
{
    proof {
        reveal_with_fuel(sp_value_set, 1);
    }
    let (count, q) = read_u32(data, pos)?;
    if t == PropertyType::StructProperty {
        let (v, e) = read_struct_values(data, q, ctx, path, st, count)?;
        Ok((ValueSet::Struct(v), e))
    } else {
        let (v, e) = read_value_vec(data, q, t, size, count)?;
        Ok((ValueSet::Base(v), e))
    }
}

/// The elements of an array.
#[verifier::spinoff_prover]
#[verifier::rlimit(100)]
pub fn read_value_array(
    data: &[u8],
    pos: usize,
    ctx: &ReadContext,
    path: &str,
    t: PropertyType,
    size: u64,
) -> (r: Result<(ValueArray, usize), ParseError>)
    requires
        pos <= data@.len(),
    ensures
        agrees(r, data@, pos as int, sp_value_array(data@, pos as int, rc(ctx), path@, t, size)),
    decreases rem(data@, pos as int), 5nat, 0nat,
{
    proof {
        reveal_with_fuel(sp_value_array, 1);
    }
    let (count, q) = read_u32(data, pos)?;
    if t == PropertyType::StructProperty {
        let ((_type, name), q1) = read_string_pair(data, q)?;
        let (_, q2) = read_u64(data, q1)?;
        let (struct_type, q3) = read_struct_type(data, q2)?;
        let (id, q4) = read_guid(data, q3)?;
        let (_, q5) = read_u8(data, q4)?;
        let (value, e) = read_struct_values(data, q5, ctx, path, &struct_type, count)?;
        Ok((ValueArray::Struct { _type, name, struct_type, id, value }, e))
    } else {
        let (v, e) = read_value_vec(data, q, t, size, count)?;
        Ok((ValueArray::Base(v), e))
    }
}

/// A property of type `t` with stored size `size`, at `path`.
#[verifier::spinoff_prover]
#[verifier::rlimit(100)]
pub fn read_property_body(
    data: &[u8],
    pos: usize,
    ctx: &ReadContext,
    path: &str,
    t: PropertyType,
    size: u64,
) -> (r: Result<(Property, usize), ParseError>)
    requires
        pos <= data@.len(),
    ensures
        agrees(r, data@, pos as int, sp_property_body(data@, pos as int, rc(ctx), path@, t, size)),
    decreases rem(data@, pos as int), 7nat, 0nat,
{
    proof {
        reveal_with_fuel(sp_property_body, 1);
    }
    match t {
        PropertyType::SetProperty => read_set_property(data, pos, ctx, path, size),
        PropertyType::MapProperty => read_map_property(data, pos, ctx, path, size),
        PropertyType::StructProperty => read_struct_property(data, pos, ctx, path, size),
        PropertyType::ArrayProperty => read_array_property(data, pos, ctx, path, size),
        _ => read_simple_property(data, pos, t),
    }
}

#[verifier::spinoff_prover]
#[verifier::rlimit(100)]
fn read_set_property(data: &[u8], pos: usize, ctx: &ReadContext, path: &str, size: u64) -> (r: Result<(Property, usize), ParseError>)
    requires
        pos <= data@.len(),
    ensures
        agrees(r, data@, pos as int, sp_property_body(data@, pos as int, rc(ctx), path@, PropertyType::SetProperty, size)),
    decreases rem(data@, pos as int), 6nat, 0nat,
{
    proof {
        reveal_with_fuel(sp_property_body, 1);
    }
    let (set_type, q1) = read_property_type(data, pos)?;
    let (id, q2) = read_optional_guid(data, q1)?;
    let (_, q3) = read_u32(data, q2)?;
    let st = struct_type_or(ctx, path, StructType::Guid);
    let (value, e) = read_value_set(data, q3, ctx, path, set_type, &st, size.wrapping_sub(8))?;
    Ok((Property::SetOf { id, set_type, value }, e))
}

#[verifier::spinoff_prover]
#[verifier::rlimit(100)]
fn read_map_property(data: &[u8], pos: usize, ctx: &ReadContext, path: &str, size: u64) -> (r: Result<(Property, usize), ParseError>)
    requires
        pos <= data@.len(),
    ensures
        agrees(r, data@, pos as int, sp_property_body(data@, pos as int, rc(ctx), path@, PropertyType::MapProperty, size)),
    decreases rem(data@, pos as int), 6nat, 0nat,
{
    proof {
        reveal_with_fuel(sp_property_body, 1);
    }
    let (key_type, q1) = read_property_type(data, pos)?;
    let (value_type, q2) = read_property_type(data, q1)?;
    let (id, q3) = read_optional_guid(data, q2)?;
    let (_, q4) = read_u32(data, q3)?;
    let (count, q5) = read_u32(data, q4)?;
    let kp = child_path_of(path, "Key");
    let vp = child_path_of(path, "Value");
    let kst = struct_type_or(ctx, kp.as_str(), StructType::Guid);
    let vst = struct_type_or(ctx, vp.as_str(), StructType::Struct(None));
    let (value, e) = read_map_entries(data, q5, ctx, path, key_type, &kst, value_type, &vst, count)?;
    Ok((Property::MapOf { id, key_type, value_type, value }, e))
}

#[verifier::spinoff_prover]
#[verifier::rlimit(100)]
fn read_struct_property(data: &[u8], pos: usize, ctx: &ReadContext, path: &str, size: u64) -> (r: Result<(Property, usize), ParseError>)
    requires
        pos <= data@.len(),
    ensures
        agrees(r, data@, pos as int, sp_property_body(data@, pos as int, rc(ctx), path@, PropertyType::StructProperty, size)),
    decreases rem(data@, pos as int), 6nat, 0nat,
{
    proof {
        reveal_with_fuel(sp_property_body, 1);
    }
    let (struct_type, q1) = read_struct_type(data, pos)?;
    let (struct_id, q2) = read_guid(data, q1)?;
    let (id, q3) = read_optional_guid(data, q2)?;
    let (value, e) = read_struct_value(data, q3, ctx, path, &struct_type)?;
    Ok((Property::Struct { id, value, struct_type, struct_id }, e))
}

#[verifier::spinoff_prover]
#[verifier::rlimit(100)]
fn read_array_property(data: &[u8], pos: usize, ctx: &ReadContext, path: &str, size: u64) -> (r: Result<(Property, usize), ParseError>)
    requires
        pos <= data@.len(),
    ensures
        agrees(r, data@, pos as int, sp_property_body(data@, pos as int, rc(ctx), path@, PropertyType::ArrayProperty, size)),
    decreases rem(data@, pos as int), 6nat, 0nat,
{
    proof {
        reveal_with_fuel(sp_property_body, 1);
    }
    let (array_type, q1) = read_property_type(data, pos)?;
    let (id, q2) = read_optional_guid(data, q1)?;
    let (value, e) = read_value_array(data, q2, ctx, path, array_type, size.wrapping_sub(4))?;
    Ok((Property::Array { array_type, id, value }, e))
}

/// A property that holds no further properties.
#[verifier::spinoff_prover]
#[verifier::rlimit(100)]
fn read_simple_property(data: &[u8], pos: usize, t: PropertyType) -> (r: Result<(Property, usize), ParseError>)
    requires
        pos <= data@.len(),
    ensures
        agrees(r, data@, pos as int, sp_simple_property(data@, pos as int, t)),
{
    proof {
        reveal_with_fuel(sp_simple_property, 1);
    }
    match t {
        PropertyType::BoolProperty => {
            let (v, q) = read_u8(data, pos)?;
            let (id, e) = read_optional_guid(data, q)?;
            Ok((Property::Bool { id, value: v > 0 }, e))
        },
        PropertyType::ByteProperty => {
            let (enum_type, q1) = read_string(data, pos)?;
            let (id, q2) = read_optional_guid(data, q1)?;
            if str_eq(enum_type.as_str(), "None") {
                let (b, e) = read_u8(data, q2)?;
                Ok((Property::Byte { id, value: Byte::Byte(b), enum_type }, e))
            } else {
                let (l, e) = read_string(data, q2)?;
                Ok((Property::Byte { id, value: Byte::Label(l), enum_type }, e))
            }
        },
        PropertyType::EnumProperty => {
            let (enum_type, q1) = read_string(data, pos)?;
            let (id, q2) = read_optional_guid(data, q1)?;
            let (value, e) = read_string(data, q2)?;
            Ok((Property::Enum { id, value, enum_type }, e))
        },
        _ => {
            let (id, q) = read_optional_guid(data, pos)?;
            read_tagged_value(data, q, t, id)
        },
    }
}

/// The value of a property whose optional GUID `id` came first.
#[verifier::spinoff_prover]
#[verifier::rlimit(100)]
fn read_tagged_value(data: &[u8], pos: usize, t: PropertyType, id: Option<Guid>) -> (r: Result<(Property, usize), ParseError>)
    requires
        pos <= data@.len(),
    ensures
        agrees(r, data@, pos as int, sp_tagged_value(data@, pos as int, t, opt_guid_view(id))),
{
    proof {
        reveal_with_fuel(sp_tagged_value, 1);
    }
    match t {
        PropertyType::Int8Property => {
            let (value, e) = read_i8(data, pos)?;
            Ok((Property::Int8 { id, value }, e))
        },
        PropertyType::Int16Property => {
            let (value, e) = read_i16(data, pos)?;
            Ok((Property::Int16 { id, value }, e))
        },
        PropertyType::IntProperty => {
            let (value, e) = read_i32(data, pos)?;
            Ok((Property::Int { id, value }, e))
        },
        PropertyType::Int64Property => {
            let (value, e) = read_i64(data, pos)?;
            Ok((Property::Int64 { id, value }, e))
        },
        PropertyType::UInt8Property => {
            let (value, e) = read_u8(data, pos)?;
            Ok((Property::UInt8 { id, value }, e))
        },
        PropertyType::UInt16Property => {
            let (value, e) = read_u16(data, pos)?;
            Ok((Property::UInt16 { id, value }, e))
        },
        PropertyType::UInt32Property => {
            let (value, e) = read_u32(data, pos)?;
            Ok((Property::UInt32 { id, value }, e))
        },
        PropertyType::UInt64Property => {
            let (value, e) = read_u64(data, pos)?;
            Ok((Property::UInt64 { id, value }, e))
        },
        PropertyType::FloatProperty => {
            let (value, e) = read_u32(data, pos)?;
            Ok((Property::Float { id, value }, e))
        },
        PropertyType::DoubleProperty => {
            let (value, e) = read_u64(data, pos)?;
            Ok((Property::Double { id, value }, e))
        },
        _ => read_tagged_object(data, pos, t, id),
    }
}

/// The values of tagged properties that are strings or structured.
#[verifier::spinoff_prover]
#[verifier::rlimit(100)]
fn read_tagged_object(data: &[u8], pos: usize, t: PropertyType, id: Option<Guid>) -> (r: Result<(Property, usize), ParseError>)
    requires
        pos <= data@.len(),
        t != PropertyType::Int8Property,
        t != PropertyType::Int16Property,
        t != PropertyType::IntProperty,
        t != PropertyType::Int64Property,
        t != PropertyType::UInt8Property,
        t != PropertyType::UInt16Property,
        t != PropertyType::UInt32Property,
        t != PropertyType::UInt64Property,
        t != PropertyType::FloatProperty,
        t != PropertyType::DoubleProperty,
    ensures
        agrees(r, data@, pos as int, sp_tagged_value(data@, pos as int, t, opt_guid_view(id))),
{
    proof {
        reveal_with_fuel(sp_tagged_value, 1);
    }
    match t {
        PropertyType::NameProperty => {
            let (value, e) = read_string(data, pos)?;
            Ok((Property::Name { id, value }, e))
        },
        PropertyType::StrProperty => {
            let (value, e) = read_string(data, pos)?;
            Ok((Property::Str { id, value }, e))
        },
        PropertyType::FieldPathProperty => {
            let (value, e) = read_field_path(data, pos)?;
            Ok((Property::FieldPath { id, value }, e))
        },
        PropertyType::SoftObjectProperty => {
            let ((value, value2), e) = read_string_pair(data, pos)?;
            Ok((Property::SoftObject { id, value, value2 }, e))
        },
        PropertyType::ObjectProperty => {
            let (value, e) = read_string(data, pos)?;
            Ok((Property::Object { id, value }, e))
        },
        PropertyType::TextProperty => {
            let (value, e) = read_text(data, pos)?;
            Ok((Property::Text { id, value }, e))
        },
        PropertyType::DelegateProperty => {
            let (value, e) = read_delegate(data, pos)?;
            Ok((Property::Delegate { id, value }, e))
        },
        PropertyType::MulticastDelegateProperty => {
            let (value, e) = read_multicast(data, pos)?;
            Ok((Property::MulticastDelegate { id, value: MulticastDelegate(value) }, e))
        },
        PropertyType::MulticastInlineDelegateProperty => {
            let (value, e) = read_multicast(data, pos)?;
            Ok((Property::MulticastInlineDelegate { id, value: MulticastInlineDelegate(value) }, e))
        },
        _ => {
            let (value, e) = read_multicast(data, pos)?;
            Ok((Property::MulticastSparseDelegate { id, value: MulticastSparseDelegate(value) }, e))
        },
    }
}

} // verus!
