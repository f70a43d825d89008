//! The framing of properties and of the save header in the stored bytes:
//! the order of the parts the writer puts down, and, for the header, which
//! field the reader fills from which bytes.
use vstd::prelude::*;

use crate::bytes::{guid_bytes, opt_guid_bytes, u16_bytes, u32_bytes, u64_bytes, u8_bytes};
use crate::decode::sp_header;
use crate::encode::{
    count_bytes, custom_format_bytes, delegates_bytes, field_path_bytes, header_bytes,
    map_entries_bytes, property_body, property_bytes, property_list_bytes, property_type_of,
    property_value_bytes, root_bytes, save_bytes, strings_bytes, struct_value_bytes,
    struct_values_bytes, value_array_bytes, value_set_bytes,
};
use crate::layout::{u16_at, u32_at, u64_at};
use crate::model::{
    PackageVersion, SpecByte, SpecFieldPath, SpecHeader, SpecMapEntry, SpecProperty,
    SpecPropertyValue, SpecRoot, SpecSave, SpecStructValue, SpecValueArray,
};
use crate::strings::{lemma_units_bytes_len, lemma_utf16_len, string_bytes, utf16_encode};
use vstd::utf8::{encode_utf8, is_ascii_chars};
use crate::types::{property_type_name, struct_type_name};

verus! {

/// A property is stored as its name, the name of its type, the 64-bit
/// size, then its body.
pub proof fn law_property_frame(name: Seq<char>, p: SpecProperty, lwc: bool)
    ensures
        property_bytes(name, p, lwc) == string_bytes(name) + string_bytes(
            property_type_name(property_type_of(p)),
        ) + u64_bytes(property_body(p, lwc).0) + property_body(p, lwc).1,
{
}

/// The body of each kind of property: a bool's value byte comes before its
/// optional GUID; a byte or enum property starts with its enum type name,
/// then the GUID, then the value (a byte, or a label); strings, names,
/// objects and soft objects follow the GUID (a soft object as its two
/// strings in order); a set starts with its element type name, a map with
/// its key type name, then its value type name, each followed by the GUID,
/// a zero and (for a map) the entry count; a struct starts with its struct
/// type name, then the struct's GUID, then the optional GUID; an array
/// starts with its element type name, then the GUID.
pub proof fn law_property_layout(p: SpecProperty, lwc: bool)
    ensures
        p matches SpecProperty::Bool { id, value } ==> property_body(p, lwc).1 == u8_bytes(
            if value {
                1
            } else {
                0
            },
        ) + opt_guid_bytes(id),
        p matches SpecProperty::Byte { id, value: SpecByte::Byte(b), enum_type } ==> property_body(
            p,
            lwc,
        ).1 == string_bytes(enum_type) + opt_guid_bytes(id) + u8_bytes(b),
        p matches SpecProperty::Byte { id, value: SpecByte::Label(l), enum_type } ==> property_body(
            p,
            lwc,
        ).1 == string_bytes(enum_type) + opt_guid_bytes(id) + string_bytes(l),
        p matches SpecProperty::Enum { id, value, enum_type } ==> property_body(p, lwc).1 == string_bytes(
            enum_type,
        ) + opt_guid_bytes(id) + string_bytes(value),
        p matches SpecProperty::Str { id, value } ==> property_body(p, lwc).1 == opt_guid_bytes(id)
            + string_bytes(value),
        p matches SpecProperty::Name { id, value } ==> property_body(p, lwc).1 == opt_guid_bytes(id)
            + string_bytes(value),
        p matches SpecProperty::Object { id, value } ==> property_body(p, lwc).1 == opt_guid_bytes(id)
            + string_bytes(value),
        p matches SpecProperty::SoftObject { id, value, value2 } ==> property_body(p, lwc).1
            == opt_guid_bytes(id) + string_bytes(value) + string_bytes(value2),
        p matches SpecProperty::FieldPath { id, value } ==> property_body(p, lwc).1 == opt_guid_bytes(id)
            + field_path_bytes(value),
        p matches SpecProperty::MulticastDelegate { id, value } ==> property_body(p, lwc).1
            == opt_guid_bytes(id) + count_bytes(value.len()) + delegates_bytes(value),
        p matches SpecProperty::SetOf { id, set_type, value } ==> property_body(p, lwc).1 == string_bytes(
            property_type_name(set_type),
        ) + opt_guid_bytes(id) + u32_bytes(0) + value_set_bytes(value, lwc),
        p matches SpecProperty::MapOf { id, key_type, value_type, value } ==> property_body(p, lwc).1
            == string_bytes(property_type_name(key_type)) + string_bytes(property_type_name(value_type))
            + opt_guid_bytes(id) + u32_bytes(0) + count_bytes(value.len()) + map_entries_bytes(
            value,
            lwc,
        ),
        p matches SpecProperty::Struct { id, value, struct_type, struct_id } ==> property_body(p, lwc).1
            == string_bytes(struct_type_name(struct_type)) + guid_bytes(struct_id) + opt_guid_bytes(id)
            + struct_value_bytes(value, lwc),
        p matches SpecProperty::Array { array_type, id, value } ==> property_body(p, lwc).1
            == string_bytes(property_type_name(array_type)) + opt_guid_bytes(id) + value_array_bytes(
            value,
            lwc,
        ),
{
    match p {
        SpecProperty::SoftObject { id, value, value2 } => {
            assert(opt_guid_bytes(id) + (string_bytes(value) + string_bytes(value2)) =~= opt_guid_bytes(id)
                + string_bytes(value) + string_bytes(value2));
        },
        SpecProperty::MulticastDelegate { id, value } => {
            assert(opt_guid_bytes(id) + (count_bytes(value.len()) + delegates_bytes(value)) =~= opt_guid_bytes(
                id,
            ) + count_bytes(value.len()) + delegates_bytes(value));
        },
        SpecProperty::SetOf { id, set_type, value } => {
            assert(string_bytes(property_type_name(set_type)) + opt_guid_bytes(id) + (u32_bytes(0)
                + value_set_bytes(value, lwc)) =~= string_bytes(property_type_name(set_type))
                + opt_guid_bytes(id) + u32_bytes(0) + value_set_bytes(value, lwc));
        },
        SpecProperty::MapOf { id, key_type, value_type, value } => {
            let h = string_bytes(property_type_name(key_type)) + string_bytes(property_type_name(value_type))
                + opt_guid_bytes(id);
            assert(h + (u32_bytes(0) + count_bytes(value.len()) + map_entries_bytes(value, lwc)) =~= h
                + u32_bytes(0) + count_bytes(value.len()) + map_entries_bytes(value, lwc));
        },
        _ => {},
    }
}

/// A field path is stored as the count of its path segments, the segments
/// in order, then its owner.
pub proof fn law_field_path_layout(v: SpecFieldPath)
    ensures
        field_path_bytes(v) == u32_bytes(v.path.len() as u32) + strings_bytes(v.path) + string_bytes(v.owner),
{
}

/// Map entries are stored in order, each as its key, then its value.
pub proof fn law_map_entry_layout(s: Seq<SpecMapEntry>, e: SpecMapEntry, lwc: bool)
    ensures
        map_entries_bytes(s.push(e), lwc) == map_entries_bytes(s, lwc) + property_value_bytes(e.key, lwc)
            + property_value_bytes(e.value, lwc),
{
    assert(s.push(e).drop_last() =~= s);
}

/// An array of structs is stored as its count, the element type name, the
/// array's name, the byte length of the elements, the struct type name,
/// the GUID, a zero byte, then the elements.
pub proof fn law_struct_array_layout(v: SpecValueArray, lwc: bool)
    ensures
        v matches SpecValueArray::Struct { element_type, name, struct_type, id, value } ==> value_array_bytes(
            v,
            lwc,
        ) == u32_bytes(value.len() as u32) + string_bytes(element_type) + string_bytes(name) + u64_bytes(
            struct_values_bytes(value, lwc).len() as u64,
        ) + string_bytes(struct_type_name(struct_type)) + guid_bytes(id) + u8_bytes(0)
            + struct_values_bytes(value, lwc),
{
}

/// The header is stored as the magic number, the save game version, the
/// package version (one 32-bit value when the save game version is below
/// 3, two otherwise), the engine version's major, minor and patch numbers
/// (16 bits each), its build number, its name, the custom format version,
/// the count of custom formats, then the custom formats.
pub proof fn law_header_layout(h: SpecHeader)
    ensures
        ({
            let b = header_bytes(h);
            let o: int = if h.package_version is Old { 12 } else { 16 };
            &&& u32_at(b, 0) == h.magic
            &&& u32_at(b, 4) == h.save_game_version
            &&& (h.package_version matches PackageVersion::Old(a) ==> u32_at(b, 8) == a)
            &&& (h.package_version matches PackageVersion::New(a, c) ==> u32_at(b, 8) == a && u32_at(b, 12) == c)
            &&& u16_at(b, o) == h.engine_version_major
            &&& u16_at(b, o + 2) == h.engine_version_minor
            &&& u16_at(b, o + 4) == h.engine_version_patch
            &&& u32_at(b, o + 6) == h.engine_version_build
            &&& b.subrange(o + 10, o + 10 + string_bytes(h.engine_version).len()) == string_bytes(
                h.engine_version,
            )
            &&& u32_at(b, o + 10 + string_bytes(h.engine_version).len()) == h.custom_format_version
            &&& u32_at(b, o + 14 + string_bytes(h.engine_version).len()) == h.custom_format.len() as u32
        }),
{
    vstd::bytes::lemma_auto_spec_u16_to_from_le_bytes();
    vstd::bytes::lemma_auto_spec_u32_to_from_le_bytes();
    let b = header_bytes(h);
    let o: int = if h.package_version is Old { 12 } else { 16 };
    let sv = string_bytes(h.engine_version);
    let k = o + 10 + sv.len();
    assert(b.subrange(0, 4) =~= u32_bytes(h.magic));
    assert(b.subrange(4, 8) =~= u32_bytes(h.save_game_version));
    match h.package_version {
        PackageVersion::Old(a) => {
            assert(b.subrange(8, 12) =~= u32_bytes(a));
        },
        PackageVersion::New(a, c) => {
            assert(b.subrange(8, 12) =~= u32_bytes(a));
            assert(b.subrange(12, 16) =~= u32_bytes(c));
        },
    }
    assert(b.subrange(o, o + 2) =~= u16_bytes(h.engine_version_major));
    assert(b.subrange(o + 2, o + 4) =~= u16_bytes(h.engine_version_minor));
    assert(b.subrange(o + 4, o + 6) =~= u16_bytes(h.engine_version_patch));
    assert(b.subrange(o + 6, o + 10) =~= u32_bytes(h.engine_version_build));
    assert(b.subrange(o + 10, k) =~= sv);
    assert(b.subrange(k, k + 4) =~= u32_bytes(h.custom_format_version));
    assert(b.subrange(k + 4, k + 8) =~= count_bytes(h.custom_format.len()));
}

/// The reader takes the header's magic number, save game version, package
/// version and engine version numbers from the same places.
pub proof fn law_read_header(d: Seq<u8>, p: int)
    ensures
        sp_header(d, p) matches Ok((h, _)) ==> ({
            let o: int = if h.save_game_version < 3 { 12 } else { 16 };
            &&& h.magic == u32_at(d, p)
            &&& h.save_game_version == u32_at(d, p + 4)
            &&& (h.save_game_version < 3 ==> h.package_version == PackageVersion::Old(u32_at(d, p + 8)))
            &&& (h.save_game_version >= 3 ==> h.package_version == PackageVersion::New(
                u32_at(d, p + 8),
                u32_at(d, p + 12),
            ))
            &&& h.engine_version_major == u16_at(d, p + o)
            &&& h.engine_version_minor == u16_at(d, p + o + 2)
            &&& h.engine_version_patch == u16_at(d, p + o + 4)
            &&& h.engine_version_build == u32_at(d, p + o + 6)
        }),
{
}

/// A GUID is stored as its four groups of four bytes, each group in
/// reverse order.
pub proof fn law_guid_layout(g: Seq<u8>)
    requires
        g.len() == 16,
    ensures
        guid_bytes(g).len() == 16,
        forall|i: int| 0 <= i < 16 ==> #[trigger] guid_bytes(g)[i] == g[4 * (i / 4) + 3 - i % 4],
{
    assert forall|i: int| 0 <= i < 16 implies #[trigger] guid_bytes(g)[i] == g[4 * (i / 4) + 3 - i % 4] by {
        assert(i == 0 || i == 1 || i == 2 || i == 3 || i == 4 || i == 5 || i == 6 || i == 7 || i == 8 || i == 9
            || i == 10 || i == 11 || i == 12 || i == 13 || i == 14 || i == 15);
    }
}

/// An optional GUID is stored as a zero byte when absent, otherwise as a
/// one byte followed by the GUID.
pub proof fn law_optional_guid_layout(g: Option<Seq<u8>>)
    ensures
        g is None ==> opt_guid_bytes(g) == seq![0u8],
        g matches Some(x) ==> opt_guid_bytes(g) == seq![1u8] + guid_bytes(x),
{
}

/// A custom format entry is stored as its GUID, then its 32-bit value.
pub proof fn law_custom_format_layout(c: (Seq<u8>, i32))
    requires
        c.0.len() == 16,
    ensures
        custom_format_bytes(c).len() == 20,
        custom_format_bytes(c).subrange(0, 16) == guid_bytes(c.0),
        u32_at(custom_format_bytes(c), 16) as i32 == c.1,
{
    vstd::bytes::lemma_auto_spec_u32_to_from_le_bytes();
    let b = custom_format_bytes(c);
    assert(b.subrange(0, 16) =~= guid_bytes(c.0));
    assert(b.subrange(16, 20) =~= u32_bytes(c.1 as u32));
    let x = c.1;
    assert((x as u32) as i32 == x) by (bit_vector);
}

/// The root is stored as the save game type, its properties in order, then
/// the name "None" that ends them.
pub proof fn law_root_layout(r: SpecRoot, lwc: bool)
    ensures
        root_bytes(r, lwc) == string_bytes(r.save_game_type) + property_list_bytes(r.properties, lwc)
            + string_bytes("None"@),
{
    assert(root_bytes(r, lwc) =~= string_bytes(r.save_game_type) + property_list_bytes(r.properties, lwc)
        + string_bytes("None"@));
}

/// A save is stored as its header, its root (with 64-bit vector components
/// from engine version 5 on), then the bytes that follow the root.
pub proof fn law_save_layout(s: SpecSave)
    ensures
        save_bytes(s) == header_bytes(s.header) + root_bytes(s.root, s.header.engine_version_major >= 5)
            + s.extra,
{
}

/// A string is stored as a 32-bit length, then its characters: the empty
/// string as a zero length alone; an ASCII string as its bytes and a zero
/// byte, the length counting that terminator; any other string as UTF-16
/// code units and a zero unit, the length being minus their count.
pub proof fn law_string_layout(s: Seq<char>)
    requires
        s.len() < 0x1000_0000,
    ensures
        s.len() == 0 ==> string_bytes(s).len() == 4 && u32_at(string_bytes(s), 0) == 0,
        s.len() > 0 && is_ascii_chars(s) ==> ({
            let b = string_bytes(s);
            let n = encode_utf8(s).len();
            &&& b.len() == n + 5
            &&& u32_at(b, 0) == n + 1
            &&& b.subrange(4, 4 + n as int) == encode_utf8(s)
            &&& b[4 + n as int] == 0
        }),
        s.len() > 0 && !is_ascii_chars(s) ==> ({
            let b = string_bytes(s);
            let n = utf16_encode(s).len();
            &&& b.len() == 4 + 2 * n + 2
            &&& u32_at(b, 0) as i32 == -(n + 1)
            &&& u16_at(b, b.len() - 2) == 0
        }),
{
    vstd::bytes::lemma_auto_spec_u32_to_from_le_bytes();
    vstd::bytes::lemma_auto_spec_u16_to_from_le_bytes();
    if s.len() == 0 {
        assert(string_bytes(s).subrange(0, 4) =~= u32_bytes(0));
    } else {
        if is_ascii_chars(s) {
            vstd::utf8::is_ascii_chars_encode_utf8(s);
            let b = string_bytes(s);
            let n = encode_utf8(s).len();
            assert(b.subrange(0, 4) =~= u32_bytes((n + 1) as u32));
            assert(b.subrange(4, 4 + n as int) =~= encode_utf8(s));
        } else {
            lemma_utf16_len(s);
            let u = utf16_encode(s);
            lemma_units_bytes_len(u);
            let b = string_bytes(s);
            let n = u.len();
            let k: i32 = vstd::wrapping::i32_specs::wrapping_sub(0, vstd::wrapping::i32_specs::wrapping_add(n as i32, 1));
            assert(b.subrange(0, 4) =~= u32_bytes(k as u32));
            assert(k == -(n + 1));
            assert((k as u32) as i32 == k) by (bit_vector);
            assert(b.subrange(b.len() - 2, b.len() - 2 + 2) =~= u16_bytes(0));
        }
    }
}

/// The struct values that are not plain vectors or colors: a soft object
/// path as its two strings in order, a tag container as the count of its
/// tags and the tags, a date and time as 64 bits, a timespan as a signed
/// 64-bit value, a GUID as stored GUIDs are, and a struct of properties as
/// its properties followed by "None".
pub proof fn law_struct_value_layout(v: SpecStructValue, lwc: bool)
    ensures
        v matches SpecStructValue::SoftObjectPath(a, b) ==> struct_value_bytes(v, lwc) == string_bytes(a)
            + string_bytes(b),
        v matches SpecStructValue::GameplayTagContainer(t) ==> struct_value_bytes(v, lwc) == u32_bytes(
            t.len() as u32,
        ) + strings_bytes(t),
        v matches SpecStructValue::DateTime(x) ==> struct_value_bytes(v, lwc).len() == 8 && u64_at(
            struct_value_bytes(v, lwc),
            0,
        ) == x,
        v matches SpecStructValue::Timespan(x) ==> struct_value_bytes(v, lwc).len() == 8 && u64_at(
            struct_value_bytes(v, lwc),
            0,
        ) as i64 == x,
        v matches SpecStructValue::Guid(g) ==> struct_value_bytes(v, lwc) == guid_bytes(g),
        v matches SpecStructValue::Struct(ps) ==> struct_value_bytes(v, lwc) == property_list_bytes(ps, lwc)
            + string_bytes("None"@),
{
    vstd::bytes::lemma_auto_spec_u64_to_from_le_bytes();
    let b = struct_value_bytes(v, lwc);
    match v {
        SpecStructValue::DateTime(x) => {
            assert(b.subrange(0, 8) =~= u64_bytes(x));
        },
        SpecStructValue::Timespan(x) => {
            assert(b.subrange(0, 8) =~= u64_bytes(x as u64));
            assert((x as u64) as i64 == x) by (bit_vector);
        },
        _ => {},
    }
}

/// A map key or value is stored without tags: a number as its
/// little-endian bits at the width of its type, a bool as one byte (1 for
/// true), a label, enum, name, string or object as its string, a soft
/// object as its two strings in order, a struct as its struct value.
pub proof fn law_property_value_layout(v: SpecPropertyValue, lwc: bool)
    ensures
        ({
            let b = property_value_bytes(v, lwc);
            &&& (v matches SpecPropertyValue::Int(x) ==> b.len() == 4 && u32_at(b, 0) as i32 == x)
            &&& (v matches SpecPropertyValue::Int8(x) ==> b.len() == 1 && b[0] as i8 == x)
            &&& (v matches SpecPropertyValue::Int16(x) ==> b.len() == 2 && u16_at(b, 0) as i16 == x)
            &&& (v matches SpecPropertyValue::Int64(x) ==> b.len() == 8 && u64_at(b, 0) as i64 == x)
            &&& (v matches SpecPropertyValue::UInt16(x) ==> b.len() == 2 && u16_at(b, 0) == x)
            &&& (v matches SpecPropertyValue::UInt32(x) ==> b.len() == 4 && u32_at(b, 0) == x)
            &&& (v matches SpecPropertyValue::Float(x) ==> b.len() == 4 && u32_at(b, 0) == x)
            &&& (v matches SpecPropertyValue::Double(x) ==> b.len() == 8 && u64_at(b, 0) == x)
            &&& (v matches SpecPropertyValue::Bool(x) ==> b == seq![if x { 1u8 } else { 0u8 }])
            &&& (v matches SpecPropertyValue::Byte(SpecByte::Label(l)) ==> b == string_bytes(l))
            &&& (v matches SpecPropertyValue::Enum(x) ==> b == string_bytes(x))
            &&& (v matches SpecPropertyValue::Name(x) ==> b == string_bytes(x))
            &&& (v matches SpecPropertyValue::Str(x) ==> b == string_bytes(x))
            &&& (v matches SpecPropertyValue::Object(x) ==> b == string_bytes(x))
            &&& (v matches SpecPropertyValue::SoftObject(x, y) ==> b == string_bytes(x) + string_bytes(y))
            &&& (v matches SpecPropertyValue::Struct(sv) ==> b == struct_value_bytes(sv, lwc))
        }),
{
    vstd::bytes::lemma_auto_spec_u16_to_from_le_bytes();
    vstd::bytes::lemma_auto_spec_u32_to_from_le_bytes();
    vstd::bytes::lemma_auto_spec_u64_to_from_le_bytes();
    let b = property_value_bytes(v, lwc);
    match v {
        SpecPropertyValue::Int(x) => {
            assert(b.subrange(0, 4) =~= u32_bytes(x as u32));
            assert((x as u32) as i32 == x) by (bit_vector);
        },
        SpecPropertyValue::Int8(x) => {
            assert((x as u8) as i8 == x) by (bit_vector);
        },
        SpecPropertyValue::Int16(x) => {
            assert(b.subrange(0, 2) =~= u16_bytes(x as u16));
            assert((x as u16) as i16 == x) by (bit_vector);
        },
        SpecPropertyValue::Int64(x) => {
            assert(b.subrange(0, 8) =~= u64_bytes(x as u64));
            assert((x as u64) as i64 == x) by (bit_vector);
        },
        SpecPropertyValue::UInt16(x) => {
            assert(b.subrange(0, 2) =~= u16_bytes(x));
        },
        SpecPropertyValue::UInt32(x) => {
            assert(b.subrange(0, 4) =~= u32_bytes(x));
        },
        SpecPropertyValue::Float(x) => {
            assert(b.subrange(0, 4) =~= u32_bytes(x));
        },
        SpecPropertyValue::Double(x) => {
            assert(b.subrange(0, 8) =~= u64_bytes(x));
        },
        _ => {},
    }
}

} // verus!
