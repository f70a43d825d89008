//! Properties that relate several functions of the library: what a read
//! gives back of a write, and how the type tables behave.
use vstd::prelude::*;

use crate::bytes::lemma_at_split;
use crate::decode::{
    Ctx, child_path, insert_property, rem, sp_properties, sp_property_body, sp_property_type,
    sp_save, unique_names,
};
use crate::bytes::sp_u64;
use crate::strings::sp_string;
use crate::encode::{header_bytes, root_bytes, save_bytes, save_writable};
use crate::model::{SpecParseError, SpecProperty, SpecSave};
use crate::readback::{
    header_roundtrips, lemma_properties_writable_rt, lemma_read_header, lemma_read_root,
};
use crate::roundtrip::properties_roundtrip;
use crate::strings::string_roundtrips;
use crate::types::{
    PropertyType, SpecStructType, property_type_from_name, property_type_name,
    struct_type_from_name, struct_type_name,
};

verus! {

/// The names under which struct types are stored that stand for a
/// built-in struct (or for the bare "Struct").
pub open spec fn reserved_struct_name(s: Seq<char>) -> bool {
    ||| s == "Guid"@
    ||| s == "DateTime"@
    ||| s == "Timespan"@
    ||| s == "Vector2D"@
    ||| s == "Vector"@
    ||| s == "Box"@
    ||| s == "IntPoint"@
    ||| s == "Quat"@
    ||| s == "Rotator"@
    ||| s == "LinearColor"@
    ||| s == "Color"@
    ||| s == "SoftObjectPath"@
    ||| s == "GameplayTagContainer"@
    ||| s == "Struct"@
}

/// A property type read back from its stored name is the same type.
#[verifier::rlimit(100)]
pub proof fn law_property_type_name_roundtrip(t: PropertyType)
    ensures
        property_type_from_name(property_type_name(t)) == Some(t),
{
    reveal_strlit("Int8Property");
    reveal_strlit("Int16Property");
    reveal_strlit("IntProperty");
    reveal_strlit("Int64Property");
    reveal_strlit("UInt8Property");
    reveal_strlit("UInt16Property");
    reveal_strlit("UInt32Property");
    reveal_strlit("UInt64Property");
    reveal_strlit("FloatProperty");
    reveal_strlit("DoubleProperty");
    reveal_strlit("BoolProperty");
    reveal_strlit("ByteProperty");
    reveal_strlit("EnumProperty");
    reveal_strlit("ArrayProperty");
    reveal_strlit("ObjectProperty");
    reveal_strlit("StrProperty");
    reveal_strlit("FieldPathProperty");
    reveal_strlit("SoftObjectProperty");
    reveal_strlit("NameProperty");
    reveal_strlit("TextProperty");
    reveal_strlit("DelegateProperty");
    reveal_strlit("MulticastDelegateProperty");
    reveal_strlit("MulticastInlineDelegateProperty");
    reveal_strlit("MulticastSparseDelegateProperty");
    reveal_strlit("SetProperty");
    reveal_strlit("MapProperty");
    reveal_strlit("StructProperty");
    assert("Int8Property"@[0] == 'I' && "Int8Property"@[1] == 'n' && "Int8Property"@[3] == '8' && "Int8Property"@[4] == 'P' && "Int8Property"@[9] == 'r');
    assert("Int16Property"@[0] == 'I' && "Int16Property"@[1] == 'n' && "Int16Property"@[3] == '1' && "Int16Property"@[4] == '6' && "Int16Property"@[9] == 'e');
    assert("IntProperty"@[0] == 'I' && "IntProperty"@[1] == 'n' && "IntProperty"@[3] == 'P' && "IntProperty"@[4] == 'r' && "IntProperty"@[9] == 't');
    assert("Int64Property"@[0] == 'I' && "Int64Property"@[1] == 'n' && "Int64Property"@[3] == '6' && "Int64Property"@[4] == '4' && "Int64Property"@[9] == 'e');
    assert("UInt8Property"@[0] == 'U' && "UInt8Property"@[1] == 'I' && "UInt8Property"@[3] == 't' && "UInt8Property"@[4] == '8' && "UInt8Property"@[9] == 'e');
    assert("UInt16Property"@[0] == 'U' && "UInt16Property"@[1] == 'I' && "UInt16Property"@[3] == 't' && "UInt16Property"@[4] == '1' && "UInt16Property"@[9] == 'p');
    assert("UInt32Property"@[0] == 'U' && "UInt32Property"@[1] == 'I' && "UInt32Property"@[3] == 't' && "UInt32Property"@[4] == '3' && "UInt32Property"@[9] == 'p');
    assert("UInt64Property"@[0] == 'U' && "UInt64Property"@[1] == 'I' && "UInt64Property"@[3] == 't' && "UInt64Property"@[4] == '6' && "UInt64Property"@[9] == 'p');
    assert("FloatProperty"@[0] == 'F' && "FloatProperty"@[1] == 'l' && "FloatProperty"@[3] == 'a' && "FloatProperty"@[4] == 't' && "FloatProperty"@[9] == 'e');
    assert("DoubleProperty"@[0] == 'D' && "DoubleProperty"@[1] == 'o' && "DoubleProperty"@[3] == 'b' && "DoubleProperty"@[4] == 'l' && "DoubleProperty"@[9] == 'p');
    assert("BoolProperty"@[0] == 'B' && "BoolProperty"@[1] == 'o' && "BoolProperty"@[3] == 'l' && "BoolProperty"@[4] == 'P' && "BoolProperty"@[9] == 'r');
    assert("ByteProperty"@[0] == 'B' && "ByteProperty"@[1] == 'y' && "ByteProperty"@[3] == 'e' && "ByteProperty"@[4] == 'P' && "ByteProperty"@[9] == 'r');
    assert("EnumProperty"@[0] == 'E' && "EnumProperty"@[1] == 'n' && "EnumProperty"@[3] == 'm' && "EnumProperty"@[4] == 'P' && "EnumProperty"@[9] == 'r');
    assert("ArrayProperty"@[0] == 'A' && "ArrayProperty"@[1] == 'r' && "ArrayProperty"@[3] == 'a' && "ArrayProperty"@[4] == 'y' && "ArrayProperty"@[9] == 'e');
    assert("ObjectProperty"@[0] == 'O' && "ObjectProperty"@[1] == 'b' && "ObjectProperty"@[3] == 'e' && "ObjectProperty"@[4] == 'c' && "ObjectProperty"@[9] == 'p');
    assert("StrProperty"@[0] == 'S' && "StrProperty"@[1] == 't' && "StrProperty"@[3] == 'P' && "StrProperty"@[4] == 'r' && "StrProperty"@[9] == 't');
    assert("FieldPathProperty"@[0] == 'F' && "FieldPathProperty"@[1] == 'i' && "FieldPathProperty"@[3] == 'l' && "FieldPathProperty"@[4] == 'd' && "FieldPathProperty"@[9] == 'P');
    assert("SoftObjectProperty"@[0] == 'S' && "SoftObjectProperty"@[1] == 'o' && "SoftObjectProperty"@[3] == 't' && "SoftObjectProperty"@[4] == 'O' && "SoftObjectProperty"@[9] == 't');
    assert("NameProperty"@[0] == 'N' && "NameProperty"@[1] == 'a' && "NameProperty"@[3] == 'e' && "NameProperty"@[4] == 'P' && "NameProperty"@[9] == 'r');
    assert("TextProperty"@[0] == 'T' && "TextProperty"@[1] == 'e' && "TextProperty"@[3] == 't' && "TextProperty"@[4] == 'P' && "TextProperty"@[9] == 'r');
    assert("DelegateProperty"@[0] == 'D' && "DelegateProperty"@[1] == 'e' && "DelegateProperty"@[3] == 'e' && "DelegateProperty"@[4] == 'g' && "DelegateProperty"@[9] == 'r');
    assert("MulticastDelegateProperty"@[0] == 'M' && "MulticastDelegateProperty"@[1] == 'u' && "MulticastDelegateProperty"@[3] == 't' && "MulticastDelegateProperty"@[4] == 'i' && "MulticastDelegateProperty"@[9] == 'D');
    assert("MulticastInlineDelegateProperty"@[0] == 'M' && "MulticastInlineDelegateProperty"@[1] == 'u' && "MulticastInlineDelegateProperty"@[3] == 't' && "MulticastInlineDelegateProperty"@[4] == 'i' && "MulticastInlineDelegateProperty"@[9] == 'I');
    assert("MulticastSparseDelegateProperty"@[0] == 'M' && "MulticastSparseDelegateProperty"@[1] == 'u' && "MulticastSparseDelegateProperty"@[3] == 't' && "MulticastSparseDelegateProperty"@[4] == 'i' && "MulticastSparseDelegateProperty"@[9] == 'S');
    assert("SetProperty"@[0] == 'S' && "SetProperty"@[1] == 'e' && "SetProperty"@[3] == 'P' && "SetProperty"@[4] == 'r' && "SetProperty"@[9] == 't');
    assert("MapProperty"@[0] == 'M' && "MapProperty"@[1] == 'a' && "MapProperty"@[3] == 'P' && "MapProperty"@[4] == 'r' && "MapProperty"@[9] == 't');
    assert("StructProperty"@[0] == 'S' && "StructProperty"@[1] == 't' && "StructProperty"@[3] == 'u' && "StructProperty"@[4] == 'c' && "StructProperty"@[9] == 'p');
}

/// A struct type read back from its stored name is the same type, for
/// every type that the writer stores (a user struct whose name is not one
/// of the reserved names).
#[verifier::rlimit(100)]
pub proof fn law_struct_type_name_roundtrip(t: SpecStructType)
    requires
        t != SpecStructType::Struct(None),
        t matches SpecStructType::Struct(Some(s)) ==> !reserved_struct_name(s),
    ensures
        struct_type_from_name(struct_type_name(t)) == t,
{
    reveal_strlit("Guid");
    reveal_strlit("DateTime");
    reveal_strlit("Timespan");
    reveal_strlit("Vector2D");
    reveal_strlit("Vector");
    reveal_strlit("Box");
    reveal_strlit("IntPoint");
    reveal_strlit("Quat");
    reveal_strlit("Rotator");
    reveal_strlit("LinearColor");
    reveal_strlit("Color");
    reveal_strlit("SoftObjectPath");
    reveal_strlit("GameplayTagContainer");
    reveal_strlit("Struct");
    assert("Guid"@[0] == 'G' && "Guid"@[1] == 'u' && "Guid"@[2] == 'i');
    assert("DateTime"@[0] == 'D' && "DateTime"@[1] == 'a' && "DateTime"@[2] == 't' && "DateTime"@[6] == 'm');
    assert("Timespan"@[0] == 'T' && "Timespan"@[1] == 'i' && "Timespan"@[2] == 'm' && "Timespan"@[6] == 'a');
    assert("Vector2D"@[0] == 'V' && "Vector2D"@[1] == 'e' && "Vector2D"@[2] == 'c' && "Vector2D"@[6] == '2');
    assert("Vector"@[0] == 'V' && "Vector"@[1] == 'e' && "Vector"@[2] == 'c');
    assert("Box"@[0] == 'B' && "Box"@[1] == 'o' && "Box"@[2] == 'x');
    assert("IntPoint"@[0] == 'I' && "IntPoint"@[1] == 'n' && "IntPoint"@[2] == 't' && "IntPoint"@[6] == 'n');
    assert("Quat"@[0] == 'Q' && "Quat"@[1] == 'u' && "Quat"@[2] == 'a');
    assert("Rotator"@[0] == 'R' && "Rotator"@[1] == 'o' && "Rotator"@[2] == 't' && "Rotator"@[6] == 'r');
    assert("LinearColor"@[0] == 'L' && "LinearColor"@[1] == 'i' && "LinearColor"@[2] == 'n' && "LinearColor"@[6] == 'C');
    assert("Color"@[0] == 'C' && "Color"@[1] == 'o' && "Color"@[2] == 'l');
    assert("SoftObjectPath"@[0] == 'S' && "SoftObjectPath"@[1] == 'o' && "SoftObjectPath"@[2] == 'f' && "SoftObjectPath"@[6] == 'j');
    assert("GameplayTagContainer"@[0] == 'G' && "GameplayTagContainer"@[1] == 'a' && "GameplayTagContainer"@[2] == 'm' && "GameplayTagContainer"@[6] == 'a');
    assert("Struct"@[0] == 'S' && "Struct"@[1] == 't' && "Struct"@[2] == 'r');
    match t {
        SpecStructType::Struct(Some(n)) => {
            assert(struct_type_from_name(n) == SpecStructType::Struct(Some(n)));
        },
        SpecStructType::Vector => {
            assert("Vector"@.len() != "Vector2D"@.len());
        },
        _ => {},
    }
}

/// A type registered at a path is found there, and registering it leaves
/// every other path as it was.
pub proof fn law_types_add_then_get(
    m: Map<Seq<char>, SpecStructType>,
    path: Seq<char>,
    t: SpecStructType,
    other: Seq<char>,
)
    ensures
        m.insert(path, t).contains_key(path),
        m.insert(path, t)[path] == t,
        other != path ==> (m.insert(path, t).contains_key(other) == m.contains_key(other)),
        other != path && m.contains_key(other) ==> m.insert(path, t)[other] == m[other],
{
}

/// What the reader carries through a save: whether vectors hold 64-bit
/// components, which the header decides, and the registered struct types.
pub open spec fn save_ctx(s: SpecSave, types: Map<Seq<char>, SpecStructType>) -> Ctx {
    Ctx { lwc: s.header.engine_version_major >= 5, types }
}

/// A save whose every part reads back as the writer stores it, read with
/// the struct types `types`.
pub open spec fn save_roundtrips(s: SpecSave, types: Map<Seq<char>, SpecStructType>) -> bool {
    &&& header_roundtrips(s.header)
    &&& string_roundtrips(s.root.save_game_type)
    &&& properties_roundtrip(s.root.properties, save_ctx(s, types), Seq::empty())
}

/// Reading the bytes that the writer stores for a save gives the same save
/// back: its header, its root with every property in its order, and the
/// bytes after the root.
pub proof fn law_save_roundtrip(s: SpecSave, types: Map<Seq<char>, SpecStructType>)
    requires
        save_roundtrips(s, types),
    ensures
        sp_save(save_bytes(s), types) == Ok::<SpecSave, SpecParseError>(s),
{
    let d = save_bytes(s);
    let ctx = save_ctx(s, types);
    let h = header_bytes(s.header);
    let r = root_bytes(s.root, ctx.lwc);
    assert(d.subrange(0, d.len() as int) =~= (h + r) + s.extra);
    lemma_at_split(d, 0, h + r, s.extra);
    lemma_at_split(d, 0, h, r);
    lemma_read_header(d, 0, s.header);
    lemma_read_root(d, h.len() as int, s.root, ctx);
    assert(d.subrange((h.len() + r.len()) as int, d.len() as int) =~= s.extra);
}

/// Every save that reads back is one that the writer stores: each struct
/// type in it is stored by a name.
pub proof fn law_roundtrip_save_is_writable(s: SpecSave, types: Map<Seq<char>, SpecStructType>)
    requires
        save_roundtrips(s, types),
    ensures
        save_writable(s),
{
    lemma_properties_writable_rt(s.root.properties, save_ctx(s, types), Seq::empty());
}

/// Setting a property in a list whose names are distinct leaves them
/// distinct.
pub proof fn lemma_insert_keeps_unique(
    acc: Seq<(Seq<char>, SpecProperty)>,
    name: Seq<char>,
    prop: SpecProperty,
)
    requires
        unique_names(acc),
    ensures
        unique_names(insert_property(acc, name, prop)),
{
    let r = insert_property(acc, name, prop);
    if exists|i: int| 0 <= i < acc.len() && #[trigger] acc[i].0 == name {
        let i = choose|i: int| 0 <= i < acc.len() && #[trigger] acc[i].0 == name;
        assert forall|a: int, b: int| 0 <= a < b < r.len() implies #[trigger] r[a].0 != #[trigger] r[b].0 by {
            assert(r[a].0 == acc[a].0);
            assert(r[b].0 == acc[b].0);
        }
    } else {
        assert forall|a: int, b: int| 0 <= a < b < r.len() implies #[trigger] r[a].0 != #[trigger] r[b].0 by {
            if b == acc.len() {
                assert(acc[a].0 != name);
            } else {
                assert(acc[a].0 != acc[b].0);
            }
        }
    }
}

/// A property list the reader returns names each property once: a later
/// property of a name already read takes the place of the earlier one.
pub proof fn law_read_properties_unique_names(
    d: Seq<u8>,
    p: int,
    ctx: Ctx,
    path: Seq<char>,
    acc: Seq<(Seq<char>, SpecProperty)>,
)
    requires
        unique_names(acc),
    ensures
        sp_properties(d, p, ctx, path, acc) matches Ok((r, _)) ==> unique_names(r),
    decreases rem(d, p),
{
    reveal_with_fuel(sp_properties, 1);
    if let Ok((name, n)) = sp_string(d, p) {
        if name != "None"@ {
            if let Ok((t, m)) = sp_property_type(d, p + n) {
                if let Ok((size, k)) = sp_u64(d, p + n + m) {
                    if let Ok((prop, j)) = sp_property_body(d, p + n + m + k, ctx, child_path(path, name), t, size) {
                        lemma_insert_keeps_unique(acc, name, prop);
                        law_read_properties_unique_names(
                            d,
                            p + n + m + k + j,
                            ctx,
                            path,
                            insert_property(acc, name, prop),
                        );
                    }
                }
            }
        }
    }
}

/// The properties at the root of a save that the reader returns name each
/// property once.
pub proof fn law_read_save_unique_names(d: Seq<u8>, types: Map<Seq<char>, SpecStructType>)
    ensures
        sp_save(d, types) matches Ok(s) ==> unique_names(s.root.properties),
{
    if let Ok((header, n)) = crate::decode::sp_header(d, 0) {
        let ctx = Ctx { lwc: header.engine_version_major >= 5, types };
        if let Ok((t, k)) = sp_string(d, n as int) {
            law_read_properties_unique_names(d, (n + k) as int, ctx, Seq::empty(), Seq::empty());
        }
    }
}

} // verus!
