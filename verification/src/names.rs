//! The tables of names under which types are stored: each name stands
//! for the type it names, in both directions.
use vstd::prelude::*;

use crate::laws::{law_property_type_name_roundtrip, law_struct_type_name_roundtrip};
use crate::types::{
    PropertyType, SpecStructType, property_type_from_name, property_type_name,
    struct_type_from_name, struct_type_name,
};

verus! {

/// Every property type is stored under its own name, and that name is read
/// as that type: "IntProperty" is an `IntProperty`, "NameProperty" a
/// `NameProperty`, and so on for each of the property types.
pub proof fn law_property_type_names()
    ensures
        property_type_name(PropertyType::Int8Property) == "Int8Property"@,
        property_type_from_name("Int8Property"@) == Some(PropertyType::Int8Property),
        property_type_name(PropertyType::Int16Property) == "Int16Property"@,
        property_type_from_name("Int16Property"@) == Some(PropertyType::Int16Property),
        property_type_name(PropertyType::IntProperty) == "IntProperty"@,
        property_type_from_name("IntProperty"@) == Some(PropertyType::IntProperty),
        property_type_name(PropertyType::Int64Property) == "Int64Property"@,
        property_type_from_name("Int64Property"@) == Some(PropertyType::Int64Property),
        property_type_name(PropertyType::UInt8Property) == "UInt8Property"@,
        property_type_from_name("UInt8Property"@) == Some(PropertyType::UInt8Property),
        property_type_name(PropertyType::UInt16Property) == "UInt16Property"@,
        property_type_from_name("UInt16Property"@) == Some(PropertyType::UInt16Property),
        property_type_name(PropertyType::UInt32Property) == "UInt32Property"@,
        property_type_from_name("UInt32Property"@) == Some(PropertyType::UInt32Property),
        property_type_name(PropertyType::UInt64Property) == "UInt64Property"@,
        property_type_from_name("UInt64Property"@) == Some(PropertyType::UInt64Property),
        property_type_name(PropertyType::FloatProperty) == "FloatProperty"@,
        property_type_from_name("FloatProperty"@) == Some(PropertyType::FloatProperty),
        property_type_name(PropertyType::DoubleProperty) == "DoubleProperty"@,
        property_type_from_name("DoubleProperty"@) == Some(PropertyType::DoubleProperty),
        property_type_name(PropertyType::BoolProperty) == "BoolProperty"@,
        property_type_from_name("BoolProperty"@) == Some(PropertyType::BoolProperty),
        property_type_name(PropertyType::ByteProperty) == "ByteProperty"@,
        property_type_from_name("ByteProperty"@) == Some(PropertyType::ByteProperty),
        property_type_name(PropertyType::EnumProperty) == "EnumProperty"@,
        property_type_from_name("EnumProperty"@) == Some(PropertyType::EnumProperty),
        property_type_name(PropertyType::ArrayProperty) == "ArrayProperty"@,
        property_type_from_name("ArrayProperty"@) == Some(PropertyType::ArrayProperty),
        property_type_name(PropertyType::ObjectProperty) == "ObjectProperty"@,
        property_type_from_name("ObjectProperty"@) == Some(PropertyType::ObjectProperty),
        property_type_name(PropertyType::StrProperty) == "StrProperty"@,
        property_type_from_name("StrProperty"@) == Some(PropertyType::StrProperty),
        property_type_name(PropertyType::FieldPathProperty) == "FieldPathProperty"@,
        property_type_from_name("FieldPathProperty"@) == Some(PropertyType::FieldPathProperty),
        property_type_name(PropertyType::SoftObjectProperty) == "SoftObjectProperty"@,
        property_type_from_name("SoftObjectProperty"@) == Some(PropertyType::SoftObjectProperty),
        property_type_name(PropertyType::NameProperty) == "NameProperty"@,
        property_type_from_name("NameProperty"@) == Some(PropertyType::NameProperty),
        property_type_name(PropertyType::TextProperty) == "TextProperty"@,
        property_type_from_name("TextProperty"@) == Some(PropertyType::TextProperty),
        property_type_name(PropertyType::DelegateProperty) == "DelegateProperty"@,
        property_type_from_name("DelegateProperty"@) == Some(PropertyType::DelegateProperty),
        property_type_name(PropertyType::MulticastDelegateProperty) == "MulticastDelegateProperty"@,
        property_type_from_name("MulticastDelegateProperty"@) == Some(PropertyType::MulticastDelegateProperty),
        property_type_name(PropertyType::MulticastInlineDelegateProperty) == "MulticastInlineDelegateProperty"@,
        property_type_from_name("MulticastInlineDelegateProperty"@) == Some(PropertyType::MulticastInlineDelegateProperty),
        property_type_name(PropertyType::MulticastSparseDelegateProperty) == "MulticastSparseDelegateProperty"@,
        property_type_from_name("MulticastSparseDelegateProperty"@) == Some(PropertyType::MulticastSparseDelegateProperty),
        property_type_name(PropertyType::SetProperty) == "SetProperty"@,
        property_type_from_name("SetProperty"@) == Some(PropertyType::SetProperty),
        property_type_name(PropertyType::MapProperty) == "MapProperty"@,
        property_type_from_name("MapProperty"@) == Some(PropertyType::MapProperty),
        property_type_name(PropertyType::StructProperty) == "StructProperty"@,
        property_type_from_name("StructProperty"@) == Some(PropertyType::StructProperty),
{
    law_property_type_name_roundtrip(PropertyType::Int8Property);
    law_property_type_name_roundtrip(PropertyType::Int16Property);
    law_property_type_name_roundtrip(PropertyType::IntProperty);
    law_property_type_name_roundtrip(PropertyType::Int64Property);
    law_property_type_name_roundtrip(PropertyType::UInt8Property);
    law_property_type_name_roundtrip(PropertyType::UInt16Property);
    law_property_type_name_roundtrip(PropertyType::UInt32Property);
    law_property_type_name_roundtrip(PropertyType::UInt64Property);
    law_property_type_name_roundtrip(PropertyType::FloatProperty);
    law_property_type_name_roundtrip(PropertyType::DoubleProperty);
    law_property_type_name_roundtrip(PropertyType::BoolProperty);
    law_property_type_name_roundtrip(PropertyType::ByteProperty);
    law_property_type_name_roundtrip(PropertyType::EnumProperty);
    law_property_type_name_roundtrip(PropertyType::ArrayProperty);
    law_property_type_name_roundtrip(PropertyType::ObjectProperty);
    law_property_type_name_roundtrip(PropertyType::StrProperty);
    law_property_type_name_roundtrip(PropertyType::FieldPathProperty);
    law_property_type_name_roundtrip(PropertyType::SoftObjectProperty);
    law_property_type_name_roundtrip(PropertyType::NameProperty);
    law_property_type_name_roundtrip(PropertyType::TextProperty);
    law_property_type_name_roundtrip(PropertyType::DelegateProperty);
    law_property_type_name_roundtrip(PropertyType::MulticastDelegateProperty);
    law_property_type_name_roundtrip(PropertyType::MulticastInlineDelegateProperty);
    law_property_type_name_roundtrip(PropertyType::MulticastSparseDelegateProperty);
    law_property_type_name_roundtrip(PropertyType::SetProperty);
    law_property_type_name_roundtrip(PropertyType::MapProperty);
    law_property_type_name_roundtrip(PropertyType::StructProperty);
}

/// Every built-in struct type is stored under its own name and read back
/// from it; "Struct" stands for a struct of no named type, and any other
/// name for the user struct of that name.
pub proof fn law_struct_type_names(other: Seq<char>)
    ensures
        struct_type_name(SpecStructType::Guid) == "Guid"@,
        struct_type_from_name("Guid"@) == SpecStructType::Guid,
        struct_type_name(SpecStructType::DateTime) == "DateTime"@,
        struct_type_from_name("DateTime"@) == SpecStructType::DateTime,
        struct_type_name(SpecStructType::Timespan) == "Timespan"@,
        struct_type_from_name("Timespan"@) == SpecStructType::Timespan,
        struct_type_name(SpecStructType::Vector2D) == "Vector2D"@,
        struct_type_from_name("Vector2D"@) == SpecStructType::Vector2D,
        struct_type_name(SpecStructType::Vector) == "Vector"@,
        struct_type_from_name("Vector"@) == SpecStructType::Vector,
        struct_type_name(SpecStructType::Box) == "Box"@,
        struct_type_from_name("Box"@) == SpecStructType::Box,
        struct_type_name(SpecStructType::IntPoint) == "IntPoint"@,
        struct_type_from_name("IntPoint"@) == SpecStructType::IntPoint,
        struct_type_name(SpecStructType::Quat) == "Quat"@,
        struct_type_from_name("Quat"@) == SpecStructType::Quat,
        struct_type_name(SpecStructType::Rotator) == "Rotator"@,
        struct_type_from_name("Rotator"@) == SpecStructType::Rotator,
        struct_type_name(SpecStructType::LinearColor) == "LinearColor"@,
        struct_type_from_name("LinearColor"@) == SpecStructType::LinearColor,
        struct_type_name(SpecStructType::Color) == "Color"@,
        struct_type_from_name("Color"@) == SpecStructType::Color,
        struct_type_name(SpecStructType::SoftObjectPath) == "SoftObjectPath"@,
        struct_type_from_name("SoftObjectPath"@) == SpecStructType::SoftObjectPath,
        struct_type_name(SpecStructType::GameplayTagContainer) == "GameplayTagContainer"@,
        struct_type_from_name("GameplayTagContainer"@) == SpecStructType::GameplayTagContainer,
        struct_type_from_name("Struct"@) == SpecStructType::Struct(None),
        struct_type_name(SpecStructType::Struct(Some(other))) == other,
        (other != "Guid"@ && other != "DateTime"@ && other != "Timespan"@ && other != "Vector2D"@ && other != "Vector"@ && other != "Box"@ && other != "IntPoint"@ && other != "Quat"@ && other != "Rotator"@ && other != "LinearColor"@ && other != "Color"@ && other != "SoftObjectPath"@ && other != "GameplayTagContainer"@ && other != "Struct"@) ==> struct_type_from_name(other) == SpecStructType::Struct(Some(other)),
{
    law_struct_type_name_roundtrip(SpecStructType::Guid);
    law_struct_type_name_roundtrip(SpecStructType::DateTime);
    law_struct_type_name_roundtrip(SpecStructType::Timespan);
    law_struct_type_name_roundtrip(SpecStructType::Vector2D);
    law_struct_type_name_roundtrip(SpecStructType::Vector);
    law_struct_type_name_roundtrip(SpecStructType::Box);
    law_struct_type_name_roundtrip(SpecStructType::IntPoint);
    law_struct_type_name_roundtrip(SpecStructType::Quat);
    law_struct_type_name_roundtrip(SpecStructType::Rotator);
    law_struct_type_name_roundtrip(SpecStructType::LinearColor);
    law_struct_type_name_roundtrip(SpecStructType::Color);
    law_struct_type_name_roundtrip(SpecStructType::SoftObjectPath);
    law_struct_type_name_roundtrip(SpecStructType::GameplayTagContainer);
    reveal_strlit("Struct");
    reveal_strlit("Guid");
    reveal_strlit("DateTime");
    reveal_strlit("Timespan");
    reveal_strlit("Vector2D");
    reveal_strlit("Vector");
    reveal_strlit("Box");
    reveal_strlit("IntPoint");
    reveal_strlit("Quat");
    reveal_strlit("Rotator");
    reveal_strlit("LinearColor");
    reveal_strlit("Color");
    reveal_strlit("SoftObjectPath");
    reveal_strlit("GameplayTagContainer");
    assert("Guid"@.len() != "Struct"@.len());
    assert("DateTime"@.len() != "Struct"@.len());
    assert("Timespan"@.len() != "Struct"@.len());
    assert("Vector2D"@.len() != "Struct"@.len());
    assert("Vector"@[0] != "Struct"@[0]);
    assert("Box"@.len() != "Struct"@.len());
    assert("IntPoint"@.len() != "Struct"@.len());
    assert("Quat"@.len() != "Struct"@.len());
    assert("Rotator"@.len() != "Struct"@.len());
    assert("LinearColor"@.len() != "Struct"@.len());
    assert("Color"@.len() != "Struct"@.len());
    assert("SoftObjectPath"@.len() != "Struct"@.len());
    assert("GameplayTagContainer"@.len() != "Struct"@.len());
}

} // verus!
