use uesave::bytes::{read_guid, read_optional_guid, read_u16, read_u32, read_u64, write_guid, write_u64};
use uesave::model::{
    Box, Byte, ByteArray, CustomFormatData, Error, Guid, Header, PackageVersion, ParseError,
    Property, PropertyValue, Root, Save, StructValue, Text, TextVariant, ValueArray, ValueVec,
    Vector,
};
use uesave::read::read_text;
use uesave::read_props::{read_properties, read_value_vec, ReadContext};
use uesave::strings::{read_string, write_string, write_string_always_trailing};
use uesave::types::{PropertyType, StructType, Types};
use uesave::write::{write_properties, write_property, write_text};

fn string_bytes(s: &str) -> Vec<u8> {
    let mut out = Vec::new();
    write_string(&mut out, s);
    out
}

fn header(major: u16) -> Header {
    Header {
        magic: u32::from_le_bytes(*b"GVAS"),
        save_game_version: 2,
        package_version: PackageVersion::Old(522),
        engine_version_major: major,
        engine_version_minor: 27,
        engine_version_patch: 2,
        engine_version_build: 0,
        engine_version: "++UE4+Release-4.27".to_string(),
        custom_format_version: 3,
        custom_format: vec![CustomFormatData { id: Guid { bytes: [7; 16] }, value: 2 }],
    }
}

#[test]
fn write_string_empty_is_bare_zero_length() {
    assert_eq!(string_bytes(""), vec![0, 0, 0, 0]);
}

#[test]
fn write_string_ascii_counts_terminator() {
    assert_eq!(string_bytes("abc"), vec![4, 0, 0, 0, b'a', b'b', b'c', 0]);
}

#[test]
fn write_string_non_ascii_is_utf16_with_negative_length() {
    // "é" is one UTF-16 unit: length -(1 + 1) = -2.
    assert_eq!(string_bytes("é"), vec![0xfe, 0xff, 0xff, 0xff, 0xe9, 0, 0, 0]);
}

#[test]
fn write_string_always_trailing_writes_terminator_for_empty() {
    let mut out = Vec::new();
    write_string_always_trailing(&mut out, "");
    assert_eq!(out, vec![1, 0, 0, 0, 0]);
}

#[test]
fn read_string_stops_at_nul() {
    let data = [6u8, 0, 0, 0, b'a', b'b', 0, b'c', b'd', 0];
    assert_eq!(read_string(&data, 0), Ok(("ab".to_string(), 10)));
}

#[test]
fn read_string_utf16() {
    // -3 units: 'h', 'é', NUL
    let data = [0xfdu8, 0xff, 0xff, 0xff, b'h', 0, 0xe9, 0, 0, 0];
    assert_eq!(read_string(&data, 0), Ok(("hé".to_string(), 10)));
}

#[test]
fn read_string_lossy_utf8() {
    let data = [2u8, 0, 0, 0, 0xff, 0];
    assert_eq!(read_string(&data, 0), Ok(("\u{fffd}".to_string(), 6)));
}

#[test]
fn read_string_invalid_utf16_is_reported() {
    // a lone high surrogate
    let data = [0xfeu8, 0xff, 0xff, 0xff, 0x00, 0xd8, 0, 0];
    assert_eq!(
        read_string(&data, 0),
        Err(ParseError { offset: 8, error: Error::InvalidUtf16 })
    );
}

#[test]
fn read_string_truncated() {
    let data = [10u8, 0, 0, 0, b'a'];
    assert_eq!(read_string(&data, 0), Err(ParseError { offset: 5, error: Error::UnexpectedEof }));
}

#[test]
fn little_endian_readers() {
    let data = [1u8, 2, 3, 4, 5, 6, 7, 8];
    assert_eq!(read_u16(&data, 0), Ok((0x0201, 2)));
    assert_eq!(read_u32(&data, 0), Ok((0x0403_0201, 4)));
    assert_eq!(read_u64(&data, 0), Ok((0x0807_0605_0403_0201, 8)));
    let mut out = Vec::new();
    write_u64(&mut out, 0x0807_0605_0403_0201);
    assert_eq!(out, data.to_vec());
}

#[test]
fn guid_groups_are_stored_reversed() {
    let stored: Vec<u8> = (0u8..16).collect();
    let (g, end) = read_guid(&stored, 0).unwrap();
    assert_eq!(end, 16);
    assert_eq!(g.bytes, [3, 2, 1, 0, 7, 6, 5, 4, 11, 10, 9, 8, 15, 14, 13, 12]);
    let mut out = Vec::new();
    write_guid(&mut out, &g);
    assert_eq!(out, stored);
}

#[test]
fn optional_guid_flag() {
    assert_eq!(read_optional_guid(&[0u8], 0), Ok((None, 1)));
    let mut data = vec![1u8];
    data.extend(0u8..16);
    let (g, end) = read_optional_guid(&data, 0).unwrap();
    assert_eq!(end, 17);
    assert!(g.is_some());
}

#[test]
fn property_type_names_round_trip() {
    let all = [
        PropertyType::IntProperty,
        PropertyType::Int8Property,
        PropertyType::Int16Property,
        PropertyType::Int64Property,
        PropertyType::UInt8Property,
        PropertyType::UInt16Property,
        PropertyType::UInt32Property,
        PropertyType::UInt64Property,
        PropertyType::FloatProperty,
        PropertyType::DoubleProperty,
        PropertyType::BoolProperty,
        PropertyType::ByteProperty,
        PropertyType::EnumProperty,
        PropertyType::ArrayProperty,
        PropertyType::ObjectProperty,
        PropertyType::StrProperty,
        PropertyType::FieldPathProperty,
        PropertyType::SoftObjectProperty,
        PropertyType::NameProperty,
        PropertyType::TextProperty,
        PropertyType::DelegateProperty,
        PropertyType::MulticastDelegateProperty,
        PropertyType::MulticastInlineDelegateProperty,
        PropertyType::MulticastSparseDelegateProperty,
        PropertyType::SetProperty,
        PropertyType::MapProperty,
        PropertyType::StructProperty,
    ];
    for t in all {
        assert_eq!(PropertyType::from_name(t.get_name()), Some(t));
    }
    assert_eq!(PropertyType::get_name(&PropertyType::IntProperty), "IntProperty");
    assert_eq!(PropertyType::from_name("NoSuchProperty"), None);
}

#[test]
fn struct_type_from_name() {
    assert_eq!(StructType::from_name("Vector".to_string()), StructType::Vector);
    assert_eq!(StructType::from_name("Struct".to_string()), StructType::Struct(None));
    assert_eq!(
        StructType::from_name("MyStruct".to_string()),
        StructType::Struct(Some("MyStruct".to_string()))
    );
    assert_eq!(StructType::Struct(Some("MyStruct".to_string())).name(), "MyStruct");
    assert_eq!(StructType::GameplayTagContainer.name(), "GameplayTagContainer");
}

#[test]
fn types_add_then_get() {
    let mut types = Types::new();
    assert!(types.get(".A").is_none());
    types.add(".A".to_string(), StructType::Vector);
    types.add(".B".to_string(), StructType::Guid);
    assert_eq!(types.get(".A"), Some(&StructType::Vector));
    types.add(".A".to_string(), StructType::Quat);
    assert_eq!(types.get(".A"), Some(&StructType::Quat));
    assert_eq!(types.get(".B"), Some(&StructType::Guid));
    assert!(types.get(".C").is_none());
}

#[test]
fn large_world_coordinates_from_engine_version() {
    assert!(!header(4).large_world_coordinates());
    assert!(header(5).large_world_coordinates());
}

#[test]
fn string_property_size_is_value_length() {
    let mut out = Vec::new();
    write_property(&mut out, "Name", &Property::Str { id: None, value: "abc".to_string() }, false);
    let mut expected = string_bytes("Name");
    expected.extend(string_bytes("StrProperty"));
    expected.extend(8u64.to_le_bytes());
    expected.push(0);
    expected.extend(string_bytes("abc"));
    assert_eq!(out, expected);
}

#[test]
fn byte_label_property_size_is_label_length_plus_five() {
    let p = Property::Byte { id: None, value: Byte::Label("E::A".to_string()), enum_type: "E".to_string() };
    let mut out = Vec::new();
    write_property(&mut out, "B", &p, false);
    let mut expected = string_bytes("B");
    expected.extend(string_bytes("ByteProperty"));
    expected.extend(9u64.to_le_bytes());
    expected.extend(string_bytes("E"));
    expected.push(0);
    expected.extend(string_bytes("E::A"));
    assert_eq!(out, expected);
}

#[test]
fn bool_property_value_comes_before_guid_flag() {
    let mut out = Vec::new();
    write_property(&mut out, "F", &Property::Bool { id: None, value: true }, false);
    let mut expected = string_bytes("F");
    expected.extend(string_bytes("BoolProperty"));
    expected.extend(0u64.to_le_bytes());
    expected.extend([1u8, 0]);
    assert_eq!(out, expected);
}

#[test]
fn byte_vector_is_bytes_when_size_matches_count() {
    let types = Types::new();
    let ctx = ReadContext { lwc: false, types: &types };
    let _ = ctx;
    let data = [1u8, 2, 3];
    assert_eq!(
        read_value_vec(&data, 0, PropertyType::ByteProperty, 3, 3),
        Ok((ValueVec::Byte(ByteArray::Byte(vec![1, 2, 3])), 3))
    );
    let mut labels = string_bytes("A");
    labels.extend(string_bytes("B"));
    let n = labels.len() as u64;
    assert_eq!(
        read_value_vec(&labels, 0, PropertyType::ByteProperty, n, 2),
        Ok((ValueVec::Byte(ByteArray::Label(vec!["A".to_string(), "B".to_string()])), labels.len()))
    );
}

#[test]
fn unknown_vec_type_is_reported() {
    assert_eq!(
        read_value_vec(&[], 0, PropertyType::MapProperty, 0, 0),
        Err(ParseError { offset: 0, error: Error::UnknownVecType(PropertyType::MapProperty) })
    );
}

#[test]
fn duplicate_property_keeps_first_place_and_last_value() {
    let mut data = Vec::new();
    write_property(&mut data, "A", &Property::Int { id: None, value: 1 }, false);
    write_property(&mut data, "B", &Property::Int { id: None, value: 2 }, false);
    write_property(&mut data, "A", &Property::Int { id: None, value: 3 }, false);
    data.extend(string_bytes("None"));
    let types = Types::new();
    let ctx = ReadContext { lwc: false, types: &types };
    let (props, end) = read_properties(&data, 0, &ctx, "").unwrap();
    assert_eq!(end, data.len());
    assert_eq!(
        props,
        vec![
            ("A".to_string(), Property::Int { id: None, value: 3 }),
            ("B".to_string(), Property::Int { id: None, value: 2 }),
        ]
    );
}

#[test]
fn unknown_property_type_is_reported_after_its_name() {
    let mut data = string_bytes("A");
    data.extend(string_bytes("FooProperty"));
    let types = Types::new();
    let ctx = ReadContext { lwc: false, types: &types };
    let end = data.len();
    assert_eq!(
        read_properties(&data, 0, &ctx, ""),
        Err(ParseError { offset: end, error: Error::UnknownPropertyType("FooProperty".to_string()) })
    );
}

#[test]
fn unknown_text_history_is_reported() {
    let data = [0u8, 0, 0, 0, 5];
    assert_eq!(
        read_text(&data, 0),
        Err(ParseError { offset: 5, error: Error::UnknownTextHistory(5) })
    );
}

#[test]
fn unknown_format_argument_value_is_reported() {
    // flags, kind 4 (as number), value kind 9
    let data = [0u8, 0, 0, 0, 4, 9];
    assert_eq!(
        read_text(&data, 0),
        Err(ParseError { offset: 6, error: Error::UnknownFormatArgumentValue(9) })
    );
}

#[test]
fn unknown_format_argument_data_value_is_reported() {
    // flags, kind 3 (argument format), inner text: flags, kind 0xb, two empty
    // strings; one argument named "" with value kind 7
    let mut data = vec![0u8, 0, 0, 0, 3, 0, 0, 0, 0, 0xb, 0, 0, 0, 0, 0, 0, 0, 0];
    data.extend([1u8, 0, 0, 0]);
    data.extend([0u8, 0, 0, 0]);
    data.push(7);
    let end = data.len();
    assert_eq!(
        read_text(&data, 0),
        Err(ParseError { offset: end, error: Error::UnknownFormatArgumentDataValue(7) })
    );
}

#[test]
fn text_round_trip() {
    let t = Text {
        flags: 2,
        variant: TextVariant::Base {
            namespace: "".to_string(),
            key: "K".to_string(),
            source_string: "Hello".to_string(),
        },
    };
    let mut out = Vec::new();
    write_text(&mut out, &t);
    assert_eq!(read_text(&out, 0), Ok((t, out.len())));
}

#[test]
fn unsupported_map_value_type_is_reported() {
    let p = Property::MapOf {
        id: None,
        key_type: PropertyType::IntProperty,
        value_type: PropertyType::ArrayProperty,
        value: vec![],
    };
    let mut data = Vec::new();
    write_property(&mut data, "M", &p, false);
    // make the map claim one entry: the count follows the zero after the flag
    let count_at = data.len() - 4;
    data[count_at] = 1;
    data.extend(5i32.to_le_bytes());
    data.extend(string_bytes("None"));
    let types = Types::new();
    let ctx = ReadContext { lwc: false, types: &types };
    let at = count_at + 8;
    assert_eq!(
        read_properties(&data, 0, &ctx, ""),
        Err(ParseError { offset: at, error: Error::UnsupportedValueType(PropertyType::ArrayProperty) })
    );
}

fn sample_save(major: u16) -> Save {
    let vector = Vector { x: 0x3ff0_0000_0000_0000, y: 2, z: 3 };
    let vector = if major >= 5 { vector } else { Vector { x: 0x3f80_0000, y: 2, z: 3 } };
    let inner = vec![
        ("X".to_string(), Property::Int { id: None, value: -7 }),
        ("Where".to_string(), Property::Struct {
            id: None,
            value: StructValue::Vector(vector),
            struct_type: StructType::Vector,
            struct_id: Guid { bytes: [0; 16] },
        }),
    ];
    Save {
        header: header(major),
        root: Root {
            save_game_type: "/Script/Game.SaveGame".to_string(),
            properties: vec![
                ("Count".to_string(), Property::Int { id: None, value: 42 }),
                ("Title".to_string(), Property::Str { id: None, value: "Grüße".to_string() }),
                ("On".to_string(), Property::Bool { id: None, value: true }),
                ("Data".to_string(), Property::Struct {
                    id: None,
                    value: StructValue::Struct(inner),
                    struct_type: StructType::Struct(Some("MyData".to_string())),
                    struct_id: Guid { bytes: [9; 16] },
                }),
                ("Ints".to_string(), Property::Array {
                    array_type: PropertyType::IntProperty,
                    id: None,
                    value: ValueArray::Base(ValueVec::Int(vec![1, 2, 3])),
                }),
                ("Map".to_string(), Property::MapOf {
                    id: None,
                    key_type: PropertyType::StrProperty,
                    value_type: PropertyType::IntProperty,
                    value: vec![uesave::model::MapEntry {
                        key: PropertyValue::Str("k".to_string()),
                        value: PropertyValue::Int(1),
                    }],
                }),
            ],
        },
        extra: vec![0, 0, 0, 0],
    }
}

#[test]
fn save_round_trip() {
    for major in [4u16, 5] {
        let save = sample_save(major);
        let mut out = Vec::new();
        save.write(&mut out);
        let back = Save::read(&out).unwrap();
        assert_eq!(back, save);
    }
}

#[test]
fn save_truncated_reports_end_of_data() {
    let save = sample_save(4);
    let mut out = Vec::new();
    save.write(&mut out);
    out.truncate(out.len() - 10);
    let err = Save::read(&out).unwrap_err();
    assert_eq!(err, ParseError { offset: out.len(), error: Error::UnexpectedEof });
}

#[test]
fn set_of_structs_uses_registered_type() {
    let p = Property::SetOf {
        id: None,
        set_type: PropertyType::StructProperty,
        value: uesave::model::ValueSet::Struct(vec![StructValue::Vector(Vector { x: 1, y: 2, z: 3 })]),
    };
    let mut data = Vec::new();
    write_property(&mut data, "S", &p, false);
    data.extend(string_bytes("None"));
    let mut types = Types::new();
    types.add(".S".to_string(), StructType::Vector);
    let ctx = ReadContext { lwc: false, types: &types };
    let (props, _) = read_properties(&data, 0, &ctx, "").unwrap();
    assert_eq!(props, vec![("S".to_string(), p)]);
}

#[test]
fn box_reader_skips_a_trailing_byte() {
    let b = Box { a: Vector { x: 1, y: 2, z: 3 }, b: Vector { x: 4, y: 5, z: 6 } };
    let mut data = Vec::new();
    uesave::write::write_box(&mut data, &b, false);
    data.push(0xaa);
    assert_eq!(uesave::read::read_box(&data, 0, false), Ok((b, 25)));
}

#[test]
fn properties_end_with_none() {
    let mut out = Vec::new();
    write_properties(&mut out, &vec![], false);
    assert_eq!(out, string_bytes("None"));
}

#[test]
fn decode_with_types_reports_invalid_utf16() {
    let mut data = Vec::new();
    uesave::save::write_header(&mut data, &header(4));
    // the save game type: one UTF-16 unit that is a lone low surrogate
    data.extend([0xfeu8, 0xff, 0xff, 0xff, 0x00, 0xdc, 0, 0]);
    let end = data.len();
    let types = Types::new();
    assert_eq!(
        Save::decode_with_types(&data, &types),
        Err(ParseError { offset: end, error: Error::InvalidUtf16 })
    );
}

fn every_kind_of_property() -> Vec<(String, Property)> {
    let g = Some(Guid { bytes: [1, 2, 3, 4, 5, 6, 7, 8, 9, 10, 11, 12, 13, 14, 15, 16] });
    let text = Text {
        flags: 2,
        variant: TextVariant::Base {
            namespace: "ns".to_string(),
            key: "k".to_string(),
            source_string: "Hello".to_string(),
        },
    };
    let delegate = uesave::model::Delegate { name: "OnHit".to_string(), path: "/Game/A.A".to_string() };
    vec![
        ("I8".to_string(), Property::Int8 { id: None, value: -3 }),
        ("I16".to_string(), Property::Int16 { id: g, value: -300 }),
        ("I64".to_string(), Property::Int64 { id: None, value: -5_000_000_000 }),
        ("U8".to_string(), Property::UInt8 { id: None, value: 200 }),
        ("U16".to_string(), Property::UInt16 { id: None, value: 60000 }),
        ("U32".to_string(), Property::UInt32 { id: None, value: 4_000_000_000 }),
        ("U64".to_string(), Property::UInt64 { id: None, value: u64::MAX }),
        ("F".to_string(), Property::Float { id: None, value: 1.5f32.to_bits() }),
        ("D".to_string(), Property::Double { id: None, value: 2.25f64.to_bits() }),
        ("Off".to_string(), Property::Bool { id: g, value: false }),
        ("B".to_string(), Property::Byte { id: None, value: Byte::Byte(7), enum_type: "None".to_string() }),
        ("L".to_string(), Property::Byte {
            id: None,
            value: Byte::Label("EColor::Red".to_string()),
            enum_type: "EColor".to_string(),
        }),
        ("E".to_string(), Property::Enum {
            id: None,
            value: "EMode::Fast".to_string(),
            enum_type: "EMode".to_string(),
        }),
        ("N".to_string(), Property::Name { id: None, value: "Name".to_string() }),
        ("O".to_string(), Property::Object { id: None, value: "/Game/O.O".to_string() }),
        ("FP".to_string(), Property::FieldPath {
            id: None,
            value: uesave::model::FieldPath { path: vec!["a".to_string(), "b".to_string()], owner: "/O".to_string() },
        }),
        ("SO".to_string(), Property::SoftObject { id: None, value: "/A".to_string(), value2: "sub".to_string() }),
        ("T".to_string(), Property::Text { id: None, value: text }),
        ("Dg".to_string(), Property::Delegate { id: None, value: delegate.clone() }),
        ("MD".to_string(), Property::MulticastDelegate {
            id: None,
            value: uesave::model::MulticastDelegate(vec![delegate.clone(), delegate]),
        }),
        ("Set".to_string(), Property::SetOf {
            id: None,
            set_type: PropertyType::NameProperty,
            value: uesave::model::ValueSet::Base(ValueVec::Name(vec!["x".to_string(), "y".to_string()])),
        }),
        ("Labels".to_string(), Property::Array {
            array_type: PropertyType::ByteProperty,
            id: None,
            value: ValueArray::Base(ValueVec::Byte(ByteArray::Label(vec!["E::A".to_string()]))),
        }),
        ("Bytes".to_string(), Property::Array {
            array_type: PropertyType::ByteProperty,
            id: None,
            value: ValueArray::Base(ValueVec::Byte(ByteArray::Byte(vec![1, 2, 3]))),
        }),
        ("Points".to_string(), Property::Array {
            array_type: PropertyType::StructProperty,
            id: None,
            value: ValueArray::Struct {
                _type: "StructProperty".to_string(),
                name: "Points".to_string(),
                struct_type: StructType::IntPoint,
                id: Guid { bytes: [0; 16] },
                value: vec![
                    StructValue::IntPoint(uesave::model::IntPoint { x: 1, y: -1 }),
                    StructValue::IntPoint(uesave::model::IntPoint { x: 2, y: -2 }),
                ],
            },
        }),
        ("When".to_string(), Property::Struct {
            id: None,
            value: StructValue::DateTime(637_000_000_000_000_000),
            struct_type: StructType::DateTime,
            struct_id: Guid { bytes: [0; 16] },
        }),
        ("Tags".to_string(), Property::Struct {
            id: None,
            value: StructValue::GameplayTagContainer(uesave::model::GameplayTagContainer {
                gameplay_tags: vec![uesave::model::GameplayTag { name: "A.B".to_string() }],
            }),
            struct_type: StructType::GameplayTagContainer,
            struct_id: Guid { bytes: [0; 16] },
        }),
    ]
}

#[test]
fn save_round_trip_every_kind_of_property() {
    for major in [4u16, 5] {
        let mut save = sample_save(major);
        save.root.properties.extend(every_kind_of_property());
        let mut out = Vec::new();
        save.write(&mut out);
        let back = Save::read(&out).unwrap();
        assert_eq!(back, save);
    }
}
