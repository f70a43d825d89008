//! The data model of a GVAS save file, and its mathematical view.
//!
//! Every executable type has a `Spec*` counterpart in which strings are
//! `Seq<char>` and vectors are `Seq`; the contracts of the reader and the
//! writer are stated over these views.  Floating-point components are held
//! as their IEEE-754 bit patterns, exactly as they are stored in the file.
use vstd::prelude::*;

use crate::types::{PropertyType, SpecStructType, StructType};

verus! {

broadcast use vstd::std_specs::vec::group_vec_axioms;

/// A GUID, held as the 16 bytes of its canonical (RFC 4122) form.
#[derive(Debug, Clone, Copy, PartialEq, Eq)]
pub struct Guid {
    pub bytes: [u8; 16],
}

impl View for Guid {
    type V = Seq<u8>;

    open spec fn view(&self) -> Seq<u8> {
        self.bytes@
    }
}

/// Just a plain byte, or an enum in which case the variant will be a String
#[derive(Debug, Clone, PartialEq, Eq)]
pub enum Byte {
    Byte(u8),
    Label(String),
}

pub enum SpecByte {
    Byte(u8),
    Label(Seq<char>),
}

impl View for Byte {
    type V = SpecByte;

    open spec fn view(&self) -> SpecByte {
        match self {
            Byte::Byte(b) => SpecByte::Byte(*b),
            Byte::Label(s) => SpecByte::Label(s@),
        }
    }
}

/// Vectorized [`Byte`]
#[derive(Debug, Clone, PartialEq, Eq)]
pub enum ByteArray {
    Byte(Vec<u8>),
    Label(Vec<String>),
}

pub enum SpecByteArray {
    Byte(Seq<u8>),
    Label(Seq<Seq<char>>),
}

impl View for ByteArray {
    type V = SpecByteArray;

    open spec fn view(&self) -> SpecByteArray {
        match self {
            ByteArray::Byte(b) => SpecByteArray::Byte(b@),
            ByteArray::Label(l) => SpecByteArray::Label(l.deep_view()),
        }
    }
}

#[derive(Debug, Clone, PartialEq, Eq)]
pub struct FieldPath {
    pub path: Vec<String>,
    pub owner: String,
}

pub struct SpecFieldPath {
    pub path: Seq<Seq<char>>,
    pub owner: Seq<char>,
}

impl View for FieldPath {
    type V = SpecFieldPath;

    open spec fn view(&self) -> SpecFieldPath {
        SpecFieldPath { path: self.path.deep_view(), owner: self.owner@ }
    }
}

#[derive(Debug, Clone, PartialEq, Eq)]
pub struct Delegate {
    pub name: String,
    pub path: String,
}

pub struct SpecDelegate {
    pub name: Seq<char>,
    pub path: Seq<char>,
}

impl View for Delegate {
    type V = SpecDelegate;

    open spec fn view(&self) -> SpecDelegate {
        SpecDelegate { name: self.name@, path: self.path@ }
    }
}

pub open spec fn delegates_view(v: Seq<Delegate>) -> Seq<SpecDelegate> {
    v.map_values(|d: Delegate| d@)
}

#[derive(Debug, Clone, PartialEq, Eq)]
pub struct MulticastDelegate(pub Vec<Delegate>);

#[derive(Debug, Clone, PartialEq, Eq)]
pub struct MulticastInlineDelegate(pub Vec<Delegate>);

#[derive(Debug, Clone, PartialEq, Eq)]
pub struct MulticastSparseDelegate(pub Vec<Delegate>);

impl View for MulticastDelegate {
    type V = Seq<SpecDelegate>;

    open spec fn view(&self) -> Seq<SpecDelegate> {
        delegates_view(self.0@)
    }
}

impl View for MulticastInlineDelegate {
    type V = Seq<SpecDelegate>;

    open spec fn view(&self) -> Seq<SpecDelegate> {
        delegates_view(self.0@)
    }
}

impl View for MulticastSparseDelegate {
    type V = Seq<SpecDelegate>;

    open spec fn view(&self) -> Seq<SpecDelegate> {
        delegates_view(self.0@)
    }
}

/// Components are binary32 bit patterns.
#[derive(Debug, Clone, Copy, PartialEq, Eq)]
pub struct LinearColor {
    pub r: u32,
    pub g: u32,
    pub b: u32,
    pub a: u32,
}

/// Components are the bit patterns as stored: binary64 when the save uses
/// large world coordinates, otherwise binary32 in the low 32 bits.
#[derive(Debug, Clone, Copy, PartialEq, Eq)]
pub struct Quat {
    pub x: u64,
    pub y: u64,
    pub z: u64,
    pub w: u64,
}

/// Components are stored as for [`Quat`].
#[derive(Debug, Clone, Copy, PartialEq, Eq)]
pub struct Rotator {
    pub x: u64,
    pub y: u64,
    pub z: u64,
}

#[derive(Debug, Clone, Copy, PartialEq, Eq)]
pub struct Color {
    pub r: u8,
    pub g: u8,
    pub b: u8,
    pub a: u8,
}

/// Components are stored as for [`Quat`].
#[derive(Debug, Clone, Copy, PartialEq, Eq)]
pub struct Vector {
    pub x: u64,
    pub y: u64,
    pub z: u64,
}

/// Components are binary32 bit patterns.
#[derive(Debug, Clone, Copy, PartialEq, Eq)]
pub struct Vector2D {
    pub x: u32,
    pub y: u32,
}

#[derive(Debug, Clone, Copy, PartialEq, Eq)]
pub struct Box {
    pub a: Vector,
    pub b: Vector,
}

#[derive(Debug, Clone, Copy, PartialEq, Eq)]
pub struct IntPoint {
    pub x: i32,
    pub y: i32,
}

impl View for LinearColor {
    type V = LinearColor;

    open spec fn view(&self) -> LinearColor {
        *self
    }
}

impl View for Quat {
    type V = Quat;

    open spec fn view(&self) -> Quat {
        *self
    }
}

impl View for Rotator {
    type V = Rotator;

    open spec fn view(&self) -> Rotator {
        *self
    }
}

impl View for Color {
    type V = Color;

    open spec fn view(&self) -> Color {
        *self
    }
}

impl View for Vector {
    type V = Vector;

    open spec fn view(&self) -> Vector {
        *self
    }
}

impl View for Vector2D {
    type V = Vector2D;

    open spec fn view(&self) -> Vector2D {
        *self
    }
}

impl View for Box {
    type V = Box;

    open spec fn view(&self) -> Box {
        *self
    }
}

impl View for IntPoint {
    type V = IntPoint;

    open spec fn view(&self) -> IntPoint {
        *self
    }
}

#[derive(Debug, Clone, PartialEq, Eq)]
pub struct GameplayTag {
    pub name: String,
}

#[derive(Debug, Clone, PartialEq, Eq)]
pub struct GameplayTagContainer {
    pub gameplay_tags: Vec<GameplayTag>,
}

impl View for GameplayTag {
    type V = Seq<char>;

    open spec fn view(&self) -> Seq<char> {
        self.name@
    }
}

impl View for GameplayTagContainer {
    type V = Seq<Seq<char>>;

    open spec fn view(&self) -> Seq<Seq<char>> {
        self.gameplay_tags@.map_values(|t: GameplayTag| t@)
    }
}

#[derive(Debug, Clone, Copy, PartialEq, Eq)]
pub struct FNumberFormattingOptions {
    pub always_sign: bool,
    pub use_grouping: bool,
    pub rounding_mode: i8,
    pub minimum_integral_digits: i32,
    pub maximum_integral_digits: i32,
    pub minimum_fractional_digits: i32,
    pub maximum_fractional_digits: i32,
}

impl View for FNumberFormattingOptions {
    type V = FNumberFormattingOptions;

    open spec fn view(&self) -> FNumberFormattingOptions {
        *self
    }
}

/// Serializes its integers with 32 bits; floats are held as bit patterns.
#[derive(Debug, PartialEq, Eq)]
pub enum FFormatArgumentDataValue {
    Int(i32),
    UInt(u32),
    Float(u32),
    Double(u64),
    Text(std::boxed::Box<Text>),
    Gender(u64),
}

/// Serializes its integers with 64 bits; floats are held as bit patterns.
#[derive(Debug, PartialEq, Eq)]
pub enum FFormatArgumentValue {
    Int(i64),
    UInt(u64),
    Float(u32),
    Double(u64),
    Text(std::boxed::Box<Text>),
    Gender(u64),
}

#[derive(Debug, PartialEq, Eq)]
pub struct FFormatArgumentData {
    pub name: String,
    pub value: FFormatArgumentDataValue,
}

#[derive(Debug, PartialEq, Eq)]
pub struct Text {
    pub flags: u32,
    pub variant: TextVariant,
}

#[derive(Debug, PartialEq, Eq)]
pub enum TextVariant {
    NoHistory { culture_invariant: Option<String> },
    Base { namespace: String, key: String, source_string: String },
    ArgumentFormat { format_text: std::boxed::Box<Text>, arguments: Vec<FFormatArgumentData> },
    AsNumber {
        source_value: FFormatArgumentValue,
        format_options: Option<FNumberFormattingOptions>,
        culture_name: String,
    },
    AsDate { source_date_time: u64, date_style: i8, time_zone: String, culture_name: String },
    StringTableEntry { table: String, key: String },
}

/// The argument value of a format argument; `wide` tells which of the two
/// serialized forms it came from (64-bit integers when `wide`).
pub enum SpecFormatValue {
    Int(int),
    UInt(int),
    Float(u32),
    Double(u64),
    Text(std::boxed::Box<SpecText>),
    Gender(u64),
}

pub struct SpecFormatArgument {
    pub name: Seq<char>,
    pub value: SpecFormatValue,
}

pub struct SpecText {
    pub flags: u32,
    pub variant: SpecTextVariant,
}

pub enum SpecTextVariant {
    NoHistory { culture_invariant: Option<Seq<char>> },
    Base { namespace: Seq<char>, key: Seq<char>, source_string: Seq<char> },
    ArgumentFormat { format_text: std::boxed::Box<SpecText>, arguments: Seq<SpecFormatArgument> },
    AsNumber {
        source_value: SpecFormatValue,
        format_options: Option<FNumberFormattingOptions>,
        culture_name: Seq<char>,
    },
    AsDate {
        source_date_time: u64,
        date_style: i8,
        time_zone: Seq<char>,
        culture_name: Seq<char>,
    },
    StringTableEntry { table: Seq<char>, key: Seq<char> },
}

pub open spec fn opt_str_view(o: Option<String>) -> Option<Seq<char>> {
    match o {
        Some(s) => Some(s@),
        None => None,
    }
}

pub open spec fn format_data_value_view(v: FFormatArgumentDataValue) -> SpecFormatValue
    decreases v,
{
    match v {
        FFormatArgumentDataValue::Int(x) => SpecFormatValue::Int(x as int),
        FFormatArgumentDataValue::UInt(x) => SpecFormatValue::UInt(x as int),
        FFormatArgumentDataValue::Float(x) => SpecFormatValue::Float(x),
        FFormatArgumentDataValue::Double(x) => SpecFormatValue::Double(x),
        FFormatArgumentDataValue::Text(t) => SpecFormatValue::Text(std::boxed::Box::new(text_view(*t))),
        FFormatArgumentDataValue::Gender(x) => SpecFormatValue::Gender(x),
    }
}

pub open spec fn format_value_view(v: FFormatArgumentValue) -> SpecFormatValue
    decreases v,
{
    match v {
        FFormatArgumentValue::Int(x) => SpecFormatValue::Int(x as int),
        FFormatArgumentValue::UInt(x) => SpecFormatValue::UInt(x as int),
        FFormatArgumentValue::Float(x) => SpecFormatValue::Float(x),
        FFormatArgumentValue::Double(x) => SpecFormatValue::Double(x),
        FFormatArgumentValue::Text(t) => SpecFormatValue::Text(std::boxed::Box::new(text_view(*t))),
        FFormatArgumentValue::Gender(x) => SpecFormatValue::Gender(x),
    }
}

pub open spec fn format_arguments_view(a: Vec<FFormatArgumentData>) -> Seq<SpecFormatArgument>
    decreases a,
{
    Seq::new(
        a.len() as nat,
        |i: int|
            if 0 <= i < a.len() {
                SpecFormatArgument { name: a[i].name@, value: format_data_value_view(a[i].value) }
            } else {
                SpecFormatArgument { name: Seq::empty(), value: SpecFormatValue::Gender(0) }
            },
    )
}

pub open spec fn text_variant_view(v: TextVariant) -> SpecTextVariant
    decreases v,
{
    match v {
        TextVariant::NoHistory { culture_invariant } => SpecTextVariant::NoHistory {
            culture_invariant: opt_str_view(culture_invariant),
        },
        TextVariant::Base { namespace, key, source_string } => SpecTextVariant::Base {
            namespace: namespace@,
            key: key@,
            source_string: source_string@,
        },
        TextVariant::ArgumentFormat { format_text, arguments } => SpecTextVariant::ArgumentFormat {
            format_text: std::boxed::Box::new(text_view(*format_text)),
            arguments: format_arguments_view(arguments),
        },
        TextVariant::AsNumber { source_value, format_options, culture_name } => {
            SpecTextVariant::AsNumber {
                source_value: format_value_view(source_value),
                format_options: format_options,
                culture_name: culture_name@,
            }
        },
        TextVariant::AsDate { source_date_time, date_style, time_zone, culture_name } => {
            SpecTextVariant::AsDate {
                source_date_time: source_date_time,
                date_style: date_style,
                time_zone: time_zone@,
                culture_name: culture_name@,
            }
        },
        TextVariant::StringTableEntry { table, key } => SpecTextVariant::StringTableEntry {
            table: table@,
            key: key@,
        },
    }
}

pub open spec fn text_view(t: Text) -> SpecText
    decreases t,
{
    SpecText { flags: t.flags, variant: text_variant_view(t.variant) }
}

impl View for TextVariant {
    type V = SpecTextVariant;

    open spec fn view(&self) -> SpecTextVariant {
        text_variant_view(*self)
    }
}

impl View for Text {
    type V = SpecText;

    open spec fn view(&self) -> SpecText {
        text_view(*self)
    }
}

impl View for FFormatArgumentValue {
    type V = SpecFormatValue;

    open spec fn view(&self) -> SpecFormatValue {
        format_value_view(*self)
    }
}

impl View for FFormatArgumentDataValue {
    type V = SpecFormatValue;

    open spec fn view(&self) -> SpecFormatValue {
        format_data_value_view(*self)
    }
}

impl View for FFormatArgumentData {
    type V = SpecFormatArgument;

    open spec fn view(&self) -> SpecFormatArgument {
        SpecFormatArgument { name: self.name@, value: format_data_value_view(self.value) }
    }
}

/// An optional GUID as a byte sequence.
pub open spec fn opt_guid_view(o: Option<Guid>) -> Option<Seq<u8>> {
    match o {
        Some(g) => Some(g@),
        None => None,
    }
}

#[derive(Debug, PartialEq, Eq)]
pub enum PropertyValue {
    Int(i32),
    Int8(i8),
    Int16(i16),
    Int64(i64),
    UInt16(u16),
    UInt32(u32),
    Float(u32),
    Double(u64),
    Bool(bool),
    Byte(Byte),
    Enum(String),
    Name(String),
    Str(String),
    SoftObject(String, String),
    SoftObjectPath(String, String),
    Object(String),
    Struct(StructValue),
}

#[derive(Debug, PartialEq, Eq)]
pub enum StructValue {
    Guid(Guid),
    DateTime(u64),
    Timespan(i64),
    Vector2D(Vector2D),
    Vector(Vector),
    Box(Box),
    IntPoint(IntPoint),
    Quat(Quat),
    LinearColor(LinearColor),
    Color(Color),
    Rotator(Rotator),
    SoftObjectPath(String, String),
    GameplayTagContainer(GameplayTagContainer),
    /// User defined struct which is simply a list of properties
    Struct(Properties),
}

/// The properties of a struct or of the root, in the order in which they
/// are stored; a name occurs at most once.
pub type Properties = Vec<(String, Property)>;

/// Vectorized properties to avoid storing the variant with each value
#[derive(Debug, PartialEq, Eq)]
pub enum ValueVec {
    Int8(Vec<i8>),
    Int16(Vec<i16>),
    Int(Vec<i32>),
    Int64(Vec<i64>),
    UInt8(Vec<u8>),
    UInt16(Vec<u16>),
    UInt32(Vec<u32>),
    UInt64(Vec<u64>),
    Float(Vec<u32>),
    Double(Vec<u64>),
    Bool(Vec<bool>),
    Byte(ByteArray),
    Enum(Vec<String>),
    Str(Vec<String>),
    Text(Vec<Text>),
    SoftObject(Vec<(String, String)>),
    Name(Vec<String>),
    Object(Vec<String>),
    Box(Vec<Box>),
}

/// Encapsulates [`ValueVec`] with a special handling of structs. See also: [`ValueSet`]
#[derive(Debug, PartialEq, Eq)]
pub enum ValueArray {
    Base(ValueVec),
    Struct {
        _type: String,
        name: String,
        struct_type: StructType,
        id: Guid,
        value: Vec<StructValue>,
    },
}

/// Encapsulates [`ValueVec`] with a special handling of structs. See also: [`ValueArray`]
#[derive(Debug, PartialEq, Eq)]
pub enum ValueSet {
    Base(ValueVec),
    Struct(Vec<StructValue>),
}

#[derive(Debug, PartialEq, Eq)]
pub struct MapEntry {
    pub key: PropertyValue,
    pub value: PropertyValue,
}

/// Properties consist of an ID and a value and are present in [`Root`] and [`StructValue::Struct`]
#[derive(Debug, PartialEq, Eq)]
pub enum Property {
    Int8 { id: Option<Guid>, value: i8 },
    Int16 { id: Option<Guid>, value: i16 },
    Int { id: Option<Guid>, value: i32 },
    Int64 { id: Option<Guid>, value: i64 },
    UInt8 { id: Option<Guid>, value: u8 },
    UInt16 { id: Option<Guid>, value: u16 },
    UInt32 { id: Option<Guid>, value: u32 },
    UInt64 { id: Option<Guid>, value: u64 },
    Float { id: Option<Guid>, value: u32 },
    Double { id: Option<Guid>, value: u64 },
    Bool { id: Option<Guid>, value: bool },
    Byte { id: Option<Guid>, value: Byte, enum_type: String },
    Enum { id: Option<Guid>, value: String, enum_type: String },
    Str { id: Option<Guid>, value: String },
    FieldPath { id: Option<Guid>, value: FieldPath },
    SoftObject { id: Option<Guid>, value: String, value2: String },
    Name { id: Option<Guid>, value: String },
    Object { id: Option<Guid>, value: String },
    Text { id: Option<Guid>, value: Text },
    Delegate { id: Option<Guid>, value: Delegate },
    MulticastDelegate { id: Option<Guid>, value: MulticastDelegate },
    MulticastInlineDelegate { id: Option<Guid>, value: MulticastInlineDelegate },
    MulticastSparseDelegate { id: Option<Guid>, value: MulticastSparseDelegate },
    SetOf { id: Option<Guid>, set_type: PropertyType, value: ValueSet },
    MapOf { id: Option<Guid>, key_type: PropertyType, value_type: PropertyType, value: Vec<MapEntry> },
    Struct { id: Option<Guid>, value: StructValue, struct_type: StructType, struct_id: Guid },
    RawData { id: Option<Guid>, properties: Properties, struct_id: Guid },
    Array { array_type: PropertyType, id: Option<Guid>, value: ValueArray },
}

pub enum SpecPropertyValue {
    Int(i32),
    Int8(i8),
    Int16(i16),
    Int64(i64),
    UInt16(u16),
    UInt32(u32),
    Float(u32),
    Double(u64),
    Bool(bool),
    Byte(SpecByte),
    Enum(Seq<char>),
    Name(Seq<char>),
    Str(Seq<char>),
    SoftObject(Seq<char>, Seq<char>),
    SoftObjectPath(Seq<char>, Seq<char>),
    Object(Seq<char>),
    Struct(SpecStructValue),
}

pub enum SpecStructValue {
    Guid(Seq<u8>),
    DateTime(u64),
    Timespan(i64),
    Vector2D(Vector2D),
    Vector(Vector),
    Box(Box),
    IntPoint(IntPoint),
    Quat(Quat),
    LinearColor(LinearColor),
    Color(Color),
    Rotator(Rotator),
    SoftObjectPath(Seq<char>, Seq<char>),
    GameplayTagContainer(Seq<Seq<char>>),
    Struct(Seq<(Seq<char>, SpecProperty)>),
}

pub enum SpecValueVec {
    Int8(Seq<i8>),
    Int16(Seq<i16>),
    Int(Seq<i32>),
    Int64(Seq<i64>),
    UInt8(Seq<u8>),
    UInt16(Seq<u16>),
    UInt32(Seq<u32>),
    UInt64(Seq<u64>),
    Float(Seq<u32>),
    Double(Seq<u64>),
    Bool(Seq<bool>),
    Byte(SpecByteArray),
    Enum(Seq<Seq<char>>),
    Str(Seq<Seq<char>>),
    Text(Seq<SpecText>),
    SoftObject(Seq<(Seq<char>, Seq<char>)>),
    Name(Seq<Seq<char>>),
    Object(Seq<Seq<char>>),
    Box(Seq<Box>),
}

pub enum SpecValueArray {
    Base(SpecValueVec),
    Struct {
        element_type: Seq<char>,
        name: Seq<char>,
        struct_type: SpecStructType,
        id: Seq<u8>,
        value: Seq<SpecStructValue>,
    },
}

pub enum SpecValueSet {
    Base(SpecValueVec),
    Struct(Seq<SpecStructValue>),
}

pub struct SpecMapEntry {
    pub key: SpecPropertyValue,
    pub value: SpecPropertyValue,
}

pub enum SpecProperty {
    Int8 { id: Option<Seq<u8>>, value: i8 },
    Int16 { id: Option<Seq<u8>>, value: i16 },
    Int { id: Option<Seq<u8>>, value: i32 },
    Int64 { id: Option<Seq<u8>>, value: i64 },
    UInt8 { id: Option<Seq<u8>>, value: u8 },
    UInt16 { id: Option<Seq<u8>>, value: u16 },
    UInt32 { id: Option<Seq<u8>>, value: u32 },
    UInt64 { id: Option<Seq<u8>>, value: u64 },
    Float { id: Option<Seq<u8>>, value: u32 },
    Double { id: Option<Seq<u8>>, value: u64 },
    Bool { id: Option<Seq<u8>>, value: bool },
    Byte { id: Option<Seq<u8>>, value: SpecByte, enum_type: Seq<char> },
    Enum { id: Option<Seq<u8>>, value: Seq<char>, enum_type: Seq<char> },
    Str { id: Option<Seq<u8>>, value: Seq<char> },
    FieldPath { id: Option<Seq<u8>>, value: SpecFieldPath },
    SoftObject { id: Option<Seq<u8>>, value: Seq<char>, value2: Seq<char> },
    Name { id: Option<Seq<u8>>, value: Seq<char> },
    Object { id: Option<Seq<u8>>, value: Seq<char> },
    Text { id: Option<Seq<u8>>, value: SpecText },
    Delegate { id: Option<Seq<u8>>, value: SpecDelegate },
    MulticastDelegate { id: Option<Seq<u8>>, value: Seq<SpecDelegate> },
    MulticastInlineDelegate { id: Option<Seq<u8>>, value: Seq<SpecDelegate> },
    MulticastSparseDelegate { id: Option<Seq<u8>>, value: Seq<SpecDelegate> },
    SetOf { id: Option<Seq<u8>>, set_type: PropertyType, value: SpecValueSet },
    MapOf {
        id: Option<Seq<u8>>,
        key_type: PropertyType,
        value_type: PropertyType,
        value: Seq<SpecMapEntry>,
    },
    Struct { id: Option<Seq<u8>>, value: SpecStructValue, struct_type: SpecStructType, struct_id: Seq<u8> },
    RawData { id: Option<Seq<u8>>, properties: Seq<(Seq<char>, SpecProperty)>, struct_id: Seq<u8> },
    Array { array_type: PropertyType, id: Option<Seq<u8>>, value: SpecValueArray },
}

pub open spec fn pairs_view(v: Seq<(String, String)>) -> Seq<(Seq<char>, Seq<char>)> {
    v.map_values(|p: (String, String)| (p.0@, p.1@))
}

pub open spec fn value_vec_view(v: ValueVec) -> SpecValueVec {
    match v {
        ValueVec::Int8(x) => SpecValueVec::Int8(x@),
        ValueVec::Int16(x) => SpecValueVec::Int16(x@),
        ValueVec::Int(x) => SpecValueVec::Int(x@),
        ValueVec::Int64(x) => SpecValueVec::Int64(x@),
        ValueVec::UInt8(x) => SpecValueVec::UInt8(x@),
        ValueVec::UInt16(x) => SpecValueVec::UInt16(x@),
        ValueVec::UInt32(x) => SpecValueVec::UInt32(x@),
        ValueVec::UInt64(x) => SpecValueVec::UInt64(x@),
        ValueVec::Float(x) => SpecValueVec::Float(x@),
        ValueVec::Double(x) => SpecValueVec::Double(x@),
        ValueVec::Bool(x) => SpecValueVec::Bool(x@),
        ValueVec::Byte(x) => SpecValueVec::Byte(x@),
        ValueVec::Enum(x) => SpecValueVec::Enum(x.deep_view()),
        ValueVec::Str(x) => SpecValueVec::Str(x.deep_view()),
        ValueVec::Text(x) => SpecValueVec::Text(x@.map_values(|t: Text| t@)),
        ValueVec::SoftObject(x) => SpecValueVec::SoftObject(pairs_view(x@)),
        ValueVec::Name(x) => SpecValueVec::Name(x.deep_view()),
        ValueVec::Object(x) => SpecValueVec::Object(x.deep_view()),
        ValueVec::Box(x) => SpecValueVec::Box(x@),
    }
}

impl View for ValueVec {
    type V = SpecValueVec;

    open spec fn view(&self) -> SpecValueVec {
        value_vec_view(*self)
    }
}

pub open spec fn default_struct_value() -> SpecStructValue {
    SpecStructValue::DateTime(0)
}

pub open spec fn struct_value_view(v: StructValue) -> SpecStructValue
    decreases v,
{
    match v {
        StructValue::Guid(g) => SpecStructValue::Guid(g@),
        StructValue::DateTime(x) => SpecStructValue::DateTime(x),
        StructValue::Timespan(x) => SpecStructValue::Timespan(x),
        StructValue::Vector2D(x) => SpecStructValue::Vector2D(x),
        StructValue::Vector(x) => SpecStructValue::Vector(x),
        StructValue::Box(x) => SpecStructValue::Box(x),
        StructValue::IntPoint(x) => SpecStructValue::IntPoint(x),
        StructValue::Quat(x) => SpecStructValue::Quat(x),
        StructValue::LinearColor(x) => SpecStructValue::LinearColor(x),
        StructValue::Color(x) => SpecStructValue::Color(x),
        StructValue::Rotator(x) => SpecStructValue::Rotator(x),
        StructValue::SoftObjectPath(a, b) => SpecStructValue::SoftObjectPath(a@, b@),
        StructValue::GameplayTagContainer(c) => SpecStructValue::GameplayTagContainer(c@),
        StructValue::Struct(props) => SpecStructValue::Struct(properties_view(props)),
    }
}

pub open spec fn property_value_view(v: PropertyValue) -> SpecPropertyValue
    decreases v,
{
    match v {
        PropertyValue::Int(x) => SpecPropertyValue::Int(x),
        PropertyValue::Int8(x) => SpecPropertyValue::Int8(x),
        PropertyValue::Int16(x) => SpecPropertyValue::Int16(x),
        PropertyValue::Int64(x) => SpecPropertyValue::Int64(x),
        PropertyValue::UInt16(x) => SpecPropertyValue::UInt16(x),
        PropertyValue::UInt32(x) => SpecPropertyValue::UInt32(x),
        PropertyValue::Float(x) => SpecPropertyValue::Float(x),
        PropertyValue::Double(x) => SpecPropertyValue::Double(x),
        PropertyValue::Bool(x) => SpecPropertyValue::Bool(x),
        PropertyValue::Byte(x) => SpecPropertyValue::Byte(x@),
        PropertyValue::Enum(x) => SpecPropertyValue::Enum(x@),
        PropertyValue::Name(x) => SpecPropertyValue::Name(x@),
        PropertyValue::Str(x) => SpecPropertyValue::Str(x@),
        PropertyValue::SoftObject(a, b) => SpecPropertyValue::SoftObject(a@, b@),
        PropertyValue::SoftObjectPath(a, b) => SpecPropertyValue::SoftObjectPath(a@, b@),
        PropertyValue::Object(x) => SpecPropertyValue::Object(x@),
        PropertyValue::Struct(x) => SpecPropertyValue::Struct(struct_value_view(x)),
    }
}

pub open spec fn struct_values_view(v: Vec<StructValue>) -> Seq<SpecStructValue>
    decreases v,
{
    Seq::new(
        v.len() as nat,
        |i: int| if 0 <= i < v.len() { struct_value_view(v[i]) } else { default_struct_value() },
    )
}

/// The view of a list of named properties.
pub open spec fn properties_view(props: Properties) -> Seq<(Seq<char>, SpecProperty)>
    decreases props,
{
    Seq::new(
        props.len() as nat,
        |i: int|
            if 0 <= i < props.len() {
                (props[i].0@, property_view(props[i].1))
            } else {
                (Seq::empty(), SpecProperty::Bool { id: None, value: false })
            },
    )
}

pub open spec fn map_entries_view(v: Vec<MapEntry>) -> Seq<SpecMapEntry>
    decreases v,
{
    Seq::new(
        v.len() as nat,
        |i: int|
            if 0 <= i < v.len() {
                SpecMapEntry { key: property_value_view(v[i].key), value: property_value_view(v[i].value) }
            } else {
                SpecMapEntry { key: SpecPropertyValue::Bool(false), value: SpecPropertyValue::Bool(false) }
            },
    )
}

pub open spec fn value_set_view(v: ValueSet) -> SpecValueSet
    decreases v,
{
    match v {
        ValueSet::Base(b) => SpecValueSet::Base(b@),
        ValueSet::Struct(vs) => SpecValueSet::Struct(struct_values_view(vs)),
    }
}

pub open spec fn value_array_view(v: ValueArray) -> SpecValueArray
    decreases v,
{
    match v {
        ValueArray::Base(b) => SpecValueArray::Base(b@),
        ValueArray::Struct { _type, name, struct_type, id, value } => SpecValueArray::Struct {
            element_type: _type@,
            name: name@,
            struct_type: struct_type@,
            id: id@,
            value: struct_values_view(value),
        },
    }
}

pub open spec fn property_view(p: Property) -> SpecProperty
    decreases p,
{
    match p {
        Property::Int8 { id, value } => SpecProperty::Int8 { id: opt_guid_view(id), value },
        Property::Int16 { id, value } => SpecProperty::Int16 { id: opt_guid_view(id), value },
        Property::Int { id, value } => SpecProperty::Int { id: opt_guid_view(id), value },
        Property::Int64 { id, value } => SpecProperty::Int64 { id: opt_guid_view(id), value },
        Property::UInt8 { id, value } => SpecProperty::UInt8 { id: opt_guid_view(id), value },
        Property::UInt16 { id, value } => SpecProperty::UInt16 { id: opt_guid_view(id), value },
        Property::UInt32 { id, value } => SpecProperty::UInt32 { id: opt_guid_view(id), value },
        Property::UInt64 { id, value } => SpecProperty::UInt64 { id: opt_guid_view(id), value },
        Property::Float { id, value } => SpecProperty::Float { id: opt_guid_view(id), value },
        Property::Double { id, value } => SpecProperty::Double { id: opt_guid_view(id), value },
        Property::Bool { id, value } => SpecProperty::Bool { id: opt_guid_view(id), value },
        Property::Byte { id, value, enum_type } => SpecProperty::Byte {
            id: opt_guid_view(id),
            value: value@,
            enum_type: enum_type@,
        },
        Property::Enum { id, value, enum_type } => SpecProperty::Enum {
            id: opt_guid_view(id),
            value: value@,
            enum_type: enum_type@,
        },
        Property::Str { id, value } => SpecProperty::Str { id: opt_guid_view(id), value: value@ },
        Property::FieldPath { id, value } => SpecProperty::FieldPath {
            id: opt_guid_view(id),
            value: value@,
        },
        Property::SoftObject { id, value, value2 } => SpecProperty::SoftObject {
            id: opt_guid_view(id),
            value: value@,
            value2: value2@,
        },
        Property::Name { id, value } => SpecProperty::Name { id: opt_guid_view(id), value: value@ },
        Property::Object { id, value } => SpecProperty::Object { id: opt_guid_view(id), value: value@ },
        Property::Text { id, value } => SpecProperty::Text { id: opt_guid_view(id), value: value@ },
        Property::Delegate { id, value } => SpecProperty::Delegate {
            id: opt_guid_view(id),
            value: value@,
        },
        Property::MulticastDelegate { id, value } => SpecProperty::MulticastDelegate {
            id: opt_guid_view(id),
            value: value@,
        },
        Property::MulticastInlineDelegate { id, value } => SpecProperty::MulticastInlineDelegate {
            id: opt_guid_view(id),
            value: value@,
        },
        Property::MulticastSparseDelegate { id, value } => SpecProperty::MulticastSparseDelegate {
            id: opt_guid_view(id),
            value: value@,
        },
        Property::SetOf { id, set_type, value } => SpecProperty::SetOf {
            id: opt_guid_view(id),
            set_type,
            value: value_set_view(value),
        },
        Property::MapOf { id, key_type, value_type, value } => SpecProperty::MapOf {
            id: opt_guid_view(id),
            key_type,
            value_type,
            value: map_entries_view(value),
        },
        Property::Struct { id, value, struct_type, struct_id } => SpecProperty::Struct {
            id: opt_guid_view(id),
            value: struct_value_view(value),
            struct_type: struct_type@,
            struct_id: struct_id@,
        },
        Property::RawData { id, properties, struct_id } => SpecProperty::RawData {
            id: opt_guid_view(id),
            properties: properties_view(properties),
            struct_id: struct_id@,
        },
        Property::Array { array_type, id, value } => SpecProperty::Array {
            array_type,
            id: opt_guid_view(id),
            value: value_array_view(value),
        },
    }
}

impl View for Property {
    type V = SpecProperty;

    open spec fn view(&self) -> SpecProperty {
        property_view(*self)
    }
}

impl View for StructValue {
    type V = SpecStructValue;

    open spec fn view(&self) -> SpecStructValue {
        struct_value_view(*self)
    }
}

impl View for ValueSet {
    type V = SpecValueSet;

    open spec fn view(&self) -> SpecValueSet {
        value_set_view(*self)
    }
}

impl View for ValueArray {
    type V = SpecValueArray;

    open spec fn view(&self) -> SpecValueArray {
        value_array_view(*self)
    }
}

impl View for PropertyValue {
    type V = SpecPropertyValue;

    open spec fn view(&self) -> SpecPropertyValue {
        property_value_view(*self)
    }
}


#[derive(Debug, Clone, Copy, PartialEq, Eq)]
pub struct CustomFormatData {
    pub id: Guid,
    pub value: i32,
}

impl View for CustomFormatData {
    type V = (Seq<u8>, i32);

    open spec fn view(&self) -> (Seq<u8>, i32) {
        (self.id@, self.value)
    }
}

#[derive(Debug, Clone, Copy, PartialEq, Eq)]
pub enum PackageVersion {
    Old(u32),
    New(u32, u32),
}

impl View for PackageVersion {
    type V = PackageVersion;

    open spec fn view(&self) -> PackageVersion {
        *self
    }
}

#[derive(Debug, Clone, PartialEq, Eq)]
pub struct Header {
    pub magic: u32,
    pub save_game_version: u32,
    pub package_version: PackageVersion,
    pub engine_version_major: u16,
    pub engine_version_minor: u16,
    pub engine_version_patch: u16,
    pub engine_version_build: u32,
    pub engine_version: String,
    pub custom_format_version: u32,
    pub custom_format: Vec<CustomFormatData>,
}

pub struct SpecHeader {
    pub magic: u32,
    pub save_game_version: u32,
    pub package_version: PackageVersion,
    pub engine_version_major: u16,
    pub engine_version_minor: u16,
    pub engine_version_patch: u16,
    pub engine_version_build: u32,
    pub engine_version: Seq<char>,
    pub custom_format_version: u32,
    pub custom_format: Seq<(Seq<u8>, i32)>,
}

impl View for Header {
    type V = SpecHeader;

    open spec fn view(&self) -> SpecHeader {
        SpecHeader {
            magic: self.magic,
            save_game_version: self.save_game_version,
            package_version: self.package_version,
            engine_version_major: self.engine_version_major,
            engine_version_minor: self.engine_version_minor,
            engine_version_patch: self.engine_version_patch,
            engine_version_build: self.engine_version_build,
            engine_version: self.engine_version@,
            custom_format_version: self.custom_format_version,
            custom_format: self.custom_format@.map_values(|c: CustomFormatData| c@),
        }
    }
}

impl Header {
    /// Saves of engine version 5 and later store vector components as
    /// 64-bit floats.
    pub fn large_world_coordinates(&self) -> (r: bool)
        ensures
            r == (self.engine_version_major >= 5),
    {
        self.engine_version_major >= 5
    }
}

/// Root struct inside a save file which holds both the Unreal Engine class name and list of properties
#[derive(Debug, PartialEq, Eq)]
pub struct Root {
    pub save_game_type: String,
    pub properties: Properties,
}

pub struct SpecRoot {
    pub save_game_type: Seq<char>,
    pub properties: Seq<(Seq<char>, SpecProperty)>,
}

impl View for Root {
    type V = SpecRoot;

    open spec fn view(&self) -> SpecRoot {
        SpecRoot { save_game_type: self.save_game_type@, properties: properties_view(self.properties) }
    }
}

#[derive(Debug, PartialEq, Eq)]
pub struct Save {
    pub header: Header,
    pub root: Root,
    pub extra: Vec<u8>,
}

pub struct SpecSave {
    pub header: SpecHeader,
    pub root: SpecRoot,
    pub extra: Seq<u8>,
}

impl View for Save {
    type V = SpecSave;

    open spec fn view(&self) -> SpecSave {
        SpecSave { header: self.header@, root: self.root@, extra: self.extra@ }
    }
}

/// What went wrong while reading a save.
#[derive(Debug, Clone, PartialEq, Eq)]
pub enum Error {
    /// The data ended inside a value.
    UnexpectedEof,
    /// A UTF-16 string holds an unpaired surrogate.
    InvalidUtf16,
    /// A property type name that is not known.
    UnknownPropertyType(String),
    /// An array or set whose element type has no vectorized form.
    UnknownVecType(PropertyType),
    /// A map key or value of a type that maps do not hold.
    UnsupportedValueType(PropertyType),
    /// A text history kind that is not known.
    UnknownTextHistory(i8),
    /// An argument value kind (64-bit form) that is not known.
    UnknownFormatArgumentValue(u8),
    /// An argument value kind (32-bit form) that is not known.
    UnknownFormatArgumentDataValue(u8),
}

pub enum SpecError {
    UnexpectedEof,
    InvalidUtf16,
    UnknownPropertyType(Seq<char>),
    UnknownVecType(PropertyType),
    UnsupportedValueType(PropertyType),
    UnknownTextHistory(i8),
    UnknownFormatArgumentValue(u8),
    UnknownFormatArgumentDataValue(u8),
}

impl View for Error {
    type V = SpecError;

    open spec fn view(&self) -> SpecError {
        match self {
            Error::UnexpectedEof => SpecError::UnexpectedEof,
            Error::InvalidUtf16 => SpecError::InvalidUtf16,
            Error::UnknownPropertyType(s) => SpecError::UnknownPropertyType(s@),
            Error::UnknownVecType(t) => SpecError::UnknownVecType(*t),
            Error::UnsupportedValueType(t) => SpecError::UnsupportedValueType(*t),
            Error::UnknownTextHistory(k) => SpecError::UnknownTextHistory(*k),
            Error::UnknownFormatArgumentValue(k) => SpecError::UnknownFormatArgumentValue(*k),
            Error::UnknownFormatArgumentDataValue(k) => SpecError::UnknownFormatArgumentDataValue(*k),
        }
    }
}

/// An error together with the position in the data at which it arose.
#[derive(Debug, Clone, PartialEq, Eq)]
pub struct ParseError {
    pub offset: usize,
    pub error: Error,
}

pub struct SpecParseError {
    pub offset: int,
    pub error: SpecError,
}

impl View for ParseError {
    type V = SpecParseError;

    open spec fn view(&self) -> SpecParseError {
        SpecParseError { offset: self.offset as int, error: self.error@ }
    }
}

/// The outcome of reading a value: the value and the number of bytes it
/// took, or the error.
pub type SpecResult<T> = Result<(T, nat), SpecParseError>;

} // verus!
