//! Property type tags, struct type tags, and the user-supplied [`Types`]
//! table that disambiguates the element types of sets and maps.
use vstd::prelude::*;

verus! {

/// `str` equality (`<str as PartialEq>::eq`): true exactly when the two
/// strings hold the same characters.
#[verifier::external_body]
pub(crate) fn str_eq(a: &str, b: &str) -> (r: bool)
    ensures
        r == (a@ == b@),
{
    a == b
}

#[derive(Debug, Clone, Copy, PartialEq, Eq, Structural)]
pub enum PropertyType {
    IntProperty,
    Int8Property,
    Int16Property,
    Int64Property,
    UInt8Property,
    UInt16Property,
    UInt32Property,
    UInt64Property,
    FloatProperty,
    DoubleProperty,
    BoolProperty,
    ByteProperty,
    EnumProperty,
    ArrayProperty,
    ObjectProperty,
    StrProperty,
    FieldPathProperty,
    SoftObjectProperty,
    NameProperty,
    TextProperty,
    DelegateProperty,
    MulticastDelegateProperty,
    MulticastInlineDelegateProperty,
    MulticastSparseDelegateProperty,
    SetProperty,
    MapProperty,
    StructProperty,
}

impl View for PropertyType {
    type V = PropertyType;

    open spec fn view(&self) -> PropertyType {
        *self
    }
}

/// The name under which a property type is stored in a save.
pub open spec fn property_type_name(t: PropertyType) -> Seq<char> {
    match t {
        PropertyType::Int8Property => "Int8Property"@,
        PropertyType::Int16Property => "Int16Property"@,
        PropertyType::IntProperty => "IntProperty"@,
        PropertyType::Int64Property => "Int64Property"@,
        PropertyType::UInt8Property => "UInt8Property"@,
        PropertyType::UInt16Property => "UInt16Property"@,
        PropertyType::UInt32Property => "UInt32Property"@,
        PropertyType::UInt64Property => "UInt64Property"@,
        PropertyType::FloatProperty => "FloatProperty"@,
        PropertyType::DoubleProperty => "DoubleProperty"@,
        PropertyType::BoolProperty => "BoolProperty"@,
        PropertyType::ByteProperty => "ByteProperty"@,
        PropertyType::EnumProperty => "EnumProperty"@,
        PropertyType::ArrayProperty => "ArrayProperty"@,
        PropertyType::ObjectProperty => "ObjectProperty"@,
        PropertyType::StrProperty => "StrProperty"@,
        PropertyType::FieldPathProperty => "FieldPathProperty"@,
        PropertyType::SoftObjectProperty => "SoftObjectProperty"@,
        PropertyType::NameProperty => "NameProperty"@,
        PropertyType::TextProperty => "TextProperty"@,
        PropertyType::DelegateProperty => "DelegateProperty"@,
        PropertyType::MulticastDelegateProperty => "MulticastDelegateProperty"@,
        PropertyType::MulticastInlineDelegateProperty => "MulticastInlineDelegateProperty"@,
        PropertyType::MulticastSparseDelegateProperty => "MulticastSparseDelegateProperty"@,
        PropertyType::SetProperty => "SetProperty"@,
        PropertyType::MapProperty => "MapProperty"@,
        PropertyType::StructProperty => "StructProperty"@,
    }
}

/// The property type stored under a name, if any.
pub open spec fn property_type_from_name(s: Seq<char>) -> Option<PropertyType> {
    if s == "Int8Property"@ {
        Some(PropertyType::Int8Property)
    } else if s == "Int16Property"@ {
        Some(PropertyType::Int16Property)
    } else if s == "IntProperty"@ {
        Some(PropertyType::IntProperty)
    } else if s == "Int64Property"@ {
        Some(PropertyType::Int64Property)
    } else if s == "UInt8Property"@ {
        Some(PropertyType::UInt8Property)
    } else if s == "UInt16Property"@ {
        Some(PropertyType::UInt16Property)
    } else if s == "UInt32Property"@ {
        Some(PropertyType::UInt32Property)
    } else if s == "UInt64Property"@ {
        Some(PropertyType::UInt64Property)
    } else if s == "FloatProperty"@ {
        Some(PropertyType::FloatProperty)
    } else if s == "DoubleProperty"@ {
        Some(PropertyType::DoubleProperty)
    } else if s == "BoolProperty"@ {
        Some(PropertyType::BoolProperty)
    } else if s == "ByteProperty"@ {
        Some(PropertyType::ByteProperty)
    } else if s == "EnumProperty"@ {
        Some(PropertyType::EnumProperty)
    } else if s == "ArrayProperty"@ {
        Some(PropertyType::ArrayProperty)
    } else if s == "ObjectProperty"@ {
        Some(PropertyType::ObjectProperty)
    } else if s == "StrProperty"@ {
        Some(PropertyType::StrProperty)
    } else if s == "FieldPathProperty"@ {
        Some(PropertyType::FieldPathProperty)
    } else if s == "SoftObjectProperty"@ {
        Some(PropertyType::SoftObjectProperty)
    } else if s == "NameProperty"@ {
        Some(PropertyType::NameProperty)
    } else if s == "TextProperty"@ {
        Some(PropertyType::TextProperty)
    } else if s == "DelegateProperty"@ {
        Some(PropertyType::DelegateProperty)
    } else if s == "MulticastDelegateProperty"@ {
        Some(PropertyType::MulticastDelegateProperty)
    } else if s == "MulticastInlineDelegateProperty"@ {
        Some(PropertyType::MulticastInlineDelegateProperty)
    } else if s == "MulticastSparseDelegateProperty"@ {
        Some(PropertyType::MulticastSparseDelegateProperty)
    } else if s == "SetProperty"@ {
        Some(PropertyType::SetProperty)
    } else if s == "MapProperty"@ {
        Some(PropertyType::MapProperty)
    } else if s == "StructProperty"@ {
        Some(PropertyType::StructProperty)
    } else {
        None
    }
}

impl PropertyType {
    /// The name under which this type is stored in a save.
    pub fn get_name(&self) -> (r: &'static str)
        ensures
            r@ == property_type_name(*self),
    {
        match self {
            PropertyType::Int8Property => "Int8Property",
            PropertyType::Int16Property => "Int16Property",
            PropertyType::IntProperty => "IntProperty",
            PropertyType::Int64Property => "Int64Property",
            PropertyType::UInt8Property => "UInt8Property",
            PropertyType::UInt16Property => "UInt16Property",
            PropertyType::UInt32Property => "UInt32Property",
            PropertyType::UInt64Property => "UInt64Property",
            PropertyType::FloatProperty => "FloatProperty",
            PropertyType::DoubleProperty => "DoubleProperty",
            PropertyType::BoolProperty => "BoolProperty",
            PropertyType::ByteProperty => "ByteProperty",
            PropertyType::EnumProperty => "EnumProperty",
            PropertyType::ArrayProperty => "ArrayProperty",
            PropertyType::ObjectProperty => "ObjectProperty",
            PropertyType::StrProperty => "StrProperty",
            PropertyType::FieldPathProperty => "FieldPathProperty",
            PropertyType::SoftObjectProperty => "SoftObjectProperty",
            PropertyType::NameProperty => "NameProperty",
            PropertyType::TextProperty => "TextProperty",
            PropertyType::DelegateProperty => "DelegateProperty",
            PropertyType::MulticastDelegateProperty => "MulticastDelegateProperty",
            PropertyType::MulticastInlineDelegateProperty => "MulticastInlineDelegateProperty",
            PropertyType::MulticastSparseDelegateProperty => "MulticastSparseDelegateProperty",
            PropertyType::SetProperty => "SetProperty",
            PropertyType::MapProperty => "MapProperty",
            PropertyType::StructProperty => "StructProperty",
        }
    }

    /// The property type stored under `name`; `None` for an unknown name.
    pub fn from_name(name: &str) -> (r: Option<PropertyType>)
        ensures
            r == property_type_from_name(name@),
    {
        if str_eq(name, "Int8Property") {
            Some(PropertyType::Int8Property)
        } else if str_eq(name, "Int16Property") {
            Some(PropertyType::Int16Property)
        } else if str_eq(name, "IntProperty") {
            Some(PropertyType::IntProperty)
        } else if str_eq(name, "Int64Property") {
            Some(PropertyType::Int64Property)
        } else if str_eq(name, "UInt8Property") {
            Some(PropertyType::UInt8Property)
        } else if str_eq(name, "UInt16Property") {
            Some(PropertyType::UInt16Property)
        } else if str_eq(name, "UInt32Property") {
            Some(PropertyType::UInt32Property)
        } else if str_eq(name, "UInt64Property") {
            Some(PropertyType::UInt64Property)
        } else if str_eq(name, "FloatProperty") {
            Some(PropertyType::FloatProperty)
        } else if str_eq(name, "DoubleProperty") {
            Some(PropertyType::DoubleProperty)
        } else if str_eq(name, "BoolProperty") {
            Some(PropertyType::BoolProperty)
        } else if str_eq(name, "ByteProperty") {
            Some(PropertyType::ByteProperty)
        } else if str_eq(name, "EnumProperty") {
            Some(PropertyType::EnumProperty)
        } else if str_eq(name, "ArrayProperty") {
            Some(PropertyType::ArrayProperty)
        } else if str_eq(name, "ObjectProperty") {
            Some(PropertyType::ObjectProperty)
        } else if str_eq(name, "StrProperty") {
            Some(PropertyType::StrProperty)
        } else if str_eq(name, "FieldPathProperty") {
            Some(PropertyType::FieldPathProperty)
        } else if str_eq(name, "SoftObjectProperty") {
            Some(PropertyType::SoftObjectProperty)
        } else if str_eq(name, "NameProperty") {
            Some(PropertyType::NameProperty)
        } else if str_eq(name, "TextProperty") {
            Some(PropertyType::TextProperty)
        } else if str_eq(name, "DelegateProperty") {
            Some(PropertyType::DelegateProperty)
        } else if str_eq(name, "MulticastDelegateProperty") {
            Some(PropertyType::MulticastDelegateProperty)
        } else if str_eq(name, "MulticastInlineDelegateProperty") {
            Some(PropertyType::MulticastInlineDelegateProperty)
        } else if str_eq(name, "MulticastSparseDelegateProperty") {
            Some(PropertyType::MulticastSparseDelegateProperty)
        } else if str_eq(name, "SetProperty") {
            Some(PropertyType::SetProperty)
        } else if str_eq(name, "MapProperty") {
            Some(PropertyType::MapProperty)
        } else if str_eq(name, "StructProperty") {
            Some(PropertyType::StructProperty)
        } else {
            None
        }
    }
}

#[derive(Debug, Clone, PartialEq, Eq)]
pub enum StructType {
    Guid,
    DateTime,
    Timespan,
    Vector2D,
    Vector,
    Box,
    IntPoint,
    Quat,
    Rotator,
    LinearColor,
    Color,
    SoftObjectPath,
    GameplayTagContainer,
    Struct(Option<String>),
}

pub enum SpecStructType {
    Guid,
    DateTime,
    Timespan,
    Vector2D,
    Vector,
    Box,
    IntPoint,
    Quat,
    Rotator,
    LinearColor,
    Color,
    SoftObjectPath,
    GameplayTagContainer,
    Struct(Option<Seq<char>>),
}

impl View for StructType {
    type V = SpecStructType;

    open spec fn view(&self) -> SpecStructType {
        match self {
            StructType::Guid => SpecStructType::Guid,
            StructType::DateTime => SpecStructType::DateTime,
            StructType::Timespan => SpecStructType::Timespan,
            StructType::Vector2D => SpecStructType::Vector2D,
            StructType::Vector => SpecStructType::Vector,
            StructType::Box => SpecStructType::Box,
            StructType::IntPoint => SpecStructType::IntPoint,
            StructType::Quat => SpecStructType::Quat,
            StructType::Rotator => SpecStructType::Rotator,
            StructType::LinearColor => SpecStructType::LinearColor,
            StructType::Color => SpecStructType::Color,
            StructType::SoftObjectPath => SpecStructType::SoftObjectPath,
            StructType::GameplayTagContainer => SpecStructType::GameplayTagContainer,
            StructType::Struct(None) => SpecStructType::Struct(None),
            StructType::Struct(Some(s)) => SpecStructType::Struct(Some(s@)),
        }
    }
}

/// The struct type a stored struct type name stands for.
pub open spec fn struct_type_from_name(s: Seq<char>) -> SpecStructType {
    if s == "Guid"@ {
        SpecStructType::Guid
    } else if s == "DateTime"@ {
        SpecStructType::DateTime
    } else if s == "Timespan"@ {
        SpecStructType::Timespan
    } else if s == "Vector2D"@ {
        SpecStructType::Vector2D
    } else if s == "Vector"@ {
        SpecStructType::Vector
    } else if s == "Box"@ {
        SpecStructType::Box
    } else if s == "IntPoint"@ {
        SpecStructType::IntPoint
    } else if s == "Quat"@ {
        SpecStructType::Quat
    } else if s == "Rotator"@ {
        SpecStructType::Rotator
    } else if s == "LinearColor"@ {
        SpecStructType::LinearColor
    } else if s == "Color"@ {
        SpecStructType::Color
    } else if s == "SoftObjectPath"@ {
        SpecStructType::SoftObjectPath
    } else if s == "GameplayTagContainer"@ {
        SpecStructType::GameplayTagContainer
    } else if s == "Struct"@ {
        SpecStructType::Struct(None)
    } else {
        SpecStructType::Struct(Some(s))
    }
}

/// The name under which a struct type is stored.  A `Struct` without a
/// name has none (the writer does not accept it).
pub open spec fn struct_type_name(t: SpecStructType) -> Seq<char> {
    match t {
        SpecStructType::Guid => "Guid"@,
        SpecStructType::DateTime => "DateTime"@,
        SpecStructType::Timespan => "Timespan"@,
        SpecStructType::Vector2D => "Vector2D"@,
        SpecStructType::Vector => "Vector"@,
        SpecStructType::Box => "Box"@,
        SpecStructType::IntPoint => "IntPoint"@,
        SpecStructType::Quat => "Quat"@,
        SpecStructType::Rotator => "Rotator"@,
        SpecStructType::LinearColor => "LinearColor"@,
        SpecStructType::Color => "Color"@,
        SpecStructType::SoftObjectPath => "SoftObjectPath"@,
        SpecStructType::GameplayTagContainer => "GameplayTagContainer"@,
        SpecStructType::Struct(Some(t)) => t,
        SpecStructType::Struct(None) => Seq::empty(),
    }
}

impl StructType {
    /// The struct type stored under `name`: one of the built-in structs, or
    /// a user struct (`Struct(None)` for the bare name "Struct").
    pub fn from_name(name: String) -> (r: StructType)
        ensures
            r@ == struct_type_from_name(name@),
    {
        let n = name.as_str();
        if str_eq(n, "Guid") {
            StructType::Guid
        } else if str_eq(n, "DateTime") {
            StructType::DateTime
        } else if str_eq(n, "Timespan") {
            StructType::Timespan
        } else if str_eq(n, "Vector2D") {
            StructType::Vector2D
        } else if str_eq(n, "Vector") {
            StructType::Vector
        } else if str_eq(n, "Box") {
            StructType::Box
        } else if str_eq(n, "IntPoint") {
            StructType::IntPoint
        } else if str_eq(n, "Quat") {
            StructType::Quat
        } else if str_eq(n, "Rotator") {
            StructType::Rotator
        } else if str_eq(n, "LinearColor") {
            StructType::LinearColor
        } else if str_eq(n, "Color") {
            StructType::Color
        } else if str_eq(n, "SoftObjectPath") {
            StructType::SoftObjectPath
        } else if str_eq(n, "GameplayTagContainer") {
            StructType::GameplayTagContainer
        } else if str_eq(n, "Struct") {
            StructType::Struct(None)
        } else {
            StructType::Struct(Some(name))
        }
    }

    /// The name under which this struct type is stored.
    pub fn name(&self) -> (r: &str)
        requires
            self@ != SpecStructType::Struct(None),
        ensures
            r@ == struct_type_name(self@),
    {
        match self {
            StructType::Guid => "Guid",
            StructType::DateTime => "DateTime",
            StructType::Timespan => "Timespan",
            StructType::Vector2D => "Vector2D",
            StructType::Vector => "Vector",
            StructType::Box => "Box",
            StructType::IntPoint => "IntPoint",
            StructType::Quat => "Quat",
            StructType::Rotator => "Rotator",
            StructType::LinearColor => "LinearColor",
            StructType::Color => "Color",
            StructType::SoftObjectPath => "SoftObjectPath",
            StructType::GameplayTagContainer => "GameplayTagContainer",
            StructType::Struct(Some(t)) => t.as_str(),
            StructType::Struct(None) => "",
        }
    }

    /// A copy of this struct type.
    pub fn duplicate(&self) -> (r: StructType)
        ensures
            r@ == self@,
    {
        match self {
            StructType::Guid => StructType::Guid,
            StructType::DateTime => StructType::DateTime,
            StructType::Timespan => StructType::Timespan,
            StructType::Vector2D => StructType::Vector2D,
            StructType::Vector => StructType::Vector,
            StructType::Box => StructType::Box,
            StructType::IntPoint => StructType::IntPoint,
            StructType::Quat => StructType::Quat,
            StructType::Rotator => StructType::Rotator,
            StructType::LinearColor => StructType::LinearColor,
            StructType::Color => StructType::Color,
            StructType::SoftObjectPath => StructType::SoftObjectPath,
            StructType::GameplayTagContainer => StructType::GameplayTagContainer,
            StructType::Struct(None) => StructType::Struct(None),
            StructType::Struct(Some(t)) => StructType::Struct(Some(t.clone())),
        }
    }
}

/// The map that a list of (path, type) entries stands for: a later entry
/// for a path replaces an earlier one.
pub open spec fn entries_map(s: Seq<(String, StructType)>) -> Map<Seq<char>, SpecStructType>
    decreases s.len(),
{
    if s.len() == 0 {
        Map::empty()
    } else {
        entries_map(s.drop_last()).insert(s.last().0@, s.last().1@)
    }
}

/// Used to disambiguate types within a [`Property::Set`] or [`Property::Map`] during parsing.
#[derive(Debug)]
pub struct Types {
    types: Vec<(String, StructType)>,
}

impl View for Types {
    type V = Map<Seq<char>, SpecStructType>;

    closed spec fn view(&self) -> Map<Seq<char>, SpecStructType> {
        entries_map(self.types@)
    }
}

impl Types {
    /// Create an empty [`Types`] specification
    pub fn new() -> (r: Self)
        ensures
            r@ == Map::<Seq<char>, SpecStructType>::empty(),
    {
        Types { types: Vec::new() }
    }

    /// Add a new type at the given path
    pub fn add(&mut self, path: String, t: StructType)
        ensures
            final(self)@ == old(self)@.insert(path@, t@),
    {
        let ghost old_entries = self.types@;
        self.types.push((path, t));
        assert(self.types@.drop_last() == old_entries);
    }

    /// The type registered at `path`, if any.
    pub fn get(&self, path: &str) -> (r: Option<&StructType>)
        ensures
            r is Some <==> self@.contains_key(path@),
            r matches Some(t) ==> t@ == self@[path@],
    {
        let mut i = self.types.len();
        while i > 0
            invariant
                i <= self.types.len(),
                forall|j: int| i <= j < self.types@.len() ==> #[trigger] self.types@[j].0@ != path@,
            decreases i,
        {
            if str_eq(self.types[i - 1].0.as_str(), path) {
                proof {
                    let s = self.types@;
                    assert(s.take(i as int).drop_last() == s.take(i - 1));
                    lemma_entries_map_suffix(s, i as int, path@);
                }
                return Some(&self.types[i - 1].1);
            }
            i = i - 1;
        }
        proof {
            lemma_entries_map_suffix(self.types@, 0, path@);
        }
        None
    }
}

/// Entries after position `i` that do not mention `k` do not change what
/// the map holds at `k`.
proof fn lemma_entries_map_suffix(s: Seq<(String, StructType)>, i: int, k: Seq<char>)
    requires
        0 <= i <= s.len(),
        forall|j: int| i <= j < s.len() ==> #[trigger] s[j].0@ != k,
    ensures
        entries_map(s).contains_key(k) == entries_map(s.take(i)).contains_key(k),
        entries_map(s).contains_key(k) ==> entries_map(s)[k] == entries_map(s.take(i))[k],
    decreases s.len(),
{
    if i < s.len() {
        assert(s.drop_last().take(i) == s.take(i));
        lemma_entries_map_suffix(s.drop_last(), i, k);
    } else {
        assert(s.take(i) == s);
    }
}

} // verus!
