//! Where the parts of a text and of a delegate lie in the stored bytes, and
//! which field the reader fills from each of them.
use vstd::prelude::*;

use crate::bytes::{
    at, lemma_at_split, lemma_read_i8, lemma_read_u32, lemma_read_u64, u32_bytes, u64_bytes,
};
use crate::decode::{sp_delegate, sp_text};
use crate::encode::{
    delegate_bytes, format_arguments_bytes, format_value_bytes, number_options_bytes, text_bytes,
};
use crate::layout::{u32_at, u64_at};
use crate::model::{
    FNumberFormattingOptions, SpecDelegate, SpecFormatArgument, SpecFormatValue, SpecParseError,
    SpecText, SpecTextVariant,
};
use crate::roundtrip::lemma_read_string_pair;
use crate::strings::{
    lemma_read_string_trailing, string_bytes, string_bytes_trailing, string_roundtrips,
};

verus! {

/// A text is stored as its 32-bit flags, a byte giving the kind of its
/// history (-1 none, 0 base, 3 argument format, 4 number, 7 date, 0x0b
/// string table entry), then the history's fields: a string table entry's
/// table, then its key; a date's date and time, style, time zone, then
/// culture name; a base history's namespace, key, then source string.
pub proof fn law_text_layout(t: SpecText)
    ensures
        ({
            let b = text_bytes(t);
            &&& b.len() >= 5
            &&& u32_at(b, 0) == t.flags
            &&& (t.variant is NoHistory ==> b[4] as i8 == -1)
            &&& (t.variant is Base ==> b[4] == 0)
            &&& (t.variant is ArgumentFormat ==> b[4] == 3)
            &&& (t.variant is AsNumber ==> b[4] == 4)
            &&& (t.variant is AsDate ==> b[4] == 7)
            &&& (t.variant is StringTableEntry ==> b[4] == 0x0b)
            &&& (t.variant matches SpecTextVariant::StringTableEntry { table, key } ==> b.subrange(
                5,
                b.len() as int,
            ) == string_bytes(table) + string_bytes(key))
            &&& (t.variant matches SpecTextVariant::AsDate {
                source_date_time,
                date_style,
                time_zone,
                culture_name,
            } ==> u64_at(b, 5) == source_date_time && b[13] as i8 == date_style && b.subrange(
                14,
                b.len() as int,
            ) == string_bytes(time_zone) + string_bytes(culture_name))
            &&& (t.variant matches SpecTextVariant::Base { namespace, key, source_string } ==> b.subrange(
                5,
                b.len() as int,
            ) == string_bytes_trailing(namespace) + string_bytes(key) + string_bytes(source_string))
        }),
{
    vstd::bytes::lemma_auto_spec_u32_to_from_le_bytes();
    vstd::bytes::lemma_auto_spec_u64_to_from_le_bytes();
    let b = text_bytes(t);
    assert(b.subrange(0, 4) =~= u32_bytes(t.flags));
    let minus_one: i8 = -1i8;
    assert((minus_one as u8) as i8 == -1) by (bit_vector)
        requires
            minus_one == -1i8,
    ;
    match t.variant {
        SpecTextVariant::StringTableEntry { table, key } => {
            assert(b.subrange(5, b.len() as int) =~= string_bytes(table) + string_bytes(key));
        },
        SpecTextVariant::AsDate { source_date_time, date_style, time_zone, culture_name } => {
            assert(b.subrange(5, 13) =~= u64_bytes(source_date_time));
            assert((date_style as u8) as i8 == date_style) by (bit_vector);
            assert(b.subrange(14, b.len() as int) =~= string_bytes(time_zone) + string_bytes(culture_name));
        },
        SpecTextVariant::Base { namespace, key, source_string } => {
            assert(b.subrange(5, b.len() as int) =~= string_bytes_trailing(namespace) + string_bytes(key)
                + string_bytes(source_string));
        },
        _ => {},
    }
}

/// Reading a string table entry: after the flags and the kind byte 0x0b,
/// the first string is the table and the second the key.
pub proof fn law_read_string_table_entry(d: Seq<u8>, p: int, flags: u32, table: Seq<char>, key: Seq<char>)
    requires
        string_roundtrips(table),
        string_roundtrips(key),
        at(d, p, u32_bytes(flags) + seq![0x0bu8] + string_bytes(table) + string_bytes(key)),
    ensures
        sp_text(d, p) == Ok::<(SpecText, nat), SpecParseError>(
            (
                (SpecText { flags, variant: (SpecTextVariant::StringTableEntry { table, key }) }),
                (u32_bytes(flags) + seq![0x0bu8] + string_bytes(table) + string_bytes(key)).len(),
            ),
        ),
{
    vstd::bytes::lemma_auto_spec_u32_to_from_le_bytes();
    let h = u32_bytes(flags) + seq![0x0bu8];
    let s = string_bytes(table) + string_bytes(key);
    assert(u32_bytes(flags) + seq![0x0bu8] + string_bytes(table) + string_bytes(key) =~= h + s);
    lemma_at_split(d, p, h, s);
    lemma_at_split(d, p, u32_bytes(flags), seq![0x0bu8]);
    lemma_read_u32(d, p, flags);
    lemma_read_i8(d, p + 4, 0x0bi8);
    lemma_read_string_pair(d, p + 5, table, key);
}

/// Reading a date history: after the flags and the kind byte 7, the
/// 64-bit date and time, the style byte, then the time zone and the
/// culture name, in that order.
pub proof fn law_read_date_history(
    d: Seq<u8>,
    p: int,
    flags: u32,
    source_date_time: u64,
    date_style: i8,
    time_zone: Seq<char>,
    culture_name: Seq<char>,
)
    requires
        string_roundtrips(time_zone),
        string_roundtrips(culture_name),
        at(
            d,
            p,
            u32_bytes(flags) + seq![7u8] + u64_bytes(source_date_time) + seq![date_style as u8] + string_bytes(
                time_zone,
            ) + string_bytes(culture_name),
        ),
    ensures
        sp_text(d, p) is Ok,
        sp_text(d, p)->Ok_0.0 == (SpecText {
            flags,
            variant: (SpecTextVariant::AsDate { source_date_time, date_style, time_zone, culture_name }),
        }),
{
    vstd::bytes::lemma_auto_spec_u32_to_from_le_bytes();
    vstd::bytes::lemma_auto_spec_u64_to_from_le_bytes();
    let h = u32_bytes(flags) + seq![7u8] + u64_bytes(source_date_time) + seq![date_style as u8];
    let s = string_bytes(time_zone) + string_bytes(culture_name);
    assert(h + string_bytes(time_zone) + string_bytes(culture_name) =~= h + s);
    lemma_at_split(d, p, h, s);
    lemma_at_split(d, p, u32_bytes(flags) + seq![7u8] + u64_bytes(source_date_time), seq![date_style as u8]);
    lemma_at_split(d, p, u32_bytes(flags) + seq![7u8], u64_bytes(source_date_time));
    lemma_at_split(d, p, u32_bytes(flags), seq![7u8]);
    lemma_read_u32(d, p, flags);
    lemma_read_i8(d, p + 4, 7i8);
    lemma_read_u64(d, p + 5, source_date_time);
    assert((date_style as u8) as i8 == date_style) by (bit_vector);
    lemma_read_i8(d, p + 13, date_style);
    lemma_read_string_pair(d, p + 14, time_zone, culture_name);
}

/// Reading a base history: after the flags and the kind byte 0, the
/// namespace, the key and the source string, in that order.
pub proof fn law_read_base_history(
    d: Seq<u8>,
    p: int,
    flags: u32,
    namespace: Seq<char>,
    key: Seq<char>,
    source_string: Seq<char>,
)
    requires
        string_roundtrips(namespace),
        string_roundtrips(key),
        string_roundtrips(source_string),
        at(
            d,
            p,
            u32_bytes(flags) + seq![0u8] + string_bytes_trailing(namespace) + string_bytes(key) + string_bytes(
                source_string,
            ),
        ),
    ensures
        sp_text(d, p) is Ok,
        sp_text(d, p)->Ok_0.0 == (SpecText {
            flags,
            variant: (SpecTextVariant::Base { namespace, key, source_string }),
        }),
{
    vstd::bytes::lemma_auto_spec_u32_to_from_le_bytes();
    let h = u32_bytes(flags) + seq![0u8];
    let s = string_bytes(key) + string_bytes(source_string);
    assert(h + string_bytes_trailing(namespace) + string_bytes(key) + string_bytes(source_string) =~= (h
        + string_bytes_trailing(namespace)) + s);
    lemma_at_split(d, p, h + string_bytes_trailing(namespace), s);
    lemma_at_split(d, p, h, string_bytes_trailing(namespace));
    lemma_at_split(d, p, u32_bytes(flags), seq![0u8]);
    lemma_read_u32(d, p, flags);
    lemma_read_i8(d, p + 4, 0i8);
    lemma_read_string_trailing(d, p + 5, namespace);
    lemma_read_string_pair(d, p + 5 + string_bytes_trailing(namespace).len(), key, source_string);
}

/// A delegate is stored as its name, then its path.
pub proof fn law_delegate_layout(v: SpecDelegate)
    ensures
        delegate_bytes(v) == string_bytes(v.name) + string_bytes(v.path),
{
}

/// Reading a delegate: the first string is its name, the second its path.
pub proof fn law_read_delegate(d: Seq<u8>, p: int, name: Seq<char>, path: Seq<char>)
    requires
        string_roundtrips(name),
        string_roundtrips(path),
        at(d, p, string_bytes(name) + string_bytes(path)),
    ensures
        sp_delegate(d, p) is Ok,
        sp_delegate(d, p)->Ok_0.0 == (SpecDelegate { name, path }),
{
    lemma_read_string_pair(d, p, name, path);
}

/// Number formatting options are stored as the always-sign flag and the
/// grouping flag (32 bits each), the rounding mode byte, then the minimum
/// and maximum integral digits and the minimum and maximum fractional
/// digits (32 bits each).
pub proof fn law_number_options_layout(o: FNumberFormattingOptions)
    ensures
        ({
            let b = number_options_bytes(o);
            &&& b.len() == 25
            &&& u32_at(b, 0) == (if o.always_sign { 1u32 } else { 0u32 })
            &&& u32_at(b, 4) == (if o.use_grouping { 1u32 } else { 0u32 })
            &&& b[8] as i8 == o.rounding_mode
            &&& u32_at(b, 9) as i32 == o.minimum_integral_digits
            &&& u32_at(b, 13) as i32 == o.maximum_integral_digits
            &&& u32_at(b, 17) as i32 == o.minimum_fractional_digits
            &&& u32_at(b, 21) as i32 == o.maximum_fractional_digits
        }),
{
    vstd::bytes::lemma_auto_spec_u32_to_from_le_bytes();
    let b = number_options_bytes(o);
    assert(b.subrange(0, 4) =~= u32_bytes(if o.always_sign { 1u32 } else { 0u32 }));
    assert(b.subrange(4, 8) =~= u32_bytes(if o.use_grouping { 1u32 } else { 0u32 }));
    assert(b.subrange(9, 13) =~= u32_bytes(o.minimum_integral_digits as u32));
    assert(b.subrange(13, 17) =~= u32_bytes(o.maximum_integral_digits as u32));
    assert(b.subrange(17, 21) =~= u32_bytes(o.minimum_fractional_digits as u32));
    assert(b.subrange(21, 25) =~= u32_bytes(o.maximum_fractional_digits as u32));
    let (r, a, c, e, f) = (
        o.rounding_mode,
        o.minimum_integral_digits,
        o.maximum_integral_digits,
        o.minimum_fractional_digits,
        o.maximum_fractional_digits,
    );
    assert((r as u8) as i8 == r) by (bit_vector);
    assert((a as u32) as i32 == a) by (bit_vector);
    assert((c as u32) as i32 == c) by (bit_vector);
    assert((e as u32) as i32 == e) by (bit_vector);
    assert((f as u32) as i32 == f) by (bit_vector);
}

/// A format argument value starts with a byte giving its kind: 0 for a
/// signed integer, 1 unsigned, 2 float, 3 double, 4 text, 5 gender; a
/// float, double or gender follows it as its 32 or 64 bits, a text as the
/// text.
pub proof fn law_format_value_layout(v: SpecFormatValue, wide: bool)
    ensures
        ({
            let b = format_value_bytes(v, wide);
            &&& b.len() >= 1
            &&& (v is Int ==> b[0] == 0)
            &&& (v is UInt ==> b[0] == 1)
            &&& (v matches SpecFormatValue::Float(x) ==> b[0] == 2 && b.len() == 5 && u32_at(b, 1) == x)
            &&& (v matches SpecFormatValue::Double(x) ==> b[0] == 3 && b.len() == 9 && u64_at(b, 1) == x)
            &&& (v matches SpecFormatValue::Text(t) ==> b[0] == 4 && b.subrange(1, b.len() as int)
                == text_bytes(*t))
            &&& (v matches SpecFormatValue::Gender(x) ==> b[0] == 5 && b.len() == 9 && u64_at(b, 1) == x)
        }),
{
    vstd::bytes::lemma_auto_spec_u32_to_from_le_bytes();
    vstd::bytes::lemma_auto_spec_u64_to_from_le_bytes();
    let b = format_value_bytes(v, wide);
    match v {
        SpecFormatValue::Float(x) => {
            assert(b.subrange(1, 5) =~= u32_bytes(x));
        },
        SpecFormatValue::Double(x) => {
            assert(b.subrange(1, 9) =~= u64_bytes(x));
        },
        SpecFormatValue::Gender(x) => {
            assert(b.subrange(1, 9) =~= u64_bytes(x));
        },
        SpecFormatValue::Text(t) => {
            assert(b.subrange(1, b.len() as int) =~= text_bytes(*t));
        },
        _ => {},
    }
}

/// The remaining histories: no history stores a flag (1 when a culture
/// invariant string follows, else 0); a number stores its value (in the
/// wide form), a flag and, when set, the formatting options, then the
/// culture name; an argument format stores the format text, the count of
/// arguments, then the arguments.
pub proof fn law_text_history_layout(t: SpecText)
    ensures
        ({
            let b = text_bytes(t);
            &&& (t.variant matches SpecTextVariant::NoHistory { culture_invariant } ==> match culture_invariant {
                Some(c) => u32_at(b, 5) == 1 && b.subrange(9, b.len() as int) == string_bytes(c),
                None => b.len() == 9 && u32_at(b, 5) == 0,
            })
            &&& (t.variant matches SpecTextVariant::AsNumber { source_value, format_options, culture_name }
                ==> b.subrange(5, b.len() as int) == format_value_bytes(source_value, true) + match format_options {
                Some(o) => u32_bytes(1) + number_options_bytes(o),
                None => u32_bytes(0),
            } + string_bytes(culture_name))
            &&& (t.variant matches SpecTextVariant::ArgumentFormat { format_text, arguments } ==> b.subrange(
                5,
                b.len() as int,
            ) == text_bytes(*format_text) + u32_bytes(arguments.len() as u32) + format_arguments_bytes(
                arguments,
            ))
        }),
{
    vstd::bytes::lemma_auto_spec_u32_to_from_le_bytes();
    let b = text_bytes(t);
    match t.variant {
        SpecTextVariant::NoHistory { culture_invariant } => {
            match culture_invariant {
                Some(c) => {
                    assert(b.subrange(5, 9) =~= u32_bytes(1));
                    assert(b.subrange(9, b.len() as int) =~= string_bytes(c));
                },
                None => {
                    assert(b.subrange(5, 9) =~= u32_bytes(0));
                },
            }
        },
        SpecTextVariant::AsNumber { source_value, format_options, culture_name } => {
            assert(b.subrange(5, b.len() as int) =~= format_value_bytes(source_value, true) + match format_options {
                Some(o) => u32_bytes(1) + number_options_bytes(o),
                None => u32_bytes(0),
            } + string_bytes(culture_name));
        },
        SpecTextVariant::ArgumentFormat { format_text, arguments } => {
            assert(b.subrange(5, b.len() as int) =~= text_bytes(*format_text) + u32_bytes(arguments.len() as u32)
                + format_arguments_bytes(arguments));
        },
        _ => {},
    }
}

/// Format arguments are stored in order, each as its name, then its value
/// (in the narrow form).
pub proof fn law_format_argument_layout(a: Seq<SpecFormatArgument>, x: SpecFormatArgument)
    ensures
        format_arguments_bytes(a.push(x)) == format_arguments_bytes(a) + string_bytes(x.name) + format_value_bytes(
            x.value,
            false,
        ),
{
    assert(a.push(x).drop_last() =~= a);
}

} // verus!
