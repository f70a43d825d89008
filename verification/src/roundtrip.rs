//! Reading back what the writer wrote: for every value that the writer
//! stores and the reader can tell apart, decoding the written bytes gives
//! the value back, and takes exactly the bytes that were written.
use vstd::prelude::*;
use vstd::bytes::{
    lemma_auto_spec_u16_to_from_le_bytes, lemma_auto_spec_u32_to_from_le_bytes,
    lemma_auto_spec_u64_to_from_le_bytes, spec_u16_from_le_bytes, spec_u16_to_le_bytes,
    spec_u32_from_le_bytes, spec_u32_to_le_bytes, spec_u64_from_le_bytes, spec_u64_to_le_bytes,
};

use crate::bytes::{
    at, i16_bytes, i32_bytes, i64_bytes, i8_bytes, lemma_at_split, lemma_read_i32, lemma_read_i8,
    lemma_read_opt_guid, lemma_read_u32, lemma_read_u64, lemma_read_u8, opt_guid_bytes, sp_i8,
    sp_u32, u16_bytes, u32_bytes, u64_bytes, u8_bytes,
};
use crate::decode::{
    Ctx, child_path, insert_property, le_bool, le_i16, le_i32, le_i64, le_u16, le_u32, le_u64,
    le_u8, sp_color, sp_components, sp_delegate, sp_delegates, sp_field_path, sp_fixed,
    sp_format_arguments, sp_format_value, sp_int_point, sp_linear_color, sp_multicast,
    sp_number_options, sp_property_type, sp_quat, sp_rotator, sp_simple_property, sp_string_list,
    sp_string_pair, sp_string_pairs, sp_strings, sp_struct_type, sp_tagged_value, sp_text,
    sp_text_history, sp_texts, sp_value_vec, sp_vector, sp_vector2d, type_or, unique_names,
};
use crate::encode::{
    bool_byte, boxes_bytes, color_bytes, component_bytes, count_bytes, delegate_bytes,
    delegates_bytes, field_path_bytes, fixed_bytes, format_arguments_bytes, format_value_bytes,
    int_point_bytes, linear_color_bytes, map_entries_bytes, multicast_bytes, number_options_bytes,
    property_body, property_bytes, property_list_bytes, property_type_of, property_value_bytes,
    quat_bytes, rotator_bytes, string_pairs_bytes, strings_bytes, struct_value_bytes,
    struct_values_bytes, text_bytes, text_variant_bytes, texts_bytes, value_vec_bytes,
    vector2d_bytes, vector_bytes,
};
use crate::model::{
    Byte, Color, FNumberFormattingOptions, IntPoint, LinearColor, Quat, Rotator, SpecByte,
    SpecByteArray, SpecDelegate, SpecFieldPath, SpecFormatArgument, SpecFormatValue, SpecMapEntry,
    SpecParseError, SpecProperty, SpecPropertyValue, SpecStructValue, SpecText, SpecTextVariant,
    SpecValueArray, SpecValueSet, SpecValueVec, Vector, Vector2D,
};
use crate::laws::reserved_struct_name;
use crate::types::{
    PropertyType, SpecStructType, property_type_from_name, property_type_name,
    struct_type_from_name, struct_type_name,
};
use crate::strings::{
    lemma_read_string, lemma_read_string_trailing, string_bytes, string_bytes_trailing,
    string_roundtrips,
};

verus! {

// ---------------------------------------------------------------------------
// Sequences of bytes

/// Reading `n` elements from where a sequence is written yields the
/// sequence, for any element decoder that undoes the element encoder.
#[verifier::spinoff_prover]
pub proof fn lemma_fixed_len<T>(s: Seq<T>, f: spec_fn(T) -> Seq<u8>, w: nat)
    requires
        forall|x: T| #[trigger] f(x).len() == w,
    ensures
        fixed_bytes(s, f).len() == w * s.len(),
    decreases s.len(),
{
    if s.len() > 0 {
        lemma_fixed_len(s.drop_last(), f, w);
        assert(w * (s.len() - 1) + w == w * s.len()) by (nonlinear_arith);
    }
}

#[verifier::spinoff_prover]
pub proof fn lemma_fixed_at<T>(d: Seq<u8>, p: int, s: Seq<T>, f: spec_fn(T) -> Seq<u8>, w: nat, i: int)
    requires
        forall|x: T| #[trigger] f(x).len() == w,
        at(d, p, fixed_bytes(s, f)),
        0 <= i < s.len(),
    ensures
        at(d, p + w * i, f(s[i])),
    decreases s.len(),
{
    let t = s.drop_last();
    lemma_fixed_len(t, f, w);
    lemma_at_split(d, p, fixed_bytes(t, f), f(s.last()));
    if i < s.len() - 1 {
        lemma_fixed_at(d, p, t, f, w, i);
    }
}

#[verifier::spinoff_prover]
pub proof fn lemma_read_fixed<T>(
    d: Seq<u8>,
    p: int,
    s: Seq<T>,
    f: spec_fn(T) -> Seq<u8>,
    g: spec_fn(Seq<u8>) -> T,
    w: nat,
)
    requires
        forall|x: T| #[trigger] f(x).len() == w,
        forall|i: int| 0 <= i < s.len() ==> #[trigger] g(f(s[i])) == s[i],
        at(d, p, fixed_bytes(s, f)),
    ensures
        sp_fixed(d, p, s.len(), w, g) == Ok::<(Seq<T>, nat), SpecParseError>((s, w * s.len())),
        fixed_bytes(s, f).len() == w * s.len(),
{
    lemma_fixed_len(s, f, w);
    assert forall|i: int| 0 <= i < s.len() implies #[trigger] g(d.subrange(p + w * i, p + w * i + w)) == s[i] by {
        lemma_fixed_at(d, p, s, f, w, i);
        assert(g(f(s[i])) == s[i]);
    }
    let r = Seq::new(s.len(), |i: int| g(d.subrange(p + w * i, p + w * i + w)));
    assert(r =~= s);
}

#[verifier::spinoff_prover]
pub proof fn lemma_fixed2<T>(a: T, b: T, f: spec_fn(T) -> Seq<u8>)
    ensures
        fixed_bytes(seq![a, b], f) == f(a) + f(b),
{
    assert(seq![a, b].drop_last() =~= seq![a]);
    assert(seq![a].drop_last() =~= Seq::<T>::empty());
    assert(fixed_bytes(Seq::<T>::empty(), f) =~= Seq::<u8>::empty());
    assert(fixed_bytes(seq![a], f) =~= f(a));
}

#[verifier::spinoff_prover]
proof fn lemma_fixed3<T>(a: T, b: T, c: T, f: spec_fn(T) -> Seq<u8>)
    ensures
        fixed_bytes(seq![a, b, c], f) == f(a) + f(b) + f(c),
{
    assert(seq![a, b, c].drop_last() =~= seq![a, b]);
    lemma_fixed2(a, b, f);
}

#[verifier::spinoff_prover]
proof fn lemma_fixed4<T>(a: T, b: T, c: T, e: T, f: spec_fn(T) -> Seq<u8>)
    ensures
        fixed_bytes(seq![a, b, c, e], f) == f(a) + f(b) + f(c) + f(e),
{
    assert(seq![a, b, c, e].drop_last() =~= seq![a, b, c]);
    lemma_fixed3(a, b, c, f);
}

// ---------------------------------------------------------------------------
// Lists of strings

pub open spec fn strings_roundtrip(s: Seq<Seq<char>>) -> bool {
    forall|i: int| 0 <= i < s.len() ==> #[trigger] string_roundtrips(s[i])
}

#[verifier::spinoff_prover]
proof fn lemma_strings_front(s: Seq<Seq<char>>)
    requires
        s.len() > 0,
    ensures
        strings_bytes(s) == string_bytes(s[0]) + strings_bytes(s.drop_first()),
    decreases s.len(),
{
    if s.len() == 1 {
        assert(s.drop_last() =~= Seq::<Seq<char>>::empty());
        assert(s.drop_first() =~= Seq::<Seq<char>>::empty());
        assert(strings_bytes(s) =~= string_bytes(s[0]) + strings_bytes(s.drop_first()));
    } else {
        lemma_strings_front(s.drop_last());
        assert(s.drop_last().drop_first() =~= s.drop_first().drop_last());
        assert(strings_bytes(s) =~= string_bytes(s[0]) + strings_bytes(s.drop_first()));
    }
}

#[verifier::spinoff_prover]
pub proof fn lemma_read_strings(d: Seq<u8>, p: int, s: Seq<Seq<char>>)
    requires
        strings_roundtrip(s),
        at(d, p, strings_bytes(s)),
    ensures
        sp_strings(d, p, s.len()) == Ok::<(Seq<Seq<char>>, nat), SpecParseError>((s, strings_bytes(s).len())),
    decreases s.len(),
{
    if s.len() > 0 {
        lemma_strings_front(s);
        lemma_at_split(d, p, string_bytes(s[0]), strings_bytes(s.drop_first()));
        assert(string_roundtrips(s[0]));
        lemma_read_string(d, p, s[0]);
        assert forall|i: int| 0 <= i < s.drop_first().len() implies #[trigger] string_roundtrips(
            s.drop_first()[i],
        ) by {
            assert(string_roundtrips(s[i + 1]));
        }
        lemma_read_strings(d, p + string_bytes(s[0]).len(), s.drop_first());
        assert(seq![s[0]] + s.drop_first() =~= s);
    } else {
        assert(s =~= Seq::<Seq<char>>::empty());
    }
}

/// A count that the writer stores without truncation.
pub open spec fn count_fits(n: nat) -> bool {
    n < 0x1_0000_0000
}

#[verifier::spinoff_prover]
pub proof fn lemma_read_count(d: Seq<u8>, p: int, n: nat)
    requires
        count_fits(n),
        at(d, p, count_bytes(n)),
    ensures
        sp_u32(d, p) == Ok::<(u32, nat), SpecParseError>((n as u32, 4)),
        (n as u32) as nat == n,
        count_bytes(n).len() == 4,
{
    lemma_auto_spec_u32_to_from_le_bytes();
    lemma_read_u32(d, p, n as u32);
}

#[verifier::spinoff_prover]
pub proof fn lemma_read_string_list(d: Seq<u8>, p: int, s: Seq<Seq<char>>)
    requires
        strings_roundtrip(s),
        count_fits(s.len()),
        at(d, p, count_bytes(s.len()) + strings_bytes(s)),
    ensures
        sp_string_list(d, p) == Ok::<(Seq<Seq<char>>, nat), SpecParseError>(
            (s, (count_bytes(s.len()) + strings_bytes(s)).len()),
        ),
{
    lemma_at_split(d, p, count_bytes(s.len()), strings_bytes(s));
    lemma_read_count(d, p, s.len());
    lemma_read_strings(d, p + 4, s);
}

#[verifier::spinoff_prover]
pub proof fn lemma_read_string_pair(d: Seq<u8>, p: int, a: Seq<char>, b: Seq<char>)
    requires
        string_roundtrips(a),
        string_roundtrips(b),
        at(d, p, string_bytes(a) + string_bytes(b)),
    ensures
        sp_string_pair(d, p) == Ok::<((Seq<char>, Seq<char>), nat), SpecParseError>(
            ((a, b), (string_bytes(a) + string_bytes(b)).len()),
        ),
{
    lemma_at_split(d, p, string_bytes(a), string_bytes(b));
    lemma_read_string(d, p, a);
    lemma_read_string(d, p + string_bytes(a).len(), b);
}

#[verifier::spinoff_prover]
proof fn lemma_pairs_front(s: Seq<(Seq<char>, Seq<char>)>)
    requires
        s.len() > 0,
    ensures
        string_pairs_bytes(s) == (string_bytes(s[0].0) + string_bytes(s[0].1)) + string_pairs_bytes(
            s.drop_first(),
        ),
    decreases s.len(),
{
    if s.len() == 1 {
        assert(s.drop_last() =~= Seq::<(Seq<char>, Seq<char>)>::empty());
        assert(s.drop_first() =~= Seq::<(Seq<char>, Seq<char>)>::empty());
        assert(string_pairs_bytes(s) =~= (string_bytes(s[0].0) + string_bytes(s[0].1))
            + string_pairs_bytes(s.drop_first()));
    } else {
        lemma_pairs_front(s.drop_last());
        assert(s.drop_last().drop_first() =~= s.drop_first().drop_last());
        assert(string_pairs_bytes(s) =~= (string_bytes(s[0].0) + string_bytes(s[0].1))
            + string_pairs_bytes(s.drop_first()));
    }
}

pub open spec fn pairs_roundtrip(s: Seq<(Seq<char>, Seq<char>)>) -> bool {
    forall|i: int| 0 <= i < s.len() ==> string_roundtrips(#[trigger] s[i].0) && string_roundtrips(s[i].1)
}

#[verifier::spinoff_prover]
pub proof fn lemma_read_string_pairs(d: Seq<u8>, p: int, s: Seq<(Seq<char>, Seq<char>)>)
    requires
        pairs_roundtrip(s),
        at(d, p, string_pairs_bytes(s)),
    ensures
        sp_string_pairs(d, p, s.len()) == Ok::<(Seq<(Seq<char>, Seq<char>)>, nat), SpecParseError>(
            (s, string_pairs_bytes(s).len()),
        ),
    decreases s.len(),
{
    if s.len() > 0 {
        lemma_pairs_front(s);
        let h = string_bytes(s[0].0) + string_bytes(s[0].1);
        lemma_at_split(d, p, h, string_pairs_bytes(s.drop_first()));
        assert(string_roundtrips(s[0].0) && string_roundtrips(s[0].1));
        lemma_read_string_pair(d, p, s[0].0, s[0].1);
        assert forall|i: int| 0 <= i < s.drop_first().len() implies string_roundtrips(
            #[trigger] s.drop_first()[i].0,
        ) && string_roundtrips(s.drop_first()[i].1) by {
            assert(string_roundtrips(s[i + 1].0));
        }
        lemma_read_string_pairs(d, p + h.len(), s.drop_first());
        assert(seq![s[0]] + s.drop_first() =~= s);
    } else {
        assert(s =~= Seq::<(Seq<char>, Seq<char>)>::empty());
    }
}

// ---------------------------------------------------------------------------
// Plain structs

pub open spec fn delegate_roundtrips(v: SpecDelegate) -> bool {
    string_roundtrips(v.name) && string_roundtrips(v.path)
}

pub open spec fn delegates_roundtrip(s: Seq<SpecDelegate>) -> bool {
    &&& count_fits(s.len())
    &&& forall|i: int| 0 <= i < s.len() ==> #[trigger] delegate_roundtrips(s[i])
}

#[verifier::spinoff_prover]
pub proof fn lemma_read_delegate(d: Seq<u8>, p: int, v: SpecDelegate)
    requires
        delegate_roundtrips(v),
        at(d, p, delegate_bytes(v)),
    ensures
        sp_delegate(d, p) == Ok::<(SpecDelegate, nat), SpecParseError>((v, delegate_bytes(v).len())),
{
    lemma_read_string_pair(d, p, v.name, v.path);
}

#[verifier::spinoff_prover]
proof fn lemma_delegates_front(s: Seq<SpecDelegate>)
    requires
        s.len() > 0,
    ensures
        delegates_bytes(s) == delegate_bytes(s[0]) + delegates_bytes(s.drop_first()),
    decreases s.len(),
{
    if s.len() == 1 {
        assert(s.drop_last() =~= Seq::<SpecDelegate>::empty());
        assert(s.drop_first() =~= Seq::<SpecDelegate>::empty());
        assert(delegates_bytes(s) =~= delegate_bytes(s[0]) + delegates_bytes(s.drop_first()));
    } else {
        lemma_delegates_front(s.drop_last());
        assert(s.drop_last().drop_first() =~= s.drop_first().drop_last());
        assert(delegates_bytes(s) =~= delegate_bytes(s[0]) + delegates_bytes(s.drop_first()));
    }
}

#[verifier::spinoff_prover]
proof fn lemma_read_delegates(d: Seq<u8>, p: int, s: Seq<SpecDelegate>)
    requires
        forall|i: int| 0 <= i < s.len() ==> #[trigger] delegate_roundtrips(s[i]),
        at(d, p, delegates_bytes(s)),
    ensures
        sp_delegates(d, p, s.len()) == Ok::<(Seq<SpecDelegate>, nat), SpecParseError>(
            (s, delegates_bytes(s).len()),
        ),
    decreases s.len(),
{
    if s.len() > 0 {
        lemma_delegates_front(s);
        lemma_at_split(d, p, delegate_bytes(s[0]), delegates_bytes(s.drop_first()));
        assert(delegate_roundtrips(s[0]));
        lemma_read_delegate(d, p, s[0]);
        assert forall|i: int| 0 <= i < s.drop_first().len() implies #[trigger] delegate_roundtrips(
            s.drop_first()[i],
        ) by {
            assert(delegate_roundtrips(s[i + 1]));
        }
        lemma_read_delegates(d, p + delegate_bytes(s[0]).len(), s.drop_first());
        assert(seq![s[0]] + s.drop_first() =~= s);
    } else {
        assert(s =~= Seq::<SpecDelegate>::empty());
    }
}

#[verifier::spinoff_prover]
pub proof fn lemma_read_multicast(d: Seq<u8>, p: int, s: Seq<SpecDelegate>)
    requires
        delegates_roundtrip(s),
        at(d, p, multicast_bytes(s)),
    ensures
        sp_multicast(d, p) == Ok::<(Seq<SpecDelegate>, nat), SpecParseError>((s, multicast_bytes(s).len())),
{
    lemma_at_split(d, p, count_bytes(s.len()), delegates_bytes(s));
    lemma_read_count(d, p, s.len());
    lemma_read_delegates(d, p + 4, s);
}

pub open spec fn field_path_roundtrips(v: SpecFieldPath) -> bool {
    strings_roundtrip(v.path) && count_fits(v.path.len()) && string_roundtrips(v.owner)
}

#[verifier::spinoff_prover]
pub proof fn lemma_read_field_path(d: Seq<u8>, p: int, v: SpecFieldPath)
    requires
        field_path_roundtrips(v),
        at(d, p, field_path_bytes(v)),
    ensures
        sp_field_path(d, p) == Ok::<(SpecFieldPath, nat), SpecParseError>((v, field_path_bytes(v).len())),
{
    lemma_at_split(d, p, count_bytes(v.path.len()) + strings_bytes(v.path), string_bytes(v.owner));
    lemma_read_string_list(d, p, v.path);
    lemma_read_string(d, p + (count_bytes(v.path.len()) + strings_bytes(v.path)).len(), v.owner);
}

// ---------------------------------------------------------------------------
// Vectors, colors and points

/// A component the writer stores without losing bits: without large world
/// coordinates only the low 32 bits are stored.
pub open spec fn component_fits(x: u64, lwc: bool) -> bool {
    lwc || x < 0x1_0000_0000
}

#[verifier::spinoff_prover]
proof fn lemma_component(x: u64, lwc: bool)
    ensures
        component_bytes(x, lwc).len() == (if lwc { 8nat } else { 4nat }),
        component_fits(x, lwc) ==> (if lwc {
            le_u64(component_bytes(x, lwc))
        } else {
            le_u32(component_bytes(x, lwc)) as u64
        }) == x,
{
    lemma_auto_spec_u32_to_from_le_bytes();
    lemma_auto_spec_u64_to_from_le_bytes();
    if lwc {
        assert(spec_u64_to_le_bytes(x).len() == 8);
        assert(spec_u64_from_le_bytes(spec_u64_to_le_bytes(x)) == x);
    } else {
        let y = x as u32;
        assert(spec_u32_to_le_bytes(y).len() == 4);
        assert(spec_u32_from_le_bytes(spec_u32_to_le_bytes(y)) == y);
    }
}

#[verifier::spinoff_prover]
proof fn lemma_read_components(d: Seq<u8>, p: int, s: Seq<u64>, lwc: bool)
    requires
        forall|i: int| 0 <= i < s.len() ==> component_fits(#[trigger] s[i], lwc),
        at(d, p, fixed_bytes(s, |x: u64| component_bytes(x, lwc))),
    ensures
        sp_components(d, p, lwc, s.len()) == Ok::<(Seq<u64>, nat), SpecParseError>(
            (s, fixed_bytes(s, |x: u64| component_bytes(x, lwc)).len()),
        ),
{
    let f = |x: u64| component_bytes(x, lwc);
    assert forall|x: u64| #[trigger] f(x).len() == (if lwc { 8nat } else { 4nat }) by {
        lemma_component(x, lwc);
    }
    if lwc {
        let g = |b: Seq<u8>| le_u64(b);
        assert forall|i: int| 0 <= i < s.len() implies #[trigger] g(f(s[i])) == s[i] by {
            assert(component_fits(s[i], lwc));
            lemma_component(s[i], lwc);
        }
        lemma_read_fixed(d, p, s, f, g, 8);
    } else {
        let g = |b: Seq<u8>| le_u32(b) as u64;
        assert forall|i: int| 0 <= i < s.len() implies #[trigger] g(f(s[i])) == s[i] by {
            assert(component_fits(s[i], lwc));
            lemma_component(s[i], lwc);
        }
        lemma_read_fixed(d, p, s, f, g, 4);
    }
}

pub open spec fn vector_fits(v: Vector, lwc: bool) -> bool {
    component_fits(v.x, lwc) && component_fits(v.y, lwc) && component_fits(v.z, lwc)
}

#[verifier::spinoff_prover]
pub proof fn lemma_read_vector(d: Seq<u8>, p: int, v: Vector, lwc: bool)
    requires
        vector_fits(v, lwc),
        at(d, p, vector_bytes(v, lwc)),
    ensures
        sp_vector(d, p, lwc) == Ok::<(Vector, nat), SpecParseError>((v, vector_bytes(v, lwc).len())),
{
    let s = seq![v.x, v.y, v.z];
    lemma_fixed3(v.x, v.y, v.z, |x: u64| component_bytes(x, lwc));
    lemma_read_components(d, p, s, lwc);
}

pub open spec fn rotator_fits(v: Rotator, lwc: bool) -> bool {
    component_fits(v.x, lwc) && component_fits(v.y, lwc) && component_fits(v.z, lwc)
}

#[verifier::spinoff_prover]
pub proof fn lemma_read_rotator(d: Seq<u8>, p: int, v: Rotator, lwc: bool)
    requires
        rotator_fits(v, lwc),
        at(d, p, rotator_bytes(v, lwc)),
    ensures
        sp_rotator(d, p, lwc) == Ok::<(Rotator, nat), SpecParseError>((v, rotator_bytes(v, lwc).len())),
{
    let s = seq![v.x, v.y, v.z];
    lemma_fixed3(v.x, v.y, v.z, |x: u64| component_bytes(x, lwc));
    lemma_read_components(d, p, s, lwc);
}

pub open spec fn quat_fits(v: Quat, lwc: bool) -> bool {
    component_fits(v.x, lwc) && component_fits(v.y, lwc) && component_fits(v.z, lwc) && component_fits(
        v.w,
        lwc,
    )
}

#[verifier::spinoff_prover]
pub proof fn lemma_read_quat(d: Seq<u8>, p: int, v: Quat, lwc: bool)
    requires
        quat_fits(v, lwc),
        at(d, p, quat_bytes(v, lwc)),
    ensures
        sp_quat(d, p, lwc) == Ok::<(Quat, nat), SpecParseError>((v, quat_bytes(v, lwc).len())),
{
    let s = seq![v.x, v.y, v.z, v.w];
    lemma_fixed4(v.x, v.y, v.z, v.w, |x: u64| component_bytes(x, lwc));
    lemma_read_components(d, p, s, lwc);
}

#[verifier::spinoff_prover]
pub proof fn lemma_read_linear_color(d: Seq<u8>, p: int, v: LinearColor)
    requires
        at(d, p, linear_color_bytes(v)),
    ensures
        sp_linear_color(d, p) == Ok::<(LinearColor, nat), SpecParseError>((v, linear_color_bytes(v).len())),
{
    lemma_u32s();
    let s = seq![v.r, v.g, v.b, v.a];
    lemma_fixed4(v.r, v.g, v.b, v.a, |x: u32| u32_bytes(x));
    lemma_read_fixed(d, p, s, |x: u32| u32_bytes(x), |b: Seq<u8>| le_u32(b), 4);
}

#[verifier::spinoff_prover]
pub proof fn lemma_read_vector2d(d: Seq<u8>, p: int, v: Vector2D)
    requires
        at(d, p, vector2d_bytes(v)),
    ensures
        sp_vector2d(d, p) == Ok::<(Vector2D, nat), SpecParseError>((v, vector2d_bytes(v).len())),
{
    lemma_u32s();
    let s = seq![v.x, v.y];
    lemma_fixed2(v.x, v.y, |x: u32| u32_bytes(x));
    lemma_read_fixed(d, p, s, |x: u32| u32_bytes(x), |b: Seq<u8>| le_u32(b), 4);
}

#[verifier::spinoff_prover]
proof fn lemma_i32_roundtrip(x: i32)
    ensures
        i32_bytes(x).len() == 4,
        le_i32(i32_bytes(x)) == x,
{
    lemma_auto_spec_u32_to_from_le_bytes();
    let y = x as u32;
    assert(spec_u32_to_le_bytes(y).len() == 4);
    assert(spec_u32_from_le_bytes(spec_u32_to_le_bytes(y)) == y);
    assert((x as u32) as i32 == x) by (bit_vector);
}

#[verifier::spinoff_prover]
proof fn lemma_u32_roundtrip(x: u32)
    ensures
        u32_bytes(x).len() == 4,
        le_u32(u32_bytes(x)) == x,
{
    lemma_auto_spec_u32_to_from_le_bytes();
    assert(spec_u32_to_le_bytes(x).len() == 4);
    assert(spec_u32_from_le_bytes(spec_u32_to_le_bytes(x)) == x);
}

#[verifier::spinoff_prover]
proof fn lemma_i32s()
    ensures
        forall|x: i32| #[trigger] i32_bytes(x).len() == 4,
        forall|x: i32| #[trigger] le_i32(i32_bytes(x)) == x,
{
    assert forall|x: i32| #[trigger] i32_bytes(x).len() == 4 by {
        lemma_i32_roundtrip(x);
    }
    assert forall|x: i32| #[trigger] le_i32(i32_bytes(x)) == x by {
        lemma_i32_roundtrip(x);
    }
}

#[verifier::spinoff_prover]
proof fn lemma_u32s()
    ensures
        forall|x: u32| #[trigger] u32_bytes(x).len() == 4,
        forall|x: u32| #[trigger] le_u32(u32_bytes(x)) == x,
{
    assert forall|x: u32| #[trigger] u32_bytes(x).len() == 4 by {
        lemma_u32_roundtrip(x);
    }
    assert forall|x: u32| #[trigger] le_u32(u32_bytes(x)) == x by {
        lemma_u32_roundtrip(x);
    }
}

#[verifier::spinoff_prover]
pub proof fn lemma_read_int_point(d: Seq<u8>, p: int, v: IntPoint)
    requires
        at(d, p, int_point_bytes(v)),
    ensures
        sp_int_point(d, p) == Ok::<(IntPoint, nat), SpecParseError>((v, int_point_bytes(v).len())),
{
    lemma_i32s();
    let s = seq![v.x, v.y];
    lemma_fixed2(v.x, v.y, |x: i32| i32_bytes(x));
    lemma_read_fixed(d, p, s, |x: i32| i32_bytes(x), |b: Seq<u8>| le_i32(b), 4);
}

#[verifier::spinoff_prover]
pub proof fn lemma_read_color(d: Seq<u8>, p: int, v: Color)
    requires
        at(d, p, color_bytes(v)),
    ensures
        sp_color(d, p) == Ok::<(Color, nat), SpecParseError>((v, color_bytes(v).len())),
{
}

#[verifier::spinoff_prover]
pub proof fn lemma_read_number_options(d: Seq<u8>, p: int, o: FNumberFormattingOptions)
    requires
        at(d, p, number_options_bytes(o)),
    ensures
        sp_number_options(d, p) == Ok::<(FNumberFormattingOptions, nat), SpecParseError>(
            (o, number_options_bytes(o).len()),
        ),
{
    lemma_u32s();
    lemma_i32s();
    let a: u32 = if o.always_sign { 1 } else { 0 };
    let b: u32 = if o.use_grouping { 1 } else { 0 };
    let flags = u32_bytes(a) + u32_bytes(b);
    let digits = i32_bytes(o.minimum_integral_digits) + i32_bytes(o.maximum_integral_digits) + i32_bytes(
        o.minimum_fractional_digits,
    ) + i32_bytes(o.maximum_fractional_digits);
    assert(number_options_bytes(o) =~= flags + i8_bytes(o.rounding_mode) + digits);
    lemma_at_split(d, p, flags + i8_bytes(o.rounding_mode), digits);
    lemma_at_split(d, p, flags, i8_bytes(o.rounding_mode));
    lemma_fixed2(a, b, |x: u32| u32_bytes(x));
    lemma_read_fixed(d, p, seq![a, b], |x: u32| u32_bytes(x), |b: Seq<u8>| le_u32(b), 4);
    lemma_read_i8(d, p + 8, o.rounding_mode);
    lemma_fixed4(
        o.minimum_integral_digits,
        o.maximum_integral_digits,
        o.minimum_fractional_digits,
        o.maximum_fractional_digits,
        |x: i32| i32_bytes(x),
    );
    lemma_read_fixed(
        d,
        p + 9,
        seq![
            o.minimum_integral_digits,
            o.maximum_integral_digits,
            o.minimum_fractional_digits,
            o.maximum_fractional_digits,
        ],
        |x: i32| i32_bytes(x),
        |b: Seq<u8>| le_i32(b),
        4,
    );
}

// ---------------------------------------------------------------------------
// Text

/// An argument value whose integer fits the width it is written with.
pub open spec fn format_value_roundtrips(v: SpecFormatValue, wide: bool) -> bool
    decreases v,
{
    match v {
        SpecFormatValue::Int(x) => if wide {
            i64::MIN <= x <= i64::MAX
        } else {
            i32::MIN <= x <= i32::MAX
        },
        SpecFormatValue::UInt(x) => if wide {
            0 <= x <= u64::MAX
        } else {
            0 <= x <= u32::MAX
        },
        SpecFormatValue::Text(t) => text_roundtrips(*t),
        _ => true,
    }
}

pub open spec fn format_arguments_roundtrip(a: Seq<SpecFormatArgument>) -> bool
    decreases a,
{
    a.len() == 0 || (format_arguments_roundtrip(a.drop_last()) && string_roundtrips(a.last().name)
        && format_value_roundtrips(a.last().value, false))
}

pub open spec fn text_roundtrips(t: SpecText) -> bool
    decreases t,
{
    history_roundtrips(t.variant)
}

pub open spec fn history_roundtrips(v: SpecTextVariant) -> bool
    decreases v,
{
    match v {
        SpecTextVariant::NoHistory { culture_invariant } => match culture_invariant {
            Some(s) => string_roundtrips(s),
            None => true,
        },
        SpecTextVariant::Base { namespace, key, source_string } => string_roundtrips(namespace)
            && string_roundtrips(key) && string_roundtrips(source_string),
        SpecTextVariant::ArgumentFormat { format_text, arguments } => text_roundtrips(*format_text)
            && count_fits(arguments.len()) && format_arguments_roundtrip(arguments),
        SpecTextVariant::AsNumber { source_value, culture_name, .. } => format_value_roundtrips(
            source_value,
            true,
        ) && string_roundtrips(culture_name),
        SpecTextVariant::AsDate { time_zone, culture_name, .. } => string_roundtrips(time_zone)
            && string_roundtrips(culture_name),
        SpecTextVariant::StringTableEntry { table, key } => string_roundtrips(table)
            && string_roundtrips(key),
    }
}

/// The kind byte a history is written with.
pub open spec fn history_kind(v: SpecTextVariant) -> i8 {
    match v {
        SpecTextVariant::NoHistory { .. } => -1i8,
        SpecTextVariant::Base { .. } => 0i8,
        SpecTextVariant::ArgumentFormat { .. } => 3i8,
        SpecTextVariant::AsNumber { .. } => 4i8,
        SpecTextVariant::AsDate { .. } => 7i8,
        SpecTextVariant::StringTableEntry { .. } => 0xbi8,
    }
}

#[verifier::spinoff_prover]
proof fn lemma_arguments_front(a: Seq<SpecFormatArgument>)
    requires
        a.len() > 0,
    ensures
        format_arguments_bytes(a) == (string_bytes(a[0].name) + format_value_bytes(a[0].value, false))
            + format_arguments_bytes(a.drop_first()),
        format_arguments_roundtrip(a) ==> string_roundtrips(a[0].name) && format_value_roundtrips(
            a[0].value,
            false,
        ) && format_arguments_roundtrip(a.drop_first()),
    decreases a.len(),
{
    if a.len() == 1 {
        assert(a.drop_last() =~= Seq::<SpecFormatArgument>::empty());
        assert(a.drop_first() =~= Seq::<SpecFormatArgument>::empty());
        assert(format_arguments_bytes(a) =~= (string_bytes(a[0].name) + format_value_bytes(
            a[0].value,
            false,
        )) + format_arguments_bytes(a.drop_first()));
    } else {
        lemma_arguments_front(a.drop_last());
        assert(a.drop_last().drop_first() =~= a.drop_first().drop_last());
        assert(format_arguments_bytes(a) =~= (string_bytes(a[0].name) + format_value_bytes(
            a[0].value,
            false,
        )) + format_arguments_bytes(a.drop_first()));
    }
}

#[verifier::spinoff_prover]
pub proof fn lemma_read_format_value(d: Seq<u8>, p: int, v: SpecFormatValue, wide: bool)
    requires
        format_value_roundtrips(v, wide),
        at(d, p, format_value_bytes(v, wide)),
    ensures
        sp_format_value(d, p, wide) == Ok::<(SpecFormatValue, nat), SpecParseError>(
            (v, format_value_bytes(v, wide).len()),
        ),
    decreases v, 0nat,
{
    lemma_auto_spec_u32_to_from_le_bytes();
    lemma_auto_spec_u64_to_from_le_bytes();
    match v {
        SpecFormatValue::Int(x) => {
            if wide {
                lemma_at_split(d, p, u8_bytes(0), i64_bytes(x as i64));
                lemma_read_u8(d, p, 0);
                crate::bytes::lemma_read_i64(d, p + 1, x as i64);
            } else {
                lemma_at_split(d, p, u8_bytes(0), i32_bytes(x as i32));
                lemma_read_u8(d, p, 0);
                lemma_read_i32(d, p + 1, x as i32);
            }
        },
        SpecFormatValue::UInt(x) => {
            if wide {
                lemma_at_split(d, p, u8_bytes(1), u64_bytes(x as u64));
                lemma_read_u8(d, p, 1);
                lemma_read_u64(d, p + 1, x as u64);
            } else {
                lemma_at_split(d, p, u8_bytes(1), u32_bytes(x as u32));
                lemma_read_u8(d, p, 1);
                lemma_read_u32(d, p + 1, x as u32);
            }
        },
        SpecFormatValue::Float(x) => {
            lemma_at_split(d, p, u8_bytes(2), u32_bytes(x));
            lemma_read_u8(d, p, 2);
            lemma_read_u32(d, p + 1, x);
        },
        SpecFormatValue::Double(x) => {
            lemma_at_split(d, p, u8_bytes(3), u64_bytes(x));
            lemma_read_u8(d, p, 3);
            lemma_read_u64(d, p + 1, x);
        },
        SpecFormatValue::Text(t) => {
            lemma_at_split(d, p, u8_bytes(4), text_bytes(*t));
            lemma_read_u8(d, p, 4);
            lemma_read_text(d, p + 1, *t);
        },
        SpecFormatValue::Gender(x) => {
            lemma_at_split(d, p, u8_bytes(5), u64_bytes(x));
            lemma_read_u8(d, p, 5);
            lemma_read_u64(d, p + 1, x);
        },
    }
}

#[verifier::spinoff_prover]
pub proof fn lemma_read_format_arguments(d: Seq<u8>, p: int, a: Seq<SpecFormatArgument>)
    requires
        format_arguments_roundtrip(a),
        at(d, p, format_arguments_bytes(a)),
    ensures
        sp_format_arguments(d, p, a.len()) == Ok::<(Seq<SpecFormatArgument>, nat), SpecParseError>(
            (a, format_arguments_bytes(a).len()),
        ),
    decreases a, 0nat,
{
    if a.len() > 0 {
        lemma_arguments_front(a);
        let n = string_bytes(a[0].name);
        let v = format_value_bytes(a[0].value, false);
        lemma_at_split(d, p, n + v, format_arguments_bytes(a.drop_first()));
        lemma_at_split(d, p, n, v);
        lemma_read_string(d, p, a[0].name);
        assert(decreases_to!(a => a[0]));
        lemma_read_format_value(d, p + n.len(), a[0].value, false);
        lemma_read_format_arguments(d, p + n.len() + v.len(), a.drop_first());
        assert(seq![SpecFormatArgument { name: a[0].name, value: a[0].value }] + a.drop_first() =~= a);
    } else {
        assert(a =~= Seq::<SpecFormatArgument>::empty());
    }
}

#[verifier::spinoff_prover]
pub proof fn lemma_read_text(d: Seq<u8>, p: int, t: SpecText)
    requires
        text_roundtrips(t),
        at(d, p, text_bytes(t)),
    ensures
        sp_text(d, p) == Ok::<(SpecText, nat), SpecParseError>((t, text_bytes(t).len())),
    decreases t, 2nat,
{
    lemma_auto_spec_u32_to_from_le_bytes();
    lemma_at_split(d, p, u32_bytes(t.flags), text_variant_bytes(t.variant));
    lemma_read_u32(d, p, t.flags);
    lemma_read_history(d, p + 4, t.variant);
    assert(history_reads_back(d, p + 4, t.variant));
}

/// A history written at `p` (its kind byte first) reads back: the kind
/// byte, then the history itself.
pub open spec fn history_reads_back(d: Seq<u8>, p: int, v: SpecTextVariant) -> bool {
    &&& sp_i8(d, p) == Ok::<(i8, nat), SpecParseError>((history_kind(v), 1))
    &&& text_variant_bytes(v).len() >= 1
    &&& sp_text_history(d, p + 1, history_kind(v)) == Ok::<(SpecTextVariant, nat), SpecParseError>(
        (v, (text_variant_bytes(v).len() - 1) as nat),
    )
}

#[verifier::spinoff_prover]
pub proof fn lemma_read_history(d: Seq<u8>, p: int, v: SpecTextVariant)
    requires
        history_roundtrips(v),
        at(d, p, text_variant_bytes(v)),
    ensures
        history_reads_back(d, p, v),
    decreases v, 1nat,
{
    match v {
        SpecTextVariant::NoHistory { .. } => lemma_read_history_none(d, p, v),
        SpecTextVariant::Base { .. } => lemma_read_history_base(d, p, v),
        SpecTextVariant::ArgumentFormat { .. } => lemma_read_history_format(d, p, v),
        SpecTextVariant::AsNumber { .. } => lemma_read_history_number(d, p, v),
        SpecTextVariant::AsDate { .. } => lemma_read_history_date(d, p, v),
        SpecTextVariant::StringTableEntry { .. } => lemma_read_history_table(d, p, v),
    }
}

#[verifier::spinoff_prover]
proof fn lemma_read_history_none(d: Seq<u8>, p: int, v: SpecTextVariant)
    requires
        v is NoHistory,
        history_roundtrips(v),
        at(d, p, text_variant_bytes(v)),
    ensures
        history_reads_back(d, p, v),
    decreases v, 0nat,
{
    lemma_auto_spec_u32_to_from_le_bytes();
    lemma_auto_spec_u64_to_from_le_bytes();
    match v {
        SpecTextVariant::NoHistory { culture_invariant } => {
            let rest = match culture_invariant {
                Some(s) => u32_bytes(1) + string_bytes(s),
                None => u32_bytes(0),
            };
            lemma_at_split(d, p, i8_bytes(-1i8), rest);
            lemma_read_i8(d, p, -1i8);
            match culture_invariant {
                Some(s) => {
                    lemma_at_split(d, p + 1, u32_bytes(1), string_bytes(s));
                    lemma_read_u32(d, p + 1, 1);
                    lemma_read_string(d, p + 5, s);
                },
                None => {
                    lemma_read_u32(d, p + 1, 0);
                },
            }
        },
        _ => {},
    }
}

#[verifier::spinoff_prover]
proof fn lemma_read_history_base(d: Seq<u8>, p: int, v: SpecTextVariant)
    requires
        v is Base,
        history_roundtrips(v),
        at(d, p, text_variant_bytes(v)),
    ensures
        history_reads_back(d, p, v),
    decreases v, 0nat,
{
    lemma_auto_spec_u32_to_from_le_bytes();
    lemma_auto_spec_u64_to_from_le_bytes();
    match v {
        SpecTextVariant::Base { namespace, key, source_string } => {
            let a = string_bytes_trailing(namespace);
            let b = string_bytes(key);
            let c = string_bytes(source_string);
            assert(text_variant_bytes(v) =~= i8_bytes(0i8) + (a + (b + c)));
            lemma_at_split(d, p, i8_bytes(0i8), a + (b + c));
            lemma_read_i8(d, p, 0i8);
            lemma_at_split(d, p + 1, a, b + c);
            lemma_read_string_trailing(d, p + 1, namespace);
            lemma_read_string_pair(d, p + 1 + a.len(), key, source_string);
        },
        _ => {},
    }
}

#[verifier::spinoff_prover]
proof fn lemma_read_history_format(d: Seq<u8>, p: int, v: SpecTextVariant)
    requires
        v is ArgumentFormat,
        history_roundtrips(v),
        at(d, p, text_variant_bytes(v)),
    ensures
        history_reads_back(d, p, v),
    decreases v, 0nat,
{
    lemma_auto_spec_u32_to_from_le_bytes();
    lemma_auto_spec_u64_to_from_le_bytes();
    match v {
        SpecTextVariant::ArgumentFormat { format_text, arguments } => {
            let a = text_bytes(*format_text);
            let b = count_bytes(arguments.len());
            let c = format_arguments_bytes(arguments);
            assert(text_variant_bytes(v) =~= i8_bytes(3i8) + (a + (b + c)));
            lemma_at_split(d, p, i8_bytes(3i8), a + (b + c));
            lemma_read_i8(d, p, 3i8);
            lemma_at_split(d, p + 1, a, b + c);
            lemma_read_text(d, p + 1, *format_text);
            lemma_at_split(d, p + 1 + a.len(), b, c);
            lemma_read_count(d, p + 1 + a.len(), arguments.len());
            lemma_read_format_arguments(d, p + 1 + a.len() + 4, arguments);
        },
        _ => {},
    }
}

#[verifier::spinoff_prover]
#[verifier::rlimit(100)]
proof fn lemma_read_history_number(d: Seq<u8>, p: int, v: SpecTextVariant)
    requires
        v is AsNumber,
        history_roundtrips(v),
        at(d, p, text_variant_bytes(v)),
    ensures
        history_reads_back(d, p, v),
    decreases v, 0nat,
{
    lemma_auto_spec_u32_to_from_le_bytes();
    lemma_auto_spec_u64_to_from_le_bytes();
    match v {
        SpecTextVariant::AsNumber { source_value, format_options, culture_name } => {
            let a = format_value_bytes(source_value, true);
            let b = match format_options {
                Some(o) => u32_bytes(1) + number_options_bytes(o),
                None => u32_bytes(0),
            };
            let c = string_bytes(culture_name);
            assert(text_variant_bytes(v) =~= i8_bytes(4i8) + (a + (b + c)));
            lemma_at_split(d, p, i8_bytes(4i8), a + (b + c));
            lemma_read_i8(d, p, 4i8);
            lemma_at_split(d, p + 1, a, b + c);
            lemma_read_format_value(d, p + 1, source_value, true);
            lemma_at_split(d, p + 1 + a.len(), b, c);
            match format_options {
                Some(o) => {
                    lemma_at_split(d, p + 1 + a.len(), u32_bytes(1), number_options_bytes(o));
                    lemma_read_u32(d, p + 1 + a.len(), 1);
                    lemma_read_number_options(d, p + 1 + a.len() + 4, o);
                },
                None => {
                    lemma_read_u32(d, p + 1 + a.len(), 0);
                },
            }
            lemma_read_string(d, p + 1 + a.len() + b.len(), culture_name);
        },
        _ => {},
    }
}

#[verifier::spinoff_prover]
proof fn lemma_read_history_date(d: Seq<u8>, p: int, v: SpecTextVariant)
    requires
        v is AsDate,
        history_roundtrips(v),
        at(d, p, text_variant_bytes(v)),
    ensures
        history_reads_back(d, p, v),
    decreases v, 0nat,
{
    lemma_auto_spec_u32_to_from_le_bytes();
    lemma_auto_spec_u64_to_from_le_bytes();
    match v {
        SpecTextVariant::AsDate { source_date_time, date_style, time_zone, culture_name } => {
            let a = u64_bytes(source_date_time);
            let b = i8_bytes(date_style);
            let c = string_bytes(time_zone) + string_bytes(culture_name);
            assert(text_variant_bytes(v) =~= i8_bytes(7i8) + (a + (b + c)));
            lemma_at_split(d, p, i8_bytes(7i8), a + (b + c));
            lemma_read_i8(d, p, 7i8);
            lemma_at_split(d, p + 1, a, b + c);
            lemma_read_u64(d, p + 1, source_date_time);
            lemma_at_split(d, p + 9, b, c);
            lemma_read_i8(d, p + 9, date_style);
            lemma_read_string_pair(d, p + 10, time_zone, culture_name);
        },
        _ => {},
    }
}

#[verifier::spinoff_prover]
proof fn lemma_read_history_table(d: Seq<u8>, p: int, v: SpecTextVariant)
    requires
        v is StringTableEntry,
        history_roundtrips(v),
        at(d, p, text_variant_bytes(v)),
    ensures
        history_reads_back(d, p, v),
    decreases v, 0nat,
{
    lemma_auto_spec_u32_to_from_le_bytes();
    lemma_auto_spec_u64_to_from_le_bytes();
    match v {
        SpecTextVariant::StringTableEntry { table, key } => {
            let c = string_bytes(table) + string_bytes(key);
            assert(text_variant_bytes(v) =~= i8_bytes(0xbi8) + c);
            lemma_at_split(d, p, i8_bytes(0xbi8), c);
            lemma_read_i8(d, p, 0xbi8);
            lemma_read_string_pair(d, p + 1, table, key);
        },
        _ => {},
    }
}

// ---------------------------------------------------------------------------
// Type names

/// The name a property type is stored under reads back.
#[verifier::spinoff_prover]
pub proof fn lemma_property_type_name(t: PropertyType)
    ensures
        string_roundtrips(property_type_name(t)),
        property_type_from_name(property_type_name(t)) == Some(t),
{
    crate::laws::law_property_type_name_roundtrip(t);
    match t {
        PropertyType::Int8Property => {
            reveal_strlit("Int8Property");
            assert forall|i: int| 0 <= i < "Int8Property"@.len() implies ("Int8Property"@[i] as u32) != 0 by {
                assert(i == 0 || i == 1 || i == 2 || i == 3 || i == 4 || i == 5 || i == 6 || i == 7 || i == 8 || i == 9 || i == 10 || i == 11);
            }
        },
        PropertyType::Int16Property => {
            reveal_strlit("Int16Property");
            assert forall|i: int| 0 <= i < "Int16Property"@.len() implies ("Int16Property"@[i] as u32) != 0 by {
                assert(i == 0 || i == 1 || i == 2 || i == 3 || i == 4 || i == 5 || i == 6 || i == 7 || i == 8 || i == 9 || i == 10 || i == 11 || i == 12);
            }
        },
        PropertyType::IntProperty => {
            reveal_strlit("IntProperty");
            assert forall|i: int| 0 <= i < "IntProperty"@.len() implies ("IntProperty"@[i] as u32) != 0 by {
                assert(i == 0 || i == 1 || i == 2 || i == 3 || i == 4 || i == 5 || i == 6 || i == 7 || i == 8 || i == 9 || i == 10);
            }
        },
        PropertyType::Int64Property => {
            reveal_strlit("Int64Property");
            assert forall|i: int| 0 <= i < "Int64Property"@.len() implies ("Int64Property"@[i] as u32) != 0 by {
                assert(i == 0 || i == 1 || i == 2 || i == 3 || i == 4 || i == 5 || i == 6 || i == 7 || i == 8 || i == 9 || i == 10 || i == 11 || i == 12);
            }
        },
        PropertyType::UInt8Property => {
            reveal_strlit("UInt8Property");
            assert forall|i: int| 0 <= i < "UInt8Property"@.len() implies ("UInt8Property"@[i] as u32) != 0 by {
                assert(i == 0 || i == 1 || i == 2 || i == 3 || i == 4 || i == 5 || i == 6 || i == 7 || i == 8 || i == 9 || i == 10 || i == 11 || i == 12);
            }
        },
        PropertyType::UInt16Property => {
            reveal_strlit("UInt16Property");
            assert forall|i: int| 0 <= i < "UInt16Property"@.len() implies ("UInt16Property"@[i] as u32) != 0 by {
                assert(i == 0 || i == 1 || i == 2 || i == 3 || i == 4 || i == 5 || i == 6 || i == 7 || i == 8 || i == 9 || i == 10 || i == 11 || i == 12 || i == 13);
            }
        },
        PropertyType::UInt32Property => {
            reveal_strlit("UInt32Property");
            assert forall|i: int| 0 <= i < "UInt32Property"@.len() implies ("UInt32Property"@[i] as u32) != 0 by {
                assert(i == 0 || i == 1 || i == 2 || i == 3 || i == 4 || i == 5 || i == 6 || i == 7 || i == 8 || i == 9 || i == 10 || i == 11 || i == 12 || i == 13);
            }
        },
        PropertyType::UInt64Property => {
            reveal_strlit("UInt64Property");
            assert forall|i: int| 0 <= i < "UInt64Property"@.len() implies ("UInt64Property"@[i] as u32) != 0 by {
                assert(i == 0 || i == 1 || i == 2 || i == 3 || i == 4 || i == 5 || i == 6 || i == 7 || i == 8 || i == 9 || i == 10 || i == 11 || i == 12 || i == 13);
            }
        },
        PropertyType::FloatProperty => {
            reveal_strlit("FloatProperty");
            assert forall|i: int| 0 <= i < "FloatProperty"@.len() implies ("FloatProperty"@[i] as u32) != 0 by {
                assert(i == 0 || i == 1 || i == 2 || i == 3 || i == 4 || i == 5 || i == 6 || i == 7 || i == 8 || i == 9 || i == 10 || i == 11 || i == 12);
            }
        },
        PropertyType::DoubleProperty => {
            reveal_strlit("DoubleProperty");
            assert forall|i: int| 0 <= i < "DoubleProperty"@.len() implies ("DoubleProperty"@[i] as u32) != 0 by {
                assert(i == 0 || i == 1 || i == 2 || i == 3 || i == 4 || i == 5 || i == 6 || i == 7 || i == 8 || i == 9 || i == 10 || i == 11 || i == 12 || i == 13);
            }
        },
        PropertyType::BoolProperty => {
            reveal_strlit("BoolProperty");
            assert forall|i: int| 0 <= i < "BoolProperty"@.len() implies ("BoolProperty"@[i] as u32) != 0 by {
                assert(i == 0 || i == 1 || i == 2 || i == 3 || i == 4 || i == 5 || i == 6 || i == 7 || i == 8 || i == 9 || i == 10 || i == 11);
            }
        },
        PropertyType::ByteProperty => {
            reveal_strlit("ByteProperty");
            assert forall|i: int| 0 <= i < "ByteProperty"@.len() implies ("ByteProperty"@[i] as u32) != 0 by {
                assert(i == 0 || i == 1 || i == 2 || i == 3 || i == 4 || i == 5 || i == 6 || i == 7 || i == 8 || i == 9 || i == 10 || i == 11);
            }
        },
        PropertyType::EnumProperty => {
            reveal_strlit("EnumProperty");
            assert forall|i: int| 0 <= i < "EnumProperty"@.len() implies ("EnumProperty"@[i] as u32) != 0 by {
                assert(i == 0 || i == 1 || i == 2 || i == 3 || i == 4 || i == 5 || i == 6 || i == 7 || i == 8 || i == 9 || i == 10 || i == 11);
            }
        },
        PropertyType::ArrayProperty => {
            reveal_strlit("ArrayProperty");
            assert forall|i: int| 0 <= i < "ArrayProperty"@.len() implies ("ArrayProperty"@[i] as u32) != 0 by {
                assert(i == 0 || i == 1 || i == 2 || i == 3 || i == 4 || i == 5 || i == 6 || i == 7 || i == 8 || i == 9 || i == 10 || i == 11 || i == 12);
            }
        },
        PropertyType::ObjectProperty => {
            reveal_strlit("ObjectProperty");
            assert forall|i: int| 0 <= i < "ObjectProperty"@.len() implies ("ObjectProperty"@[i] as u32) != 0 by {
                assert(i == 0 || i == 1 || i == 2 || i == 3 || i == 4 || i == 5 || i == 6 || i == 7 || i == 8 || i == 9 || i == 10 || i == 11 || i == 12 || i == 13);
            }
        },
        PropertyType::StrProperty => {
            reveal_strlit("StrProperty");
            assert forall|i: int| 0 <= i < "StrProperty"@.len() implies ("StrProperty"@[i] as u32) != 0 by {
                assert(i == 0 || i == 1 || i == 2 || i == 3 || i == 4 || i == 5 || i == 6 || i == 7 || i == 8 || i == 9 || i == 10);
            }
        },
        PropertyType::FieldPathProperty => {
            reveal_strlit("FieldPathProperty");
            assert forall|i: int| 0 <= i < "FieldPathProperty"@.len() implies ("FieldPathProperty"@[i] as u32) != 0 by {
                assert(i == 0 || i == 1 || i == 2 || i == 3 || i == 4 || i == 5 || i == 6 || i == 7 || i == 8 || i == 9 || i == 10 || i == 11 || i == 12 || i == 13 || i == 14 || i == 15 || i == 16);
            }
        },
        PropertyType::SoftObjectProperty => {
            reveal_strlit("SoftObjectProperty");
            assert forall|i: int| 0 <= i < "SoftObjectProperty"@.len() implies ("SoftObjectProperty"@[i] as u32) != 0 by {
                assert(i == 0 || i == 1 || i == 2 || i == 3 || i == 4 || i == 5 || i == 6 || i == 7 || i == 8 || i == 9 || i == 10 || i == 11 || i == 12 || i == 13 || i == 14 || i == 15 || i == 16 || i == 17);
            }
        },
        PropertyType::NameProperty => {
            reveal_strlit("NameProperty");
            assert forall|i: int| 0 <= i < "NameProperty"@.len() implies ("NameProperty"@[i] as u32) != 0 by {
                assert(i == 0 || i == 1 || i == 2 || i == 3 || i == 4 || i == 5 || i == 6 || i == 7 || i == 8 || i == 9 || i == 10 || i == 11);
            }
        },
        PropertyType::TextProperty => {
            reveal_strlit("TextProperty");
            assert forall|i: int| 0 <= i < "TextProperty"@.len() implies ("TextProperty"@[i] as u32) != 0 by {
                assert(i == 0 || i == 1 || i == 2 || i == 3 || i == 4 || i == 5 || i == 6 || i == 7 || i == 8 || i == 9 || i == 10 || i == 11);
            }
        },
        PropertyType::DelegateProperty => {
            reveal_strlit("DelegateProperty");
            assert forall|i: int| 0 <= i < "DelegateProperty"@.len() implies ("DelegateProperty"@[i] as u32) != 0 by {
                assert(i == 0 || i == 1 || i == 2 || i == 3 || i == 4 || i == 5 || i == 6 || i == 7 || i == 8 || i == 9 || i == 10 || i == 11 || i == 12 || i == 13 || i == 14 || i == 15);
            }
        },
        PropertyType::MulticastDelegateProperty => {
            reveal_strlit("MulticastDelegateProperty");
            assert forall|i: int| 0 <= i < "MulticastDelegateProperty"@.len() implies ("MulticastDelegateProperty"@[i] as u32) != 0 by {
                assert(i == 0 || i == 1 || i == 2 || i == 3 || i == 4 || i == 5 || i == 6 || i == 7 || i == 8 || i == 9 || i == 10 || i == 11 || i == 12 || i == 13 || i == 14 || i == 15 || i == 16 || i == 17 || i == 18 || i == 19 || i == 20 || i == 21 || i == 22 || i == 23 || i == 24);
            }
        },
        PropertyType::MulticastInlineDelegateProperty => {
            reveal_strlit("MulticastInlineDelegateProperty");
            assert forall|i: int| 0 <= i < "MulticastInlineDelegateProperty"@.len() implies ("MulticastInlineDelegateProperty"@[i] as u32) != 0 by {
                assert(i == 0 || i == 1 || i == 2 || i == 3 || i == 4 || i == 5 || i == 6 || i == 7 || i == 8 || i == 9 || i == 10 || i == 11 || i == 12 || i == 13 || i == 14 || i == 15 || i == 16 || i == 17 || i == 18 || i == 19 || i == 20 || i == 21 || i == 22 || i == 23 || i == 24 || i == 25 || i == 26 || i == 27 || i == 28 || i == 29 || i == 30);
            }
        },
        PropertyType::MulticastSparseDelegateProperty => {
            reveal_strlit("MulticastSparseDelegateProperty");
            assert forall|i: int| 0 <= i < "MulticastSparseDelegateProperty"@.len() implies ("MulticastSparseDelegateProperty"@[i] as u32) != 0 by {
                assert(i == 0 || i == 1 || i == 2 || i == 3 || i == 4 || i == 5 || i == 6 || i == 7 || i == 8 || i == 9 || i == 10 || i == 11 || i == 12 || i == 13 || i == 14 || i == 15 || i == 16 || i == 17 || i == 18 || i == 19 || i == 20 || i == 21 || i == 22 || i == 23 || i == 24 || i == 25 || i == 26 || i == 27 || i == 28 || i == 29 || i == 30);
            }
        },
        PropertyType::SetProperty => {
            reveal_strlit("SetProperty");
            assert forall|i: int| 0 <= i < "SetProperty"@.len() implies ("SetProperty"@[i] as u32) != 0 by {
                assert(i == 0 || i == 1 || i == 2 || i == 3 || i == 4 || i == 5 || i == 6 || i == 7 || i == 8 || i == 9 || i == 10);
            }
        },
        PropertyType::MapProperty => {
            reveal_strlit("MapProperty");
            assert forall|i: int| 0 <= i < "MapProperty"@.len() implies ("MapProperty"@[i] as u32) != 0 by {
                assert(i == 0 || i == 1 || i == 2 || i == 3 || i == 4 || i == 5 || i == 6 || i == 7 || i == 8 || i == 9 || i == 10);
            }
        },
        PropertyType::StructProperty => {
            reveal_strlit("StructProperty");
            assert forall|i: int| 0 <= i < "StructProperty"@.len() implies ("StructProperty"@[i] as u32) != 0 by {
                assert(i == 0 || i == 1 || i == 2 || i == 3 || i == 4 || i == 5 || i == 6 || i == 7 || i == 8 || i == 9 || i == 10 || i == 11 || i == 12 || i == 13);
            }
        },
    }
}

/// The name a built-in struct type is stored under reads back.
#[verifier::spinoff_prover]
pub proof fn lemma_struct_type_name(t: SpecStructType)
    requires
        t != SpecStructType::Struct(None),
        t matches SpecStructType::Struct(Some(s)) ==> !reserved_struct_name(s) && string_roundtrips(s),
    ensures
        string_roundtrips(struct_type_name(t)),
        struct_type_from_name(struct_type_name(t)) == t,
{
    crate::laws::law_struct_type_name_roundtrip(t);
    match t {
        SpecStructType::Guid => {
            reveal_strlit("Guid");
            assert forall|i: int| 0 <= i < "Guid"@.len() implies ("Guid"@[i] as u32) != 0 by {
                assert(i == 0 || i == 1 || i == 2 || i == 3);
            }
        },
        SpecStructType::DateTime => {
            reveal_strlit("DateTime");
            assert forall|i: int| 0 <= i < "DateTime"@.len() implies ("DateTime"@[i] as u32) != 0 by {
                assert(i == 0 || i == 1 || i == 2 || i == 3 || i == 4 || i == 5 || i == 6 || i == 7);
            }
        },
        SpecStructType::Timespan => {
            reveal_strlit("Timespan");
            assert forall|i: int| 0 <= i < "Timespan"@.len() implies ("Timespan"@[i] as u32) != 0 by {
                assert(i == 0 || i == 1 || i == 2 || i == 3 || i == 4 || i == 5 || i == 6 || i == 7);
            }
        },
        SpecStructType::Vector2D => {
            reveal_strlit("Vector2D");
            assert forall|i: int| 0 <= i < "Vector2D"@.len() implies ("Vector2D"@[i] as u32) != 0 by {
                assert(i == 0 || i == 1 || i == 2 || i == 3 || i == 4 || i == 5 || i == 6 || i == 7);
            }
        },
        SpecStructType::Vector => {
            reveal_strlit("Vector");
            assert forall|i: int| 0 <= i < "Vector"@.len() implies ("Vector"@[i] as u32) != 0 by {
                assert(i == 0 || i == 1 || i == 2 || i == 3 || i == 4 || i == 5);
            }
        },
        SpecStructType::Box => {
            reveal_strlit("Box");
            assert forall|i: int| 0 <= i < "Box"@.len() implies ("Box"@[i] as u32) != 0 by {
                assert(i == 0 || i == 1 || i == 2);
            }
        },
        SpecStructType::IntPoint => {
            reveal_strlit("IntPoint");
            assert forall|i: int| 0 <= i < "IntPoint"@.len() implies ("IntPoint"@[i] as u32) != 0 by {
                assert(i == 0 || i == 1 || i == 2 || i == 3 || i == 4 || i == 5 || i == 6 || i == 7);
            }
        },
        SpecStructType::Quat => {
            reveal_strlit("Quat");
            assert forall|i: int| 0 <= i < "Quat"@.len() implies ("Quat"@[i] as u32) != 0 by {
                assert(i == 0 || i == 1 || i == 2 || i == 3);
            }
        },
        SpecStructType::Rotator => {
            reveal_strlit("Rotator");
            assert forall|i: int| 0 <= i < "Rotator"@.len() implies ("Rotator"@[i] as u32) != 0 by {
                assert(i == 0 || i == 1 || i == 2 || i == 3 || i == 4 || i == 5 || i == 6);
            }
        },
        SpecStructType::LinearColor => {
            reveal_strlit("LinearColor");
            assert forall|i: int| 0 <= i < "LinearColor"@.len() implies ("LinearColor"@[i] as u32) != 0 by {
                assert(i == 0 || i == 1 || i == 2 || i == 3 || i == 4 || i == 5 || i == 6 || i == 7 || i == 8 || i == 9 || i == 10);
            }
        },
        SpecStructType::Color => {
            reveal_strlit("Color");
            assert forall|i: int| 0 <= i < "Color"@.len() implies ("Color"@[i] as u32) != 0 by {
                assert(i == 0 || i == 1 || i == 2 || i == 3 || i == 4);
            }
        },
        SpecStructType::SoftObjectPath => {
            reveal_strlit("SoftObjectPath");
            assert forall|i: int| 0 <= i < "SoftObjectPath"@.len() implies ("SoftObjectPath"@[i] as u32) != 0 by {
                assert(i == 0 || i == 1 || i == 2 || i == 3 || i == 4 || i == 5 || i == 6 || i == 7 || i == 8 || i == 9 || i == 10 || i == 11 || i == 12 || i == 13);
            }
        },
        SpecStructType::GameplayTagContainer => {
            reveal_strlit("GameplayTagContainer");
            assert forall|i: int| 0 <= i < "GameplayTagContainer"@.len() implies ("GameplayTagContainer"@[i] as u32) != 0 by {
                assert(i == 0 || i == 1 || i == 2 || i == 3 || i == 4 || i == 5 || i == 6 || i == 7 || i == 8 || i == 9 || i == 10 || i == 11 || i == 12 || i == 13 || i == 14 || i == 15 || i == 16 || i == 17 || i == 18 || i == 19);
            }
        },
        _ => {},
    }
}

/// "None" reads back.
#[verifier::spinoff_prover]
pub proof fn lemma_none_name()
    ensures
        string_roundtrips("None"@),
{
    reveal_strlit("None");
    assert forall|i: int| 0 <= i < "None"@.len() implies ("None"@[i] as u32) != 0 by {
        assert(i == 0 || i == 1 || i == 2 || i == 3);
    }
}

// ---------------------------------------------------------------------------
// Vectorized values

#[verifier::spinoff_prover]
proof fn lemma_texts_front(s: Seq<SpecText>)
    requires
        s.len() > 0,
    ensures
        texts_bytes(s) == text_bytes(s[0]) + texts_bytes(s.drop_first()),
    decreases s.len(),
{
    if s.len() == 1 {
        assert(s.drop_last() =~= Seq::<SpecText>::empty());
        assert(s.drop_first() =~= Seq::<SpecText>::empty());
        assert(texts_bytes(s) =~= text_bytes(s[0]) + texts_bytes(s.drop_first()));
    } else {
        lemma_texts_front(s.drop_last());
        assert(s.drop_last().drop_first() =~= s.drop_first().drop_last());
        assert(texts_bytes(s) =~= text_bytes(s[0]) + texts_bytes(s.drop_first()));
    }
}

#[verifier::spinoff_prover]
#[verifier::rlimit(100)]
proof fn lemma_read_texts(d: Seq<u8>, p: int, s: Seq<SpecText>)
    requires
        forall|i: int| 0 <= i < s.len() ==> #[trigger] text_roundtrips(s[i]),
        at(d, p, texts_bytes(s)),
    ensures
        sp_texts(d, p, s.len()) == Ok::<(Seq<SpecText>, nat), SpecParseError>((s, texts_bytes(s).len())),
    decreases s.len(),
{
    if s.len() > 0 {
        lemma_texts_front(s);
        lemma_at_split(d, p, text_bytes(s[0]), texts_bytes(s.drop_first()));
        assert(text_roundtrips(s[0]));
        lemma_read_text(d, p, s[0]);
        assert forall|i: int| 0 <= i < s.drop_first().len() implies #[trigger] text_roundtrips(s.drop_first()[i]) by {
            assert(text_roundtrips(s[i + 1]));
        }
        lemma_read_texts(d, p + text_bytes(s[0]).len(), s.drop_first());
        assert(seq![s[0]] + s.drop_first() =~= s);
    } else {
        assert(s =~= Seq::<SpecText>::empty());
    }
}

/// The element type a vector is read back with; none for the vectors the
/// reader has no form for.
pub open spec fn vec_type(v: SpecValueVec) -> Option<PropertyType> {
    match v {
        SpecValueVec::Int(_) => Some(PropertyType::IntProperty),
        SpecValueVec::Int16(_) => Some(PropertyType::Int16Property),
        SpecValueVec::Int64(_) => Some(PropertyType::Int64Property),
        SpecValueVec::UInt16(_) => Some(PropertyType::UInt16Property),
        SpecValueVec::UInt32(_) => Some(PropertyType::UInt32Property),
        SpecValueVec::Float(_) => Some(PropertyType::FloatProperty),
        SpecValueVec::Double(_) => Some(PropertyType::DoubleProperty),
        SpecValueVec::Bool(_) => Some(PropertyType::BoolProperty),
        SpecValueVec::Byte(_) => Some(PropertyType::ByteProperty),
        SpecValueVec::Enum(_) => Some(PropertyType::EnumProperty),
        SpecValueVec::Str(_) => Some(PropertyType::StrProperty),
        SpecValueVec::Text(_) => Some(PropertyType::TextProperty),
        SpecValueVec::SoftObject(_) => Some(PropertyType::SoftObjectProperty),
        SpecValueVec::Name(_) => Some(PropertyType::NameProperty),
        SpecValueVec::Object(_) => Some(PropertyType::ObjectProperty),
        _ => None,
    }
}

pub open spec fn vec_len(v: SpecValueVec) -> nat {
    match v {
        SpecValueVec::Int8(s) => s.len(),
        SpecValueVec::Int16(s) => s.len(),
        SpecValueVec::Int(s) => s.len(),
        SpecValueVec::Int64(s) => s.len(),
        SpecValueVec::UInt8(s) => s.len(),
        SpecValueVec::UInt16(s) => s.len(),
        SpecValueVec::UInt32(s) => s.len(),
        SpecValueVec::UInt64(s) => s.len(),
        SpecValueVec::Float(s) => s.len(),
        SpecValueVec::Double(s) => s.len(),
        SpecValueVec::Bool(s) => s.len(),
        SpecValueVec::Byte(SpecByteArray::Byte(s)) => s.len(),
        SpecValueVec::Byte(SpecByteArray::Label(s)) => s.len(),
        SpecValueVec::Enum(s) => s.len(),
        SpecValueVec::Str(s) => s.len(),
        SpecValueVec::Text(s) => s.len(),
        SpecValueVec::SoftObject(s) => s.len(),
        SpecValueVec::Name(s) => s.len(),
        SpecValueVec::Object(s) => s.len(),
        SpecValueVec::Box(s) => s.len(),
    }
}

/// The bytes of a vector's values, after its count.
pub open spec fn vec_elems(v: SpecValueVec, lwc: bool) -> Seq<u8> {
    match v {
        SpecValueVec::Int8(s) => fixed_bytes(s, |x: i8| i8_bytes(x)),
        SpecValueVec::Int16(s) => fixed_bytes(s, |x: i16| i16_bytes(x)),
        SpecValueVec::Int(s) => fixed_bytes(s, |x: i32| i32_bytes(x)),
        SpecValueVec::Int64(s) => fixed_bytes(s, |x: i64| i64_bytes(x)),
        SpecValueVec::UInt8(s) => s,
        SpecValueVec::UInt16(s) => fixed_bytes(s, |x: u16| u16_bytes(x)),
        SpecValueVec::UInt32(s) => fixed_bytes(s, |x: u32| u32_bytes(x)),
        SpecValueVec::UInt64(s) => fixed_bytes(s, |x: u64| u64_bytes(x)),
        SpecValueVec::Float(s) => fixed_bytes(s, |x: u32| u32_bytes(x)),
        SpecValueVec::Double(s) => fixed_bytes(s, |x: u64| u64_bytes(x)),
        SpecValueVec::Bool(s) => fixed_bytes(s, |x: bool| bool_byte(x)),
        SpecValueVec::Byte(SpecByteArray::Byte(s)) => s,
        SpecValueVec::Byte(SpecByteArray::Label(s)) => strings_bytes(s),
        SpecValueVec::Enum(s) => strings_bytes(s),
        SpecValueVec::Str(s) => strings_bytes(s),
        SpecValueVec::Text(s) => texts_bytes(s),
        SpecValueVec::SoftObject(s) => string_pairs_bytes(s),
        SpecValueVec::Name(s) => strings_bytes(s),
        SpecValueVec::Object(s) => strings_bytes(s),
        SpecValueVec::Box(s) => boxes_bytes(s, lwc),
    }
}

#[verifier::spinoff_prover]
pub proof fn lemma_vec_bytes(v: SpecValueVec, lwc: bool)
    ensures
        value_vec_bytes(v, lwc) == count_bytes(vec_len(v)) + vec_elems(v, lwc),
{
}

/// A vector the reader reads back: one it has a form for, whose count the
/// writer stores, and whose strings read back.  A vector of enum labels is
/// told from one of bytes by its size, so it may not be empty.
pub open spec fn value_vec_roundtrips(v: SpecValueVec) -> bool {
    &&& vec_type(v) is Some
    &&& count_fits(vec_len(v))
    &&& match v {
        SpecValueVec::Byte(SpecByteArray::Label(l)) => l.len() > 0 && strings_roundtrip(l),
        SpecValueVec::Enum(l) => strings_roundtrip(l),
        SpecValueVec::Str(l) => strings_roundtrip(l),
        SpecValueVec::Name(l) => strings_roundtrip(l),
        SpecValueVec::Object(l) => strings_roundtrip(l),
        SpecValueVec::Text(l) => forall|i: int| 0 <= i < l.len() ==> #[trigger] text_roundtrips(l[i]),
        SpecValueVec::SoftObject(l) => pairs_roundtrip(l),
        _ => true,
    }
}

/// The size the reader is handed tells a vector of bytes (size equal to the
/// count) from one of labels.
pub open spec fn vec_size_ok(v: SpecValueVec, size: u64) -> bool {
    v matches SpecValueVec::Byte(b) ==> (size == vec_len(v) <==> b is Byte)
}

#[verifier::spinoff_prover]
proof fn lemma_read_raw_bytes(d: Seq<u8>, p: int, s: Seq<u8>)
    requires
        at(d, p, s),
    ensures
        sp_fixed(d, p, s.len(), 1, |b: Seq<u8>| le_u8(b)) == Ok::<(Seq<u8>, nat), SpecParseError>((s, s.len())),
{
    let g = |b: Seq<u8>| le_u8(b);
    let r = Seq::new(s.len(), |i: int| g(d.subrange(p + 1 * i, p + 1 * i + 1)));
    assert forall|i: int| 0 <= i < s.len() implies r[i] == s[i] by {
        assert(d.subrange(p + 1 * i, p + 1 * i + 1)[0] == d[p + i]);
        assert(d[p + i] == d.subrange(p, p + s.len())[i]);
    }
    assert(r =~= s);
}

#[verifier::spinoff_prover]
proof fn lemma_u16_roundtrip(x: u16)
    ensures
        u16_bytes(x).len() == 2,
        le_u16(u16_bytes(x)) == x,
        le_i16(i16_bytes(x as i16)) == x as i16,
{
    lemma_auto_spec_u16_to_from_le_bytes();
    assert(spec_u16_to_le_bytes(x).len() == 2);
    assert(spec_u16_from_le_bytes(spec_u16_to_le_bytes(x)) == x);
    let y = x as i16;
    assert(((x as i16) as u16) == x) by (bit_vector);
    assert(spec_u16_to_le_bytes(y as u16).len() == 2);
}

#[verifier::spinoff_prover]
#[verifier::rlimit(100)]
pub proof fn lemma_read_value_vec(d: Seq<u8>, p: int, v: SpecValueVec, lwc: bool, size: u64)
    requires
        value_vec_roundtrips(v),
        vec_size_ok(v, size),
        at(d, p, vec_elems(v, lwc)),
    ensures
        sp_value_vec(d, p, vec_type(v)->Some_0, size, vec_len(v)) == Ok::<(SpecValueVec, nat), SpecParseError>(
            (v, vec_elems(v, lwc).len()),
        ),
{
    reveal_with_fuel(sp_value_vec, 1);
    lemma_auto_spec_u16_to_from_le_bytes();
    lemma_auto_spec_u32_to_from_le_bytes();
    lemma_auto_spec_u64_to_from_le_bytes();
    match v {
        SpecValueVec::Int(s) => {
            lemma_i32s();
            lemma_read_fixed(d, p, s, |x: i32| i32_bytes(x), |b: Seq<u8>| le_i32(b), 4);
        },
        SpecValueVec::Int16(s) => {
            assert forall|x: i16| #[trigger] le_i16(i16_bytes(x)) == x by {
                lemma_u16_roundtrip(x as u16);
                assert(((x as u16) as i16) == x) by (bit_vector);
            }
            lemma_read_fixed(d, p, s, |x: i16| i16_bytes(x), |b: Seq<u8>| le_i16(b), 2);
        },
        SpecValueVec::Int64(s) => {
            assert forall|x: i64| #[trigger] le_i64(i64_bytes(x)) == x by {
                assert(spec_u64_from_le_bytes(spec_u64_to_le_bytes(x as u64)) == x as u64);
                assert((x as u64) as i64 == x) by (bit_vector);
            }
            lemma_read_fixed(d, p, s, |x: i64| i64_bytes(x), |b: Seq<u8>| le_i64(b), 8);
        },
        SpecValueVec::UInt16(s) => {
            assert forall|x: u16| #[trigger] le_u16(u16_bytes(x)) == x by {
                lemma_u16_roundtrip(x);
            }
            lemma_read_fixed(d, p, s, |x: u16| u16_bytes(x), |b: Seq<u8>| le_u16(b), 2);
        },
        SpecValueVec::UInt32(s) => {
            lemma_u32s();
            lemma_read_fixed(d, p, s, |x: u32| u32_bytes(x), |b: Seq<u8>| le_u32(b), 4);
        },
        SpecValueVec::Float(s) => {
            lemma_u32s();
            lemma_read_fixed(d, p, s, |x: u32| u32_bytes(x), |b: Seq<u8>| le_u32(b), 4);
        },
        SpecValueVec::Double(s) => {
            lemma_read_fixed(d, p, s, |x: u64| u64_bytes(x), |b: Seq<u8>| le_u64(b), 8);
        },
        SpecValueVec::Bool(s) => {
            lemma_read_fixed(d, p, s, |x: bool| bool_byte(x), |b: Seq<u8>| le_bool(b), 1);
        },
        SpecValueVec::Byte(SpecByteArray::Byte(s)) => {
            lemma_read_raw_bytes(d, p, s);
        },
        SpecValueVec::Byte(SpecByteArray::Label(s)) => {
            lemma_read_strings(d, p, s);
        },
        SpecValueVec::Enum(s) => {
            lemma_read_strings(d, p, s);
        },
        SpecValueVec::Str(s) => {
            lemma_read_strings(d, p, s);
        },
        SpecValueVec::Name(s) => {
            lemma_read_strings(d, p, s);
        },
        SpecValueVec::Object(s) => {
            lemma_read_strings(d, p, s);
        },
        SpecValueVec::Text(s) => {
            lemma_read_texts(d, p, s);
        },
        SpecValueVec::SoftObject(s) => {
            lemma_read_string_pairs(d, p, s);
        },
        _ => {},
    }
}

/// Every stored string takes at least its 4-byte length.
#[verifier::spinoff_prover]
pub proof fn lemma_strings_len(s: Seq<Seq<char>>)
    ensures
        strings_bytes(s).len() >= 4 * s.len(),
    decreases s.len(),
{
    lemma_auto_spec_u32_to_from_le_bytes();
    if s.len() > 0 {
        lemma_strings_len(s.drop_last());
        let x = s.last();
        if x.len() == 0 {
            assert(string_bytes(x).len() == 4);
        } else {
            assert(string_bytes(x).len() >= 4);
        }
    }
}

// ---------------------------------------------------------------------------
// What reads back: structs, values and properties

/// An optional GUID the reader reads back.
pub open spec fn id_ok(id: Option<Seq<u8>>) -> bool {
    id matches Some(g) ==> g.len() == 16
}

/// A struct type the writer stores by a name that reads back as it.
pub open spec fn struct_type_roundtrips(t: SpecStructType) -> bool {
    &&& t != SpecStructType::Struct(None)
    &&& t matches SpecStructType::Struct(Some(s)) ==> !reserved_struct_name(s) && string_roundtrips(s)
}

/// The struct value is of the struct type `st`, which is how the reader
/// reads it where the type is not stored with it.  A box never reads back:
/// the reader takes a byte after it that the writer does not write.
pub open spec fn kind_matches(st: SpecStructType, v: SpecStructValue) -> bool {
    match v {
        SpecStructValue::Guid(_) => st == SpecStructType::Guid,
        SpecStructValue::DateTime(_) => st == SpecStructType::DateTime,
        SpecStructValue::Timespan(_) => st == SpecStructType::Timespan,
        SpecStructValue::Vector2D(_) => st == SpecStructType::Vector2D,
        SpecStructValue::Vector(_) => st == SpecStructType::Vector,
        SpecStructValue::Box(_) => false,
        SpecStructValue::IntPoint(_) => st == SpecStructType::IntPoint,
        SpecStructValue::Quat(_) => st == SpecStructType::Quat,
        SpecStructValue::LinearColor(_) => st == SpecStructType::LinearColor,
        SpecStructValue::Color(_) => st == SpecStructType::Color,
        SpecStructValue::Rotator(_) => st == SpecStructType::Rotator,
        SpecStructValue::SoftObjectPath(_, _) => st == SpecStructType::SoftObjectPath,
        SpecStructValue::GameplayTagContainer(_) => st == SpecStructType::GameplayTagContainer,
        SpecStructValue::Struct(_) => st is Struct,
    }
}

pub open spec fn struct_value_roundtrips(v: SpecStructValue, ctx: Ctx, path: Seq<char>) -> bool
    decreases v,
{
    match v {
        SpecStructValue::Guid(g) => g.len() == 16,
        SpecStructValue::Vector(x) => vector_fits(x, ctx.lwc),
        SpecStructValue::Quat(x) => quat_fits(x, ctx.lwc),
        SpecStructValue::Rotator(x) => rotator_fits(x, ctx.lwc),
        SpecStructValue::Box(_) => false,
        SpecStructValue::SoftObjectPath(a, b) => string_roundtrips(a) && string_roundtrips(b),
        SpecStructValue::GameplayTagContainer(t) => strings_roundtrip(t) && count_fits(t.len()),
        SpecStructValue::Struct(ps) => properties_roundtrip(ps, ctx, path),
        _ => true,
    }
}

pub open spec fn struct_values_roundtrip(
    s: Seq<SpecStructValue>,
    st: SpecStructType,
    ctx: Ctx,
    path: Seq<char>,
) -> bool
    decreases s,
{
    s.len() == 0 || (struct_values_roundtrip(s.drop_last(), st, ctx, path) && kind_matches(st, s.last())
        && struct_value_roundtrips(s.last(), ctx, path))
}

/// A map key or value of the type `t` the map declares (and, for a
/// struct, of the struct type `st` the reader assumes).
pub open spec fn property_value_roundtrips(
    v: SpecPropertyValue,
    t: PropertyType,
    st: SpecStructType,
    ctx: Ctx,
    path: Seq<char>,
) -> bool
    decreases v,
{
    match v {
        SpecPropertyValue::Int(_) => t == PropertyType::IntProperty,
        SpecPropertyValue::Int8(_) => t == PropertyType::Int8Property,
        SpecPropertyValue::Int16(_) => t == PropertyType::Int16Property,
        SpecPropertyValue::Int64(_) => t == PropertyType::Int64Property,
        SpecPropertyValue::UInt16(_) => t == PropertyType::UInt16Property,
        SpecPropertyValue::UInt32(_) => t == PropertyType::UInt32Property,
        SpecPropertyValue::Float(_) => t == PropertyType::FloatProperty,
        SpecPropertyValue::Double(_) => t == PropertyType::DoubleProperty,
        SpecPropertyValue::Bool(_) => t == PropertyType::BoolProperty,
        SpecPropertyValue::Byte(SpecByte::Label(l)) => t == PropertyType::ByteProperty && string_roundtrips(l),
        SpecPropertyValue::Byte(SpecByte::Byte(_)) => false,
        SpecPropertyValue::Enum(s) => t == PropertyType::EnumProperty && string_roundtrips(s),
        SpecPropertyValue::Name(s) => t == PropertyType::NameProperty && string_roundtrips(s),
        SpecPropertyValue::Str(s) => t == PropertyType::StrProperty && string_roundtrips(s),
        SpecPropertyValue::SoftObject(a, b) => t == PropertyType::SoftObjectProperty && string_roundtrips(a)
            && string_roundtrips(b),
        SpecPropertyValue::SoftObjectPath(_, _) => false,
        SpecPropertyValue::Object(s) => t == PropertyType::ObjectProperty && string_roundtrips(s),
        SpecPropertyValue::Struct(sv) => t == PropertyType::StructProperty && kind_matches(st, sv)
            && struct_value_roundtrips(sv, ctx, path),
    }
}

pub open spec fn map_entries_roundtrip(
    s: Seq<SpecMapEntry>,
    kt: PropertyType,
    kst: SpecStructType,
    vt: PropertyType,
    vst: SpecStructType,
    ctx: Ctx,
    path: Seq<char>,
) -> bool
    decreases s,
{
    s.len() == 0 || (map_entries_roundtrip(s.drop_last(), kt, kst, vt, vst, ctx, path)
        && property_value_roundtrips(s.last().key, kt, kst, ctx, path) && property_value_roundtrips(
        s.last().value,
        vt,
        vst,
        ctx,
        path,
    ))
}

/// A vector of plain values in a set or an array of element type `t`.
pub open spec fn base_roundtrips(b: SpecValueVec, t: PropertyType, lwc: bool) -> bool {
    &&& vec_type(b) == Some(t)
    &&& value_vec_roundtrips(b)
    &&& vec_elems(b, lwc).len() < 0x8000_0000_0000_0000
}

pub open spec fn value_set_roundtrips(
    v: SpecValueSet,
    t: PropertyType,
    st: SpecStructType,
    ctx: Ctx,
    path: Seq<char>,
) -> bool
    decreases v,
{
    match v {
        SpecValueSet::Base(b) => t != PropertyType::StructProperty && base_roundtrips(b, t, ctx.lwc),
        SpecValueSet::Struct(s) => t == PropertyType::StructProperty && count_fits(s.len())
            && struct_values_roundtrip(s, st, ctx, path),
    }
}

pub open spec fn value_array_roundtrips(v: SpecValueArray, t: PropertyType, ctx: Ctx, path: Seq<char>) -> bool
    decreases v,
{
    match v {
        SpecValueArray::Base(b) => t != PropertyType::StructProperty && base_roundtrips(b, t, ctx.lwc),
        SpecValueArray::Struct { element_type, name, struct_type, id, value } => {
            &&& t == PropertyType::StructProperty
            &&& string_roundtrips(element_type)
            &&& string_roundtrips(name)
            &&& struct_type_roundtrips(struct_type)
            &&& id.len() == 16
            &&& count_fits(value.len())
            &&& struct_values_roundtrip(value, struct_type, ctx, path)
        },
    }
}

/// A property at `path` that reads back as it is.
pub open spec fn property_roundtrips(p: SpecProperty, ctx: Ctx, path: Seq<char>) -> bool
    decreases p,
{
    match p {
        SpecProperty::Int8 { id, .. } => id_ok(id),
        SpecProperty::Int16 { id, .. } => id_ok(id),
        SpecProperty::Int { id, .. } => id_ok(id),
        SpecProperty::Int64 { id, .. } => id_ok(id),
        SpecProperty::UInt8 { id, .. } => id_ok(id),
        SpecProperty::UInt16 { id, .. } => id_ok(id),
        SpecProperty::UInt32 { id, .. } => id_ok(id),
        SpecProperty::UInt64 { id, .. } => id_ok(id),
        SpecProperty::Float { id, .. } => id_ok(id),
        SpecProperty::Double { id, .. } => id_ok(id),
        SpecProperty::Bool { id, .. } => id_ok(id),
        SpecProperty::Byte { id, value, enum_type } => id_ok(id) && string_roundtrips(enum_type) && match value {
            SpecByte::Byte(_) => enum_type == "None"@,
            SpecByte::Label(l) => enum_type != "None"@ && string_roundtrips(l),
        },
        SpecProperty::Enum { id, value, enum_type } => id_ok(id) && string_roundtrips(enum_type)
            && string_roundtrips(value),
        SpecProperty::Str { id, value } => id_ok(id) && string_roundtrips(value),
        SpecProperty::Name { id, value } => id_ok(id) && string_roundtrips(value),
        SpecProperty::Object { id, value } => id_ok(id) && string_roundtrips(value),
        SpecProperty::FieldPath { id, value } => id_ok(id) && field_path_roundtrips(value),
        SpecProperty::SoftObject { id, value, value2 } => id_ok(id) && string_roundtrips(value)
            && string_roundtrips(value2),
        SpecProperty::Text { id, value } => id_ok(id) && text_roundtrips(value),
        SpecProperty::Delegate { id, value } => id_ok(id) && delegate_roundtrips(value),
        SpecProperty::MulticastDelegate { id, value } => id_ok(id) && delegates_roundtrip(value),
        SpecProperty::MulticastInlineDelegate { id, value } => id_ok(id) && delegates_roundtrip(value),
        SpecProperty::MulticastSparseDelegate { id, value } => id_ok(id) && delegates_roundtrip(value),
        SpecProperty::SetOf { id, set_type, value } => id_ok(id) && value_set_roundtrips(
            value,
            set_type,
            type_or(ctx, path, SpecStructType::Guid),
            ctx,
            path,
        ),
        SpecProperty::MapOf { id, key_type, value_type, value } => id_ok(id) && count_fits(value.len())
            && map_entries_roundtrip(
            value,
            key_type,
            type_or(ctx, child_path(path, "Key"@), SpecStructType::Guid),
            value_type,
            type_or(ctx, child_path(path, "Value"@), SpecStructType::Struct(None)),
            ctx,
            path,
        ),
        SpecProperty::Struct { id, value, struct_type, struct_id } => id_ok(id) && struct_id.len() == 16
            && struct_type_roundtrips(struct_type) && kind_matches(struct_type, value)
            && struct_value_roundtrips(value, ctx, path),
        SpecProperty::RawData { .. } => false,
        SpecProperty::Array { array_type, id, value } => id_ok(id) && value_array_roundtrips(
            value,
            array_type,
            ctx,
            path,
        ),
    }
}

/// Properties that read back: each name occurs once, is not "None" and
/// reads back, and each property reads back at its path.
pub open spec fn properties_roundtrip(ps: Seq<(Seq<char>, SpecProperty)>, ctx: Ctx, path: Seq<char>) -> bool
    decreases ps,
{
    &&& unique_names(ps)
    &&& ps.len() == 0 || (properties_roundtrip(ps.drop_last(), ctx, path) && ps.last().0 != "None"@
        && string_roundtrips(ps.last().0) && property_roundtrips(
        ps.last().1,
        ctx,
        child_path(path, ps.last().0),
    ))
}

// ---------------------------------------------------------------------------
// Reading back structs, values and properties

#[verifier::spinoff_prover]
pub proof fn lemma_read_property_type(d: Seq<u8>, p: int, t: PropertyType)
    requires
        at(d, p, string_bytes(property_type_name(t))),
    ensures
        sp_property_type(d, p) == Ok::<(PropertyType, nat), SpecParseError>(
            (t, string_bytes(property_type_name(t)).len()),
        ),
{
    lemma_property_type_name(t);
    lemma_read_string(d, p, property_type_name(t));
}

#[verifier::spinoff_prover]
pub proof fn lemma_read_struct_type(d: Seq<u8>, p: int, t: SpecStructType)
    requires
        struct_type_roundtrips(t),
        at(d, p, string_bytes(struct_type_name(t))),
    ensures
        sp_struct_type(d, p) == Ok::<(SpecStructType, nat), SpecParseError>(
            (t, string_bytes(struct_type_name(t)).len()),
        ),
{
    lemma_struct_type_name(t);
    lemma_read_string(d, p, struct_type_name(t));
}

/// Setting a name that does not occur appends it.
#[verifier::spinoff_prover]
pub proof fn lemma_insert_new(acc: Seq<(Seq<char>, SpecProperty)>, name: Seq<char>, prop: SpecProperty)
    requires
        forall|i: int| 0 <= i < acc.len() ==> #[trigger] acc[i].0 != name,
    ensures
        insert_property(acc, name, prop) == acc.push((name, prop)),
{
}

#[verifier::spinoff_prover]
pub proof fn lemma_struct_values_front(s: Seq<SpecStructValue>, st: SpecStructType, ctx: Ctx, path: Seq<char>)
    requires
        s.len() > 0,
    ensures
        struct_values_bytes(s, ctx.lwc) == struct_value_bytes(s[0], ctx.lwc) + struct_values_bytes(
            s.drop_first(),
            ctx.lwc,
        ),
        struct_values_roundtrip(s, st, ctx, path) ==> kind_matches(st, s[0]) && struct_value_roundtrips(
            s[0],
            ctx,
            path,
        ) && struct_values_roundtrip(s.drop_first(), st, ctx, path),
    decreases s.len(),
{
    if s.len() == 1 {
        assert(s.drop_last() =~= Seq::<SpecStructValue>::empty());
        assert(s.drop_first() =~= Seq::<SpecStructValue>::empty());
        assert(struct_values_bytes(s, ctx.lwc) =~= struct_value_bytes(s[0], ctx.lwc) + struct_values_bytes(
            s.drop_first(),
            ctx.lwc,
        ));
    } else {
        lemma_struct_values_front(s.drop_last(), st, ctx, path);
        assert(s.drop_last().drop_first() =~= s.drop_first().drop_last());
        assert(struct_values_bytes(s, ctx.lwc) =~= struct_value_bytes(s[0], ctx.lwc) + struct_values_bytes(
            s.drop_first(),
            ctx.lwc,
        ));
    }
}

#[verifier::spinoff_prover]
pub proof fn lemma_map_entries_front(
    s: Seq<SpecMapEntry>,
    kt: PropertyType,
    kst: SpecStructType,
    vt: PropertyType,
    vst: SpecStructType,
    ctx: Ctx,
    path: Seq<char>,
)
    requires
        s.len() > 0,
    ensures
        map_entries_bytes(s, ctx.lwc) == (property_value_bytes(s[0].key, ctx.lwc) + property_value_bytes(
            s[0].value,
            ctx.lwc,
        )) + map_entries_bytes(s.drop_first(), ctx.lwc),
        map_entries_roundtrip(s, kt, kst, vt, vst, ctx, path) ==> property_value_roundtrips(
            s[0].key,
            kt,
            kst,
            ctx,
            path,
        ) && property_value_roundtrips(s[0].value, vt, vst, ctx, path) && map_entries_roundtrip(
            s.drop_first(),
            kt,
            kst,
            vt,
            vst,
            ctx,
            path,
        ),
    decreases s.len(),
{
    if s.len() == 1 {
        assert(s.drop_last() =~= Seq::<SpecMapEntry>::empty());
        assert(s.drop_first() =~= Seq::<SpecMapEntry>::empty());
        assert(map_entries_bytes(s, ctx.lwc) =~= (property_value_bytes(s[0].key, ctx.lwc) + property_value_bytes(
            s[0].value,
            ctx.lwc,
        )) + map_entries_bytes(s.drop_first(), ctx.lwc));
    } else {
        lemma_map_entries_front(s.drop_last(), kt, kst, vt, vst, ctx, path);
        assert(s.drop_last().drop_first() =~= s.drop_first().drop_last());
        assert(map_entries_bytes(s, ctx.lwc) =~= (property_value_bytes(s[0].key, ctx.lwc) + property_value_bytes(
            s[0].value,
            ctx.lwc,
        )) + map_entries_bytes(s.drop_first(), ctx.lwc));
    }
}

#[verifier::spinoff_prover]
pub proof fn lemma_properties_front(ps: Seq<(Seq<char>, SpecProperty)>, ctx: Ctx, path: Seq<char>)
    requires
        ps.len() > 0,
    ensures
        property_list_bytes(ps, ctx.lwc) == property_bytes(ps[0].0, ps[0].1, ctx.lwc) + property_list_bytes(
            ps.drop_first(),
            ctx.lwc,
        ),
        properties_roundtrip(ps, ctx, path) ==> ps[0].0 != "None"@ && string_roundtrips(ps[0].0)
            && property_roundtrips(ps[0].1, ctx, child_path(path, ps[0].0)) && properties_roundtrip(
            ps.drop_first(),
            ctx,
            path,
        ),
    decreases ps.len(),
{
    if ps.len() == 1 {
        assert(ps.drop_last() =~= Seq::<(Seq<char>, SpecProperty)>::empty());
        assert(ps.drop_first() =~= Seq::<(Seq<char>, SpecProperty)>::empty());
        assert(property_list_bytes(ps, ctx.lwc) =~= property_bytes(ps[0].0, ps[0].1, ctx.lwc)
            + property_list_bytes(ps.drop_first(), ctx.lwc));
    } else {
        lemma_properties_front(ps.drop_last(), ctx, path);
        assert(ps.drop_last().drop_first() =~= ps.drop_first().drop_last());
        assert(property_list_bytes(ps, ctx.lwc) =~= property_bytes(ps[0].0, ps[0].1, ctx.lwc)
            + property_list_bytes(ps.drop_first(), ctx.lwc));
        if properties_roundtrip(ps, ctx, path) {
            assert forall|i: int, j: int| 0 <= i < j < ps.drop_first().len() implies #[trigger] ps.drop_first()[i].0
                != #[trigger] ps.drop_first()[j].0 by {
                assert(ps[i + 1].0 != ps[j + 1].0);
            }
            assert forall|i: int, j: int| 0 <= i < j < ps.drop_last().len() implies #[trigger] ps.drop_last()[i].0
                != #[trigger] ps.drop_last()[j].0 by {
                assert(ps[i].0 != ps[j].0);
            }
        }
    }
}

pub open spec fn is_tagged(p: SpecProperty) -> bool {
    !(p is Bool || p is Byte || p is Enum || p is SetOf || p is MapOf || p is Struct || p is RawData
        || p is Array)
}

/// The optional GUID of a property.
pub open spec fn prop_id(p: SpecProperty) -> Option<Seq<u8>> {
    match p {
        SpecProperty::Int8 { id, .. } => id,
        SpecProperty::Int16 { id, .. } => id,
        SpecProperty::Int { id, .. } => id,
        SpecProperty::Int64 { id, .. } => id,
        SpecProperty::UInt8 { id, .. } => id,
        SpecProperty::UInt16 { id, .. } => id,
        SpecProperty::UInt32 { id, .. } => id,
        SpecProperty::UInt64 { id, .. } => id,
        SpecProperty::Float { id, .. } => id,
        SpecProperty::Double { id, .. } => id,
        SpecProperty::Bool { id, .. } => id,
        SpecProperty::Byte { id, .. } => id,
        SpecProperty::Enum { id, .. } => id,
        SpecProperty::Str { id, .. } => id,
        SpecProperty::FieldPath { id, .. } => id,
        SpecProperty::SoftObject { id, .. } => id,
        SpecProperty::Name { id, .. } => id,
        SpecProperty::Object { id, .. } => id,
        SpecProperty::Text { id, .. } => id,
        SpecProperty::Delegate { id, .. } => id,
        SpecProperty::MulticastDelegate { id, .. } => id,
        SpecProperty::MulticastInlineDelegate { id, .. } => id,
        SpecProperty::MulticastSparseDelegate { id, .. } => id,
        SpecProperty::SetOf { id, .. } => id,
        SpecProperty::MapOf { id, .. } => id,
        SpecProperty::Struct { id, .. } => id,
        SpecProperty::RawData { id, .. } => id,
        SpecProperty::Array { id, .. } => id,
    }
}

/// The bytes of a tagged property's value, after its optional GUID.
pub open spec fn tagged_rest(p: SpecProperty) -> Seq<u8> {
    match p {
        SpecProperty::Int8 { value, .. } => i8_bytes(value),
        SpecProperty::Int16 { value, .. } => i16_bytes(value),
        SpecProperty::Int { value, .. } => i32_bytes(value),
        SpecProperty::Int64 { value, .. } => i64_bytes(value),
        SpecProperty::UInt8 { value, .. } => u8_bytes(value),
        SpecProperty::UInt16 { value, .. } => u16_bytes(value),
        SpecProperty::UInt32 { value, .. } => u32_bytes(value),
        SpecProperty::UInt64 { value, .. } => u64_bytes(value),
        SpecProperty::Float { value, .. } => u32_bytes(value),
        SpecProperty::Double { value, .. } => u64_bytes(value),
        SpecProperty::Str { value, .. } => string_bytes(value),
        SpecProperty::Name { value, .. } => string_bytes(value),
        SpecProperty::Object { value, .. } => string_bytes(value),
        SpecProperty::FieldPath { value, .. } => field_path_bytes(value),
        SpecProperty::SoftObject { value, value2, .. } => string_bytes(value) + string_bytes(value2),
        SpecProperty::Text { value, .. } => text_bytes(value),
        SpecProperty::Delegate { value, .. } => delegate_bytes(value),
        SpecProperty::MulticastDelegate { value, .. } => multicast_bytes(value),
        SpecProperty::MulticastInlineDelegate { value, .. } => multicast_bytes(value),
        SpecProperty::MulticastSparseDelegate { value, .. } => multicast_bytes(value),
        _ => Seq::empty(),
    }
}

#[verifier::spinoff_prover]
pub proof fn lemma_tagged_body(p: SpecProperty, lwc: bool)
    requires
        is_tagged(p),
    ensures
        property_body(p, lwc).1 == opt_guid_bytes(prop_id(p)) + tagged_rest(p),
{
}

#[verifier::spinoff_prover]
#[verifier::rlimit(100)]
proof fn lemma_read_tagged(d: Seq<u8>, q: int, p: SpecProperty, ctx: Ctx, path: Seq<char>)
    requires
        is_tagged(p),
        property_roundtrips(p, ctx, path),
        at(d, q, tagged_rest(p)),
    ensures
        sp_tagged_value(d, q, property_type_of(p), prop_id(p)) == Ok::<(SpecProperty, nat), SpecParseError>(
            (p, tagged_rest(p).len()),
        ),
{
    reveal_with_fuel(sp_tagged_value, 1);
    match p {
        SpecProperty::Int8 { value, .. } => lemma_read_i8(d, q, value),
        SpecProperty::Int16 { value, .. } => crate::bytes::lemma_read_i16(d, q, value),
        SpecProperty::Int { value, .. } => lemma_read_i32(d, q, value),
        SpecProperty::Int64 { value, .. } => crate::bytes::lemma_read_i64(d, q, value),
        SpecProperty::UInt8 { value, .. } => lemma_read_u8(d, q, value),
        SpecProperty::UInt16 { value, .. } => crate::bytes::lemma_read_u16(d, q, value),
        SpecProperty::UInt32 { value, .. } => lemma_read_u32(d, q, value),
        SpecProperty::UInt64 { value, .. } => lemma_read_u64(d, q, value),
        SpecProperty::Float { value, .. } => lemma_read_u32(d, q, value),
        SpecProperty::Double { value, .. } => lemma_read_u64(d, q, value),
        SpecProperty::Str { value, .. } => lemma_read_string(d, q, value),
        SpecProperty::Name { value, .. } => lemma_read_string(d, q, value),
        SpecProperty::Object { value, .. } => lemma_read_string(d, q, value),
        SpecProperty::FieldPath { value, .. } => lemma_read_field_path(d, q, value),
        SpecProperty::SoftObject { value, value2, .. } => lemma_read_string_pair(d, q, value, value2),
        SpecProperty::Text { value, .. } => lemma_read_text(d, q, value),
        SpecProperty::Delegate { value, .. } => lemma_read_delegate(d, q, value),
        SpecProperty::MulticastDelegate { value, .. } => lemma_read_multicast(d, q, value),
        SpecProperty::MulticastInlineDelegate { value, .. } => lemma_read_multicast(d, q, value),
        SpecProperty::MulticastSparseDelegate { value, .. } => lemma_read_multicast(d, q, value),
        _ => {},
    }
}

#[verifier::spinoff_prover]
#[verifier::rlimit(100)]
pub proof fn lemma_read_simple_property(d: Seq<u8>, p: int, prop: SpecProperty, ctx: Ctx, path: Seq<char>)
    requires
        !(prop is SetOf || prop is MapOf || prop is Struct || prop is RawData || prop is Array),
        property_roundtrips(prop, ctx, path),
        at(d, p, property_body(prop, ctx.lwc).1),
    ensures
        sp_simple_property(d, p, property_type_of(prop)) == Ok::<(SpecProperty, nat), SpecParseError>(
            (prop, property_body(prop, ctx.lwc).1.len()),
        ),
{
    reveal_with_fuel(sp_simple_property, 1);
    lemma_none_name();
    match prop {
        SpecProperty::Bool { id, value } => {
            lemma_at_split(d, p, bool_byte(value), opt_guid_bytes(id));
            lemma_read_u8(d, p, if value { 1 } else { 0 });
            lemma_read_opt_guid(d, p + 1, id);
        },
        SpecProperty::Byte { id, value, enum_type } => {
            let head = string_bytes(enum_type) + opt_guid_bytes(id);
            let rest = match value {
                SpecByte::Byte(b) => u8_bytes(b),
                SpecByte::Label(l) => string_bytes(l),
            };
            lemma_at_split(d, p, head, rest);
            lemma_at_split(d, p, string_bytes(enum_type), opt_guid_bytes(id));
            lemma_read_string(d, p, enum_type);
            lemma_read_opt_guid(d, p + string_bytes(enum_type).len(), id);
            match value {
                SpecByte::Byte(b) => lemma_read_u8(d, p + head.len(), b),
                SpecByte::Label(l) => lemma_read_string(d, p + head.len(), l),
            }
        },
        SpecProperty::Enum { id, value, enum_type } => {
            let head = string_bytes(enum_type) + opt_guid_bytes(id);
            lemma_at_split(d, p, head, string_bytes(value));
            lemma_at_split(d, p, string_bytes(enum_type), opt_guid_bytes(id));
            lemma_read_string(d, p, enum_type);
            lemma_read_opt_guid(d, p + string_bytes(enum_type).len(), id);
            lemma_read_string(d, p + head.len(), value);
        },
        _ => {
            lemma_tagged_body(prop, ctx.lwc);
            lemma_at_split(d, p, opt_guid_bytes(prop_id(prop)), tagged_rest(prop));
            lemma_read_opt_guid(d, p, prop_id(prop));
            lemma_read_tagged(d, p + opt_guid_bytes(prop_id(prop)).len(), prop, ctx, path);
        },
    }
}

/// The size the reader computes for the values of a set or an array tells
/// a vector of bytes from one of labels correctly.
#[verifier::spinoff_prover]
pub proof fn lemma_base_size(b: SpecValueVec, t: PropertyType, lwc: bool)
    requires
        base_roundtrips(b, t, lwc),
    ensures
        vec_size_ok(b, vec_elems(b, lwc).len() as u64),
{
    match b {
        SpecValueVec::Byte(SpecByteArray::Label(l)) => {
            lemma_strings_len(l);
        },
        _ => {},
    }
}

} // verus!
