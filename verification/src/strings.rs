//! Strings as they are stored in a save: a signed 32-bit length, then
//! either that many bytes (a positive length) or that many UTF-16 code
//! units (a negative length), both ending in a terminating zero.
use vstd::prelude::*;
use vstd::slice::slice_subrange;
use vstd::utf8::{decode_utf8, encode_utf8, is_ascii_chars, valid_utf8};
use vstd::wrapping::{i32_specs, u32_specs};

use crate::bytes::{
    at, eof, eof_error, i32_bytes, le_read_u16, lemma_at_join, lemma_at_split, push_bytes, read_i32,
    sp_i32, u16_bytes, u32_bytes, write_i32, write_u16, write_u32, write_u8,
};
use crate::model::{Error, ParseError, SpecError, SpecParseError, SpecResult};

verus! {

broadcast use vstd::string::group_string_axioms;

// ---------------------------------------------------------------------------
// UTF-16

/// The UTF-16 code units of one character.
pub open spec fn char_utf16(c: char) -> Seq<u16> {
    let v = c as u32;
    if v < 0x10000 {
        seq![v as u16]
    } else {
        seq![(0xD800 + (v - 0x10000) / 0x400) as u16, (0xDC00 + (v - 0x10000) % 0x400) as u16]
    }
}

/// The UTF-16 encoding of a string.
pub open spec fn utf16_encode(s: Seq<char>) -> Seq<u16>
    decreases s.len(),
{
    if s.len() == 0 {
        Seq::empty()
    } else {
        char_utf16(s[0]) + utf16_encode(s.drop_first())
    }
}

/// The string that UTF-16 code units encode; `None` when a surrogate is
/// unpaired.
pub open spec fn utf16_decode(u: Seq<u16>) -> Option<Seq<char>>
    decreases u.len(),
{
    if u.len() == 0 {
        Some(Seq::empty())
    } else if 0xD800 <= u[0] < 0xDC00 {
        if u.len() >= 2 && 0xDC00 <= u[1] < 0xE000 {
            match utf16_decode(u.subrange(2, u.len() as int)) {
                Some(rest) => Some(
                    seq![(((u[0] - 0xD800) * 0x400 + (u[1] - 0xDC00) + 0x10000) as u32) as char] + rest,
                ),
                None => None,
            }
        } else {
            None
        }
    } else if 0xDC00 <= u[0] < 0xE000 {
        None
    } else {
        match utf16_decode(u.drop_first()) {
            Some(rest) => Some(seq![(u[0] as u32) as char] + rest),
            None => None,
        }
    }
}

/// `String::from_utf16`: the decoded string, or `None` where the standard
/// library reports invalid data.
#[verifier::external_body]
fn decode_utf16(units: &[u16]) -> (r: Option<String>)
    ensures
        r is Some <==> utf16_decode(units@) is Some,
        r matches Some(s) ==> s@ == utf16_decode(units@)->Some_0,
{
    String::from_utf16(units).ok()
}

/// `str::encode_utf16`, collected: the UTF-16 code units of `s`.
#[verifier::external_body]
fn encode_utf16(s: &str) -> (r: Vec<u16>)
    ensures
        r@ == utf16_encode(s@),
{
    s.encode_utf16().collect()
}

// ---------------------------------------------------------------------------
// UTF-8

/// What `String::from_utf8_lossy` makes of a byte sequence.
pub uninterp spec fn utf8_lossy(b: Seq<u8>) -> Seq<char>;

/// `String::from_utf8_lossy`: the bytes decoded as UTF-8, with invalid
/// sequences replaced.  The contract states the documented case of valid
/// UTF-8 in full; how invalid sequences are replaced is left to the name.
#[verifier::external_body]
fn lossy_utf8(b: &[u8]) -> (r: String)
    ensures
        r@ == utf8_lossy(b@),
        valid_utf8(b@) ==> r@ == decode_utf8(b@),
{
    String::from_utf8_lossy(b).into_owned()
}

/// The string that bytes stand for as UTF-8: their decoding when they are
/// valid, otherwise what the replacing decoder makes of them.
pub open spec fn utf8_text(b: Seq<u8>) -> Seq<char> {
    if valid_utf8(b) {
        decode_utf8(b)
    } else {
        utf8_lossy(b)
    }
}

// ---------------------------------------------------------------------------
// Terminating zeros

/// The length of the part of `s` before its first `nul` (all of it when
/// there is none).
pub open spec fn nul_prefix<T>(s: Seq<T>, nul: T) -> nat
    decreases s.len(),
{
    if s.len() == 0 {
        0
    } else if s[0] == nul {
        0
    } else {
        1 + nul_prefix(s.drop_first(), nul)
    }
}

#[verifier::spinoff_prover]
proof fn lemma_nul_prefix<T>(s: Seq<T>, nul: T, k: int)
    requires
        0 <= k <= s.len(),
        forall|j: int| 0 <= j < k ==> s[j] != nul,
        k == s.len() || s[k] == nul,
    ensures
        nul_prefix(s, nul) == k,
    decreases k,
{
    if k > 0 {
        lemma_nul_prefix(s.drop_first(), nul, k - 1);
    }
}

fn find_nul_u8(s: &[u8]) -> (k: usize)
    ensures
        k == nul_prefix(s@, 0u8),
        k <= s@.len(),
{
    let mut k: usize = 0;
    while k < s.len() && s[k] != 0
        invariant
            k <= s@.len(),
            forall|j: int| 0 <= j < k ==> s@[j] != 0u8,
        decreases s@.len() - k,
    {
        k = k + 1;
    }
    proof {
        lemma_nul_prefix(s@, 0u8, k as int);
    }
    k
}

fn find_nul_u16(s: &[u16]) -> (k: usize)
    ensures
        k == nul_prefix(s@, 0u16),
        k <= s@.len(),
{
    let mut k: usize = 0;
    while k < s.len() && s[k] != 0
        invariant
            k <= s@.len(),
            forall|j: int| 0 <= j < k ==> s@[j] != 0u16,
        decreases s@.len() - k,
    {
        k = k + 1;
    }
    proof {
        lemma_nul_prefix(s@, 0u16, k as int);
    }
    k
}

// ---------------------------------------------------------------------------
// Reading

/// `count` UTF-16 code units stored little-endian from `q` on.
pub open spec fn stored_units(d: Seq<u8>, q: int, count: nat) -> Seq<u16> {
    Seq::new(count, |i: int| vstd::bytes::spec_u16_from_le_bytes(d.subrange(q + 2 * i, q + 2 * i + 2)))
}

/// A stored string.  A negative length `-n` announces `n` UTF-16 code
/// units, a non-negative length that many bytes decoded as UTF-8 (with
/// replacement); either is cut at its first zero.
pub open spec fn sp_string(d: Seq<u8>, p: int) -> SpecResult<Seq<char>> {
    match sp_i32(d, p) {
        Err(e) => Err(e),
        Ok((len, n)) => {
            let q = p + n;
            if len < 0 {
                let count = (-(len as int)) as nat;
                if q + 2 * count <= d.len() {
                    let units = stored_units(d, q, count);
                    match utf16_decode(units.take(nul_prefix(units, 0u16) as int)) {
                        Some(s) => Ok((s, n + 2 * count)),
                        None => Err(
                            SpecParseError { offset: q + 2 * count, error: SpecError::InvalidUtf16 },
                        ),
                    }
                } else {
                    Err(eof(d))
                }
            } else {
                if q + len <= d.len() {
                    let b = d.subrange(q, q + len);
                    Ok((utf8_text(b.take(nul_prefix(b, 0u8) as int)), n + len as nat))
                } else {
                    Err(eof(d))
                }
            }
        },
    }
}

/// Reads a stored string.
pub fn read_string(data: &[u8], pos: usize) -> (r: Result<(String, usize), ParseError>)
    requires
        pos <= data@.len(),
    ensures
        crate::bytes::agrees(r, data@, pos as int, sp_string(data@, pos as int)),
{
    let (len, q) = read_i32(data, pos)?;
    if len < 0 {
        let count: u64 = (0i64 - len as i64) as u64;
        let avail = data.len() - q;
        if (avail as u64) < 2 * count {
            return Err(eof_error(data));
        }
        let count = count as usize;
        assert(q + 2 * count <= data@.len());
        let dl = data.len();
        let mut units: Vec<u16> = Vec::new();
        let mut i: usize = 0;
        while i < count
            invariant
                i <= count,
                q + 2 * count <= data@.len(),
                q <= data@.len(),
                dl == data@.len(),
                units@ =~= stored_units(data@, q as int, i as nat),
            decreases count - i,
        {
            assert(q + 2 * i + 2 <= data@.len());
            let u = le_read_u16(data, q + 2 * i);
            units.push(u);
            i = i + 1;
            assert(units@ =~= stored_units(data@, q as int, i as nat));
        }
        let k = find_nul_u16(units.as_slice());
        let end = q + 2 * count;
        match decode_utf16(slice_subrange(units.as_slice(), 0, k)) {
            Some(s) => Ok((s, end)),
            None => Err(ParseError { offset: end, error: Error::InvalidUtf16 }),
        }
    } else {
        let n = len as usize;
        if data.len() - q < n {
            return Err(eof_error(data));
        }
        let b = slice_subrange(data, q, q + n);
        let k = find_nul_u8(b);
        let s = lossy_utf8(slice_subrange(b, 0, k));
        Ok((s, q + n))
    }
}

// ---------------------------------------------------------------------------
// Writing

/// Little-endian code units.
pub open spec fn units_bytes(u: Seq<u16>) -> Seq<u8>
    decreases u.len(),
{
    if u.len() == 0 {
        Seq::empty()
    } else {
        units_bytes(u.drop_last()) + u16_bytes(u.last())
    }
}

/// A string as the writer stores it when it always carries a terminator:
/// ASCII as bytes with a positive length, anything else as UTF-16 with a
/// negative length; the length counts the terminator and is computed in
/// 32 bits with wrap-around.
pub open spec fn string_bytes_trailing(s: Seq<char>) -> Seq<u8> {
    if is_ascii_chars(s) {
        u32_bytes(u32_specs::wrapping_add(encode_utf8(s).len() as u32, 1)) + encode_utf8(s) + seq![0u8]
    } else {
        let u = utf16_encode(s);
        i32_bytes(i32_specs::wrapping_sub(0, i32_specs::wrapping_add(u.len() as i32, 1))) + units_bytes(u)
            + u16_bytes(0)
    }
}

/// A string as the writer stores it: the empty string is a bare zero
/// length.
pub open spec fn string_bytes(s: Seq<char>) -> Seq<u8> {
    if s.len() == 0 {
        u32_bytes(0)
    } else {
        string_bytes_trailing(s)
    }
}

/// Strings the writer can store: their length fits the length field.
pub open spec fn str_ok(s: Seq<char>) -> bool {
    s.len() < 0x4000_0000
}

#[verifier::spinoff_prover]
pub proof fn lemma_utf16_len(s: Seq<char>)
    ensures
        utf16_encode(s).len() <= 2 * s.len(),
    decreases s.len(),
{
    if s.len() > 0 {
        lemma_utf16_len(s.drop_first());
    }
}

/// Writes `string` with a terminator even when it is empty.
pub fn write_string_always_trailing(out: &mut Vec<u8>, string: &str)
    ensures
        final(out)@ == old(out)@ + string_bytes_trailing(string@),
{
    if string.is_ascii() {
        let b = string.as_bytes();
        proof {
            vstd::string::is_ascii_spec_bytes(string);
        }
        write_u32(out, (b.len() as u32).wrapping_add(1));
        push_bytes(out, b);
        write_u8(out, 0);
        assert(out@ =~= old(out)@ + string_bytes_trailing(string@));
    } else {
        let chars = encode_utf16(string);
        write_i32(out, 0i32.wrapping_sub((chars.len() as i32).wrapping_add(1)));
        let ghost mid = out@;
        let mut i: usize = 0;
        while i < chars.len()
            invariant
                i <= chars@.len(),
                out@ == mid + units_bytes(chars@.take(i as int)),
            decreases chars@.len() - i,
        {
            write_u16(out, chars[i]);
            proof {
                assert(chars@.take(i + 1).drop_last() =~= chars@.take(i as int));
            }
            i = i + 1;
        }
        assert(chars@.take(chars@.len() as int) =~= chars@);
        write_u16(out, 0);
        assert(out@ =~= old(out)@ + string_bytes_trailing(string@));
    }
}

/// Writes `string`; the empty string is stored as a bare zero length.
pub fn write_string(out: &mut Vec<u8>, string: &str)
    ensures
        final(out)@ == old(out)@ + string_bytes(string@),
{
    if string.is_empty() {
        write_u32(out, 0);
    } else {
        write_string_always_trailing(out, string);
    }
}

// ---------------------------------------------------------------------------
// Reading back what was written

/// Strings that read back as they are written: no character is NUL (the
/// reader stops at the first zero) and the length fits the length field.
pub open spec fn string_roundtrips(s: Seq<char>) -> bool {
    &&& str_ok(s)
    &&& forall|i: int| 0 <= i < s.len() ==> (s[i] as u32) != 0
}

#[verifier::spinoff_prover]
proof fn lemma_utf16_roundtrip(s: Seq<char>)
    ensures
        utf16_decode(utf16_encode(s)) == Some(s),
    decreases s.len(),
{
    if s.len() > 0 {
        let c = s[0];
        let v = c as u32;
        vstd::utf8::char_is_scalar(c);
        vstd::utf8::char_u32_cast(c, v);
        assert(v <= 0x10FFFF && !(0xD800 <= v <= 0xDFFF));
        let rest = utf16_encode(s.drop_first());
        lemma_utf16_roundtrip(s.drop_first());
        let u = utf16_encode(s);
        assert(u == char_utf16(c) + rest);
        if v < 0x10000 {
            assert(u[0] == v as u16);
            assert(u.drop_first() =~= rest);
            assert((v as u16) as u32 == v);
            assert(seq![c] + s.drop_first() =~= s);
        } else {
            let hi = (0xD800 + (v - 0x10000) / 0x400) as u16;
            let lo = (0xDC00 + (v - 0x10000) % 0x400) as u16;
            assert(0 <= (v - 0x10000) / 0x400 < 0x400 && 0 <= (v - 0x10000) % 0x400 < 0x400
                && (v - 0x10000) / 0x400 * 0x400 + (v - 0x10000) % 0x400 == v - 0x10000) by (nonlinear_arith)
                requires
                    0x10000 <= v <= 0x10FFFF,
            ;
            assert(0xD800 <= hi < 0xDC00 && 0xDC00 <= lo < 0xE000);
            assert((hi - 0xD800) * 0x400 + (lo - 0xDC00) + 0x10000 == v);
            assert(u[0] == hi && u[1] == lo);
            assert(u.subrange(2, u.len() as int) =~= rest);
            assert(seq![c] + s.drop_first() =~= s);
        }
    }
}

#[verifier::spinoff_prover]
proof fn lemma_utf16_no_zero(s: Seq<char>)
    requires
        forall|i: int| 0 <= i < s.len() ==> (s[i] as u32) != 0,
    ensures
        forall|i: int| 0 <= i < utf16_encode(s).len() ==> utf16_encode(s)[i] != 0,
    decreases s.len(),
{
    if s.len() > 0 {
        assert((s[0] as u32) != 0);
        assert forall|i: int| 0 <= i < s.drop_first().len() implies (s.drop_first()[i] as u32) != 0 by {
            assert(s.drop_first()[i] == s[i + 1]);
        }
        lemma_utf16_no_zero(s.drop_first());
        let v = s[0] as u32;
        let h = char_utf16(s[0]);
        let r = utf16_encode(s.drop_first());
        let u = utf16_encode(s);
        assert(u == h + r);
        vstd::utf8::char_is_scalar(s[0]);
        if v >= 0x10000 {
            assert(0 <= (v - 0x10000) / 0x400 < 0x400 && 0 <= (v - 0x10000) % 0x400 < 0x400) by (nonlinear_arith)
                requires
                    0x10000 <= v <= 0x10FFFF,
            ;
            assert(h[0] != 0 && h[1] != 0);
        } else {
            assert(h[0] != 0);
        }
        assert forall|i: int| 0 <= i < u.len() implies u[i] != 0 by {
            if i >= h.len() {
                assert(u[i] == r[i - h.len()]);
            }
        }
    }
}

#[verifier::spinoff_prover]
pub proof fn lemma_units_bytes_len(u: Seq<u16>)
    ensures
        units_bytes(u).len() == 2 * u.len(),
    decreases u.len(),
{
    vstd::bytes::lemma_auto_spec_u16_to_from_le_bytes();
    if u.len() > 0 {
        lemma_units_bytes_len(u.drop_last());
    }
}

#[verifier::spinoff_prover]
proof fn lemma_stored_units(d: Seq<u8>, q: int, u: Seq<u16>)
    requires
        at(d, q, units_bytes(u)),
    ensures
        stored_units(d, q, u.len()) == u,
    decreases u.len(),
{
    vstd::bytes::lemma_auto_spec_u16_to_from_le_bytes();
    if u.len() > 0 {
        let w = u.drop_last();
        lemma_units_bytes_len(w);
        lemma_at_split(d, q, units_bytes(w), u16_bytes(u.last()));
        lemma_stored_units(d, q, w);
        let n = u.len() - 1;
        assert(d.subrange(q + 2 * n, q + 2 * n + 2) == u16_bytes(u.last()));
        assert(stored_units(d, q, u.len())[n] == u[n]);
        assert forall|j: int| 0 <= j < n implies stored_units(d, q, u.len())[j] == u[j] by {
            assert(stored_units(d, q, w.len())[j] == w[j]);
        }
        assert(stored_units(d, q, u.len()) =~= u);
    }
}

/// A string written with its terminator reads back as itself.
#[verifier::spinoff_prover]
pub proof fn lemma_read_string_trailing(d: Seq<u8>, p: int, s: Seq<char>)
    requires
        string_roundtrips(s),
        at(d, p, string_bytes_trailing(s)),
    ensures
        sp_string(d, p) == Ok::<(Seq<char>, nat), SpecParseError>((s, string_bytes_trailing(s).len())),
{
    broadcast use vstd::utf8::group_utf8_lib;

    vstd::bytes::lemma_auto_spec_u32_to_from_le_bytes();
    vstd::bytes::lemma_auto_spec_u16_to_from_le_bytes();
    if is_ascii_chars(s) {
        let b = encode_utf8(s);
        assert(b.len() == s.len());
        let len = u32_specs::wrapping_add(b.len() as u32, 1);
        assert(len == b.len() + 1);
        lemma_at_split(d, p, u32_bytes(len) + b, seq![0u8]);
        lemma_at_split(d, p, u32_bytes(len), b);
        vstd::bytes::lemma_auto_spec_u32_to_from_le_bytes();
        assert((len as u32) as i32 == len) by (bit_vector)
            requires
                len < 0x8000_0000u32,
        ;
        crate::bytes::lemma_read_i32(d, p, len as i32);
        let q = p + 4;
        let stored = d.subrange(q, q + len);
        assert(stored =~= b + seq![0u8]);
        assert forall|j: int| 0 <= j < b.len() implies stored[j] != 0u8 by {
            assert(b[j] == s[j] as u8);
        }
        lemma_nul_prefix(stored, 0u8, b.len() as int);
        assert(stored.take(b.len() as int) =~= b);
    } else {
        let u = utf16_encode(s);
        lemma_utf16_len(s);
        lemma_units_bytes_len(u);
        let len = i32_specs::wrapping_sub(0, i32_specs::wrapping_add(u.len() as i32, 1));
        assert(len == -(u.len() + 1));
        lemma_at_split(d, p, i32_bytes(len) + units_bytes(u), u16_bytes(0));
        lemma_at_split(d, p, i32_bytes(len), units_bytes(u));
        crate::bytes::lemma_read_i32(d, p, len);
        let q = p + 4;
        let w = u.push(0u16);
        assert(units_bytes(w) == units_bytes(u) + u16_bytes(0)) by {
            assert(w.drop_last() =~= u);
        }
        lemma_units_bytes_len(w);
        lemma_at_join(d, q, units_bytes(u), u16_bytes(0));
        lemma_stored_units(d, q, w);
        lemma_utf16_no_zero(s);
        lemma_nul_prefix(w, 0u16, u.len() as int);
        assert(w.take(u.len() as int) =~= u);
        lemma_utf16_roundtrip(s);
    }
}

/// A string that is written reads back as itself.
#[verifier::spinoff_prover]
pub proof fn lemma_read_string(d: Seq<u8>, p: int, s: Seq<char>)
    requires
        string_roundtrips(s),
        at(d, p, string_bytes(s)),
    ensures
        sp_string(d, p) == Ok::<(Seq<char>, nat), SpecParseError>((s, string_bytes(s).len())),
{
    broadcast use vstd::utf8::group_utf8_lib;

    if s.len() == 0 {
        crate::bytes::lemma_read_i32(d, p, 0);
        vstd::bytes::lemma_auto_spec_u32_to_from_le_bytes();
        let b = d.subrange(p + 4, p + 4);
        assert(b =~= Seq::<u8>::empty());
        assert(encode_utf8(s) =~= Seq::<u8>::empty());
        lemma_nul_prefix(b, 0u8, 0);
        assert(b.take(0) =~= encode_utf8(s));
        assert(s =~= Seq::<char>::empty());
    } else {
        lemma_read_string_trailing(d, p, s);
    }
}

} // verus!
