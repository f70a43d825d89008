//! A whole save: its header, its root and the bytes that follow the root.
use vstd::prelude::*;

use crate::bytes::{
    agrees, eof_error, push_bytes, read_guid, read_i32, read_u32, write_guid, write_i32, write_u16,
    write_u32,
};
use crate::decode::{Ctx, custom_format_from, sp_fixed, sp_header, sp_root, sp_save};
use crate::model::{
    CustomFormatData, Header, PackageVersion, ParseError, Root, Save, SpecError, SpecParseError,
    SpecSave,
};
use crate::read::{read_u16s, read_u32s};
use crate::read_props::{ReadContext, rc, read_properties};
use crate::strings::{read_string, write_string};
use crate::encode::{
    custom_format_bytes, fixed_bytes, header_bytes, properties_writable, root_bytes, save_bytes,
    save_writable,
};
use crate::write::{write_count, write_properties};
use crate::types::{SpecStructType, Types};

verus! {

broadcast use vstd::std_specs::vec::group_vec_axioms;

/// `count` custom format entries of 20 bytes each.
fn read_custom_formats(data: &[u8], pos: usize, count: u32) -> (r: Result<(Vec<CustomFormatData>, usize), ParseError>)
    requires
        pos <= data@.len(),
    ensures
        crate::bytes::agrees_by(
            r,
            data@,
            pos as int,
            sp_fixed(data@, pos as int, count as nat, 20, |b: Seq<u8>| custom_format_from(b)),
            |v: Vec<CustomFormatData>| v@.map_values(|c: CustomFormatData| c@),
        ),
{
    let avail = data.len() - pos;
    if (avail as u64) < 20u64 * (count as u64) {
        return Err(eof_error(data));
    }
    let mut v: Vec<CustomFormatData> = Vec::new();
    let mut i: u32 = 0;
    let mut q = pos;
    while i < count
        invariant
            i <= count,
            q == pos + 20 * i,
            pos + 20 * count <= data@.len(),
            v@.map_values(|c: CustomFormatData| c@) =~= Seq::new(
                i as nat,
                |j: int| custom_format_from(data@.subrange(pos + 20 * j, pos + 20 * j + 20)),
            ),
        decreases count - i,
    {
        let ghost old_v = v@.map_values(|c: CustomFormatData| c@);
        let (id, q1) = read_guid(data, q)?;
        let (value, q2) = read_i32(data, q1)?;
        let c = CustomFormatData { id, value };
        proof {
            let b = data@.subrange(q as int, q + 20);
            assert(b.subrange(0, 16) =~= data@.subrange(q as int, q + 16));
            assert(b.subrange(16, 20) =~= data@.subrange(q + 16, q + 20));
            assert(c@ == custom_format_from(b));
        }
        v.push(c);
        assert(v@.map_values(|c: CustomFormatData| c@) =~= old_v.push(c@));
        q = q2;
        i = i + 1;
        assert(v@.map_values(|c: CustomFormatData| c@) =~= Seq::new(
            i as nat,
            |j: int| custom_format_from(data@.subrange(pos + 20 * j, pos + 20 * j + 20)),
        ));
    }
    proof {
        let s = sp_fixed(data@, pos as int, count as nat, 20, |b: Seq<u8>| custom_format_from(b));
        assert(s->Ok_0.0 =~= v@.map_values(|c: CustomFormatData| c@));
    }
    Ok((v, q))
}

/// Reads the header of a save.
pub fn read_header(data: &[u8], pos: usize) -> (r: Result<(Header, usize), ParseError>)
    requires
        pos <= data@.len(),
    ensures
        agrees(r, data@, pos as int, sp_header(data@, pos as int)),
{
    let (mv, q0) = read_u32s(data, pos, 2)?;
    let magic = mv[0];
    let save_game_version = mv[1];
    let (package_version, q1) = if save_game_version < 3 {
        let (a, k) = read_u32(data, q0)?;
        (PackageVersion::Old(a), k)
    } else {
        let (ab, k) = read_u32s(data, q0, 2)?;
        (PackageVersion::New(ab[0], ab[1]), k)
    };
    let (ver, q2) = read_u16s(data, q1, 3)?;
    let (engine_version_build, q3) = read_u32(data, q2)?;
    let (engine_version, q4) = read_string(data, q3)?;
    let (cf, q5) = read_u32s(data, q4, 2)?;
    let (custom_format, e) = read_custom_formats(data, q5, cf[1])?;
    Ok((
        Header {
            magic,
            save_game_version,
            package_version,
            engine_version_major: ver[0],
            engine_version_minor: ver[1],
            engine_version_patch: ver[2],
            engine_version_build,
            engine_version,
            custom_format_version: cf[0],
            custom_format,
        },
        e,
    ))
}

/// Reads the root: the save game type, then its properties.
pub fn read_root(data: &[u8], pos: usize, ctx: &ReadContext) -> (r: Result<(Root, usize), ParseError>)
    requires
        pos <= data@.len(),
    ensures
        agrees(r, data@, pos as int, sp_root(data@, pos as int, rc(ctx))),
{
    let (save_game_type, q) = read_string(data, pos)?;
    proof {
        reveal_strlit("");
        assert(""@ =~= Seq::<char>::empty());
    }
    let (properties, e) = read_properties(data, q, ctx, "")?;
    Ok((Root { save_game_type, properties }, e))
}

/// No string in the save is stored as UTF-16 code units that do not decode.
pub open spec fn utf16_ok(d: Seq<u8>, types: Map<Seq<char>, SpecStructType>) -> bool {
    !(sp_save(d, types) matches Err(e) && e.error == SpecError::InvalidUtf16)
}

impl Save {
    /// Reads a save from `data`, using the struct types registered in
    /// `types` for the sets and maps that hold structs.  Every outcome is
    /// reported, a string stored as UTF-16 code units that do not decode
    /// as `Error::InvalidUtf16`.
    pub fn decode_with_types(data: &[u8], types: &Types) -> (r: Result<Save, ParseError>)
        ensures
            match r {
                Ok(s) => sp_save(data@, types@) == Ok::<SpecSave, SpecParseError>(s@),
                Err(e) => sp_save(data@, types@) == Err::<SpecSave, SpecParseError>(e@),
            },
    {
        let (header, q) = read_header(data, 0)?;
        let ctx = ReadContext { lwc: header.large_world_coordinates(), types };
        assert(rc(&ctx) == Ctx { lwc: header@.engine_version_major >= 5, types: types@ });
        let (root, e) = read_root(data, q, &ctx)?;
        let extra = vstd::slice::slice_to_vec(vstd::slice::slice_subrange(data, e, data.len()));
        assert(extra@ =~= data@.subrange(e as int, data@.len() as int));
        Ok(Save { header, root, extra })
    }

    /// Reads save from the given data using the provided [`Types`]
    pub fn read_with_types(data: &[u8], types: &Types) -> (r: Result<Save, ParseError>)
        requires
            utf16_ok(data@, types@),
        ensures
            match r {
                Ok(s) => sp_save(data@, types@) == Ok::<SpecSave, SpecParseError>(s@),
                Err(e) => sp_save(data@, types@) == Err::<SpecSave, SpecParseError>(e@),
            },
    {
        Save::decode_with_types(data, types)
    }

    /// Reads save from the given data
    pub fn read(data: &[u8]) -> (r: Result<Save, ParseError>)
        requires
            utf16_ok(data@, Map::empty()),
        ensures
            match r {
                Ok(s) => sp_save(data@, Map::empty()) == Ok::<SpecSave, SpecParseError>(s@),
                Err(e) => sp_save(data@, Map::empty()) == Err::<SpecSave, SpecParseError>(e@),
            },
    {
        let types = Types::new();
        Save::read_with_types(data, &types)
    }
}

// ---------------------------------------------------------------------------
// Writing

/// Writes the header of a save.
pub fn write_header(out: &mut Vec<u8>, h: &Header)
    ensures
        final(out)@ == old(out)@ + header_bytes(h@),
{
    write_u32(out, h.magic);
    write_u32(out, h.save_game_version);
    match h.package_version {
        PackageVersion::Old(a) => {
            write_u32(out, a);
        },
        PackageVersion::New(a, b) => {
            write_u32(out, a);
            write_u32(out, b);
        },
    }
    write_u16(out, h.engine_version_major);
    write_u16(out, h.engine_version_minor);
    write_u16(out, h.engine_version_patch);
    write_u32(out, h.engine_version_build);
    write_string(out, h.engine_version.as_str());
    write_u32(out, h.custom_format_version);
    write_count(out, h.custom_format.len());
    let ghost start = out@;
    let ghost cv = h.custom_format@.map_values(|c: CustomFormatData| c@);
    let mut i: usize = 0;
    while i < h.custom_format.len()
        invariant
            i <= h.custom_format@.len(),
            cv == h.custom_format@.map_values(|c: CustomFormatData| c@),
            out@ == start + fixed_bytes(cv.take(i as int), |c: (Seq<u8>, i32)| custom_format_bytes(c)),
        decreases h.custom_format@.len() - i,
    {
        write_guid(out, &h.custom_format[i].id);
        write_i32(out, h.custom_format[i].value);
        proof {
            assert(cv.take(i + 1).drop_last() =~= cv.take(i as int));
        }
        i = i + 1;
    }
    assert(cv.take(h.custom_format@.len() as int) =~= cv);
    assert(out@ =~= old(out)@ + header_bytes(h@));
}

/// Writes the root: the save game type, then its properties.
pub fn write_root(out: &mut Vec<u8>, r: &Root, lwc: bool)
    requires
        properties_writable(r@.properties),
    ensures
        final(out)@ == old(out)@ + root_bytes(r@, lwc),
{
    write_string(out, r.save_game_type.as_str());
    write_properties(out, &r.properties, lwc);
    assert(out@ =~= old(out)@ + root_bytes(r@, lwc));
}

impl Save {
    /// Writes the save: its header, its root and its extra bytes.
    pub fn write(&self, out: &mut Vec<u8>)
        requires
            save_writable(self@),
        ensures
            final(out)@ == old(out)@ + save_bytes(self@),
    {
        write_header(out, &self.header);
        write_root(out, &self.root, self.header.large_world_coordinates());
        push_bytes(out, self.extra.as_slice());
        assert(out@ =~= old(out)@ + save_bytes(self@));
    }
}

} // verus!
