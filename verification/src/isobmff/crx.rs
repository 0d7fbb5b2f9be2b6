use vstd::prelude::*;
use crate::bytes::{load_u32, load_u64, matches_at, copy_range};
use crate::error::Error;
use super::{BoxErr, BoxSplitter, FileStep, be32, be64, child_box_spec, err_is, file_box_body,
    file_box_end, file_box_header, find_brand, fourcc, has_brand, is_box_file, first_ftyp_ok,
    lemma_child_box_shrinks, read_file_box_body, read_file_box_header, skip, type_is};

verus! {

/// The identifier of the `uuid` box holding Canon's metadata boxes.
pub open spec fn canon_uuid() -> Seq<u8> {
    seq![0x85u8, 0xc0, 0xb6, 0x87, 0x82, 0x0f, 0x11, 0xe0, 0x81, 0x11, 0xf4, 0xce, 0x46, 0x2b, 0x6a, 0x48]
}

/// The identifier of the `uuid` box holding Canon's preview.
pub open spec fn canon_preview_uuid() -> Seq<u8> {
    seq![0xeau8, 0xf4, 0x2b, 0x5e, 0x1c, 0x98, 0x4b, 0x88, 0xb9, 0xfb, 0xb7, 0xdc, 0x40, 0x6e, 0x4d, 0x16]
}

/// Whether a box type is one of Canon's metadata boxes `CMT1` to `CMT4`.
pub open spec fn is_cmt(t: Seq<u8>) -> bool {
    t == fourcc('C', 'M', 'T', '1') || t == fourcc('C', 'M', 'T', '2')
        || t == fourcc('C', 'M', 'T', '3') || t == fourcc('C', 'M', 'T', '4')
}

/// The bytes each vector holds.
pub open spec fn vecs_view(v: Seq<Vec<u8>>) -> Seq<Seq<u8>> {
    v.map_values(|x: Vec<u8>| x@)
}

/// The metadata boxes `acc` grows to while the boxes of `b` are read: the
/// body of each `CMTn` box, in order, those inside Canon's `uuid` box
/// included. Reading stops quietly at a box that cannot be read, but a
/// `uuid` box too short for its identifier is an error.
pub open spec fn moov_acc(b: Seq<u8>, acc: Seq<Seq<u8>>) -> Result<Seq<Seq<u8>>, &'static str>
    decreases b.len(),
{
    match child_box_spec(b) {
        Err(_) => Ok(acc),
        Ok((t, body, rest)) => {
            if rest.len() >= b.len() || body.len() >= b.len() {
                Ok(acc)
            } else if t == fourcc('u', 'u', 'i', 'd') {
                if body.len() < 16 {
                    Err("Box too small")
                } else if body.subrange(0, 16) == canon_uuid() {
                    match moov_acc(skip(body, 16), acc) {
                        Err(m) => Err(m),
                        Ok(a2) => moov_acc(rest, a2),
                    }
                } else {
                    moov_acc(rest, acc)
                }
            } else if is_cmt(t) {
                moov_acc(rest, acc.push(body))
            } else {
                moov_acc(rest, acc)
            }
        },
    }
}

/// Collects the bodies of the `CMTn` boxes among the boxes of `b`.
fn parse_moov(b: BoxSplitter, out: &mut Vec<Vec<u8>>) -> (r: Result<(), Error>)
    ensures
        match moov_acc(b@, vecs_view(old(out)@)) {
            Ok(a) => r is Ok && vecs_view(final(out)@) == a,
            Err(m) => r matches Err(e) && e.is_invalid(m),
        },
    decreases b@.len(),
{
    let ghost b0 = b@;
    let mut split = b;
    let uuid: [u8; 16] = [0x85, 0xc0, 0xb6, 0x87, 0x82, 0x0f, 0x11, 0xe0, 0x81, 0x11, 0xf4, 0xce, 0x46, 0x2b, 0x6a, 0x48];
    assert(uuid@ =~= canon_uuid());
    assert(fourcc('u', 'u', 'i', 'd') =~= seq![0x75u8, 0x75, 0x69, 0x64]);
    assert(fourcc('C', 'M', 'T', '1') =~= seq![0x43u8, 0x4d, 0x54, 0x31]);
    assert(fourcc('C', 'M', 'T', '2') =~= seq![0x43u8, 0x4d, 0x54, 0x32]);
    assert(fourcc('C', 'M', 'T', '3') =~= seq![0x43u8, 0x4d, 0x54, 0x33]);
    assert(fourcc('C', 'M', 'T', '4') =~= seq![0x43u8, 0x4d, 0x54, 0x34]);
    loop
        invariant
            b0 == b@,
            split@.len() <= b0.len(),
            uuid@ == canon_uuid(),
            moov_acc(split@, vecs_view(out@)) == moov_acc(b0, vecs_view(old(out)@)),
        decreases split@.len(),
    {
        let ghost before = split@;
        proof {
            lemma_child_box_shrinks(before);
        }
        let (boxtype, body) = match split.child_box() {
            Ok(x) => x,
            Err(_) => {
                return Ok(());
            },
        };
        if type_is(boxtype, 0x75, 0x75, 0x69, 0x64) {
            let mut body = body;
            let ghost whole = body@;
            let id = body.slice(16)?;
            if matches_at(id, 0, &uuid) {
                assert(id@.subrange(0, 16) =~= id@);
                parse_moov(body, out)?;
            } else {
                assert(id@.subrange(0, 16) =~= id@);
            }
        } else if type_is(boxtype, 0x43, 0x4d, 0x54, 0x31) || type_is(boxtype, 0x43, 0x4d, 0x54, 0x32)
            || type_is(boxtype, 0x43, 0x4d, 0x54, 0x33) || type_is(boxtype, 0x43, 0x4d, 0x54, 0x34) {
            let v = copy_range(body.as_slice(), 0, body.len());
            let ghost pre = out@;
            out.push(v);
            proof {
                assert(body@.subrange(0, body@.len() as int) =~= body@);
                assert(vecs_view(out@) =~= vecs_view(pre).push(body@));
            }
        }
    }
}

/// What the top-level box of a CR3 file `s` at `pos` leads to: the file
/// type box must name Canon's brand and come before `moov`, whose metadata
/// boxes are the result unless it has none; other boxes are skipped.
pub open spec fn crx_step(s: Seq<u8>, pos: int, ftyp: bool) -> FileStep<Seq<Seq<u8>>> {
    match file_box_header(s, pos) {
        Err(e) => FileStep::Done(Err(e)),
        Ok((size, t, hl)) => {
            let start = pos + hl;
            if t == fourcc('f', 't', 'y', 'p') {
                match file_box_body(s, start, size) {
                    Err(e) => FileStep::Done(Err(e)),
                    Ok(body) => if body.len() < 8 {
                        FileStep::Done(Err(BoxErr::Invalid("Box too small")))
                    } else if !has_brand(body, 8, false) {
                        FileStep::Done(Err(BoxErr::Invalid("No compatible brand recognized in ISO base media file")))
                    } else {
                        FileStep::Next(file_box_end(s, start, size), true)
                    },
                }
            } else if t == fourcc('m', 'o', 'o', 'v') {
                if !ftyp {
                    FileStep::Done(Err(BoxErr::Invalid("moov found before FileTypeBox")))
                } else {
                    match file_box_body(s, start, size) {
                        Err(e) => FileStep::Done(Err(e)),
                        Ok(body) => match moov_acc(body, Seq::empty()) {
                            Err(m) => FileStep::Done(Err(BoxErr::Invalid(m))),
                            Ok(out) => if out.len() > 0 {
                                FileStep::Done(Ok(out))
                            } else {
                                FileStep::Next(file_box_end(s, start, size), ftyp)
                            },
                        },
                    }
                }
            } else if size != u64::MAX && size > i64::MAX {
                FileStep::Done(Err(BoxErr::Invalid("Large seek not supported")))
            } else {
                FileStep::Next(file_box_end(s, start, size), ftyp)
            }
        },
    }
}

/// The metadata boxes of a CR3 file `s`, read from its top-level boxes
/// from `pos` on.
pub open spec fn crx_file(s: Seq<u8>, pos: int, ftyp: bool) -> Result<Seq<Seq<u8>>, BoxErr>
    decreases s.len() - pos,
{
    if pos < 0 || pos >= s.len() {
        Err(BoxErr::NotFound("CR3"))
    } else {
        match crx_step(s, pos, ftyp) {
            FileStep::Done(r) => r,
            FileStep::Next(n, f) => if n <= pos || n > s.len() { Err(BoxErr::NotFound("CR3")) } else { crx_file(s, n, f) },
        }
    }
}

/// Gets the bodies of the `CMTn` boxes of a CR3 file, in order: the Exif
/// data in four TIFF buffers.
pub fn get_exif_attr_vec(data: &[u8]) -> (r: Result<Vec<Vec<u8>>, Error>)
    ensures
        match crx_file(data@, 0, false) {
            Ok(x) => r matches Ok(v) && vecs_view(v@) == x,
            Err(e) => r matches Err(x) && err_is(x, e, "Broken CR3 file"),
        },
{
    let ghost s = data@;
    let mut pos: u64 = 0;
    let mut ftyp_checked = false;
    let ftyp: [u8; 4] = [0x66, 0x74, 0x79, 0x70];
    let moov: [u8; 4] = [0x6d, 0x6f, 0x6f, 0x76];
    assert(ftyp@ =~= fourcc('f', 't', 'y', 'p'));
    assert(moov@ =~= fourcc('m', 'o', 'o', 'v'));
    loop
        invariant
            s == data@,
            ftyp@ == fourcc('f', 't', 'y', 'p'),
            moov@ == fourcc('m', 'o', 'o', 'v'),
            crx_file(s, pos as int, ftyp_checked) == crx_file(s, 0, false),
        decreases u64::MAX - pos,
    {
        if pos >= data.len() as u64 {
            return Err(Error::NotFound("CR3"));
        }
        let p = pos as usize;
        let (size, hl) = read_file_box_header(data, p, "Broken CR3 file")?;
        let start = p + hl;
        if matches_at(data, p + 4, &ftyp) {
            let body = read_file_box_body(data, start, size, "Broken CR3 file")?;
            if body.len() < 8 {
                return Err(Error::InvalidFormat("Box too small"));
            }
            if !find_brand(body, 8, false) {
                return Err(Error::InvalidFormat("No compatible brand recognized in ISO base media file"));
            }
            ftyp_checked = true;
            pos = if size == u64::MAX { data.len() as u64 } else { start as u64 + size };
        } else if matches_at(data, p + 4, &moov) {
            if !ftyp_checked {
                return Err(Error::InvalidFormat("moov found before FileTypeBox"));
            }
            let body = read_file_box_body(data, start, size, "Broken CR3 file")?;
            let mut out: Vec<Vec<u8>> = Vec::new();
            assert(vecs_view(out@) =~= Seq::<Seq<u8>>::empty());
            parse_moov(BoxSplitter::new(body), &mut out)?;
            if out.len() > 0 {
                return Ok(out);
            }
            pos = if size == u64::MAX { data.len() as u64 } else { start as u64 + size };
        } else {
            if size != u64::MAX && size > 0x7fff_ffff_ffff_ffff {
                return Err(Error::InvalidFormat("Large seek not supported"));
            }
            pos = if size == u64::MAX {
                data.len() as u64
            } else {
                match (start as u64).checked_add(size) {
                    Some(n) => n,
                    None => return Err(Error::NotFound("CR3")),
                }
            };
        }
    }
}

/// Gets the first of the Exif buffers of a CR3 file; empty when there is
/// none.
pub fn get_exif_attr(data: &[u8]) -> (r: Result<Vec<u8>, Error>)
    ensures
        match crx_file(data@, 0, false) {
            Ok(x) => r matches Ok(v) && v@ == (if x.len() > 0 { x[0] } else { Seq::empty() }),
            Err(e) => r matches Err(x) && err_is(x, e, "Broken CR3 file"),
        },
{
    let v = get_exif_attr_vec(data)?;
    if v.len() > 0 {
        let first = copy_range(v[0].as_slice(), 0, v[0].len());
        assert(v[0]@.subrange(0, v[0]@.len() as int) =~= v[0]@);
        Ok(first)
    } else {
        Ok(Vec::new())
    }
}

/// Whether `buf` starts like a CR3 file: its first file type box names
/// Canon's `crx ` brand.
pub fn is_crx(buf: &[u8]) -> (r: bool)
    ensures
        r == first_ftyp_ok(buf@, false),
{
    is_box_file(buf, false)
}

// ---------------------------------------------------------------------
// Embedded JPEGs a CR3 keeps in boxes.

/// How deep container boxes are walked into.
pub const MAX_DEPTH: u32 = 4;

/// The JPEG a `PRVW` or `THMB` box at `at` of the given size holds: 24
/// bytes in (the box header plus 16 of Canon's own), and to the box's end,
/// when an SOI is found there.
pub open spec fn jpeg_in_box(s: Seq<u8>, at: int, size: int) -> Option<(u64, u32)> {
    if size <= 24 || at + 26 > s.len() || s[at + 24] != 0xff || s[at + 25] != 0xd8 || size - 24 > u32::MAX {
        None
    } else {
        Some(((at + 24) as u64, (size - 24) as u32))
    }
}

/// What a sample table's boxes from `at` to `end` state so far: the
/// sample's offset and size.
pub open spec fn sample_tables(s: Seq<u8>, at: int, end: int, offset: Option<u64>, size: Option<u32>)
    -> (Option<u64>, Option<u32>)
    decreases end - at,
{
    if at + 8 > end || at + 8 > s.len() || at < 0 {
        (offset, size)
    } else {
        let boxsize = be32(s, at);
        if boxsize < 8 || at + boxsize > end {
            (offset, size)
        } else {
            let blen = if boxsize - 8 < 64 { boxsize - 8 } else { 64 };
            let t = s.subrange(at + 4, at + 8);
            let b = at + 8;
            let (o2, z2) = if b + blen > s.len() {
                (offset, size)
            } else if t == fourcc('s', 't', 's', 'z') && blen >= 16 {
                if be32(s, b + 8) == 1 {
                    (offset, Some((if be32(s, b + 4) == 0 { be32(s, b + 12) } else { be32(s, b + 4) }) as u32))
                } else {
                    (offset, size)
                }
            } else if t == fourcc('c', 'o', '6', '4') && blen >= 16 && be32(s, b + 4) == 1 {
                (Some(be64(s, b + 8) as u64), size)
            } else if t == fourcc('s', 't', 'c', 'o') && blen >= 12 && be32(s, b + 4) == 1 {
                (Some(be32(s, b + 8) as u64), size)
            } else {
                (offset, size)
            };
            sample_tables(s, at + boxsize, end, o2, z2)
        }
    }
}

/// The single sample a sample table box (body from `start` to `end`)
/// places, when it is a JPEG of non-zero size.
pub open spec fn sample_of(s: Seq<u8>, start: int, end: int) -> Option<(u64, u32)> {
    match sample_tables(s, start, end, None, None) {
        (Some(o), Some(z)) => if z == 0 || o + 2 > s.len() || s[o as int] != 0xff || s[o + 1] != 0xd8 {
            None
        } else {
            Some((o, z))
        },
        _ => None,
    }
}

/// The images `out` grows to while the box at `at`, of the given size, is
/// looked into: a `PRVW` or `THMB` box, or a one-sample track, holding a
/// JPEG adds it; container boxes (`moov`, `udta`, `trak`, `mdia`, `minf`
/// and `uuid`, Canon's preview one after 8 more bytes) are walked into.
pub open spec fn walk_box(s: Seq<u8>, at: int, end: int, depth: int, out: Seq<(u64, u32)>) -> Seq<(u64, u32)>
    decreases 5 - depth, end - at, 0int,
{
    if depth > MAX_DEPTH || depth < 0 || at < 0 || at + 8 > end || at + 8 > s.len() {
        out
    } else {
        let size = be32(s, at);
        let t = s.subrange(at + 4, at + 8);
        if size < 8 || at + size > end {
            out
        } else if t == fourcc('P', 'R', 'V', 'W') || t == fourcc('T', 'H', 'M', 'B') {
            match jpeg_in_box(s, at, size) { Some(x) => out.push(x), None => out }
        } else if t == fourcc('u', 'u', 'i', 'd') {
            let extra = if at + 24 <= s.len() && s.subrange(at + 8, at + 24) == canon_preview_uuid() { 8int } else { 0 };
            walk(s, at + 24 + extra, at + size, depth + 1, out)
        } else if t == fourcc('m', 'o', 'o', 'v') || t == fourcc('u', 'd', 't', 'a')
            || t == fourcc('t', 'r', 'a', 'k') || t == fourcc('m', 'd', 'i', 'a')
            || t == fourcc('m', 'i', 'n', 'f') {
            walk(s, at + 8, at + size, depth + 1, out)
        } else if t == fourcc('s', 't', 'b', 'l') {
            match sample_of(s, at + 8, at + size) { Some(x) => out.push(x), None => out }
        } else {
            out
        }
    }
}

/// The images `out` grows to while the boxes from `at` to `end`, at the
/// given depth of containers, are walked. A box that cannot be read, or
/// does not fit, ends the walk of its level.
pub open spec fn walk(s: Seq<u8>, at: int, end: int, depth: int, out: Seq<(u64, u32)>) -> Seq<(u64, u32)>
    decreases 5 - depth, end - at, 1int,
{
    if depth > MAX_DEPTH || depth < 0 || at < 0 || at + 8 > end || at + 8 > s.len() {
        out
    } else {
        let size = be32(s, at);
        if size < 8 || at + size > end {
            out
        } else {
            walk(s, at + size, end, depth, walk_box(s, at, end, depth, out))
        }
    }
}

/// Reads the sample tables of a sample table box.
fn read_sample_tables(s: &[u8], start: u64, end: u64) -> (r: (Option<u64>, Option<u32>))
    requires
        end <= s@.len(),
    ensures
        r == sample_tables(s@, start as int, end as int, None, None),
{
    let stsz: [u8; 4] = [0x73, 0x74, 0x73, 0x7a];
    let co64: [u8; 4] = [0x63, 0x6f, 0x36, 0x34];
    let stco: [u8; 4] = [0x73, 0x74, 0x63, 0x6f];
    assert(stsz@ =~= fourcc('s', 't', 's', 'z'));
    assert(co64@ =~= fourcc('c', 'o', '6', '4'));
    assert(stco@ =~= fourcc('s', 't', 'c', 'o'));
    let mut offset: Option<u64> = None;
    let mut size: Option<u32> = None;
    let slen = s.len();
    let mut at = start;
    while at <= end && end - at >= 8
        invariant
            slen == s@.len(),
            end <= s@.len(),
            stsz@ == fourcc('s', 't', 's', 'z'),
            co64@ == fourcc('c', 'o', '6', '4'),
            stco@ == fourcc('s', 't', 'c', 'o'),
            sample_tables(s@, at as int, end as int, offset, size) == sample_tables(s@, start as int, end as int, None, None),
        ensures
            sample_tables(s@, start as int, end as int, None, None) == (offset, size),
        decreases end - at,
    {
        let a = at as usize;
        let boxsize = load_u32(s, a, false) as u64;
        if boxsize < 8 || boxsize > end - at {
            break;
        }
        let blen: u64 = if boxsize - 8 < 64 { boxsize - 8 } else { 64 };
        let b = a + 8;
        let bl = blen as usize;
        if b + bl <= s.len() {
            if matches_at(s, a + 4, &stsz) && bl >= 16 {
                if load_u32(s, b + 8, false) == 1 {
                    let stated = load_u32(s, b + 4, false);
                    size = Some(if stated == 0 { load_u32(s, b + 12, false) } else { stated });
                }
            } else if matches_at(s, a + 4, &co64) && bl >= 16 && load_u32(s, b + 4, false) == 1 {
                offset = Some(load_u64(s, b + 8, false));
            } else if matches_at(s, a + 4, &stco) && bl >= 12 && load_u32(s, b + 4, false) == 1 {
                offset = Some(load_u32(s, b + 8, false) as u64);
            }
        }
        at = at + boxsize;
    }
    (offset, size)
}

/// The JPEG sample a sample table box places, if any.
fn read_sample(s: &[u8], start: u64, end: u64) -> (r: Option<(u64, u32)>)
    requires
        end <= s@.len(),
    ensures
        r == sample_of(s@, start as int, end as int),
{
    match read_sample_tables(s, start, end) {
        (Some(o), Some(z)) => {
            if z == 0 || o > s.len() as u64 || (s.len() as u64) - o < 2 {
                return None;
            }
            let i = o as usize;
            if s[i] != 0xff || s[i + 1] != 0xd8 {
                return None;
            }
            Some((o, z))
        },
        _ => None,
    }
}

/// Walks the boxes from `at` to `end` for embedded JPEGs.
fn walk_boxes(s: &[u8], at: u64, end: u64, depth: u32, out: &mut Vec<(u64, u32)>)
    requires
        end <= s@.len(),
    ensures
        final(out)@ == walk(s@, at as int, end as int, depth as int, old(out)@),
    decreases 5 - depth, end - at,
{
    if depth > MAX_DEPTH {
        return;
    }
    let prvw: [u8; 4] = [0x50, 0x52, 0x56, 0x57];
    let thmb: [u8; 4] = [0x54, 0x48, 0x4d, 0x42];
    let uuid: [u8; 4] = [0x75, 0x75, 0x69, 0x64];
    let moov: [u8; 4] = [0x6d, 0x6f, 0x6f, 0x76];
    let udta: [u8; 4] = [0x75, 0x64, 0x74, 0x61];
    let trak: [u8; 4] = [0x74, 0x72, 0x61, 0x6b];
    let mdia: [u8; 4] = [0x6d, 0x64, 0x69, 0x61];
    let minf: [u8; 4] = [0x6d, 0x69, 0x6e, 0x66];
    let stbl: [u8; 4] = [0x73, 0x74, 0x62, 0x6c];
    let preview: [u8; 16] = [0xea, 0xf4, 0x2b, 0x5e, 0x1c, 0x98, 0x4b, 0x88, 0xb9, 0xfb, 0xb7, 0xdc, 0x40, 0x6e, 0x4d, 0x16];
    assert(prvw@ =~= fourcc('P', 'R', 'V', 'W'));
    assert(thmb@ =~= fourcc('T', 'H', 'M', 'B'));
    assert(uuid@ =~= fourcc('u', 'u', 'i', 'd'));
    assert(moov@ =~= fourcc('m', 'o', 'o', 'v'));
    assert(udta@ =~= fourcc('u', 'd', 't', 'a'));
    assert(trak@ =~= fourcc('t', 'r', 'a', 'k'));
    assert(mdia@ =~= fourcc('m', 'd', 'i', 'a'));
    assert(minf@ =~= fourcc('m', 'i', 'n', 'f'));
    assert(stbl@ =~= fourcc('s', 't', 'b', 'l'));
    assert(preview@ =~= canon_preview_uuid());
    if at > end || end - at < 8 {
        return;
    }
    let slen = s.len();
    assert(at + 8 <= slen);
    let a = at as usize;
    let size = load_u32(s, a, false) as u64;
    if size < 8 || size > end - at {
        return;
    }
    let box_end = at + size;
    let ghost o0 = out@;
    if matches_at(s, a + 4, &prvw) || matches_at(s, a + 4, &thmb) {
        if size > 24 && s.len() - a >= 26 && s[a + 24] == 0xff && s[a + 25] == 0xd8
            && size - 24 <= 0xffff_ffff {
            out.push((at + 24, (size - 24) as u32));
        }
    } else if matches_at(s, a + 4, &uuid) {
        let extra: u64 = if s.len() - a >= 24 && matches_at(s, a + 8, &preview) { 8 } else { 0 };
        let inner = if size >= 24 + extra { at + 24 + extra } else { box_end };
        walk_boxes(s, inner, box_end, depth + 1, out);
    } else if matches_at(s, a + 4, &moov) || matches_at(s, a + 4, &udta) || matches_at(s, a + 4, &trak)
        || matches_at(s, a + 4, &mdia) || matches_at(s, a + 4, &minf) {
        walk_boxes(s, at + 8, box_end, depth + 1, out);
    } else if matches_at(s, a + 4, &stbl) {
        match read_sample(s, at + 8, box_end) {
            Some(x) => out.push(x),
            None => {},
        }
    }
    assert(out@ == walk_box(s@, at as int, end as int, depth as int, o0));
    walk_boxes(s, box_end, end, depth, out);
}

/// Where a CR3 keeps its embedded JPEGs, as (file offset, length): the
/// `PRVW` and `THMB` boxes and the full-size JPEG carried as a track's
/// single sample, none of which a TIFF tag addresses.
pub fn preview_boxes(data: &[u8]) -> (r: Result<Vec<(u64, u32)>, Error>)
    ensures
        r matches Ok(v) && v@ == walk(data@, 0, data@.len() as int, 0, Seq::empty()),
{
    let mut out: Vec<(u64, u32)> = Vec::new();
    walk_boxes(data, 0, data.len() as u64, 0, &mut out);
    Ok(out)
}

} // verus!
