use vstd::prelude::*;
use crate::bytes::{spec_u16, spec_u32, load_u16, load_u32, matches_at, copy_range};
use crate::error::Error;
use crate::fmt::{dec_digits, push_dec};
use crate::tag::{Context, Tag};
use crate::tiff::{Field, In, fields_view, field_view};
use crate::value::{Rational, Value, ValueView};
use crate::util::ascii_chars;
use crate::x3f::{utc_string, utc_text};

verus! {

/// The two storage bits of a CIFF tag.
pub const STORAGE_MASK: u16 = 0xc000;
/// The value is the entry's own length and offset fields.
pub const STORAGE_IN_ENTRY: u16 = 0x4000;
pub const FORMAT_MASK: u16 = 0x3800;
pub const TAG_MASK: u16 = 0x3fff;
/// The two format codes that mean "these bytes are another heap".
pub const FORMAT_SUBDIR_1: u16 = 0x2800;
pub const FORMAT_SUBDIR_2: u16 = 0x3000;
/// The length of a directory entry.
pub const ENTRY_LEN: usize = 10;
/// A directory of more than this is not a directory.
pub const MAX_ENTRIES: u16 = 1024;
/// Heaps nest no deeper than this.
pub const MAX_DEPTH: u8 = 8;
/// The largest value read into memory.
pub const MAX_VALUE: u32 = 4096;

pub const T_RAW_DATA: u16 = 0x2005;
pub const T_JPEG_FROM_RAW: u16 = 0x2007;
pub const T_THUMBNAIL: u16 = 0x2008;
pub const T_MAKE_MODEL: u16 = 0x080a;
pub const T_FIRMWARE: u16 = 0x080b;
pub const T_IMAGE_INFO: u16 = 0x1810;
pub const T_CAPTURE_TIME: u16 = 0x180e;
pub const T_SERIAL: u16 = 0x180b;
pub const T_BASE_ISO: u16 = 0x101c;
pub const T_FOCAL_LENGTH: u16 = 0x1029;
pub const T_SHOT_INFO: u16 = 0x102a;
pub const T_CAMERA_SETTINGS: u16 = 0x102d;

/// `ShotInfo` indices.
pub const SHOT_ISO: usize = 2;
pub const SHOT_FNUMBER: usize = 21;
pub const SHOT_EXPOSURE_TIME: usize = 22;
/// The `CameraSettings` index of the focal length's divisor.
pub const SETTING_FOCAL_UNITS: usize = 25;

/// `II`, then at 6 the heap name `HEAPCCDR`.
pub open spec fn crw_sig(buf: Seq<u8>) -> bool {
    buf.len() >= 14 && buf[0] == 0x49 && buf[1] == 0x49
        && buf.subrange(6, 14) == seq![0x48u8, 0x45, 0x41, 0x50, 0x43, 0x43, 0x44, 0x52]
}

/// Whether `buf` starts like a CRW: `II`, a heap offset, then `HEAPCCDR`.
pub fn is_crw(buf: &[u8]) -> (r: bool)
    ensures
        r == crw_sig(buf@),
{
    let heap: [u8; 8] = [0x48, 0x45, 0x41, 0x50, 0x43, 0x43, 0x44, 0x52];
    assert(heap@ =~= seq![0x48u8, 0x45, 0x41, 0x50, 0x43, 0x43, 0x44, 0x52]);
    buf.len() >= 14 && buf[0] == 0x49 && buf[1] == 0x49 && matches_at(buf, 6, &heap)
}

/// A little-endian 16-bit integer at `at`, if the bytes are there.
pub open spec fn spec_le16(b: Seq<u8>, at: int) -> Option<u16> {
    if 0 <= at && at + 2 <= b.len() { Some(spec_u16(b, at, true) as u16) } else { None }
}

/// A little-endian 32-bit integer at `at`, if the bytes are there.
pub open spec fn spec_le32(b: Seq<u8>, at: int) -> Option<u32> {
    if 0 <= at && at + 4 <= b.len() { Some(spec_u32(b, at, true) as u32) } else { None }
}

/// Reads a little-endian 16-bit integer at `at`, if the bytes are there.
pub fn le16(b: &[u8], at: usize) -> (r: Option<u16>)
    ensures
        r == spec_le16(b@, at as int),
{
    if at <= b.len() && b.len() - at >= 2 { Some(load_u16(b, at, true)) } else { None }
}

/// Reads a little-endian 32-bit integer at `at`, if the bytes are there.
pub fn le32(b: &[u8], at: usize) -> (r: Option<u32>)
    ensures
        r == spec_le32(b@, at as int),
{
    if at <= b.len() && b.len() - at >= 4 { Some(load_u32(b, at, true)) } else { None }
}

/// What a CRW states about itself.
#[derive(Debug)]
pub struct CrwContents {
    /// The full-size embedded JPEG, in file offsets.
    pub preview: Option<(u64, u32)>,
    /// The small one.
    pub thumbnail: Option<(u64, u32)>,
    /// The raw image record.
    pub raw_data: Option<(u64, u32)>,
    /// Every field the heap stated, in Exif terms.
    pub fields: Vec<Field>,
}

/// The records whose meaning depends on another record.
#[derive(Debug)]
pub struct Deferred {
    pub shot_info: Vec<u16>,
    pub camera_settings: Vec<u16>,
    /// The body's ISO floor.
    pub base_iso: Option<u32>,
    /// The focal length, in units `CameraSettings` names.
    pub focal: Option<u16>,
}

/// What the walk of a heap has gathered: the contents and the deferred
/// records, as values.
pub ghost struct CrwState {
    pub preview: Option<(u64, u32)>,
    pub thumbnail: Option<(u64, u32)>,
    pub raw_data: Option<(u64, u32)>,
    pub fields: Seq<(Tag, In, ValueView)>,
    pub shot_info: Seq<u16>,
    pub camera_settings: Seq<u16>,
    pub base_iso: Option<u32>,
    pub focal: Option<u16>,
}

/// The state a contents and its deferred records stand for.
pub open spec fn crw_state(out: CrwContents, acc: Deferred) -> CrwState {
    CrwState {
        preview: out.preview,
        thumbnail: out.thumbnail,
        raw_data: out.raw_data,
        fields: fields_view(out.fields@),
        shot_info: acc.shot_info@,
        camera_settings: acc.camera_settings@,
        base_iso: acc.base_iso,
        focal: acc.focal,
    }
}

/// `slot` after `found` is offered: it is kept when nothing was there or
/// it is longer than what was.
pub open spec fn larger(slot: Option<(u64, u32)>, found: (u64, u32)) -> Option<(u64, u32)> {
    match slot {
        None => Some(found),
        Some(prev) => if found.1 > prev.1 { Some(found) } else { slot },
    }
}

/// Keeps the longer of the image in `slot` and `found`.
pub fn keep_larger(slot: &mut Option<(u64, u32)>, found: (u64, u32))
    ensures
        *final(slot) == larger(*old(slot), found),
{
    let replace = match slot {
        None => true,
        Some(prev) => found.1 > prev.1,
    };
    if replace {
        *slot = Some(found);
    }
}

/// The first run of non-NUL bytes of `v` from `i` on: its start and end.
pub open spec fn first_run(v: Seq<u8>, i: int) -> Option<(int, int)>
    decreases v.len() - i,
{
    if i < 0 || i >= v.len() {
        None
    } else if v[i] == 0 {
        first_run(v, i + 1)
    } else {
        Some((i, run_end(v, i)))
    }
}

/// The end of the run of non-NUL bytes starting at `i`.
pub open spec fn run_end(v: Seq<u8>, i: int) -> int
    decreases v.len() - i,
{
    if i < 0 || i >= v.len() || v[i] == 0 { if i < 0 { 0 } else { i } } else { run_end(v, i + 1) }
}

/// The bytes of `v` up to its first NUL.
pub open spec fn spec_first_cstr(v: Seq<u8>) -> Seq<u8> {
    v.subrange(0, run_end(v, 0))
}

/// Finds the end of the run of non-NUL bytes starting at `i`.
fn find_run_end(v: &[u8], i: usize) -> (r: usize)
    requires
        i <= v@.len(),
    ensures
        r == run_end(v@, i as int),
        i <= r <= v@.len(),
{
    let mut j = i;
    while j < v.len() && v[j] != 0
        invariant
            i <= j <= v@.len(),
            run_end(v@, j as int) == run_end(v@, i as int),
        decreases v@.len() - j,
    {
        j = j + 1;
    }
    j
}

/// Finds the first run of non-NUL bytes from `i` on.
fn find_run(v: &[u8], i: usize) -> (r: Option<(usize, usize)>)
    requires
        i <= v@.len(),
    ensures
        match first_run(v@, i as int) {
            None => r is None,
            Some((a, b)) => r matches Some((x, y)) && x == a && y == b,
        },
        r matches Some((a, b)) ==> i <= a < b <= v@.len(),
{
    let mut j = i;
    while j < v.len() && v[j] == 0
        invariant
            i <= j <= v@.len(),
            first_run(v@, j as int) == first_run(v@, i as int),
        decreases v@.len() - j,
    {
        j = j + 1;
    }
    if j >= v.len() {
        return None;
    }
    let e = find_run_end(v, j);
    assert(run_end(v@, j as int) > j as int) by {
        assert(v@[j as int] != 0);
        assert(run_end(v@, j as int) == run_end(v@, j + 1));
        lemma_run_end_bounds(v@, j + 1);
    }
    Some((j, e))
}

/// A run's end lies at or after where it is looked for.
pub proof fn lemma_run_end_bounds(v: Seq<u8>, i: int)
    requires
        0 <= i <= v.len(),
    ensures
        i <= run_end(v, i) <= v.len(),
    decreases v.len() - i,
{
    if i < v.len() && v[i] != 0 {
        lemma_run_end_bounds(v, i + 1);
    }
}

/// The bytes of `v` up to its first NUL.
pub fn first_cstr(v: &[u8]) -> (r: &[u8])
    ensures
        r@ == spec_first_cstr(v@),
{
    let e = find_run_end(v, 0);
    &v[0..e]
}

/// CIFF's rotation, in degrees clockwise, as an Exif orientation.
pub open spec fn spec_rotation(deg: u32) -> Option<u16> {
    if deg == 0 { Some(1u16) } else if deg == 90 { Some(6u16) } else if deg == 180 { Some(3u16) }
    else if deg == 270 { Some(8u16) } else { None }
}

/// CIFF's rotation, in degrees clockwise, as an Exif orientation.
pub fn rotation_to_orientation(deg: u32) -> (r: Option<u16>)
    ensures
        r == spec_rotation(deg),
{
    if deg == 0 {
        Some(1)
    } else if deg == 90 {
        Some(6)
    } else if deg == 180 {
        Some(3)
    } else if deg == 270 {
        Some(8)
    } else {
        None
    }
}

/// An ASCII field of IFD0 holding `s`.
pub open spec fn ascii_field(tag: Tag, s: Seq<u8>) -> (Tag, In, ValueView) {
    (tag, In(0), ValueView::Ascii(seq![s]))
}

/// `fields` with an ASCII field for `s` added, unless `s` is empty.
pub open spec fn push_ascii(fields: Seq<(Tag, In, ValueView)>, tag: Tag, s: Seq<u8>) -> Seq<(Tag, In, ValueView)> {
    if s.len() > 0 { fields.push(ascii_field(tag, s)) } else { fields }
}

/// The little-endian 16-bit integers of `v`, a trailing odd byte ignored.
pub open spec fn shorts_of(v: Seq<u8>) -> Seq<u16> {
    Seq::new((v.len() / 2) as nat, |i: int| spec_u16(v, 2 * i, true) as u16)
}

/// What the fields a make-and-model record states: the first two non-empty
/// NUL-separated strings, as `Make` and `Model`.
pub open spec fn make_model_fields(fields: Seq<(Tag, In, ValueView)>, v: Seq<u8>) -> Seq<(Tag, In, ValueView)> {
    match first_run(v, 0) {
        None => fields,
        Some((a, b)) => {
            let f1 = fields.push(ascii_field(Tag(Context::Tiff, 0x010f), v.subrange(a, b)));
            match first_run(v, b) {
                None => f1,
                Some((c, d)) => f1.push(ascii_field(Tag(Context::Tiff, 0x0110), v.subrange(c, d))),
            }
        },
    }
}

/// The fields an image-info record states: the frame's width and height
/// as a sub-image, when both are non-zero, then the orientation.
pub open spec fn image_info_fields(fields: Seq<(Tag, In, ValueView)>, v: Seq<u8>) -> Seq<(Tag, In, ValueView)> {
    let f1 = match (spec_le32(v, 0), spec_le32(v, 4)) {
        (Some(w), Some(h)) => if w > 0 && h > 0 {
            fields.push((Tag(Context::Tiff, 0x0100), In(16), ValueView::Long(seq![w])))
                .push((Tag(Context::Tiff, 0x0101), In(16), ValueView::Long(seq![h])))
        } else { fields },
        _ => fields,
    };
    match spec_le32(v, 12) {
        Some(deg) => match spec_rotation(deg) {
            Some(o) => f1.push((Tag(Context::Tiff, 0x0112), In(0), ValueView::Short(seq![o]))),
            None => f1,
        },
        None => f1,
    }
}

/// What record `id` with bytes `v` adds to the state.
#[verifier::opaque]
pub open spec fn take_value_spec(id: u16, v: Seq<u8>, st: CrwState) -> CrwState {
    if id == T_MAKE_MODEL {
        CrwState { fields: make_model_fields(st.fields, v), ..st }
    } else if id == T_FIRMWARE {
        CrwState { fields: push_ascii(st.fields, Tag(Context::Tiff, 0x0131), spec_first_cstr(v)), ..st }
    } else if id == T_SERIAL {
        match spec_le32(v, 0) {
            Some(n) => CrwState { fields: push_ascii(st.fields, Tag(Context::Exif, 0xa431), dec_digits(n as nat)), ..st },
            None => st,
        }
    } else if id == T_BASE_ISO {
        CrwState { base_iso: match spec_le16(v, 0) { Some(x) => Some(x as u32), None => None }, ..st }
    } else if id == T_SHOT_INFO {
        CrwState { shot_info: shorts_of(v), ..st }
    } else if id == T_CAMERA_SETTINGS {
        CrwState { camera_settings: shorts_of(v), ..st }
    } else if id == T_FOCAL_LENGTH {
        CrwState { focal: match spec_le16(v, 2) { Some(mm) => if mm > 0 { Some(mm) } else { None }, None => None }, ..st }
    } else if id == T_IMAGE_INFO {
        CrwState { fields: image_info_fields(st.fields, v), ..st }
    } else if id == T_CAPTURE_TIME {
        match spec_le32(v, 0) {
            Some(t) => match utc_text(t as int) {
                Some(text) => CrwState { fields: push_ascii(st.fields, Tag(Context::Exif, 0x9003), text), ..st },
                None => st,
            },
            None => st,
        }
    } else {
        st
    }
}

/// Adds an ASCII field of IFD0 holding `s`, unless `s` is empty.
fn push_ascii_field(fields: &mut Vec<Field>, tag: Tag, s: &[u8])
    ensures
        fields_view(final(fields)@) == push_ascii(fields_view(old(fields)@), tag, s@),
{
    if s.len() > 0 {
        let v = copy_range(s, 0, s.len());
        let mut strings: Vec<Vec<u8>> = Vec::new();
        strings.push(v);
        let ghost pre = fields@;
        fields.push(Field { tag, ifd_num: In(0), value: Value::Ascii(strings) });
        proof {
            assert(s@.subrange(0, s@.len() as int) =~= s@);
            assert(crate::value::strings_view(strings@) =~= seq![s@]);
            assert(fields_view(fields@) =~= fields_view(pre).push(ascii_field(tag, s@)));
        }
    }
}

/// Adds a field of one LONG.
fn push_long_field(fields: &mut Vec<Field>, tag: Tag, ifd: In, n: u32)
    ensures
        fields_view(final(fields)@) == fields_view(old(fields)@).push((tag, ifd, ValueView::Long(seq![n]))),
{
    let mut x: Vec<u32> = Vec::new();
    x.push(n);
    let ghost pre = fields@;
    fields.push(Field { tag, ifd_num: ifd, value: Value::Long(x) });
    proof {
        assert(x@ =~= seq![n]);
        assert(fields_view(fields@) =~= fields_view(pre).push((tag, ifd, ValueView::Long(seq![n]))));
    }
}

/// Adds a field of one SHORT.
fn push_short_field(fields: &mut Vec<Field>, tag: Tag, ifd: In, n: u16)
    ensures
        fields_view(final(fields)@) == fields_view(old(fields)@).push((tag, ifd, ValueView::Short(seq![n]))),
{
    let mut x: Vec<u16> = Vec::new();
    x.push(n);
    let ghost pre = fields@;
    fields.push(Field { tag, ifd_num: ifd, value: Value::Short(x) });
    proof {
        assert(x@ =~= seq![n]);
        assert(fields_view(fields@) =~= fields_view(pre).push((tag, ifd, ValueView::Short(seq![n]))));
    }
}

/// The little-endian 16-bit integers of `v`.
fn shorts(v: &[u8]) -> (r: Vec<u16>)
    ensures
        r@ == shorts_of(v@),
{
    let mut r: Vec<u16> = Vec::new();
    let vlen = v.len();
    let n = vlen / 2;
    let mut i: usize = 0;
    while i < n
        invariant
            vlen == v@.len(),
            n == v@.len() / 2,
            i <= n,
            r@ == shorts_of(v@).subrange(0, i as int),
        decreases n - i,
    {
        assert(2 * i + 2 <= vlen) by (nonlinear_arith)
            requires i < n, n == vlen / 2;
        r.push(load_u16(v, 2 * i, true));
        i = i + 1;
        assert(r@ =~= shorts_of(v@).subrange(0, i as int));
    }
    assert(shorts_of(v@).subrange(0, n as int) =~= shorts_of(v@));
    r
}

/// Takes in record `id` with bytes `v`: the Exif field it states, or the
/// deferred record it is.
pub fn take_value(id: u16, v: &[u8], out: &mut CrwContents, acc: &mut Deferred)
    ensures
        crw_state(*final(out), *final(acc)) == take_value_spec(id, v@, crw_state(*old(out), *old(acc))),
{
    reveal(take_value_spec);
    let ghost st0 = crw_state(*out, *acc);
    if id == T_MAKE_MODEL {
        match find_run(v, 0) {
            None => {},
            Some((a, b)) => {
                push_ascii_field(&mut out.fields, Tag(Context::Tiff, 0x010f), &v[a..b]);
                let ghost f1 = fields_view(out.fields@);
                assert(f1 == st0.fields.push(ascii_field(Tag(Context::Tiff, 0x010f), v@.subrange(a as int, b as int))));
                match find_run(v, b) {
                    None => {},
                    Some((c, d)) => {
                        push_ascii_field(&mut out.fields, Tag(Context::Tiff, 0x0110), &v[c..d]);
                    },
                }
            },
        }
        assert(fields_view(out.fields@) == make_model_fields(st0.fields, v@));
    } else if id == T_FIRMWARE {
        push_ascii_field(&mut out.fields, Tag(Context::Tiff, 0x0131), first_cstr(v));
    } else if id == T_SERIAL {
        if let Some(n) = le32(v, 0) {
            let mut digits: Vec<u8> = Vec::new();
            push_dec(&mut digits, n as u64);
            assert(digits@ =~= dec_digits(n as nat));
            push_ascii_field(&mut out.fields, Tag(Context::Exif, 0xa431), digits.as_slice());
        }
    } else if id == T_BASE_ISO {
        acc.base_iso = match le16(v, 0) { Some(x) => Some(x as u32), None => None };
    } else if id == T_SHOT_INFO {
        acc.shot_info = shorts(v);
    } else if id == T_CAMERA_SETTINGS {
        acc.camera_settings = shorts(v);
    } else if id == T_FOCAL_LENGTH {
        acc.focal = match le16(v, 2) { Some(mm) => if mm > 0 { Some(mm) } else { None }, None => None };
    } else if id == T_IMAGE_INFO {
        if let (Some(w), Some(h)) = (le32(v, 0), le32(v, 4)) {
            if w > 0 && h > 0 {
                push_long_field(&mut out.fields, Tag(Context::Tiff, 0x0100), In(16), w);
                push_long_field(&mut out.fields, Tag(Context::Tiff, 0x0101), In(16), h);
            }
        }
        if let Some(deg) = le32(v, 12) {
            if let Some(o) = rotation_to_orientation(deg) {
                push_short_field(&mut out.fields, Tag(Context::Tiff, 0x0112), In(0), o);
            }
        }
    } else if id == T_CAPTURE_TIME {
        if let Some(t) = le32(v, 0) {
            if let Some(s) = crate::x3f::utc_bytes(t as i64) {
                push_ascii_field(&mut out.fields, Tag(Context::Exif, 0x9003), s.as_slice());
            }
        }
    }
}

/// What the walk of the heap from `start` to `end` in the file `s`, at
/// the given nesting depth, makes of the state; `Err` for a directory that
/// runs past the end of the file.
///
/// The directory's address is the block's last four bytes, relative to
/// the block; a directory with no entries, too many, or not fitting the
/// block (give or take the four address bytes) is skipped.
pub open spec fn crw_walk(s: Seq<u8>, start: int, end: int, depth: int, st: CrwState) -> Result<CrwState, ()>
    decreases 9 - depth, 0x10001int,
{
    if depth > MAX_DEPTH || depth < 0 || start < 0 || end < start + 4 {
        Ok(st)
    } else if end > s.len() {
        Err(())
    } else {
        let dir_at = start + spec_u32(s, end - 4, true);
        if dir_at + 2 > end {
            Ok(st)
        } else {
            let count = spec_u16(s, dir_at, true);
            if count == 0 || count > MAX_ENTRIES || dir_at + 2 + count * 10 > end + 4 {
                Ok(st)
            } else if dir_at + 2 + count * 10 > s.len() {
                Err(())
            } else {
                crw_entries(s, start, end, depth, dir_at + 2, 0, count, st)
            }
        }
    }
}

/// What the directory entries from the `i`-th on, of a table at `table`,
/// make of the state.
///
/// A value stored in the entry itself is its eight bytes; otherwise it is
/// at the heap's start plus its offset and must fit the heap. A
/// subdirectory is walked; the three image records are kept as addresses
/// (the longer preview or thumbnail wins); any other record of at most 4096
/// bytes is taken in.
pub open spec fn crw_entries(s: Seq<u8>, start: int, end: int, depth: int, table: int, i: int, count: int,
    st: CrwState) -> Result<CrwState, ()>
    decreases 9 - depth, count - i,
{
    if i < 0 || i >= count || depth > MAX_DEPTH || depth < 0 {
        Ok(st)
    } else {
        let base = table + 10 * i;
        let tag = spec_u16(s, base, true) as u16;
        let id = tag & TAG_MASK;
        if tag & STORAGE_MASK == STORAGE_IN_ENTRY {
            crw_entries(s, start, end, depth, table, i + 1, count, take_value_spec(id, s.subrange(base + 2, base + 10), st))
        } else {
            let len = spec_u32(s, base + 2, true);
            let at = start + spec_u32(s, base + 6, true);
            if at + len > end {
                crw_entries(s, start, end, depth, table, i + 1, count, st)
            } else if tag & FORMAT_MASK == FORMAT_SUBDIR_1 || tag & FORMAT_MASK == FORMAT_SUBDIR_2 {
                match crw_walk(s, at, at + len, depth + 1, st) {
                    Err(()) => Err(()),
                    Ok(st2) => crw_entries(s, start, end, depth, table, i + 1, count, st2),
                }
            } else {
                let st2 = if id == T_RAW_DATA {
                    CrwState { raw_data: Some((at as u64, len as u32)), ..st }
                } else if id == T_JPEG_FROM_RAW {
                    CrwState { preview: larger(st.preview, (at as u64, len as u32)), ..st }
                } else if id == T_THUMBNAIL {
                    CrwState { thumbnail: larger(st.thumbnail, (at as u64, len as u32)), ..st }
                } else if len <= MAX_VALUE {
                    take_value_spec(id, s.subrange(at, at + len), st)
                } else {
                    st
                };
                crw_entries(s, start, end, depth, table, i + 1, count, st2)
            }
        }
    }
}

/// Walks one heap: its directory, then whatever the entries name.
#[verifier::rlimit(40)]
pub fn walk(s: &[u8], start: u64, end: u64, depth: u8, out: &mut CrwContents, acc: &mut Deferred)
    -> (r: Result<(), Error>)
    requires
        end <= s@.len(),
        s@.len() <= isize::MAX,
    ensures
        match crw_walk(s@, start as int, end as int, depth as int, crw_state(*old(out), *old(acc))) {
            Ok(st) => r is Ok && crw_state(*final(out), *final(acc)) == st,
            Err(()) => r matches Err(e) && e.is_invalid("Truncated CRW directory"),
        },
    decreases 9 - depth, 0x10001int,
{
    if depth > MAX_DEPTH || end < 4 || end - 4 < start {
        return Ok(());
    }
    let tail = load_u32(s, (end - 4) as usize, true) as u64;
    let dir_at = start + tail;
    if dir_at + 2 > end {
        return Ok(());
    }
    let count = load_u16(s, dir_at as usize, true) as u64;
    if count == 0 || count > MAX_ENTRIES as u64 || dir_at + 2 + count * 10 > end + 4 {
        return Ok(());
    }
    if dir_at + 2 + count * 10 > s.len() as u64 {
        return Err(Error::InvalidFormat("Truncated CRW directory"));
    }
    let table = dir_at + 2;
    let ghost st0 = crw_state(*out, *acc);
    let mut i: u64 = 0;
    while i < count
        invariant
            end <= s@.len(),
            s@.len() <= isize::MAX,
            start + 4 <= end,
            depth <= MAX_DEPTH,
            count <= MAX_ENTRIES,
            table + count * 10 <= s@.len(),
            st0 == crw_state(*old(out), *old(acc)),
            i <= count,
            crw_entries(s@, start as int, end as int, depth as int, table as int, i as int, count as int, crw_state(*out, *acc))
                == crw_walk(s@, start as int, end as int, depth as int, st0),
        decreases count - i,
    {
        let base = (table + 10 * i) as usize;
        let tag = load_u16(s, base, true);
        let id = tag & TAG_MASK;
        if tag & STORAGE_MASK == STORAGE_IN_ENTRY {
            take_value(id, &s[base + 2..base + 10], out, acc);
        } else {
            let len = load_u32(s, base + 2, true) as u64;
            let at = start + load_u32(s, base + 6, true) as u64;
            if at + len <= end {
                if tag & FORMAT_MASK == FORMAT_SUBDIR_1 || tag & FORMAT_MASK == FORMAT_SUBDIR_2 {
                    match walk(s, at, at + len, depth + 1, out, acc) {
                        Ok(()) => {},
                        Err(e) => return Err(e),
                    }
                } else if id == T_RAW_DATA {
                    out.raw_data = Some((at, len as u32));
                } else if id == T_JPEG_FROM_RAW {
                    keep_larger(&mut out.preview, (at, len as u32));
                } else if id == T_THUMBNAIL {
                    keep_larger(&mut out.thumbnail, (at, len as u32));
                } else if len <= MAX_VALUE as u64 {
                    take_value(id, &s[at as usize..(at + len) as usize], out, acc);
                }
            }
        }
        i = i + 1;
    }
    Ok(())
}

/// The focal length a CRW states, as the rational its `CameraSettings`
/// units make it: the length over the divisor (at least 1; 1 when the
/// settings do not say).
pub open spec fn focal_length_spec(focal: Option<u16>, settings: Seq<u16>) -> Option<(Tag, In, ValueView)> {
    match focal {
        None => None,
        Some(mm) => {
            let units: u16 = if SETTING_FOCAL_UNITS < settings.len() { settings[SETTING_FOCAL_UNITS as int] } else { 1 };
            let units = if units < 1 { 1u16 } else { units };
            Some((Tag(Context::Exif, 0x920a), In(0),
                ValueView::Rational(seq![Rational { num: mm as u32, denom: units as u32 }])))
        },
    }
}

/// Adds the focal length field that a CRW's deferred records state.
pub fn focal_length_field(acc: &Deferred, out: &mut Vec<Field>)
    ensures
        fields_view(final(out)@) == match focal_length_spec(acc.focal, acc.camera_settings@) {
            None => fields_view(old(out)@),
            Some(f) => fields_view(old(out)@).push(f),
        },
{
    if let Some(mm) = acc.focal {
        let units: u16 = if SETTING_FOCAL_UNITS < acc.camera_settings.len() {
            acc.camera_settings[SETTING_FOCAL_UNITS]
        } else {
            1
        };
        let units = if units < 1 { 1 } else { units };
        let mut r: Vec<Rational> = Vec::new();
        r.push(Rational { num: mm as u32, denom: units as u32 });
        let ghost pre = out@;
        out.push(Field { tag: Tag(Context::Exif, 0x920a), ifd_num: In(0), value: Value::Rational(r) });
        proof {
            assert(r@ =~= seq![Rational { num: mm as u32, denom: units as u32 }]);
            assert(fields_view(out@) =~= fields_view(pre).push(focal_length_spec(acc.focal, acc.camera_settings@)->0));
        }
    }
}

/// The `i`-th short of a CRW's `ShotInfo`, where it states a value: not
/// zero, and not `0xFFFF`.
pub open spec fn shot_value_spec(shot_info: Seq<u16>, i: int) -> Option<u16> {
    if 0 <= i < shot_info.len() && shot_info[i] != 0 && shot_info[i] != 0xffff {
        Some(shot_info[i])
    } else {
        None
    }
}

/// Returns the `i`-th short of the deferred `ShotInfo`, where it states a
/// value.
pub fn shot_value(acc: &Deferred, i: usize) -> (r: Option<u16>)
    ensures
        r == shot_value_spec(acc.shot_info@, i as int),
{
    if i < acc.shot_info.len() && acc.shot_info[i] != 0 && acc.shot_info[i] != 0xffff {
        Some(acc.shot_info[i])
    } else {
        None
    }
}

/// The ISO field of a CRW: the shot's own ISO where `ShotInfo` states one
/// (`shot_iso`, decoded by the caller), otherwise the body's floor
/// `BaseISO`; none where that is absent or zero; at most 65535.
pub open spec fn iso_field_spec(shot_iso: Option<u32>, base_iso: Option<u32>) -> Option<(Tag, In, ValueView)> {
    let iso = match shot_iso { Some(v) => Some(v), None => base_iso };
    match iso {
        Some(v) => if v > 0 {
            Some((Tag(Context::Exif, 0x8827), In(0), ValueView::Short(seq![if v > 0xffff { 0xffffu16 } else { v as u16 }])))
        } else {
            None
        },
        None => None,
    }
}

/// Makes the ISO field of a CRW from the shot's ISO, if `ShotInfo` states
/// one, and the body's `BaseISO`.
pub fn iso_field(shot_iso: Option<u32>, base_iso: Option<u32>) -> (r: Option<Field>)
    ensures
        match iso_field_spec(shot_iso, base_iso) {
            Some(v) => r matches Some(f) && field_view(f) == v,
            None => r is None,
        },
{
    let iso = match shot_iso { Some(v) => Some(v), None => base_iso };
    match iso {
        Some(v) => if v > 0 {
            let n: u16 = if v > 0xffff { 0xffff } else { v as u16 };
            let mut x: Vec<u16> = Vec::new();
            x.push(n);
            assert(x@ =~= seq![n]);
            Some(Field { tag: Tag(Context::Exif, 0x8827), ifd_num: In(0), value: Value::Short(x) })
        } else {
            None
        },
        None => None,
    }
}

/// What a CRW file `s` states: the walk of its outermost heap, from the
/// offset the header gives to the end of the file, then the focal length.
pub open spec fn crw_contents(s: Seq<u8>) -> Result<CrwState, &'static str> {
    if s.len() < 14 {
        Err("Truncated CRW")
    } else if !crw_sig(s) {
        Err("Not a CRW file")
    } else if spec_u32(s, 2, true) + 4 > s.len() {
        Err("CRW heap is out of range")
    } else {
        let empty = CrwState {
            preview: None, thumbnail: None, raw_data: None, fields: Seq::empty(),
            shot_info: Seq::empty(), camera_settings: Seq::empty(), base_iso: None, focal: None,
        };
        match crw_walk(s, spec_u32(s, 2, true), s.len() as int, 0, empty) {
            Err(()) => Err("Truncated CRW directory"),
            Ok(st) => Ok(CrwState {
                fields: match focal_length_spec(st.focal, st.camera_settings) {
                    None => st.fields,
                    Some(f) => st.fields.push(f),
                },
                ..st
            }),
        }
    }
}

/// Reads a CRW's heap and everything it names. The deferred records come
/// back too, for the exposure values that take floating point to decode.
pub fn get_contents(data: &[u8]) -> (r: Result<(CrwContents, Deferred), Error>)
    requires
        data@.len() <= isize::MAX,
    ensures
        match crw_contents(data@) {
            Ok(st) => r matches Ok((c, d)) && crw_state(c, d) == st,
            Err(m) => r matches Err(e) && e.is_invalid(m),
        },
{
    if data.len() < 14 {
        return Err(Error::InvalidFormat("Truncated CRW"));
    }
    if !is_crw(data) {
        return Err(Error::InvalidFormat("Not a CRW file"));
    }
    let heap_at = load_u32(data, 2, true) as u64;
    let end = data.len() as u64;
    if heap_at + 4 > end {
        return Err(Error::InvalidFormat("CRW heap is out of range"));
    }
    let mut out = CrwContents { preview: None, thumbnail: None, raw_data: None, fields: Vec::new() };
    let mut acc = Deferred { shot_info: Vec::new(), camera_settings: Vec::new(), base_iso: None, focal: None };
    proof {
        assert(fields_view(out.fields@) =~= Seq::empty());
        assert(acc.shot_info@ =~= Seq::empty());
        assert(acc.camera_settings@ =~= Seq::empty());
    }
    walk(data, heap_at, end, 0, &mut out, &mut acc)?;
    focal_length_field(&acc, &mut out.fields);
    Ok((out, acc))
}

} // verus!
