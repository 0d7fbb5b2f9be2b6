use vstd::prelude::*;
use crate::bytes::{spec_u16, spec_u32, load_u16, load_u32, matches_at, copy_range};
use crate::error::Error;
use crate::jpeg::{jpeg_sig, mpf_id, is_standalone, MARKER_P, MARKER_Z, MARKER_TEM, MARKER_RST0,
    MARKER_RST7, MARKER_SOI, MARKER_EOI, MARKER_APP2};
use crate::tiff::{TIFF_BE, TIFF_LE};
use crate::util::{ascii_chars, bytes_to_string};

pub mod mpf_tag;

pub use mpf_tag::{MpfField, MpfTag};

verus! {

/// The MPF identifier code `"MPF\0"` of an APP2 segment.
pub const MPF_ID: [u8; 4] = [0x4d, 0x50, 0x46, 0x00];

// ---------------------------------------------------------------------
// MPEntry offsets, made absolute in place.

/// Where the MPEntry data of an MPF segment lies and how it is read: its
/// byte order, the start of its data and its byte count; `None` when the
/// segment has no usable MPEntry, so that nothing is changed.
///
/// The header gives the byte order and the IFD; the first in-bounds IFD
/// entry tagged 0xB002 is MPEntry, which must be UNDEFINED and lie within
/// the segment (inline when at most 4 bytes).
pub open spec fn mp_entry_location(s: Seq<u8>) -> Option<(bool, int, int)> {
    if s.len() < 8 {
        None
    } else if spec_u16(s, 0, false) != TIFF_BE && spec_u16(s, 0, false) != TIFF_LE {
        None
    } else {
        let le = spec_u16(s, 0, false) == TIFF_LE;
        let ifd = spec_u32(s, 4, le);
        if ifd >= s.len() {
            None
        } else {
            match first_mp_entry(s, ifd, le, 0, spec_u16(s, ifd, le)) {
                None => None,
                Some(eo) => {
                    let count = spec_u32(s, eo + 4, le);
                    let data_offset = if count > 4 { spec_u32(s, eo + 8, le) } else { eo + 8 };
                    if spec_u16(s, eo + 2, le) != 7 || data_offset + count > s.len() {
                        None
                    } else {
                        Some((le, data_offset, count))
                    }
                },
            }
        }
    }
}

/// The offset of the first entry from the `i`-th on, of an IFD at `ifd`
/// holding `n` entries, that lies within `s` and is tagged 0xB002; the
/// search stops at the first entry past the end.
pub open spec fn first_mp_entry(s: Seq<u8>, ifd: int, le: bool, i: int, n: int) -> Option<int>
    decreases n - i,
{
    if i >= n || ifd + 2 + 12 * i + 12 > s.len() {
        None
    } else if spec_u16(s, ifd + 2 + 12 * i, le) == 0xb002 {
        Some(ifd + 2 + 12 * i)
    } else {
        first_mp_entry(s, ifd, le, i + 1, n)
    }
}

/// The offset of the ImageDataOffset field of the `j`-th MP entry whose
/// data begins at `d`.
pub open spec fn image_offset_field(d: int, j: int) -> int {
    d + 16 * j + 8
}

/// Whether byte `k` lies in one of the first `n` ImageDataOffset fields of
/// the entries at `d`.
pub open spec fn in_offset_field(d: int, n: int, k: int) -> bool {
    d <= k < d + 16 * n && 8 <= (k - d) % 16 < 12
}

/// Whether `t` is `s` with every ImageDataOffset of its MPEntry moved by
/// `base` (modulo 2^32, in the segment's byte order), and nothing else
/// changed; `t` is `s` when the segment has no usable MPEntry.
pub open spec fn offsets_made_absolute(s: Seq<u8>, t: Seq<u8>, base: int) -> bool {
    &&& t.len() == s.len()
    &&& match mp_entry_location(s) {
        None => t == s,
        Some((le, d, count)) => {
            let n = count / 16;
            &&& forall|j: int| 0 <= j < n ==> #[trigger] spec_u32(t, image_offset_field(d, j), le)
                == (base + spec_u32(s, image_offset_field(d, j), le)) % 0x1_0000_0000
            &&& forall|k: int| 0 <= k < s.len() && !in_offset_field(d, n, k) ==> #[trigger] t[k] == s[k]
        },
    }
}

/// Whether the IFD an MPF segment names can at least hold its entry count
/// wherever it starts within the segment.
pub open spec fn mpf_ifd_readable(s: Seq<u8>) -> bool {
    s.len() >= 8 && (spec_u16(s, 0, false) == TIFF_BE || spec_u16(s, 0, false) == TIFF_LE) ==> {
        let ifd = spec_u32(s, 4, spec_u16(s, 0, false) == TIFF_LE);
        ifd >= s.len() || ifd + 2 <= s.len()
    }
}

/// Tests whether the IFD an MPF segment names can at least hold its entry
/// count wherever it starts within the segment.
pub fn mpf_ifd_ok(s: &[u8]) -> (r: bool)
    ensures
        r == mpf_ifd_readable(s@),
{
    if s.len() < 8 {
        return true;
    }
    let mark = load_u16(s, 0, false);
    if mark != TIFF_BE && mark != TIFF_LE {
        return true;
    }
    let ifd = load_u32(s, 4, mark == TIFF_LE) as u64;
    ifd >= s.len() as u64 || ifd + 2 <= s.len() as u64
}

/// Writes `x` at `buf[pos..pos + 4]` in the given byte order.
fn store_u32(buf: &mut Vec<u8>, pos: usize, x: u32, le: bool)
    requires
        pos + 4 <= old(buf)@.len(),
    ensures
        final(buf)@.len() == old(buf)@.len(),
        spec_u32(final(buf)@, pos as int, le) == x,
        forall|k: int| 0 <= k < old(buf)@.len() && !(pos <= k < pos + 4) ==> #[trigger] final(buf)@[k] == old(buf)@[k],
{
    let b0 = (x % 256) as u8;
    let b1 = ((x / 256) % 256) as u8;
    let b2 = ((x / 65536) % 256) as u8;
    let b3 = (x / 16777216) as u8;
    let n = buf.len();
    assert(pos + 4 <= n);
    proof {
        assert(x == b0 + 256 * b1 + 65536 * b2 + 16777216 * b3) by (nonlinear_arith)
            requires
                b0 == x % 256, b1 == (x / 256) % 256, b2 == (x / 65536) % 256, b3 == x / 16777216;
    }
    if le {
        buf.set(pos, b0);
        buf.set(pos + 1, b1);
        buf.set(pos + 2, b2);
        buf.set(pos + 3, b3);
    } else {
        buf.set(pos, b3);
        buf.set(pos + 1, b2);
        buf.set(pos + 2, b1);
        buf.set(pos + 3, b0);
    }
}

/// Finds the MPEntry data of an MPF segment: its byte order, where it
/// starts and its byte count.
fn find_mp_entry(buf: &[u8]) -> (r: Option<(bool, usize, u64)>)
    requires
        mpf_ifd_readable(buf@),
    ensures
        match r {
            Some((le, d, count)) => mp_entry_location(buf@) == Some((le, d as int, count as int)),
            None => mp_entry_location(buf@) is None,
        },
{
    let ghost s = buf@;
    let len = buf.len();
    if len < 8 {
        return None;
    }
    let order = load_u16(buf, 0, false);
    let le = if order == TIFF_BE {
        false
    } else if order == TIFF_LE {
        true
    } else {
        return None;
    };
    let ifd = load_u32(buf, 4, le) as usize;
    if ifd >= len {
        return None;
    }
    let n = load_u16(buf, ifd, le) as usize;
    let mut i: usize = 0;
    while i < n
        invariant
            s == buf@,
            len == s.len(),
            ifd < len,
            n == spec_u16(s, ifd as int, le),
            n <= 0xffff,
            le == (spec_u16(s, 0, false) == TIFF_LE),
            spec_u16(s, 0, false) == TIFF_BE || spec_u16(s, 0, false) == TIFF_LE,
            ifd == spec_u32(s, 4, le),
            len >= 8,
            i <= n,
            first_mp_entry(s, ifd as int, le, i as int, n as int) == first_mp_entry(s, ifd as int, le, 0, n as int),
        decreases n - i,
    {
        let eo64: u64 = ifd as u64 + 2 + 12 * (i as u64);
        if eo64 + 12 > len as u64 {
            return None;
        }
        let eo = eo64 as usize;
        let tag = load_u16(buf, eo, le);
        if tag == 0xb002 {
            assert(first_mp_entry(s, ifd as int, le, i as int, n as int) == Some(eo as int));
            let typ = load_u16(buf, eo + 2, le);
            let count = load_u32(buf, eo + 4, le) as u64;
            if typ != 7 {
                return None;
            }
            let data_offset: u64 = if count > 4 {
                load_u32(buf, eo + 8, le) as u64
            } else {
                (eo + 8) as u64
            };
            if data_offset + count > len as u64 {
                return None;
            }
            return Some((le, data_offset as usize, count));
        }
        i = i + 1;
    }
    None
}

/// Converts the MPEntry image offsets of an MPF segment, in place, from
/// offsets from the segment's TIFF header to absolute file offsets.
fn convert_mpf_offsets_to_absolute(mpf_buf: &mut Vec<u8>, app2_offset: u64)
    requires
        mpf_ifd_readable(old(mpf_buf)@),
        app2_offset <= u64::MAX - 0xffff_ffff,
    ensures
        offsets_made_absolute(old(mpf_buf)@, final(mpf_buf)@, app2_offset as int),
{
    let ghost s = mpf_buf@;
    let len = mpf_buf.len();
    let (le, d, count) = match find_mp_entry(mpf_buf.as_slice()) {
        None => return,
        Some(x) => x,
    };
    let nimg = (count / 16) as usize;
    let mut j: usize = 0;
    while j < nimg
        invariant
            mpf_buf@.len() == s.len(),
            len == s.len(),
            mp_entry_location(s) == Some((le, d as int, count as int)),
            nimg == count / 16,
            d + count <= s.len(),
            app2_offset <= u64::MAX - 0xffff_ffff,
            j <= nimg,
            forall|m: int| 0 <= m < j ==> #[trigger] spec_u32(mpf_buf@, image_offset_field(d as int, m), le)
                == (app2_offset + spec_u32(s, image_offset_field(d as int, m), le)) % 0x1_0000_0000,
            forall|m: int| j <= m < nimg ==> #[trigger] spec_u32(mpf_buf@, image_offset_field(d as int, m), le)
                == spec_u32(s, image_offset_field(d as int, m), le),
            forall|k: int| 0 <= k < s.len() && !in_offset_field(d as int, j as int, k) ==> #[trigger] mpf_buf@[k] == s[k],
        decreases nimg - j,
    {
        proof {
            assert(16 * j + 16 <= count) by (nonlinear_arith)
                requires j < nimg, nimg == count / 16;
        }
        let at = d + 16 * j + 8;
        let ghost f = image_offset_field(d as int, j as int);
        assert(f == at);
        assert(spec_u32(mpf_buf@, f, le) == spec_u32(s, f, le));
        let rel = load_u32(mpf_buf.as_slice(), at, le);
        let abs = ((app2_offset + rel as u64) % 0x1_0000_0000) as u32;
        let ghost before = mpf_buf@;
        store_u32(mpf_buf, at, abs, le);
        proof {
            assert(spec_u32(mpf_buf@, f, le) == (app2_offset + spec_u32(s, f, le)) % 0x1_0000_0000);
            assert forall|m: int| 0 <= m < j + 1 implies #[trigger] spec_u32(mpf_buf@, image_offset_field(d as int, m), le)
                == (app2_offset + spec_u32(s, image_offset_field(d as int, m), le)) % 0x1_0000_0000 by {
                if m == j {
                    assert(image_offset_field(d as int, m) == f);
                } else {
                    let g = image_offset_field(d as int, m);
                    assert(spec_u32(before, g, le) == (app2_offset + spec_u32(s, g, le)) % 0x1_0000_0000);
                    assert(g + 4 <= at);
                    assert(mpf_buf@[g] == before[g] && mpf_buf@[g + 1] == before[g + 1]
                        && mpf_buf@[g + 2] == before[g + 2] && mpf_buf@[g + 3] == before[g + 3]);
                }
            }
            assert forall|m: int| j + 1 <= m < nimg implies #[trigger] spec_u32(mpf_buf@, image_offset_field(d as int, m), le)
                == spec_u32(s, image_offset_field(d as int, m), le) by {
                let g = image_offset_field(d as int, m);
                assert(at + 4 <= g);
                assert(mpf_buf@[g] == before[g] && mpf_buf@[g + 1] == before[g + 1]
                    && mpf_buf@[g + 2] == before[g + 2] && mpf_buf@[g + 3] == before[g + 3]);
            }
            assert forall|k: int| 0 <= k < s.len() && !in_offset_field(d as int, j + 1, k) implies #[trigger] mpf_buf@[k] == s[k] by {
                assert(!in_offset_field(d as int, j as int, k));
                if at <= k < at + 4 {
                    assert((k - d) % 16 == k - d - 16 * j) by (nonlinear_arith)
                        requires at == d + 16 * j + 8, at <= k < at + 4;
                    assert(in_offset_field(d as int, j + 1, k));
                }
            }
        }
        j = j + 1;
    }
}

/// Whether `r` is what parsing the MPF segment `s` as TIFF data gives: the
/// header's error, or the error that stopped the parse; otherwise a field
/// for each entry of its IFDs, in the order the parse reaches them, keyed
/// by the entry's tag and with its value read in the segment's byte order.
pub open spec fn mpf_parsed(s: Seq<u8>, r: Result<Vec<MpfField>, Error>) -> bool {
    match crate::tiff::header_error(s) {
        Some(e) => r == Err::<Vec<MpfField>, Error>(e),
        None => match crate::tiff::tiff_parse(s, false).1 {
            Err(e) => r == Err::<Vec<MpfField>, Error>(e),
            Ok(()) => r matches Ok(v) && crate::exifimpl::mpf_read(v@, s, crate::tiff::header_le(s)),
        },
    }
}

/// Parses an MPF segment, first making its MPEntry image offsets absolute
/// by adding `app2_offset`, the segment's position in the file: the fields
/// of its IFDs, each keyed by its tag (where a tag comes twice, a lookup
/// takes the last).
pub fn parse_mpf(mpf_data: &mut Vec<u8>, app2_offset: u64) -> (r: Result<Vec<MpfField>, Error>)
    requires
        mpf_ifd_readable(old(mpf_data)@),
        app2_offset <= u64::MAX - 0xffff_ffff,
    ensures
        offsets_made_absolute(old(mpf_data)@, final(mpf_data)@, app2_offset as int),
        mpf_parsed(final(mpf_data)@, r),
{
    convert_mpf_offsets_to_absolute(mpf_data, app2_offset);
    let mut parser = crate::tiff::Parser::new();
    proof { crate::tiff::lemma_fresh_gathered(parser, false); }
    match parser.parse(mpf_data.as_slice()) {
        Ok(()) => {},
        Err(e) => return Err(e),
    }
    let le = parser.little_endian;
    Ok(crate::exifimpl::parse_mpf_internal(mpf_data.as_slice(), le))
}

// ---------------------------------------------------------------------
// MPF information read from a whole JPEG file.

/// An individual image of an MPF.
#[derive(Debug, Clone, Copy)]
pub struct MpImage {
    /// The individual image attribute (type) word.
    pub image_type: u32,
    /// Size of the image in bytes.
    pub length: u32,
    /// Offset of the image from the start of the file.
    pub offset: u64,
}

impl MpImage {
    /// Extracts the image's bytes from the whole file `data`.
    pub fn extract_data(&self, data: &[u8]) -> (r: Result<Vec<u8>, Error>)
        ensures
            self.offset + self.length <= data@.len() ==> (r matches Ok(v)
                && v@ == data@.subrange(self.offset as int, self.offset + self.length)),
            self.offset + self.length > data@.len() ==> (r matches Err(e) && e is Io),
    {
        extract_image_data(data, self.offset, self.length as usize)
    }
}

/// The bytes `data[offset..offset + length]`, or an I/O error where the
/// data ends first.
fn extract_image_data(data: &[u8], offset: u64, length: usize) -> (r: Result<Vec<u8>, Error>)
    ensures
        offset + length <= data@.len() ==> (r matches Ok(v)
            && v@ == data@.subrange(offset as int, offset + length)),
        offset + length > data@.len() ==> (r matches Err(e) && e is Io),
{
    if offset > data.len() as u64 || (data.len() - offset as usize) < length {
        return Err(crate::jpeg::eof_error());
    }
    let start = offset as usize;
    Ok(copy_range(data, start, start + length))
}

/// The Multi-Picture Format information of a JPEG file.
#[derive(Debug)]
pub struct MpfInfo {
    /// The MPF version, as its four bytes with a dot in the middle.
    pub version: String,
    /// The number of images the index states.
    pub number_of_images: u32,
    /// The individual images.
    pub images: Vec<MpImage>,
}

impl MpfInfo {
    /// The large preview: the first image after the first one that is
    /// larger than 50,000 bytes.
    pub fn get_preview_image(&self) -> (r: Option<&MpImage>)
        ensures
            match r {
                Some(img) => exists|k: int| 1 <= k < self.images@.len() && self.images@[k] == *img
                    && self.images@[k].length > 50_000
                    && forall|m: int| 1 <= m < k ==> (#[trigger] self.images@[m]).length <= 50_000,
                None => forall|m: int| 1 <= m < self.images@.len() ==> (#[trigger] self.images@[m]).length <= 50_000,
            },
    {
        let mut k: usize = 1;
        while k < self.images.len()
            invariant
                1 <= k,
                forall|m: int| 1 <= m < k && m < self.images@.len() ==> (#[trigger] self.images@[m]).length <= 50_000,
            decreases self.images@.len() - k,
        {
            if self.images[k].length > 50_000 {
                return Some(&self.images[k]);
            }
            k = k + 1;
        }
        None
    }

    /// The primary image: the first one.
    pub fn get_primary_image(&self) -> (r: Option<&MpImage>)
        ensures
            self.images@.len() == 0 ==> r is None,
            self.images@.len() > 0 ==> (r matches Some(img) && *img == self.images@[0]),
    {
        if self.images.len() == 0 {
            None
        } else {
            Some(&self.images[0])
        }
    }
}

/// What a search of a JPEG for its MPF segment ends with.
pub ghost enum MpfScan {
    /// The image ended; with the last MPF segment's data and the position
    /// its TIFF header is taken to be at, if there was one.
    Done(Option<(Seq<u8>, int)>),
    Broken,
    NotJpeg,
    UnexpectedSoi,
    BadLength,
}

/// The end of the search for MPF segments from `pos` on; `mark` is where
/// the current search for a marker began.
///
/// Every segment is read up to EOI, scan data included; the data of an
/// APP2 segment that starts with the MPF identifier is kept, with `mark`
/// plus 8 (marker, length and identifier) as its position.
pub open spec fn scan_mpf(s: Seq<u8>, pos: int, in_code: bool, mark: int, found: Option<(Seq<u8>, int)>) -> MpfScan
    decreases s.len() - pos,
{
    if pos < 0 || pos >= s.len() {
        MpfScan::Broken
    } else if !in_code {
        scan_mpf(s, pos + 1, s[pos] == MARKER_P, mark, found)
    } else {
        let c = s[pos];
        let n = pos + 1;
        if c == MARKER_P {
            scan_mpf(s, n, true, mark, found)
        } else if is_standalone(c) {
            scan_mpf(s, n, false, n, found)
        } else if c == MARKER_SOI {
            MpfScan::UnexpectedSoi
        } else if c == MARKER_EOI {
            MpfScan::Done(found)
        } else if n + 2 > s.len() {
            MpfScan::Broken
        } else if spec_u16(s, n, false) < 2 {
            MpfScan::BadLength
        } else {
            let start = n + 2;
            let end = start + spec_u16(s, n, false) - 2;
            if end > s.len() {
                MpfScan::Broken
            } else {
                let seg = s.subrange(start, end);
                if c == MARKER_APP2 && seg.len() >= 4 && seg.subrange(0, 4) == mpf_id() {
                    scan_mpf(s, end, false, end, Some((seg.subrange(4, seg.len() as int), mark + 8)))
                } else {
                    scan_mpf(s, end, false, end, found)
                }
            }
        }
    }
}

/// What the search of the whole file `s` for its MPF segment finds.
pub open spec fn jpeg_mpf(s: Seq<u8>) -> MpfScan {
    if s.len() < 2 {
        MpfScan::Broken
    } else if s.subrange(0, 2) != jpeg_sig() {
        MpfScan::NotJpeg
    } else {
        scan_mpf(s, 2, false, 2, None)
    }
}

/// What the MPF index IFD states so far: the version's four bytes, the
/// number of images and the MPEntry data, each the last one found.
pub ghost struct MpfIndex {
    pub version: Option<Seq<u8>>,
    pub number: Option<u32>,
    pub entries: Option<Seq<u8>>,
}

/// What the first `k` entries of the index IFD at `ifd` state; an entry
/// past the end of `s` states nothing.
pub open spec fn mpf_index(s: Seq<u8>, ifd: int, le: bool, k: int) -> MpfIndex
    decreases k,
{
    if k <= 0 {
        MpfIndex { version: None, number: None, entries: None }
    } else {
        let prev = mpf_index(s, ifd, le, k - 1);
        let eo = ifd + 2 + 12 * (k - 1);
        if eo + 12 > s.len() {
            prev
        } else {
            let tag = spec_u16(s, eo, le);
            let typ = spec_u16(s, eo + 2, le);
            let count = spec_u32(s, eo + 4, le);
            let vo = eo + 8;
            if tag == 0xb000 && typ == 7 && count >= 4 {
                MpfIndex { version: Some(s.subrange(vo, vo + 4)), ..prev }
            } else if tag == 0xb001 && typ == 4 {
                MpfIndex { number: Some(spec_u32(s, vo, le) as u32), ..prev }
            } else if tag == 0xb002 && typ == 7 {
                let d = if count > 4 { spec_u32(s, vo, le) } else { vo };
                if d + count <= s.len() {
                    MpfIndex { entries: Some(s.subrange(d, d + count)), ..prev }
                } else {
                    prev
                }
            } else {
                prev
            }
        }
    }
}

/// The version an index states is four bytes long, and its MPEntry data
/// lies within the segment.
pub proof fn lemma_mpf_index_parts(s: Seq<u8>, ifd: int, le: bool, k: int)
    requires
        0 <= ifd,
    ensures
        mpf_index(s, ifd, le, k).version matches Some(v) ==> v.len() == 4,
        mpf_index(s, ifd, le, k).entries matches Some(e) ==> e.len() <= s.len(),
    decreases k,
{
    if k > 0 {
        lemma_mpf_index_parts(s, ifd, le, k - 1);
    }
}

/// The MPF information an MPF segment `s` states: its version text, its
/// number of images and its MPEntry data; or the message of the error it
/// gives.
pub open spec fn mpf_segment(s: Seq<u8>) -> Result<(Seq<u8>, u32, Seq<u8>), &'static str> {
    if s.len() < 8 {
        Err("MPF segment too short")
    } else if spec_u16(s, 0, false) != TIFF_BE && spec_u16(s, 0, false) != TIFF_LE {
        Err("Invalid MPF byte order")
    } else {
        let le = spec_u16(s, 0, false) == TIFF_LE;
        let ifd = spec_u32(s, 4, le);
        if ifd >= s.len() {
            Err("Invalid MPF IFD offset")
        } else {
            let idx = mpf_index(s, ifd, le, spec_u16(s, ifd, le));
            if idx.version is None {
                Err("MPFVersion not found")
            } else if idx.number is None {
                Err("NumberOfImages not found")
            } else if idx.entries is None {
                Err("MPEntry not found")
            } else if idx.entries->0.len() / 16 != idx.number->0 {
                Err("MPEntry count mismatch")
            } else {
                Ok((idx.version->0, idx.number->0, idx.entries->0))
            }
        }
    }
}

/// The text of an MPF version: its first two bytes, a dot, its last two.
pub open spec fn version_text(v: Seq<u8>) -> Seq<u8> {
    v.subrange(0, 2) + seq![46u8] + v.subrange(2, 4)
}

/// Whether `img` is the MP entry at `e[16 * k..]`, its offset counted from
/// `base`.
pub open spec fn image_from_entry(img: MpImage, e: Seq<u8>, k: int, le: bool, base: int) -> bool {
    &&& img.image_type == spec_u32(e, 16 * k, le)
    &&& img.length == spec_u32(e, 16 * k + 4, le)
    &&& img.offset == base + spec_u32(e, 16 * k + 8, le)
}

/// Whether `info` is what the MPF segment `s`, whose TIFF header is at
/// `base` in the file, states.
pub open spec fn mpf_info_of(info: MpfInfo, s: Seq<u8>, base: int) -> bool {
    match mpf_segment(s) {
        Ok((v, n, e)) => {
            let le = spec_u16(s, 0, false) == TIFF_LE;
            &&& info.version@ == ascii_chars(version_text(v))
            &&& info.number_of_images == n
            &&& info.images@.len() == n
            &&& forall|k: int| 0 <= k < n ==> image_from_entry(#[trigger] info.images@[k], e, k, le, base)
        },
        Err(_) => false,
    }
}

#[verifier::rlimit(40)]
/// Parses the TIFF-like MPF segment `data`, whose TIFF header lies at
/// `app2_position` in the file.
fn parse_mpf_segment(data: &[u8], app2_position: u64) -> (r: Result<Option<MpfInfo>, Error>)
    requires
        mpf_ifd_readable(data@),
        data@.len() <= isize::MAX,
        app2_position <= u64::MAX - 0xffff_ffff,
    ensures
        match mpf_segment(data@) {
            Ok(_) => r matches Ok(Some(info)) && mpf_info_of(info, data@, app2_position as int),
            Err(m) => r matches Err(e) && e.is_invalid(m),
        },
{
    let ghost s = data@;
    let len = data.len();
    if len < 8 {
        return Err(Error::InvalidFormat("MPF segment too short"));
    }
    let order = load_u16(data, 0, false);
    let le = if order == TIFF_BE {
        false
    } else if order == TIFF_LE {
        true
    } else {
        return Err(Error::InvalidFormat("Invalid MPF byte order"));
    };
    let ifd = load_u32(data, 4, le) as usize;
    if ifd >= len {
        return Err(Error::InvalidFormat("Invalid MPF IFD offset"));
    }
    let n = load_u16(data, ifd, le) as usize;
    let mut version: Option<Vec<u8>> = None;
    let mut number: Option<u32> = None;
    let mut entries: Option<Vec<u8>> = None;
    let mut i: usize = 0;
    while i < n
        invariant
            s == data@,
            len == s.len(),
            len <= isize::MAX,
            ifd < len,
            n <= 0xffff,
            i <= n,
            ({
                let idx = mpf_index(s, ifd as int, le, i as int);
                &&& crate::jpeg::opt_bytes(version) == idx.version
                &&& number == idx.number
                &&& crate::jpeg::opt_bytes(entries) == idx.entries
            }),
        decreases n - i,
    {
        let eo64: u64 = ifd as u64 + 2 + 12 * (i as u64);
        if eo64 + 12 > len as u64 {
            i = i + 1;
            continue;
        }
        let eo = eo64 as usize;
        let tag = load_u16(data, eo, le);
        let typ = load_u16(data, eo + 2, le);
        let count = load_u32(data, eo + 4, le) as u64;
        let vo = eo + 8;
        if tag == 0xb000 && typ == 7 && count >= 4 {
            version = Some(copy_range(data, vo, vo + 4));
        } else if tag == 0xb001 && typ == 4 {
            number = Some(load_u32(data, vo, le));
        } else if tag == 0xb002 && typ == 7 {
            let d: u64 = if count > 4 { load_u32(data, vo, le) as u64 } else { vo as u64 };
            if d + count <= len as u64 {
                entries = Some(copy_range(data, d as usize, (d + count) as usize));
            }
        }
        i = i + 1;
    }
    let version = match version {
        Some(v) => v,
        None => return Err(Error::InvalidFormat("MPFVersion not found")),
    };
    let number = match number {
        Some(v) => v,
        None => return Err(Error::InvalidFormat("NumberOfImages not found")),
    };
    let entries = match entries {
        Some(v) => v,
        None => return Err(Error::InvalidFormat("MPEntry not found")),
    };
    proof {
        lemma_mpf_index_parts(s, ifd as int, le, n as int);
    }
    let count = entries.len() / 16;
    if count != number as usize {
        return Err(Error::InvalidFormat("MPEntry count mismatch"));
    }
    let mut images: Vec<MpImage> = Vec::new();
    let elen = entries.len();
    let mut k: usize = 0;
    while k < count
        invariant
            elen == entries@.len(),
            count == entries@.len() / 16,
            k <= count,
            app2_position <= u64::MAX - 0xffff_ffff,
            images@.len() == k,
            forall|m: int| 0 <= m < k ==> image_from_entry(#[trigger] images@[m], entries@, m, le, app2_position as int),
        decreases count - k,
    {
        proof {
            assert(16 * k + 16 <= entries@.len()) by (nonlinear_arith)
                requires k < count, count == entries@.len() / 16;
        }
        let at = 16 * k;
        let t = load_u32(entries.as_slice(), at, le);
        let l = load_u32(entries.as_slice(), at + 4, le);
        let o = load_u32(entries.as_slice(), at + 8, le);
        images.push(MpImage { image_type: t, length: l, offset: app2_position + o as u64 });
        k = k + 1;
    }
    let mut text: Vec<u8> = Vec::new();
    text.push(version[0]);
    text.push(version[1]);
    text.push(46);
    text.push(version[2]);
    text.push(version[3]);
    assert(text@ =~= version_text(version@));
    Ok(Some(MpfInfo { version: bytes_to_string(text.as_slice()), number_of_images: number, images }))
}

/// Whether the MPF segment, if any, that the file `s` holds can at least
/// hold its IFD's entry count.
pub open spec fn mpf_readable(s: Seq<u8>) -> bool {
    jpeg_mpf(s) matches MpfScan::Done(Some((d, _))) ==> mpf_ifd_readable(d)
}

/// Gets the MPF information from a whole JPEG file: `None` where it has no
/// MPF segment. The images' data can then be taken with
/// `MpImage::extract_data`.
pub fn get_mpf_info(data: &[u8]) -> (r: Result<Option<MpfInfo>, Error>)
    requires
        mpf_readable(data@),
        data@.len() <= isize::MAX,
    ensures
        match jpeg_mpf(data@) {
            MpfScan::Done(None) => r matches Ok(None),
            MpfScan::Done(Some((d, base))) => match mpf_segment(d) {
                Ok(_) => r matches Ok(Some(info)) && mpf_info_of(info, d, base),
                Err(m) => r matches Err(e) && e.is_invalid(m),
            },
            MpfScan::Broken => r matches Err(e) && e.is_invalid("Broken JPEG file"),
            MpfScan::NotJpeg => r matches Err(e) && e.is_invalid("Not a JPEG file"),
            MpfScan::UnexpectedSoi => r matches Err(e) && e.is_invalid("Unexpected SOI"),
            MpfScan::BadLength => r matches Err(e) && e.is_invalid("Invalid segment length"),
        },
{
    let ghost s = data@;
    if data.len() < 2 {
        return Err(Error::InvalidFormat("Broken JPEG file"));
    }
    let sig: [u8; 2] = [MARKER_P, MARKER_SOI];
    assert(sig@ =~= jpeg_sig());
    if !matches_at(data, 0, &sig) {
        return Err(Error::InvalidFormat("Not a JPEG file"));
    }
    let mpf_sig: [u8; 4] = [0x4d, 0x50, 0x46, 0x00];
    assert(mpf_sig@ =~= mpf_id());
    let mut pos: usize = 2;
    let mut in_code = false;
    let mut mark: usize = 2;
    let mut found: Option<(Vec<u8>, u64)> = None;
    let ghost mut gfound: Option<(Seq<u8>, int)> = None;
    loop
        invariant
            s == data@,
            s.len() <= isize::MAX,
            2 <= pos <= s.len(),
            mark <= pos,
            mpf_sig@ == mpf_id(),
            mpf_readable(s),
            scan_mpf(s, pos as int, in_code, mark as int, gfound) == jpeg_mpf(s),
            match found {
                Some((d, p)) => gfound == Some((d@, p as int)) && p <= s.len() + 8 && d@.len() <= s.len(),
                None => gfound is None,
            },
        decreases s.len() - pos,
    {
        if pos >= data.len() {
            return Err(Error::InvalidFormat("Broken JPEG file"));
        }
        let c = data[pos];
        if !in_code {
            in_code = c == MARKER_P;
            pos = pos + 1;
            continue;
        }
        let n = pos + 1;
        if c == MARKER_P {
            pos = n;
            continue;
        }
        if c == MARKER_Z || c == MARKER_TEM || (MARKER_RST0 <= c && c <= MARKER_RST7) {
            in_code = false;
            pos = n;
            mark = n;
            continue;
        }
        if c == MARKER_SOI {
            return Err(Error::InvalidFormat("Unexpected SOI"));
        }
        if c == MARKER_EOI {
            return match found {
                None => Ok(None),
                Some((d, p)) => parse_mpf_segment(d.as_slice(), p),
            };
        }
        if data.len() - n < 2 {
            return Err(Error::InvalidFormat("Broken JPEG file"));
        }
        let len = load_u16(data, n, false) as usize;
        if len < 2 {
            return Err(Error::InvalidFormat("Invalid segment length"));
        }
        let start = n + 2;
        if data.len() - start < len - 2 {
            return Err(Error::InvalidFormat("Broken JPEG file"));
        }
        let end = start + (len - 2);
        proof {
            let seg = s.subrange(start as int, end as int);
            assert(seg.len() >= 4 ==> seg.subrange(0, 4) =~= s.subrange(start as int, start + 4));
        }
        if c == MARKER_APP2 && len - 2 >= 4 && matches_at(data, start, &mpf_sig) {
            let d = copy_range(data, start + 4, end);
            proof {
                let seg = s.subrange(start as int, end as int);
                assert(d@ =~= seg.subrange(4, seg.len() as int));
                gfound = Some((d@, mark + 8));
            }
            found = Some((d, mark as u64 + 8));
        }
        in_code = false;
        pos = end;
        mark = end;
    }
}

} // verus!
