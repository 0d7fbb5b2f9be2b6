use vstd::prelude::*;
use crate::bytes::{spec_u16, spec_u32, load_u16, load_u32, spec_starts_with, starts_with, copy_range};
use crate::error::Error;
use crate::jpeg::{get_exif_attr, jpeg_exif, JpegScan};

verus! {

/// `FUJIFILMCCD-RAW ` — the trailing space is part of it.
pub open spec fn raf_magic() -> Seq<u8> {
    seq![0x46u8, 0x55, 0x4a, 0x49, 0x46, 0x49, 0x4c, 0x4d, 0x43, 0x43, 0x44, 0x2d, 0x52, 0x41, 0x57, 0x20]
}

/// Where the embedded JPEG's offset and length sit, as two big-endian u32s.
pub const JPEG_PTR_AT: usize = 84;
/// Where the CFA header's offset and length sit.
pub const CFA_PTR_AT: usize = 92;
/// `RawImageCroppedSize` in the CFA header directory, height first.
pub const RAF_CROPPED_SIZE: u16 = 0x0111;
/// A CFA header larger than this is not a header.
pub const MAX_CFA_HEADER: u32 = 0x10_0000;
/// The header bytes needed to reach both pointer pairs.
pub const HEADER_LEN: usize = 100;
/// A JPEG larger than this is not a preview.
pub const MAX_EMBEDDED_JPEG: u32 = 0x400_0000;
/// How many records of the CFA header directory are looked at.
pub const MAX_CFA_RECORDS: u32 = 256;

/// Whether `buf` starts with the RAF magic.
pub fn is_raf(buf: &[u8]) -> (r: bool)
    ensures
        r == spec_starts_with(buf@, raf_magic()),
{
    let magic: [u8; 16] = [0x46, 0x55, 0x4a, 0x49, 0x46, 0x49, 0x4c, 0x4d, 0x43, 0x43, 0x44, 0x2d, 0x52, 0x41, 0x57, 0x20];
    assert(magic@ =~= raf_magic());
    starts_with(buf, &magic)
}

/// What a RAF states about its raw image: the size the body outputs.
#[derive(Debug, Clone, Copy, PartialEq, Eq, Structural)]
pub struct RafRawImage {
    pub width: u32,
    pub height: u32,
}

/// The cropped size the records of a CFA header directory `b` state, from
/// the `k`-th record on at `p`; the first `RawImageCroppedSize` record of
/// at least 4 bytes decides (height first, both non-zero), and a record that
/// runs past the block ends the search.
pub open spec fn cfa_records(b: Seq<u8>, p: int, k: int, n: int) -> Option<RafRawImage>
    decreases n - k,
{
    if k >= n || p + 4 > b.len() || p < 0 {
        None
    } else {
        let tag = spec_u16(b, p, false);
        let size = spec_u16(b, p + 2, false);
        if p + 4 + size > b.len() {
            None
        } else if tag == RAF_CROPPED_SIZE && size >= 4 {
            let h = spec_u16(b, p + 4, false);
            let w = spec_u16(b, p + 6, false);
            if w > 0 && h > 0 { Some(RafRawImage { width: w as u32, height: h as u32 }) } else { None }
        } else {
            cfa_records(b, p + 4 + size, k + 1, n)
        }
    }
}

/// The cropped size a CFA header of `len` bytes, at the start of `s`,
/// states; `None` for an absent or implausible header.
pub open spec fn raw_image_spec(len: u32, s: Seq<u8>) -> Option<RafRawImage> {
    if len == 0 || len > MAX_CFA_HEADER || len > s.len() {
        None
    } else {
        let b = s.subrange(0, len as int);
        if b.len() < 4 {
            None
        } else {
            let count = spec_u32(b, 0, false);
            cfa_records(b, 4, 0, if count < MAX_CFA_RECORDS { count } else { MAX_CFA_RECORDS as int })
        }
    }
}

/// Reads the CFA header directory, the first `len` bytes of `whole`, for
/// the raw image's cropped size.
pub fn raw_image_from(len: u32, whole: &[u8]) -> (r: Option<RafRawImage>)
    ensures
        r == raw_image_spec(len, whole@),
{
    if len == 0 || len > MAX_CFA_HEADER || len as usize > whole.len() {
        return None;
    }
    let block = &whole[0..len as usize];
    if block.len() < 4 {
        return None;
    }
    let count = load_u32(block, 0, false);
    let n = if count < MAX_CFA_RECORDS { count } else { MAX_CFA_RECORDS };
    let mut p: usize = 4;
    let mut k: u32 = 0;
    while k < n
        invariant
            block@ == whole@.subrange(0, len as int),
            block@.len() <= MAX_CFA_HEADER,
            k <= n,
            n <= MAX_CFA_RECORDS,
            p <= block@.len() + 4,
            cfa_records(block@, p as int, k as int, n as int) == raw_image_spec(len, whole@),
        decreases n - k,
    {
        if p > block.len() || block.len() - p < 4 {
            return None;
        }
        let tag = load_u16(block, p, false);
        let size = load_u16(block, p + 2, false) as usize;
        if block.len() - (p + 4) < size {
            return None;
        }
        if tag == RAF_CROPPED_SIZE && size >= 4 {
            let h = load_u16(block, p + 4, false) as u32;
            let w = load_u16(block, p + 6, false) as u32;
            return if w > 0 && h > 0 { Some(RafRawImage { width: w, height: h }) } else { None };
        }
        p = p + 4 + size;
        k = k + 1;
    }
    None
}

/// A RAF as far as Exif is concerned: the Exif of its embedded JPEG, where
/// that JPEG is, and what the RAF states about the raw image.
#[derive(Debug)]
pub struct RafContents {
    pub exif: Vec<u8>,
    /// File offset of the embedded JPEG.
    pub jpeg_offset: u64,
    /// Its length.
    pub jpeg_length: u32,
    pub raw_image: Option<RafRawImage>,
}

/// The embedded JPEG's offset and length a RAF header states.
pub open spec fn raf_jpeg(s: Seq<u8>) -> (int, int) {
    (spec_u32(s, JPEG_PTR_AT as int, false), spec_u32(s, JPEG_PTR_AT + 4, false))
}

/// The raw image a RAF file `s` states through its CFA header pointer.
pub open spec fn raf_raw_image(s: Seq<u8>) -> Option<RafRawImage> {
    let cfa_offset = spec_u32(s, CFA_PTR_AT as int, false);
    let cfa_len = spec_u32(s, CFA_PTR_AT + 4, false) as u32;
    if cfa_offset > 0 {
        raw_image_spec(cfa_len, if cfa_offset <= s.len() { s.subrange(cfa_offset, s.len() as int) } else { Seq::empty() })
    } else {
        None
    }
}

/// Reads the Exif of a RAF's embedded JPEG, where that JPEG is, and what
/// the RAF states about its raw image.
pub fn get_exif_and_raw_image(data: &[u8]) -> (r: Result<RafContents, Error>)
    ensures
        data@.len() < HEADER_LEN ==> (r matches Err(e) && e.is_invalid("Truncated RAF header")),
        data@.len() >= HEADER_LEN && !spec_starts_with(data@, raf_magic())
            ==> (r matches Err(e) && e.is_invalid("Not a RAF file")),
        data@.len() >= HEADER_LEN && spec_starts_with(data@, raf_magic()) ==> {
            let (offset, length) = raf_jpeg(data@);
            if length == 0 {
                r matches Err(e) && e.is_not_found("RAF")
            } else if length > MAX_EMBEDDED_JPEG {
                r matches Err(e) && e.is_invalid("Embedded JPEG too large")
            } else if offset + length > data@.len() {
                r matches Err(e) && e.is_invalid("Truncated RAF embedded JPEG")
            } else {
                match jpeg_exif(data@.subrange(offset, offset + length)) {
                    JpegScan::Exif(x) => r matches Ok(c) && c.exif@ == x && c.jpeg_offset == offset
                        && c.jpeg_length == length && c.raw_image == raf_raw_image(data@),
                    other => crate::jpeg::jpeg_scan_error(other, r),
                }
            }
        },
{
    if data.len() < HEADER_LEN {
        return Err(Error::InvalidFormat("Truncated RAF header"));
    }
    if !is_raf(data) {
        return Err(Error::InvalidFormat("Not a RAF file"));
    }
    let offset = load_u32(data, JPEG_PTR_AT, false);
    let length = load_u32(data, JPEG_PTR_AT + 4, false);
    if length == 0 {
        return Err(Error::NotFound("RAF"));
    }
    if length > MAX_EMBEDDED_JPEG {
        return Err(Error::InvalidFormat("Embedded JPEG too large"));
    }
    let cfa_offset = load_u32(data, CFA_PTR_AT, false);
    let cfa_len = load_u32(data, CFA_PTR_AT + 4, false);
    let raw_image = if cfa_offset > 0 {
        if cfa_offset as usize <= data.len() {
            raw_image_from(cfa_len, &data[cfa_offset as usize..data.len()])
        } else {
            raw_image_from(cfa_len, &data[0..0])
        }
    } else {
        None
    };
    if offset as usize > data.len() || data.len() - (offset as usize) < length as usize {
        return Err(Error::InvalidFormat("Truncated RAF embedded JPEG"));
    }
    let jpeg = &data[offset as usize..offset as usize + length as usize];
    let exif = get_exif_attr(jpeg)?;
    Ok(RafContents { exif, jpeg_offset: offset as u64, jpeg_length: length, raw_image })
}

} // verus!
