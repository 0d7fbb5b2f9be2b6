use vstd::prelude::*;
use crate::bytes::{spec_u16, spec_u32, load_u16, load_u32, spec_starts_with, starts_with, matches_at, copy_range};
use crate::error::Error;

verus! {

/// `\0MRM`, the file magic.
pub open spec fn mrw_magic() -> Seq<u8> { seq![0x00u8, 0x4d, 0x52, 0x4d] }
/// `\0TTW`, the block holding the TIFF.
pub open spec fn ttw_name() -> Seq<u8> { seq![0x00u8, 0x54, 0x54, 0x57] }
/// `\0PRD`, the block holding the sensor and output geometry.
pub open spec fn prd_name() -> Seq<u8> { seq![0x00u8, 0x50, 0x52, 0x44] }

/// Where `PRD` states its four sizes.
pub const PRD_SIZES_AT: usize = 8;
/// A header longer than this is not a header.
pub const MAX_HEADER: u32 = 0x80_0000;
/// The magic and the header length.
pub const PREAMBLE: usize = 8;

/// Whether `buf` starts with the MRW magic.
pub fn is_mrw(buf: &[u8]) -> (r: bool)
    ensures
        r == spec_starts_with(buf@, mrw_magic()),
{
    let magic: [u8; 4] = [0x00, 0x4d, 0x52, 0x4d];
    assert(magic@ =~= mrw_magic());
    starts_with(buf, &magic)
}

/// The size the body outputs, from the `PRD` block.
#[derive(Debug, Clone, Copy, PartialEq, Eq, Structural)]
pub struct MrwRawImage {
    pub width: u32,
    pub height: u32,
}

/// The TIFF of an MRW and where it is.
pub struct MrwContents {
    pub exif: Vec<u8>,
    /// Offset of the TIFF within the file.
    pub tiff_offset: u64,
    /// What `PRD` says the picture is, when the block is present.
    pub raw_image: Option<MrwRawImage>,
}

/// How reading an MRW fails.
pub ghost enum MrwErr {
    Invalid(&'static str),
    NotFound,
}

/// The output size a `PRD` block at `body` of `len` bytes states, if
/// readable and non-zero; `raw` otherwise.
pub open spec fn prd_size(s: Seq<u8>, body: int, len: int, raw: Option<MrwRawImage>) -> Option<MrwRawImage> {
    if len >= 16 && body + 16 <= s.len() {
        let h = spec_u16(s, body + 12, false);
        let w = spec_u16(s, body + 14, false);
        if w > 0 && h > 0 { Some(MrwRawImage { width: w as u32, height: h as u32 }) } else { raw }
    } else {
        raw
    }
}

/// The TIFF, its offset and the raw image size the blocks from `at` to
/// `end` state, `raw` being what earlier blocks said.
pub open spec fn mrw_blocks(s: Seq<u8>, at: int, end: int, raw: Option<MrwRawImage>)
    -> Result<(Seq<u8>, int, Option<MrwRawImage>), MrwErr>
    decreases end - at,
{
    if at < 0 || at + 8 > end || at + 8 > s.len() {
        Err(MrwErr::NotFound)
    } else {
        let len = spec_u32(s, at + 4, false);
        let body = at + 8;
        let name = s.subrange(at, at + 4);
        if name == ttw_name() {
            if len == 0 || len > MAX_HEADER {
                Err(MrwErr::Invalid("Implausible MRW TTW length"))
            } else if body + len > s.len() {
                Err(MrwErr::Invalid("Truncated MRW TTW block"))
            } else {
                Ok((s.subrange(body, body + len), body, raw))
            }
        } else {
            let raw2 = if name == prd_name() { prd_size(s, body, len, raw) } else { raw };
            if body + len + 8 > end {
                Err(MrwErr::NotFound)
            } else {
                mrw_blocks(s, body + len, end, raw2)
            }
        }
    }
}

/// What an MRW file `s` holds: its TIFF, where it is, and the raw size.
pub open spec fn mrw_spec(s: Seq<u8>) -> Result<(Seq<u8>, int, Option<MrwRawImage>), MrwErr> {
    if s.len() < PREAMBLE {
        Err(MrwErr::Invalid("Truncated MRW header"))
    } else if !spec_starts_with(s, mrw_magic()) {
        Err(MrwErr::Invalid("Not an MRW file"))
    } else {
        let header_len = spec_u32(s, 4, false);
        if header_len == 0 || header_len > MAX_HEADER {
            Err(MrwErr::Invalid("Implausible MRW header length"))
        } else {
            mrw_blocks(s, PREAMBLE as int, header_len + PREAMBLE, None)
        }
    }
}

/// Reads the block list of an MRW file and returns the `TTW` block's TIFF.
pub fn get_exif_attr(data: &[u8]) -> (r: Result<MrwContents, Error>)
    ensures
        match mrw_spec(data@) {
            Ok((x, o, raw)) => r matches Ok(c) && c.exif@ == x && c.tiff_offset == o && c.raw_image == raw,
            Err(MrwErr::Invalid(m)) => r matches Err(e) && e.is_invalid(m),
            Err(MrwErr::NotFound) => r matches Err(e) && e.is_not_found("MRW"),
        },
{
    if data.len() < PREAMBLE {
        return Err(Error::InvalidFormat("Truncated MRW header"));
    }
    if !is_mrw(data) {
        return Err(Error::InvalidFormat("Not an MRW file"));
    }
    let header_len = load_u32(data, 4, false);
    if header_len == 0 || header_len > MAX_HEADER {
        return Err(Error::InvalidFormat("Implausible MRW header length"));
    }
    let ttw: [u8; 4] = [0x00, 0x54, 0x54, 0x57];
    let prd: [u8; 4] = [0x00, 0x50, 0x52, 0x44];
    assert(ttw@ =~= ttw_name());
    assert(prd@ =~= prd_name());
    let end: u64 = header_len as u64 + PREAMBLE as u64;
    let mut at: u64 = PREAMBLE as u64;
    let mut raw_image: Option<MrwRawImage> = None;
    while at + 8 <= end
        invariant
            end <= MAX_HEADER + PREAMBLE,
            at <= end + 0xffff_ffff + 8,
            ttw@ == ttw_name(),
            prd@ == prd_name(),
            mrw_blocks(data@, at as int, end as int, raw_image) == mrw_spec(data@),
        decreases end + 0x1_0000_0008 - at,
    {
        if at + 8 > data.len() as u64 {
            return Err(Error::NotFound("MRW"));
        }
        let a = at as usize;
        let len = load_u32(data, a + 4, false);
        let body = a + 8;
        if matches_at(data, a, &ttw) {
            if len == 0 || len > MAX_HEADER {
                return Err(Error::InvalidFormat("Implausible MRW TTW length"));
            }
            if data.len() - body < len as usize {
                return Err(Error::InvalidFormat("Truncated MRW TTW block"));
            }
            let exif = copy_range(data, body, body + len as usize);
            return Ok(MrwContents { exif, tiff_offset: body as u64, raw_image });
        }
        if matches_at(data, a, &prd) && len >= 16 && data.len() - body >= 16 {
            let h = load_u16(data, body + 12, false) as u32;
            let w = load_u16(data, body + 14, false) as u32;
            if w > 0 && h > 0 {
                raw_image = Some(MrwRawImage { width: w, height: h });
            }
        }
        at = body as u64 + len as u64;
    }
    Err(Error::NotFound("MRW"))
}

} // verus!
