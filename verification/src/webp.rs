//! The Exif of a WebP file: the payload of its `EXIF` chunk.

use vstd::prelude::*;
use crate::bytes::{spec_u32, load_u32, matches_at, copy_range};
use crate::error::Error;

verus! {

/// `RIFF`, the container a WebP file is.
pub const RIFF_SIG: [u8; 4] = [0x52, 0x49, 0x46, 0x46];

/// `WEBP`, the form type of a WebP file.
pub const WEBP_SIG: [u8; 4] = [0x57, 0x45, 0x42, 0x50];

/// `EXIF`, the identifier of the chunk that holds the Exif data.
pub const EXIF_ID: [u8; 4] = [0x45, 0x58, 0x49, 0x46];

/// Why no Exif data was found in a WebP file.
pub ghost enum WebpErr {
    Invalid(&'static str),
    NotFound,
}

/// Whether `s` starts as a WebP file does: `RIFF`, a size, `WEBP`.
pub open spec fn webp_sig(s: Seq<u8>) -> bool {
    s.len() >= 12 && s.subrange(0, 4) == RIFF_SIG@ && s.subrange(8, 12) == WEBP_SIG@
}

/// What the chunks of a WebP file `s` from `pos` up to `end` (where the
/// RIFF size stops it) lead to: the payload of the first `EXIF` chunk;
/// none found where no whole chunk header is left; a truncated or broken
/// file where a chunk runs past the end. A chunk of odd size is followed
/// by a padding byte.
pub open spec fn webp_chunks(s: Seq<u8>, pos: int, end: int) -> Result<Seq<u8>, WebpErr>
    decreases end - pos,
{
    if pos < 0 || end > s.len() || pos + 8 > end {
        Err(WebpErr::NotFound)
    } else {
        let size = spec_u32(s, pos + 4, true);
        if s.subrange(pos, pos + 4) == EXIF_ID@ {
            if pos + 8 + size > end {
                Err(WebpErr::Invalid("Truncated chunk"))
            } else {
                Ok(s.subrange(pos + 8, pos + 8 + size))
            }
        } else if size + size % 2 > usize::MAX {
            Err(WebpErr::Invalid("Invalid chunk size"))
        } else if pos + 8 + size + size % 2 > end {
            Err(WebpErr::Invalid("Broken WebP file"))
        } else {
            webp_chunks(s, pos + 8 + size + size % 2, end)
        }
    }
}

/// Where the chunks of a WebP file end: the RIFF size, less the four bytes
/// of the form type, counted from byte 12, or the end of the file.
pub open spec fn webp_end(s: Seq<u8>) -> int {
    let limit = 12 + spec_u32(s, 4, true) - 4;
    if limit < s.len() { limit } else { s.len() as int }
}

/// What the WebP file `s` holds: the payload of its `EXIF` chunk, or why
/// there is none.
pub open spec fn webp_exif(s: Seq<u8>) -> Result<Seq<u8>, WebpErr> {
    if s.len() < 12 {
        Err(WebpErr::Invalid("Broken WebP file"))
    } else if !webp_sig(s) {
        Err(WebpErr::Invalid("Not a WebP file"))
    } else if spec_u32(s, 4, true) < 4 {
        Err(WebpErr::Invalid("Invalid header file size"))
    } else {
        webp_chunks(s, 12, webp_end(s))
    }
}

/// Tests whether `buf` starts as a WebP file does.
pub fn is_webp(buf: &[u8]) -> (r: bool)
    ensures
        r == webp_sig(buf@),
{
    buf.len() >= 12 && matches_at(buf, 0, &RIFF_SIG) && matches_at(buf, 8, &WEBP_SIG)
}

/// Gets the Exif data of a WebP file: the payload of its `EXIF` chunk.
pub fn get_exif_attr(data: &[u8]) -> (r: Result<Vec<u8>, Error>)
    ensures
        match webp_exif(data@) {
            Ok(x) => r matches Ok(v) && v@ == x,
            Err(WebpErr::Invalid(m)) => r matches Err(e) && e.is_invalid(m),
            Err(WebpErr::NotFound) => r matches Err(e) && e.is_not_found("WebP"),
        },
{
    let ghost s = data@;
    if data.len() < 12 {
        return Err(Error::InvalidFormat("Broken WebP file"));
    }
    if !is_webp(data) {
        return Err(Error::InvalidFormat("Not a WebP file"));
    }
    let file_size = load_u32(data, 4, true) as usize;
    if file_size < 4 {
        return Err(Error::InvalidFormat("Invalid header file size"));
    }
    let end: usize = if file_size - 4 < data.len() - 12 { 12 + (file_size - 4) } else { data.len() };
    assert(end == webp_end(s));
    let mut pos: usize = 12;
    loop
        invariant
            s == data@,
            12 <= pos,
            end <= s.len(),
            end == webp_end(s),
            webp_chunks(s, pos as int, end as int) == webp_exif(s),
        decreases end - pos,
    {
        if pos > end || end - pos < 8 {
            return Err(Error::NotFound("WebP"));
        }
        let size = load_u32(data, pos + 4, true) as usize;
        if matches_at(data, pos, &EXIF_ID) {
            if end - (pos + 8) < size {
                return Err(Error::InvalidFormat("Truncated chunk"));
            }
            return Ok(copy_range(data, pos + 8, pos + 8 + size));
        }
        let padded = match size.checked_add(size % 2) {
            Some(n) => n,
            None => return Err(Error::InvalidFormat("Invalid chunk size")),
        };
        if end - (pos + 8) < padded {
            return Err(Error::InvalidFormat("Broken WebP file"));
        }
        pos = pos + 8 + padded;
    }
}

} // verus!
