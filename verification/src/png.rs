//! The Exif of a PNG file: the data of its `eXIf` chunk.

use vstd::prelude::*;
use crate::bytes::{spec_u32, spec_starts_with, load_u32, matches_at, starts_with, copy_range};
use crate::error::Error;

verus! {

/// The PNG signature.
pub const PNG_SIG: [u8; 8] = [0x89, 0x50, 0x4e, 0x47, 0x0d, 0x0a, 0x1a, 0x0a];

/// The type of the chunk that holds the Exif data, `eXIf`.
pub const EXIF_CHUNK_TYPE: [u8; 4] = [0x65, 0x58, 0x49, 0x66];

/// Why no Exif data was found in a PNG file.
pub ghost enum PngErr {
    Invalid(&'static str),
    NotFound,
}

/// What the chunks of the PNG file `s` from `pos` on lead to: the data of
/// the first `eXIf` chunk; none found where the file ends at a chunk
/// boundary; a broken file where it ends inside a chunk.
pub open spec fn png_chunks(s: Seq<u8>, pos: int) -> Result<Seq<u8>, PngErr>
    decreases s.len() - pos,
{
    if pos < 0 || pos >= s.len() {
        Err(PngErr::NotFound)
    } else if pos + 8 > s.len() {
        Err(PngErr::Invalid("Broken PNG file"))
    } else {
        let len = spec_u32(s, pos, false);
        if s.subrange(pos + 4, pos + 8) == EXIF_CHUNK_TYPE@ {
            if pos + 8 + len > s.len() {
                Err(PngErr::Invalid("Broken PNG file"))
            } else {
                Ok(s.subrange(pos + 8, pos + 8 + len))
            }
        } else if len + 4 > usize::MAX {
            Err(PngErr::Invalid("Invalid chunk length"))
        } else if pos + 8 + len + 4 > s.len() {
            Err(PngErr::Invalid("Broken PNG file"))
        } else {
            png_chunks(s, pos + 8 + len + 4)
        }
    }
}

/// What the PNG file `s` holds: the data of its `eXIf` chunk, or why
/// there is none.
pub open spec fn png_exif(s: Seq<u8>) -> Result<Seq<u8>, PngErr> {
    if s.len() < 8 {
        Err(PngErr::Invalid("Broken PNG file"))
    } else if !spec_starts_with(s, PNG_SIG@) {
        Err(PngErr::Invalid("Not a PNG file"))
    } else {
        png_chunks(s, 8)
    }
}

/// Tests whether `buf` starts with the PNG signature.
pub fn is_png(buf: &[u8]) -> (r: bool)
    ensures
        r == spec_starts_with(buf@, PNG_SIG@),
{
    starts_with(buf, &PNG_SIG)
}

/// Gets the Exif data of a PNG file: the data of its `eXIf` chunk.
pub fn get_exif_attr(data: &[u8]) -> (r: Result<Vec<u8>, Error>)
    ensures
        match png_exif(data@) {
            Ok(x) => r matches Ok(v) && v@ == x,
            Err(PngErr::Invalid(m)) => r matches Err(e) && e.is_invalid(m),
            Err(PngErr::NotFound) => r matches Err(e) && e.is_not_found("PNG"),
        },
{
    let ghost s = data@;
    if data.len() < 8 {
        return Err(Error::InvalidFormat("Broken PNG file"));
    }
    if !is_png(data) {
        return Err(Error::InvalidFormat("Not a PNG file"));
    }
    let mut pos: usize = 8;
    loop
        invariant
            s == data@,
            8 <= pos <= s.len(),
            png_chunks(s, pos as int) == png_exif(s),
        decreases s.len() - pos,
    {
        if pos == data.len() {
            return Err(Error::NotFound("PNG"));
        }
        if data.len() - pos < 8 {
            return Err(Error::InvalidFormat("Broken PNG file"));
        }
        let len = load_u32(data, pos, false) as usize;
        if matches_at(data, pos + 4, &EXIF_CHUNK_TYPE) {
            if data.len() - (pos + 8) < len {
                return Err(Error::InvalidFormat("Broken PNG file"));
            }
            return Ok(copy_range(data, pos + 8, pos + 8 + len));
        }
        let skip = match len.checked_add(4) {
            Some(n) => n,
            None => return Err(Error::InvalidFormat("Invalid chunk length")),
        };
        if data.len() - (pos + 8) < skip {
            return Err(Error::InvalidFormat("Broken PNG file"));
        }
        pos = pos + 8 + skip;
    }
}

} // verus!
