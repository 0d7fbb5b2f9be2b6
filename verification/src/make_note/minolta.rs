use vstd::prelude::*;
use crate::bytes::{spec_u16, load_u16};

verus! {

/// Whether the TIFF type read in one byte order is a TIFF type (1 to 13).
pub open spec fn is_tiff_type(t: int) -> bool {
    1 <= t <= 13
}

/// The byte order of a Minolta MakerNote's bare IFD, `true` for little
/// endian: the first entry's type is a TIFF type (1 to 13) in one order
/// and that times 256 in the other, so it decides. Big endian is tried
/// first; where neither reading is a type, or the block is too short,
/// little endian.
pub open spec fn minolta_little_endian(data: Seq<u8>) -> bool {
    if data.len() < 6 {
        true
    } else if is_tiff_type(spec_u16(data, 4, false)) {
        false
    } else {
        true
    }
}

/// Detects the byte order of a Minolta MakerNote's bare IFD from its first
/// entry's type: `true` for little endian.
pub fn detect_minolta_byte_order(data: &[u8]) -> (r: bool)
    ensures
        r == minolta_little_endian(data@),
{
    // `[count:u16][tag:u16][type:u16][count:u32][value:u32]`
    if data.len() < 6 {
        return true;
    }
    let be = load_u16(data, 4, false);
    if 1 <= be && be <= 13 {
        return false;
    }
    // Where the little-endian reading is a type, and where neither is, the
    // answer is the same.
    true
}

} // verus!
