use vstd::prelude::*;
use crate::bytes::{spec_starts_with, spec_u16, load_u16, starts_with};
use crate::make_note::{RICOH_SIG};
use crate::tiff::TIFF_LE;

verus! {

/// `AOC\0`, the header of a Pentax MakerNote.
pub const AOC_SIG: [u8; 4] = [0x41, 0x4f, 0x43, 0x00];

/// The byte order a Pentax or Ricoh MakerNote states, `true` for little
/// endian: the mark after `AOC\0` (at 4) or `RICOH\0` (at 6) is `II`.
/// Where neither header fits, little endian.
pub open spec fn pentax_little_endian(data: Seq<u8>) -> bool {
    if data.len() >= 6 && spec_starts_with(data, AOC_SIG@) {
        spec_u16(data, 4, false) == TIFF_LE
    } else if data.len() >= 8 && spec_starts_with(data, RICOH_SIG@) {
        spec_u16(data, 6, false) == TIFF_LE
    } else {
        true
    }
}

/// Detects the byte order of a Pentax (`AOC\0`) or Ricoh (`RICOH\0`)
/// MakerNote header: `true` for little endian.
pub fn detect_pentax_byte_order(data: &[u8]) -> (r: bool)
    ensures
        r == pentax_little_endian(data@),
{
    if data.len() >= 6 && starts_with(data, &AOC_SIG) {
        return load_u16(data, 4, false) == TIFF_LE;
    }
    if data.len() >= 8 && starts_with(data, &RICOH_SIG) {
        return load_u16(data, 6, false) == TIFF_LE;
    }
    true
}

} // verus!
