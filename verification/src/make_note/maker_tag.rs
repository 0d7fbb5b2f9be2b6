use vstd::prelude::*;
use crate::bytes::{spec_starts_with, starts_with};
use crate::tiff::In;
use crate::value::{Value, ValueView, debug_text, debug_text_of, strings_view};
use vstd::slice::slice_subrange;
use vstd::string::StringExecFns;
use crate::util::{utf8_string, bytes_to_string};
use vstd::utf8::{valid_utf8, decode_utf8};
use vstd::string::StringSliceAdditionalSpecFns;
use crate::make_note::panasonic::{
    PANASONIC_TAGS, PanasonicImageStabilization, PanasonicMacroMode, PanasonicShootingMode,
    PanasonicColorEffect, PanasonicBurstMode, PanasonicSelfTimer, PanasonicBatteryLevel,
    PanasonicFilmMode, PanasonicJPEGQuality, PanasonicIntelligentResolution,
    PanasonicIntelligentDRange, PanasonicPhotoStyle, PanasonicSweepPanoramaDirection,
    PanasonicAFSubjectDetection, PanasonicFaceDetInfo, panasonic_face_record, face_det_text,
};
use crate::make_note::sony::{SonyFaceInfo, sony_face_record, sony_face_info_text, SonyTag9416, sony_9416_record,
    no_sony_9416,
    sony_9416_text, lemma_sony_9416_unique};
use crate::util::ascii_chars;
use crate::make_note::sony::SONY_TAGS;
use crate::make_note::samsung::SAMSUNG_TAGS;
use crate::make_note::apple::APPLE_TAGS;
use crate::make_note::olympus::{
    OLYMPUS_TAGS, OLYMPUS_EQUIPMENT_TAGS, OLYMPUS_CAMERA_SETTINGS_TAGS,
    OLYMPUS_RAW_DEVELOPMENT_TAGS, OLYMPUS_IMAGE_PROCESSING_TAGS, OLYMPUS_FOCUS_INFO_TAGS,
    OLYMPUS_RAW_INFO_TAGS,
};

verus! {

/// `Panasonic`
pub const PANASONIC_SIG: [u8; 9] = [0x50, 0x61, 0x6e, 0x61, 0x73, 0x6f, 0x6e, 0x69, 0x63];

/// `Nikon\0`
pub const NIKON_SIG: [u8; 6] = [0x4e, 0x69, 0x6b, 0x6f, 0x6e, 0x00];

/// `SONY`
pub const SONY_SIG: [u8; 4] = [0x53, 0x4f, 0x4e, 0x59];

/// `OLYMPUS`
pub const OLYMPUS_SIG: [u8; 7] = [0x4f, 0x4c, 0x59, 0x4d, 0x50, 0x55, 0x53];

/// `OLYMP\0`
pub const OLYMP_SIG: [u8; 6] = [0x4f, 0x4c, 0x59, 0x4d, 0x50, 0x00];

/// `OM SYSTEM`
pub const OM_SYSTEM_SIG: [u8; 9] = [0x4f, 0x4d, 0x20, 0x53, 0x59, 0x53, 0x54, 0x45, 0x4d];

/// `FUJIFILM`
pub const FUJIFILM_SIG: [u8; 8] = [0x46, 0x55, 0x4a, 0x49, 0x46, 0x49, 0x4c, 0x4d];

/// `LEICA\0`
pub const LEICA_SIG: [u8; 6] = [0x4c, 0x45, 0x49, 0x43, 0x41, 0x00];

/// `Apple iOS`
pub const APPLE_SIG: [u8; 9] = [0x41, 0x70, 0x70, 0x6c, 0x65, 0x20, 0x69, 0x4f, 0x53];

/// `Canon`
pub const CANON_MAKE: [u8; 5] = [0x43, 0x61, 0x6e, 0x6f, 0x6e];

/// `SAMSUNG`
pub const SAMSUNG_MAKE: [u8; 7] = [0x53, 0x41, 0x4d, 0x53, 0x55, 0x4e, 0x47];

/// A row of a vendor's tag table: the tag number, its name and its
/// description.
pub type TagRow = (u16, &'static str, &'static str);

/// The first row of `t` for the tag number `n`, if any.
pub open spec fn entry_of(t: Seq<TagRow>, n: u16) -> Option<TagRow>
    decreases t.len(),
{
    if t.len() == 0 {
        None
    } else if t[0].0 == n {
        Some(t[0])
    } else {
        entry_of(t.drop_first(), n)
    }
}

/// Looks the tag number `n` up in `table`.
pub fn lookup<const N: usize>(table: &[TagRow; N], n: u16) -> (r: Option<TagRow>)
    ensures
        r == entry_of(table@, n),
{
    let mut i: usize = 0;
    assert(table@.subrange(0, N as int) =~= table@);
    while i < N
        invariant
            i <= N,
            table@.len() == N,
            entry_of(table@, n) == entry_of(table@.subrange(i as int, N as int), n),
        decreases N - i,
    {
        let row = table[i];
        assert(table@.subrange(i as int, N as int).drop_first() =~= table@.subrange(i + 1, N as int));
        if row.0 == n {
            return Some(row);
        }
        i = i + 1;
    }
    None
}

/// Camera manufacturer, or Olympus subdirectory, whose MakerNote layout
/// and tag numbering apply.
#[derive(Debug, Clone, Copy, PartialEq, Eq, Structural, PartialOrd, Ord, Hash)]
#[non_exhaustive]
pub enum MakerNoteVendor {
    /// Panasonic / Lumix; header `Panasonic\0\0\0`.
    Panasonic,
    /// Nikon (type 3); header `Nikon\0` and a version, then a TIFF header.
    Nikon,
    /// Canon; no header, recognised by `Make`.
    Canon,
    /// Sony; header `SONY DSC \0\0\0`.
    Sony,
    /// Olympus; header `OLYMPUS\0` (or `OLYMP\0`), byte order, version.
    Olympus,
    /// OM System; header `OM SYSTEM\0\0\0`, byte order, version.
    OMSystem,
    /// Fujifilm; header `FUJIFILM` and four bytes.
    Fujifilm,
    /// Leica; header `LEICA\0` and a version.
    Leica,
    /// Samsung NX; no header, recognised by `Make`.
    Samsung,
    /// Apple; header `Apple iOS\0`, version, byte order.
    Apple,
    /// Olympus Equipment subdirectory (0x2010).
    OlympusEquipment,
    /// Olympus CameraSettings subdirectory (0x2020).
    OlympusCameraSettings,
    /// Olympus RawDevelopment subdirectory (0x2030).
    OlympusRawDevelopment,
    /// Olympus ImageProcessing subdirectory (0x2040).
    OlympusImageProcessing,
    /// Olympus FocusInfo subdirectory (0x2050).
    OlympusFocusInfo,
    /// Olympus RawInfo subdirectory (0x3000).
    OlympusRawInfo,
    /// Unknown or unsupported vendor.
    Unknown,
}

/// The bytes of `make`, if there is one.
pub open spec fn make_bytes(make: Option<&str>) -> Option<Seq<u8>> {
    match make {
        Some(m) => Some(m.spec_bytes()),
        None => None,
    }
}

/// The vendor a MakerNote's leading bytes `data` and the `Make` field
/// name: the vendor signatures first, in a fixed order, then `Make` for
/// the vendors that write no signature.
pub open spec fn vendor_of(data: Seq<u8>, make: Option<Seq<u8>>) -> MakerNoteVendor {
    if spec_starts_with(data, PANASONIC_SIG@) {
        MakerNoteVendor::Panasonic
    } else if spec_starts_with(data, NIKON_SIG@) {
        MakerNoteVendor::Nikon
    } else if spec_starts_with(data, SONY_SIG@) {
        MakerNoteVendor::Sony
    } else if spec_starts_with(data, OLYMPUS_SIG@) || spec_starts_with(data, OLYMP_SIG@) {
        MakerNoteVendor::Olympus
    } else if spec_starts_with(data, OM_SYSTEM_SIG@) {
        MakerNoteVendor::OMSystem
    } else if spec_starts_with(data, FUJIFILM_SIG@) {
        MakerNoteVendor::Fujifilm
    } else if spec_starts_with(data, LEICA_SIG@) {
        MakerNoteVendor::Leica
    } else if spec_starts_with(data, APPLE_SIG@) {
        MakerNoteVendor::Apple
    } else {
        match make {
            Some(m) => if spec_starts_with(m, CANON_MAKE@) {
                MakerNoteVendor::Canon
            } else if spec_starts_with(m, SAMSUNG_MAKE@) {
                MakerNoteVendor::Samsung
            } else {
                MakerNoteVendor::Unknown
            },
            None => MakerNoteVendor::Unknown,
        }
    }
}

/// The vendors whose header the parser skips and replaces, in offset
/// terms, by an 8-byte TIFF header.
pub open spec fn header_replaced(v: MakerNoteVendor) -> bool {
    match v {
        MakerNoteVendor::Panasonic | MakerNoteVendor::Canon | MakerNoteVendor::Sony
        | MakerNoteVendor::Olympus | MakerNoteVendor::OMSystem | MakerNoteVendor::Fujifilm
        | MakerNoteVendor::Leica | MakerNoteVendor::Samsung | MakerNoteVendor::Apple => true,
        _ => false,
    }
}

/// The size of a TIFF header, which `offset_correction` counts against
/// the vendor header it stands in for.
pub const TIFF_HEADER_LEN: i32 = 8;

impl MakerNoteVendor {
    /// The size of the vendor's proprietary header, the bytes before the
    /// IFD (or, for Nikon, before the TIFF header).
    pub open spec fn spec_header_size(self) -> nat {
        match self {
            MakerNoteVendor::Panasonic => 12,
            MakerNoteVendor::Nikon => 10,
            MakerNoteVendor::Sony => 12,
            MakerNoteVendor::Olympus => 12,
            MakerNoteVendor::OMSystem => 16,
            MakerNoteVendor::Fujifilm => 12,
            MakerNoteVendor::Leica => 8,
            MakerNoteVendor::Apple => 14,
            _ => 0,
        }
    }

    /// The number subtracted from every value offset of the vendor's IFD.
    pub open spec fn spec_offset_correction(self) -> int {
        if header_replaced(self) {
            self.spec_header_size() - TIFF_HEADER_LEN
        } else {
            0
        }
    }

    /// Whether the vendor's value offsets count from the TIFF header rather
    /// than from the MakerNote.
    pub open spec fn spec_consider_tiff_offset(self) -> bool {
        match self {
            MakerNoteVendor::Panasonic | MakerNoteVendor::Canon | MakerNoteVendor::Sony
            | MakerNoteVendor::Leica => true,
            _ => false,
        }
    }

    /// Whether what follows the vendor header is a TIFF header of its own
    /// (Nikon), or a block of unknown origin is taken to be one; the
    /// other vendors start with a bare IFD.
    pub open spec fn spec_has_tiff_header(self) -> bool {
        self == MakerNoteVendor::Nikon || self == MakerNoteVendor::Unknown
    }

    /// Detects the vendor from the MakerNote's leading bytes and the
    /// optional `Make` field.
    pub fn from_header(data: &[u8], make: Option<&str>) -> (r: MakerNoteVendor)
        ensures
            r == vendor_of(data@, make_bytes(make)),
    {
        if starts_with(data, &PANASONIC_SIG) {
            MakerNoteVendor::Panasonic
        } else if starts_with(data, &NIKON_SIG) {
            MakerNoteVendor::Nikon
        } else if starts_with(data, &SONY_SIG) {
            MakerNoteVendor::Sony
        } else if starts_with(data, &OLYMPUS_SIG) || starts_with(data, &OLYMP_SIG) {
            MakerNoteVendor::Olympus
        } else if starts_with(data, &OM_SYSTEM_SIG) {
            MakerNoteVendor::OMSystem
        } else if starts_with(data, &FUJIFILM_SIG) {
            MakerNoteVendor::Fujifilm
        } else if starts_with(data, &LEICA_SIG) {
            MakerNoteVendor::Leica
        } else if starts_with(data, &APPLE_SIG) {
            MakerNoteVendor::Apple
        } else {
            match make {
                Some(m) => {
                    let b = m.as_bytes();
                    if starts_with(b, &CANON_MAKE) {
                        MakerNoteVendor::Canon
                    } else if starts_with(b, &SAMSUNG_MAKE) {
                        MakerNoteVendor::Samsung
                    } else {
                        MakerNoteVendor::Unknown
                    }
                },
                None => MakerNoteVendor::Unknown,
            }
        }
    }

    /// Returns the size of the proprietary header, the bytes to skip.
    pub fn header_size(&self) -> (r: usize)
        ensures
            r == self.spec_header_size(),
    {
        match self {
            MakerNoteVendor::Panasonic => 12,
            MakerNoteVendor::Nikon => 10,
            MakerNoteVendor::Sony => 12,
            MakerNoteVendor::Olympus => 12,
            MakerNoteVendor::OMSystem => 16,
            MakerNoteVendor::Fujifilm => 12,
            MakerNoteVendor::Leica => 8,
            MakerNoteVendor::Apple => 14,
            _ => 0,
        }
    }

    /// Returns the number subtracted from every value offset: the header
    /// size less the 8 bytes of a TIFF header for the vendors whose header
    /// stands where one would, 0 for the others (Nikon has its own TIFF
    /// header).
    pub fn offset_correction(&self) -> (r: i32)
        ensures
            r == self.spec_offset_correction(),
    {
        let size = self.header_size() as i32;
        match self {
            MakerNoteVendor::Panasonic | MakerNoteVendor::Canon | MakerNoteVendor::Sony
            | MakerNoteVendor::Olympus | MakerNoteVendor::OMSystem | MakerNoteVendor::Fujifilm
            | MakerNoteVendor::Leica | MakerNoteVendor::Samsung | MakerNoteVendor::Apple => {
                size - TIFF_HEADER_LEN
            },
            _ => 0,
        }
    }

    /// Returns whether value offsets count from the TIFF header
    /// (Panasonic, Canon, Sony, Leica) rather than from the MakerNote.
    pub fn consider_tiff_offset(&self) -> (r: bool)
        ensures
            r == self.spec_consider_tiff_offset(),
    {
        match self {
            MakerNoteVendor::Panasonic | MakerNoteVendor::Canon | MakerNoteVendor::Sony
            | MakerNoteVendor::Leica => true,
            _ => false,
        }
    }

    /// Returns whether the data after the vendor header starts with a TIFF
    /// header, whose byte order mark the parser then reads.
    pub fn has_tiff_header(&self) -> (r: bool)
        ensures
            r == self.spec_has_tiff_header(),
    {
        match self {
            MakerNoteVendor::Nikon | MakerNoteVendor::Unknown => true,
            _ => false,
        }
    }

    /// The vendor's tag table.
    pub open spec fn tag_table(self) -> Seq<TagRow> {
        match self {
            MakerNoteVendor::Panasonic | MakerNoteVendor::Leica => PANASONIC_TAGS@,
            MakerNoteVendor::Sony => SONY_TAGS@,
            MakerNoteVendor::Olympus | MakerNoteVendor::OMSystem => OLYMPUS_TAGS@,
            MakerNoteVendor::Samsung => SAMSUNG_TAGS@,
            MakerNoteVendor::Apple => APPLE_TAGS@,
            MakerNoteVendor::OlympusEquipment => OLYMPUS_EQUIPMENT_TAGS@,
            MakerNoteVendor::OlympusCameraSettings => OLYMPUS_CAMERA_SETTINGS_TAGS@,
            MakerNoteVendor::OlympusRawDevelopment => OLYMPUS_RAW_DEVELOPMENT_TAGS@,
            MakerNoteVendor::OlympusImageProcessing => OLYMPUS_IMAGE_PROCESSING_TAGS@,
            MakerNoteVendor::OlympusFocusInfo => OLYMPUS_FOCUS_INFO_TAGS@,
            MakerNoteVendor::OlympusRawInfo => OLYMPUS_RAW_INFO_TAGS@,
            _ => Seq::empty(),
        }
    }

    /// Looks the tag number `n` up in the vendor's table.
    pub fn tag_entry(&self, n: u16) -> (r: Option<TagRow>)
        ensures
            r == entry_of(self.tag_table(), n),
    {
        match self {
            MakerNoteVendor::Panasonic | MakerNoteVendor::Leica => lookup(&PANASONIC_TAGS, n),
            MakerNoteVendor::Sony => lookup(&SONY_TAGS, n),
            MakerNoteVendor::Olympus | MakerNoteVendor::OMSystem => lookup(&OLYMPUS_TAGS, n),
            MakerNoteVendor::Samsung => lookup(&SAMSUNG_TAGS, n),
            MakerNoteVendor::Apple => lookup(&APPLE_TAGS, n),
            MakerNoteVendor::OlympusEquipment => lookup(&OLYMPUS_EQUIPMENT_TAGS, n),
            MakerNoteVendor::OlympusCameraSettings => lookup(&OLYMPUS_CAMERA_SETTINGS_TAGS, n),
            MakerNoteVendor::OlympusRawDevelopment => lookup(&OLYMPUS_RAW_DEVELOPMENT_TAGS, n),
            MakerNoteVendor::OlympusImageProcessing => lookup(&OLYMPUS_IMAGE_PROCESSING_TAGS, n),
            MakerNoteVendor::OlympusFocusInfo => lookup(&OLYMPUS_FOCUS_INFO_TAGS, n),
            MakerNoteVendor::OlympusRawInfo => lookup(&OLYMPUS_RAW_INFO_TAGS, n),
            _ => None,
        }
    }
}

/// The upper-case hexadecimal digit of `d` (below 16), as ASCII.
pub open spec fn hex_digit(d: int) -> u8 {
    if d < 10 { (48 + d) as u8 } else { (55 + d) as u8 }
}

/// `n` as `0x` and four upper-case hexadecimal digits.
pub open spec fn hex4(n: u16) -> Seq<u8> {
    seq![48u8, 120, hex_digit((n / 4096) as int), hex_digit(((n / 256) % 16) as int),
        hex_digit(((n / 16) % 16) as int), hex_digit((n % 16) as int)]
}

fn hex_byte(d: u16) -> (r: u8)
    requires
        d < 16,
    ensures
        r == hex_digit(d as int),
{
    if d < 10 { (48 + d) as u8 } else { (55 + d) as u8 }
}

impl MakerNoteVendor {
    /// The vendor's name as shown.
    pub open spec fn spec_text(self) -> &'static str {
        match self {
            MakerNoteVendor::Panasonic => "Panasonic",
            MakerNoteVendor::Nikon => "Nikon",
            MakerNoteVendor::Canon => "Canon",
            MakerNoteVendor::Sony => "Sony",
            MakerNoteVendor::Olympus => "Olympus",
            MakerNoteVendor::OMSystem => "OM System",
            MakerNoteVendor::Fujifilm => "Fujifilm",
            MakerNoteVendor::Leica => "Leica",
            MakerNoteVendor::Samsung => "Samsung",
            MakerNoteVendor::Apple => "Apple",
            MakerNoteVendor::OlympusEquipment => "OlympusEquipment",
            MakerNoteVendor::OlympusCameraSettings => "OlympusCameraSettings",
            MakerNoteVendor::OlympusRawDevelopment => "OlympusRawDevelopment",
            MakerNoteVendor::OlympusImageProcessing => "OlympusImageProcessing",
            MakerNoteVendor::OlympusFocusInfo => "OlympusFocusInfo",
            MakerNoteVendor::OlympusRawInfo => "OlympusRawInfo",
            MakerNoteVendor::Unknown => "Unknown",
        }
    }

    /// Returns the vendor's name as shown.
    pub fn to_text(&self) -> (r: &'static str)
        ensures
            r == self.spec_text(),
    {
        match self {
            MakerNoteVendor::Panasonic => "Panasonic",
            MakerNoteVendor::Nikon => "Nikon",
            MakerNoteVendor::Canon => "Canon",
            MakerNoteVendor::Sony => "Sony",
            MakerNoteVendor::Olympus => "Olympus",
            MakerNoteVendor::OMSystem => "OM System",
            MakerNoteVendor::Fujifilm => "Fujifilm",
            MakerNoteVendor::Leica => "Leica",
            MakerNoteVendor::Samsung => "Samsung",
            MakerNoteVendor::Apple => "Apple",
            MakerNoteVendor::OlympusEquipment => "OlympusEquipment",
            MakerNoteVendor::OlympusCameraSettings => "OlympusCameraSettings",
            MakerNoteVendor::OlympusRawDevelopment => "OlympusRawDevelopment",
            MakerNoteVendor::OlympusImageProcessing => "OlympusImageProcessing",
            MakerNoteVendor::OlympusFocusInfo => "OlympusFocusInfo",
            MakerNoteVendor::OlympusRawInfo => "OlympusRawInfo",
            MakerNoteVendor::Unknown => "Unknown",
        }
    }
}

/// A vendor-specific MakerNote tag: the same number means different things
/// for different vendors.
#[derive(Debug, Clone, Copy, PartialEq, Eq, Structural, PartialOrd, Ord, Hash)]
pub struct MakerTag {
    /// The camera vendor.
    pub vendor: MakerNoteVendor,
    /// The tag number, whose meaning is the vendor's.
    pub number: u16,
}

impl MakerTag {
    /// Creates a tag.
    pub fn new(vendor: MakerNoteVendor, number: u16) -> (r: MakerTag)
        ensures
            r == (MakerTag { vendor, number }),
    {
        MakerTag { vendor, number }
    }

    /// Returns the vendor.
    pub fn vendor(self) -> (r: MakerNoteVendor)
        ensures
            r == self.vendor,
    {
        self.vendor
    }

    /// Returns the tag number.
    pub fn number(self) -> (r: u16)
        ensures
            r == self.number,
    {
        self.number
    }

    /// The row of the vendor's table for this tag.
    pub open spec fn entry(self) -> Option<TagRow> {
        entry_of(self.vendor.tag_table(), self.number)
    }

    /// Returns the tag's name in the vendor's table, if it has one.
    pub fn name(&self) -> (r: Option<&'static str>)
        ensures
            r == (match self.entry() {
                Some(e) => Some(e.1),
                None => None,
            }),
    {
        match self.vendor.tag_entry(self.number) {
            Some(e) => Some(e.1),
            None => None,
        }
    }

    /// The tag as shown: the vendor and the tag's name, or the vendor and
    /// the number in hexadecimal where the vendor's table has no name.
    pub open spec fn spec_text(self) -> Seq<char> {
        self.vendor.spec_text()@ + ":"@ + match self.entry() {
            Some(e) => e.1@,
            None => ascii_chars(hex4(self.number)),
        }
    }

    /// Returns the tag as shown: `Vendor:Name`, or `Vendor:0xNNNN`.
    pub fn to_text(&self) -> (r: String)
        ensures
            r@ == self.spec_text(),
    {
        let mut out = String::from_str(self.vendor.to_text());
        out.append(":");
        match self.vendor.tag_entry(self.number) {
            Some(e) => out.append(e.1),
            None => {
                let n = self.number;
                let mut b: Vec<u8> = Vec::new();
                b.push(48);
                b.push(120);
                b.push(hex_byte(n / 4096));
                b.push(hex_byte((n / 256) % 16));
                b.push(hex_byte((n / 16) % 16));
                b.push(hex_byte(n % 16));
                assert(b@ =~= hex4(n));
                let t = bytes_to_string(b.as_slice());
                out.append(t.as_str());
            },
        }
        out
    }

    /// Returns the tag's description in the vendor's table, if it has one.
    pub fn description(&self) -> (r: Option<&'static str>)
        ensures
            r == (match self.entry() {
                Some(e) => Some(e.2),
                None => None,
            }),
    {
        match self.vendor.tag_entry(self.number) {
            Some(e) => Some(e.2),
            None => None,
        }
    }
}

/// The position of the first NUL in `b` at or after `i`, or the length.
pub open spec fn nul_end(b: Seq<u8>, i: nat) -> nat
    decreases b.len() - i,
{
    if i >= b.len() {
        b.len()
    } else if b[i as int] == 0 {
        i
    } else {
        nul_end(b, i + 1)
    }
}

/// The bytes of `b` before its first NUL.
pub open spec fn before_nul(b: Seq<u8>) -> Seq<u8> {
    b.subrange(0, nul_end(b, 0) as int)
}

/// The first non-empty string of `v`.
pub open spec fn first_non_empty(v: Seq<Seq<u8>>) -> Option<Seq<u8>>
    decreases v.len(),
{
    if v.len() == 0 {
        None
    } else if v[0].len() > 0 {
        Some(v[0])
    } else {
        first_non_empty(v.drop_first())
    }
}

/// The text of a value that holds a NUL-terminated string: the UTF-8
/// before the first NUL of BYTE and UNDEFINED bytes (or `<invalid UTF-8>`),
/// the first non-empty ASCII string (or nothing). `None` for the other
/// types, which show in their debug form.
pub open spec fn undef_text(v: ValueView) -> Option<Seq<char>> {
    match v {
        ValueView::Undefined(b, _) | ValueView::Byte(b) => Some(if valid_utf8(before_nul(b)) {
            decode_utf8(before_nul(b))
        } else {
            "<invalid UTF-8>"@
        }),
        ValueView::Ascii(a) => Some(match first_non_empty(a) {
            Some(s) => if valid_utf8(s) { decode_utf8(s) } else { ""@ },
            None => ""@,
        }),
        _ => None,
    }
}

/// Decodes `b` up to its first NUL as UTF-8, or `<invalid UTF-8>`.
fn text_before_nul(b: &Vec<u8>) -> (r: String)
    ensures
        r@ == (if valid_utf8(before_nul(b@)) { decode_utf8(before_nul(b@)) } else { "<invalid UTF-8>"@ }),
{
    let mut end: usize = 0;
    while end < b.len()
        invariant
            end <= b@.len(),
            nul_end(b@, 0) == nul_end(b@, end as nat),
        ensures
            end <= b@.len(),
            nul_end(b@, 0) == end,
        decreases b@.len() - end,
    {
        if b[end] == 0 {
            break;
        }
        end = end + 1;
    }
    let s = slice_subrange(b.as_slice(), 0, end);
    match utf8_string(s) {
        Some(t) => t,
        None => String::from_str("<invalid UTF-8>"),
    }
}

/// Shows a value that holds a NUL-terminated string as that string; a
/// value of another type in its debug form.
pub fn d_undef_as_string(value: &Value) -> (r: String)
    ensures
        r@ == match undef_text(value@) {
            Some(t) => t,
            None => debug_text_of(value@),
        },
{
    match value {
        Value::Undefined(b, _) => text_before_nul(b),
        Value::Byte(b) => text_before_nul(b),
        Value::Ascii(v) => {
            let mut i: usize = 0;
            assert(strings_view(v@).subrange(0, v@.len() as int) =~= strings_view(v@));
            while i < v.len()
                invariant
                    i <= v@.len(),
                    value@ == ValueView::Ascii(strings_view(v@)),
                    strings_view(v@).len() == v@.len(),
                    first_non_empty(strings_view(v@)) == first_non_empty(strings_view(v@).subrange(i as int, v@.len() as int)),
                decreases v@.len() - i,
            {
                assert(strings_view(v@).subrange(i as int, v@.len() as int).drop_first()
                    =~= strings_view(v@).subrange(i + 1, v@.len() as int));
                assert(strings_view(v@)[i as int] == v@[i as int]@);
                if v[i].len() > 0 {
                    assert(strings_view(v@).subrange(i as int, v@.len() as int)[0] == v@[i as int]@);
                    assert(first_non_empty(strings_view(v@)) == Some(v@[i as int]@));
                    let bytes: &[u8] = v[i].as_slice();
                    assert(bytes@ == v@[i as int]@);
                    let text = match utf8_string(bytes) {
                        Some(t) => t,
                        None => String::from_str(""),
                    };
                    assert(undef_text(value@) == Some(text@));
                    return text;
                }
                i = i + 1;
            }
            String::from_str("")
        },
        _ => debug_text(value),
    }
}

/// How a MakerNote field's value is shown, beyond the default.
#[derive(Debug, Clone, Copy, PartialEq, Eq, Structural)]
pub enum DisplayKind {
    /// The default display.
    Plain,
    /// A NUL-terminated string.
    NulText,
    /// A setting shown as its `PanasonicImageStabilization` label.
    ImageStabilization,
    /// A setting shown as its `PanasonicMacroMode` label.
    MacroMode,
    /// A setting shown as its `PanasonicShootingMode` label.
    ShootingMode,
    /// A setting shown as its `PanasonicColorEffect` label.
    ColorEffect,
    /// A setting shown as its `PanasonicBurstMode` label.
    BurstMode,
    /// A setting shown as its `PanasonicSelfTimer` label.
    SelfTimer,
    /// A setting shown as its `PanasonicBatteryLevel` label.
    BatteryLevel,
    /// A setting shown as its `PanasonicFilmMode` label.
    FilmMode,
    /// A setting shown as its `PanasonicJPEGQuality` label.
    JpegQuality,
    /// A setting shown as its `PanasonicIntelligentResolution` label.
    IntelligentResolution,
    /// A setting shown as its `PanasonicIntelligentDRange` label.
    IntelligentDRange,
    /// A setting shown as its `PanasonicPhotoStyle` label.
    PhotoStyle,
    /// A setting shown as its `PanasonicSweepPanoramaDirection` label.
    SweepPanoramaDirection,
    /// A setting shown as its `PanasonicAFSubjectDetection` label.
    AfSubjectDetection,
    /// Panasonic face detection information.
    FaceDetInfo,
    /// Sony face information.
    SonyFaceInfo,
    /// Sony's Tag9416 record.
    SonyTag9416,
}

/// How the vendor shows the value of `tag`.
pub open spec fn spec_display_kind(tag: MakerTag) -> DisplayKind {
    let n = tag.number;
    match tag.vendor {
        MakerNoteVendor::Panasonic | MakerNoteVendor::Leica => {
            if n == 0x001a {
                DisplayKind::ImageStabilization
            } else if n == 0x001c {
                DisplayKind::MacroMode
            } else if n == 0x001f {
                DisplayKind::ShootingMode
            } else if n == 0x0028 {
                DisplayKind::ColorEffect
            } else if n == 0x002a {
                DisplayKind::BurstMode
            } else if n == 0x002e {
                DisplayKind::SelfTimer
            } else if n == 0x0038 {
                DisplayKind::BatteryLevel
            } else if n == 0x0042 {
                DisplayKind::FilmMode
            } else if n == 0x0043 {
                DisplayKind::JpegQuality
            } else if n == 0x0070 {
                DisplayKind::IntelligentResolution
            } else if n == 0x0079 {
                DisplayKind::IntelligentDRange
            } else if n == 0x0089 {
                DisplayKind::PhotoStyle
            } else if n == 0x0093 {
                DisplayKind::SweepPanoramaDirection
            } else if n == 0x00e9 {
                DisplayKind::AfSubjectDetection
            } else if n == 0x004e {
                DisplayKind::FaceDetInfo
            } else if n == 0x0025 || n == 0x0066 || n == 0x00d5 || n == 0x00f1 || n == 0x00f4 || n == 0x0407 || n == 0x0408 {
                DisplayKind::NulText
            } else {
                DisplayKind::Plain
            }
        },
        MakerNoteVendor::Olympus | MakerNoteVendor::OMSystem => if n == 0x0209 {
            DisplayKind::NulText
        } else {
            DisplayKind::Plain
        },
        MakerNoteVendor::Sony => if n == 0x0020 {
            DisplayKind::SonyFaceInfo
        } else if n == 0x9416 {
            DisplayKind::SonyTag9416
        } else {
            DisplayKind::Plain
        },
        _ => DisplayKind::Plain,
    }
}

/// Returns how the vendor shows the value of `tag`.
pub fn display_kind(tag: MakerTag) -> (r: DisplayKind)
    ensures
        r == spec_display_kind(tag),
{
    let n = tag.number;
    match tag.vendor {
        MakerNoteVendor::Panasonic | MakerNoteVendor::Leica => {
            if n == 0x001a {
                DisplayKind::ImageStabilization
            } else if n == 0x001c {
                DisplayKind::MacroMode
            } else if n == 0x001f {
                DisplayKind::ShootingMode
            } else if n == 0x0028 {
                DisplayKind::ColorEffect
            } else if n == 0x002a {
                DisplayKind::BurstMode
            } else if n == 0x002e {
                DisplayKind::SelfTimer
            } else if n == 0x0038 {
                DisplayKind::BatteryLevel
            } else if n == 0x0042 {
                DisplayKind::FilmMode
            } else if n == 0x0043 {
                DisplayKind::JpegQuality
            } else if n == 0x0070 {
                DisplayKind::IntelligentResolution
            } else if n == 0x0079 {
                DisplayKind::IntelligentDRange
            } else if n == 0x0089 {
                DisplayKind::PhotoStyle
            } else if n == 0x0093 {
                DisplayKind::SweepPanoramaDirection
            } else if n == 0x00e9 {
                DisplayKind::AfSubjectDetection
            } else if n == 0x004e {
                DisplayKind::FaceDetInfo
            } else if n == 0x0025 || n == 0x0066 || n == 0x00d5 || n == 0x00f1 || n == 0x00f4 || n == 0x0407 || n == 0x0408 {
                DisplayKind::NulText
            } else {
                DisplayKind::Plain
            }
        },
        MakerNoteVendor::Olympus | MakerNoteVendor::OMSystem => if n == 0x0209 {
            DisplayKind::NulText
        } else {
            DisplayKind::Plain
        },
        MakerNoteVendor::Sony => if n == 0x0020 {
            DisplayKind::SonyFaceInfo
        } else if n == 0x9416 {
            DisplayKind::SonyTag9416
        } else {
            DisplayKind::Plain
        },
        _ => DisplayKind::Plain,
    }
}

/// Whether `t` is the label of a setting of `kind` stored as `n`.
pub open spec fn is_label(kind: DisplayKind, n: u32, t: &'static str) -> bool {
    match kind {
        DisplayKind::ImageStabilization => exists|e: PanasonicImageStabilization| #[trigger] e.spec_repr() == n && e.spec_label() == t,
        DisplayKind::MacroMode => exists|e: PanasonicMacroMode| #[trigger] e.spec_repr() == n && e.spec_label() == t,
        DisplayKind::ShootingMode => exists|e: PanasonicShootingMode| #[trigger] e.spec_repr() == n && e.spec_label() == t,
        DisplayKind::ColorEffect => exists|e: PanasonicColorEffect| #[trigger] e.spec_repr() == n && e.spec_label() == t,
        DisplayKind::BurstMode => exists|e: PanasonicBurstMode| #[trigger] e.spec_repr() == n && e.spec_label() == t,
        DisplayKind::SelfTimer => exists|e: PanasonicSelfTimer| #[trigger] e.spec_repr() == n && e.spec_label() == t,
        DisplayKind::BatteryLevel => exists|e: PanasonicBatteryLevel| #[trigger] e.spec_repr() == n && e.spec_label() == t,
        DisplayKind::FilmMode => exists|e: PanasonicFilmMode| #[trigger] e.spec_repr() == n && e.spec_label() == t,
        DisplayKind::JpegQuality => exists|e: PanasonicJPEGQuality| #[trigger] e.spec_repr() == n && e.spec_label() == t,
        DisplayKind::IntelligentResolution => exists|e: PanasonicIntelligentResolution| #[trigger] e.spec_repr() == n && e.spec_label() == t,
        DisplayKind::IntelligentDRange => exists|e: PanasonicIntelligentDRange| #[trigger] e.spec_repr() == n && e.spec_label() == t,
        DisplayKind::PhotoStyle => exists|e: PanasonicPhotoStyle| #[trigger] e.spec_repr() == n && e.spec_label() == t,
        DisplayKind::SweepPanoramaDirection => exists|e: PanasonicSweepPanoramaDirection| #[trigger] e.spec_repr() == n && e.spec_label() == t,
        DisplayKind::AfSubjectDetection => exists|e: PanasonicAFSubjectDetection| #[trigger] e.spec_repr() == n && e.spec_label() == t,
        _ => false,
    }
}

/// Whether some setting of `kind` is stored as `n`.
pub open spec fn has_label(kind: DisplayKind, n: u32) -> bool {
    match kind {
        DisplayKind::ImageStabilization => exists|e: PanasonicImageStabilization| #[trigger] e.spec_repr() == n,
        DisplayKind::MacroMode => exists|e: PanasonicMacroMode| #[trigger] e.spec_repr() == n,
        DisplayKind::ShootingMode => exists|e: PanasonicShootingMode| #[trigger] e.spec_repr() == n,
        DisplayKind::ColorEffect => exists|e: PanasonicColorEffect| #[trigger] e.spec_repr() == n,
        DisplayKind::BurstMode => exists|e: PanasonicBurstMode| #[trigger] e.spec_repr() == n,
        DisplayKind::SelfTimer => exists|e: PanasonicSelfTimer| #[trigger] e.spec_repr() == n,
        DisplayKind::BatteryLevel => exists|e: PanasonicBatteryLevel| #[trigger] e.spec_repr() == n,
        DisplayKind::FilmMode => exists|e: PanasonicFilmMode| #[trigger] e.spec_repr() == n,
        DisplayKind::JpegQuality => exists|e: PanasonicJPEGQuality| #[trigger] e.spec_repr() == n,
        DisplayKind::IntelligentResolution => exists|e: PanasonicIntelligentResolution| #[trigger] e.spec_repr() == n,
        DisplayKind::IntelligentDRange => exists|e: PanasonicIntelligentDRange| #[trigger] e.spec_repr() == n,
        DisplayKind::PhotoStyle => exists|e: PanasonicPhotoStyle| #[trigger] e.spec_repr() == n,
        DisplayKind::SweepPanoramaDirection => exists|e: PanasonicSweepPanoramaDirection| #[trigger] e.spec_repr() == n,
        DisplayKind::AfSubjectDetection => exists|e: PanasonicAFSubjectDetection| #[trigger] e.spec_repr() == n,
        _ => false,
    }
}

/// Returns the label of the setting of `kind` stored as `n`, if any.
#[verifier::rlimit(40)]
pub fn label_of(kind: DisplayKind, n: u32) -> (r: Option<&'static str>)
    ensures
        match r {
            Some(t) => is_label(kind, n, t),
            None => !has_label(kind, n),
        },
{
    match kind {
        DisplayKind::ImageStabilization => {
            if n >= 0x10000 {
                assert(forall|e: PanasonicImageStabilization| #[trigger] e.spec_repr() != n);
                return None;
            }
            match PanasonicImageStabilization::from_repr(n as u16) {
                Some(e) => Some(e.label()),
                None => None,
            }
        },
        DisplayKind::MacroMode => {
            if n >= 0x10000 {
                assert(forall|e: PanasonicMacroMode| #[trigger] e.spec_repr() != n);
                return None;
            }
            match PanasonicMacroMode::from_repr(n as u16) {
                Some(e) => Some(e.label()),
                None => None,
            }
        },
        DisplayKind::ShootingMode => {
            if n >= 0x10000 {
                assert(forall|e: PanasonicShootingMode| #[trigger] e.spec_repr() != n);
                return None;
            }
            match PanasonicShootingMode::from_repr(n as u16) {
                Some(e) => Some(e.label()),
                None => None,
            }
        },
        DisplayKind::ColorEffect => {
            if n >= 0x10000 {
                assert(forall|e: PanasonicColorEffect| #[trigger] e.spec_repr() != n);
                return None;
            }
            match PanasonicColorEffect::from_repr(n as u16) {
                Some(e) => Some(e.label()),
                None => None,
            }
        },
        DisplayKind::BurstMode => {
            if n >= 0x10000 {
                assert(forall|e: PanasonicBurstMode| #[trigger] e.spec_repr() != n);
                return None;
            }
            match PanasonicBurstMode::from_repr(n as u16) {
                Some(e) => Some(e.label()),
                None => None,
            }
        },
        DisplayKind::SelfTimer => {
            if n >= 0x10000 {
                assert(forall|e: PanasonicSelfTimer| #[trigger] e.spec_repr() != n);
                return None;
            }
            match PanasonicSelfTimer::from_repr(n as u16) {
                Some(e) => Some(e.label()),
                None => None,
            }
        },
        DisplayKind::BatteryLevel => {
            if n >= 0x10000 {
                assert(forall|e: PanasonicBatteryLevel| #[trigger] e.spec_repr() != n);
                return None;
            }
            match PanasonicBatteryLevel::from_repr(n as u16) {
                Some(e) => Some(e.label()),
                None => None,
            }
        },
        DisplayKind::FilmMode => {
            if n >= 0x10000 {
                assert(forall|e: PanasonicFilmMode| #[trigger] e.spec_repr() != n);
                return None;
            }
            match PanasonicFilmMode::from_repr(n as u16) {
                Some(e) => Some(e.label()),
                None => None,
            }
        },
        DisplayKind::JpegQuality => {
            if n >= 0x10000 {
                assert(forall|e: PanasonicJPEGQuality| #[trigger] e.spec_repr() != n);
                return None;
            }
            match PanasonicJPEGQuality::from_repr(n as u16) {
                Some(e) => Some(e.label()),
                None => None,
            }
        },
        DisplayKind::IntelligentResolution => {
            if n >= 0x100 {
                assert(forall|e: PanasonicIntelligentResolution| #[trigger] e.spec_repr() != n);
                return None;
            }
            match PanasonicIntelligentResolution::from_repr(n as u8) {
                Some(e) => Some(e.label()),
                None => None,
            }
        },
        DisplayKind::IntelligentDRange => {
            if n >= 0x10000 {
                assert(forall|e: PanasonicIntelligentDRange| #[trigger] e.spec_repr() != n);
                return None;
            }
            match PanasonicIntelligentDRange::from_repr(n as u16) {
                Some(e) => Some(e.label()),
                None => None,
            }
        },
        DisplayKind::PhotoStyle => {
            if n >= 0x10000 {
                assert(forall|e: PanasonicPhotoStyle| #[trigger] e.spec_repr() != n);
                return None;
            }
            match PanasonicPhotoStyle::from_repr(n as u16) {
                Some(e) => Some(e.label()),
                None => None,
            }
        },
        DisplayKind::SweepPanoramaDirection => {
            if n >= 0x100 {
                assert(forall|e: PanasonicSweepPanoramaDirection| #[trigger] e.spec_repr() != n);
                return None;
            }
            match PanasonicSweepPanoramaDirection::from_repr(n as u8) {
                Some(e) => Some(e.label()),
                None => None,
            }
        },
        DisplayKind::AfSubjectDetection => {
            if n >= 0x10000 {
                assert(forall|e: PanasonicAFSubjectDetection| #[trigger] e.spec_repr() != n);
                return None;
            }
            match PanasonicAFSubjectDetection::from_repr(n as u16) {
                Some(e) => Some(e.label()),
                None => None,
            }
        },
        _ => None,
    }
}

/// The bytes of a BYTE or UNDEFINED value.
pub open spec fn value_bytes(v: ValueView) -> Option<Seq<u8>> {
    match v {
        ValueView::Undefined(b, _) | ValueView::Byte(b) => Some(b),
        _ => None,
    }
}

/// Whether `r` is the display of `v` that `kind` calls for: none for the
/// default display, otherwise text; a setting's label where the value's
/// first number is a setting's, a face record's text where the bytes hold
/// one, a string's text where the value is one. A value that is none of
/// these shows in its debug form.
pub open spec fn custom_display_ok(kind: DisplayKind, v: Value, r: Option<String>) -> bool {
    match kind {
        DisplayKind::Plain => r is None,
        DisplayKind::NulText => r matches Some(s) && s@ == match undef_text(v@) {
            Some(t) => t,
            None => debug_text_of(v@),
        },
        DisplayKind::FaceDetInfo => r matches Some(s) && s@ == match value_bytes(v@) {
            Some(b) => match panasonic_face_record(b, true) {
                Some((n, fs)) => ascii_chars(face_det_text(n, fs)),
                None => debug_text_of(v@),
            },
            None => debug_text_of(v@),
        },
        DisplayKind::SonyFaceInfo => r matches Some(s) && s@ == match value_bytes(v@) {
            Some(b) => match sony_face_record(b, true) {
                Some((d, fs)) => ascii_chars(sony_face_info_text(d, fs)),
                None => debug_text_of(v@),
            },
            None => debug_text_of(v@),
        },
        DisplayKind::SonyTag9416 => r matches Some(s) && match value_bytes(v@) {
            Some(b) => if no_sony_9416(b) {
                s@ == debug_text_of(v@)
            } else {
                forall|t: SonyTag9416| sony_9416_record(b, t) ==> s@ == sony_9416_text(t)
            },
            None => s@ == debug_text_of(v@),
        },
        _ => r matches Some(s) && match v.spec_get_uint(0) {
            Some(n) => if has_label(kind, n) {
                exists|t: &'static str| is_label(kind, n, t) && s@ == t@
            } else {
                s@ == debug_text_of(v@)
            },
            None => s@ == debug_text_of(v@),
        },
    }
}

/// Returns the vendor's own display of `value` under `tag`, if it has one.
pub fn custom_display(tag: MakerTag, value: &Value) -> (r: Option<String>)
    ensures
        custom_display_ok(spec_display_kind(tag), *value, r),
{
    let kind = display_kind(tag);
    match kind {
        DisplayKind::Plain => None,
        DisplayKind::NulText => Some(d_undef_as_string(value)),
        DisplayKind::FaceDetInfo => {
            let text = match value {
                Value::Undefined(b, _) | Value::Byte(b) => match PanasonicFaceDetInfo::raw_parse(b.as_slice(), None) {
                    Some(info) => info.to_text(),
                    None => debug_text(value),
                },
                _ => debug_text(value),
            };
            Some(text)
        },
        DisplayKind::SonyFaceInfo => {
            let text = match value {
                Value::Undefined(b, _) | Value::Byte(b) => match SonyFaceInfo::raw_parse(b.as_slice(), None) {
                    Some(info) => info.to_text(),
                    None => debug_text(value),
                },
                _ => debug_text(value),
            };
            Some(text)
        },
        DisplayKind::SonyTag9416 => {
            let text = match value {
                Value::Undefined(b, _) | Value::Byte(b) => match SonyTag9416::raw_parse(b.as_slice(), None) {
                    Some(t) => {
                        proof { lemma_sony_9416_unique(b@, t); }
                        t.to_text()
                    },
                    None => debug_text(value),
                },
                _ => debug_text(value),
            };
            Some(text)
        },
        _ => {
            let text = match value.get_uint(0) {
                Some(n) => match label_of(kind, n) {
                    Some(t) => String::from_str(t),
                    None => debug_text(value),
                },
                None => debug_text(value),
            };
            Some(text)
        },
    }
}

/// A MakerNote field: a vendor tag, its IFD and its value, with the
/// vendor's own display of the value where it has one.
#[derive(Debug, Clone)]
pub struct MakerNoteField {
    /// The tag representing the meaning of this field.
    pub tag: MakerTag,
    /// The IFD number (usually 0 for a MakerNote).
    pub ifd_num: In,
    /// The value of the field.
    pub value: Value,
    /// The vendor's own display of the value, if it has one.
    pub custom_display: Option<String>,
}

impl MakerNoteField {
    /// Creates a field, with the vendor's display of its value.
    pub fn new(tag: MakerTag, ifd_num: In, value: Value) -> (r: MakerNoteField)
        ensures
            r.tag == tag,
            r.ifd_num == ifd_num,
            r.value == value,
            custom_display_ok(spec_display_kind(tag), value, r.custom_display),
    {
        let custom_display = custom_display(tag, &value);
        MakerNoteField { tag, ifd_num, value, custom_display }
    }

    /// Returns a display of this field's value.
    pub fn display_value(&self) -> (r: MakerNoteDisplayValue<'_>)
        ensures
            *r.field() == *self,
    {
        MakerNoteDisplayValue { field: self }
    }
}

/// A display of a MakerNote field's value.
pub struct MakerNoteDisplayValue<'a> {
    field: &'a MakerNoteField,
}

impl<'a> MakerNoteDisplayValue<'a> {
    /// The field displayed.
    pub closed spec fn field(&self) -> &'a MakerNoteField {
        self.field
    }

    /// Returns the vendor's own text for the value; `None` where the value
    /// takes the standard display of its type.
    pub fn vendor_text(&self) -> (r: Option<String>)
        ensures
            match (r, self.field().custom_display) {
                (Some(a), Some(b)) => a@ == b@,
                (None, None) => true,
                _ => false,
            },
    {
        match &self.field.custom_display {
            Some(t) => Some(t.clone()),
            None => None,
        }
    }
}

/// A Panasonic (or Leica) field of tag 0x001a whose first number is a
/// stored setting shows as that setting's text.
pub proof fn lemma_panasonic_image_stabilization_display(v: Value, r: Option<String>, n: u32)
    requires
        custom_display_ok(spec_display_kind(MakerTag { vendor: MakerNoteVendor::Panasonic, number: 0x001a }), v, r),
        v.spec_get_uint(0) == Some(n),
    ensures
        n == 2 ==> (r matches Some(s) && s@ == "On, Optical"@),
        n == 3 ==> (r matches Some(s) && s@ == "Off"@),
        n == 4 ==> (r matches Some(s) && s@ == "On, Mode 2"@),
        n == 5 ==> (r matches Some(s) && s@ == "On, Optical Panning"@),
        n == 6 ==> (r matches Some(s) && s@ == "On, Body-only"@),
        n == 7 ==> (r matches Some(s) && s@ == "On, Body-only Panning"@),
        n == 9 ==> (r matches Some(s) && s@ == "Dual IS"@),
        n == 10 ==> (r matches Some(s) && s@ == "Dual IS Panning"@),
        n == 11 ==> (r matches Some(s) && s@ == "Dual2 IS"@),
        n == 12 ==> (r matches Some(s) && s@ == "Dual2 IS Panning"@),
{
    let kind = spec_display_kind(MakerTag { vendor: MakerNoteVendor::Panasonic, number: 0x001a });
    if let Some(s) = r {
        if n == 2 { assert(PanasonicImageStabilization::OnOptical.spec_repr() == 2); }
        if n == 3 { assert(PanasonicImageStabilization::Off.spec_repr() == 3); }
        if n == 4 { assert(PanasonicImageStabilization::OnMode2.spec_repr() == 4); }
        if n == 5 { assert(PanasonicImageStabilization::OnOpticalPanning.spec_repr() == 5); }
        if n == 6 { assert(PanasonicImageStabilization::OnBodyOnly.spec_repr() == 6); }
        if n == 7 { assert(PanasonicImageStabilization::OnBodyOnlyPanning.spec_repr() == 7); }
        if n == 9 { assert(PanasonicImageStabilization::DualIS.spec_repr() == 9); }
        if n == 10 { assert(PanasonicImageStabilization::DualISPanning.spec_repr() == 10); }
        if n == 11 { assert(PanasonicImageStabilization::Dual2IS.spec_repr() == 11); }
        if n == 12 { assert(PanasonicImageStabilization::Dual2ISPanning.spec_repr() == 12); }
        if has_label(kind, n) {
            let t = choose|t: &'static str| is_label(kind, n, t) && s@ == t@;
            let e = choose|e: PanasonicImageStabilization| e.spec_repr() == n && e.spec_label() == t;
            crate::make_note::panasonic::lemma_image_stabilization_labels(e);
        }
    }
}

/// A Panasonic (or Leica) field of tag 0x001c whose first number is a
/// stored setting shows as that setting's text.
pub proof fn lemma_panasonic_macro_mode_display(v: Value, r: Option<String>, n: u32)
    requires
        custom_display_ok(spec_display_kind(MakerTag { vendor: MakerNoteVendor::Panasonic, number: 0x001c }), v, r),
        v.spec_get_uint(0) == Some(n),
    ensures
        n == 1 ==> (r matches Some(s) && s@ == "On"@),
        n == 2 ==> (r matches Some(s) && s@ == "Off"@),
        n == 257 ==> (r matches Some(s) && s@ == "Tele-Macro"@),
        n == 513 ==> (r matches Some(s) && s@ == "Macro Zoom"@),
{
    let kind = spec_display_kind(MakerTag { vendor: MakerNoteVendor::Panasonic, number: 0x001c });
    if let Some(s) = r {
        if n == 1 { assert(PanasonicMacroMode::On.spec_repr() == 1); }
        if n == 2 { assert(PanasonicMacroMode::Off.spec_repr() == 2); }
        if n == 257 { assert(PanasonicMacroMode::TeleMacro.spec_repr() == 257); }
        if n == 513 { assert(PanasonicMacroMode::MacroZoom.spec_repr() == 513); }
        if has_label(kind, n) {
            let t = choose|t: &'static str| is_label(kind, n, t) && s@ == t@;
            let e = choose|e: PanasonicMacroMode| e.spec_repr() == n && e.spec_label() == t;
            crate::make_note::panasonic::lemma_macro_mode_labels(e);
        }
    }
}

/// A Panasonic (or Leica) field of tag 0x001f whose first number is a
/// stored setting shows as that setting's text.
pub proof fn lemma_panasonic_shooting_mode_display(v: Value, r: Option<String>, n: u32)
    requires
        custom_display_ok(spec_display_kind(MakerTag { vendor: MakerNoteVendor::Panasonic, number: 0x001f }), v, r),
        v.spec_get_uint(0) == Some(n),
    ensures
        n == 1 ==> (r matches Some(s) && s@ == "Normal"@),
        n == 2 ==> (r matches Some(s) && s@ == "Portrait"@),
        n == 3 ==> (r matches Some(s) && s@ == "Scenery"@),
        n == 4 ==> (r matches Some(s) && s@ == "Sports"@),
        n == 5 ==> (r matches Some(s) && s@ == "Night Portrait"@),
        n == 6 ==> (r matches Some(s) && s@ == "Program"@),
        n == 7 ==> (r matches Some(s) && s@ == "Aperture Priority"@),
        n == 8 ==> (r matches Some(s) && s@ == "Shutter Priority"@),
        n == 9 ==> (r matches Some(s) && s@ == "Macro"@),
        n == 10 ==> (r matches Some(s) && s@ == "Spot"@),
        n == 11 ==> (r matches Some(s) && s@ == "Night Scenery"@),
        n == 12 ==> (r matches Some(s) && s@ == "Food"@),
        n == 13 ==> (r matches Some(s) && s@ == "Baby"@),
        n == 14 ==> (r matches Some(s) && s@ == "Soft Skin"@),
        n == 15 ==> (r matches Some(s) && s@ == "Candlelight"@),
        n == 16 ==> (r matches Some(s) && s@ == "Starry Night"@),
        n == 17 ==> (r matches Some(s) && s@ == "High Sensitivity"@),
        n == 18 ==> (r matches Some(s) && s@ == "Panorama Assist"@),
        n == 19 ==> (r matches Some(s) && s@ == "Underwater"@),
        n == 20 ==> (r matches Some(s) && s@ == "Beach"@),
        n == 21 ==> (r matches Some(s) && s@ == "Aerial Photo"@),
        n == 22 ==> (r matches Some(s) && s@ == "Sunset"@),
        n == 23 ==> (r matches Some(s) && s@ == "Pet"@),
        n == 24 ==> (r matches Some(s) && s@ == "Intelligent ISO"@),
        n == 25 ==> (r matches Some(s) && s@ == "Clipboard"@),
        n == 26 ==> (r matches Some(s) && s@ == "High Speed Continuous Shooting"@),
        n == 27 ==> (r matches Some(s) && s@ == "Intelligent Auto"@),
        n == 29 ==> (r matches Some(s) && s@ == "Multi-aspect"@),
        n == 32 ==> (r matches Some(s) && s@ == "Transform"@),
        n == 33 ==> (r matches Some(s) && s@ == "Flash Burst"@),
        n == 34 ==> (r matches Some(s) && s@ == "Pin Hole"@),
        n == 35 ==> (r matches Some(s) && s@ == "Film Grain"@),
        n == 36 ==> (r matches Some(s) && s@ == "My Color"@),
        n == 37 ==> (r matches Some(s) && s@ == "Photo Frame"@),
        n == 38 ==> (r matches Some(s) && s@ == "Movie"@),
        n == 39 ==> (r matches Some(s) && s@ == "Panorama"@),
        n == 40 ==> (r matches Some(s) && s@ == "Glass Through"@),
        n == 41 ==> (r matches Some(s) && s@ == "HDR"@),
        n == 42 ==> (r matches Some(s) && s@ == "Intelligent Auto Plus"@),
        n == 43 ==> (r matches Some(s) && s@ == "Intelligent Auto Premium"@),
        n == 45 ==> (r matches Some(s) && s@ == "iHandheld Night Shot"@),
        n == 46 ==> (r matches Some(s) && s@ == "Handheld Night Shot"@),
        n == 51 ==> (r matches Some(s) && s@ == "Sweep Panorama"@),
        n == 55 ==> (r matches Some(s) && s@ == "3D Photo"@),
        n == 59 ==> (r matches Some(s) && s@ == "Creative Control"@),
        n == 62 ==> (r matches Some(s) && s@ == "Expressive"@),
        n == 63 ==> (r matches Some(s) && s@ == "Retro"@),
        n == 64 ==> (r matches Some(s) && s@ == "Pure"@),
        n == 65 ==> (r matches Some(s) && s@ == "Elegant"@),
        n == 67 ==> (r matches Some(s) && s@ == "Silky"@),
        n == 80 ==> (r matches Some(s) && s@ == "Miniature Effect"@),
        n == 81 ==> (r matches Some(s) && s@ == "Dynamic Monochrome"@),
        n == 82 ==> (r matches Some(s) && s@ == "Impressive Art"@),
        n == 83 ==> (r matches Some(s) && s@ == "HDR Art"@),
        n == 84 ==> (r matches Some(s) && s@ == "Toy Effect"@),
        n == 85 ==> (r matches Some(s) && s@ == "Toy Pop"@),
        n == 86 ==> (r matches Some(s) && s@ == "Bleach Bypass"@),
        n == 89 ==> (r matches Some(s) && s@ == "Monochrome"@),
        n == 90 ==> (r matches Some(s) && s@ == "Rough Monochrome"@),
{
    let kind = spec_display_kind(MakerTag { vendor: MakerNoteVendor::Panasonic, number: 0x001f });
    if let Some(s) = r {
        if n == 1 { assert(PanasonicShootingMode::Normal.spec_repr() == 1); }
        if n == 2 { assert(PanasonicShootingMode::Portrait.spec_repr() == 2); }
        if n == 3 { assert(PanasonicShootingMode::Scenery.spec_repr() == 3); }
        if n == 4 { assert(PanasonicShootingMode::Sports.spec_repr() == 4); }
        if n == 5 { assert(PanasonicShootingMode::NightPortrait.spec_repr() == 5); }
        if n == 6 { assert(PanasonicShootingMode::Program.spec_repr() == 6); }
        if n == 7 { assert(PanasonicShootingMode::AperturePriority.spec_repr() == 7); }
        if n == 8 { assert(PanasonicShootingMode::ShutterPriority.spec_repr() == 8); }
        if n == 9 { assert(PanasonicShootingMode::Macro.spec_repr() == 9); }
        if n == 10 { assert(PanasonicShootingMode::Spot.spec_repr() == 10); }
        if n == 11 { assert(PanasonicShootingMode::NightScenery.spec_repr() == 11); }
        if n == 12 { assert(PanasonicShootingMode::Food.spec_repr() == 12); }
        if n == 13 { assert(PanasonicShootingMode::Baby.spec_repr() == 13); }
        if n == 14 { assert(PanasonicShootingMode::SoftSkin.spec_repr() == 14); }
        if n == 15 { assert(PanasonicShootingMode::Candlelight.spec_repr() == 15); }
        if n == 16 { assert(PanasonicShootingMode::StarryNight.spec_repr() == 16); }
        if n == 17 { assert(PanasonicShootingMode::HighSensitivity.spec_repr() == 17); }
        if n == 18 { assert(PanasonicShootingMode::PanoramaAssist.spec_repr() == 18); }
        if n == 19 { assert(PanasonicShootingMode::Underwater.spec_repr() == 19); }
        if n == 20 { assert(PanasonicShootingMode::Beach.spec_repr() == 20); }
        if n == 21 { assert(PanasonicShootingMode::AerialPhoto.spec_repr() == 21); }
        if n == 22 { assert(PanasonicShootingMode::Sunset.spec_repr() == 22); }
        if n == 23 { assert(PanasonicShootingMode::Pet.spec_repr() == 23); }
        if n == 24 { assert(PanasonicShootingMode::IntelligentISO.spec_repr() == 24); }
        if n == 25 { assert(PanasonicShootingMode::Clipboard.spec_repr() == 25); }
        if n == 26 { assert(PanasonicShootingMode::HighSpeedContinuousShooting.spec_repr() == 26); }
        if n == 27 { assert(PanasonicShootingMode::IntelligentAuto.spec_repr() == 27); }
        if n == 29 { assert(PanasonicShootingMode::MultiAspect.spec_repr() == 29); }
        if n == 32 { assert(PanasonicShootingMode::Transform.spec_repr() == 32); }
        if n == 33 { assert(PanasonicShootingMode::FlashBurst.spec_repr() == 33); }
        if n == 34 { assert(PanasonicShootingMode::PinHole.spec_repr() == 34); }
        if n == 35 { assert(PanasonicShootingMode::FilmGrain.spec_repr() == 35); }
        if n == 36 { assert(PanasonicShootingMode::MyColor.spec_repr() == 36); }
        if n == 37 { assert(PanasonicShootingMode::PhotoFrame.spec_repr() == 37); }
        if n == 38 { assert(PanasonicShootingMode::Movie.spec_repr() == 38); }
        if n == 39 { assert(PanasonicShootingMode::Panorama.spec_repr() == 39); }
        if n == 40 { assert(PanasonicShootingMode::GlassThrough.spec_repr() == 40); }
        if n == 41 { assert(PanasonicShootingMode::HDR.spec_repr() == 41); }
        if n == 42 { assert(PanasonicShootingMode::IntelligentAutoPlus.spec_repr() == 42); }
        if n == 43 { assert(PanasonicShootingMode::IntelligentAutoPremium.spec_repr() == 43); }
        if n == 45 { assert(PanasonicShootingMode::IHandheldNightShot.spec_repr() == 45); }
        if n == 46 { assert(PanasonicShootingMode::HandheldNightShot.spec_repr() == 46); }
        if n == 51 { assert(PanasonicShootingMode::SweepPanorama.spec_repr() == 51); }
        if n == 55 { assert(PanasonicShootingMode::Photo3D.spec_repr() == 55); }
        if n == 59 { assert(PanasonicShootingMode::CreativeControl.spec_repr() == 59); }
        if n == 62 { assert(PanasonicShootingMode::Expressive.spec_repr() == 62); }
        if n == 63 { assert(PanasonicShootingMode::Retro.spec_repr() == 63); }
        if n == 64 { assert(PanasonicShootingMode::Pure.spec_repr() == 64); }
        if n == 65 { assert(PanasonicShootingMode::Elegant.spec_repr() == 65); }
        if n == 67 { assert(PanasonicShootingMode::Silky.spec_repr() == 67); }
        if n == 80 { assert(PanasonicShootingMode::MiniatureEffect.spec_repr() == 80); }
        if n == 81 { assert(PanasonicShootingMode::DynamicMonochrome.spec_repr() == 81); }
        if n == 82 { assert(PanasonicShootingMode::ImpressiveArt.spec_repr() == 82); }
        if n == 83 { assert(PanasonicShootingMode::HDRArt.spec_repr() == 83); }
        if n == 84 { assert(PanasonicShootingMode::ToyEffect.spec_repr() == 84); }
        if n == 85 { assert(PanasonicShootingMode::ToyPop.spec_repr() == 85); }
        if n == 86 { assert(PanasonicShootingMode::BleachBypass.spec_repr() == 86); }
        if n == 89 { assert(PanasonicShootingMode::Monochrome.spec_repr() == 89); }
        if n == 90 { assert(PanasonicShootingMode::RoughMonochrome.spec_repr() == 90); }
        if has_label(kind, n) {
            let t = choose|t: &'static str| is_label(kind, n, t) && s@ == t@;
            let e = choose|e: PanasonicShootingMode| e.spec_repr() == n && e.spec_label() == t;
            crate::make_note::panasonic::lemma_shooting_mode_labels(e);
        }
    }
}

/// A Panasonic (or Leica) field of tag 0x0028 whose first number is a
/// stored setting shows as that setting's text.
pub proof fn lemma_panasonic_color_effect_display(v: Value, r: Option<String>, n: u32)
    requires
        custom_display_ok(spec_display_kind(MakerTag { vendor: MakerNoteVendor::Panasonic, number: 0x0028 }), v, r),
        v.spec_get_uint(0) == Some(n),
    ensures
        n == 1 ==> (r matches Some(s) && s@ == "Off"@),
        n == 2 ==> (r matches Some(s) && s@ == "Warm"@),
        n == 3 ==> (r matches Some(s) && s@ == "Cool"@),
        n == 4 ==> (r matches Some(s) && s@ == "Black & White"@),
        n == 5 ==> (r matches Some(s) && s@ == "Sepia"@),
        n == 6 ==> (r matches Some(s) && s@ == "Happy"@),
        n == 8 ==> (r matches Some(s) && s@ == "Vivid"@),
{
    let kind = spec_display_kind(MakerTag { vendor: MakerNoteVendor::Panasonic, number: 0x0028 });
    if let Some(s) = r {
        if n == 1 { assert(PanasonicColorEffect::Off.spec_repr() == 1); }
        if n == 2 { assert(PanasonicColorEffect::Warm.spec_repr() == 2); }
        if n == 3 { assert(PanasonicColorEffect::Cool.spec_repr() == 3); }
        if n == 4 { assert(PanasonicColorEffect::BlackAndWhite.spec_repr() == 4); }
        if n == 5 { assert(PanasonicColorEffect::Sepia.spec_repr() == 5); }
        if n == 6 { assert(PanasonicColorEffect::Happy.spec_repr() == 6); }
        if n == 8 { assert(PanasonicColorEffect::Vivid.spec_repr() == 8); }
        if has_label(kind, n) {
            let t = choose|t: &'static str| is_label(kind, n, t) && s@ == t@;
            let e = choose|e: PanasonicColorEffect| e.spec_repr() == n && e.spec_label() == t;
            crate::make_note::panasonic::lemma_color_effect_labels(e);
        }
    }
}

/// A Panasonic (or Leica) field of tag 0x002a whose first number is a
/// stored setting shows as that setting's text.
pub proof fn lemma_panasonic_burst_mode_display(v: Value, r: Option<String>, n: u32)
    requires
        custom_display_ok(spec_display_kind(MakerTag { vendor: MakerNoteVendor::Panasonic, number: 0x002a }), v, r),
        v.spec_get_uint(0) == Some(n),
    ensures
        n == 0 ==> (r matches Some(s) && s@ == "Off"@),
        n == 1 ==> (r matches Some(s) && s@ == "On"@),
        n == 2 ==> (r matches Some(s) && s@ == "Auto Exposure Bracketing (AEB)"@),
        n == 3 ==> (r matches Some(s) && s@ == "Focus Bracketing"@),
        n == 4 ==> (r matches Some(s) && s@ == "Unlimited"@),
        n == 8 ==> (r matches Some(s) && s@ == "White Balance Bracketing"@),
        n == 17 ==> (r matches Some(s) && s@ == "On (with flash)"@),
        n == 18 ==> (r matches Some(s) && s@ == "Aperture Bracketing"@),
{
    let kind = spec_display_kind(MakerTag { vendor: MakerNoteVendor::Panasonic, number: 0x002a });
    if let Some(s) = r {
        if n == 0 { assert(PanasonicBurstMode::Off.spec_repr() == 0); }
        if n == 1 { assert(PanasonicBurstMode::On.spec_repr() == 1); }
        if n == 2 { assert(PanasonicBurstMode::AEB.spec_repr() == 2); }
        if n == 3 { assert(PanasonicBurstMode::FocusBracketing.spec_repr() == 3); }
        if n == 4 { assert(PanasonicBurstMode::Unlimited.spec_repr() == 4); }
        if n == 8 { assert(PanasonicBurstMode::WhiteBalanceBracketing.spec_repr() == 8); }
        if n == 17 { assert(PanasonicBurstMode::OnWithFlash.spec_repr() == 17); }
        if n == 18 { assert(PanasonicBurstMode::ApertureBracketing.spec_repr() == 18); }
        if has_label(kind, n) {
            let t = choose|t: &'static str| is_label(kind, n, t) && s@ == t@;
            let e = choose|e: PanasonicBurstMode| e.spec_repr() == n && e.spec_label() == t;
            crate::make_note::panasonic::lemma_burst_mode_labels(e);
        }
    }
}

/// A Panasonic (or Leica) field of tag 0x002e whose first number is a
/// stored setting shows as that setting's text.
pub proof fn lemma_panasonic_self_timer_display(v: Value, r: Option<String>, n: u32)
    requires
        custom_display_ok(spec_display_kind(MakerTag { vendor: MakerNoteVendor::Panasonic, number: 0x002e }), v, r),
        v.spec_get_uint(0) == Some(n),
    ensures
        n == 0 ==> (r matches Some(s) && s@ == "Off"@),
        n == 1 ==> (r matches Some(s) && s@ == "Off"@),
        n == 2 ==> (r matches Some(s) && s@ == "10 s"@),
        n == 3 ==> (r matches Some(s) && s@ == "2 s"@),
        n == 4 ==> (r matches Some(s) && s@ == "10 s / 3 pictures"@),
        n == 258 ==> (r matches Some(s) && s@ == "2 s after shutter pressed"@),
        n == 266 ==> (r matches Some(s) && s@ == "10 s after shutter pressed"@),
        n == 778 ==> (r matches Some(s) && s@ == "3 photos after 10 s"@),
{
    let kind = spec_display_kind(MakerTag { vendor: MakerNoteVendor::Panasonic, number: 0x002e });
    if let Some(s) = r {
        if n == 0 { assert(PanasonicSelfTimer::Off0.spec_repr() == 0); }
        if n == 1 { assert(PanasonicSelfTimer::Off1.spec_repr() == 1); }
        if n == 2 { assert(PanasonicSelfTimer::Timer10s.spec_repr() == 2); }
        if n == 3 { assert(PanasonicSelfTimer::Timer2s.spec_repr() == 3); }
        if n == 4 { assert(PanasonicSelfTimer::Timer10s3Pics.spec_repr() == 4); }
        if n == 258 { assert(PanasonicSelfTimer::Timer2sAfterShutter.spec_repr() == 258); }
        if n == 266 { assert(PanasonicSelfTimer::Timer10sAfterShutter.spec_repr() == 266); }
        if n == 778 { assert(PanasonicSelfTimer::Photos3After10s.spec_repr() == 778); }
        if has_label(kind, n) {
            let t = choose|t: &'static str| is_label(kind, n, t) && s@ == t@;
            let e = choose|e: PanasonicSelfTimer| e.spec_repr() == n && e.spec_label() == t;
            crate::make_note::panasonic::lemma_self_timer_labels(e);
        }
    }
}

/// A Panasonic (or Leica) field of tag 0x0038 whose first number is a
/// stored setting shows as that setting's text.
pub proof fn lemma_panasonic_battery_level_display(v: Value, r: Option<String>, n: u32)
    requires
        custom_display_ok(spec_display_kind(MakerTag { vendor: MakerNoteVendor::Panasonic, number: 0x0038 }), v, r),
        v.spec_get_uint(0) == Some(n),
    ensures
        n == 1 ==> (r matches Some(s) && s@ == "Full"@),
        n == 2 ==> (r matches Some(s) && s@ == "Medium"@),
        n == 3 ==> (r matches Some(s) && s@ == "Low"@),
        n == 4 ==> (r matches Some(s) && s@ == "Near Empty"@),
        n == 7 ==> (r matches Some(s) && s@ == "Near Full"@),
        n == 8 ==> (r matches Some(s) && s@ == "Medium Low"@),
        n == 256 ==> (r matches Some(s) && s@ == "n/a"@),
{
    let kind = spec_display_kind(MakerTag { vendor: MakerNoteVendor::Panasonic, number: 0x0038 });
    if let Some(s) = r {
        if n == 1 { assert(PanasonicBatteryLevel::Full.spec_repr() == 1); }
        if n == 2 { assert(PanasonicBatteryLevel::Medium.spec_repr() == 2); }
        if n == 3 { assert(PanasonicBatteryLevel::Low.spec_repr() == 3); }
        if n == 4 { assert(PanasonicBatteryLevel::NearEmpty.spec_repr() == 4); }
        if n == 7 { assert(PanasonicBatteryLevel::NearFull.spec_repr() == 7); }
        if n == 8 { assert(PanasonicBatteryLevel::MediumLow.spec_repr() == 8); }
        if n == 256 { assert(PanasonicBatteryLevel::NA.spec_repr() == 256); }
        if has_label(kind, n) {
            let t = choose|t: &'static str| is_label(kind, n, t) && s@ == t@;
            let e = choose|e: PanasonicBatteryLevel| e.spec_repr() == n && e.spec_label() == t;
            crate::make_note::panasonic::lemma_battery_level_labels(e);
        }
    }
}

/// A Panasonic (or Leica) field of tag 0x0042 whose first number is a
/// stored setting shows as that setting's text.
pub proof fn lemma_panasonic_film_mode_display(v: Value, r: Option<String>, n: u32)
    requires
        custom_display_ok(spec_display_kind(MakerTag { vendor: MakerNoteVendor::Panasonic, number: 0x0042 }), v, r),
        v.spec_get_uint(0) == Some(n),
    ensures
        n == 0 ==> (r matches Some(s) && s@ == "n/a"@),
        n == 1 ==> (r matches Some(s) && s@ == "Standard (color)"@),
        n == 2 ==> (r matches Some(s) && s@ == "Dynamic (color)"@),
        n == 3 ==> (r matches Some(s) && s@ == "Nature (color)"@),
        n == 4 ==> (r matches Some(s) && s@ == "Smooth (color)"@),
        n == 5 ==> (r matches Some(s) && s@ == "Standard (B&W)"@),
        n == 6 ==> (r matches Some(s) && s@ == "Dynamic (B&W)"@),
        n == 7 ==> (r matches Some(s) && s@ == "Smooth (B&W)"@),
        n == 10 ==> (r matches Some(s) && s@ == "Nostalgic"@),
        n == 11 ==> (r matches Some(s) && s@ == "Vibrant"@),
{
    let kind = spec_display_kind(MakerTag { vendor: MakerNoteVendor::Panasonic, number: 0x0042 });
    if let Some(s) = r {
        if n == 0 { assert(PanasonicFilmMode::NA.spec_repr() == 0); }
        if n == 1 { assert(PanasonicFilmMode::StandardColor.spec_repr() == 1); }
        if n == 2 { assert(PanasonicFilmMode::DynamicColor.spec_repr() == 2); }
        if n == 3 { assert(PanasonicFilmMode::NatureColor.spec_repr() == 3); }
        if n == 4 { assert(PanasonicFilmMode::SmoothColor.spec_repr() == 4); }
        if n == 5 { assert(PanasonicFilmMode::StandardBW.spec_repr() == 5); }
        if n == 6 { assert(PanasonicFilmMode::DynamicBW.spec_repr() == 6); }
        if n == 7 { assert(PanasonicFilmMode::SmoothBW.spec_repr() == 7); }
        if n == 10 { assert(PanasonicFilmMode::Nostalgic.spec_repr() == 10); }
        if n == 11 { assert(PanasonicFilmMode::Vibrant.spec_repr() == 11); }
        if has_label(kind, n) {
            let t = choose|t: &'static str| is_label(kind, n, t) && s@ == t@;
            let e = choose|e: PanasonicFilmMode| e.spec_repr() == n && e.spec_label() == t;
            crate::make_note::panasonic::lemma_film_mode_labels(e);
        }
    }
}

/// A Panasonic (or Leica) field of tag 0x0043 whose first number is a
/// stored setting shows as that setting's text.
pub proof fn lemma_panasonic_jpeg_quality_display(v: Value, r: Option<String>, n: u32)
    requires
        custom_display_ok(spec_display_kind(MakerTag { vendor: MakerNoteVendor::Panasonic, number: 0x0043 }), v, r),
        v.spec_get_uint(0) == Some(n),
    ensures
        n == 0 ==> (r matches Some(s) && s@ == "n/a (Movie)"@),
        n == 2 ==> (r matches Some(s) && s@ == "High"@),
        n == 3 ==> (r matches Some(s) && s@ == "Standard"@),
        n == 6 ==> (r matches Some(s) && s@ == "Very High"@),
        n == 255 ==> (r matches Some(s) && s@ == "n/a (RAW only)"@),
{
    let kind = spec_display_kind(MakerTag { vendor: MakerNoteVendor::Panasonic, number: 0x0043 });
    if let Some(s) = r {
        if n == 0 { assert(PanasonicJPEGQuality::NA.spec_repr() == 0); }
        if n == 2 { assert(PanasonicJPEGQuality::StandardColor.spec_repr() == 2); }
        if n == 3 { assert(PanasonicJPEGQuality::DynamicColor.spec_repr() == 3); }
        if n == 6 { assert(PanasonicJPEGQuality::NatureColor.spec_repr() == 6); }
        if n == 255 { assert(PanasonicJPEGQuality::SmoothColor.spec_repr() == 255); }
        if has_label(kind, n) {
            let t = choose|t: &'static str| is_label(kind, n, t) && s@ == t@;
            let e = choose|e: PanasonicJPEGQuality| e.spec_repr() == n && e.spec_label() == t;
            crate::make_note::panasonic::lemma_jpeg_quality_labels(e);
        }
    }
}

/// A Panasonic (or Leica) field of tag 0x0070 whose first number is a
/// stored setting shows as that setting's text.
pub proof fn lemma_panasonic_intelligent_resolution_display(v: Value, r: Option<String>, n: u32)
    requires
        custom_display_ok(spec_display_kind(MakerTag { vendor: MakerNoteVendor::Panasonic, number: 0x0070 }), v, r),
        v.spec_get_uint(0) == Some(n),
    ensures
        n == 0 ==> (r matches Some(s) && s@ == "Off"@),
        n == 1 ==> (r matches Some(s) && s@ == "Low"@),
        n == 2 ==> (r matches Some(s) && s@ == "Standard"@),
        n == 3 ==> (r matches Some(s) && s@ == "High"@),
        n == 4 ==> (r matches Some(s) && s@ == "Extended"@),
{
    let kind = spec_display_kind(MakerTag { vendor: MakerNoteVendor::Panasonic, number: 0x0070 });
    if let Some(s) = r {
        if n == 0 { assert(PanasonicIntelligentResolution::Off.spec_repr() == 0); }
        if n == 1 { assert(PanasonicIntelligentResolution::Low.spec_repr() == 1); }
        if n == 2 { assert(PanasonicIntelligentResolution::Standard.spec_repr() == 2); }
        if n == 3 { assert(PanasonicIntelligentResolution::High.spec_repr() == 3); }
        if n == 4 { assert(PanasonicIntelligentResolution::Extended.spec_repr() == 4); }
        if has_label(kind, n) {
            let t = choose|t: &'static str| is_label(kind, n, t) && s@ == t@;
            let e = choose|e: PanasonicIntelligentResolution| e.spec_repr() == n && e.spec_label() == t;
            crate::make_note::panasonic::lemma_intelligent_resolution_labels(e);
        }
    }
}

/// A Panasonic (or Leica) field of tag 0x0079 whose first number is a
/// stored setting shows as that setting's text.
pub proof fn lemma_panasonic_intelligent_d_range_display(v: Value, r: Option<String>, n: u32)
    requires
        custom_display_ok(spec_display_kind(MakerTag { vendor: MakerNoteVendor::Panasonic, number: 0x0079 }), v, r),
        v.spec_get_uint(0) == Some(n),
    ensures
        n == 0 ==> (r matches Some(s) && s@ == "Off"@),
        n == 1 ==> (r matches Some(s) && s@ == "Low"@),
        n == 2 ==> (r matches Some(s) && s@ == "Standard"@),
        n == 3 ==> (r matches Some(s) && s@ == "High"@),
{
    let kind = spec_display_kind(MakerTag { vendor: MakerNoteVendor::Panasonic, number: 0x0079 });
    if let Some(s) = r {
        if n == 0 { assert(PanasonicIntelligentDRange::Off.spec_repr() == 0); }
        if n == 1 { assert(PanasonicIntelligentDRange::Low.spec_repr() == 1); }
        if n == 2 { assert(PanasonicIntelligentDRange::Standard.spec_repr() == 2); }
        if n == 3 { assert(PanasonicIntelligentDRange::High.spec_repr() == 3); }
        if has_label(kind, n) {
            let t = choose|t: &'static str| is_label(kind, n, t) && s@ == t@;
            let e = choose|e: PanasonicIntelligentDRange| e.spec_repr() == n && e.spec_label() == t;
            crate::make_note::panasonic::lemma_intelligent_d_range_labels(e);
        }
    }
}

/// A Panasonic (or Leica) field of tag 0x0089 whose first number is a
/// stored setting shows as that setting's text.
pub proof fn lemma_panasonic_photo_style_display(v: Value, r: Option<String>, n: u32)
    requires
        custom_display_ok(spec_display_kind(MakerTag { vendor: MakerNoteVendor::Panasonic, number: 0x0089 }), v, r),
        v.spec_get_uint(0) == Some(n),
    ensures
        n == 0 ==> (r matches Some(s) && s@ == "Auto"@),
        n == 1 ==> (r matches Some(s) && s@ == "Standard or Custom"@),
        n == 2 ==> (r matches Some(s) && s@ == "Vivid"@),
        n == 3 ==> (r matches Some(s) && s@ == "Natural"@),
        n == 4 ==> (r matches Some(s) && s@ == "Monochrome"@),
        n == 5 ==> (r matches Some(s) && s@ == "Scenery"@),
        n == 6 ==> (r matches Some(s) && s@ == "Portrait"@),
        n == 8 ==> (r matches Some(s) && s@ == "Cinelike D"@),
        n == 9 ==> (r matches Some(s) && s@ == "Cinelike V"@),
        n == 11 ==> (r matches Some(s) && s@ == "L. Monochrome"@),
        n == 12 ==> (r matches Some(s) && s@ == "Like709"@),
        n == 15 ==> (r matches Some(s) && s@ == "L. Monochrome D"@),
        n == 17 ==> (r matches Some(s) && s@ == "V-Log"@),
        n == 18 ==> (r matches Some(s) && s@ == "Cinelike D2"@),
{
    let kind = spec_display_kind(MakerTag { vendor: MakerNoteVendor::Panasonic, number: 0x0089 });
    if let Some(s) = r {
        if n == 0 { assert(PanasonicPhotoStyle::Auto.spec_repr() == 0); }
        if n == 1 { assert(PanasonicPhotoStyle::StandardOrCustom.spec_repr() == 1); }
        if n == 2 { assert(PanasonicPhotoStyle::Vivid.spec_repr() == 2); }
        if n == 3 { assert(PanasonicPhotoStyle::Natural.spec_repr() == 3); }
        if n == 4 { assert(PanasonicPhotoStyle::Monochrome.spec_repr() == 4); }
        if n == 5 { assert(PanasonicPhotoStyle::Scenery.spec_repr() == 5); }
        if n == 6 { assert(PanasonicPhotoStyle::Portrait.spec_repr() == 6); }
        if n == 8 { assert(PanasonicPhotoStyle::CinelikeD.spec_repr() == 8); }
        if n == 9 { assert(PanasonicPhotoStyle::CinelikeV.spec_repr() == 9); }
        if n == 11 { assert(PanasonicPhotoStyle::LMonochrome.spec_repr() == 11); }
        if n == 12 { assert(PanasonicPhotoStyle::Like709.spec_repr() == 12); }
        if n == 15 { assert(PanasonicPhotoStyle::LMonochromeD.spec_repr() == 15); }
        if n == 17 { assert(PanasonicPhotoStyle::VLog.spec_repr() == 17); }
        if n == 18 { assert(PanasonicPhotoStyle::CinelikeD2.spec_repr() == 18); }
        if has_label(kind, n) {
            let t = choose|t: &'static str| is_label(kind, n, t) && s@ == t@;
            let e = choose|e: PanasonicPhotoStyle| e.spec_repr() == n && e.spec_label() == t;
            crate::make_note::panasonic::lemma_photo_style_labels(e);
        }
    }
}

/// A Panasonic (or Leica) field of tag 0x0093 whose first number is a
/// stored setting shows as that setting's text.
pub proof fn lemma_panasonic_sweep_panorama_direction_display(v: Value, r: Option<String>, n: u32)
    requires
        custom_display_ok(spec_display_kind(MakerTag { vendor: MakerNoteVendor::Panasonic, number: 0x0093 }), v, r),
        v.spec_get_uint(0) == Some(n),
    ensures
        n == 0 ==> (r matches Some(s) && s@ == "Off"@),
        n == 1 ==> (r matches Some(s) && s@ == "Left to Right"@),
        n == 2 ==> (r matches Some(s) && s@ == "Right to Left"@),
        n == 3 ==> (r matches Some(s) && s@ == "Top to Bottom"@),
        n == 4 ==> (r matches Some(s) && s@ == "Bottom to Top"@),
{
    let kind = spec_display_kind(MakerTag { vendor: MakerNoteVendor::Panasonic, number: 0x0093 });
    if let Some(s) = r {
        if n == 0 { assert(PanasonicSweepPanoramaDirection::Off.spec_repr() == 0); }
        if n == 1 { assert(PanasonicSweepPanoramaDirection::LeftToRight.spec_repr() == 1); }
        if n == 2 { assert(PanasonicSweepPanoramaDirection::RightToLeft.spec_repr() == 2); }
        if n == 3 { assert(PanasonicSweepPanoramaDirection::TopToBottom.spec_repr() == 3); }
        if n == 4 { assert(PanasonicSweepPanoramaDirection::BottomToTop.spec_repr() == 4); }
        if has_label(kind, n) {
            let t = choose|t: &'static str| is_label(kind, n, t) && s@ == t@;
            let e = choose|e: PanasonicSweepPanoramaDirection| e.spec_repr() == n && e.spec_label() == t;
            crate::make_note::panasonic::lemma_sweep_panorama_direction_labels(e);
        }
    }
}

/// A Panasonic (or Leica) field of tag 0x00e9 whose first number is a
/// stored setting shows as that setting's text.
pub proof fn lemma_panasonic_af_subject_detection_display(v: Value, r: Option<String>, n: u32)
    requires
        custom_display_ok(spec_display_kind(MakerTag { vendor: MakerNoteVendor::Panasonic, number: 0x00e9 }), v, r),
        v.spec_get_uint(0) == Some(n),
    ensures
        n == 0 ==> (r matches Some(s) && s@ == "n/a"@),
        n == 1 ==> (r matches Some(s) && s@ == "Human Eye/Face/Body"@),
        n == 2 ==> (r matches Some(s) && s@ == "Animal"@),
        n == 3 ==> (r matches Some(s) && s@ == "Human Eye/Face"@),
        n == 4 ==> (r matches Some(s) && s@ == "Animal Body"@),
        n == 5 ==> (r matches Some(s) && s@ == "Animal Eye/Body"@),
        n == 6 ==> (r matches Some(s) && s@ == "Car"@),
        n == 7 ==> (r matches Some(s) && s@ == "Motorcycle"@),
        n == 8 ==> (r matches Some(s) && s@ == "Car (main part priority)"@),
        n == 9 ==> (r matches Some(s) && s@ == "Motorcycle (helmet priority)"@),
        n == 10 ==> (r matches Some(s) && s@ == "Train"@),
{
    let kind = spec_display_kind(MakerTag { vendor: MakerNoteVendor::Panasonic, number: 0x00e9 });
    if let Some(s) = r {
        if n == 0 { assert(PanasonicAFSubjectDetection::NA.spec_repr() == 0); }
        if n == 1 { assert(PanasonicAFSubjectDetection::HumanEyeFaceBody.spec_repr() == 1); }
        if n == 2 { assert(PanasonicAFSubjectDetection::Animal.spec_repr() == 2); }
        if n == 3 { assert(PanasonicAFSubjectDetection::HumanEyeFace.spec_repr() == 3); }
        if n == 4 { assert(PanasonicAFSubjectDetection::AnimalBody.spec_repr() == 4); }
        if n == 5 { assert(PanasonicAFSubjectDetection::AnimalEyeBody.spec_repr() == 5); }
        if n == 6 { assert(PanasonicAFSubjectDetection::Car.spec_repr() == 6); }
        if n == 7 { assert(PanasonicAFSubjectDetection::Motorcycle.spec_repr() == 7); }
        if n == 8 { assert(PanasonicAFSubjectDetection::CarMainPriority.spec_repr() == 8); }
        if n == 9 { assert(PanasonicAFSubjectDetection::MotorcycleHelmetPriority.spec_repr() == 9); }
        if n == 10 { assert(PanasonicAFSubjectDetection::Train.spec_repr() == 10); }
        if has_label(kind, n) {
            let t = choose|t: &'static str| is_label(kind, n, t) && s@ == t@;
            let e = choose|e: PanasonicAFSubjectDetection| e.spec_repr() == n && e.spec_label() == t;
            crate::make_note::panasonic::lemma_af_subject_detection_labels(e);
        }
    }
}

/// What each vendor's MakerNote header takes: the bytes of the header
/// skipped, the number subtracted from every value offset (the header
/// less the eight bytes of a TIFF header the vendor's offsets count from;
/// none for Nikon, whose block holds its own TIFF header), and whether
/// offsets count from the file's TIFF header.
pub proof fn lemma_vendor_header_table(v: MakerNoteVendor)
    ensures
        v == MakerNoteVendor::Panasonic ==> v.spec_header_size() == 12 && v.spec_offset_correction() == 4 && v.spec_consider_tiff_offset() == true,
        v == MakerNoteVendor::Nikon ==> v.spec_header_size() == 10 && v.spec_offset_correction() == 0 && v.spec_consider_tiff_offset() == false,
        v == MakerNoteVendor::Canon ==> v.spec_header_size() == 0 && v.spec_offset_correction() == -8 && v.spec_consider_tiff_offset() == true,
        v == MakerNoteVendor::Sony ==> v.spec_header_size() == 12 && v.spec_offset_correction() == 4 && v.spec_consider_tiff_offset() == true,
        v == MakerNoteVendor::Olympus ==> v.spec_header_size() == 12 && v.spec_offset_correction() == 4 && v.spec_consider_tiff_offset() == false,
        v == MakerNoteVendor::OMSystem ==> v.spec_header_size() == 16 && v.spec_offset_correction() == 8 && v.spec_consider_tiff_offset() == false,
        v == MakerNoteVendor::Fujifilm ==> v.spec_header_size() == 12 && v.spec_offset_correction() == 4 && v.spec_consider_tiff_offset() == false,
        v == MakerNoteVendor::Leica ==> v.spec_header_size() == 8 && v.spec_offset_correction() == 0 && v.spec_consider_tiff_offset() == true,
        v == MakerNoteVendor::Samsung ==> v.spec_header_size() == 0 && v.spec_offset_correction() == -8 && v.spec_consider_tiff_offset() == false,
        v == MakerNoteVendor::Apple ==> v.spec_header_size() == 14 && v.spec_offset_correction() == 6 && v.spec_consider_tiff_offset() == false,
        v == MakerNoteVendor::OlympusEquipment ==> v.spec_header_size() == 0 && v.spec_offset_correction() == 0 && v.spec_consider_tiff_offset() == false,
        v == MakerNoteVendor::OlympusCameraSettings ==> v.spec_header_size() == 0 && v.spec_offset_correction() == 0 && v.spec_consider_tiff_offset() == false,
        v == MakerNoteVendor::OlympusRawDevelopment ==> v.spec_header_size() == 0 && v.spec_offset_correction() == 0 && v.spec_consider_tiff_offset() == false,
        v == MakerNoteVendor::OlympusImageProcessing ==> v.spec_header_size() == 0 && v.spec_offset_correction() == 0 && v.spec_consider_tiff_offset() == false,
        v == MakerNoteVendor::OlympusFocusInfo ==> v.spec_header_size() == 0 && v.spec_offset_correction() == 0 && v.spec_consider_tiff_offset() == false,
        v == MakerNoteVendor::OlympusRawInfo ==> v.spec_header_size() == 0 && v.spec_offset_correction() == 0 && v.spec_consider_tiff_offset() == false,
        v == MakerNoteVendor::Unknown ==> v.spec_header_size() == 0 && v.spec_offset_correction() == 0 && v.spec_consider_tiff_offset() == false,
{
}

/// Which fields a vendor shows in its own way: Panasonic's (and Leica's)
/// face records at 0x004E and strings at 0x0025, 0x0066, 0x00D5, 0x00F1,
/// 0x00F4, 0x0407 and 0x0408; Olympus's (and OM System's) string at
/// 0x0209; Sony's face information at 0x0020 and its Tag9416 record.
/// Every other tag of every other vendor shows in the default way.
pub proof fn lemma_vendor_display_kinds(v: MakerNoteVendor, n: u16)
    ensures
        (v == MakerNoteVendor::Panasonic || v == MakerNoteVendor::Leica) && n == 0x004e
            ==> spec_display_kind(MakerTag { vendor: v, number: n }) == DisplayKind::FaceDetInfo,
        (v == MakerNoteVendor::Panasonic || v == MakerNoteVendor::Leica)
            && (n == 0x0025 || n == 0x0066 || n == 0x00d5 || n == 0x00f1 || n == 0x00f4 || n == 0x0407 || n == 0x0408)
            ==> spec_display_kind(MakerTag { vendor: v, number: n }) == DisplayKind::NulText,
        (v == MakerNoteVendor::Olympus || v == MakerNoteVendor::OMSystem)
            ==> spec_display_kind(MakerTag { vendor: v, number: n }) == (if n == 0x0209 { DisplayKind::NulText } else { DisplayKind::Plain }),
        v == MakerNoteVendor::Sony ==> spec_display_kind(MakerTag { vendor: v, number: n }) == (if n == 0x0020 {
            DisplayKind::SonyFaceInfo
        } else if n == 0x9416 {
            DisplayKind::SonyTag9416
        } else {
            DisplayKind::Plain
        }),
        !(v == MakerNoteVendor::Panasonic || v == MakerNoteVendor::Leica || v == MakerNoteVendor::Olympus
            || v == MakerNoteVendor::OMSystem || v == MakerNoteVendor::Sony)
            ==> spec_display_kind(MakerTag { vendor: v, number: n }) == DisplayKind::Plain,
{
}

} // verus!
