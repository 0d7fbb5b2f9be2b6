use vstd::prelude::*;
use crate::make_note::maker_tag::TagRow;
use crate::bytes::{spec_u16, load_u16};
use crate::fmt::{dec_digits, push_dec, push_bytes};
use crate::util::{ascii_chars, bytes_to_string};
use crate::make_note::panasonic::FACES_WORD;

verus! {

/// Sony Creative Style setting
/// Based on Sony Tag9416 offset 0x0037
/// https://exiftool.org/TagNames/Sony.html#Tag9416
#[derive(Debug, Clone, Copy, PartialEq, Eq, Structural)]
pub enum SonyCreativeStyle {
    Standard,
    Vivid,
    Neutral,
    Portrait,
    Landscape,
    BW,
    Clear,
    Deep,
    Light,
    Sunset,
    NightView,
    AutumnLeaves,
    Sepia,
    FL,
    VV2,
    IN,
    SH,
    FL2,
    FL3,
    Off,
}

impl SonyCreativeStyle {
    /// The number the MakerNote stores for the setting.
    pub open spec fn spec_repr(self) -> u8 {
        match self {
            SonyCreativeStyle::Standard => 0x0,
            SonyCreativeStyle::Vivid => 0x1,
            SonyCreativeStyle::Neutral => 0x2,
            SonyCreativeStyle::Portrait => 0x3,
            SonyCreativeStyle::Landscape => 0x4,
            SonyCreativeStyle::BW => 0x5,
            SonyCreativeStyle::Clear => 0x6,
            SonyCreativeStyle::Deep => 0x7,
            SonyCreativeStyle::Light => 0x8,
            SonyCreativeStyle::Sunset => 0x9,
            SonyCreativeStyle::NightView => 0xa,
            SonyCreativeStyle::AutumnLeaves => 0xb,
            SonyCreativeStyle::Sepia => 0xd,
            SonyCreativeStyle::FL => 0xf,
            SonyCreativeStyle::VV2 => 0x10,
            SonyCreativeStyle::IN => 0x11,
            SonyCreativeStyle::SH => 0x12,
            SonyCreativeStyle::FL2 => 0x13,
            SonyCreativeStyle::FL3 => 0x14,
            SonyCreativeStyle::Off => 0xff,
        }
    }

    /// The text the setting is shown as.
    pub open spec fn spec_label(self) -> &'static str {
        match self {
            SonyCreativeStyle::Standard => "Standard",
            SonyCreativeStyle::Vivid => "Vivid",
            SonyCreativeStyle::Neutral => "Neutral",
            SonyCreativeStyle::Portrait => "Portrait",
            SonyCreativeStyle::Landscape => "Landscape",
            SonyCreativeStyle::BW => "B&W",
            SonyCreativeStyle::Clear => "Clear",
            SonyCreativeStyle::Deep => "Deep",
            SonyCreativeStyle::Light => "Light",
            SonyCreativeStyle::Sunset => "Sunset",
            SonyCreativeStyle::NightView => "Night View/Portrait",
            SonyCreativeStyle::AutumnLeaves => "Autumn Leaves",
            SonyCreativeStyle::Sepia => "Sepia",
            SonyCreativeStyle::FL => "FL",
            SonyCreativeStyle::VV2 => "VV2",
            SonyCreativeStyle::IN => "IN",
            SonyCreativeStyle::SH => "SH",
            SonyCreativeStyle::FL2 => "FL2",
            SonyCreativeStyle::FL3 => "FL3",
            SonyCreativeStyle::Off => "Off",
        }
    }

    /// Returns the setting the MakerNote number `v` stands for, if any.
    pub fn from_repr(v: u8) -> (r: Option<SonyCreativeStyle>)
        ensures
            match r {
                Some(e) => e.spec_repr() == v,
                None => forall|e: SonyCreativeStyle| #[trigger] e.spec_repr() != v,
            },
    {
        match v {
            0x0 => Some(SonyCreativeStyle::Standard),
            0x1 => Some(SonyCreativeStyle::Vivid),
            0x2 => Some(SonyCreativeStyle::Neutral),
            0x3 => Some(SonyCreativeStyle::Portrait),
            0x4 => Some(SonyCreativeStyle::Landscape),
            0x5 => Some(SonyCreativeStyle::BW),
            0x6 => Some(SonyCreativeStyle::Clear),
            0x7 => Some(SonyCreativeStyle::Deep),
            0x8 => Some(SonyCreativeStyle::Light),
            0x9 => Some(SonyCreativeStyle::Sunset),
            0xa => Some(SonyCreativeStyle::NightView),
            0xb => Some(SonyCreativeStyle::AutumnLeaves),
            0xd => Some(SonyCreativeStyle::Sepia),
            0xf => Some(SonyCreativeStyle::FL),
            0x10 => Some(SonyCreativeStyle::VV2),
            0x11 => Some(SonyCreativeStyle::IN),
            0x12 => Some(SonyCreativeStyle::SH),
            0x13 => Some(SonyCreativeStyle::FL2),
            0x14 => Some(SonyCreativeStyle::FL3),
            0xff => Some(SonyCreativeStyle::Off),
            _ => None,
        }
    }

    /// Returns the number the MakerNote stores for the setting.
    pub fn repr(&self) -> (r: u8)
        ensures
            r == self.spec_repr(),
    {
        match self {
            SonyCreativeStyle::Standard => 0x0,
            SonyCreativeStyle::Vivid => 0x1,
            SonyCreativeStyle::Neutral => 0x2,
            SonyCreativeStyle::Portrait => 0x3,
            SonyCreativeStyle::Landscape => 0x4,
            SonyCreativeStyle::BW => 0x5,
            SonyCreativeStyle::Clear => 0x6,
            SonyCreativeStyle::Deep => 0x7,
            SonyCreativeStyle::Light => 0x8,
            SonyCreativeStyle::Sunset => 0x9,
            SonyCreativeStyle::NightView => 0xa,
            SonyCreativeStyle::AutumnLeaves => 0xb,
            SonyCreativeStyle::Sepia => 0xd,
            SonyCreativeStyle::FL => 0xf,
            SonyCreativeStyle::VV2 => 0x10,
            SonyCreativeStyle::IN => 0x11,
            SonyCreativeStyle::SH => 0x12,
            SonyCreativeStyle::FL2 => 0x13,
            SonyCreativeStyle::FL3 => 0x14,
            SonyCreativeStyle::Off => 0xff,
        }
    }

    /// Returns the text the setting is shown as.
    pub fn label(&self) -> (r: &'static str)
        ensures
            r == self.spec_label(),
    {
        match self {
            SonyCreativeStyle::Standard => "Standard",
            SonyCreativeStyle::Vivid => "Vivid",
            SonyCreativeStyle::Neutral => "Neutral",
            SonyCreativeStyle::Portrait => "Portrait",
            SonyCreativeStyle::Landscape => "Landscape",
            SonyCreativeStyle::BW => "B&W",
            SonyCreativeStyle::Clear => "Clear",
            SonyCreativeStyle::Deep => "Deep",
            SonyCreativeStyle::Light => "Light",
            SonyCreativeStyle::Sunset => "Sunset",
            SonyCreativeStyle::NightView => "Night View/Portrait",
            SonyCreativeStyle::AutumnLeaves => "Autumn Leaves",
            SonyCreativeStyle::Sepia => "Sepia",
            SonyCreativeStyle::FL => "FL",
            SonyCreativeStyle::VV2 => "VV2",
            SonyCreativeStyle::IN => "IN",
            SonyCreativeStyle::SH => "SH",
            SonyCreativeStyle::FL2 => "FL2",
            SonyCreativeStyle::FL3 => "FL3",
            SonyCreativeStyle::Off => "Off",
        }
    }

    /// Reads the setting from the first byte of `data`.
    pub fn raw_parse(data: &[u8], le: Option<bool>) -> (r: Option<SonyCreativeStyle>)
        ensures
            match r {
                Some(e) => data@.len() >= 1 && e.spec_repr() == data@[0],
                None => data@.len() < 1 || forall|e: SonyCreativeStyle| #[trigger] e.spec_repr() != data@[0],
            },
    {
        if data.len() < 1 {
            return None;
        }
        SonyCreativeStyle::from_repr(data[0])
    }
}

/// Sony Lens Mount type
/// Offset 0x0048, 0x004a
#[derive(Debug, Clone, Copy, PartialEq, Eq, Structural)]
pub enum SonyLensMount {
    Unknown,
    AMount,
    EMount,
    AMount3,
}

impl SonyLensMount {
    /// The number the MakerNote stores for the setting.
    pub open spec fn spec_repr(self) -> u8 {
        match self {
            SonyLensMount::Unknown => 0x0,
            SonyLensMount::AMount => 0x1,
            SonyLensMount::EMount => 0x2,
            SonyLensMount::AMount3 => 0x3,
        }
    }

    /// The text the setting is shown as.
    pub open spec fn spec_label(self) -> &'static str {
        match self {
            SonyLensMount::Unknown => "Unknown",
            SonyLensMount::AMount => "A-mount",
            SonyLensMount::EMount => "E-mount",
            SonyLensMount::AMount3 => "A-mount (3)",
        }
    }

    /// Returns the setting the MakerNote number `v` stands for, if any.
    pub fn from_repr(v: u8) -> (r: Option<SonyLensMount>)
        ensures
            match r {
                Some(e) => e.spec_repr() == v,
                None => forall|e: SonyLensMount| #[trigger] e.spec_repr() != v,
            },
    {
        match v {
            0x0 => Some(SonyLensMount::Unknown),
            0x1 => Some(SonyLensMount::AMount),
            0x2 => Some(SonyLensMount::EMount),
            0x3 => Some(SonyLensMount::AMount3),
            _ => None,
        }
    }

    /// Returns the number the MakerNote stores for the setting.
    pub fn repr(&self) -> (r: u8)
        ensures
            r == self.spec_repr(),
    {
        match self {
            SonyLensMount::Unknown => 0x0,
            SonyLensMount::AMount => 0x1,
            SonyLensMount::EMount => 0x2,
            SonyLensMount::AMount3 => 0x3,
        }
    }

    /// Returns the text the setting is shown as.
    pub fn label(&self) -> (r: &'static str)
        ensures
            r == self.spec_label(),
    {
        match self {
            SonyLensMount::Unknown => "Unknown",
            SonyLensMount::AMount => "A-mount",
            SonyLensMount::EMount => "E-mount",
            SonyLensMount::AMount3 => "A-mount (3)",
        }
    }

    /// Reads the setting from the first byte of `data`.
    pub fn raw_parse(data: &[u8], le: Option<bool>) -> (r: Option<SonyLensMount>)
        ensures
            match r {
                Some(e) => data@.len() >= 1 && e.spec_repr() == data@[0],
                None => data@.len() < 1 || forall|e: SonyLensMount| #[trigger] e.spec_repr() != data@[0],
            },
    {
        if data.len() < 1 {
            return None;
        }
        SonyLensMount::from_repr(data[0])
    }
}

/// Sony Lens Format
/// Offset 0x0049
#[derive(Debug, Clone, Copy, PartialEq, Eq, Structural)]
pub enum SonyLensFormat {
    Unknown,
    APSC,
    FullFrame,
}

impl SonyLensFormat {
    /// The number the MakerNote stores for the setting.
    pub open spec fn spec_repr(self) -> u8 {
        match self {
            SonyLensFormat::Unknown => 0x0,
            SonyLensFormat::APSC => 0x1,
            SonyLensFormat::FullFrame => 0x2,
        }
    }

    /// The text the setting is shown as.
    pub open spec fn spec_label(self) -> &'static str {
        match self {
            SonyLensFormat::Unknown => "Unknown",
            SonyLensFormat::APSC => "APS-C",
            SonyLensFormat::FullFrame => "Full-frame",
        }
    }

    /// Returns the setting the MakerNote number `v` stands for, if any.
    pub fn from_repr(v: u8) -> (r: Option<SonyLensFormat>)
        ensures
            match r {
                Some(e) => e.spec_repr() == v,
                None => forall|e: SonyLensFormat| #[trigger] e.spec_repr() != v,
            },
    {
        match v {
            0x0 => Some(SonyLensFormat::Unknown),
            0x1 => Some(SonyLensFormat::APSC),
            0x2 => Some(SonyLensFormat::FullFrame),
            _ => None,
        }
    }

    /// Returns the number the MakerNote stores for the setting.
    pub fn repr(&self) -> (r: u8)
        ensures
            r == self.spec_repr(),
    {
        match self {
            SonyLensFormat::Unknown => 0x0,
            SonyLensFormat::APSC => 0x1,
            SonyLensFormat::FullFrame => 0x2,
        }
    }

    /// Returns the text the setting is shown as.
    pub fn label(&self) -> (r: &'static str)
        ensures
            r == self.spec_label(),
    {
        match self {
            SonyLensFormat::Unknown => "Unknown",
            SonyLensFormat::APSC => "APS-C",
            SonyLensFormat::FullFrame => "Full-frame",
        }
    }

    /// Reads the setting from the first byte of `data`.
    pub fn raw_parse(data: &[u8], le: Option<bool>) -> (r: Option<SonyLensFormat>)
        ensures
            match r {
                Some(e) => data@.len() >= 1 && e.spec_repr() == data@[0],
                None => data@.len() < 1 || forall|e: SonyLensFormat| #[trigger] e.spec_repr() != data@[0],
            },
    {
        if data.len() < 1 {
            return None;
        }
        SonyLensFormat::from_repr(data[0])
    }
}

/// Sony's Tag9416 record: the creative style, lens mount and format, and
/// the focal lengths in tenths of a millimetre (where non-zero).
#[derive(Debug, Clone, Copy, PartialEq, Eq, Structural)]
pub struct SonyTag9416 {
    /// Creative Style preset (offset 0x0037).
    pub creative_style: SonyCreativeStyle,
    /// Lens mount type (offset 0x0048).
    pub lens_mount: Option<SonyLensMount>,
    /// Lens format (offset 0x0049).
    pub lens_format: Option<SonyLensFormat>,
    /// Focal length in tenths of a millimetre (offset 0x0071).
    pub focal_length: Option<u16>,
    /// Shortest focal length in tenths of a millimetre (offset 0x0073).
    pub min_focal_length: Option<u16>,
    /// Longest focal length in tenths of a millimetre (offset 0x0075).
    pub max_focal_length: Option<u16>,
}

/// The fewest bytes a Tag9416 record has.
pub const SONY_9416_MIN_LEN: usize = 0x76;

/// The non-zero little-endian 16-bit number at `s[p..]`, where it fits.
pub open spec fn tenths_at(s: Seq<u8>, p: int) -> Option<u16> {
    if p + 2 <= s.len() && spec_u16(s, p, true) > 0 {
        Some(spec_u16(s, p, true) as u16)
    } else {
        None
    }
}

/// Whether `t` is the Tag9416 record `s` holds: its style at 0x37, mount at
/// 0x48 and format at 0x49 where they name a setting, and its focal
/// lengths at 0x71, 0x73 and 0x75.
pub open spec fn sony_9416_record(s: Seq<u8>, t: SonyTag9416) -> bool {
    &&& s.len() >= SONY_9416_MIN_LEN
    &&& t.creative_style.spec_repr() == s[0x37]
    &&& match t.lens_mount {
        Some(m) => m.spec_repr() == s[0x48],
        None => forall|m: SonyLensMount| #[trigger] m.spec_repr() != s[0x48],
    }
    &&& match t.lens_format {
        Some(f) => f.spec_repr() == s[0x49],
        None => forall|f: SonyLensFormat| #[trigger] f.spec_repr() != s[0x49],
    }
    &&& t.focal_length == tenths_at(s, 0x71)
    &&& t.min_focal_length == tenths_at(s, 0x73)
    &&& t.max_focal_length == tenths_at(s, 0x75)
}

/// Whether `s` holds no Tag9416 record: too short, or no creative style.
pub open spec fn no_sony_9416(s: Seq<u8>) -> bool {
    s.len() < SONY_9416_MIN_LEN || forall|e: SonyCreativeStyle| #[trigger] e.spec_repr() != s[0x37]
}

/// No two `SonyCreativeStyle` settings are stored as the same number, so the
/// setting read back from a setting's number is that setting.
pub proof fn lemma_creative_style_repr_injective(a: SonyCreativeStyle, b: SonyCreativeStyle)
    requires
        a.spec_repr() == b.spec_repr(),
    ensures
        a == b,
{
}

/// No two `SonyLensMount` settings are stored as the same number, so the
/// setting read back from a setting's number is that setting.
pub proof fn lemma_lens_mount_repr_injective(a: SonyLensMount, b: SonyLensMount)
    requires
        a.spec_repr() == b.spec_repr(),
    ensures
        a == b,
{
}

/// No two `SonyLensFormat` settings are stored as the same number, so the
/// setting read back from a setting's number is that setting.
pub proof fn lemma_lens_format_repr_injective(a: SonyLensFormat, b: SonyLensFormat)
    requires
        a.spec_repr() == b.spec_repr(),
    ensures
        a == b,
{
}

/// A block holds at most one Tag9416 record.
pub proof fn lemma_sony_9416_unique(s: Seq<u8>, t: SonyTag9416)
    requires
        sony_9416_record(s, t),
    ensures
        forall|u: SonyTag9416| sony_9416_record(s, u) ==> u == t,
{
    assert forall|u: SonyTag9416| sony_9416_record(s, u) implies u == t by {
        lemma_creative_style_repr_injective(u.creative_style, t.creative_style);
        match (u.lens_mount, t.lens_mount) {
            (Some(a), Some(b)) => lemma_lens_mount_repr_injective(a, b),
            _ => {},
        }
        match (u.lens_format, t.lens_format) {
            (Some(a), Some(b)) => lemma_lens_format_repr_injective(a, b),
            _ => {},
        }
    }
}

/// A length in tenths of a millimetre shown with one decimal: `24.5`.
pub open spec fn tenths_text(v: u16) -> Seq<char> {
    ascii_chars(dec_digits((v / 10) as nat) + seq![0x2eu8] + dec_digits((v % 10) as nat))
}

/// The record shown as `CreativeStyle:..., LensMount:..., LensFormat:...,
/// FocalLength:...mm, FocalRange:...-...mm`, each part after the first
/// where it is known, the range where it is a range.
pub open spec fn sony_9416_text(t: SonyTag9416) -> Seq<char> {
    "CreativeStyle:"@ + t.creative_style.spec_label()@
        + match t.lens_mount { Some(m) => ", LensMount:"@ + m.spec_label()@, None => seq![] }
        + match t.lens_format { Some(f) => ", LensFormat:"@ + f.spec_label()@, None => seq![] }
        + match t.focal_length { Some(v) => ", FocalLength:"@ + tenths_text(v) + "mm"@, None => seq![] }
        + match (t.min_focal_length, t.max_focal_length) {
            (Some(a), Some(b)) => if a != b {
                ", FocalRange:"@ + tenths_text(a) + "-"@ + tenths_text(b) + "mm"@
            } else {
                seq![]
            },
            _ => seq![],
        }
}

/// Appends a length in tenths of a millimetre, with one decimal.
fn append_tenths(out: &mut String, v: u16)
    ensures
        final(out)@ == old(out)@ + tenths_text(v),
{
    let mut b: Vec<u8> = Vec::new();
    push_dec(&mut b, (v / 10) as u64);
    b.push(0x2e);
    push_dec(&mut b, (v % 10) as u64);
    let t = bytes_to_string(b.as_slice());
    out.append(t.as_str());
    assert(b@ =~= dec_digits((v / 10) as nat) + seq![0x2eu8] + dec_digits((v % 10) as nat));
}

/// The non-zero little-endian 16-bit number at `data[p..]`, where it fits.
fn read_tenths(data: &[u8], p: usize) -> (r: Option<u16>)
    requires
        p <= 0x100,
    ensures
        r == tenths_at(data@, p as int),
{
    if p + 2 > data.len() {
        return None;
    }
    let v = load_u16(data, p, true);
    if v > 0 { Some(v) } else { None }
}

impl SonyTag9416 {
    /// Reads the record from `data`: `None` where it is shorter than 0x76
    /// bytes or its creative style is none Sony names.
    pub fn raw_parse(data: &[u8], le: Option<bool>) -> (r: Option<SonyTag9416>)
        ensures
            match r {
                Some(t) => sony_9416_record(data@, t),
                None => no_sony_9416(data@),
            },
    {
        if data.len() < SONY_9416_MIN_LEN {
            return None;
        }
        let creative_style = match SonyCreativeStyle::from_repr(data[0x37]) {
            Some(c) => c,
            None => return None,
        };
        let lens_mount = SonyLensMount::from_repr(data[0x48]);
        let lens_format = SonyLensFormat::from_repr(data[0x49]);
        Some(SonyTag9416 {
            creative_style,
            lens_mount,
            lens_format,
            focal_length: read_tenths(data, 0x71),
            min_focal_length: read_tenths(data, 0x73),
            max_focal_length: read_tenths(data, 0x75),
        })
    }

    /// Returns the record as text.
    #[verifier::rlimit(40)]
    pub fn to_text(&self) -> (r: String)
        ensures
            r@ == sony_9416_text(*self),
    {
        let mut out = String::from_str("CreativeStyle:");
        out.append(self.creative_style.label());
        let ghost a = out@;
        if let Some(m) = self.lens_mount {
            out.append(", LensMount:");
            out.append(m.label());
        }
        let ghost b = out@;
        assert(b =~= a + match self.lens_mount { Some(m) => ", LensMount:"@ + m.spec_label()@, None => seq![] });
        if let Some(f) = self.lens_format {
            out.append(", LensFormat:");
            out.append(f.label());
        }
        let ghost c = out@;
        assert(c =~= b + match self.lens_format { Some(f) => ", LensFormat:"@ + f.spec_label()@, None => seq![] });
        if let Some(v) = self.focal_length {
            out.append(", FocalLength:");
            append_tenths(&mut out, v);
            out.append("mm");
        }
        let ghost d = out@;
        assert(d =~= c + match self.focal_length { Some(v) => ", FocalLength:"@ + tenths_text(v) + "mm"@, None => seq![] });
        match (self.min_focal_length, self.max_focal_length) {
            (Some(lo), Some(hi)) => if lo != hi {
                out.append(", FocalRange:");
                append_tenths(&mut out, lo);
                out.append("-");
                append_tenths(&mut out, hi);
                out.append("mm");
                assert(out@ =~= d + (", FocalRange:"@ + tenths_text(lo) + "-"@ + tenths_text(hi) + "mm"@));
            },
            _ => {},
        }
        assert(out@ =~= sony_9416_text(*self));
        out
    }
}

/// A face as Sony records it, in the full-sized unrotated image with Y
/// increasing downwards.
#[derive(Debug, Clone, Copy, PartialEq, Eq, Structural)]
pub struct SonyFacePosition {
    pub top: u16,
    pub left: u16,
    pub height: u16,
    pub width: u16,
}

/// Sony's face information: how many faces were detected (negative when
/// not applicable), and the positions recorded, at most eight.
#[derive(Debug, Clone, PartialEq)]
pub struct SonyFaceInfo {
    pub faces_detected: i16,
    pub faces: Vec<SonyFacePosition>,
}

/// At most this many face positions are recorded.
pub const MAX_SONY_FACES: i16 = 8;

/// The face recorded in the 8 bytes at `s[p..]`: top, left, height, width.
pub open spec fn sony_face_at(s: Seq<u8>, p: int, le: bool) -> SonyFacePosition {
    SonyFacePosition {
        top: spec_u16(s, p, le) as u16,
        left: spec_u16(s, p + 2, le) as u16,
        height: spec_u16(s, p + 4, le) as u16,
        width: spec_u16(s, p + 6, le) as u16,
    }
}

/// How many of the first `min(detected, 8)` positions fit in `len` bytes:
/// the `i`-th is the 16-bit entries 1 + 5i to 4 + 5i, bytes 2 + 10i to
/// 10 + 10i.
pub open spec fn sony_face_count(len: int, detected: int) -> int {
    let n = if detected < 8 { detected } else { 8 };
    if len < 10 {
        0
    } else if n < (len - 10) / 10 + 1 {
        n
    } else {
        (len - 10) / 10 + 1
    }
}

/// The face information `s` holds: the count, and the positions of up to
/// eight faces as far as they fit (none when the count is negative);
/// `None` where there is no count.
pub open spec fn sony_face_record(s: Seq<u8>, le: bool) -> Option<(i16, Seq<SonyFacePosition>)> {
    if s.len() < 2 {
        None
    } else {
        let d = spec_u16(s, 0, le) as i16;
        Some((d, if d < 0 {
            seq![]
        } else {
            Seq::new(sony_face_count(s.len() as int, d as int) as nat, |i: int| sony_face_at(s, 2 + 10 * i, le))
        }))
    }
}

/// A face shown as `(T:top,L:left widthxheight)`.
pub open spec fn sony_face_text(f: SonyFacePosition) -> Seq<u8> {
    seq![0x28u8, 0x54, 0x3a] + dec_digits(f.top as nat) + seq![0x2cu8, 0x4c, 0x3a] + dec_digits(f.left as nat)
        + seq![0x20u8] + dec_digits(f.width as nat) + seq![0x78u8] + dec_digits(f.height as nat)
        + seq![0x29u8]
}

/// Faces shown one after another, separated by `, `.
pub open spec fn sony_faces_text(fs: Seq<SonyFacePosition>) -> Seq<u8>
    decreases fs.len(),
{
    if fs.len() == 0 {
        seq![]
    } else if fs.len() == 1 {
        sony_face_text(fs[0])
    } else {
        sony_faces_text(fs.drop_last()) + seq![0x2cu8, 0x20] + sony_face_text(fs.last())
    }
}

/// Face information shown as `n/a` when not applicable, otherwise as
/// `N face(s)` followed by the faces in brackets where there are any.
pub open spec fn sony_face_info_text(detected: i16, fs: Seq<SonyFacePosition>) -> Seq<u8> {
    if detected < 0 {
        seq![0x6eu8, 0x2f, 0x61]
    } else {
        dec_digits(detected as nat) + FACES_WORD@ + if fs.len() == 0 {
            seq![]
        } else {
            seq![0x20u8, 0x5b] + sony_faces_text(fs) + seq![0x5du8]
        }
    }
}

fn push_sony_face(out: &mut Vec<u8>, f: SonyFacePosition)
    ensures
        final(out)@ == old(out)@ + sony_face_text(f),
{
    out.push(0x28);
    out.push(0x54);
    out.push(0x3a);
    push_dec(out, f.top as u64);
    out.push(0x2c);
    out.push(0x4c);
    out.push(0x3a);
    push_dec(out, f.left as u64);
    out.push(0x20);
    push_dec(out, f.width as u64);
    out.push(0x78);
    push_dec(out, f.height as u64);
    out.push(0x29);
    assert(final(out)@ =~= old(out)@ + sony_face_text(f));
}

impl SonyFaceInfo {
    /// Reads the face information from `data`, an array of 16-bit entries
    /// (little endian unless `le` is `Some(false)`): entry 0 the number of
    /// faces detected, entries 1 + 5i on the i-th face's position, for at
    /// most eight faces and as many as fit. `None` where there is no count.
    pub fn raw_parse(data: &[u8], le: Option<bool>) -> (r: Option<SonyFaceInfo>)
        ensures
            match r {
                Some(info) => sony_face_record(data@, le != Some(false)) == Some((info.faces_detected, info.faces@)),
                None => sony_face_record(data@, le != Some(false)) is None,
            },
    {
        let little = match le {
            Some(false) => false,
            _ => true,
        };
        if data.len() < 2 {
            return None;
        }
        let d = load_u16(data, 0, little) as i16;
        if d < 0 {
            let faces: Vec<SonyFacePosition> = Vec::new();
            assert(faces@ =~= seq![]);
            return Some(SonyFaceInfo { faces_detected: d, faces });
        }
        let n: i16 = if d < MAX_SONY_FACES { d } else { MAX_SONY_FACES };
        let mut faces: Vec<SonyFacePosition> = Vec::new();
        let mut i: i16 = 0;
        while i < n
            invariant
                0 <= n <= 8,
                n == (if d < 8 { d } else { 8 }),
                0 <= i <= n,
                faces@.len() == i,
                i <= sony_face_count(data@.len() as int, d as int),
                forall|k: int| 0 <= k < i ==> #[trigger] faces@[k] == sony_face_at(data@, 2 + 10 * k, little),
            ensures
                faces@.len() == sony_face_count(data@.len() as int, d as int),
                forall|k: int| 0 <= k < faces@.len() ==> #[trigger] faces@[k] == sony_face_at(data@, 2 + 10 * k, little),
            decreases n - i,
        {
            let p: usize = 2 + 10 * (i as usize);
            if p + 8 > data.len() {
                break;
            }
            let f = SonyFacePosition {
                top: load_u16(data, p, little),
                left: load_u16(data, p + 2, little),
                height: load_u16(data, p + 4, little),
                width: load_u16(data, p + 6, little),
            };
            faces.push(f);
            i = i + 1;
        }
        assert(faces@ =~= Seq::new(sony_face_count(data@.len() as int, d as int) as nat,
            |k: int| sony_face_at(data@, 2 + 10 * k, little)));
        Some(SonyFaceInfo { faces_detected: d, faces })
    }

    /// Returns the face information as text: `n/a`, or `N face(s)` then
    /// `[(T:top,L:left widthxheight), ...]`.
    pub fn to_text(&self) -> (r: String)
        ensures
            r@ == ascii_chars(sony_face_info_text(self.faces_detected, self.faces@)),
    {
        let mut out: Vec<u8> = Vec::new();
        if self.faces_detected < 0 {
            out.push(0x6e);
            out.push(0x2f);
            out.push(0x61);
            assert(out@ =~= sony_face_info_text(self.faces_detected, self.faces@));
            return bytes_to_string(out.as_slice());
        }
        push_dec(&mut out, self.faces_detected as u64);
        push_bytes(&mut out, &FACES_WORD);
        if self.faces.len() > 0 {
            out.push(0x20);
            out.push(0x5b);
            let ghost start = out@;
            let mut i: usize = 0;
            while i < self.faces.len()
                invariant
                    i <= self.faces@.len(),
                    out@ == start + sony_faces_text(self.faces@.subrange(0, i as int)),
                decreases self.faces@.len() - i,
            {
                if i > 0 {
                    out.push(0x2c);
                    out.push(0x20);
                }
                push_sony_face(&mut out, self.faces[i]);
                proof {
                    let sub = self.faces@.subrange(0, i + 1);
                    assert(sub.drop_last() =~= self.faces@.subrange(0, i as int));
                    assert(sub.last() == self.faces@[i as int]);
                    if i == 0 {
                        assert(sony_faces_text(self.faces@.subrange(0, 0)) =~= seq![]);
                    }
                }
                i = i + 1;
                assert(out@ =~= start + sony_faces_text(self.faces@.subrange(0, i as int)));
            }
            out.push(0x5d);
            assert(self.faces@.subrange(0, self.faces@.len() as int) =~= self.faces@);
        }
        assert(out@ =~= sony_face_info_text(self.faces_detected, self.faces@));
        bytes_to_string(out.as_slice())
    }
}

/// Sony MakerNote tags: number, name, description.
pub const SONY_TAGS: [TagRow; 93] = [
    (0x0010, "CameraInfo", "Camera Info"),
    (0x0020, "FocusInfo", "Focus Info"),
    (0x0102, "Quality", "Quality"),
    (0x0104, "FlashExposureComp", "Flash Exposure Comp"),
    (0x0105, "Teleconverter", "Teleconverter"),
    (0x0112, "WhiteBalanceFineTune", "White Balance Fine Tune"),
    (0x0114, "CameraSettings", "Camera Settings"),
    (0x0115, "WhiteBalance", "White Balance"),
    (0x0116, "ExtraInfo", "Extra Info"),
    (0x0e00, "PrintIM", "Print IM"),
    (0x1000, "MultiBurstMode", "Multi Burst Mode"),
    (0x1001, "MultiBurstImageWidth", "Multi Burst Image Width"),
    (0x1002, "MultiBurstImageHeight", "Multi Burst Image Height"),
    (0x1003, "Panorama", "Panorama"),
    (0x2001, "PreviewImage", "Preview Image"),
    (0x2002, "Rating", "Rating"),
    (0x2004, "Contrast", "Contrast"),
    (0x2005, "Saturation", "Saturation"),
    (0x2006, "Sharpness", "Sharpness"),
    (0x2007, "Brightness", "Brightness"),
    (0x2008, "LongExposureNoiseReduction", "Long Exposure Noise Reduction"),
    (0x2009, "HighISONoiseReduction", "High ISO Noise Reduction"),
    (0x200a, "HDR", "HDR"),
    (0x200b, "MultiFrameNoiseReduction", "Multi Frame Noise Reduction"),
    (0x200e, "PictureEffect", "Picture Effect"),
    (0x200f, "SoftSkinEffect", "Soft Skin Effect"),
    (0x2011, "VignettingCorrection", "Vignetting Correction"),
    (0x2012, "LateralChromaticAberration", "Lateral Chromatic Aberration"),
    (0x2013, "DistortionCorrectionSetting", "Distortion Correction Setting"),
    (0x2014, "WBShiftAB_GM", "WB Shift AB GM"),
    (0x2016, "AutoPortraitFramed", "Auto Portrait Framed"),
    (0x2017, "FlashAction", "Flash Action"),
    (0x201a, "ElectronicFrontCurtainShutter", "Electronic Front Curtain Shutter"),
    (0x201b, "FocusMode", "Focus Mode"),
    (0x201c, "AFAreaModeSetting", "AF Area Mode Setting"),
    (0x201d, "FlexibleSpotPosition", "Flexible Spot Position"),
    (0x201e, "AFPointSelected", "AF Point Selected"),
    (0x2020, "AFPointsUsed", "AF Points Used"),
    (0x2021, "AFTracking", "AF Tracking"),
    (0x2022, "FocalPlaneAFPointsUsed", "Focal Plane AF Points Used"),
    (0x2023, "MultiFrameNREffect", "Multi Frame NR Effect"),
    (0x2026, "WBShiftAB_GM_Precise", "WB Shift AB GM Precise"),
    (0x2027, "FocusLocation", "Focus Location"),
    (0x2028, "VariableLowPassFilter", "Variable Low Pass Filter"),
    (0x2029, "RAWFileType", "RAW File Type"),
    (0x202b, "PrioritySetInAWB", "Priority Set In AWB"),
    (0x202c, "MeteringMode2", "Metering Mode 2"),
    (0x202d, "ExposureStandardAdjustment", "Exposure Standard Adjustment"),
    (0x202e, "Quality2", "Quality 2"),
    (0x202f, "PixelShiftInfo", "Pixel Shift Info"),
    (0x2031, "SerialNumber", "Serial Number"),
    (0x2032, "Shadows", "Shadows"),
    (0x2033, "Highlights", "Highlights"),
    (0x2034, "Fade", "Fade"),
    (0x2035, "SharpnessRange", "Sharpness Range"),
    (0x2036, "Clarity", "Clarity"),
    (0x2037, "FocusFrameSize", "Focus Frame Size"),
    (0x2039, "JPEG_HEIFSwitch", "JPEG-HEIF Switch"),
    (0x204a, "FocusLocation2", "Focus Location 2"),
    (0x205c, "StepCropShooting", "Step Crop Shooting"),
    (0x3000, "ShotInfo", "Shot Info"),
    (0x940e, "AFInfo", "AF Info"),
    (0x9416, "Sony_0x9416", "Sony Tag9416"),
    (0xb000, "FileFormat", "File Format"),
    (0xb001, "SonyModelID", "Sony Model ID"),
    (0xb020, "CreativeStyle", "Creative Style"),
    (0xb021, "ColorTemperature", "Color Temperature"),
    (0xb022, "ColorCompensationFilter", "Color Compensation Filter"),
    (0xb023, "SceneMode", "Scene Mode"),
    (0xb024, "ZoneMatching", "Zone Matching"),
    (0xb025, "DynamicRangeOptimizer", "Dynamic Range Optimizer"),
    (0xb026, "ImageStabilization", "Image Stabilization"),
    (0xb027, "LensType", "Lens Type"),
    (0xb028, "MinoltaMakerNote", "Minolta Maker Note"),
    (0xb029, "ColorMode", "Color Mode"),
    (0xb02a, "LensSpec", "Lens Spec"),
    (0xb02b, "FullImageSize", "Full Image Size"),
    (0xb02c, "PreviewImageSize", "Preview Image Size"),
    (0xb040, "Macro", "Macro"),
    (0xb041, "ExposureMode", "Exposure Mode"),
    (0xb042, "FocusMode2", "Focus Mode 2"),
    (0xb043, "AFAreaMode", "AF Area Mode"),
    (0xb044, "AFIlluminator", "AF Illuminator"),
    (0xb047, "JPEGQuality", "JPEG Quality"),
    (0xb048, "FlashLevel", "Flash Level"),
    (0xb049, "ReleaseMode", "Release Mode"),
    (0xb04a, "SequenceNumber", "Sequence Number"),
    (0xb04b, "AntiBlur", "Anti-Blur"),
    (0xb04e, "FocusMode3", "Focus Mode 3"),
    (0xb04f, "DynamicRangeOptimizer2", "Dynamic Range Optimizer 2"),
    (0xb050, "HighISONoiseReduction2", "High ISO Noise Reduction 2"),
    (0xb052, "IntelligentAuto", "Intelligent Auto"),
    (0xb054, "WhiteBalance2", "White Balance 2"),
];

/// The text each stored number of a `SonyCreativeStyle` setting is shown as, and
/// the numbers that name a setting.
pub proof fn lemma_sony_creative_style_labels(e: SonyCreativeStyle)
    ensures
        e.spec_repr() == 0 ==> e.spec_label()@ == "Standard"@,
        e.spec_repr() == 1 ==> e.spec_label()@ == "Vivid"@,
        e.spec_repr() == 2 ==> e.spec_label()@ == "Neutral"@,
        e.spec_repr() == 3 ==> e.spec_label()@ == "Portrait"@,
        e.spec_repr() == 4 ==> e.spec_label()@ == "Landscape"@,
        e.spec_repr() == 5 ==> e.spec_label()@ == "B&W"@,
        e.spec_repr() == 6 ==> e.spec_label()@ == "Clear"@,
        e.spec_repr() == 7 ==> e.spec_label()@ == "Deep"@,
        e.spec_repr() == 8 ==> e.spec_label()@ == "Light"@,
        e.spec_repr() == 9 ==> e.spec_label()@ == "Sunset"@,
        e.spec_repr() == 10 ==> e.spec_label()@ == "Night View/Portrait"@,
        e.spec_repr() == 11 ==> e.spec_label()@ == "Autumn Leaves"@,
        e.spec_repr() == 13 ==> e.spec_label()@ == "Sepia"@,
        e.spec_repr() == 15 ==> e.spec_label()@ == "FL"@,
        e.spec_repr() == 16 ==> e.spec_label()@ == "VV2"@,
        e.spec_repr() == 17 ==> e.spec_label()@ == "IN"@,
        e.spec_repr() == 18 ==> e.spec_label()@ == "SH"@,
        e.spec_repr() == 19 ==> e.spec_label()@ == "FL2"@,
        e.spec_repr() == 20 ==> e.spec_label()@ == "FL3"@,
        e.spec_repr() == 255 ==> e.spec_label()@ == "Off"@,
        e.spec_repr() == 0 || e.spec_repr() == 1 || e.spec_repr() == 2 || e.spec_repr() == 3 || e.spec_repr() == 4 || e.spec_repr() == 5 || e.spec_repr() == 6 || e.spec_repr() == 7 || e.spec_repr() == 8 || e.spec_repr() == 9 || e.spec_repr() == 10 || e.spec_repr() == 11 || e.spec_repr() == 13 || e.spec_repr() == 15 || e.spec_repr() == 16 || e.spec_repr() == 17 || e.spec_repr() == 18 || e.spec_repr() == 19 || e.spec_repr() == 20 || e.spec_repr() == 255,
{
}

/// The text each stored number of a `SonyLensMount` setting is shown as, and
/// the numbers that name a setting.
pub proof fn lemma_sony_lens_mount_labels(e: SonyLensMount)
    ensures
        e.spec_repr() == 0 ==> e.spec_label()@ == "Unknown"@,
        e.spec_repr() == 1 ==> e.spec_label()@ == "A-mount"@,
        e.spec_repr() == 2 ==> e.spec_label()@ == "E-mount"@,
        e.spec_repr() == 3 ==> e.spec_label()@ == "A-mount (3)"@,
        e.spec_repr() == 0 || e.spec_repr() == 1 || e.spec_repr() == 2 || e.spec_repr() == 3,
{
}

/// The text each stored number of a `SonyLensFormat` setting is shown as, and
/// the numbers that name a setting.
pub proof fn lemma_sony_lens_format_labels(e: SonyLensFormat)
    ensures
        e.spec_repr() == 0 ==> e.spec_label()@ == "Unknown"@,
        e.spec_repr() == 1 ==> e.spec_label()@ == "APS-C"@,
        e.spec_repr() == 2 ==> e.spec_label()@ == "Full-frame"@,
        e.spec_repr() == 0 || e.spec_repr() == 1 || e.spec_repr() == 2,
{
}

} // verus!
