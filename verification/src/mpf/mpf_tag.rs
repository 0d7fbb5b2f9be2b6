use vstd::prelude::*;
use crate::bytes::{spec_u16, spec_u32, load_u16, load_u32};
use crate::value::Value;

verus! {

/// An MPF tag identifier (CIPA DC-007-2009).
#[derive(Debug, Copy, Clone, PartialEq, Eq, Structural, PartialOrd, Ord, Hash)]
pub struct MpfTag(pub u16);

#[allow(non_snake_case)]
impl MpfTag {
    /// MPF version (UNDEFINED, 4 bytes).
    pub fn MPFVersion() -> (t: MpfTag) ensures t == MpfTag(0xb000) { MpfTag(0xb000) }
    /// Number of images (LONG, 1).
    pub fn NumberOfImages() -> (t: MpfTag) ensures t == MpfTag(0xb001) { MpfTag(0xb001) }
    /// The individual image entries (UNDEFINED, 16 bytes per entry).
    pub fn MPEntry() -> (t: MpfTag) ensures t == MpfTag(0xb002) { MpfTag(0xb002) }
    /// Unique ID list (UNDEFINED).
    pub fn ImageUIDList() -> (t: MpfTag) ensures t == MpfTag(0xb003) { MpfTag(0xb003) }
    /// Total number of captured frames (LONG, 1).
    pub fn TotalFrames() -> (t: MpfTag) ensures t == MpfTag(0xb004) { MpfTag(0xb004) }

    /// Returns the tag's description.
    pub fn description(&self) -> (r: &'static str)
        ensures
            r@ == mpf_description(self.0),
    {
        let r = match self.0 {
            0xb000 => "MPF version",
            0xb001 => "Number of images",
            0xb002 => "MP entry",
            0xb003 => "Image UID list",
            0xb004 => "Total frames",
            0xb200 => "MPF version (attribute)",
            0xb201 => "MP individual number",
            0xb202 => "Panorama orientation",
            0xb203 => "Panorama horizontal overlap",
            0xb204 => "Panorama vertical overlap",
            0xb205 => "Base viewpoint number",
            0xb206 => "Convergence angle",
            0xb207 => "Baseline length",
            0xb208 => "Vertical divergence",
            0xb209 => "Axis distance X",
            0xb20a => "Axis distance Y",
            0xb20b => "Axis distance Z",
            0xb20c => "Yaw angle",
            0xb20d => "Pitch angle",
            0xb20e => "Roll angle",
            _ => "Unknown MPF tag",
        };
        r
    }
}

/// The description of each tag the MPF standard defines.
pub open spec fn mpf_description(n: u16) -> Seq<char> {
    if n == 0xb000 { "MPF version"@ }
    else if n == 0xb001 { "Number of images"@ }
    else if n == 0xb002 { "MP entry"@ }
    else if n == 0xb003 { "Image UID list"@ }
    else if n == 0xb004 { "Total frames"@ }
    else if n == 0xb200 { "MPF version (attribute)"@ }
    else if n == 0xb201 { "MP individual number"@ }
    else if n == 0xb202 { "Panorama orientation"@ }
    else if n == 0xb203 { "Panorama horizontal overlap"@ }
    else if n == 0xb204 { "Panorama vertical overlap"@ }
    else if n == 0xb205 { "Base viewpoint number"@ }
    else if n == 0xb206 { "Convergence angle"@ }
    else if n == 0xb207 { "Baseline length"@ }
    else if n == 0xb208 { "Vertical divergence"@ }
    else if n == 0xb209 { "Axis distance X"@ }
    else if n == 0xb20a { "Axis distance Y"@ }
    else if n == 0xb20b { "Axis distance Z"@ }
    else if n == 0xb20c { "Yaw angle"@ }
    else if n == 0xb20d { "Pitch angle"@ }
    else if n == 0xb20e { "Roll angle"@ }
    else { "Unknown MPF tag"@ }
}

/// An MPF field: its tag and value.
#[derive(Debug)]
pub struct MpfField {
    pub tag: MpfTag,
    pub value: Value,
}

impl MpfField {
    /// A field of the given tag and value.
    pub fn new(tag: MpfTag, value: Value) -> (r: Self)
        ensures
            r.tag == tag,
            r.value == value,
    {
        Self { tag, value }
    }
}

/// The type of an individual image: bits 24 to 27 of its ImageAttr.
#[derive(Debug, Clone, Copy, PartialEq, Eq, Structural)]
pub enum MpImageType {
    /// Baseline MP primary image (the main image).
    BaselinePrimary,
    /// Large thumbnail, VGA.
    LargeThumbnailVGA,
    /// Large thumbnail, full HD.
    LargeThumbnailFullHD,
    /// Multi-frame image (panorama, disparity, multi-angle).
    MultiFrame,
    /// A type code not listed above.
    Unknown,
}

/// The image type that an ImageAttr value states.
pub open spec fn image_type_of(attr: u32) -> MpImageType {
    let code = (attr >> 24u32) & 0x0fu32;
    if code == 0 {
        MpImageType::BaselinePrimary
    } else if code == 1 {
        MpImageType::LargeThumbnailVGA
    } else if code == 2 {
        MpImageType::LargeThumbnailFullHD
    } else if code == 3 {
        MpImageType::MultiFrame
    } else {
        MpImageType::Unknown
    }
}

impl MpImageType {
    /// Parses the image type from an ImageAttr value.
    pub fn from_attr(attr: u32) -> (r: Self)
        ensures
            r == image_type_of(attr),
    {
        let code = (attr >> 24u32) & 0x0fu32;
        if code == 0 {
            MpImageType::BaselinePrimary
        } else if code == 1 {
            MpImageType::LargeThumbnailVGA
        } else if code == 2 {
            MpImageType::LargeThumbnailFullHD
        } else if code == 3 {
            MpImageType::MultiFrame
        } else {
            MpImageType::Unknown
        }
    }

    /// Whether this is the baseline primary image type.
    pub fn is_primary(&self) -> (r: bool)
        ensures
            r == (*self == MpImageType::BaselinePrimary),
    {
        match self {
            MpImageType::BaselinePrimary => true,
            _ => false,
        }
    }

    /// Whether this is one of the two large thumbnail types.
    pub fn is_thumbnail(&self) -> (r: bool)
        ensures
            r == (*self == MpImageType::LargeThumbnailVGA || *self == MpImageType::LargeThumbnailFullHD),
    {
        match self {
            MpImageType::LargeThumbnailVGA | MpImageType::LargeThumbnailFullHD => true,
            _ => false,
        }
    }
}

/// The flags of an ImageAttr value.
#[derive(Debug, Clone, Copy)]
pub struct MpImageAttr {
    pub image_type: MpImageType,
    /// Bit 30: the representative image.
    pub is_representative: bool,
    /// Bit 29: a dependent parent image.
    pub _is_dependent_parent: bool,
    /// Bit 28: a dependent child image.
    pub _is_dependent_child: bool,
}

/// Whether bit `b` of `attr` is set.
pub open spec fn attr_bit(attr: u32, b: u32) -> bool {
    attr & (1u32 << b) != 0
}

impl MpImageAttr {
    /// Parses the flags of an ImageAttr value.
    pub fn from_attr(attr: u32) -> (r: Self)
        ensures
            r.image_type == image_type_of(attr),
            r.is_representative == attr_bit(attr, 30),
            r._is_dependent_parent == attr_bit(attr, 29),
            r._is_dependent_child == attr_bit(attr, 28),
    {
        Self {
            image_type: MpImageType::from_attr(attr),
            is_representative: attr & (1u32 << 30u32) != 0,
            _is_dependent_parent: attr & (1u32 << 29u32) != 0,
            _is_dependent_child: attr & (1u32 << 28u32) != 0,
        }
    }
}

/// An MPF individual image entry.
#[derive(Debug, Clone, Copy)]
pub struct MpImageEntry {
    pub image_attr: u32,
    pub image_size: u32,
    pub image_data_offset: u64,
    pub _dep_entry1: u16,
    pub _dep_entry2: u16,
}

impl MpImageEntry {
    /// The entry's ImageAttr value.
    pub open spec fn attr(self) -> u32 {
        self.image_attr
    }

    /// The entry's two dependent image entry numbers.
    pub open spec fn dependents(self) -> (u16, u16) {
        (self._dep_entry1, self._dep_entry2)
    }

    /// Whether the entry is the primary image: the baseline primary type
    /// without the representative flag.
    pub open spec fn spec_is_primary(self) -> bool {
        image_type_of(self.attr()) == MpImageType::BaselinePrimary && !attr_bit(self.attr(), 30)
    }

    /// Whether the entry carries the representative flag.
    pub open spec fn spec_is_representative(self) -> bool {
        attr_bit(self.attr(), 30)
    }

    /// Whether the entry is a large thumbnail.
    pub open spec fn spec_is_thumbnail(self) -> bool {
        image_type_of(self.attr()) == MpImageType::LargeThumbnailVGA
            || image_type_of(self.attr()) == MpImageType::LargeThumbnailFullHD
    }

    /// Returns the parsed image attributes.
    pub fn attributes(&self) -> (r: MpImageAttr)
        ensures
            r.image_type == image_type_of(self.attr()),
            r.is_representative == attr_bit(self.attr(), 30),
            r._is_dependent_parent == attr_bit(self.attr(), 29),
            r._is_dependent_child == attr_bit(self.attr(), 28),
    {
        MpImageAttr::from_attr(self.image_attr)
    }

    /// Returns the image type.
    pub fn image_type(&self) -> (r: MpImageType)
        ensures
            r == image_type_of(self.attr()),
    {
        self.attributes().image_type
    }

    /// Whether this is the primary image (not the representative one).
    pub fn is_primary(&self) -> (r: bool)
        ensures
            r == self.spec_is_primary(),
    {
        let attr = self.attributes();
        attr.image_type.is_primary() && !attr.is_representative
    }

    /// Whether this is the representative image (a preview for display).
    pub fn is_representative(&self) -> (r: bool)
        ensures
            r == self.spec_is_representative(),
    {
        self.attributes().is_representative
    }

    /// Whether this is a thumbnail image.
    pub fn is_thumbnail(&self) -> (r: bool)
        ensures
            r == self.spec_is_thumbnail(),
    {
        self.attributes().image_type.is_thumbnail()
    }

    /// Returns the raw ImageAttr value.
    pub fn image_attr(&self) -> (r: u32)
        ensures
            r == self.attr(),
    {
        self.image_attr
    }
}

/// Whether `e` is the MP entry stored in the 16 bytes at `s[i..]`.
pub open spec fn entry_at(e: MpImageEntry, s: Seq<u8>, i: int, le: bool) -> bool {
    &&& e.attr() == spec_u32(s, i, le)
    &&& e.image_size == spec_u32(s, i + 4, le)
    &&& e.image_data_offset == spec_u32(s, i + 8, le)
    &&& e.dependents() == (spec_u16(s, i + 12, le) as u16, spec_u16(s, i + 14, le) as u16)
}

/// Parses MPEntry data: one entry per whole 16 bytes, in order; a shorter
/// tail is ignored.
pub fn parse_mp_entry(data: &[u8], little_endian: bool) -> (r: Vec<MpImageEntry>)
    ensures
        r@.len() == data@.len() / 16,
        forall|k: int| 0 <= k < r@.len() ==> entry_at(#[trigger] r@[k], data@, 16 * k, little_endian),
{
    let mut entries: Vec<MpImageEntry> = Vec::new();
    let dlen = data.len();
    let n = dlen / 16;
    let mut k: usize = 0;
    while k < n
        invariant
            dlen == data@.len(),
            n == data@.len() / 16,
            k <= n,
            entries@.len() == k,
            forall|j: int| 0 <= j < k ==> entry_at(#[trigger] entries@[j], data@, 16 * j, little_endian),
        decreases n - k,
    {
        proof {
            assert(16 * k + 16 <= data@.len()) by (nonlinear_arith)
                requires k < n, n == data@.len() / 16;
        }
        let i = 16 * k;
        let attr = load_u32(data, i, little_endian);
        let size = load_u32(data, i + 4, little_endian);
        let offset = load_u32(data, i + 8, little_endian);
        let dep1 = load_u16(data, i + 12, little_endian);
        let dep2 = load_u16(data, i + 14, little_endian);
        entries.push(MpImageEntry {
            image_attr: attr,
            image_size: size,
            image_data_offset: offset as u64,
            _dep_entry1: dep1,
            _dep_entry2: dep2,
        });
        k = k + 1;
    }
    entries
}

} // verus!
