use vstd::prelude::*;
use crate::bytes::{spec_u16, load_u16, copy_range};
use crate::error::Error;
use crate::tiff::In;
use crate::value::{Value, ValueView};
use crate::exifimpl::opt_seq;
use crate::make_note::maker_tag::{MakerNoteField, MakerNoteVendor, MakerTag};

verus! {

/// Where an embedded sub-image was found.
#[derive(Debug, Clone, Copy, PartialEq, Eq, Structural)]
pub enum EmbeddedSubImageSource {
    /// The primary image an MPF index describes.
    Primary,
    /// The IFD1 thumbnail.
    Thumbnail,
    /// An MPF (Multi-Picture Format) image.
    Mpf,
    /// MakerNote preview 1 (Olympus PreviewImageStart 0x0088 / PreviewImageLength 0x0089).
    MakerNotePreview1,
    /// MakerNote preview 2 (Olympus PreviewImageStart2 0x1036 / PreviewImageLength2 0x1037).
    MakerNotePreview2,
    /// MakerNote preview 3 (Olympus CameraSettings 0x0101 / 0x0102).
    MakerNotePreview3,
    /// A JPEG addressed by `JPEGInterchangeFormat` in an IFD other than IFD1.
    IfdImage,
    /// An image an IFD holds directly, addressed by its `StripOffsets`.
    IfdStrip,
    /// An image the container addresses rather than any tag.
    ContainerBox,
    /// An image a MakerNote addresses outside its own block.
    MakerNoteValue,
}

/// The name of each source.
pub open spec fn source_name(s: EmbeddedSubImageSource) -> Seq<char> {
    match s {
        EmbeddedSubImageSource::Primary => "Primary"@,
        EmbeddedSubImageSource::Thumbnail => "Thumbnail"@,
        EmbeddedSubImageSource::Mpf => "MPF"@,
        EmbeddedSubImageSource::MakerNotePreview1 => "MakerNotePreview1"@,
        EmbeddedSubImageSource::MakerNotePreview2 => "MakerNotePreview2"@,
        EmbeddedSubImageSource::MakerNotePreview3 => "MakerNotePreview3"@,
        EmbeddedSubImageSource::IfdImage => "IfdImage"@,
        EmbeddedSubImageSource::IfdStrip => "IfdStrip"@,
        EmbeddedSubImageSource::ContainerBox => "ContainerBox"@,
        EmbeddedSubImageSource::MakerNoteValue => "MakerNoteValue"@,
    }
}

impl EmbeddedSubImageSource {
    /// A human-readable name for the source.
    pub fn name(&self) -> (r: &'static str)
        ensures
            r@ == source_name(*self),
    {
        match self {
            EmbeddedSubImageSource::Primary => "Primary",
            EmbeddedSubImageSource::Thumbnail => "Thumbnail",
            EmbeddedSubImageSource::Mpf => "MPF",
            EmbeddedSubImageSource::MakerNotePreview1 => "MakerNotePreview1",
            EmbeddedSubImageSource::MakerNotePreview2 => "MakerNotePreview2",
            EmbeddedSubImageSource::MakerNotePreview3 => "MakerNotePreview3",
            EmbeddedSubImageSource::IfdImage => "IfdImage",
            EmbeddedSubImageSource::IfdStrip => "IfdStrip",
            EmbeddedSubImageSource::ContainerBox => "ContainerBox",
            EmbeddedSubImageSource::MakerNoteValue => "MakerNoteValue",
        }
    }
}

/// An embedded sub-image: where it is and what the file states about it.
#[derive(Debug, Clone, Copy)]
pub struct EmbeddedSubImage {
    /// Where it was found.
    pub source: EmbeddedSubImageSource,
    /// Its size in bytes.
    pub length: u32,
    /// Its offset from the start of the file.
    pub offset: u64,
    /// The IFD that stated it, when one did.
    pub ifd: Option<In>,
    /// `Compression` (0x0103) as the file states it.
    pub compression: Option<u16>,
    /// `NewSubfileType` (0x00FE): bit 0 set for a reduced-resolution image.
    pub subfile_type: Option<u32>,
    /// `PhotometricInterpretation` (0x0106).
    pub photometric: Option<u16>,
    /// Its dimensions, where the file states them.
    pub width: Option<u32>,
    pub height: Option<u32>,
}

/// An image from `source`, at `offset`, of `length` bytes, about which
/// nothing else is stated.
pub open spec fn plain_image(source: EmbeddedSubImageSource, length: u32, offset: u64) -> EmbeddedSubImage {
    EmbeddedSubImage {
        source, length, offset, ifd: None, compression: None, subfile_type: None,
        photometric: None, width: None, height: None,
    }
}

impl EmbeddedSubImage {
    /// The primary image an MPF index describes.
    pub fn new_primary(length: u32, offset: u64) -> (r: Self)
        ensures
            r == plain_image(EmbeddedSubImageSource::Primary, length, offset),
    {
        Self::new_maker_note_preview(EmbeddedSubImageSource::Primary, length, offset)
    }

    /// A thumbnail.
    pub fn new_thumbnail(length: u32, offset: u64) -> (r: Self)
        ensures
            r == plain_image(EmbeddedSubImageSource::Thumbnail, length, offset),
    {
        Self::new_maker_note_preview(EmbeddedSubImageSource::Thumbnail, length, offset)
    }

    /// An MPF image.
    pub fn new_mpf(length: u32, offset: u64) -> (r: Self)
        ensures
            r == plain_image(EmbeddedSubImageSource::Mpf, length, offset),
    {
        Self::new_maker_note_preview(EmbeddedSubImageSource::Mpf, length, offset)
    }

    /// A MakerNote preview image of the given source.
    pub fn new_maker_note_preview(source: EmbeddedSubImageSource, length: u32, offset: u64) -> (r: Self)
        ensures
            r == plain_image(source, length, offset),
    {
        Self {
            source,
            length,
            offset,
            ifd: None,
            compression: None,
            subfile_type: None,
            photometric: None,
            width: None,
            height: None,
        }
    }

    /// The image's bytes, taken from the whole file `data`; a JPEG whose
    /// first byte a body zeroed gets its `0xFF` back.
    pub fn extract_data(&self, data: &[u8]) -> (r: Result<Vec<u8>, Error>)
        ensures
            self.offset + self.length <= data@.len() ==> (r matches Ok(v)
                && v@ == repaired(data@.subrange(self.offset as int, self.offset + self.length))),
            self.offset + self.length > data@.len() ==> (r matches Err(e)
                && e.is_invalid("Embedded image is truncated")),
    {
        if self.offset > data.len() as u64 || ((data.len() as u64) - self.offset) < self.length as u64 {
            return Err(Error::InvalidFormat("Embedded image is truncated"));
        }
        let start = self.offset as usize;
        let mut v = copy_range(data, start, start + self.length as usize);
        if v.len() > 0 && v[0] != 0xff && is_jpeg_start(v.as_slice()) {
            v.set(0, 0xff);
        }
        Ok(v)
    }

    /// The image's dimensions: those the container stated, or else those
    /// the JPEG's own frame header states, read from the whole file `data`.
    pub fn dimensions(&self, data: &[u8]) -> (r: Result<(u32, u32), Error>)
        ensures
            match (self.width, self.height) {
                (Some(w), Some(h)) => r == Ok::<(u32, u32), Error>((w, h)),
                _ => match jpeg_dimensions(data@, self.offset as int, self.length as int) {
                    DimResult::Found(w, h) => r == Ok::<(u32, u32), Error>((w, h)),
                    DimResult::Eof => r matches Err(e) && e is Io,
                    DimResult::Invalid(m) => r matches Err(e) && e.is_invalid(m),
                    DimResult::NotFound(m) => r matches Err(e) && e.is_not_found(m),
                },
            },
    {
        if let (Some(w), Some(h)) = (self.width, self.height) {
            return Ok((w, h));
        }
        let ghost s = data@;
        let base = self.offset;
        let len = self.length as u64;
        if base > data.len() as u64 || (data.len() as u64) - base < 4 {
            return Err(crate::jpeg::eof_error());
        }
        if !is_jpeg_start(&data[base as usize..base as usize + 4]) {
            assert(data@.subrange(base as int, base + 4).subrange(0, 4) =~= data@.subrange(base as int, base + 4));
            return Err(Error::InvalidFormat("Embedded image is not a JPEG"));
        }
        assert(data@.subrange(base as int, base + 4).subrange(0, 4) =~= data@.subrange(base as int, base + 4));
        let mut pos: u64 = 2;
        while pos + 4 <= len
            invariant
                s == data@,
                base + 4 <= s.len(),
                len == self.length,
                !(self.width is Some && self.height is Some),
                base == self.offset,
                pos >= 2,
                pos <= len + 2,
                len <= u32::MAX,
                segment_walk(s, base as int, len as int, pos as int) == jpeg_dimensions(s, base as int, len as int),
            decreases len + 2 - pos,
        {
            if pos >= (data.len() as u64) - base {
                return Err(crate::jpeg::eof_error());
            }
            let a = base + pos;
            if data[a as usize] != 0xff {
                return Err(Error::InvalidFormat("Broken JPEG segment chain"));
            }
            let mut k = a + 1;
            while k < data.len() as u64 && data[k as usize] == 0xff
                invariant
                    s == data@,
                    a + 1 <= k <= s.len(),
                    first_non_ff(s, a + 1) == first_non_ff(s, k as int),
                decreases s.len() - k,
            {
                k = k + 1;
            }
            if k >= data.len() as u64 {
                return Err(crate::jpeg::eof_error());
            }
            let id = data[k as usize];
            let pos2 = k + 1 - base;
            if id == 0x01 || (0xd0 <= id && id <= 0xd8) {
                if pos2 > len - 4 {
                    return Err(Error::NotFound("no frame header in embedded image"));
                }
                pos = pos2;
                continue;
            }
            if id == 0xd9 {
                return Err(Error::NotFound("no frame header in embedded image"));
            }
            if id == 0xda {
                return Err(Error::NotFound("no frame header before scan"));
            }
            let is_sof = 0xc0 <= id && id <= 0xcf && id != 0xc4 && id != 0xc8 && id != 0xcc;
            if (data.len() as u64) - k < 3 {
                return Err(crate::jpeg::eof_error());
            }
            let seg_len = load_u16(data, k as usize + 1, false) as u64;
            if seg_len < 2 {
                return Err(Error::InvalidFormat("Broken JPEG segment length"));
            }
            if is_sof {
                if (data.len() as u64) - k < 8 {
                    return Err(crate::jpeg::eof_error());
                }
                let h = load_u16(data, k as usize + 4, false) as u32;
                let w = load_u16(data, k as usize + 6, false) as u32;
                return if w > 0 && h > 0 {
                    Ok((w, h))
                } else {
                    Err(Error::InvalidFormat("Zero-sized JPEG frame"))
                };
            }
            if seg_len + 4 > len || pos2 > len - (seg_len + 4) {
                return Err(Error::NotFound("no frame header in embedded image"));
            }
            pos = pos2 + seg_len;
        }
        Err(Error::NotFound("no frame header in embedded image"))
    }
}

/// `v` with its first byte set to `0xFF` when it is a JPEG start whose
/// first byte is something else.
pub open spec fn repaired(v: Seq<u8>) -> Seq<u8> {
    if v.len() > 0 && v[0] != 0xff && jpeg_start(v) { v.update(0, 0xffu8) } else { v }
}

/// A JPEG start, the one a Minolta body writes included: any byte, then
/// `D8`, then a marker introducer.
pub open spec fn jpeg_start(head: Seq<u8>) -> bool {
    head.len() >= 4 && head[1] == 0xd8 && head[2] == 0xff
}

/// Whether `head` starts like a JPEG, a clobbered first byte included.
pub fn is_jpeg_start(head: &[u8]) -> (r: bool)
    ensures
        r == jpeg_start(head@),
{
    head.len() >= 4 && head[1] == 0xd8 && head[2] == 0xff
}

/// The first index from `q` on whose byte is not `0xFF`, or the end.
pub open spec fn first_non_ff(s: Seq<u8>, q: int) -> int
    decreases s.len() - q,
{
    if q < 0 || q >= s.len() { if q < 0 { 0 } else { q } } else if s[q] != 0xff { q } else { first_non_ff(s, q + 1) }
}

/// How reading an embedded JPEG's frame header ends.
pub ghost enum DimResult {
    /// Width and height.
    Found(u32, u32),
    /// The file ends where more was needed.
    Eof,
    Invalid(&'static str),
    NotFound(&'static str),
}

/// Whether a marker is a frame header (SOF0 to SOF15, but for DHT, JPG and
/// DAC).
pub open spec fn is_sof(id: u8) -> bool {
    0xc0 <= id <= 0xcf && id != 0xc4 && id != 0xc8 && id != 0xcc
}

/// Walks the marker chain of the JPEG at `base` (of `len` bytes) from its
/// byte `pos` on to a frame header, within the image's length.
pub open spec fn segment_walk(s: Seq<u8>, base: int, len: int, pos: int) -> DimResult
    decreases len - pos,
{
    if pos + 4 > len || pos < 2 || base < 0 {
        DimResult::NotFound("no frame header in embedded image")
    } else if base + pos >= s.len() {
        DimResult::Eof
    } else if s[base + pos] != 0xff {
        DimResult::Invalid("Broken JPEG segment chain")
    } else {
        let k = first_non_ff(s, base + pos + 1);
        if k >= s.len() {
            DimResult::Eof
        } else {
            let id = s[k];
            let pos2 = k + 1 - base;
            if id == 0x01 || (0xd0 <= id <= 0xd8) {
                if pos2 + 4 > len || pos2 <= pos {
                    DimResult::NotFound("no frame header in embedded image")
                } else {
                    segment_walk(s, base, len, pos2)
                }
            } else if id == 0xd9 {
                DimResult::NotFound("no frame header in embedded image")
            } else if id == 0xda {
                DimResult::NotFound("no frame header before scan")
            } else if k + 3 > s.len() {
                DimResult::Eof
            } else if spec_u16(s, k + 1, false) < 2 {
                DimResult::Invalid("Broken JPEG segment length")
            } else if is_sof(id) {
                if k + 8 > s.len() {
                    DimResult::Eof
                } else {
                    let h = spec_u16(s, k + 4, false);
                    let w = spec_u16(s, k + 6, false);
                    if w > 0 && h > 0 { DimResult::Found(w as u32, h as u32) } else { DimResult::Invalid("Zero-sized JPEG frame") }
                }
            } else {
                let next = pos2 + spec_u16(s, k + 1, false);
                if next + 4 > len || next <= pos {
                    DimResult::NotFound("no frame header in embedded image")
                } else {
                    segment_walk(s, base, len, next)
                }
            }
        }
    }
}

/// The dimensions the JPEG at `base`, of `len` bytes, in the file `s`
/// states in its frame header.
pub open spec fn jpeg_dimensions(s: Seq<u8>, base: int, len: int) -> DimResult {
    if base + 4 > s.len() {
        DimResult::Eof
    } else if !jpeg_start(s.subrange(base, base + 4)) {
        DimResult::Invalid("Embedded image is not a JPEG")
    } else {
        segment_walk(s, base, len, 2)
    }
}

/// The index of the last MakerNote field of tag `t`, the one a lookup
/// finds.
pub open spec fn mn_last(fs: Seq<MakerNoteField>, t: MakerTag) -> Option<int>
    decreases fs.len(),
{
    if fs.len() == 0 {
        None
    } else if fs.last().tag == t {
        Some(fs.len() - 1)
    } else {
        mn_last(fs.drop_last(), t)
    }
}

/// A MakerNote preview stated by a start and a length field, both LONG,
/// of non-zero length.
pub open spec fn mn_preview(fs: Seq<MakerNoteField>, start: MakerTag, len: MakerTag,
    source: EmbeddedSubImageSource) -> Option<EmbeddedSubImage> {
    match (mn_last(fs, start), mn_last(fs, len)) {
        (Some(i), Some(j)) => match (fs[i].value@, fs[j].value@) {
            (ValueView::Long(a), ValueView::Long(b)) => if a.len() > 0 && b.len() > 0 && b[0] > 0 {
                Some(plain_image(source, b[0], a[0] as u64))
            } else {
                None
            },
            _ => None,
        },
        _ => None,
    }
}

/// The previews an Olympus MakerNote states at its top level.
pub open spec fn maker_note_images(fs: Seq<MakerNoteField>, vendor: Result<MakerNoteVendor, Error>) -> Seq<EmbeddedSubImage> {
    match vendor {
        Ok(MakerNoteVendor::Olympus) =>
            opt_seq(mn_preview(fs, MakerTag { vendor: MakerNoteVendor::Olympus, number: 0x0088 },
                MakerTag { vendor: MakerNoteVendor::Olympus, number: 0x0089 }, EmbeddedSubImageSource::MakerNotePreview1))
            + opt_seq(mn_preview(fs, MakerTag { vendor: MakerNoteVendor::Olympus, number: 0x1036 },
                MakerTag { vendor: MakerNoteVendor::Olympus, number: 0x1037 }, EmbeddedSubImageSource::MakerNotePreview2)),
        _ => seq![],
    }
}

/// Returns the last MakerNote field of tag `t`.
pub fn find_maker_field(fs: &[MakerNoteField], t: MakerTag) -> (r: Option<&MakerNoteField>)
    ensures
        match mn_last(fs@, t) {
            Some(i) => r == Some(&fs@[i]),
            None => r is None,
        },
{
    let mut i: usize = fs.len();
    assert(fs@.subrange(0, i as int) =~= fs@);
    while i > 0
        invariant
            i <= fs@.len(),
            mn_last(fs@, t) == mn_last(fs@.subrange(0, i as int), t),
        decreases i,
    {
        assert(fs@.subrange(0, i as int).drop_last() =~= fs@.subrange(0, i - 1));
        let f = &fs[i - 1];
        if f.tag == t {
            return Some(f);
        }
        i = i - 1;
    }
    None
}

/// Returns the MakerNote preview stated by a start and a length field.
fn try_extract_preview(fs: &[MakerNoteField], start_tag: MakerTag, length_tag: MakerTag,
    source: EmbeddedSubImageSource) -> (r: Option<EmbeddedSubImage>)
    ensures
        r == mn_preview(fs@, start_tag, length_tag, source),
{
    let start_field = find_maker_field(fs, start_tag)?;
    let length_field = find_maker_field(fs, length_tag)?;
    match (&start_field.value, &length_field.value) {
        (Value::Long(start_val), Value::Long(length_val)) => {
            if start_val.len() > 0 && length_val.len() > 0 {
                let offset = start_val[0] as u64;
                let length = length_val[0];
                if length > 0 {
                    return Some(EmbeddedSubImage::new_maker_note_preview(source, length, offset));
                }
            }
            None
        },
        _ => None,
    }
}

/// Returns the previews a MakerNote states at its top level: Olympus's
/// PreviewImageStart/Length (0x0088/0x0089) and PreviewImageStart2/Length2
/// (0x1036/0x1037). Their offsets count from the TIFF header.
pub fn extract_maker_note_preview_info(fs: &[MakerNoteField], vendor: &Result<MakerNoteVendor, Error>)
    -> (r: Vec<EmbeddedSubImage>)
    ensures
        r@ == maker_note_images(fs@, *vendor),
{
    let mut images: Vec<EmbeddedSubImage> = Vec::new();
    match vendor {
        Ok(MakerNoteVendor::Olympus) => {
            if let Some(img) = try_extract_preview(fs, MakerTag::new(MakerNoteVendor::Olympus, 0x0088),
                MakerTag::new(MakerNoteVendor::Olympus, 0x0089), EmbeddedSubImageSource::MakerNotePreview1) {
                images.push(img);
            }
            if let Some(img) = try_extract_preview(fs, MakerTag::new(MakerNoteVendor::Olympus, 0x1036),
                MakerTag::new(MakerNoteVendor::Olympus, 0x1037), EmbeddedSubImageSource::MakerNotePreview2) {
                images.push(img);
            }
        },
        _ => {},
    }
    images
}

} // verus!
