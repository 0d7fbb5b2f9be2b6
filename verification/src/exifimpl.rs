use vstd::prelude::*;
use crate::error::Error;
use crate::tag::{Context, Tag};
use crate::tiff::{Field, IfdEntry, In, entries_ok, field_read};
use crate::value::{Value, ValueView};
use crate::bytes::spec_u32;
use crate::subimg::{EmbeddedSubImage, EmbeddedSubImageSource, plain_image, mn_last, maker_note_images,
    extract_maker_note_preview_info, find_maker_field};
use crate::make_note::maker_tag::{MakerNoteField, MakerNoteVendor, MakerTag};
use crate::make_note::{parse_make_note_with_vendor, made_note};
use crate::mpf::mpf_tag::{MpfField, MpfTag, MpImageEntry, parse_mp_entry, entry_at};
use crate::util::utf8_string;

verus! {

/// Where the TIFF header sits in an ordinary JPEG: SOI (2), APP1 marker (2),
/// length (2) and `Exif\0\0` (6). It holds when APP1 is the first segment.
pub const JPEG_TIFF_BASE: u64 = 12;

/// The tag of the image data offsets of an IFD that is an image.
pub open spec fn strip_offsets() -> Tag { Tag(Context::Tiff, 0x0111) }
/// The tag of the image data lengths of an IFD that is an image.
pub open spec fn strip_byte_counts() -> Tag { Tag(Context::Tiff, 0x0117) }
/// The tag of the offset of a JPEG an IFD addresses.
pub open spec fn jpeg_offset_tag() -> Tag { Tag(Context::Tiff, 0x0201) }
/// The tag of the length of a JPEG an IFD addresses.
pub open spec fn jpeg_length_tag() -> Tag { Tag(Context::Tiff, 0x0202) }

/// The index of the last field of `fs` with `tag` in `ifd`, the one a
/// lookup finds.
pub open spec fn last_field(fs: Seq<Field>, tag: Tag, ifd: In) -> Option<int>
    decreases fs.len(),
{
    if fs.len() == 0 {
        None
    } else if fs.last().tag == tag && fs.last().ifd_num == ifd {
        Some(fs.len() - 1)
    } else {
        last_field(fs.drop_last(), tag, ifd)
    }
}

/// The `k`-th unsigned number of the field `tag` in `ifd`.
pub open spec fn uint_at(fs: Seq<Field>, tag: Tag, ifd: In, k: int) -> Option<u32> {
    match last_field(fs, tag, ifd) {
        Some(i) => fs[i].value.spec_get_uint(k),
        None => None,
    }
}

/// The first unsigned number of the field `tag` in `ifd`, if it fits in 16
/// bits.
pub open spec fn u16_at(fs: Seq<Field>, tag: Tag, ifd: In) -> Option<u16> {
    match uint_at(fs, tag, ifd, 0) {
        Some(v) => if v <= 0xffff { Some(v as u16) } else { None },
        None => None,
    }
}

/// `a + b`, or `u64::MAX` where that overflows.
pub open spec fn sat_add(a: u64, b: u64) -> u64 {
    if a + b > u64::MAX { u64::MAX } else { (a + b) as u64 }
}

/// The image an IFD is, by its single strip: the strip's offset (not the
/// `0xFFFFFFFF` sentinel) and non-zero length, with the IFD's own statements
/// about it.
pub open spec fn strip_image(fs: Seq<Field>, base: u64, ifd: In) -> Option<EmbeddedSubImage> {
    if last_field(fs, strip_offsets(), ifd) is Some && last_field(fs, strip_byte_counts(), ifd) is Some
        && uint_at(fs, strip_offsets(), ifd, 1) is None && uint_at(fs, strip_byte_counts(), ifd, 1) is None {
        match (uint_at(fs, strip_offsets(), ifd, 0), uint_at(fs, strip_byte_counts(), ifd, 0)) {
            (Some(o), Some(l)) => if l > 0 && o != u32::MAX {
                Some(EmbeddedSubImage {
                    source: EmbeddedSubImageSource::IfdStrip,
                    length: l,
                    offset: sat_add(base, o as u64),
                    ifd: Some(ifd),
                    compression: u16_at(fs, Tag(Context::Tiff, 0x0103), ifd),
                    subfile_type: uint_at(fs, Tag(Context::Tiff, 0x00fe), ifd, 0),
                    photometric: u16_at(fs, Tag(Context::Tiff, 0x0106), ifd),
                    width: uint_at(fs, Tag(Context::Tiff, 0x0100), ifd, 0),
                    height: uint_at(fs, Tag(Context::Tiff, 0x0101), ifd, 0),
                })
            } else {
                None
            },
            _ => None,
        }
    } else {
        None
    }
}

/// The JPEG an IFD addresses, of non-zero length: IFD1's is the thumbnail.
pub open spec fn jpeg_image(fs: Seq<Field>, base: u64, ifd: In) -> Option<EmbeddedSubImage> {
    match (uint_at(fs, jpeg_offset_tag(), ifd, 0), uint_at(fs, jpeg_length_tag(), ifd, 0)) {
        (Some(o), Some(l)) => if l > 0 {
            Some(EmbeddedSubImage {
                ifd: Some(ifd),
                ..plain_image(
                    if ifd == In(1) { EmbeddedSubImageSource::Thumbnail } else { EmbeddedSubImageSource::IfdImage },
                    l, sat_add(base, o as u64))
            })
        } else {
            None
        },
        _ => None,
    }
}

/// The IFDs searched for images, in order: the eight chained IFDs, then
/// the eight sub-images.
pub open spec fn image_ifd(k: int) -> In {
    if k < 8 { In(k as u16) } else { In((16 + k - 8) as u16) }
}

/// `o` as a sequence of at most one item.
pub open spec fn opt_seq<A>(o: Option<A>) -> Seq<A> {
    match o {
        Some(x) => seq![x],
        None => seq![],
    }
}

/// The images the first `k` IFDs searched state.
pub open spec fn ifd_images(fs: Seq<Field>, base: u64, k: nat) -> Seq<EmbeddedSubImage>
    decreases k,
{
    if k == 0 {
        seq![]
    } else {
        ifd_images(fs, base, (k - 1) as nat) + opt_seq(strip_image(fs, base, image_ifd(k - 1)))
            + opt_seq(jpeg_image(fs, base, image_ifd(k - 1)))
    }
}

/// Whether `f` is Panasonic's JPEG-from-raw field: tag 0x002E in IFD0.
pub open spec fn is_jpg_from_raw(f: Field) -> bool {
    f.tag.1 == 0x002e && f.ifd_num == In(0)
}

/// The index of the first JPEG-from-raw field at or after `i`.
pub open spec fn first_jpg_from_raw(fs: Seq<Field>, i: int) -> Option<int>
    decreases fs.len() - i,
{
    if i < 0 || i >= fs.len() {
        None
    } else if is_jpg_from_raw(fs[i]) {
        Some(i)
    } else {
        first_jpg_from_raw(fs, i + 1)
    }
}

/// Panasonic's preview, stored as the value of IFD0's tag 0x002E: an
/// UNDEFINED value that starts as a JPEG does, where it is stored.
pub open spec fn panasonic_image(fs: Seq<Field>, base: u64) -> Option<EmbeddedSubImage> {
    match first_jpg_from_raw(fs, 0) {
        Some(i) => match fs[i].value@ {
            ValueView::Undefined(d, o) => if d.len() >= 2 && d[0] == 0xff && d[1] == 0xd8 && d.len() <= u32::MAX {
                Some(EmbeddedSubImage {
                    ifd: Some(In(0)),
                    ..plain_image(EmbeddedSubImageSource::IfdStrip, d.len() as u32, sat_add(base, o as u64))
                })
            } else {
                None
            },
            _ => None,
        },
        None => None,
    }
}

/// The images a container addresses, as they are.
pub open spec fn container_box_images(c: Seq<(u64, u32)>) -> Seq<EmbeddedSubImage> {
    c.map_values(|p: (u64, u32)| plain_image(EmbeddedSubImageSource::ContainerBox, p.1, p.0))
}

/// The full-size preview an Olympus CameraSettings subdirectory states, its
/// start counted from the MakerNote.
pub open spec fn camera_settings_image(fs: Seq<MakerNoteField>, note_at: u32, base: u64) -> Option<EmbeddedSubImage> {
    let s = MakerTag { vendor: MakerNoteVendor::OlympusCameraSettings, number: 0x0101 };
    let l = MakerTag { vendor: MakerNoteVendor::OlympusCameraSettings, number: 0x0102 };
    match (mn_last(fs, s), mn_last(fs, l)) {
        (Some(i), Some(j)) => match (fs[i].value.spec_get_uint(0), fs[j].value.spec_get_uint(0)) {
            (Some(st), Some(ln)) => if ln > 0 {
                let at: u32 = if note_at + st > u32::MAX { u32::MAX } else { (note_at + st) as u32 };
                Some(plain_image(EmbeddedSubImageSource::MakerNotePreview3, ln, sat_add(base, at as u64)))
            } else {
                None
            },
            _ => None,
        },
        _ => None,
    }
}

/// The MP entry stored in the 16 bytes at `d[16 * k..]`.
pub open spec fn mp_entry_of(d: Seq<u8>, k: int, le: bool) -> MpImageEntry {
    MpImageEntry {
        image_attr: spec_u32(d, 16 * k, le) as u32,
        image_size: spec_u32(d, 16 * k + 4, le) as u32,
        image_data_offset: spec_u32(d, 16 * k + 8, le) as u64,
        _dep_entry1: crate::bytes::spec_u16(d, 16 * k + 12, le) as u16,
        _dep_entry2: crate::bytes::spec_u16(d, 16 * k + 14, le) as u16,
    }
}

/// The images the first `k` MP entries of `d` state: each of non-zero size
/// that is not the primary image and is a representative or thumbnail.
pub open spec fn mp_images(d: Seq<u8>, le: bool, k: nat) -> Seq<EmbeddedSubImage>
    decreases k,
{
    if k == 0 {
        seq![]
    } else {
        let e = mp_entry_of(d, k - 1, le);
        mp_images(d, le, (k - 1) as nat) + if e.image_size > 0 && !e.spec_is_primary()
            && (e.spec_is_representative() || e.spec_is_thumbnail()) {
            seq![plain_image(EmbeddedSubImageSource::Mpf, e.image_size, e.image_data_offset)]
        } else {
            seq![]
        }
    }
}

/// The index of the last MPF field of tag `t`.
pub open spec fn mpf_last(fs: Seq<MpfField>, t: MpfTag) -> Option<int>
    decreases fs.len(),
{
    if fs.len() == 0 {
        None
    } else if fs.last().tag == t {
        Some(fs.len() - 1)
    } else {
        mpf_last(fs.drop_last(), t)
    }
}

/// The images the MPF index states, read in byte order `le`.
pub open spec fn mpf_images(fs: Seq<MpfField>, le: bool) -> Seq<EmbeddedSubImage> {
    match mpf_last(fs, MpfTag(0xb002)) {
        Some(i) => match fs[i].value@ {
            ValueView::Undefined(d, _) => mp_images(d, le, d.len() / 16),
            _ => seq![],
        },
        None => seq![],
    }
}

/// Parsed Exif attributes: the TIFF data, its fields with their values
/// read, the MakerNote's fields, the MPF fields, and where the TIFF header
/// sits in the file.
#[derive(Debug)]
pub struct Exif {
    buf: Vec<u8>,
    fields: Vec<Field>,
    little_endian: bool,
    tiff_base: u64,
    maker_note_fields: Vec<MakerNoteField>,
    maker_note_vendor: Result<MakerNoteVendor, Error>,
    maker_note_offset: u32,
    container_images: Vec<(u64, u32)>,
    mpf_fields: Vec<MpfField>,
}

impl Exif {
    /// The TIFF data.
    pub closed spec fn spec_buf(&self) -> Seq<u8> { self.buf@ }
    /// The fields, in the order the parser found them.
    pub closed spec fn spec_fields(&self) -> Seq<Field> { self.fields@ }
    /// Whether the TIFF data is little endian.
    pub closed spec fn spec_little_endian(&self) -> bool { self.little_endian }
    /// Where the TIFF header sits in the file.
    pub closed spec fn spec_tiff_base(&self) -> u64 { self.tiff_base }
    /// The MakerNote's fields, in the order parsed.
    pub closed spec fn spec_maker_note_fields(&self) -> Seq<MakerNoteField> { self.maker_note_fields@ }
    /// The MakerNote's vendor, or why there is none.
    pub closed spec fn spec_maker_note_vendor(&self) -> Result<MakerNoteVendor, Error> { self.maker_note_vendor }
    /// Where the MakerNote sits relative to the TIFF header.
    pub closed spec fn spec_maker_note_offset(&self) -> u32 { self.maker_note_offset }
    /// The images the container addresses, in file offsets.
    pub closed spec fn spec_container_images(&self) -> Seq<(u64, u32)> { self.container_images@ }
    /// The MPF fields, in the order parsed.
    pub closed spec fn spec_mpf_fields(&self) -> Seq<MpfField> { self.mpf_fields@ }

    /// Returns where an offset stated inside the TIFF lands in the file.
    pub fn file_offset(&self, tiff_offset: u64) -> (r: u64)
        ensures
            r == sat_add(self.spec_tiff_base(), tiff_offset),
    {
        self.tiff_base.saturating_add(tiff_offset)
    }

    /// Returns the file offset of the TIFF header.
    pub fn tiff_base(&self) -> (r: u64)
        ensures
            r == self.spec_tiff_base(),
    {
        self.tiff_base
    }

    /// Returns the TIFF data.
    pub fn buf(&self) -> (r: &[u8])
        ensures
            r@ == self.spec_buf(),
    {
        self.buf.as_slice()
    }

    /// Returns ownership of the TIFF data.
    pub fn take(self) -> (r: Vec<u8>)
        ensures
            r@ == self.spec_buf(),
    {
        self.buf
    }

    /// Returns the fields, in the order the parser found them.
    pub fn fields(&self) -> (r: &[Field])
        ensures
            r@ == self.spec_fields(),
    {
        self.fields.as_slice()
    }

    /// Returns whether the TIFF data is little endian.
    pub fn little_endian(&self) -> (r: bool)
        ensures
            r == self.spec_little_endian(),
    {
        self.little_endian
    }

    /// Returns the field of `tag` in `ifd_num`; where several are, the last.
    pub fn get_field(&self, tag: Tag, ifd_num: In) -> (r: Option<&Field>)
        ensures
            match last_field(self.spec_fields(), tag, ifd_num) {
                Some(i) => r == Some(&self.spec_fields()[i]),
                None => r is None,
            },
    {
        let mut i: usize = self.fields.len();
        assert(self.fields@.subrange(0, i as int) =~= self.fields@);
        while i > 0
            invariant
                i <= self.fields@.len(),
                last_field(self.fields@, tag, ifd_num) == last_field(self.fields@.subrange(0, i as int), tag, ifd_num),
            decreases i,
        {
            assert(self.fields@.subrange(0, i as int).drop_last() =~= self.fields@.subrange(0, i - 1));
            let f = &self.fields[i - 1];
            if f.tag == tag && f.ifd_num == ifd_num {
                return Some(f);
            }
            i = i - 1;
        }
        None
    }

    /// Returns the `k`-th unsigned number of the field `tag` in `ifd`.
    fn uint_of(&self, tag: Tag, ifd: In, k: usize) -> (r: Option<u32>)
        ensures
            r == uint_at(self.spec_fields(), tag, ifd, k as int),
    {
        match self.get_field(tag, ifd) {
            Some(f) => f.value.get_uint(k),
            None => None,
        }
    }

    /// Returns the first unsigned number of the field `tag` in `ifd`, if it
    /// fits in 16 bits.
    fn u16_of(&self, tag: Tag, ifd: In) -> (r: Option<u16>)
        ensures
            r == u16_at(self.spec_fields(), tag, ifd),
    {
        match self.uint_of(tag, ifd, 0) {
            Some(v) => if v <= 0xffff { Some(v as u16) } else { None },
            None => None,
        }
    }
}

/// The index of the first field of `fs` with `tag` in any IFD, at or
/// after `i`.
pub open spec fn first_with_tag(fs: Seq<Field>, tag: Tag, i: int) -> Option<int>
    decreases fs.len() - i,
{
    if i < 0 || i >= fs.len() {
        None
    } else if fs[i].tag == tag {
        Some(i)
    } else {
        first_with_tag(fs, tag, i + 1)
    }
}

/// The `Make` the fields state: the first string of the first `Make`
/// field, where it is UTF-8.
pub open spec fn make_of(fs: Seq<Field>) -> Option<Seq<u8>> {
    match first_with_tag(fs, Tag(Context::Tiff, 0x010f), 0) {
        Some(i) => match fs[i].value@ {
            ValueView::Ascii(v) => if v.len() > 0 && vstd::utf8::valid_utf8(v[0]) { Some(v[0]) } else { None },
            _ => None,
        },
        None => None,
    }
}

/// Whether no two fields of `fs` have the same tag.
pub open spec fn distinct_tags(fs: Seq<MakerNoteField>) -> bool {
    forall|i: int, j: int| 0 <= i < j < fs.len() ==> fs[i].tag != fs[j].tag
}

/// `s` with `f` put in place of the field of the same tag, or after the
/// others where there is none.
pub open spec fn keyed_insert(s: Seq<MakerNoteField>, f: MakerNoteField) -> Seq<MakerNoteField> {
    match mn_last(s, f.tag) {
        Some(i) => s.update(i, f),
        None => s.push(f),
    }
}

/// The fields `s` one per tag, each tag where it first came, holding the
/// last field of that tag.
pub open spec fn keyed_all(s: Seq<MakerNoteField>) -> Seq<MakerNoteField>
    decreases s.len(),
{
    if s.len() == 0 { seq![] } else { keyed_insert(keyed_all(s.drop_last()), s.last()) }
}

/// Puts `f` in `v`, replacing the field of the same tag where there is one.
fn insert_field(v: &mut Vec<MakerNoteField>, f: MakerNoteField)
    requires
        distinct_tags(old(v)@),
    ensures
        distinct_tags(final(v)@),
        final(v)@ == keyed_insert(old(v)@, f),
        mn_last(final(v)@, f.tag) is Some,
        forall|t: MakerTag| t != f.tag ==> #[trigger] mn_last(final(v)@, t) == mn_last(old(v)@, t),
{
    let mut i: usize = 0;
    while i < v.len()
        invariant
            i <= v@.len(),
            v@ == old(v)@,
            distinct_tags(v@),
            forall|j: int| 0 <= j < i ==> v@[j].tag != f.tag,
        decreases v@.len() - i,
    {
        if v[i].tag == f.tag {
            let ghost before = v@;
            proof { lemma_mn_last_at(before, f.tag, i as int); }
            v.set(i, f);
            proof { lemma_replace_keeps_lookups(before, i as int, f); }
            return;
        }
        i = i + 1;
    }
    let ghost before = v@;
    proof { lemma_mn_last_none(before, f.tag); }
    v.push(f);
    proof { lemma_push_keeps_lookups(before, f); }
}

proof fn lemma_mn_last_none(s: Seq<MakerNoteField>, t: MakerTag)
    requires
        forall|j: int| 0 <= j < s.len() ==> s[j].tag != t,
    ensures
        mn_last(s, t) is None,
    decreases s.len(),
{
    if s.len() > 0 {
        lemma_mn_last_none(s.drop_last(), t);
    }
}

proof fn lemma_mn_last_at(s: Seq<MakerNoteField>, t: MakerTag, i: int)
    requires
        0 <= i < s.len(),
        s[i].tag == t,
        forall|j: int| i < j < s.len() ==> s[j].tag != t,
    ensures
        mn_last(s, t) == Some(i),
    decreases s.len(),
{
    if i < s.len() - 1 {
        lemma_mn_last_at(s.drop_last(), t, i);
    }
}

proof fn lemma_mn_last_unique(s: Seq<MakerNoteField>, t: MakerTag)
    requires
        distinct_tags(s),
    ensures
        match mn_last(s, t) {
            Some(i) => 0 <= i < s.len() && s[i].tag == t,
            None => forall|j: int| 0 <= j < s.len() ==> s[j].tag != t,
        },
    decreases s.len(),
{
    if s.len() > 0 && s.last().tag != t {
        let d = s.drop_last();
        assert(distinct_tags(d)) by {
            assert forall|i: int, j: int| 0 <= i < j < d.len() implies d[i].tag != d[j].tag by {
                assert(d[i] == s[i] && d[j] == s[j]);
            }
        }
        lemma_mn_last_unique(d, t);
        assert forall|j: int| 0 <= j < s.len() - 1 implies s[j] == d[j] by {}
    }
}

proof fn lemma_replace_keeps_lookups(s: Seq<MakerNoteField>, i: int, f: MakerNoteField)
    requires
        distinct_tags(s),
        0 <= i < s.len(),
        s[i].tag == f.tag,
    ensures
        distinct_tags(s.update(i, f)),
        mn_last(s.update(i, f), f.tag) is Some,
        forall|t: MakerTag| t != f.tag ==> #[trigger] mn_last(s.update(i, f), t) == mn_last(s, t),
{
    let u = s.update(i, f);
    lemma_mn_last_at(u, f.tag, i);
    assert forall|t: MakerTag| t != f.tag implies #[trigger] mn_last(u, t) == mn_last(s, t) by {
        lemma_mn_last_unique(s, t);
        match mn_last(s, t) {
            Some(k) => {
                lemma_mn_last_at(s, t, k);
                lemma_mn_last_at(u, t, k);
            },
            None => {
                lemma_mn_last_none(u, t);
            },
        }
    }
}

proof fn lemma_push_keeps_lookups(s: Seq<MakerNoteField>, f: MakerNoteField)
    requires
        distinct_tags(s),
        forall|j: int| 0 <= j < s.len() ==> s[j].tag != f.tag,
    ensures
        distinct_tags(s.push(f)),
        mn_last(s.push(f), f.tag) is Some,
        forall|t: MakerTag| t != f.tag ==> #[trigger] mn_last(s.push(f), t) == mn_last(s, t),
{
    let u = s.push(f);
    assert(u.drop_last() =~= s);
}

/// Whether `mn`, `vendor` and `at` are what the MakerNote among `fs`
/// comes to: the first field of tag MakerNote, an UNDEFINED value, gives
/// its position and is parsed with the fields' `Make`; the vendor, where it
/// is known, is the one its header and `Make` name; its fields have
/// distinct tags, and there are none where it fails. Without such a field
/// there is no MakerNote.
pub open spec fn maker_note_from(fs: Seq<Field>, mn: Seq<MakerNoteField>, vendor: Result<MakerNoteVendor, Error>, at: u32) -> bool {
    &&& distinct_tags(mn)
    &&& match first_with_tag(fs, Tag(Context::Exif, 0x927c), 0) {
        Some(i) => match fs[i].value@ {
            ValueView::Undefined(d, o) => {
                &&& at == o
                &&& exists|r| #[trigger] made_note(d, o, make_of(fs), r) && match r {
                    Ok((found, v, _, _)) => vendor == Ok::<MakerNoteVendor, Error>(v) && mn == keyed_all(found@),
                    Err(e) => vendor == Err::<MakerNoteVendor, Error>(e) && mn.len() == 0,
                }
            },
            _ => mn.len() == 0 && vendor == Err::<MakerNoteVendor, Error>(Error::MakerNoteNotFound) && at == 0,
        },
        None => mn.len() == 0 && vendor == Err::<MakerNoteVendor, Error>(Error::MakerNoteNotFound) && at == 0,
    }
}

/// What the MakerNote among `fields` comes to: its fields by tag (the last
/// of each tag), its vendor or why there is none, and where it sits
/// relative to the TIFF header.
fn parse_maker_note_internal(fields: &[Field]) -> (r: (Vec<MakerNoteField>, Result<MakerNoteVendor, Error>, u32))
    ensures
        maker_note_from(fields@, r.0@, r.1, r.2),
{
    let mut empty: Vec<MakerNoteField> = Vec::new();
    let mut i: usize = 0;
    let mut note: Option<usize> = None;
    while i < fields.len()
        invariant_except_break
            note is None,
        invariant
            i <= fields@.len(),
            first_with_tag(fields@, Tag(Context::Exif, 0x927c), 0) == first_with_tag(fields@, Tag(Context::Exif, 0x927c), i as int),
        ensures
            match note {
                Some(k) => k < fields@.len() && first_with_tag(fields@, Tag(Context::Exif, 0x927c), 0) == Some(k as int),
                None => first_with_tag(fields@, Tag(Context::Exif, 0x927c), 0) is None,
            },
        decreases fields@.len() - i,
    {
        if fields[i].tag == Tag(Context::Exif, 0x927c) {
            note = Some(i);
            break;
        }
        i = i + 1;
    }
    let k = match note {
        Some(k) => k,
        None => return (empty, Err(Error::MakerNoteNotFound), 0),
    };
    let (data, offset) = match &fields[k].value {
        Value::Undefined(d, o) => (d, *o),
        _ => return (empty, Err(Error::MakerNoteNotFound), 0),
    };
    // The `Make` field's first string, where it is UTF-8.
    let mut j: usize = 0;
    let mut make_at: Option<usize> = None;
    while j < fields.len()
        invariant_except_break
            make_at is None,
        invariant
            j <= fields@.len(),
            first_with_tag(fields@, Tag(Context::Tiff, 0x010f), 0) == first_with_tag(fields@, Tag(Context::Tiff, 0x010f), j as int),
        ensures
            match make_at {
                Some(m) => m < fields@.len() && first_with_tag(fields@, Tag(Context::Tiff, 0x010f), 0) == Some(m as int),
                None => first_with_tag(fields@, Tag(Context::Tiff, 0x010f), 0) is None,
            },
        decreases fields@.len() - j,
    {
        if fields[j].tag == Tag(Context::Tiff, 0x010f) {
            make_at = Some(j);
            break;
        }
        j = j + 1;
    }
    let make_text: Option<String> = match make_at {
        Some(m) => match &fields[m].value {
            Value::Ascii(v) => if v.len() > 0 { utf8_string(v[0].as_slice()) } else { None },
            _ => None,
        },
        None => None,
    };
    proof {
        if make_text is Some {
            vstd::utf8::decode_utf8_encode_utf8(make_of(fields@)->0);
        }
    }
    let make: Option<&str> = match &make_text {
        Some(t) => Some(t.as_str()),
        None => None,
    };
    assert(crate::make_note::maker_tag::make_bytes(make) == make_of(fields@));
    let res = parse_make_note_with_vendor(data.as_slice(), offset, make);
    let ghost r0 = res;
    assert(made_note(data@, offset, make_of(fields@), r0));
    match res {
        Ok((found, vendor, _le, _unresolved)) => {
            let map = keyed_fields(found);
            proof {
                lemma_note_from_parse(fields@, k as int, data@, offset, r0, map@, Ok::<MakerNoteVendor, Error>(vendor));
            }
            (map, Ok(vendor), offset)
        },
        Err(e) => {
            proof {
                assert(empty@.len() == 0);
                lemma_note_from_parse(fields@, k as int, data@, offset, r0, empty@, Err::<MakerNoteVendor, Error>(e));
            }
            (empty, Err(e), offset)
        },
    }
}

/// What parsing the MakerNote found first among `fs` gives is what
/// `maker_note_from` asks of the fields and vendor kept.
proof fn lemma_note_from_parse(fs: Seq<Field>, k: int, d: Seq<u8>, o: u32,
    r0: Result<(Vec<MakerNoteField>, MakerNoteVendor, bool, Vec<crate::make_note::UnresolvedValue>), Error>,
    mn: Seq<MakerNoteField>, vd: Result<MakerNoteVendor, Error>)
    requires
        first_with_tag(fs, Tag(Context::Exif, 0x927c), 0) == Some(k),
        0 <= k < fs.len(),
        fs[k].value@ == ValueView::Undefined(d, o),
        made_note(d, o, make_of(fs), r0),
        distinct_tags(mn),
        match r0 {
            Ok((f0, v0, _, _)) => vd == Ok::<MakerNoteVendor, Error>(v0) && mn == keyed_all(f0@),
            Err(e) => vd == Err::<MakerNoteVendor, Error>(e) && mn.len() == 0,
        },
    ensures
        maker_note_from(fs, mn, vd, o),
{
    let v = fs[k].value@;
    assert(v->Undefined_0 == d && v->Undefined_1 == o);
    assert(made_note(v->Undefined_0, v->Undefined_1, make_of(fs), r0));
}

/// The fields `found` one per tag, as `keyed_all` says.
fn keyed_fields(found: Vec<MakerNoteField>) -> (r: Vec<MakerNoteField>)
    ensures
        r@ == keyed_all(found@),
        distinct_tags(r@),
{
    let ghost all = found@;
    let mut found = found;
    // Taken from the end twice over, they come back in order.
    let mut rev: Vec<MakerNoteField> = Vec::new();
    while found.len() > 0
        invariant
            found@ == all.take(found@.len() as int),
            found@.len() <= all.len(),
            rev@.len() == all.len() - found@.len(),
            forall|j: int| 0 <= j < rev@.len() ==> #[trigger] rev@[j] == all[all.len() - 1 - j],
        decreases found@.len(),
    {
        let f = found.pop().unwrap();
        rev.push(f);
        assert(found@ =~= all.take(found@.len() as int));
    }
    let mut map: Vec<MakerNoteField> = Vec::new();
    assert(all.take(0) =~= seq![]);
    while rev.len() > 0
        invariant
            rev@.len() <= all.len(),
            forall|j: int| 0 <= j < rev@.len() ==> #[trigger] rev@[j] == all[all.len() - 1 - j],
            map@ == keyed_all(all.take(all.len() - rev@.len())),
            distinct_tags(map@),
        decreases rev@.len(),
    {
        let ghost k = all.len() - rev@.len();
        let f = rev.pop().unwrap();
        assert(f == all[k]);
        insert_field(&mut map, f);
        assert(all.take(k + 1).drop_last() =~= all.take(k));
    }
    assert(all.take(all.len() as int) =~= all);
    map
}

/// Reads every entry's value from `buf`, in order.
fn read_fields(buf: &Vec<u8>, entries: &Vec<IfdEntry>, little_endian: bool) -> (r: Vec<Field>)
    requires
        entries_ok(entries@, buf@.len() as int),
    ensures
        r@.len() == entries@.len(),
        forall|i: int| 0 <= i < r@.len() ==> field_read(entries@[i].field, #[trigger] r@[i], buf@, little_endian),
{
    let mut fields: Vec<Field> = Vec::new();
    let mut i: usize = 0;
    while i < entries.len()
        invariant
            entries_ok(entries@, buf@.len() as int),
            i <= entries@.len(),
            fields@.len() == i,
            forall|k: int| 0 <= k < i ==> field_read(entries@[k].field, #[trigger] fields@[k], buf@, little_endian),
        decreases entries@.len() - i,
    {
        assert(entries@[i as int].in_bounds(buf@.len() as int));
        fields.push(entries[i].ref_field(buf.as_slice(), little_endian));
        i = i + 1;
    }
    fields
}

/// Whether `r` is what the MPF data `s` holds, its values read in byte
/// order `le`: nothing where a parse of `s` as TIFF data fails; otherwise
/// a field for each the parse finds, its tag number kept.
pub open spec fn mpf_read(r: Seq<MpfField>, s: Seq<u8>, le: bool) -> bool {
    if crate::tiff::header_error(s) is Some || crate::tiff::tiff_parse(s, false).1 is Err {
        r.len() == 0
    } else {
        let g = crate::tiff::tiff_parse(s, false).0;
        &&& r.len() == crate::tiff::tiff_field_count(s, false)
        &&& forall|i: int| 0 <= i < g.entries.len() ==> {
            let f = g.entries[i].spec_field();
            &&& (#[trigger] r[i]).tag == MpfTag(f.tag.1)
            &&& field_read(f, Field { tag: f.tag, ifd_num: f.ifd_num, value: r[i].value }, s, le)
        }
    }
}

/// What the MPF data `mpf` holds: a TIFF structure whose entries become MPF
/// fields, read in byte order `little_endian`; nothing where it cannot be
/// parsed.
pub(crate) fn parse_mpf_internal(mpf: &[u8], little_endian: bool) -> (r: Vec<MpfField>)
    ensures
        mpf_read(r@, mpf@, little_endian),
{
    let mut parser = crate::tiff::Parser::new();
    proof { crate::tiff::lemma_fresh_gathered(parser, false); }
    if parser.parse(mpf).is_err() {
        return Vec::new();
    }
    let ghost fields_spec = parser.entries@;
    let mut out: Vec<MpfField> = Vec::new();
    let mut i: usize = 0;
    while i < parser.entries.len()
        invariant
            entries_ok(parser.entries@, mpf@.len() as int),
            i <= parser.entries@.len(),
            out@.len() == i,
            forall|k: int| 0 <= k < i ==> {
                let f = parser.entries@[k].spec_field();
                &&& (#[trigger] out@[k]).tag == MpfTag(f.tag.1)
                &&& field_read(f, Field { tag: f.tag, ifd_num: f.ifd_num, value: out@[k].value }, mpf@, little_endian)
            },
        decreases parser.entries@.len() - i,
    {
        assert(parser.entries@[i as int].in_bounds(mpf@.len() as int));
        let f = parser.entries[i].ref_field(mpf, little_endian);
        out.push(MpfField::new(MpfTag(f.tag.1), f.value));
        i = i + 1;
    }
    proof {
        let g = crate::tiff::tiff_parse(mpf@, false).0;
        if crate::tiff::header_rw2(mpf@) {
            assert forall|k: int| 0 <= k < g.entries.len() implies parser.entries@[k] == g.entries[k] by {}
        }
        let n = crate::tiff::tiff_synthesized(mpf@, false).len();
        assert(parser.entries@.len() == g.entries.len() + n);
    }
    out
}

impl Exif {
    /// Builds the attributes from the TIFF data `buf` and the entries the
    /// parser found in it, with the TIFF header at `tiff_base` in the file;
    /// every value is read, and the MakerNote among them is parsed.
    pub fn new_at(buf: Vec<u8>, entries: Vec<IfdEntry>, little_endian: bool, tiff_base: u64) -> (r: Exif)
        requires
            entries_ok(entries@, buf@.len() as int),
        ensures
            r.spec_buf() == buf@,
            r.spec_little_endian() == little_endian,
            r.spec_tiff_base() == tiff_base,
            r.spec_fields().len() == entries@.len(),
            forall|i: int| 0 <= i < entries@.len() ==> field_read(entries@[i].field, #[trigger] r.spec_fields()[i], buf@, little_endian),
            maker_note_from(r.spec_fields(), r.spec_maker_note_fields(), r.spec_maker_note_vendor(), r.spec_maker_note_offset()),
            r.spec_container_images().len() == 0,
            r.spec_mpf_fields().len() == 0,
    {
        let fields = read_fields(&buf, &entries, little_endian);
        let (mn, vendor, at) = parse_maker_note_internal(fields.as_slice());
        Exif {
            buf,
            fields,
            little_endian,
            tiff_base,
            maker_note_fields: mn,
            maker_note_vendor: vendor,
            maker_note_offset: at,
            container_images: Vec::new(),
            mpf_fields: Vec::new(),
        }
    }

    /// Builds the attributes with the TIFF header at the start of the file.
    pub fn new(buf: Vec<u8>, entries: Vec<IfdEntry>, little_endian: bool) -> (r: Exif)
        requires
            entries_ok(entries@, buf@.len() as int),
        ensures
            r.spec_buf() == buf@,
            r.spec_little_endian() == little_endian,
            r.spec_tiff_base() == 0,
            r.spec_fields().len() == entries@.len(),
            forall|i: int| 0 <= i < entries@.len() ==> field_read(entries@[i].field, #[trigger] r.spec_fields()[i], buf@, little_endian),
            maker_note_from(r.spec_fields(), r.spec_maker_note_fields(), r.spec_maker_note_vendor(), r.spec_maker_note_offset()),
            r.spec_container_images().len() == 0,
            r.spec_mpf_fields().len() == 0,
    {
        Self::new_at(buf, entries, little_endian, 0)
    }

    /// As `new_at`, with the MPF data of the file, whose fields are read in
    /// the TIFF data's byte order.
    pub fn new_with_mpf(buf: Vec<u8>, entries: Vec<IfdEntry>, little_endian: bool, mpf_buf: Vec<u8>,
        mpf_app2_offset: u64, tiff_base: u64) -> (r: Exif)
        requires
            entries_ok(entries@, buf@.len() as int),
        ensures
            r.spec_buf() == buf@,
            r.spec_little_endian() == little_endian,
            r.spec_tiff_base() == tiff_base,
            r.spec_fields().len() == entries@.len(),
            forall|i: int| 0 <= i < entries@.len() ==> field_read(entries@[i].field, #[trigger] r.spec_fields()[i], buf@, little_endian),
            maker_note_from(r.spec_fields(), r.spec_maker_note_fields(), r.spec_maker_note_vendor(), r.spec_maker_note_offset()),
            r.spec_container_images().len() == 0,
            mpf_read(r.spec_mpf_fields(), mpf_buf@, little_endian),
    {
        let fields = read_fields(&buf, &entries, little_endian);
        let (mn, vendor, at) = parse_maker_note_internal(fields.as_slice());
        let mpf_fields = parse_mpf_internal(mpf_buf.as_slice(), little_endian);
        Exif {
            buf,
            fields,
            little_endian,
            tiff_base,
            maker_note_fields: mn,
            maker_note_vendor: vendor,
            maker_note_offset: at,
            container_images: Vec::new(),
            mpf_fields,
        }
    }

    /// Records the images the container addresses directly, in file offsets.
    pub fn set_container_images(&mut self, images: Vec<(u64, u32)>)
        ensures
            final(self).spec_container_images() == images@,
            final(self).spec_buf() == old(self).spec_buf(),
            final(self).spec_fields() == old(self).spec_fields(),
            final(self).spec_little_endian() == old(self).spec_little_endian(),
            final(self).spec_tiff_base() == old(self).spec_tiff_base(),
            final(self).spec_maker_note_fields() == old(self).spec_maker_note_fields(),
            final(self).spec_maker_note_vendor() == old(self).spec_maker_note_vendor(),
            final(self).spec_maker_note_offset() == old(self).spec_maker_note_offset(),
            final(self).spec_mpf_fields() == old(self).spec_mpf_fields(),
    {
        self.container_images = images;
    }

    /// Returns the MPF field of `tag`; where several are, the last.
    pub fn get_mpf_field(&self, tag: MpfTag) -> (r: Option<&MpfField>)
        ensures
            match mpf_last(self.spec_mpf_fields(), tag) {
                Some(i) => r == Some(&self.spec_mpf_fields()[i]),
                None => r is None,
            },
    {
        let mut i: usize = self.mpf_fields.len();
        assert(self.mpf_fields@.subrange(0, i as int) =~= self.mpf_fields@);
        while i > 0
            invariant
                i <= self.mpf_fields@.len(),
                mpf_last(self.mpf_fields@, tag) == mpf_last(self.mpf_fields@.subrange(0, i as int), tag),
            decreases i,
        {
            assert(self.mpf_fields@.subrange(0, i as int).drop_last() =~= self.mpf_fields@.subrange(0, i - 1));
            let f = &self.mpf_fields[i - 1];
            if f.tag == tag {
                return Some(f);
            }
            i = i - 1;
        }
        None
    }

    /// Returns the MakerNote vendor, or why there is none.
    pub fn maker_note_vendor(&self) -> (r: Result<MakerNoteVendor, &Error>)
        ensures
            match self.spec_maker_note_vendor() {
                Ok(v) => r == Ok::<MakerNoteVendor, &Error>(v),
                Err(e) => r matches Err(e2) && *e2 == e,
            },
    {
        match &self.maker_note_vendor {
            Ok(v) => Ok(*v),
            Err(e) => Err(e),
        }
    }

    /// Returns the MakerNote field of `tag`.
    pub fn get_maker_note_field(&self, tag: &MakerTag) -> (r: Option<&MakerNoteField>)
        ensures
            match mn_last(self.spec_maker_note_fields(), *tag) {
                Some(i) => r == Some(&self.spec_maker_note_fields()[i]),
                None => r is None,
            },
    {
        find_maker_field(self.maker_note_fields.as_slice(), *tag)
    }

    /// Returns the MakerNote's fields, one per tag.
    pub fn maker_note_fields(&self) -> (r: &[MakerNoteField])
        ensures
            r@ == self.spec_maker_note_fields(),
    {
        self.maker_note_fields.as_slice()
    }
}

/// The first MP entry of `d`, among the first `k`, that is the primary
/// image.
pub open spec fn first_primary(d: Seq<u8>, le: bool, k: nat, n: nat) -> Option<MpImageEntry>
    decreases n - k,
{
    if k >= n {
        None
    } else if mp_entry_of(d, k as int, le).spec_is_primary() {
        Some(mp_entry_of(d, k as int, le))
    } else {
        first_primary(d, le, k + 1, n)
    }
}

/// The primary image the MPF index states.
pub open spec fn mpf_primary(fs: Seq<MpfField>, le: bool) -> Option<EmbeddedSubImage> {
    match mpf_last(fs, MpfTag(0xb002)) {
        Some(i) => match fs[i].value@ {
            ValueView::Undefined(d, _) => match first_primary(d, le, 0, d.len() / 16) {
                Some(e) => Some(plain_image(EmbeddedSubImageSource::Primary, e.image_size, e.image_data_offset)),
                None => None,
            },
            _ => None,
        },
        None => None,
    }
}

/// Every image the attributes address: each searched IFD's single strip
/// and the JPEG it points at, Panasonic's stored preview, the container's
/// boxes, the MakerNote's previews, and the MPF images.
pub open spec fn all_images(e: Exif) -> Seq<EmbeddedSubImage> {
    ifd_images(e.spec_fields(), e.spec_tiff_base(), 16)
        + opt_seq(panasonic_image(e.spec_fields(), e.spec_tiff_base()))
        + container_box_images(e.spec_container_images())
        + maker_note_images(e.spec_maker_note_fields(), e.spec_maker_note_vendor())
        + opt_seq(camera_settings_image(e.spec_maker_note_fields(), e.spec_maker_note_offset(), e.spec_tiff_base()))
        + mpf_images(e.spec_mpf_fields(), e.spec_little_endian())
}

impl Exif {
    fn strip_image_of(&self, ifd: In) -> (r: Option<EmbeddedSubImage>)
        ensures
            r == strip_image(self.spec_fields(), self.spec_tiff_base(), ifd),
    {
        let strip = self.get_field(Tag(Context::Tiff, 0x0111), ifd);
        let count = self.get_field(Tag(Context::Tiff, 0x0117), ifd);
        let (strip, count) = match (strip, count) {
            (Some(a), Some(b)) => (a, b),
            _ => return None,
        };
        // Only a single strip is one run of bytes.
        if strip.value.get_uint(1).is_some() || count.value.get_uint(1).is_some() {
            return None;
        }
        let (offset, length) = match (strip.value.get_uint(0), count.value.get_uint(0)) {
            (Some(o), Some(l)) => (o, l),
            _ => return None,
        };
        // `0xFFFFFFFF` is a sentinel, not an address.
        if length == 0 || offset == u32::MAX {
            return None;
        }
        Some(EmbeddedSubImage {
            source: EmbeddedSubImageSource::IfdStrip,
            length,
            offset: self.file_offset(offset as u64),
            ifd: Some(ifd),
            compression: self.u16_of(Tag(Context::Tiff, 0x0103), ifd),
            subfile_type: self.uint_of(Tag(Context::Tiff, 0x00fe), ifd, 0),
            photometric: self.u16_of(Tag(Context::Tiff, 0x0106), ifd),
            width: self.uint_of(Tag(Context::Tiff, 0x0100), ifd, 0),
            height: self.uint_of(Tag(Context::Tiff, 0x0101), ifd, 0),
        })
    }

    fn jpeg_image_of(&self, ifd: In) -> (r: Option<EmbeddedSubImage>)
        ensures
            r == jpeg_image(self.spec_fields(), self.spec_tiff_base(), ifd),
    {
        let (offset, length) = match (self.uint_of(Tag(Context::Tiff, 0x0201), ifd, 0),
            self.uint_of(Tag(Context::Tiff, 0x0202), ifd, 0)) {
            (Some(o), Some(l)) => (o, l),
            _ => return None,
        };
        if length == 0 {
            return None;
        }
        let source = if ifd == In(1) { EmbeddedSubImageSource::Thumbnail } else { EmbeddedSubImageSource::IfdImage };
        let mut img = EmbeddedSubImage::new_maker_note_preview(source, length, self.file_offset(offset as u64));
        img.ifd = Some(ifd);
        Some(img)
    }

    fn panasonic_image_of(&self) -> (r: Option<EmbeddedSubImage>)
        ensures
            r == panasonic_image(self.spec_fields(), self.spec_tiff_base()),
    {
        let mut i: usize = 0;
        while i < self.fields.len()
            invariant
                i <= self.fields@.len(),
                first_jpg_from_raw(self.fields@, 0) == first_jpg_from_raw(self.fields@, i as int),
            decreases self.fields@.len() - i,
        {
            let f = &self.fields[i];
            if f.tag.1 == 0x002e && f.ifd_num == In(0) {
                return match &f.value {
                    Value::Undefined(d, o) => {
                        if d.len() >= 2 && d[0] == 0xff && d[1] == 0xd8 && d.len() <= 0xffff_ffff {
                            let mut img = EmbeddedSubImage::new_maker_note_preview(
                                EmbeddedSubImageSource::IfdStrip, d.len() as u32, self.file_offset(*o as u64));
                            img.ifd = Some(In(0));
                            Some(img)
                        } else {
                            None
                        }
                    },
                    _ => None,
                };
            }
            i = i + 1;
        }
        None
    }

    fn camera_settings_image_of(&self) -> (r: Option<EmbeddedSubImage>)
        ensures
            r == camera_settings_image(self.spec_maker_note_fields(), self.spec_maker_note_offset(), self.spec_tiff_base()),
    {
        let fs = self.maker_note_fields.as_slice();
        let start = find_maker_field(fs, MakerTag::new(MakerNoteVendor::OlympusCameraSettings, 0x0101));
        let len = find_maker_field(fs, MakerTag::new(MakerNoteVendor::OlympusCameraSettings, 0x0102));
        let (start, len) = match (start, len) {
            (Some(a), Some(b)) => (a, b),
            _ => return None,
        };
        let (st, ln) = match (start.value.get_uint(0), len.value.get_uint(0)) {
            (Some(a), Some(b)) => (a, b),
            _ => return None,
        };
        if ln == 0 {
            return None;
        }
        // Its start counts from the MakerNote's own position.
        let at = self.maker_note_offset.saturating_add(st);
        Some(EmbeddedSubImage::new_maker_note_preview(EmbeddedSubImageSource::MakerNotePreview3, ln,
            self.file_offset(at as u64)))
    }

    fn mpf_images_of(&self) -> (r: Vec<EmbeddedSubImage>)
        ensures
            r@ == mpf_images(self.spec_mpf_fields(), self.spec_little_endian()),
    {
        let mut images: Vec<EmbeddedSubImage> = Vec::new();
        let field = match self.get_mpf_field(MpfTag(0xb002)) {
            Some(f) => f,
            None => return images,
        };
        let d = match &field.value {
            Value::Undefined(d, _) => d,
            _ => return images,
        };
        let le = self.little_endian;
        let entries = parse_mp_entry(d.as_slice(), le);
        let mut k: usize = 0;
        while k < entries.len()
            invariant
                entries@.len() == d@.len() / 16,
                forall|j: int| 0 <= j < entries@.len() ==> entry_at(#[trigger] entries@[j], d@, 16 * j, le),
                k <= entries@.len(),
                images@ == mp_images(d@, le, k as nat),
            decreases entries@.len() - k,
        {
            let e = entries[k];
            assert(entry_at(entries@[k as int], d@, 16 * k, le));
            assert(e == mp_entry_of(d@, k as int, le));
            if e.image_size > 0 && !e.is_primary() && (e.is_representative() || e.is_thumbnail()) {
                images.push(EmbeddedSubImage::new_mpf(e.image_size, e.image_data_offset));
            }
            k = k + 1;
        }
        images
    }

    /// Returns every image the file addresses, in a fixed order: per IFD
    /// (the eight chained ones, then the eight sub-images) its single strip
    /// and the JPEG it points at; Panasonic's stored preview; the
    /// container's boxes; the MakerNote's previews; the MPF images. Nothing
    /// is chosen among them.
    pub fn embedded_images(&self) -> (r: Vec<EmbeddedSubImage>)
        ensures
            r@ == all_images(*self),
    {
        let mut images: Vec<EmbeddedSubImage> = Vec::new();
        let mut k: usize = 0;
        while k < 16
            invariant
                k <= 16,
                images@ == ifd_images(self.spec_fields(), self.spec_tiff_base(), k as nat),
            decreases 16 - k,
        {
            let ifd = if k < 8 { In(k as u16) } else { In((16 + k - 8) as u16) };
            let ghost before = images@;
            if let Some(img) = self.strip_image_of(ifd) {
                images.push(img);
            }
            if let Some(img) = self.jpeg_image_of(ifd) {
                images.push(img);
            }
            assert(images@ =~= before + opt_seq(strip_image(self.spec_fields(), self.spec_tiff_base(), ifd))
                + opt_seq(jpeg_image(self.spec_fields(), self.spec_tiff_base(), ifd)));
            k = k + 1;
        }
        let ghost a = images@;
        if let Some(img) = self.panasonic_image_of() {
            images.push(img);
        }
        assert(images@ =~= a + opt_seq(panasonic_image(self.spec_fields(), self.spec_tiff_base())));
        let mut c: usize = 0;
        let ghost b = images@;
        while c < self.container_images.len()
            invariant
                c <= self.container_images@.len(),
                images@ == b + container_box_images(self.container_images@.subrange(0, c as int)),
            decreases self.container_images@.len() - c,
        {
            let (offset, length) = self.container_images[c];
            images.push(EmbeddedSubImage::new_maker_note_preview(EmbeddedSubImageSource::ContainerBox, length, offset));
            c = c + 1;
            assert(container_box_images(self.container_images@.subrange(0, c as int))
                =~= container_box_images(self.container_images@.subrange(0, c - 1))
                    .push(plain_image(EmbeddedSubImageSource::ContainerBox, length, offset)));
            assert(images@ =~= b + container_box_images(self.container_images@.subrange(0, c as int)));
        }
        assert(self.container_images@.subrange(0, self.container_images@.len() as int) =~= self.container_images@);
        let ghost m = images@;
        let mut mn = extract_maker_note_preview_info(self.maker_note_fields.as_slice(), &self.maker_note_vendor);
        images.append(&mut mn);
        if let Some(img) = self.camera_settings_image_of() {
            images.push(img);
        }
        let mut mp = self.mpf_images_of();
        images.append(&mut mp);
        assert(images@ =~= all_images(*self));
        images
    }

    /// Every image the file addresses; the same as `embedded_images`.
    pub fn thumbnails(&self) -> (r: Vec<EmbeddedSubImage>)
        ensures
            r@ == all_images(*self),
    {
        self.embedded_images()
    }

    /// Returns the primary image the MPF index states: the first entry
    /// that is the primary image, its offset from the start of the file.
    pub fn primary_image(&self) -> (r: Option<EmbeddedSubImage>)
        ensures
            r == mpf_primary(self.spec_mpf_fields(), self.spec_little_endian()),
    {
        let field = self.get_mpf_field(MpfTag(0xb002))?;
        let d = match &field.value {
            Value::Undefined(d, _) => d,
            _ => return None,
        };
        let le = self.little_endian;
        let entries = parse_mp_entry(d.as_slice(), le);
        let mut k: usize = 0;
        while k < entries.len()
            invariant
                entries@.len() == d@.len() / 16,
                forall|j: int| 0 <= j < entries@.len() ==> entry_at(#[trigger] entries@[j], d@, 16 * j, le),
                k <= entries@.len(),
                first_primary(d@, le, 0, entries@.len() as nat) == first_primary(d@, le, k as nat, entries@.len() as nat),
                mpf_primary(self.spec_mpf_fields(), self.spec_little_endian()) == match first_primary(d@, le, 0, entries@.len() as nat) {
                    Some(e) => Some(plain_image(EmbeddedSubImageSource::Primary, e.image_size, e.image_data_offset)),
                    None => None,
                },
            decreases entries@.len() - k,
        {
            let e = entries[k];
            assert(entry_at(entries@[k as int], d@, 16 * k, le));
            assert(e == mp_entry_of(d@, k as int, le));
            if e.is_primary() {
                return Some(EmbeddedSubImage::new_primary(e.image_size, e.image_data_offset));
            }
            k = k + 1;
        }
        None
    }
}

/// Each image an IFD states is among the embedded images in order: the
/// images of the first `k` IFDs searched come first, those of the
/// `k`-th next.
proof fn lemma_ifd_images_prefix(fs: Seq<Field>, base: u64, k: nat, n: nat)
    requires
        k <= n,
    ensures
        ifd_images(fs, base, k).len() <= ifd_images(fs, base, n).len(),
        forall|i: int| 0 <= i < ifd_images(fs, base, k).len() ==> #[trigger] ifd_images(fs, base, n)[i] == ifd_images(fs, base, k)[i],
    decreases n - k,
{
    if k < n {
        lemma_ifd_images_prefix(fs, base, k, (n - 1) as nat);
        let a = ifd_images(fs, base, (n - 1) as nat);
        let b = ifd_images(fs, base, n);
        assert forall|i: int| 0 <= i < a.len() implies #[trigger] b[i] == a[i] by {}
    }
}

/// Every IFD searched (the eight chained IFDs and the eight sub-images)
/// that addresses a JPEG, or is itself an image by its single strip, has
/// that image among the embedded images: none is skipped because another
/// IFD states one too.
pub proof fn lemma_every_addressed_image_is_reported(e: Exif, k: int)
    requires
        0 <= k < 16,
    ensures
        strip_image(e.spec_fields(), e.spec_tiff_base(), image_ifd(k)) matches Some(img)
            ==> all_images(e).contains(img),
        jpeg_image(e.spec_fields(), e.spec_tiff_base(), image_ifd(k)) matches Some(img)
            ==> all_images(e).contains(img),
{
    let fs = e.spec_fields();
    let base = e.spec_tiff_base();
    let before = ifd_images(fs, base, k as nat);
    let upto = ifd_images(fs, base, (k + 1) as nat);
    let s = opt_seq(strip_image(fs, base, image_ifd(k)));
    let j = opt_seq(jpeg_image(fs, base, image_ifd(k)));
    assert(upto == before + s + j);
    lemma_ifd_images_prefix(fs, base, (k + 1) as nat, 16);
    let all16 = ifd_images(fs, base, 16);
    let all = all_images(e);
    assert forall|i: int| 0 <= i < all16.len() implies #[trigger] all[i] == all16[i] by {}
    if let Some(img) = strip_image(fs, base, image_ifd(k)) {
        let at = before.len() as int;
        assert(upto[at] == img);
        assert(all16[at] == img);
        assert(all[at] == img);
    }
    if let Some(img) = jpeg_image(fs, base, image_ifd(k)) {
        let at = (before.len() + s.len()) as int;
        assert(upto[at] == img);
        assert(all16[at] == img);
        assert(all[at] == img);
    }
}

/// Every IFD the TIFF parser gives out (the chained IFDs 0 to 7 and the
/// sub-images 16 to 23) that addresses a JPEG of non-zero length by its
/// `JPEGInterchangeFormat` and `JPEGInterchangeFormatLength`, or that is an
/// image by its single strip (not the `0xFFFFFFFF` sentinel, of non-zero
/// length), has that image among the embedded images: at the file offset
/// the TIFF offset comes to, with its length and its IFD; IFD1's JPEG is
/// the thumbnail, any other IFD's a plain IFD image.
pub proof fn lemma_every_parser_ifd_image_is_reported(e: Exif, n: u16, o: u32, l: u32)
    requires
        n < 8 || (16 <= n < 24),
    ensures
        ({
            let fs = e.spec_fields();
            let base = e.spec_tiff_base();
            let all = all_images(e);
            &&& (uint_at(fs, Tag(Context::Tiff, 0x0201), In(n), 0) == Some(o)
                && uint_at(fs, Tag(Context::Tiff, 0x0202), In(n), 0) == Some(l) && l > 0)
                ==> exists|i: int| 0 <= i < all.len() && #[trigger] all[i].ifd == Some(In(n))
                    && all[i].offset == sat_add(base, o as u64) && all[i].length == l
                    && all[i].source == (if n == 1 { EmbeddedSubImageSource::Thumbnail } else { EmbeddedSubImageSource::IfdImage })
            &&& (last_field(fs, Tag(Context::Tiff, 0x0111), In(n)) is Some
                && last_field(fs, Tag(Context::Tiff, 0x0117), In(n)) is Some
                && uint_at(fs, Tag(Context::Tiff, 0x0111), In(n), 1) is None
                && uint_at(fs, Tag(Context::Tiff, 0x0117), In(n), 1) is None
                && uint_at(fs, Tag(Context::Tiff, 0x0111), In(n), 0) == Some(o)
                && uint_at(fs, Tag(Context::Tiff, 0x0117), In(n), 0) == Some(l)
                && l > 0 && o != u32::MAX)
                ==> exists|i: int| 0 <= i < all.len() && #[trigger] all[i].ifd == Some(In(n))
                    && all[i].offset == sat_add(base, o as u64) && all[i].length == l
                    && all[i].source == EmbeddedSubImageSource::IfdStrip
        }),
{
    let k: int = if n < 8 { n as int } else { n - 8 };
    assert(image_ifd(k) == In(n));
    lemma_every_addressed_image_is_reported(e, k);
    let fs = e.spec_fields();
    let base = e.spec_tiff_base();
    let all = all_images(e);
    if let Some(img) = jpeg_image(fs, base, In(n)) {
        assert(all.contains(img));
        let i = choose|i: int| 0 <= i < all.len() && all[i] == img;
        assert(all[i].ifd == Some(In(n)));
    }
    if let Some(img) = strip_image(fs, base, In(n)) {
        assert(all.contains(img));
        let i = choose|i: int| 0 <= i < all.len() && all[i] == img;
        assert(all[i].ifd == Some(In(n)));
    }
}

/// A lookup finds a field exactly when one is listed with that tag in that
/// IFD, and what it finds is the last such.
pub proof fn lemma_get_field_finds_the_last_listed(fs: Seq<Field>, tag: Tag, ifd: In)
    ensures
        last_field(fs, tag, ifd) is Some <==> exists|j: int| 0 <= j < fs.len() && fs[j].tag == tag && fs[j].ifd_num == ifd,
        last_field(fs, tag, ifd) matches Some(i) ==> {
            &&& 0 <= i < fs.len()
            &&& fs[i].tag == tag && fs[i].ifd_num == ifd
            &&& forall|j: int| i < j < fs.len() ==> !(fs[j].tag == tag && fs[j].ifd_num == ifd)
        },
    decreases fs.len(),
{
    if fs.len() > 0 {
        let d = fs.drop_last();
        lemma_get_field_finds_the_last_listed(d, tag, ifd);
        if !(fs.last().tag == tag && fs.last().ifd_num == ifd) {
            if exists|j: int| 0 <= j < fs.len() && fs[j].tag == tag && fs[j].ifd_num == ifd {
                let j = choose|j: int| 0 <= j < fs.len() && fs[j].tag == tag && fs[j].ifd_num == ifd;
                assert(d[j] == fs[j]);
            }
            if let Some(i) = last_field(d, tag, ifd) {
                assert(fs[i] == d[i]);
                assert forall|j: int| i < j < fs.len() implies !(fs[j].tag == tag && fs[j].ifd_num == ifd) by {
                    if j < d.len() {
                        assert(d[j] == fs[j]);
                    }
                }
            } else {
                assert forall|j: int| 0 <= j < fs.len() implies !(fs[j].tag == tag && fs[j].ifd_num == ifd) by {
                    if j < d.len() {
                        assert(d[j] == fs[j]);
                    }
                }
            }
        }
    }
}

/// MakerNote fields of distinct tags (as every parse gives them) are each
/// the one a lookup of its tag finds.
pub proof fn lemma_each_maker_note_field_is_found(fs: Seq<MakerNoteField>, j: int)
    requires
        distinct_tags(fs),
        0 <= j < fs.len(),
    ensures
        mn_last(fs, fs[j].tag) == Some(j),
{
    lemma_mn_last_at(fs, fs[j].tag, j);
}

/// Putting the fields one per tag keeps, for every tag, the last field of
/// that tag: a lookup in what `keyed_all` gives finds what the last of
/// the tag was.
pub proof fn lemma_keyed_keeps_the_last(s: Seq<MakerNoteField>, t: MakerTag)
    ensures
        distinct_tags(keyed_all(s)),
        match mn_last(s, t) {
            Some(i) => mn_last(keyed_all(s), t) matches Some(k) && keyed_all(s)[k] == s[i],
            None => mn_last(keyed_all(s), t) is None,
        },
    decreases s.len(),
{
    if s.len() > 0 {
        let d = s.drop_last();
        let f = s.last();
        lemma_keyed_keeps_the_last(d, t);
        lemma_keyed_keeps_the_last(d, f.tag);
        lemma_mn_last_range(d, t);
        let kd = keyed_all(d);
        lemma_mn_last_unique(kd, t);
        lemma_mn_last_unique(kd, f.tag);
        match mn_last(kd, f.tag) {
            Some(i) => {
                lemma_replace_keeps_lookups(kd, i, f);
                let u = kd.update(i, f);
                if t == f.tag {
                    lemma_mn_last_unique(u, t);
                    assert(u[i].tag == t);
                    assert forall|j: int| i < j < u.len() implies u[j].tag != t by {
                        assert(u[j] == kd[j]);
                    }
                    lemma_mn_last_at(u, t, i);
                } else {
                    if let Some(k) = mn_last(kd, t) {
                        assert(k != i);
                        assert(u[k] == kd[k]);
                    }
                }
            },
            None => {
                lemma_push_keeps_lookups(kd, f);
                let u = kd.push(f);
                if t == f.tag {
                    lemma_mn_last_at(u, t, kd.len() as int);
                } else {
                    if let Some(k) = mn_last(kd, t) {
                        assert(u[k] == kd[k]);
                    }
                }
            },
        }
        if t != f.tag {
            if let Some(i) = mn_last(d, t) {
                assert(s[i] == d[i]);
            }
        }
    }
}

/// The field a lookup finds lies in the list and has the tag looked for.
proof fn lemma_mn_last_range(s: Seq<MakerNoteField>, t: MakerTag)
    ensures
        mn_last(s, t) matches Some(i) ==> 0 <= i < s.len() && s[i].tag == t,
    decreases s.len(),
{
    if s.len() > 0 && s.last().tag != t {
        lemma_mn_last_range(s.drop_last(), t);
        if let Some(i) = mn_last(s.drop_last(), t) {
            assert(s[i] == s.drop_last()[i]);
        }
    }
}

} // verus!
