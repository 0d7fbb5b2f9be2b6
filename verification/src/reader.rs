use vstd::prelude::*;
use crate::error::{Error, PartialResult};
use crate::exifimpl::{Exif, JPEG_TIFF_BASE, maker_note_from, opt_seq};
use crate::tag::{Context, Tag};
use crate::tiff::{Field, IfdEntry, In, Parser, entries_ok, ifd_num_ok, header_error, is_tiff, TIFF_LE,
    field_view, fields_view, header_le, tiff_parse, tiff_fields, tiff_field_count, lemma_fresh_gathered, lemma_read_entries_are_tiff_fields,
    tiff_be_sig, tiff_le_sig, orf_ro_sig, orf_rs_sig, rw2_le_sig};
use crate::bytes::spec_starts_with;
use crate::value::{Value, ValueView};
use crate::bytes::spec_u16;
use crate::mpf::{parse_mpf, mpf_ifd_ok, mpf_ifd_readable, offsets_made_absolute};
use crate::isobmff::crx::vecs_view;
use crate::jpeg::{opt_bytes, is_jpeg, get_exif_and_mpf_sub, jpeg_segments, SegmentScan};
use crate::{isobmff, raf, mrw, crw, x3f, jpeg, png, webp};

verus! {

/// The smallest valid TIFF: little endian, one IFD of no entries. The
/// parser is given it where a container holds no TIFF and every field is
/// synthesised.
pub const EMPTY_TIFF: [u8; 14] = [0x49, 0x49, 42, 0, 8, 0, 0, 0, 0, 0, 0, 0, 0, 0];

/// How many leading bytes a container is recognised by.
pub const HEAD_LEN: usize = 4096;

/// What a parse comes to: the attributes, or, where errors were collected
/// and there were some, the attributes with those errors.
pub open spec fn finished(exif: Exif, errors: Option<Vec<Error>>, r: Result<Exif, Error>) -> bool {
    match errors {
        Some(v) => if v@.len() > 0 {
            r matches Err(Error::PartialResult(p)) && p.spec_exif() == exif && p.spec_errors() == v@
        } else {
            r == Ok::<Exif, Error>(exif)
        },
        None => r == Ok::<Exif, Error>(exif),
    }
}

/// Whether the attributes `exif` were read from the TIFF data `data`, with
/// its header at `base` in the file, by a parser collecting errors or not:
/// the data kept, its byte order, the fields the parse finds with their
/// values read, and the MakerNote among them parsed.
pub open spec fn read_from(exif: Exif, data: Seq<u8>, base: u64, collect: bool) -> bool {
    &&& exif.spec_buf() == data
    &&& exif.spec_little_endian() == header_le(data)
    &&& exif.spec_tiff_base() == base
    &&& tiff_fields(exif.spec_fields(), data, collect, header_le(data))
    &&& maker_note_from(exif.spec_fields(), exif.spec_maker_note_fields(), exif.spec_maker_note_vendor(),
        exif.spec_maker_note_offset())
}

/// Whether `r` is what a parse of TIFF data `data` with its header at
/// `base` comes to: the header's error where it has one; otherwise the
/// error that stopped the parse, where errors are not collected; otherwise
/// the attributes read, with the errors gone past where there were any.
pub open spec fn raw_result(data: Seq<u8>, base: u64, collect: bool, r: Result<Exif, Error>) -> bool {
    match header_error(data) {
        Some(e) => r == Err::<Exif, Error>(e),
        None => match tiff_parse(data, collect) {
            (_, Err(e)) => r == Err::<Exif, Error>(e),
            (g, Ok(())) => match g.errors {
                Some(v) => if v.len() > 0 {
                    r matches Err(Error::PartialResult(p)) && read_from(p.spec_exif(), data, base, collect)
                        && p.spec_errors() == v
                } else {
                    r matches Ok(x) && read_from(x, data, base, collect)
                },
                None => r matches Ok(x) && read_from(x, data, base, collect),
            },
        },
    }
}

/// The attributes a result carries: those read, or, where errors are
/// collected, those of a partial result.
pub open spec fn result_exif(r: Result<Exif, Error>, collect: bool) -> Option<Exif> {
    match r {
        Ok(x) => Some(x),
        Err(Error::PartialResult(p)) => if collect { Some(p.spec_exif()) } else { None },
        _ => None,
    }
}

/// Whether a field may be added to those a parser found: its value read,
/// and its IFD number one the parser gives out.
pub open spec fn fit(f: Field) -> bool {
    !(f.value is Unknown) && ifd_num_ok(f.ifd_num)
}

/// Whether a field, as what it states, may be added to those a parser
/// found: its value read, and its IFD number one the parser gives out.
pub open spec fn fit_view(v: (Tag, In, ValueView)) -> bool {
    !(v.2 is Unknown) && ifd_num_ok(v.1)
}

/// Whether `fields`, past the first `n`, state what the fit ones of
/// `extra` state.
pub open spec fn extras_follow(fields: Seq<Field>, n: int, extra: Seq<(Tag, In, ValueView)>) -> bool {
    let kept = extra.filter(|v: (Tag, In, ValueView)| fit_view(v));
    &&& fields.len() == n + kept.len()
    &&& forall|j: int| 0 <= j < kept.len() ==> field_view(#[trigger] fields[n + j]) == kept[j]
}

/// Keeping the fit fields and then taking what they state is taking what
/// they state and then keeping the fit ones.
proof fn lemma_filter_views(s: Seq<Field>)
    ensures
        fields_view(s.filter(|f: Field| fit(f))) == fields_view(s).filter(|v: (Tag, In, ValueView)| fit_view(v)),
    decreases s.len(),
{
    reveal(Seq::filter);
    if s.len() > 0 {
        let d = s.drop_last();
        lemma_filter_views(d);
        assert(fields_view(s).drop_last() =~= fields_view(d));
        assert(fit(s.last()) == fit_view(field_view(s.last())));
        if fit(s.last()) {
            assert(fields_view(d.filter(|f: Field| fit(f)).push(s.last()))
                =~= fields_view(d.filter(|f: Field| fit(f))).push(field_view(s.last())));
        }
    }
}

/// Whether the MPF segment a JPEG file `s` holds, if any, can be read.
pub open spec fn jpeg_mpf_ok(s: Seq<u8>) -> bool {
    jpeg_segments(s) matches SegmentScan::Found(_, Some(m), _) ==> mpf_ifd_readable(m)
}

/// Tests whether the MPF segment a JPEG file holds, if any, can be read.
pub fn mpf_segment_readable(data: &[u8]) -> (r: bool)
    ensures
        r == jpeg_mpf_ok(data@),
{
    match get_exif_and_mpf_sub(data) {
        Ok(seg) => match &seg.mpf_data {
            Some(m) => mpf_ifd_ok(m.as_slice()),
            None => true,
        },
        Err(_) => true,
    }
}

/// Adds to `entries` each of `extra` that is fit to be added: its value
/// read and its IFD number one the parser gives out.
fn add_extra(entries: &mut Vec<IfdEntry>, extra: &Vec<Field>, len: usize)
    requires
        entries_ok(old(entries)@, len as int),
    ensures
        entries_ok(final(entries)@, len as int),
        ({
            let kept = extra@.filter(|f: Field| fit(f));
            &&& final(entries)@.len() == old(entries)@.len() + kept.len()
            &&& forall|i: int| 0 <= i < old(entries)@.len() ==> #[trigger] final(entries)@[i] == old(entries)@[i]
            &&& forall|j: int| 0 <= j < kept.len() ==>
                field_view(#[trigger] final(entries)@[old(entries)@.len() + j].spec_field()) == field_view(kept[j])
        }),
{
    let ghost n0 = old(entries)@.len();
    let mut i: usize = 0;
    while i < extra.len()
        invariant
            i <= extra@.len(),
            entries_ok(entries@, len as int),
            n0 == old(entries)@.len(),
            ({
                let kept = extra@.take(i as int).filter(|f: Field| fit(f));
                &&& entries@.len() == n0 + kept.len()
                &&& forall|k: int| 0 <= k < n0 ==> #[trigger] entries@[k] == old(entries)@[k]
                &&& forall|j: int| 0 <= j < kept.len() ==>
                    field_view(#[trigger] entries@[n0 + j].spec_field()) == field_view(kept[j])
            }),
        decreases extra@.len() - i,
    {
        let ghost before = entries@;
        let ghost kept0 = extra@.take(i as int).filter(|f: Field| fit(f));
        let f = &extra[i];
        let ok = match f.value {
            Value::Unknown(_, _, _) => false,
            _ => f.ifd_num.0 < 8 || (16 <= f.ifd_num.0 && f.ifd_num.0 < 24),
        };
        proof {
            reveal(Seq::filter);
            assert(extra@.take(i + 1).drop_last() =~= extra@.take(i as int));
            assert(extra@.take(i + 1).last() == extra@[i as int]);
        }
        if ok {
            entries.push(IfdEntry::from_parsed_field(f.copy()));
            assert(entries@.last().in_bounds(len as int));
            assert forall|k: int| 0 <= k < entries@.len() implies {
                &&& #[trigger] entries@[k].in_bounds(len as int)
                &&& ifd_num_ok(entries@[k].spec_field().ifd_num)
            } by {
                if k < before.len() {
                    assert(entries@[k] == before[k]);
                }
            }
        }
        i = i + 1;
    }
    assert(extra@.take(extra@.len() as int) =~= extra@);
}

/// `entries` readable from `a` bytes are readable from more.
proof fn lemma_entries_ok_grow(entries: Seq<IfdEntry>, a: int, b: int)
    requires
        entries_ok(entries, a),
        a <= b,
    ensures
        entries_ok(entries, b),
{
    assert forall|i: int| 0 <= i < entries.len() implies {
        &&& #[trigger] entries[i].in_bounds(b)
        &&& ifd_num_ok(entries[i].spec_field().ifd_num)
    } by {
        assert(entries[i].in_bounds(a));
    }
}

/// The fields read from what a new parser found in `s`, followed by the fit
/// extra fields, are the fields of the parse followed by those extras.
proof fn lemma_fields_of_parse(fields: Seq<Field>, parsed: Seq<IfdEntry>, entries: Seq<IfdEntry>, s: Seq<u8>,
    collect: bool, le: bool, extra: Seq<Field>)
    requires
        header_error(s) is None,
        if crate::tiff::header_rw2(s) {
            crate::tiff::rw2_appended(tiff_parse(s, collect).0.entries, tiff_parse(s, collect).0.rw2_tags, parsed)
        } else {
            parsed == tiff_parse(s, collect).0.entries
        },
        ({
            let kept = extra.filter(|f: Field| fit(f));
            &&& entries.len() == parsed.len() + kept.len()
            &&& forall|i: int| 0 <= i < parsed.len() ==> #[trigger] entries[i] == parsed[i]
            &&& forall|j: int| 0 <= j < kept.len() ==>
                field_view(#[trigger] entries[parsed.len() + j].spec_field()) == field_view(kept[j])
        }),
        fields.len() == entries.len(),
        forall|i: int| 0 <= i < entries.len() ==> crate::tiff::field_read(entries[i].field, #[trigger] fields[i], s, le),
    ensures
        tiff_fields(fields, s, collect, le),
        extras_follow(fields, tiff_field_count(s, collect), fields_view(extra)),
{
    lemma_filter_views(extra);
    assert forall|j: int| 0 <= j < parsed.len() implies
        crate::tiff::field_read(parsed[j].spec_field(), #[trigger] fields[j], s, le) by {
        assert(entries[j] == parsed[j]);
        assert(crate::tiff::field_read(entries[j].field, fields[j], s, le));
    }
    lemma_read_entries_are_tiff_fields(parsed, fields, s, collect, le);
    let kept = extra.filter(|f: Field| fit(f));
    let n = parsed.len() as int;
    assert forall|j: int| 0 <= j < kept.len() implies field_view(#[trigger] fields[n + j]) == field_view(kept[j]) by {
        let e = entries[n + j];
        assert(crate::tiff::field_read(e.field, fields[n + j], s, le));
        assert(field_view(e.spec_field()) == field_view(kept[j]));
        extra.filter_lemma(|f: Field| fit(f));
        assert(extra.filter(|f: Field| fit(f)).contains(kept[j]));
        assert(fit(kept[j]));
    }
}

/// The attributes, or, where errors were collected and there were some,
/// the attributes with those errors.
fn finish(exif: Exif, errors: Option<Vec<Error>>) -> (r: Result<Exif, Error>)
    ensures
        finished(exif, errors, r),
{
    match errors {
        Some(v) => if v.len() > 0 {
            Err(Error::PartialResult(Box::new(PartialResult::new(exif, v))))
        } else {
            Ok(exif)
        },
        None => Ok(exif),
    }
}

/// The sub-image fields of a raw image `width` by `height`.
pub open spec fn size_views(width: u32, height: u32) -> Seq<(Tag, In, ValueView)> {
    seq![(Tag(Context::Tiff, 0x0100), In(16), ValueView::Long(seq![width])),
        (Tag(Context::Tiff, 0x0101), In(16), ValueView::Long(seq![height]))]
}

/// The sub-image fields of the raw image's size a container states.
fn size_fields(width: u32, height: u32) -> (r: Vec<Field>)
    ensures
        fields_view(r@) == size_views(width, height),
{
    let w = vec![width];
    let h = vec![height];
    assert(w@ =~= seq![width] && h@ =~= seq![height]);
    let mut v: Vec<Field> = Vec::new();
    v.push(Field { tag: Tag(Context::Tiff, 0x0100), ifd_num: In(16), value: Value::Long(w) });
    v.push(Field { tag: Tag(Context::Tiff, 0x0101), ifd_num: In(16), value: Value::Long(h) });
    assert(fields_view(v@) =~= size_views(width, height));
    v
}

/// The size fields of a RAF's raw image, if it states one.
pub open spec fn raf_size_views(raw: Option<raf::RafRawImage>) -> Seq<(Tag, In, ValueView)> {
    match raw { Some(i) => size_views(i.width, i.height), None => seq![] }
}

/// The size fields of an MRW's picture, if it states one.
pub open spec fn mrw_size_views(raw: Option<mrw::MrwRawImage>) -> Seq<(Tag, In, ValueView)> {
    match raw { Some(i) => size_views(i.width, i.height), None => seq![] }
}

/// The raw image's size a RAF's CFA header states, as sub-image fields.
fn raw_image_fields(raw: Option<raf::RafRawImage>) -> (r: Vec<Field>)
    ensures
        fields_view(r@) == raf_size_views(raw),
{
    match raw {
        Some(i) => size_fields(i.width, i.height),
        None => {
            let v: Vec<Field> = Vec::new();
            assert(fields_view(v@) =~= seq![]);
            v
        },
    }
}

/// The picture's size an MRW's `PRD` block states, as sub-image fields.
fn mrw_image_fields(raw: Option<mrw::MrwRawImage>) -> (r: Vec<Field>)
    ensures
        fields_view(r@) == mrw_size_views(raw),
{
    match raw {
        Some(i) => size_fields(i.width, i.height),
        None => {
            let v: Vec<Field> = Vec::new();
            assert(fields_view(v@) =~= seq![]);
            v
        },
    }
}

/// `a` followed by `b`, the fields that follow those a container's TIFF
/// holds.
fn join_fields(a: Vec<Field>, b: Vec<Field>) -> (r: Vec<Field>)
    ensures
        fields_view(r@) == fields_view(a@) + fields_view(b@),
{
    let mut a = a;
    let mut b = b;
    let ghost av = a@;
    let ghost bv = b@;
    a.append(&mut b);
    assert(fields_view(a@) =~= fields_view(av) + fields_view(bv));
    a
}

/// The kinds of file a container is recognised as.
pub enum ContainerKind {
    Tiff,
    Jpeg,
    Png,
    Heif,
    Cr3,
    Raf,
    Mrw,
    Crw,
    X3f,
    Webp,
    Unknown,
}

/// The kind of file whose leading bytes are `head`, tried in a fixed order.
pub open spec fn container_kind(head: Seq<u8>) -> ContainerKind {
    if spec_starts_with(head, tiff_be_sig()) || spec_starts_with(head, tiff_le_sig())
        || spec_starts_with(head, orf_ro_sig()) || spec_starts_with(head, orf_rs_sig())
        || spec_starts_with(head, rw2_le_sig()) {
        ContainerKind::Tiff
    } else if spec_starts_with(head, crate::jpeg::jpeg_sig()) {
        ContainerKind::Jpeg
    } else if spec_starts_with(head, png::PNG_SIG@) {
        ContainerKind::Png
    } else if isobmff::first_ftyp_ok(head, true) {
        ContainerKind::Heif
    } else if isobmff::first_ftyp_ok(head, false) {
        ContainerKind::Cr3
    } else if spec_starts_with(head, raf::raf_magic()) {
        ContainerKind::Raf
    } else if spec_starts_with(head, mrw::mrw_magic()) {
        ContainerKind::Mrw
    } else if crw::crw_sig(head) {
        ContainerKind::Crw
    } else if spec_starts_with(head, x3f::x3f_magic()) {
        ContainerKind::X3f
    } else if webp::webp_sig(head) {
        ContainerKind::Webp
    } else {
        ContainerKind::Unknown
    }
}

/// The leading bytes a container is recognised by.
pub open spec fn head_of(data: Seq<u8>) -> Seq<u8> {
    data.subrange(0, if data.len() < HEAD_LEN { data.len() as int } else { HEAD_LEN as int })
}

/// The Exif of a RAF's embedded JPEG and the position of its TIFF header
/// in the file, where the RAF holds a JPEG with an Exif segment.
pub open spec fn raf_exif(data: Seq<u8>) -> Option<(Seq<u8>, u64)> {
    let (offset, length) = raf::raf_jpeg(data);
    if data.len() < raf::HEADER_LEN || !spec_starts_with(data, raf::raf_magic()) || length == 0
        || length > raf::MAX_EMBEDDED_JPEG || offset + length > data.len() {
        None
    } else {
        match crate::jpeg::jpeg_exif(data.subrange(offset, offset + length)) {
            crate::jpeg::JpegScan::Exif(x) => Some((x, (offset + JPEG_TIFF_BASE) as u64)),
            _ => None,
        }
    }
}

/// Whether `r` is the error reading a RAF file `data` that holds no
/// readable Exif is reported as: a short or foreign header, a missing, too
/// large or truncated JPEG, or what the JPEG's own scan ends in.
pub open spec fn raf_error(data: Seq<u8>, r: Result<Exif, Error>) -> bool {
    let (offset, length) = raf::raf_jpeg(data);
    if data.len() < raf::HEADER_LEN {
        r matches Err(e) && e.is_invalid("Truncated RAF header")
    } else if !spec_starts_with(data, raf::raf_magic()) {
        r matches Err(e) && e.is_invalid("Not a RAF file")
    } else if length == 0 {
        r matches Err(e) && e.is_not_found("RAF")
    } else if length > raf::MAX_EMBEDDED_JPEG {
        r matches Err(e) && e.is_invalid("Embedded JPEG too large")
    } else if offset + length > data.len() {
        r matches Err(e) && e.is_invalid("Truncated RAF embedded JPEG")
    } else {
        crate::jpeg::jpeg_scan_error(crate::jpeg::jpeg_exif(data.subrange(offset, offset + length)), r)
    }
}

/// Whether `r` is the error reading an MRW whose parse fails with `e` is
/// reported as.
pub open spec fn mrw_error(e: mrw::MrwErr, r: Result<Exif, Error>) -> bool {
    match e {
        mrw::MrwErr::Invalid(m) => r matches Err(x) && x.is_invalid(m),
        mrw::MrwErr::NotFound => r matches Err(x) && x.is_not_found("MRW"),
    }
}

/// The TIFF data an X3F's contents `st` lead to, with the position of its
/// header: the Exif of the JPEG that a Quattro file keeps, where it has a
/// readable one; otherwise the empty TIFF, every field being synthesised.
pub open spec fn x3f_tiff(data: Seq<u8>, st: x3f::X3fState) -> (Seq<u8>, u64) {
    match st.exif_jpeg {
        Some((at, _)) => if at <= data.len() {
            match crate::jpeg::jpeg_exif(data.subrange(at as int, data.len() as int)) {
                crate::jpeg::JpegScan::Exif(x) => (x, if at + JPEG_TIFF_BASE > u64::MAX { u64::MAX } else { (at + JPEG_TIFF_BASE) as u64 }),
                _ => (EMPTY_TIFF@, 0),
            }
        } else {
            (EMPTY_TIFF@, 0)
        },
        None => (EMPTY_TIFF@, 0),
    }
}

/// Whether the MPF fields of the attributes `r` carries, if any, are what
/// the MPF segment `m` at `at` in the file holds once its image offsets are
/// made absolute, read in byte order `le`; none where there is no segment
/// that can be read.
pub open spec fn mpf_after(r: Result<Exif, Error>, collect: bool, m: Option<Seq<u8>>, at: u64, le: bool) -> bool {
    result_exif(r, collect) matches Some(x) ==> match m {
        Some(mb) => if at <= u64::MAX - 0xffff_ffff && mpf_ifd_readable(mb) {
            exists|t: Seq<u8>| #[trigger] offsets_made_absolute(mb, t, at as int)
                && crate::exifimpl::mpf_read(x.spec_mpf_fields(), t, le)
        } else {
            x.spec_mpf_fields().len() == 0
        },
        None => x.spec_mpf_fields().len() == 0,
    }
}

/// Whether `r` is what reading the file `data` comes to: too large past
/// 4 GiB; refused where no format is recognised; otherwise the parse of
/// the TIFF data the container holds, with the position of its header in
/// the file, or an error where the container cannot be read. A TIFF (or
/// raw dialect) is the TIFF data itself; a JPEG's is its Exif segment; a
/// CIFF holds none, and its fields are all synthesised on an empty TIFF.
pub open spec fn container_result(data: Seq<u8>, collect: bool, r: Result<Exif, Error>) -> bool {
    {
        match container_kind(head_of(data)) {
            ContainerKind::Unknown => r matches Err(e) && e.is_invalid("Unknown image format"),
            ContainerKind::Tiff => raw_result(data, 0, collect, r),
            ContainerKind::Jpeg => match jpeg_segments(data) {
                SegmentScan::Found(e, _, _) => raw_result(e, JPEG_TIFF_BASE, collect, r),
                other => crate::jpeg::segment_scan_error(other, r),
            },
            ContainerKind::Png => match png::png_exif(data) {
                Ok(x) => raw_result(x, 0, collect, r),
                Err(png::PngErr::Invalid(m)) => r matches Err(e) && e.is_invalid(m),
                Err(png::PngErr::NotFound) => r matches Err(e) && e.is_not_found("PNG"),
            },
            ContainerKind::Webp => match webp::webp_exif(data) {
                Ok(x) => raw_result(x, 0, collect, r),
                Err(webp::WebpErr::Invalid(m)) => r matches Err(e) && e.is_invalid(m),
                Err(webp::WebpErr::NotFound) => r matches Err(e) && e.is_not_found("WebP"),
            },
            ContainerKind::Heif => match isobmff::heif_exif(data) {
                Ok(x) => raw_result(x, 0, collect, r),
                Err(e) => r matches Err(x) && isobmff::err_is(x, e, "Broken HEIF file"),
            },
            ContainerKind::Cr3 => match isobmff::crx::crx_file(data, 0, false) {
                Ok(boxes) => raw_vec_result(boxes, collect, r),
                Err(e) => r matches Err(x) && isobmff::err_is(x, e, "Broken CR3 file"),
            },
            ContainerKind::Raf => match raf_exif(data) {
                Some((x, base)) => raw_result(x, base, collect, r),
                None => raf_error(data, r),
            },
            ContainerKind::Mrw => match mrw::mrw_spec(data) {
                Ok((x, o, _)) => raw_result(x, o as u64, collect, r),
                Err(e) => mrw_error(e, r),
            },
            ContainerKind::Crw => if data.len() > isize::MAX {
                r matches Err(e) && e matches Error::TooBig(_)
            } else {
                match crw::crw_contents(data) {
                    Ok(_) => raw_result(EMPTY_TIFF@, 0, collect, r),
                    Err(m) => r matches Err(e) && e.is_invalid(m),
                }
            },
            ContainerKind::X3f => match x3f::x3f_contents(data) {
                Ok(st) => raw_result(x3f_tiff(data, st).0, x3f_tiff(data, st).1, collect, r),
                Err(m) => r matches Err(e) && e.is_invalid(m),
            },
        }
    }
}

/// Whether the attributes `r` carries, if any, hold after the fields of
/// the TIFF data `tiff` (parsed collecting errors or not) the fit ones of
/// `follow`, and the images `images` the container addresses.
pub open spec fn fields_after(r: Result<Exif, Error>, collect: bool, tiff: Seq<u8>,
    follow: Seq<(Tag, In, ValueView)>, images: Seq<(u64, u32)>) -> bool {
    result_exif(r, collect) matches Some(x) ==> {
        &&& extras_follow(x.spec_fields(), tiff_field_count(tiff, collect), follow)
        &&& x.spec_container_images() == images
    }
}

/// Whether the fields of what reading the file `data` comes to (`r`) are,
/// after those of the TIFF data the container holds, the ones the
/// container states and then the fit ones of `extra`; an X3F's exposure
/// fields among `extra` come after its moment, as its own decoding puts
/// them. The images the container addresses directly come with them: a
/// RAF's JPEG, a CRW's preview and thumbnail, an X3F's preview.
pub open spec fn container_fields(data: Seq<u8>, collect: bool, extra: Seq<(Tag, In, ValueView)>,
    r: Result<Exif, Error>) -> bool {
    match container_kind(head_of(data)) {
        ContainerKind::Tiff => fields_after(r, collect, data, extra, seq![]),
        ContainerKind::Jpeg => match jpeg_segments(data) {
            SegmentScan::Found(e, m, o) => fields_after(r, collect, e, extra, seq![])
                && mpf_after(r, collect, m, o as u64, header_le(e)),
            _ => true,
        },
        ContainerKind::Heif => match isobmff::heif_exif(data) {
            Ok(x) => fields_after(r, collect, x, extra, seq![]),
            Err(_) => true,
        },
        ContainerKind::Png => match png::png_exif(data) {
            Ok(x) => fields_after(r, collect, x, extra, seq![]),
            Err(_) => true,
        },
        ContainerKind::Webp => match webp::webp_exif(data) {
            Ok(x) => fields_after(r, collect, x, extra, seq![]),
            Err(_) => true,
        },
        ContainerKind::Raf => match raf_exif(data) {
            Some((x, _)) => fields_after(r, collect, x, raf_size_views(raf::raf_raw_image(data)) + extra,
                seq![raf::raf_jpeg(data)].map_values(|p: (int, int)| (p.0 as u64, p.1 as u32))),
            None => true,
        },
        ContainerKind::Mrw => match mrw::mrw_spec(data) {
            Ok((x, _, raw)) => fields_after(r, collect, x, mrw_size_views(raw) + extra, seq![]),
            Err(_) => true,
        },
        ContainerKind::Crw => match crw::crw_contents(data) {
            Ok(st) => fields_after(r, collect, EMPTY_TIFF@, st.fields + extra,
                opt_seq(st.preview) + opt_seq(st.thumbnail)),
            Err(_) => true,
        },
        ContainerKind::X3f => match x3f::x3f_contents(data) {
            Ok(st) => fields_after(r, collect, x3f_tiff(data, st).0,
                x3f::synthesized_with(st.props, st.frame, extra), opt_seq(st.preview)),
            Err(_) => true,
        },
        _ => true,
    }
}

/// The buffers `b` laid end to end.
pub open spec fn concat(b: Seq<Seq<u8>>) -> Seq<u8>
    decreases b.len(),
{
    if b.len() == 0 { seq![] } else { concat(b.drop_last()) + b.last() }
}

/// The buffers before the `k`-th are no longer than all of them.
proof fn lemma_concat_take_len(b: Seq<Seq<u8>>, k: int)
    requires
        0 <= k <= b.len(),
    ensures
        concat(b.take(k)).len() <= concat(b).len(),
    decreases b.len() - k,
{
    if k < b.len() {
        lemma_concat_take_len(b, k + 1);
        assert(b.take(k + 1).drop_last() =~= b.take(k));
    } else {
        assert(b.take(k) =~= b);
    }
}

/// The `k`-th buffer lies in the whole right after those before it.
proof fn lemma_concat_part(b: Seq<Seq<u8>>, k: int)
    requires
        0 <= k < b.len(),
    ensures
        concat(b.take(k)).len() + b[k].len() <= concat(b).len(),
        concat(b).subrange(concat(b.take(k)).len() as int, (concat(b.take(k)).len() + b[k].len()) as int) == b[k],
    decreases b.len() - k,
{
    let pre = concat(b.take(k));
    assert(b.take(k + 1).drop_last() =~= b.take(k));
    assert(concat(b.take(k + 1)) == pre + b[k]);
    lemma_concat_prefix(b, k + 1);
    let whole = concat(b);
    assert(whole.subrange(pre.len() as int, (pre.len() + b[k].len()) as int) =~= (pre + b[k]).subrange(pre.len() as int, (pre.len() + b[k].len()) as int));
}

/// What the first `k` buffers make is where the whole begins.
proof fn lemma_concat_prefix(b: Seq<Seq<u8>>, k: int)
    requires
        0 <= k <= b.len(),
    ensures
        concat(b.take(k)).len() <= concat(b).len(),
        concat(b).subrange(0, concat(b.take(k)).len() as int) == concat(b.take(k)),
    decreases b.len() - k,
{
    if k < b.len() {
        lemma_concat_prefix(b, k + 1);
        assert(b.take(k + 1).drop_last() =~= b.take(k));
        let a = concat(b.take(k));
        let c = concat(b.take(k + 1));
        assert(c == a + b[k]);
        assert(concat(b).subrange(0, a.len() as int) =~= c.subrange(0, a.len() as int));
        assert(c.subrange(0, a.len() as int) =~= a);
    } else {
        assert(b.take(k) =~= b);
        assert(concat(b).subrange(0, concat(b).len() as int) =~= concat(b));
    }
}

/// Whether no buffer of `b` with a valid header says RW2.
pub open spec fn no_rw2(b: Seq<Seq<u8>>) -> bool {
    forall|k: int| 0 <= k < b.len() && header_error(#[trigger] b[k]) is None ==> !crate::tiff::header_rw2(b[k])
}

/// What parsing the buffers `k..` of `b`, the `k`-th at `offset` in the
/// whole, does to `g`: each is a TIFF structure whose first IFD is IFD0
/// for the first buffer and an Exif IFD for the others; a header error or
/// an error the parse returns stops it.
pub open spec fn vec_walk(b: Seq<Seq<u8>>, k: int, offset: int, g: crate::tiff::Gathered)
    -> (crate::tiff::Gathered, Result<(), Error>)
    decreases b.len() - k,
{
    if k < 0 || k >= b.len() {
        (g, Ok(()))
    } else {
        match header_error(b[k]) {
            Some(e) => (g, Err(e)),
            None => match crate::tiff::walk_tiff(b[k], if k == 0 { Context::Tiff } else { Context::Exif },
                offset as u32, false, g) {
                (g2, Ok(())) => vec_walk(b, k + 1, offset + b[k].len(), g2),
                (g2, Err(e)) => (g2, Err(e)),
            },
        }
    }
}

/// Whether the attributes `x` were read from the buffers `b` laid end to
/// end, whose parse gathered `g`: each entry's value read from the whole,
/// in the byte order of the last buffer.
pub open spec fn vec_read(x: Exif, b: Seq<Seq<u8>>, g: crate::tiff::Gathered) -> bool {
    &&& x.spec_buf() == concat(b)
    &&& b.len() > 0 ==> x.spec_little_endian() == header_le(b.last())
    &&& x.spec_fields().len() == g.entries.len()
    &&& forall|i: int| 0 <= i < g.entries.len() ==>
        crate::tiff::field_read(g.entries[i].spec_field(), #[trigger] x.spec_fields()[i], concat(b), x.spec_little_endian())
}

/// Whether `r` is what parsing the TIFF buffers `b` laid end to end comes
/// to, collecting errors or not: too large past 4 GiB; otherwise the
/// first buffer's header error where it has one; otherwise the attributes,
/// when there are any, hold the buffers laid end to end, with nothing read
/// where there are no buffers; and where no buffer says RW2, the error that
/// stopped the parse, or the fields the parse of each buffer in turn
/// found, with the errors gone past where there were any.
pub open spec fn raw_vec_result(b: Seq<Seq<u8>>, collect: bool, r: Result<Exif, Error>) -> bool {
    if concat(b).len() > u32::MAX {
        r matches Err(e) && e matches Error::TooBig(_)
    } else if b.len() > 0 && header_error(b[0]) is Some {
        r == Err::<Exif, Error>(header_error(b[0])->0)
    } else {
        &&& b.len() == 0 ==> (r matches Ok(x) && x.spec_buf().len() == 0 && x.spec_fields().len() == 0)
        &&& result_exif(r, collect) matches Some(x) ==> x.spec_buf() == concat(b)
        &&& no_rw2(b) ==> match vec_walk(b, 0, 0, crate::tiff::fresh_gathered(collect)) {
            (_, Err(e)) => r == Err::<Exif, Error>(e),
            (g, Ok(())) => match g.errors {
                Some(v) => if v.len() > 0 {
                    r matches Err(Error::PartialResult(p)) && vec_read(p.spec_exif(), b, g) && p.spec_errors() == v
                } else {
                    r matches Ok(x) && vec_read(x, b, g)
                },
                None => r matches Ok(x) && vec_read(x, b, g),
            },
        }
    }
}

/// Parses Exif attributes and creates the `Exif` that holds them.
pub struct Reader {
    continue_on_error: bool,
}

impl Reader {
    /// Whether parsing goes on past non-fatal errors.
    pub closed spec fn spec_continue_on_error(&self) -> bool {
        self.continue_on_error
    }

    /// A reader that stops at the first error.
    pub fn new() -> (r: Reader)
        ensures
            !r.spec_continue_on_error(),
    {
        Reader { continue_on_error: false }
    }

    /// Sets whether parsing goes on past non-fatal errors, returning the
    /// results as far as they can be parsed with `Error::PartialResult`.
    /// A hard error may still be returned.
    pub fn continue_on_error(&mut self, continue_on_error: bool) -> (r: &mut Reader)
        ensures
            r.spec_continue_on_error() == continue_on_error,
            *final(self) == *final(r),
    {
        self.continue_on_error = continue_on_error;
        self
    }

    /// A TIFF parser with this reader's setting.
    fn parser(&self) -> (r: Parser)
        ensures
            r.entries@.len() == 0,
            r.continue_on_error is Some <==> self.spec_continue_on_error(),
            r.continue_on_error matches Some(v) ==> v@.len() == 0,
            !r.rw2,
            r.rw2_tags@ == Seq::new(24, |i: int| None::<u16>),
    {
        let mut parser = Parser::new();
        if self.continue_on_error {
            parser.continue_on_error = Some(Vec::new());
        }
        parser
    }

    /// Parses `data`, adds the fields the container states that its TIFF
    /// cannot, and builds the attributes.
    fn read_raw_with_extra(&self, data: Vec<u8>, extra: Vec<Field>, tiff_base: u64,
        container_images: Vec<(u64, u32)>) -> (r: Result<Exif, Error>)
        ensures
            raw_result(data@, tiff_base, self.spec_continue_on_error(), r),
            result_exif(r, self.spec_continue_on_error()) matches Some(x) ==> {
                &&& extras_follow(x.spec_fields(), tiff_field_count(data@, self.spec_continue_on_error()), fields_view(extra@))
                &&& x.spec_container_images() == container_images@
                &&& x.spec_mpf_fields().len() == 0
            },
            self.spec_continue_on_error() && header_error(data@) is None
                ==> result_exif(r, true) is Some,
    {
        let ghost collect = self.spec_continue_on_error();
        let mut parser = self.parser();
        proof { lemma_fresh_gathered(parser, collect); }
        match parser.parse(data.as_slice()) {
            Ok(()) => {},
            Err(e) => return Err(e),
        }
        let ghost parsed = parser.entries@;
        let mut entries = parser.entries;
        add_extra(&mut entries, &extra, data.len());
        let mut exif = Exif::new_at(data, entries, parser.little_endian, tiff_base);
        proof { lemma_fields_of_parse(exif.spec_fields(), parsed, entries@, data@, collect, parser.little_endian, extra@); }
        exif.set_container_images(container_images);
        finish(exif, parser.continue_on_error)
    }

    /// Parses the Exif attributes from raw TIFF data.
    pub fn read_raw(&self, data: Vec<u8>) -> (r: Result<Exif, Error>)
        ensures
            raw_result(data@, 0, self.spec_continue_on_error(), r),
            result_exif(r, self.spec_continue_on_error()) matches Some(x) ==> {
                &&& x.spec_fields().len() == tiff_field_count(data@, self.spec_continue_on_error())
                &&& x.spec_container_images().len() == 0
                &&& x.spec_mpf_fields().len() == 0
            },
            self.spec_continue_on_error() && header_error(data@) is None
                ==> result_exif(r, true) is Some,
    {
        let none: Vec<Field> = Vec::new();
        proof { reveal(Seq::filter); }
        assert(fields_view(none@).filter(|v: (Tag, In, ValueView)| fit_view(v)).len() == 0);
        let r = self.read_raw_with_extra(data, none, 0, Vec::new());
        r
    }

    /// As `read_raw_with_extra`, with the MPF segment of a JPEG, whose image
    /// offsets are made absolute by `mpf_app2_offset`.
    fn read_raw_with_mpf(&self, exif_data: Vec<u8>, mpf_data: Option<Vec<u8>>, mpf_app2_offset: u64,
        extra: Vec<Field>, tiff_base: u64, container_images: Vec<(u64, u32)>) -> (r: Result<Exif, Error>)
        requires
            mpf_data matches Some(m) ==> mpf_ifd_readable(m@),
            mpf_app2_offset <= u64::MAX - 0xffff_ffff,
        ensures
            raw_result(exif_data@, tiff_base, self.spec_continue_on_error(), r),
            result_exif(r, self.spec_continue_on_error()) matches Some(x) ==> {
                &&& extras_follow(x.spec_fields(), tiff_field_count(exif_data@, self.spec_continue_on_error()), fields_view(extra@))
                &&& x.spec_container_images() == container_images@
            },
            mpf_after(r, self.spec_continue_on_error(), opt_bytes(mpf_data), mpf_app2_offset, header_le(exif_data@)),
    {
        let ghost collect = self.spec_continue_on_error();
        let mut parser = self.parser();
        proof { lemma_fresh_gathered(parser, collect); }
        match parser.parse(exif_data.as_slice()) {
            Ok(()) => {},
            Err(e) => return Err(e),
        }
        let ghost parsed = parser.entries@;
        let mut entries = parser.entries;
        add_extra(&mut entries, &extra, exif_data.len());
        let le = parser.little_endian;
        let ghost data = exif_data@;
        let mut exif = match mpf_data {
            Some(mut mpf_buf) => {
                let _ = parse_mpf(&mut mpf_buf, mpf_app2_offset);
                let ghost t = mpf_buf@;
                let x = Exif::new_with_mpf(exif_data, entries, le, mpf_buf, mpf_app2_offset, tiff_base);
                assert(offsets_made_absolute(opt_bytes(mpf_data)->0, t, mpf_app2_offset as int));
                x
            },
            None => Exif::new_at(exif_data, entries, le, tiff_base),
        };
        proof { lemma_fields_of_parse(exif.spec_fields(), parsed, entries@, data, collect, le, extra@); }
        exif.set_container_images(container_images);
        finish(exif, parser.continue_on_error)
    }

    /// Parses the Exif attributes from TIFF buffers laid end to end: the
    /// first read as IFD0, every other as an Exif IFD.
    pub fn read_raw_vec(&self, buffers: Vec<Vec<u8>>) -> (r: Result<Exif, Error>)
        ensures
            raw_vec_result(vecs_view(buffers@), self.spec_continue_on_error(), r),
    {
        self.read_raw_vec_with(buffers, Vec::new())
    }

    /// `read_raw_vec`, with the images the container addresses directly.
    fn read_raw_vec_with(&self, buffers: Vec<Vec<u8>>, previews: Vec<(u64, u32)>) -> (r: Result<Exif, Error>)
        ensures
            raw_vec_result(vecs_view(buffers@), self.spec_continue_on_error(), r),
    {
        let ghost bufs = vecs_view(buffers@);
        let mut data: Vec<u8> = Vec::new();
        let mut i: usize = 0;
        assert(bufs.take(0) =~= seq![]);
        while i < buffers.len()
            invariant
                i <= buffers@.len(),
                bufs == vecs_view(buffers@),
                data@ == concat(bufs.take(i as int)),
            decreases buffers@.len() - i,
        {
            crate::fmt::push_bytes(&mut data, buffers[i].as_slice());
            assert(bufs.take(i + 1).drop_last() =~= bufs.take(i as int));
            i = i + 1;
        }
        assert(bufs.take(bufs.len() as int) =~= bufs);
        if data.len() > 0xffff_ffff {
            return Err(Error::TooBig("TIFF buffers too large"));
        }
        let mut parser = self.parser();
        proof { crate::tiff::lemma_fresh_gathered(parser, self.spec_continue_on_error()); }
        let ghost goal = vec_walk(bufs, 0, 0, crate::tiff::fresh_gathered(self.spec_continue_on_error()));
        let mut offset: usize = 0;
        let mut k: usize = 0;
        while k < buffers.len()
            invariant
                data@.len() <= u32::MAX,
                data@ == concat(bufs),
                bufs == vecs_view(buffers@),
                goal == vec_walk(bufs, 0, 0, crate::tiff::fresh_gathered(self.spec_continue_on_error())),
                no_rw2(bufs) ==> vec_walk(bufs, k as int, offset as int, crate::tiff::gathered(parser)) == goal,
                no_rw2(bufs) ==> !parser.rw2,
                k == 0 ==> crate::tiff::gathered(parser) == crate::tiff::fresh_gathered(self.spec_continue_on_error()),
                k > 0 ==> parser.little_endian == header_le(bufs[k - 1]),
                k == 0 ==> parser.entries@.len() == 0 && (parser.continue_on_error matches Some(v) ==> v@.len() == 0),
                k > 0 ==> header_error(bufs[0]) is None,
                parser.continue_on_error is Some <==> self.spec_continue_on_error(),
                entries_ok(parser.entries@, offset as int),
                offset == concat(bufs.take(k as int)).len(),
                offset <= data@.len(),
                k <= buffers@.len(),
            decreases buffers@.len() - k,
        {
            proof {
                lemma_concat_take_len(bufs, k as int);
                lemma_concat_part(bufs, k as int);
            }
            let len = buffers[k].len();
            assert(len <= data.len() - offset);
            // Only its position says which IFD a buffer is.
            let ctx = if k == 0 { Context::Tiff } else { Context::Exif };
            let part = vstd::slice::slice_subrange(data.as_slice(), offset, offset + len);
            proof {
                lemma_entries_ok_grow(parser.entries@, offset as int, offset + len);
                if k == 0 {
                    assert(bufs.take(0) =~= seq![]);
                }
            }
            let ghost before = parser;
            match parser.parse_with_context_offset(part, ctx, offset as u32) {
                Ok(()) => {},
                Err(e) => return Err(e),
            }
            proof {
                if no_rw2(bufs) {
                    assert(header_error(bufs[k as int]) is None);
                    assert(crate::tiff::gathered(parser) == crate::tiff::walk_tiff(bufs[k as int], ctx, offset as u32,
                        false, crate::tiff::gathered(before)).0);
                }
            }
            offset = offset + len;
            k = k + 1;
            assert(bufs.take(k as int).drop_last() =~= bufs.take(k - 1));
        }
        proof { lemma_entries_ok_grow(parser.entries@, offset as int, data@.len() as int); }
        let mut exif = Exif::new(data, parser.entries, parser.little_endian);
        exif.set_container_images(previews);
        finish(exif, parser.continue_on_error)
    }

    /// Reads an image file's bytes and parses the Exif attributes in it:
    /// TIFF and the raw formats based on it, JPEG, PNG, HEIF, Canon CR3,
    /// CRW, Fujifilm RAF, Minolta MRW, Sigma X3F and WebP. The exposure time and
    /// f-number a CRW or X3F states as floating-point text are not among
    /// them; `read_from_container_with` takes them.
    pub fn read_from_container(&self, data: &[u8]) -> (r: Result<Exif, Error>)
        requires
            jpeg_mpf_ok(data@),
        ensures
            container_result(data@, self.spec_continue_on_error(), r),
            container_fields(data@, self.spec_continue_on_error(), seq![], r),
    {
        let none: Vec<Field> = Vec::new();
        assert(fields_view(none@) =~= seq![]);
        self.read_from_container_with(data, none)
    }

    /// As `read_from_container`, with `extra` fields added to those read.
    pub fn read_from_container_with(&self, data: &[u8], extra: Vec<Field>) -> (r: Result<Exif, Error>)
        requires
            jpeg_mpf_ok(data@),
        ensures
            container_result(data@, self.spec_continue_on_error(), r),
            container_fields(data@, self.spec_continue_on_error(), fields_view(extra@), r),
    {
        let head = vstd::slice::slice_subrange(data, 0, if data.len() < HEAD_LEN { data.len() } else { HEAD_LEN });
        if is_tiff(head) {
            // The buffer is the file, so offsets are already file offsets.
            let buf = crate::bytes::copy_range(data, 0, data.len());
            assert(data@.subrange(0, data@.len() as int) =~= data@);
            self.read_raw_with_extra(buf, extra, 0, Vec::new())
        } else if is_jpeg(head) {
            self.read_jpeg(data, extra)
        } else if png::is_png(head) {
            let buf = match png::get_exif_attr(data) {
                Ok(b) => b,
                Err(e) => return Err(e),
            };
            self.read_raw_with_extra(buf, extra, 0, Vec::new())
        } else if isobmff::is_heif(head) {
            let buf = match isobmff::get_exif_attr(data) {
                Ok(b) => b,
                Err(e) => return Err(e),
            };
            self.read_raw_with_extra(buf, extra, 0, Vec::new())
        } else if isobmff::crx::is_crx(head) {
            // A CR3's JPEGs are in boxes, which nothing in its Exif addresses.
            let previews = match isobmff::crx::preview_boxes(data) {
                Ok(p) => p,
                Err(_) => Vec::new(),
            };
            let boxes = match isobmff::crx::get_exif_attr_vec(data) {
                Ok(b) => b,
                Err(e) => return Err(e),
            };
            self.read_raw_vec_with(boxes, previews)
        } else if raf::is_raf(head) {
            self.read_raf(data, extra)
        } else if mrw::is_mrw(head) {
            let c = match mrw::get_exif_attr(data) {
                Ok(c) => c,
                Err(e) => return Err(e),
            };
            let fields = join_fields(mrw_image_fields(c.raw_image), extra);
            self.read_raw_with_extra(c.exif, fields, c.tiff_offset, Vec::new())
        } else if crw::is_crw(head) {
            self.read_crw(data, extra)
        } else if x3f::is_x3f(head) {
            self.read_x3f(data, extra)
        } else if webp::is_webp(head) {
            let buf = match webp::get_exif_attr(data) {
                Ok(b) => b,
                Err(e) => return Err(e),
            };
            self.read_raw_with_extra(buf, extra, 0, Vec::new())
        } else {
            Err(Error::InvalidFormat("Unknown image format"))
        }
    }

    /// Reads a JPEG file: its Exif segment, and the MPF segment after it
    /// where it can be read.
    fn read_jpeg(&self, data: &[u8], extra: Vec<Field>) -> (r: Result<Exif, Error>)
        requires
            jpeg_mpf_ok(data@),
        ensures
            match jpeg_segments(data@) {
                SegmentScan::Found(e, m, o) => raw_result(e, JPEG_TIFF_BASE, self.spec_continue_on_error(), r)
                    && fields_after(r, self.spec_continue_on_error(), e, fields_view(extra@), seq![])
                    && mpf_after(r, self.spec_continue_on_error(), m, o as u64, header_le(e)),
                other => crate::jpeg::segment_scan_error(other, r),
            },
    {
        let seg = match get_exif_and_mpf_sub(data) {
            Ok(s) => s,
            Err(e) => return Err(e),
        };
        proof { crate::jpeg::lemma_scan_exif_len(data@, 2, false, None); }
        let mut mpf_data: Option<Vec<u8>> = None;
        let mut mpf_app2_offset: u64 = 0;
        if seg.mpf_app2_offset <= u64::MAX - 0xffff_ffff {
            mpf_app2_offset = seg.mpf_app2_offset;
            mpf_data = match seg.mpf_data {
                Some(m) => if mpf_ifd_ok(m.as_slice()) { Some(m) } else { None },
                None => None,
            };
        }
        self.read_raw_with_mpf(seg.exif_data, mpf_data, mpf_app2_offset, extra, JPEG_TIFF_BASE, Vec::new())
    }

    /// Reads a RAF file: the Exif of its embedded JPEG, and the size of its
    /// raw image.
    fn read_raf(&self, data: &[u8], extra: Vec<Field>) -> (r: Result<Exif, Error>)
        ensures
            match raf_exif(data@) {
                Some((x, base)) => raw_result(x, base, self.spec_continue_on_error(), r)
                    && fields_after(r, self.spec_continue_on_error(), x,
                        raf_size_views(raf::raf_raw_image(data@)) + fields_view(extra@),
                        seq![raf::raf_jpeg(data@)].map_values(|p: (int, int)| (p.0 as u64, p.1 as u32))),
                None => raf_error(data@, r),
            },
    {
        let c = match raf::get_exif_and_raw_image(data) {
            Ok(c) => c,
            Err(e) => return Err(e),
        };
        let fields = join_fields(raw_image_fields(c.raw_image), extra);
        let mut images: Vec<(u64, u32)> = Vec::new();
        images.push((c.jpeg_offset, c.jpeg_length));
        assert(images@ =~= seq![raf::raf_jpeg(data@)].map_values(|p: (int, int)| (p.0 as u64, p.1 as u32)));
        // The Exif belongs to a JPEG partway into the file.
        let base = c.jpeg_offset + JPEG_TIFF_BASE;
        self.read_raw_with_extra(c.exif, fields, base, images)
    }

    /// Reads a CRW file: a CIFF holds no TIFF, and every field arrives
    /// synthesised.
    fn read_crw(&self, data: &[u8], extra: Vec<Field>) -> (r: Result<Exif, Error>)
        ensures
            if data@.len() > isize::MAX {
                r matches Err(e) && e matches Error::TooBig(_)
            } else {
                match crw::crw_contents(data@) {
                    Ok(st) => raw_result(EMPTY_TIFF@, 0, self.spec_continue_on_error(), r)
                        && fields_after(r, self.spec_continue_on_error(), EMPTY_TIFF@, st.fields + fields_view(extra@),
                            opt_seq(st.preview) + opt_seq(st.thumbnail)),
                    Err(m) => r matches Err(e) && e.is_invalid(m),
                }
            },
    {
        if data.len() > isize::MAX as usize {
            return Err(Error::TooBig("File too large"));
        }
        let (c, _deferred) = match crw::get_contents(data) {
            Ok(c) => c,
            Err(e) => return Err(e),
        };
        let mut images: Vec<(u64, u32)> = Vec::new();
        if let Some(p) = c.preview {
            images.push(p);
        }
        if let Some(t) = c.thumbnail {
            images.push(t);
        }
        assert(images@ =~= opt_seq(c.preview) + opt_seq(c.thumbnail));
        // A CIFF holds no TIFF: every field arrives synthesised, the
        // caller's after the file's.
        let mut fields = c.fields;
        let ghost before = fields@;
        let mut extra = extra;
        let ghost ev = extra@;
        fields.append(&mut extra);
        assert(fields_view(fields@) =~= fields_view(before) + fields_view(ev));
        let buf = crate::bytes::copy_range(&EMPTY_TIFF, 0, EMPTY_TIFF.len());
        assert(buf@ =~= EMPTY_TIFF@);
        self.read_raw_with_extra(buf, fields, 0, images)
    }

    /// Reads an X3F file: the fields its properties give, over the Exif of
    /// the JPEG a Quattro file keeps in place of properties.
    fn read_x3f(&self, data: &[u8], extra: Vec<Field>) -> (r: Result<Exif, Error>)
        ensures
            match x3f::x3f_contents(data@) {
                Ok(st) => raw_result(x3f_tiff(data@, st).0, x3f_tiff(data@, st).1, self.spec_continue_on_error(), r)
                    && fields_after(r, self.spec_continue_on_error(), x3f_tiff(data@, st).0,
                        x3f::synthesized_with(st.props, st.frame, fields_view(extra@)), opt_seq(st.preview)),
                Err(m) => r matches Err(e) && e.is_invalid(m),
            },
    {
        let x = match x3f::get_contents(data) {
            Ok(x) => x,
            Err(e) => return Err(e),
        };
        let ghost st = x3f::x3f_state(x);
        let mut images: Vec<(u64, u32)> = Vec::new();
        if let Some(p) = x.preview {
            images.push(p);
        }
        assert(images@ =~= opt_seq(x.preview));
        let fields = x3f::synthesize_with(&x.props, x.frame, extra);
        let mut base: u64 = 0;
        let buf = match x.exif_jpeg {
            Some((at, _)) if at <= data.len() as u64 => {
                let part = vstd::slice::slice_subrange(data, at as usize, data.len());
                match jpeg::get_exif_attr(part) {
                    Ok(tiff) => {
                        base = at.saturating_add(JPEG_TIFF_BASE);
                        tiff
                    },
                    // A JPEG that claims an APP1 and has no usable Exif
                    // is no reason to lose the rest of the file.
                    Err(_) => crate::bytes::copy_range(&EMPTY_TIFF, 0, EMPTY_TIFF.len()),
                }
            },
            _ => crate::bytes::copy_range(&EMPTY_TIFF, 0, EMPTY_TIFF.len()),
        };
        proof {
            if let Some((at, _)) = x.exif_jpeg {
                if at <= data@.len() {
                    let part = data@.subrange(at as int, data@.len() as int);
                    crate::jpeg::lemma_exif_len(part);
                }
            }
        }
        assert(buf@ == x3f_tiff(data@, st).0);
        self.read_raw_with_extra(buf, fields, base, images)
    }
}

/// No value the parser leaves for later is handed out: every field of
/// attributes read from TIFF data (with fields a container adds) has its
/// value read, and one that stays `Unknown` is of a type with no known
/// unit size, as the file stated it.
pub proof fn lemma_no_unread_value_is_handed_out(x: Exif, data: Seq<u8>, base: u64, collect: bool,
    extra: Seq<(Tag, In, ValueView)>)
    requires
        read_from(x, data, base, collect),
        extras_follow(x.spec_fields(), tiff_field_count(data, collect), extra),
    ensures
        forall|i: int| 0 <= i < x.spec_fields().len() ==>
            (#[trigger] x.spec_fields()[i].value@ matches ValueView::Unknown(t, _, _) ==> crate::value::spec_unit_len(t) == 0),
{
    let fs = x.spec_fields();
    let g = tiff_parse(data, collect).0;
    let added = crate::tiff::tiff_synthesized(data, collect);
    let n = tiff_field_count(data, collect);
    let kept = extra.filter(|v: (Tag, In, ValueView)| fit_view(v));
    assert forall|i: int| 0 <= i < fs.len() implies
        (#[trigger] fs[i].value@ matches ValueView::Unknown(t, _, _) ==> crate::value::spec_unit_len(t) == 0) by {
        if i < g.entries.len() {
            assert(crate::tiff::field_read(g.entries[i].spec_field(), fs[i], data, header_le(data)));
        } else if i < n {
            let j = i - g.entries.len();
            assert(fs[g.entries.len() + j].value@ == ValueView::Long(seq![added[j].1]));
        } else {
            let j = i - n;
            assert(field_view(fs[n + j]) == kept[j]);
            extra.filter_lemma(|v: (Tag, In, ValueView)| fit_view(v));
            assert(kept.contains(kept[j]));
        }
    }
}

/// `Reader::read_raw` and `parse_exif` find the same fields in TIFF data:
/// in the same order, with the same tags, IFDs and values.
pub proof fn lemma_read_raw_agrees_with_parse_exif(x: Exif, data: Seq<u8>, fields: Seq<Field>, le: bool)
    requires
        read_from(x, data, 0, false),
        x.spec_fields().len() == tiff_field_count(data, false),
        tiff_fields(fields, data, false, le),
        fields.len() == tiff_field_count(data, false),
        le == header_le(data),
    ensures
        fields_view(x.spec_fields()) == fields_view(fields),
{
    let xs = x.spec_fields();
    let g = tiff_parse(data, false).0;
    let added = crate::tiff::tiff_synthesized(data, false);
    assert forall|i: int| 0 <= i < xs.len() implies field_view(#[trigger] xs[i]) == field_view(fields[i]) by {
        if i < g.entries.len() {
            let e = g.entries[i].spec_field();
            assert(crate::tiff::field_read(e, xs[i], data, le));
            assert(crate::tiff::field_read(e, fields[i], data, le));
            match e.value {
                Value::Unknown(t, c, o) => crate::value::lemma_value_read_unique(xs[i].value@, fields[i].value@,
                    t, c as int, o as int, data, le),
                _ => {},
            }
        } else {
            let j = i - g.entries.len();
            assert(xs[g.entries.len() + j].value@ == fields[g.entries.len() + j].value@);
        }
    }
    assert(fields_view(xs) =~= fields_view(fields));
}

/// A file recognised as TIFF (or a raw dialect of it) is read as the TIFF
/// data it is: what reading it as a container comes to is what reading it
/// as raw TIFF data comes to.
pub proof fn lemma_a_tiff_file_is_read_as_raw_tiff(data: Seq<u8>, collect: bool, r: Result<Exif, Error>)
    requires
        container_kind(head_of(data)) == ContainerKind::Tiff,
    ensures
        container_result(data, collect, r) == raw_result(data, 0, collect, r),
        container_fields(data, collect, seq![], r) == fields_after(r, collect, data, seq![], seq![]),
{
}

} // verus!
