//! Vendor MakerNote parsing.

use vstd::prelude::*;
use vstd::slice::slice_subrange;
use crate::bytes::{spec_u16, spec_u32, load_u16, load_u32, spec_starts_with, starts_with};
use crate::error::Error;
use crate::tag::{Context, Tag};
use crate::tiff::{Field, In, IfdEntry, TIFF_BE, TIFF_LE, TIFF_FORTY_TWO};
use crate::value::{Value, spec_unit_len, unit_len, parse_value};
use crate::make_note::maker_tag::{
    MakerNoteVendor, MakerTag, MakerNoteField, vendor_of, make_bytes, OLYMP_SIG, OM_SYSTEM_SIG,
    custom_display_ok, spec_display_kind,
};
use crate::make_note::samsung::{detect_samsung_byte_order, samsung_little_endian};
use crate::tiff::field_read;
use crate::make_note::olympus::{is_olympus_subdir, subdir_vendor, spec_is_olympus_subdir, spec_subdir_vendor};

pub mod maker_tag;
pub mod panasonic;
pub mod sony;
pub mod samsung;
pub mod apple;
pub mod olympus;
pub mod minolta;
pub mod pentax;

verus! {

/// An entry the MakerNote declares but whose value lies outside the
/// MakerNote's own bytes.
///
/// `offset` is as the file states it, uncorrected: the base it counts from
/// is the vendor's business and the caller's to apply.
#[derive(Debug, Clone, Copy, PartialEq, Eq, Structural)]
pub struct UnresolvedValue {
    pub tag: u16,
    pub typ: u16,
    pub count: u32,
    pub offset: u32,
    pub len: u32,
}

/// At most this many chained IFDs are read, against resource exhaustion.
pub const MAX_MAKER_NOTE_IFDS: u16 = 8;

/// How deep Olympus subdirectories are followed: the main IFD's
/// subdirectories, and those of a subdirectory that holds the main tags
/// again (0x4000). A subdirectory tag deeper than that is kept as a plain
/// field, so that a subdirectory that points at itself ends.
pub const MAX_SUBDIR_DEPTH: u8 = 2;

/// `v` read as a two's complement 32-bit number.
pub open spec fn signed32(v: u32) -> int {
    if v < 0x8000_0000 {
        v as int
    } else {
        v - 0x1_0000_0000
    }
}

fn to_signed(v: u32) -> (r: i64)
    ensures
        r == signed32(v),
{
    if v < 0x8000_0000 {
        v as i64
    } else {
        v as i64 - 0x1_0000_0000i64
    }
}

/// What an IFD entry of a MakerNote comes to: its tag and its value still
/// to be read, `Value::Unknown(type, count, offset)`; or, where the value
/// lies outside the block, where the file says it is.
#[derive(Debug)]
pub enum EntryRead {
    Here(u16, Value),
    Elsewhere(UnresolvedValue),
}

/// What the 12-byte entry at `s[off..]` comes to, its value offset
/// corrected by `corr` and `tcorr`; `None` where its byte count does not
/// fit in `usize`.
pub open spec fn entry_read(s: Seq<u8>, off: int, le: bool, corr: int, tcorr: int) -> Option<EntryRead> {
    let tag = spec_u16(s, off, le) as u16;
    let typ = spec_u16(s, off + 2, le) as u16;
    let cnt = spec_u32(s, off + 4, le) as u32;
    let vallen = spec_unit_len(typ) * cnt;
    let raw = spec_u32(s, off + 8, le) as u32;
    let c = signed32(raw) - corr - tcorr;
    if vallen > usize::MAX {
        None
    } else if vallen <= 4 {
        Some(EntryRead::Here(tag, Value::Unknown(typ, cnt, (off + 8) as u32)))
    } else if c < 0 || c + vallen > s.len() {
        Some(EntryRead::Elsewhere(UnresolvedValue {
            tag,
            typ,
            count: cnt,
            offset: raw,
            len: vallen as u32,
        }))
    } else {
        Some(EntryRead::Here(tag, Value::Unknown(typ, cnt, c as u32)))
    }
}

/// Whether a value still to be read lies, with at least 4 bytes, within
/// the first `len` bytes.
pub open spec fn value_slot_ok(v: Value, len: int) -> bool {
    match v {
        Value::Unknown(t, c, o) => o + spec_unit_len(t) * c <= len && o + 4 <= len,
        _ => false,
    }
}

/// Whether every entry can be read from `len` bytes and lies in one of the
/// first eight IFDs.
pub open spec fn entries_ok(e: Seq<(IfdEntry, MakerNoteVendor)>, len: int) -> bool {
    forall|i: int| 0 <= i < e.len() ==> {
        &&& #[trigger] e[i].0.in_bounds(len)
        &&& e[i].0.spec_field().ifd_num.0 < MAX_MAKER_NOTE_IFDS
    }
}

/// The error a MakerNote's TIFF header `s` gives, if any.
pub open spec fn header_error(s: Seq<u8>) -> Option<Error> {
    if s.len() < 8 {
        Some(Error::InvalidFormat("Truncated TIFF header"))
    } else if spec_u16(s, 0, false) != TIFF_BE && spec_u16(s, 0, false) != TIFF_LE {
        Some(Error::InvalidFormat("Invalid TIFF byte order"))
    } else if spec_u16(s, 2, spec_u16(s, 0, false) == TIFF_LE) != TIFF_FORTY_TWO {
        Some(Error::InvalidFormat("Invalid forty two"))
    } else {
        None
    }
}

/// A parser of a vendor MakerNote: an IFD, or a TIFF header and IFDs, whose
/// value offsets are corrected for the header the vendor put before it.
#[derive(Debug)]
pub struct MakerNoteParser {
    pub vendor: MakerNoteVendor,
    /// Each entry with the vendor (or Olympus subdirectory) it was read
    /// under.
    pub entries: Vec<(IfdEntry, MakerNoteVendor)>,
    pub little_endian: bool,
    /// `Some` to go on past non-fatal errors, collecting them; `None` to
    /// stop at the first.
    pub continue_on_error: Option<Vec<Error>>,
    /// Entries whose value lies outside this MakerNote block, recorded for
    /// whoever holds the whole buffer instead of failing the MakerNote.
    pub unresolved: Vec<UnresolvedValue>,
    /// Whether value offsets count from the TIFF header.
    pub consider_tiff_offset: bool,
    /// Where the MakerNote sits relative to the TIFF header.
    pub tiff_offset: u32,
    /// The number subtracted from every value offset.
    pub offset_correction: i32,
    /// Whether the data starts with a TIFF header whose byte order mark is
    /// read; if not, the byte order is the caller's hint, or little endian.
    pub has_tiff_header: bool,
}

/// `new` keeps every entry, unresolved value and error of `old`, possibly
/// adding more, and changes no setting.
pub open spec fn parser_extends(old: MakerNoteParser, new: MakerNoteParser) -> bool {
    &&& old.entries@.len() <= new.entries@.len()
    &&& forall|i: int| 0 <= i < old.entries@.len() ==> #[trigger] new.entries@[i] == old.entries@[i]
    &&& old.unresolved@.len() <= new.unresolved@.len()
    &&& forall|i: int| 0 <= i < old.unresolved@.len() ==> #[trigger] new.unresolved@[i] == old.unresolved@[i]
    &&& new.consider_tiff_offset == old.consider_tiff_offset
    &&& new.tiff_offset == old.tiff_offset
    &&& new.offset_correction == old.offset_correction
    &&& new.has_tiff_header == old.has_tiff_header
    &&& (old.continue_on_error is Some <==> new.continue_on_error is Some)
    &&& (old.continue_on_error matches Some(ov) ==> (new.continue_on_error matches Some(nv)
        && ov@.len() <= nv@.len()
        && forall|i: int| 0 <= i < ov@.len() ==> #[trigger] nv@[i] == ov@[i]))
}

/// The order in which contexts nest: every child IFD sits lower.
pub open spec fn rank(ctx: Context) -> int {
    match ctx {
        Context::Tiff => 2,
        Context::Exif => 1,
        _ => 0,
    }
}

/// The correction for offsets counted from the TIFF header.
pub open spec fn tiff_correction(p: MakerNoteParser) -> int {
    if p.consider_tiff_offset { signed32(p.tiff_offset) } else { 0 }
}

/// What a MakerNote parse has gathered so far: the entries with the vendor
/// each was read under, the values found to lie elsewhere, and the errors
/// gone past (where they are collected).
pub ghost struct NoteGathered {
    pub entries: Seq<(IfdEntry, MakerNoteVendor)>,
    pub unresolved: Seq<UnresolvedValue>,
    pub errors: Option<Seq<Error>>,
}

/// What `p` has gathered.
pub open spec fn note_gathered(p: MakerNoteParser) -> NoteGathered {
    NoteGathered {
        entries: p.entries@,
        unresolved: p.unresolved@,
        errors: match p.continue_on_error { Some(v) => Some(v@), None => None },
    }
}

/// The MakerNote a parse reads and how: the bytes, the byte order, the
/// vendor's offset correction and the TIFF correction.
pub ghost struct NotePass {
    pub s: Seq<u8>,
    pub le: bool,
    pub corr: int,
    pub tcorr: int,
}

/// `err` gone past where errors are collected (`Ok`), or returned.
pub open spec fn note_error(g: NoteGathered, err: Error) -> (NoteGathered, Result<(), Error>) {
    match g.errors {
        Some(v) => (NoteGathered { errors: Some(v.push(err)), ..g }, Ok(())),
        None => (g, Err(err)),
    }
}

/// What reading the entry at `s[off..]` gives, or the error.
pub open spec fn note_entry(p: NotePass, off: int) -> Result<EntryRead, Error> {
    match entry_read(p.s, off, p.le, p.corr, p.tcorr) {
        Some(x) => Ok(x),
        None => Err(Error::InvalidFormat("Invalid entry count")),
    }
}

/// Whether `v` is Olympus or OM System, whose subdirectories are followed.
pub open spec fn is_olympus(v: MakerNoteVendor) -> bool {
    v == MakerNoteVendor::Olympus || v == MakerNoteVendor::OMSystem
}

/// The context of the IFD an entry of `tag` points to, if it is a pointer.
pub open spec fn note_child(tag: Tag) -> Option<Context> {
    if tag == Tag(Context::Tiff, 0x8769) {
        Some(Context::Exif)
    } else if tag == Tag(Context::Tiff, 0x8825) {
        Some(Context::Gps)
    } else if tag == Tag(Context::Exif, 0xa005) {
        Some(Context::Interop)
    } else {
        None
    }
}

/// Orders the parse's steps: a shallower subdirectory above a deeper one,
/// an IFD above its entries, entries above the IFDs they point to.
pub open spec fn note_measure(depth: u8, r: int, x: int) -> int {
    (if depth >= MAX_SUBDIR_DEPTH { 0 } else { MAX_SUBDIR_DEPTH - depth }) * 0x1000_0000 + r * 0x100_0000 + x
}

/// What parsing the IFD at `offset` (of context `ctx`, numbered `ifd_num`,
/// `depth` subdirectories down, under `vendor`) does to `g`, and where the
/// next IFD is (0 for none) or why the parse stopped.
pub open spec fn note_ifd(p: NotePass, offset: int, ctx: Context, ifd_num: u16, depth: u8, vendor: MakerNoteVendor,
    g: NoteGathered) -> (NoteGathered, Result<usize, Error>)
    decreases note_measure(depth, rank(ctx), 0x80_0000),
{
    if p.s.len() < offset || p.s.len() - offset < 2 {
        (g, Err(Error::InvalidFormat("Truncated IFD count")))
    } else {
        note_entries(p, offset + 2, spec_u16(p.s, offset, p.le) as u16, 0, ctx, ifd_num, depth, vendor, g)
    }
}

/// What parsing the entries `k..count` of an IFD, the `k`-th at `pos`,
/// does to `g`, entry by entry; after the last comes the next IFD's
/// offset, 0 where it is missing or outside the data.
pub open spec fn note_entries(p: NotePass, pos: int, count: u16, k: int, ctx: Context, ifd_num: u16, depth: u8,
    vendor: MakerNoteVendor, g: NoteGathered) -> (NoteGathered, Result<usize, Error>)
    decreases note_measure(depth, rank(ctx), (count - k) * 16 + 9),
{
    if k >= count {
        if p.s.len() - pos < 4 {
            (g, Ok(0))
        } else if spec_u32(p.s, pos, p.le) >= p.s.len() {
            (g, Ok(0))
        } else {
            (g, Ok(spec_u32(p.s, pos, p.le) as usize))
        }
    } else if p.s.len() - pos < 12 {
        (g, Err(Error::InvalidFormat("Truncated IFD")))
    } else {
        match note_step(p, pos, ctx, ifd_num, depth, vendor, g) {
            (g2, Ok(())) => note_entries(p, pos + 12, count, k + 1, ctx, ifd_num, depth, vendor, g2),
            (g2, Err(e)) => (g2, Err(e)),
        }
    }
}

/// What parsing the entry at `pos` does to `g`: an ordinary entry is
/// gathered under `vendor`, a value elsewhere is recorded, a pointer or an
/// Olympus subdirectory is followed, an entry that cannot be read is an
/// error; an error is gone past where errors are collected.
pub open spec fn note_step(p: NotePass, pos: int, ctx: Context, ifd_num: u16, depth: u8,
    vendor: MakerNoteVendor, g: NoteGathered) -> (NoteGathered, Result<(), Error>)
    decreases note_measure(depth, rank(ctx), 1),
{
    match note_entry(p, pos) {
        Err(e) => note_error(g, e),
        Ok(EntryRead::Elsewhere(u)) => (NoteGathered { unresolved: g.unresolved.push(u), ..g }, Ok(())),
        Ok(EntryRead::Here(tag_num, Value::Unknown(typ, cnt, vofs))) => {
            let tag = Tag(ctx, tag_num);
            match note_child(tag) {
                None => if is_olympus(vendor) && spec_is_olympus_subdir(tag_num) && ctx == Context::Tiff
                    && depth < MAX_SUBDIR_DEPTH {
                    match note_subdir(p, tag_num, vofs, ifd_num, depth, vendor, g) {
                        (g2, Ok(())) => (g2, Ok(())),
                        (g2, Err(e)) => note_error(g2, e),
                    }
                } else {
                    (NoteGathered {
                        entries: g.entries.push((IfdEntry { field: Field { tag, ifd_num: In(ifd_num),
                            value: Value::Unknown(typ, cnt, vofs) } }, vendor)),
                        ..g
                    }, Ok(()))
                },
                Some(child) => {
                    let (g3, res) = match crate::tiff::uint_read(typ, cnt, vofs as int, p.s, p.le, 0) {
                        None => (g, Err(Error::InvalidFormat("Invalid pointer"))),
                        Some(ofs) => match note_ifd(p, ofs as int, child, ifd_num, depth, vendor, g) {
                            (g4, Ok(n)) => if n == 0 {
                                (g4, Ok(()))
                            } else {
                                (g4, Err(Error::InvalidFormat("Unexpected next IFD")))
                            },
                            (g4, Err(e)) => (g4, Err(e)),
                        },
                    };
                    match res {
                        Ok(()) => (g3, Ok(())),
                        Err(e) => note_error(g3, e),
                    }
                },
            }
        },
        Ok(EntryRead::Here(_, _)) => (g, Ok(())),
    }
}

/// Where an Olympus subdirectory whose slot holds `raw` lies in the data:
/// `raw` corrected by the vendor's correction, or past any data where that
/// is negative or too large.
pub open spec fn subdir_offset(p: NotePass, raw: u32) -> int {
    let signed = signed32(raw) - p.corr;
    if signed < 0 || signed > u32::MAX { usize::MAX as int } else { signed }
}

/// What following the Olympus subdirectory of tag `tag_num` (its offset in
/// the value slot at `vofs`, 0 for none) does to `g`: its IFD is parsed
/// one level deeper, under the subdirectory's vendor.
pub open spec fn note_subdir(p: NotePass, tag_num: u16, vofs: u32, ifd_num: u16, depth: u8, vendor: MakerNoteVendor,
    g: NoteGathered) -> (NoteGathered, Result<(), Error>)
    decreases note_measure(depth, 0, 0),
{
    let raw = spec_u32(p.s, vofs as int, p.le) as u32;
    if raw == 0 || depth >= MAX_SUBDIR_DEPTH {
        (g, Ok(()))
    } else {
        match note_ifd(p, subdir_offset(p, raw), Context::Tiff, ifd_num, (depth + 1) as u8,
            spec_subdir_vendor(tag_num, vendor), g) {
            (g2, Ok(_)) => (g2, Ok(())),
            (g2, Err(e)) => (g2, Err(e)),
        }
    }
}

/// What parsing the chain of IFDs from the one at `offset`, numbered
/// `ifd_num` on, does to `g`: at most eight IFDs, until a next offset of 0.
pub open spec fn note_chain(p: NotePass, offset: int, ifd_num: u16, vendor: MakerNoteVendor, g: NoteGathered)
    -> (NoteGathered, Result<(), Error>)
    decreases MAX_MAKER_NOTE_IFDS - ifd_num,
{
    if ifd_num >= MAX_MAKER_NOTE_IFDS {
        (g, Err(Error::InvalidFormat("Limit the IFD count to 8")))
    } else {
        match note_ifd(p, offset, Context::Tiff, ifd_num, 0, vendor, g) {
            (g2, Ok(n)) => if n == 0 { (g2, Ok(())) } else { note_chain(p, n as int, (ifd_num + 1) as u16, vendor, g2) },
            (g2, Err(e)) => (g2, Err(e)),
        }
    }
}

/// The byte order a MakerNote parse uses: the TIFF header's where the
/// vendor writes one, otherwise the hint, or little endian without one.
pub open spec fn note_le(has_tiff_header: bool, s: Seq<u8>, le_hint: Option<bool>) -> bool {
    if has_tiff_header {
        spec_u16(s, 0, false) == TIFF_LE
    } else {
        match le_hint { Some(le) => le, None => true }
    }
}

/// What a parse of the MakerNote `s` makes of `g`, for a vendor that
/// writes a TIFF header or not, with the vendor's offset correction `corr`
/// and the TIFF correction `tcorr`: the header's error where there is a
/// header and it is not valid; otherwise the chain of IFDs from the
/// header's offset (from the start where there is no header), with the
/// error that stopped it gone past or returned where there is a header,
/// returned where there is none.
pub open spec fn note_parse_with(has_tiff_header: bool, corr: int, tcorr: int, vendor: MakerNoteVendor,
    g: NoteGathered, s: Seq<u8>, le_hint: Option<bool>) -> (NoteGathered, Result<(), Error>) {
    let le = note_le(has_tiff_header, s, le_hint);
    let p = NotePass { s, le, corr, tcorr };
    if has_tiff_header {
        match header_error(s) {
            Some(e) => (g, Err(e)),
            None => match note_chain(p, spec_u32(s, 4, le) as usize as int, 0, vendor, g) {
                (g2, Ok(())) => (g2, Ok(())),
                (g2, Err(e)) => note_error(g2, e),
            },
        }
    } else {
        note_chain(p, 0, 0, vendor, g)
    }
}

/// What the parser `old` makes of the MakerNote `s`.
pub open spec fn note_parse(old: MakerNoteParser, s: Seq<u8>, le_hint: Option<bool>) -> (NoteGathered, Result<(), Error>) {
    note_parse_with(old.has_tiff_header, old.offset_correction as int, tiff_correction(old), old.vendor,
        note_gathered(old), s, le_hint)
}

/// What a new parser for `vendor`, with the given offset settings and
/// stopping at the first error, makes of the MakerNote `s`.
pub open spec fn note_parse_new(vendor: MakerNoteVendor, consider_tiff_offset: bool, tiff_offset: u32,
    offset_correction: i32, s: Seq<u8>, le_hint: Option<bool>) -> (NoteGathered, Result<(), Error>) {
    note_parse_with(vendor.spec_has_tiff_header(), offset_correction as int,
        if consider_tiff_offset { signed32(tiff_offset) } else { 0 }, vendor,
        NoteGathered { entries: seq![], unresolved: seq![], errors: None }, s, le_hint)
}

/// Whether `fields` are the MakerNote `entries` with their values read
/// from `s` in byte order `le`, each under the vendor it was read under.
pub open spec fn note_fields(fields: Seq<MakerNoteField>, entries: Seq<(IfdEntry, MakerNoteVendor)>, s: Seq<u8>, le: bool) -> bool {
    &&& fields.len() == entries.len()
    &&& forall|i: int| 0 <= i < entries.len() ==> {
        let f = entries[i].0.spec_field();
        &&& (#[trigger] fields[i]).tag == (MakerTag { vendor: entries[i].1, number: f.tag.1 })
        &&& fields[i].ifd_num == f.ifd_num
        &&& field_read(f, Field { tag: f.tag, ifd_num: f.ifd_num, value: fields[i].value }, s, le)
    }
}

impl MakerNoteParser {
    /// A parser for a block of unknown vendor with a TIFF header, no
    /// offset correction, stopping at the first error.
    pub fn new() -> (r: MakerNoteParser)
        ensures
            r.vendor == MakerNoteVendor::Unknown,
            r.entries@.len() == 0,
            r.unresolved@.len() == 0,
            !r.little_endian,
            r.continue_on_error is None,
            !r.consider_tiff_offset,
            r.tiff_offset == 0,
            r.offset_correction == 0,
            r.has_tiff_header,
    {
        MakerNoteParser {
            vendor: MakerNoteVendor::Unknown,
            entries: Vec::new(),
            little_endian: false,
            continue_on_error: None,
            unresolved: Vec::new(),
            consider_tiff_offset: false,
            tiff_offset: 0,
            offset_correction: 0,
            has_tiff_header: true,
        }
    }

    /// A parser for `vendor`'s MakerNote with the given offset settings,
    /// stopping at the first error.
    pub fn with_offset_correction(vendor: MakerNoteVendor, consider_tiff_offset: bool, tiff_offset: u32,
        offset_correction: i32) -> (r: MakerNoteParser)
        ensures
            r.vendor == vendor,
            r.entries@.len() == 0,
            r.unresolved@.len() == 0,
            !r.little_endian,
            r.continue_on_error is None,
            r.consider_tiff_offset == consider_tiff_offset,
            r.tiff_offset == tiff_offset,
            r.offset_correction == offset_correction,
            r.has_tiff_header == vendor.spec_has_tiff_header(),
    {
        MakerNoteParser {
            vendor,
            entries: Vec::new(),
            little_endian: false,
            continue_on_error: None,
            unresolved: Vec::new(),
            consider_tiff_offset,
            tiff_offset,
            offset_correction,
            has_tiff_header: vendor.has_tiff_header(),
        }
    }

    /// Records `err` and goes on when errors are collected; returns it
    /// otherwise.
    fn check_error(&mut self, err: Error) -> (r: Result<(), Error>)
        ensures
            final(self).entries == old(self).entries,
            final(self).unresolved == old(self).unresolved,
            final(self).vendor == old(self).vendor,
            final(self).little_endian == old(self).little_endian,
            final(self).consider_tiff_offset == old(self).consider_tiff_offset,
            final(self).tiff_offset == old(self).tiff_offset,
            final(self).offset_correction == old(self).offset_correction,
            final(self).has_tiff_header == old(self).has_tiff_header,
            match old(self).continue_on_error {
                Some(v) => r == Ok::<(), Error>(()) && (final(self).continue_on_error matches Some(nv) && nv@ == v@.push(err)),
                None => r == Err::<(), Error>(err) && final(self).continue_on_error is None,
            },
    {
        match &mut self.continue_on_error {
            Some(v) => {
                v.push(err);
                Ok(())
            },
            None => Err(err),
        }
    }

    /// Parses a MakerNote: a TIFF header and the IFDs it reaches when the
    /// vendor writes one, otherwise a bare IFD at the start in the hinted
    /// byte order (little endian without a hint).
    pub fn parse(&mut self, data: &[u8], le_hinting: Option<bool>) -> (r: Result<(), Error>)
        requires
            entries_ok(old(self).entries@, data@.len() as int),
        ensures
            entries_ok(final(self).entries@, data@.len() as int),
            parser_extends(*old(self), *final(self)),
            final(self).vendor == old(self).vendor,
            old(self).has_tiff_header ==> match header_error(data@) {
                Some(e) => {
                    &&& r == Err::<(), Error>(e)
                    &&& final(self).entries == old(self).entries
                    &&& final(self).unresolved == old(self).unresolved
                    &&& final(self).continue_on_error == old(self).continue_on_error
                },
                None => {
                    &&& final(self).little_endian == (spec_u16(data@, 0, false) == TIFF_LE)
                    &&& (old(self).continue_on_error is Some ==> r is Ok)
                },
            },
            !old(self).has_tiff_header ==> final(self).little_endian == match le_hinting {
                Some(le) => le,
                None => true,
            },
            (note_gathered(*final(self)), r) == note_parse(*old(self), data@, le_hinting),
    {
        if self.has_tiff_header {
            if data.len() < 8 {
                return Err(Error::InvalidFormat("Truncated TIFF header"));
            }
            let mark = load_u16(data, 0, false);
            let le = if mark == TIFF_BE {
                false
            } else if mark == TIFF_LE {
                true
            } else {
                return Err(Error::InvalidFormat("Invalid TIFF byte order"));
            };
            self.little_endian = le;
            if load_u16(data, 2, le) != TIFF_FORTY_TWO {
                return Err(Error::InvalidFormat("Invalid forty two"));
            }
            let ifd_offset = load_u32(data, 4, le) as usize;
            match self.parse_body(data, ifd_offset, le) {
                Ok(()) => Ok(()),
                Err(e) => {
                    let ghost g = note_gathered(*self);
                    let r = self.check_error(e);
                    assert((note_gathered(*self), r) == note_error(g, e));
                    r
                },
            }
        } else {
            let le = match le_hinting {
                Some(le) => le,
                None => true,
            };
            self.little_endian = le;
            self.parse_body(data, 0, le)
        }
    }

    /// Parses the IFD at `ifd_offset` and the chain of IFDs after it: the
    /// first always, then each next IFD until an offset of 0, at most
    /// eight in all.
    fn parse_body(&mut self, data: &[u8], ifd_offset: usize, le: bool) -> (r: Result<(), Error>)
        requires
            entries_ok(old(self).entries@, data@.len() as int),
        ensures
            entries_ok(final(self).entries@, data@.len() as int),
            parser_extends(*old(self), *final(self)),
            final(self).vendor == old(self).vendor,
            final(self).little_endian == old(self).little_endian,
            (note_gathered(*final(self)), r) == note_chain(
                NotePass { s: data@, le, corr: old(self).offset_correction as int, tcorr: tiff_correction(*old(self)) },
                ifd_offset as int, 0, old(self).vendor, note_gathered(*old(self))),
    {
        let ghost p = NotePass { s: data@, le, corr: self.offset_correction as int, tcorr: tiff_correction(*self) };
        let ghost goal = note_chain(p, ifd_offset as int, 0, self.vendor, note_gathered(*self));
        let mut next = ifd_offset;
        let mut ifd_num: u16 = 0;
        loop
            invariant
                    entries_ok(self.entries@, data@.len() as int),
                parser_extends(*old(self), *self),
                self.vendor == old(self).vendor,
                self.little_endian == old(self).little_endian,
                ifd_num <= MAX_MAKER_NOTE_IFDS,
                p == (NotePass { s: data@, le, corr: self.offset_correction as int, tcorr: tiff_correction(*self) }),
                goal == note_chain(p, ifd_offset as int, 0, old(self).vendor, note_gathered(*old(self))),
                note_chain(p, next as int, ifd_num, self.vendor, note_gathered(*self)) == goal,
            decreases MAX_MAKER_NOTE_IFDS - ifd_num,
        {
            // Limit the number of IFDs to defend against resource
            // exhaustion attacks.
            if ifd_num >= MAX_MAKER_NOTE_IFDS {
                return Err(Error::InvalidFormat("Limit the IFD count to 8"));
            }
            next = match self.parse_ifd(data, next, Context::Tiff, ifd_num, 0, le) {
                Ok(n) => n,
                Err(e) => return Err(e),
            };
            ifd_num = ifd_num + 1;
            if next == 0 {
                return Ok(());
            }
        }
    }

    /// Parses the IFD at `offset` [EXIF23 4.6.2] and returns the offset of
    /// the next IFD, or 0 where there is none or it lies outside the data.
    fn parse_ifd(&mut self, data: &[u8], offset: usize, ctx: Context, ifd_num: u16, depth: u8, le: bool)
        -> (r: Result<usize, Error>)
        requires
            entries_ok(old(self).entries@, data@.len() as int),
            ifd_num < MAX_MAKER_NOTE_IFDS,
            depth <= MAX_SUBDIR_DEPTH,
        ensures
            entries_ok(final(self).entries@, data@.len() as int),
            parser_extends(*old(self), *final(self)),
            final(self).vendor == old(self).vendor,
            final(self).little_endian == old(self).little_endian,
            r matches Ok(n) ==> n < data@.len(),
            (note_gathered(*final(self)), r) == note_ifd(
                NotePass { s: data@, le, corr: old(self).offset_correction as int, tcorr: tiff_correction(*old(self)) },
                offset as int, ctx, ifd_num, depth, old(self).vendor, note_gathered(*old(self))),
        decreases MAX_SUBDIR_DEPTH - depth, rank(ctx) * 2 + 2,
    {
        let ghost p = NotePass { s: data@, le, corr: self.offset_correction as int, tcorr: tiff_correction(*self) };
        let ghost goal = note_ifd(p, offset as int, ctx, ifd_num, depth, self.vendor, note_gathered(*self));
        // Count (the number of the entries).
        if data.len() < offset || data.len() - offset < 2 {
            return Err(Error::InvalidFormat("Truncated IFD count"));
        }
        let count16 = load_u16(data, offset, le);
        let count = count16 as usize;
        let tiff_corr: i64 = if self.consider_tiff_offset { to_signed(self.tiff_offset) } else { 0 };
        let mut pos = offset + 2;
        let mut k: usize = 0;
        while k < count
            invariant
                    entries_ok(self.entries@, data@.len() as int),
                parser_extends(*old(self), *self),
                self.vendor == old(self).vendor,
                self.little_endian == old(self).little_endian,
                ifd_num < MAX_MAKER_NOTE_IFDS,
                depth <= MAX_SUBDIR_DEPTH,
                tiff_corr == tiff_correction(*self),
                pos <= data@.len(),
                k <= count,
                count == count16,
                p == (NotePass { s: data@, le, corr: self.offset_correction as int, tcorr: tiff_correction(*self) }),
                goal == note_ifd(p, offset as int, ctx, ifd_num, depth, old(self).vendor, note_gathered(*old(self))),
                note_entries(p, pos as int, count16, k as int, ctx, ifd_num, depth, self.vendor, note_gathered(*self)) == goal,
            decreases count - k,
        {
            if data.len() - pos < 12 {
                return Err(Error::InvalidFormat("Truncated IFD"));
            }
            match self.parse_entry(data, pos, ctx, ifd_num, depth, le, tiff_corr) {
                Ok(()) => {},
                Err(e) => return Err(e),
            }
            pos = pos + 12;
            k = k + 1;
        }
        // Offset to the next IFD; none where it is missing or points
        // outside the data.
        if data.len() - pos < 4 {
            return Ok(0);
        }
        let next = load_u32(data, pos, le) as usize;
        if next >= data.len() {
            return Ok(0);
        }
        Ok(next)
    }

    /// Parses the entry at `data[pos..]` of an IFD of context `ctx`: gathers
    /// it, records a value that lies elsewhere, or follows a pointer or an
    /// Olympus subdirectory.
    #[verifier::rlimit(50)]
    fn parse_entry(&mut self, data: &[u8], pos: usize, ctx: Context, ifd_num: u16, depth: u8, le: bool, tiff_corr: i64)
        -> (r: Result<(), Error>)
        requires
            pos + 12 <= data@.len(),
            entries_ok(old(self).entries@, data@.len() as int),
            ifd_num < MAX_MAKER_NOTE_IFDS,
            depth <= MAX_SUBDIR_DEPTH,
            tiff_corr == tiff_correction(*old(self)),
        ensures
            entries_ok(final(self).entries@, data@.len() as int),
            parser_extends(*old(self), *final(self)),
            final(self).vendor == old(self).vendor,
            final(self).little_endian == old(self).little_endian,
            (note_gathered(*final(self)), r) == note_step(
                NotePass { s: data@, le, corr: old(self).offset_correction as int, tcorr: tiff_correction(*old(self)) },
                pos as int, ctx, ifd_num, depth, old(self).vendor, note_gathered(*old(self))),
        decreases MAX_SUBDIR_DEPTH - depth, rank(ctx) * 2 + 1,
    {
        let entry = Self::parse_ifd_entry(data, pos, le, self.offset_correction, tiff_corr);
        let (tag_num, val) = match entry {
            Ok(EntryRead::Here(t, v)) => (t, v),
            // Understood, but its value is elsewhere in the file.
            Ok(EntryRead::Elsewhere(u)) => {
                self.unresolved.push(u);
                return Ok(());
            },
            Err(e) => return self.check_error(e),
        };
        let (typ, cnt, vofs) = match val {
            Value::Unknown(t, c, o) => (t, c, o),
            _ => { return Ok(()); },
        };
        let tag = Tag(ctx, tag_num);
        let child_ctx = if tag == Tag(Context::Tiff, 0x8769) {
            Context::Exif
        } else if tag == Tag(Context::Tiff, 0x8825) {
            Context::Gps
        } else if tag == Tag(Context::Exif, 0xa005) {
            Context::Interop
        } else {
            let olympus = self.vendor == MakerNoteVendor::Olympus || self.vendor == MakerNoteVendor::OMSystem;
            if olympus && is_olympus_subdir(tag_num) && ctx == Context::Tiff && depth < MAX_SUBDIR_DEPTH {
                return match self.parse_olympus_subdir(data, tag_num, vofs, ifd_num, depth, le) {
                    Ok(()) => Ok(()),
                    Err(e) => self.check_error(e),
                };
            }
            let entry = IfdEntry::from_field(Field { tag, ifd_num: In(ifd_num), value: Value::Unknown(typ, cnt, vofs) });
            self.entries.push((entry, self.vendor));
            return Ok(());
        };
        // A pointer is a LONG of count 1, so the IFD offset is in the
        // entry's own value slot.
        let pointer = parse_value(typ, cnt, vofs, data, le);
        proof { crate::tiff::lemma_uint_read(pointer, typ, cnt, vofs as int, data@, le, 0); }
        let res = match pointer.get_uint(0) {
            None => Err(Error::InvalidFormat("Invalid pointer")),
            Some(ofs) => match self.parse_ifd(data, ofs as usize, child_ctx, ifd_num, depth, le) {
                Ok(0) => Ok(()),
                Ok(_) => Err(Error::InvalidFormat("Unexpected next IFD")),
                Err(e) => Err(e),
            },
        };
        match res {
            Ok(()) => Ok(()),
            Err(e) => self.check_error(e),
        }
    }

    /// Parses an Olympus subdirectory: the entry's value slot at `vofs`
    /// holds the subdirectory's offset counted from the MakerNote, which
    /// the offset correction turns into one in `data`; an offset of 0 means
    /// there is none. Its entries are read under the subdirectory's vendor.
    fn parse_olympus_subdir(&mut self, data: &[u8], tag_num: u16, vofs: u32, ifd_num: u16, depth: u8, le: bool)
        -> (r: Result<(), Error>)
        requires
            vofs + 4 <= data@.len(),
            entries_ok(old(self).entries@, data@.len() as int),
            ifd_num < MAX_MAKER_NOTE_IFDS,
            depth < MAX_SUBDIR_DEPTH,
        ensures
            entries_ok(final(self).entries@, data@.len() as int),
            parser_extends(*old(self), *final(self)),
            final(self).vendor == old(self).vendor,
            final(self).little_endian == old(self).little_endian,
            (note_gathered(*final(self)), r) == note_subdir(
                NotePass { s: data@, le, corr: old(self).offset_correction as int, tcorr: tiff_correction(*old(self)) },
                tag_num, vofs, ifd_num, depth, old(self).vendor, note_gathered(*old(self))),
        decreases MAX_SUBDIR_DEPTH - depth, 0int,
    {
        let raw = load_u32(data, vofs as usize, le);
        if raw == 0 {
            return Ok(());
        }
        let signed = to_signed(raw) - self.offset_correction as i64;
        // A negative offset is past any data, as its unsigned form would be.
        let offset: usize = if signed < 0 || signed > u32::MAX as i64 { usize::MAX } else { signed as usize };
        let saved = self.vendor;
        self.vendor = subdir_vendor(tag_num, saved);
        let res = self.parse_ifd(data, offset, Context::Tiff, ifd_num, depth + 1, le);
        self.vendor = saved;
        match res {
            Ok(_) => Ok(()),
            Err(e) => Err(e),
        }
    }

    /// Reads the 12-byte entry at `data[offset..]`, correcting a value
    /// offset by the vendor's correction and the TIFF correction.
    fn parse_ifd_entry(data: &[u8], offset: usize, le: bool, corr: i32, tiff_corr: i64)
        -> (r: Result<EntryRead, Error>)
        requires
            offset + 12 <= data@.len(),
            -0x8000_0000 <= tiff_corr < 0x8000_0000,
        ensures
            r == note_entry(NotePass { s: data@, le, corr: corr as int, tcorr: tiff_corr as int }, offset as int),
            r matches Ok(EntryRead::Here(_, v)) ==> value_slot_ok(v, data@.len() as int),
    {
        let dlen = data.len();
        let tag = load_u16(data, offset, le);
        let typ = load_u16(data, offset + 2, le);
        let cnt = load_u32(data, offset + 4, le);
        let valofs_at = offset + 8;
        let unitlen = unit_len(typ);
        let vallen = match unitlen.checked_mul(cnt as usize) {
            Some(v) => v,
            None => return Err(Error::InvalidFormat("Invalid entry count")),
        };
        if vallen <= 4 {
            // An offset past 4 GiB wraps, as a 32-bit offset does.
            let at: u32 = #[verifier::truncate] (valofs_at as u32);
            proof { crate::tiff::lemma_truncate_le(valofs_at); }
            return Ok(EntryRead::Here(tag, Value::Unknown(typ, cnt, at)));
        }
        let raw = load_u32(data, valofs_at, le);
        let c: i64 = to_signed(raw) - corr as i64 - tiff_corr;
        if c < 0 || (c as u64) > (dlen as u64) || (dlen - c as usize) < vallen {
            // Outside this block: record where, and carry on.
            let n: u32 = #[verifier::truncate] (vallen as u32);
            return Ok(EntryRead::Elsewhere(UnresolvedValue {
                tag,
                typ,
                count: cnt,
                offset: raw,
                len: n,
            }));
        }
        let cu = c as usize;
        let at: u32 = #[verifier::truncate] (cu as u32);
        proof { crate::tiff::lemma_truncate_le(cu); }
        Ok(EntryRead::Here(tag, Value::Unknown(typ, cnt, at)))
    }
}

/// `RICOH\0`
pub const RICOH_SIG: [u8; 6] = [0x52, 0x49, 0x43, 0x4f, 0x48, 0x00];

/// `PENTAX\0`
pub const PENTAX_SIG: [u8; 7] = [0x50, 0x45, 0x4e, 0x54, 0x41, 0x58, 0x00];

/// `OLYMPUS\0`
pub const OLYMPUS_NUL_SIG: [u8; 8] = [0x4f, 0x4c, 0x59, 0x4d, 0x50, 0x55, 0x53, 0x00];

/// `Apple iOS\0`
pub const APPLE_NUL_SIG: [u8; 10] = [0x41, 0x70, 0x70, 0x6c, 0x65, 0x20, 0x69, 0x4f, 0x53, 0x00];

/// The byte order the mark at `s[at..]` names: `Some(true)` for `II`,
/// `Some(false)` for `MM`, `fixed` for anything else; `None` where the
/// mark is past the end.
pub open spec fn mark_order(s: Seq<u8>, at: int, fixed: Option<bool>) -> Option<bool> {
    if s.len() < at + 2 {
        None
    } else if spec_u16(s, at, false) == TIFF_LE {
        Some(true)
    } else if spec_u16(s, at, false) == TIFF_BE {
        Some(false)
    } else {
        fixed
    }
}

/// The byte order a MakerNote header states, `true` for little endian:
/// Ricoh, Pentax, Olympus and OM System headers carry `II` or `MM` at a
/// known place; an Apple header too, and Apple is big endian without one.
/// `None` for other headers.
pub open spec fn makernote_byte_order(s: Seq<u8>) -> Option<bool> {
    if spec_starts_with(s, RICOH_SIG@) {
        mark_order(s, 6, None)
    } else if spec_starts_with(s, PENTAX_SIG@) {
        mark_order(s, 8, None)
    } else if spec_starts_with(s, OLYMPUS_NUL_SIG@) {
        mark_order(s, 8, None)
    } else if spec_starts_with(s, OLYMP_SIG@) {
        mark_order(s, 8, None)
    } else if spec_starts_with(s, OM_SYSTEM_SIG@) {
        mark_order(s, 12, None)
    } else if spec_starts_with(s, APPLE_NUL_SIG@) {
        mark_order(s, 12, Some(false))
    } else {
        None
    }
}

fn order_at(data: &[u8], at: usize, fixed: Option<bool>) -> (r: Option<bool>)
    requires
        at <= 12,
    ensures
        r == mark_order(data@, at as int, fixed),
{
    if data.len() < at + 2 {
        return None;
    }
    let v = load_u16(data, at, false);
    if v == TIFF_LE {
        Some(true)
    } else if v == TIFF_BE {
        Some(false)
    } else {
        fixed
    }
}

/// Detects the byte order a MakerNote header states, `true` for little
/// endian.
pub fn detect_makernote_byte_order(data: &[u8]) -> (r: Option<bool>)
    ensures
        r == makernote_byte_order(data@),
{
    if starts_with(data, &RICOH_SIG) {
        order_at(data, 6, None)
    } else if starts_with(data, &PENTAX_SIG) {
        order_at(data, 8, None)
    } else if starts_with(data, &OLYMPUS_NUL_SIG) {
        order_at(data, 8, None)
    } else if starts_with(data, &OLYMP_SIG) {
        order_at(data, 8, None)
    } else if starts_with(data, &OM_SYSTEM_SIG) {
        order_at(data, 12, None)
    } else if starts_with(data, &APPLE_NUL_SIG) {
        order_at(data, 12, Some(false))
    } else {
        None
    }
}

/// The byte order hint for a vendor whose MakerNote has no TIFF header:
/// Samsung's from its first tags, Apple's, Olympus's and OM System's from
/// their headers; none for the others.
pub open spec fn le_hint(v: MakerNoteVendor, data: Seq<u8>, body: Seq<u8>) -> Option<bool> {
    match v {
        MakerNoteVendor::Samsung => Some(samsung_little_endian(body)),
        MakerNoteVendor::Apple | MakerNoteVendor::Olympus | MakerNoteVendor::OMSystem => makernote_byte_order(data),
        _ => None,
    }
}

/// Parses MakerNote data of unknown vendor that starts with a TIFF header,
/// with the given offset settings: `tiff_offset` is where the MakerNote
/// sits relative to the TIFF header, counted only where
/// `consider_tiff_offset`; `offset_correction` is subtracted from every
/// value offset.
///
/// Returns the fields, every value read, and whether the data is little
/// endian.
pub fn parse_make_note(data: &[u8], consider_tiff_offset: bool, tiff_offset: u32, offset_correction: i32)
    -> (r: Result<(Vec<Field>, bool), Error>)
    requires
    ensures
        header_error(data@) matches Some(e) ==> r == Err::<(Vec<Field>, bool), Error>(e),
        ({
            let (g, res) = note_parse_new(MakerNoteVendor::Unknown, consider_tiff_offset, tiff_offset,
                offset_correction, data@, None);
            match res {
                Err(e) => r == Err::<(Vec<Field>, bool), Error>(e),
                Ok(()) => r matches Ok((fields, le)) && {
                    &&& header_error(data@) is None
                    &&& le == (spec_u16(data@, 0, false) == TIFF_LE)
                    &&& fields@.len() == g.entries.len()
                    &&& forall|i: int| 0 <= i < fields@.len() ==> field_read(g.entries[i].0.spec_field(), #[trigger] fields@[i], data@, le)
                },
            }
        }),
        r matches Ok((fields, le)) ==> forall|i: int| 0 <= i < fields@.len() ==> (#[trigger] fields@[i]).ifd_num.0 < MAX_MAKER_NOTE_IFDS,
{
    let mut parser = MakerNoteParser::with_offset_correction(
        MakerNoteVendor::Unknown, consider_tiff_offset, tiff_offset, offset_correction);
    proof {
        assert(parser.entries@ =~= seq![]);
        assert(parser.unresolved@ =~= seq![]);
    }
    match parser.parse(data, None) {
        Ok(()) => {},
        Err(e) => return Err(e),
    }
    let le = parser.little_endian;
    let mut fields: Vec<Field> = Vec::new();
    let mut i: usize = 0;
    while i < parser.entries.len()
        invariant
            entries_ok(parser.entries@, data@.len() as int),
            i <= parser.entries@.len(),
            fields@.len() == i,
            forall|k: int| 0 <= k < i ==> (#[trigger] fields@[k]).ifd_num.0 < MAX_MAKER_NOTE_IFDS,
            forall|k: int| 0 <= k < i ==> field_read(parser.entries@[k].0.spec_field(), #[trigger] fields@[k], data@, le),
        decreases parser.entries@.len() - i,
    {
        assert(parser.entries@[i as int].0.in_bounds(data@.len() as int));
        let f = parser.entries[i].0.ref_field(data, le);
        fields.push(f);
        i = i + 1;
    }
    Ok((fields, le))
}

/// Whether `r` is what parsing the MakerNote `data` comes to, for a file
/// whose `Make` is `make` and with the MakerNote at `tiff_offset` from the
/// TIFF header: the vendor its header and `make` name; too short for that
/// vendor's header, an error; otherwise what a new parser with the
/// vendor's settings makes of the rest, its fields read under the vendor
/// (or subdirectory) each entry was read under, and the values it found
/// to lie elsewhere.
pub open spec fn made_note(data: Seq<u8>, tiff_offset: u32, make: Option<Seq<u8>>,
    r: Result<(Vec<MakerNoteField>, MakerNoteVendor, bool, Vec<UnresolvedValue>), Error>) -> bool {
    let v = vendor_of(data, make);
    let body = data.subrange(v.spec_header_size() as int, data.len() as int);
    let hint = if v.spec_has_tiff_header() { None } else { le_hint(v, data, body) };
    if data.len() < v.spec_header_size() {
        r matches Err(e) && e.is_invalid("MakerNote data too short for vendor header")
    } else {
        let (g, res) = note_parse_new(v, v.spec_consider_tiff_offset(), tiff_offset,
            v.spec_offset_correction() as i32, body, hint);
        match res {
            Err(e) => r == Err::<(Vec<MakerNoteField>, MakerNoteVendor, bool, Vec<UnresolvedValue>), Error>(e),
            Ok(()) => r matches Ok((fields, vendor, le, unresolved)) && {
                &&& vendor == v
                &&& le == note_le(v.spec_has_tiff_header(), body, hint)
                &&& note_fields(fields@, g.entries, body, le)
                &&& unresolved@ == g.unresolved
            },
        }
    }
}

/// Parses a vendor's MakerNote: detects the vendor from the header and the
/// `Make` field, skips the vendor header, and parses the rest with the
/// vendor's offset settings; `tiff_offset` is where the MakerNote sits
/// relative to the TIFF header.
///
/// Returns the fields under the vendor's tags (or an Olympus
/// subdirectory's), the vendor, whether the data is little endian, and the
/// entries whose values lie outside the MakerNote.
pub fn parse_make_note_with_vendor(data: &[u8], tiff_offset: u32, make: Option<&str>)
    -> (r: Result<(Vec<MakerNoteField>, MakerNoteVendor, bool, Vec<UnresolvedValue>), Error>)
    requires
    ensures
        made_note(data@, tiff_offset, make_bytes(make), r),
        r matches Ok((fields, vendor, le, _)) ==> forall|i: int| 0 <= i < fields@.len() ==> {
            &&& (#[trigger] fields@[i]).ifd_num.0 < MAX_MAKER_NOTE_IFDS
            &&& custom_display_ok(spec_display_kind(fields@[i].tag), fields@[i].value, fields@[i].custom_display)
        },
{
    let vendor = MakerNoteVendor::from_header(data, make);
    let header_size = vendor.header_size();
    if data.len() < header_size {
        return Err(Error::InvalidFormat("MakerNote data too short for vendor header"));
    }
    let body = slice_subrange(data, header_size, data.len());
    let le_hinting = if !vendor.has_tiff_header() {
        match vendor {
            MakerNoteVendor::Samsung => Some(detect_samsung_byte_order(body)),
            MakerNoteVendor::Apple | MakerNoteVendor::Olympus | MakerNoteVendor::OMSystem => detect_makernote_byte_order(data),
            _ => None,
        }
    } else {
        None
    };
    let mut parser = MakerNoteParser::with_offset_correction(
        vendor, vendor.consider_tiff_offset(), tiff_offset, vendor.offset_correction());
    proof {
        assert(parser.entries@ =~= seq![]);
        assert(parser.unresolved@ =~= seq![]);
    }
    match parser.parse(body, le_hinting) {
        Ok(()) => {},
        Err(e) => return Err(e),
    }
    let le = parser.little_endian;
    let mut fields: Vec<MakerNoteField> = Vec::new();
    let mut i: usize = 0;
    while i < parser.entries.len()
        invariant
            entries_ok(parser.entries@, body@.len() as int),
            i <= parser.entries@.len(),
            fields@.len() == i,
            forall|k: int| 0 <= k < i ==> {
                &&& (#[trigger] fields@[k]).ifd_num.0 < MAX_MAKER_NOTE_IFDS
                &&& custom_display_ok(spec_display_kind(fields@[k].tag), fields@[k].value, fields@[k].custom_display)
            },
            note_fields(fields@, parser.entries@.take(i as int), body@, le),
        decreases parser.entries@.len() - i,
    {
        assert(parser.entries@[i as int].0.in_bounds(body@.len() as int));
        let (entry, entry_vendor) = (&parser.entries[i].0, parser.entries[i].1);
        let f = entry.ref_field(body, le);
        let tag = MakerTag::new(entry_vendor, f.tag.1);
        let ghost before = fields@;
        fields.push(MakerNoteField::new(tag, f.ifd_num, f.value));
        i = i + 1;
        proof {
            let es = parser.entries@.take(i as int);
            assert forall|k: int| 0 <= k < es.len() implies {
                let f = es[k].0.spec_field();
                &&& (#[trigger] fields@[k]).tag == (MakerTag { vendor: es[k].1, number: f.tag.1 })
                &&& fields@[k].ifd_num == f.ifd_num
                &&& field_read(f, Field { tag: f.tag, ifd_num: f.ifd_num, value: fields@[k].value }, body@, le)
            } by {
                if k < i - 1 {
                    assert(es[k] == parser.entries@.take(i - 1)[k]);
                    assert(fields@[k] == before[k]);
                }
            }
        }
    }
    assert(parser.entries@.take(parser.entries@.len() as int) =~= parser.entries@);
    Ok((fields, vendor, le, parser.unresolved))
}

/// An Olympus subdirectory is read one level deeper as an IFD at the
/// offset its slot states (corrected for the vendor's header), and its
/// entries are read under the subdirectory's own table: Equipment (0x2010),
/// CameraSettings (0x2020), RawDevelopment (0x2030), ImageProcessing
/// (0x2040), FocusInfo (0x2050), RawInfo (0x3000); any other subdirectory
/// (the main tags again, 0x4000) under the vendor it was found under. Where
/// the IFD's parse fails, so does the subdirectory's.
pub proof fn lemma_olympus_subdirectory_vendors(p: NotePass, tag_num: u16, vofs: u32, ifd_num: u16, depth: u8,
    vendor: MakerNoteVendor, g: NoteGathered)
    requires
        depth < MAX_SUBDIR_DEPTH,
        spec_u32(p.s, vofs as int, p.le) as u32 != 0,
    ensures
        ({
            let at = subdir_offset(p, spec_u32(p.s, vofs as int, p.le) as u32);
            &&& tag_num == 0x2010 ==> note_subdir(p, tag_num, vofs, ifd_num, depth, vendor, g).0 == note_ifd(p, at, Context::Tiff, ifd_num, (depth + 1) as u8, MakerNoteVendor::OlympusEquipment, g).0
            &&& tag_num == 0x2020 ==> note_subdir(p, tag_num, vofs, ifd_num, depth, vendor, g).0 == note_ifd(p, at, Context::Tiff, ifd_num, (depth + 1) as u8, MakerNoteVendor::OlympusCameraSettings, g).0
            &&& tag_num == 0x2030 ==> note_subdir(p, tag_num, vofs, ifd_num, depth, vendor, g).0 == note_ifd(p, at, Context::Tiff, ifd_num, (depth + 1) as u8, MakerNoteVendor::OlympusRawDevelopment, g).0
            &&& tag_num == 0x2040 ==> note_subdir(p, tag_num, vofs, ifd_num, depth, vendor, g).0 == note_ifd(p, at, Context::Tiff, ifd_num, (depth + 1) as u8, MakerNoteVendor::OlympusImageProcessing, g).0
            &&& tag_num == 0x2050 ==> note_subdir(p, tag_num, vofs, ifd_num, depth, vendor, g).0 == note_ifd(p, at, Context::Tiff, ifd_num, (depth + 1) as u8, MakerNoteVendor::OlympusFocusInfo, g).0
            &&& tag_num == 0x3000 ==> note_subdir(p, tag_num, vofs, ifd_num, depth, vendor, g).0 == note_ifd(p, at, Context::Tiff, ifd_num, (depth + 1) as u8, MakerNoteVendor::OlympusRawInfo, g).0
            &&& (tag_num != 0x2010 && tag_num != 0x2020 && tag_num != 0x2030 && tag_num != 0x2040 && tag_num != 0x2050 && tag_num != 0x3000) ==> note_subdir(p, tag_num, vofs, ifd_num, depth, vendor, g).0
                == note_ifd(p, at, Context::Tiff, ifd_num, (depth + 1) as u8, vendor, g).0
            &&& (note_subdir(p, tag_num, vofs, ifd_num, depth, vendor, g).1 is Ok
                <==> note_ifd(p, at, Context::Tiff, ifd_num, (depth + 1) as u8,
                    crate::make_note::olympus::spec_subdir_vendor(tag_num, vendor), g).1 is Ok)
        }),
{
}

/// The table of subdirectory vendors, by the tag that points to each.
pub proof fn lemma_olympus_subdirectory_table(f: MakerNoteVendor)
    ensures
        crate::make_note::olympus::spec_subdir_vendor(0x2010, f) == MakerNoteVendor::OlympusEquipment,
        crate::make_note::olympus::spec_subdir_vendor(0x2020, f) == MakerNoteVendor::OlympusCameraSettings,
        crate::make_note::olympus::spec_subdir_vendor(0x2030, f) == MakerNoteVendor::OlympusRawDevelopment,
        crate::make_note::olympus::spec_subdir_vendor(0x2040, f) == MakerNoteVendor::OlympusImageProcessing,
        crate::make_note::olympus::spec_subdir_vendor(0x2050, f) == MakerNoteVendor::OlympusFocusInfo,
        crate::make_note::olympus::spec_subdir_vendor(0x3000, f) == MakerNoteVendor::OlympusRawInfo,
        crate::make_note::olympus::spec_subdir_vendor(0x4000, f) == f,
{
}

} // verus!
