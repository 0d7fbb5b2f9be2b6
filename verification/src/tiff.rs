use vstd::prelude::*;
use crate::bytes::{spec_u16, spec_u32, load_u16, load_u32, starts_with, spec_starts_with};
use crate::error::Error;
use crate::tag::{Context, Tag};
use crate::value::{Value, ValueView, parse_value, spec_unit_len, unit_len, value_read_from};
use crate::fmt::{padded_dec, push_padded, lemma_padded_ascii};
use crate::util::{atou16, ctou32, is_digit, all_digits, spec_decimal, pow10, lemma_decimal_bound, bytes_eq, ascii_chars, bytes_to_string};

verus! {

// TIFF header magic numbers [EXIF23 4.5.2].
pub const TIFF_BE: u16 = 0x4d4d;
pub const TIFF_LE: u16 = 0x4949;
pub const TIFF_FORTY_TWO: u16 = 0x002a;
/// Olympus ORF, the common signature (`IIRO`).
pub const ORF_RO: u16 = 0x4f52;
/// Olympus ORF as written by later bodies (`IIRS`).
pub const ORF_RS: u16 = 0x5352;
/// Panasonic RW2 (`IIU\0`): version word 85.
pub const RW2_EIGHTY_FIVE: u16 = 0x0055;

/// How many `SubIFDs` pointers are followed.
pub const MAX_SUB_IMAGES: usize = 8;
/// How many IFDs a chain may hold.
pub const MAX_CHAINED_IFDS: u16 = 8;
/// The largest RW2 IFD0 tag number worth capturing (`0x0017`, ISO).
pub const RW2_TAG_MAX: u16 = 0x17;
pub const RW2_SENSOR_TOP: usize = 4;
pub const RW2_SENSOR_LEFT: usize = 5;
pub const RW2_SENSOR_BOTTOM: usize = 6;
pub const RW2_SENSOR_RIGHT: usize = 7;
pub const RW2_ISO: usize = 0x17;

/// An IFD number.
///
/// The IFDs are indexed from 0.  The 0th IFD is for the primary image
/// and the 1st one is for the thumbnail.
#[derive(Debug, Clone, Copy, PartialEq, Eq, Structural)]
pub struct In(pub u16);

#[allow(non_snake_case)]
impl In {
    /// The primary image, IFD0.
    pub fn PRIMARY() -> (r: In)
        ensures
            r == In(0),
    {
        In(0)
    }

    /// The thumbnail, IFD1.
    pub fn THUMBNAIL() -> (r: In)
        ensures
            r == In(1),
    {
        In(1)
    }

    /// The IFD number given to Multi-Picture Format fields.
    pub fn MPF() -> (r: In)
        ensures
            r == In(2),
    {
        In(2)
    }

    /// The first sub-image IFD (`SubIFDs`, tag 0x014A); the next is
    /// `In(SUB_IMAGE.0 + 1)` and so on. It lies above every number the IFD
    /// chain (capped at 8) and `MPF` can take.
    pub fn SUB_IMAGE() -> (r: In)
        ensures
            r == In(16),
    {
        In(16)
    }

    /// Returns the IFD number.
    pub fn index(self) -> (r: u16)
        ensures
            r == self.0,
    {
        self.0
    }

    /// The IFD as shown: `primary`, `thumbnail`, or `IFD` and its number.
    pub open spec fn spec_text(self) -> Seq<char> {
        if self.0 == 0 {
            "primary"@
        } else if self.0 == 1 {
            "thumbnail"@
        } else {
            "IFD"@ + ascii_chars(crate::fmt::dec_digits(self.0 as nat))
        }
    }

    /// Returns the IFD as shown: `primary`, `thumbnail`, or `IFD` and its
    /// number.
    pub fn to_text(self) -> (r: String)
        ensures
            r@ == self.spec_text(),
    {
        if self.0 == 0 {
            String::from_str("primary")
        } else if self.0 == 1 {
            String::from_str("thumbnail")
        } else {
            let mut b: Vec<u8> = Vec::new();
            crate::fmt::push_dec(&mut b, self.0 as u64);
            assert(b@ =~= crate::fmt::dec_digits(self.0 as nat));
            let digits = bytes_to_string(b.as_slice());
            let mut out = String::from_str("IFD");
            out.append(digits.as_str());
            out
        }
    }
}

/// A TIFF/Exif field.
#[derive(Debug)]
pub struct Field {
    /// The tag of this field.
    pub tag: Tag,
    /// The index of the IFD to which this field belongs.
    pub ifd_num: In,
    /// The value of this field.
    pub value: Value,
}

impl Field {
    /// Returns a copy of the field.
    pub fn copy(&self) -> (r: Field)
        ensures
            r.tag == self.tag,
            r.ifd_num == self.ifd_num,
            r.value@ == self.value@,
    {
        Field { tag: self.tag, ifd_num: self.ifd_num, value: self.value.copy() }
    }
}

/// What a field states: its tag, its IFD and its value.
pub open spec fn field_view(f: Field) -> (Tag, In, ValueView) {
    (f.tag, f.ifd_num, f.value@)
}

/// What each field states.
pub open spec fn fields_view(v: Seq<Field>) -> Seq<(Tag, In, ValueView)> {
    v.map_values(|f: Field| field_view(f))
}

/// A TIFF field as the parser found it. Its value may still be
/// `Value::Unknown(type, count, offset)`, naming where the value lies in
/// the TIFF data, until the entry is read with that data.
#[derive(Debug)]
pub struct IfdEntry {
    pub field: Field,
}

/// Whether a value still to be read lies within the first `len` bytes.
pub open spec fn value_in_bounds(v: Value, len: int) -> bool {
    match v {
        Value::Unknown(t, c, o) => o + spec_unit_len(t) * c <= len,
        _ => true,
    }
}

/// The IFD numbers the parser gives out: a chained IFD (0 to 7) or a
/// sub-image (16 to 23).
pub open spec fn ifd_num_ok(n: In) -> bool {
    n.0 < 8 || (16 <= n.0 < 24)
}

impl IfdEntry {
    /// The field this entry holds, its value possibly unread.
    pub open spec fn spec_field(&self) -> Field {
        self.field
    }

    /// Whether this entry's value can be read from `len` bytes of data.
    pub open spec fn in_bounds(&self, len: int) -> bool {
        value_in_bounds(self.field.value, len)
    }

    /// An entry holding `field` as it is.
    pub fn from_field(field: Field) -> (r: IfdEntry)
        ensures
            r.spec_field() == field,
    {
        IfdEntry { field }
    }

    /// An entry whose value has already been read.
    pub fn from_parsed_field(field: Field) -> (r: IfdEntry)
        ensures
            r.spec_field() == field,
    {
        IfdEntry { field }
    }

    /// Returns the IFD number and the tag of this entry.
    pub fn ifd_num_tag(&self) -> (r: (In, Tag))
        ensures
            r == (self.field.ifd_num, self.field.tag),
    {
        (self.field.ifd_num, self.field.tag)
    }

    /// Tests whether this entry's value can be read from `data`.
    pub fn check_bounds(&self, data: &[u8]) -> (r: bool)
        ensures
            r == self.in_bounds(data@.len() as int),
    {
        match self.field.value {
            Value::Unknown(t, c, o) => {
                let u = unit_len(t) as u64;
                let need = (o as u64) + u * (c as u64);
                need <= data.len() as u64
            },
            _ => true,
        }
    }

    /// Returns the field with its value read from `data` in the given byte
    /// order.
    pub fn ref_field(&self, data: &[u8], le: bool) -> (r: Field)
        requires
            self.in_bounds(data@.len() as int),
        ensures
            field_read(self.field, r, data@, le),
    {
        read_field(self.field.copy(), data, le)
    }

    /// Turns the entry into its field, reading the value from `data` in
    /// the given byte order.
    pub fn into_field(self, data: &[u8], le: bool) -> (r: Field)
        requires
            self.in_bounds(data@.len() as int),
        ensures
            field_read(self.field, r, data@, le),
    {
        read_field(self.field, data, le)
    }
}

/// Whether `r` is `f` with its value read from `s`: the tag and IFD are
/// kept, a value still to be read is read, and any other value is kept.
pub open spec fn field_read(f: Field, r: Field, s: Seq<u8>, le: bool) -> bool {
    &&& r.tag == f.tag
    &&& r.ifd_num == f.ifd_num
    &&& match f.value {
        Value::Unknown(t, c, o) => value_read_from(r.value@, t, c as int, o as int, s, le),
        _ => r.value@ == f.value@,
    }
}

fn read_field(f: Field, data: &[u8], le: bool) -> (r: Field)
    requires
        value_in_bounds(f.value, data@.len() as int),
    ensures
        field_read(f, r, data@, le),
{
    match f.value {
        Value::Unknown(t, c, o) => Field { tag: f.tag, ifd_num: f.ifd_num, value: parse_value(t, c, o, data, le) },
        _ => f,
    }
}

/// Whether every entry can be read from `len` bytes and carries an IFD
/// number the parser gives out.
pub open spec fn entries_ok(entries: Seq<IfdEntry>, len: int) -> bool {
    forall|i: int| 0 <= i < entries.len() ==> {
        &&& #[trigger] entries[i].in_bounds(len)
        &&& ifd_num_ok(entries[i].spec_field().ifd_num)
    }
}

/// Parses the Exif attributes in the TIFF format.
///
/// Returns the fields, every value read, and whether the data is
/// little endian.
pub fn parse_exif(data: &[u8]) -> (r: Result<(Vec<Field>, bool), Error>)
    ensures
        header_error(data@) is Some ==> r == Err::<(Vec<Field>, bool), Error>(header_error(data@)->0),
        header_error(data@) is None ==> match tiff_parse(data@, false).1 {
            Err(e) => r == Err::<(Vec<Field>, bool), Error>(e),
            Ok(()) => r matches Ok((fields, le)) && le == header_le(data@)
                && fields@.len() == tiff_field_count(data@, false)
                && tiff_fields(fields@, data@, false, le),
        },
        r matches Ok((fields, le)) ==> forall|i: int| 0 <= i < fields@.len() ==> ifd_num_ok(#[trigger] fields@[i].ifd_num),
{
    let mut parser = Parser::new();
    let ghost fresh = parser;
    match parser.parse(data) {
        Ok(()) => {},
        Err(e) => {
            proof { lemma_fresh_gathered(fresh, false); }
            return Err(e);
        },
    }
    proof { lemma_fresh_gathered(fresh, false); }
    let le = parser.little_endian;
    let entries = parser.entries;
    let mut fields: Vec<Field> = Vec::new();
    let mut i: usize = 0;
    while i < entries.len()
        invariant
            i <= entries@.len(),
            entries_ok(entries@, data@.len() as int),
            fields@.len() == i,
            forall|j: int| 0 <= j < i ==> field_read(entries@[j].spec_field(), #[trigger] fields@[j], data@, le),
        decreases entries@.len() - i,
    {
        let f = entries[i].ref_field(data, le);
        fields.push(f);
        i = i + 1;
    }
    proof {
        assert forall|j: int| 0 <= j < fields@.len() implies ifd_num_ok(#[trigger] fields@[j].ifd_num) by {
            assert(entries@[j].in_bounds(data@.len() as int));
        }
        lemma_read_entries_are_tiff_fields(entries@, fields@, data@, false, le);
    }
    Ok((fields, le))
}

/// A new parser has gathered what `fresh_gathered` says.
pub proof fn lemma_fresh_gathered(p: Parser, collect: bool)
    requires
        p.entries@.len() == 0,
        p.continue_on_error is Some <==> collect,
        p.continue_on_error matches Some(v) ==> v@.len() == 0,
        p.rw2_tags@ == Seq::new(24, |i: int| None::<u16>),
    ensures
        gathered(p) == fresh_gathered(collect),
{
    assert(p.entries@ =~= seq![]);
    if let Some(v) = p.continue_on_error {
        assert(v@ =~= seq![]);
    }
}

/// Fields read one for one from what a new parser found in `s` are the
/// fields `tiff_fields` speaks of.
pub proof fn lemma_read_entries_are_tiff_fields(entries: Seq<IfdEntry>, fields: Seq<Field>, s: Seq<u8>, collect: bool, le: bool)
    requires
        header_error(s) is None,
        if header_rw2(s) {
            rw2_appended(tiff_parse(s, collect).0.entries, tiff_parse(s, collect).0.rw2_tags, entries)
        } else {
            entries == tiff_parse(s, collect).0.entries
        },
        fields.len() >= entries.len(),
        forall|j: int| 0 <= j < entries.len() ==> field_read(entries[j].spec_field(), #[trigger] fields[j], s, le),
    ensures
        tiff_fields(fields, s, collect, le),
        entries.len() == tiff_field_count(s, collect),
{
    let g = tiff_parse(s, collect).0;
    let added = tiff_synthesized(s, collect);
    assert forall|i: int| 0 <= i < g.entries.len() implies field_read(g.entries[i].spec_field(), #[trigger] fields[i], s, le) by {
        if header_rw2(s) {
            assert(entries[i] == g.entries[i]);
        }
        assert(field_read(entries[i].spec_field(), fields[i], s, le));
    }
    assert forall|j: int| 0 <= j < added.len() implies {
        let f = #[trigger] fields[g.entries.len() + j];
        &&& f.tag == added[j].0
        &&& f.ifd_num == In(0)
        &&& f.value@ == ValueView::Long(seq![added[j].1])
    } by {
        let e = entries[g.entries.len() + j].spec_field();
        assert(field_read(e, fields[g.entries.len() + j], s, le));
    }
}

/// The error a TIFF header alone decides: too short, an unknown byte
/// order, or an unknown version word; `None` when the header is valid.
pub open spec fn header_error(s: Seq<u8>) -> Option<Error> {
    if s.len() < 8 {
        Some(Error::InvalidFormat("Truncated TIFF header"))
    } else if spec_u16(s, 0, false) != TIFF_BE && spec_u16(s, 0, false) != TIFF_LE {
        Some(Error::InvalidFormat("Invalid TIFF byte order"))
    } else {
        let v = spec_u16(s, 2, spec_u16(s, 0, false) == TIFF_LE);
        if v != TIFF_FORTY_TWO && v != ORF_RO && v != ORF_RS && v != RW2_EIGHTY_FIVE {
            Some(Error::InvalidFormat("Invalid forty two"))
        } else {
            None
        }
    }
}

/// A TIFF parser that collects the entries of every IFD it reaches.
#[derive(Debug)]
pub struct Parser {
    pub entries: Vec<IfdEntry>,
    pub little_endian: bool,
    /// `Some` to go on past non-fatal errors, collecting them; `None` to
    /// stop at the first.
    pub continue_on_error: Option<Vec<Error>>,
    /// Whether the header's version word said RW2.
    pub rw2: bool,
    /// RW2 IFD0 SHORTs captured on the way past, indexed by tag number.
    pub rw2_tags: Vec<Option<u16>>,
}

/// The order in which contexts nest: every child IFD sits lower.
pub open spec fn rank(ctx: Context, ifd_num: u16) -> int {
    match ctx {
        Context::Tiff => if ifd_num == 0 { 3 } else { 2 },
        Context::Exif => 1,
        _ => 0,
    }
}

/// `new` keeps every entry and error of `old`, possibly adding more, and
/// changes no setting.
pub open spec fn parser_extends(old: Parser, new: Parser) -> bool {
    &&& old.entries@.len() <= new.entries@.len()
    &&& forall|i: int| 0 <= i < old.entries@.len() ==> #[trigger] new.entries@[i] == old.entries@[i]
    &&& new.little_endian == old.little_endian
    &&& new.rw2 == old.rw2
    &&& (old.continue_on_error is Some <==> new.continue_on_error is Some)
    &&& (old.continue_on_error matches Some(ov) ==> (new.continue_on_error matches Some(nv)
        && ov@.len() <= nv@.len()
        && forall|i: int| 0 <= i < ov@.len() ==> #[trigger] nv@[i] == ov@[i]))
}

/// What a parse has gathered so far: the entries, the errors gone past
/// (where they are collected), and the RW2 IFD0 SHORTs captured.
pub ghost struct Gathered {
    pub entries: Seq<IfdEntry>,
    pub errors: Option<Seq<Error>>,
    pub rw2_tags: Seq<Option<u16>>,
}

/// What `p` has gathered.
pub open spec fn gathered(p: Parser) -> Gathered {
    Gathered {
        entries: p.entries@,
        errors: match p.continue_on_error { Some(v) => Some(v@), None => None },
        rw2_tags: p.rw2_tags@,
    }
}

/// The data a parse reads and how: the bytes, where they sit in a larger
/// buffer, the byte order, and whether the header said RW2.
pub ghost struct Pass {
    pub s: Seq<u8>,
    pub base: u32,
    pub le: bool,
    pub rw2: bool,
}

/// `err` gone past where errors are collected (`Ok`), or returned.
pub open spec fn note_error(g: Gathered, err: Error) -> (Gathered, Result<(), Error>) {
    match g.errors {
        Some(v) => (Gathered { errors: Some(v.push(err)), ..g }, Ok(())),
        None => (g, Err(err)),
    }
}

/// The 12-byte IFD entry at `s[offset..]`: its tag, and its value as
/// `Value::Unknown(type, count, where the value lies)`; the value lies in
/// the entry itself when it takes at most four bytes.
pub open spec fn ifd_entry_at(s: Seq<u8>, offset: int, le: bool) -> Result<(u16, Value), Error> {
    let typ = spec_u16(s, offset + 2, le) as u16;
    let cnt = spec_u32(s, offset + 4, le);
    let vallen = spec_unit_len(typ) * cnt;
    let ofs = spec_u32(s, offset + 8, le);
    if vallen > usize::MAX {
        Err(Error::InvalidFormat("Invalid entry count"))
    } else if vallen <= 4 {
        Ok((spec_u16(s, offset, le) as u16, Value::Unknown(typ, cnt as u32, (offset + 8) as u32)))
    } else if s.len() < ofs + vallen {
        Err(Error::InvalidFormat("Truncated field value"))
    } else {
        Ok((spec_u16(s, offset, le) as u16, Value::Unknown(typ, cnt as u32, ofs as u32)))
    }
}

/// The `i`-th unsigned number of `cnt` units of type `typ` at `s[ofs..]`:
/// BYTE, SHORT and LONG values have them.
pub open spec fn uint_read(typ: u16, cnt: u32, ofs: int, s: Seq<u8>, le: bool, i: int) -> Option<u32> {
    if 0 <= i < cnt {
        if typ == 1 {
            Some(s[ofs + i] as u32)
        } else if typ == 3 {
            Some(spec_u16(s, ofs + 2 * i, le) as u32)
        } else if typ == 4 {
            Some(spec_u32(s, ofs + 4 * i, le) as u32)
        } else {
            None
        }
    } else {
        None
    }
}

/// A value read as `value_read_from` says has the unsigned numbers
/// `uint_read` gives.
pub proof fn lemma_uint_read(v: Value, typ: u16, cnt: u32, ofs: int, s: Seq<u8>, le: bool, i: int)
    requires
        value_read_from(v@, typ, cnt as int, ofs, s, le),
        0 <= ofs,
        ofs + spec_unit_len(typ) * cnt <= s.len(),
    ensures
        v.spec_get_uint(i) == uint_read(typ, cnt, ofs, s, le, i),
{
    match v {
        Value::Byte(b) => {
            if 0 <= i < cnt {
                assert(b@[i] == s.subrange(ofs, ofs + cnt)[i]);
            }
        },
        Value::Unknown(t, c, o) => {
            assert(spec_unit_len(1) != 0 && spec_unit_len(3) != 0 && spec_unit_len(4) != 0);
        },
        _ => {},
    }
}

/// `g` with the RW2 IFD0 SHORT of tag `tag_num` captured, where the header
/// said RW2 and the entry is a single SHORT of IFD0 within the data.
pub open spec fn capture_rw2(p: Pass, ctx: Context, ifd_num: u16, tag_num: u16, val: Value, g: Gathered) -> Gathered {
    if p.rw2 && ctx == Context::Tiff && ifd_num == 0 && tag_num <= RW2_TAG_MAX {
        match val {
            Value::Unknown(t, c, ofs) => if t == 3 && c == 1 && ofs < p.s.len() && p.s.len() - ofs >= 2
                && tag_num < g.rw2_tags.len() {
                Gathered { rw2_tags: g.rw2_tags.update(tag_num as int, Some(spec_u16(p.s, ofs as int, p.le) as u16)), ..g }
            } else {
                g
            },
            _ => g,
        }
    } else {
        g
    }
}

/// The context of the IFD an entry of `tag` points to, if it is a pointer.
pub open spec fn child_context(tag: Tag) -> Option<Context> {
    if tag == Tag(Context::Tiff, 0x8769) {
        Some(Context::Exif)
    } else if tag == Tag(Context::Tiff, 0x8825) {
        Some(Context::Gps)
    } else if tag == Tag(Context::Exif, 0xa005) {
        Some(Context::Interop)
    } else {
        None
    }
}

/// Orders the parse's steps: an IFD above its entries, entries above the
/// IFDs they point to.
pub open spec fn walk_measure(r: int, x: int) -> int {
    r * 0x100_0000 + x
}

/// What parsing the IFD at `offset` (of context `ctx`, numbered `ifd_num`)
/// does to `g`, and where the next IFD is or why the parse stopped.
pub open spec fn walk_ifd(p: Pass, offset: int, ctx: Context, ifd_num: u16, g: Gathered) -> (Gathered, Result<usize, Error>)
    decreases walk_measure(rank(ctx, ifd_num), 0x80_0000),
{
    if p.s.len() < offset || p.s.len() - offset < 2 {
        (g, Err(Error::InvalidFormat("Truncated IFD count")))
    } else {
        walk_entries(p, offset + 2, spec_u16(p.s, offset, p.le) as u16, 0, ctx, ifd_num, g)
    }
}

/// What parsing the entries `k..count` of an IFD, the `k`-th at `pos`,
/// does to `g`: an ordinary entry is gathered, a pointer is followed, an
/// entry that cannot be read is an error; after the last comes the next
/// IFD's offset.
pub open spec fn walk_entries(p: Pass, pos: int, count: u16, k: int, ctx: Context, ifd_num: u16, g: Gathered)
    -> (Gathered, Result<usize, Error>)
    decreases walk_measure(rank(ctx, ifd_num), (count - k) * 16 + 9),
{
    if k >= count {
        if p.s.len() - pos < 4 {
            (g, Err(Error::InvalidFormat("Truncated next IFD offset")))
        } else {
            (g, Ok(spec_u32(p.s, pos, p.le) as usize))
        }
    } else if p.s.len() - pos < 12 {
        (g, Err(Error::InvalidFormat("Truncated IFD")))
    } else {
        match ifd_entry_at(p.s, pos, p.le) {
            Err(e) => match note_error(g, e) {
                (g2, Ok(())) => walk_entries(p, pos + 12, count, k + 1, ctx, ifd_num, g2),
                (g2, Err(e2)) => (g2, Err(e2)),
            },
            Ok((tag_num, Value::Unknown(typ, cnt, vofs))) => {
                let val = Value::Unknown(typ, cnt, (vofs + p.base) as u32);
                let g1 = capture_rw2(p, ctx, ifd_num, tag_num, val, g);
                let tag = Tag(ctx, tag_num);
                if tag == Tag(Context::Tiff, 0x014a) && ifd_num == 0 {
                    match walk_subs(p, typ, cnt, vofs, 0, g1) {
                        (g3, Ok(())) => walk_entries(p, pos + 12, count, k + 1, ctx, ifd_num, g3),
                        (g3, Err(e)) => (g3, Err(e)),
                    }
                } else {
                    match child_context(tag) {
                        None => walk_entries(p, pos + 12, count, k + 1, ctx, ifd_num, Gathered {
                            entries: g1.entries.push(IfdEntry { field: Field { tag, ifd_num: In(ifd_num), value: val } }),
                            ..g1
                        }),
                        Some(child) => {
                            let (g3, res) = match uint_read(typ, cnt, vofs as int, p.s, p.le, 0) {
                                None => (g1, Err(Error::InvalidFormat("Invalid pointer"))),
                                Some(ofs) => match walk_ifd(p, ofs as int, child, ifd_num, g1) {
                                    (g4, Ok(n)) => if n == 0 {
                                        (g4, Ok(()))
                                    } else {
                                        (g4, Err(Error::InvalidFormat("Unexpected next IFD")))
                                    },
                                    (g4, Err(e)) => (g4, Err(e)),
                                },
                            };
                            match res {
                                Ok(()) => walk_entries(p, pos + 12, count, k + 1, ctx, ifd_num, g3),
                                Err(e) => match note_error(g3, e) {
                                    (g5, Ok(())) => walk_entries(p, pos + 12, count, k + 1, ctx, ifd_num, g5),
                                    (g5, Err(e2)) => (g5, Err(e2)),
                                },
                            }
                        },
                    }
                }
            },
            Ok(_) => walk_entries(p, pos + 12, count, k + 1, ctx, ifd_num, g),
        }
    }
}

/// What following the sub-image pointers `i..8` (the unsigned numbers of
/// the `SubIFDs` value) does to `g`: each is parsed as IFD `16 + i`.
pub open spec fn walk_subs(p: Pass, typ: u16, cnt: u32, vofs: u32, i: int, g: Gathered) -> (Gathered, Result<(), Error>)
    decreases walk_measure(3, 8 - i),
{
    if i < 0 || i >= 8 {
        (g, Ok(()))
    } else {
        match uint_read(typ, cnt, vofs as int, p.s, p.le, i) {
            None => (g, Ok(())),
            Some(o) => match walk_ifd(p, o as int, Context::Tiff, (16 + i) as u16, g) {
                (g2, Ok(_)) => walk_subs(p, typ, cnt, vofs, i + 1, g2),
                (g2, Err(e)) => match note_error(g2, e) {
                    (g3, Ok(())) => walk_subs(p, typ, cnt, vofs, i + 1, g3),
                    (g3, Err(e2)) => (g3, Err(e2)),
                },
            },
        }
    }
}

/// What parsing the chain of IFDs from the one at `offset`, numbered
/// `ifd_num` on, does to `g`: at most eight IFDs, until an offset of zero.
pub open spec fn walk_chain(p: Pass, offset: int, ctx: Context, ifd_num: u16, g: Gathered) -> (Gathered, Result<(), Error>)
    decreases 8 - ifd_num,
{
    if offset == 0 {
        (g, Ok(()))
    } else if ifd_num >= MAX_CHAINED_IFDS {
        (g, Err(Error::InvalidFormat("Limit the IFD count to 8")))
    } else {
        match walk_ifd(p, offset, ctx, ifd_num, g) {
            (g2, Ok(next)) => walk_chain(p, next as int, ctx, (ifd_num + 1) as u16, g2),
            (g2, Err(e)) => (g2, Err(e)),
        }
    }
}

/// Whether a valid TIFF header says little endian.
pub open spec fn header_le(s: Seq<u8>) -> bool {
    spec_u16(s, 0, false) == TIFF_LE
}

/// Whether a valid TIFF header's version word says RW2.
pub open spec fn header_rw2(s: Seq<u8>) -> bool {
    spec_u16(s, 2, header_le(s)) == RW2_EIGHTY_FIVE
}

/// What parsing the TIFF data `s` (at `base` in a larger buffer, its first
/// IFD of context `ctx`) does to `g`, for a parser that has RW2 set as
/// `rw2`: the chain of IFDs from the header's offset, with the error that
/// stopped it gone past or returned.
pub open spec fn walk_tiff(s: Seq<u8>, ctx: Context, base: u32, rw2: bool, g: Gathered) -> (Gathered, Result<(), Error>) {
    let p = Pass { s, base, le: header_le(s), rw2: rw2 || header_rw2(s) };
    match walk_chain(p, spec_u32(s, 4, p.le) as usize as int, ctx, 0, g) {
        (g2, Ok(())) => (g2, Ok(())),
        (g2, Err(e)) => note_error(g2, e),
    }
}

/// Whether `after` is `before` followed by the IFD0 LONG fields that RW2
/// synthesis makes of the captured `tags`.
pub open spec fn rw2_appended(before: Seq<IfdEntry>, tags: Seq<Option<u16>>, after: Seq<IfdEntry>) -> bool {
    let added = rw2_synthesized(tags);
    &&& after.len() == before.len() + added.len()
    &&& forall|i: int| 0 <= i < before.len() ==> #[trigger] after[i] == before[i]
    &&& forall|j: int| 0 <= j < added.len() ==> {
        let f = #[trigger] after[before.len() + j].spec_field();
        &&& f.tag == added[j].0
        &&& f.ifd_num == In(0)
        &&& f.value matches Value::Long(v) && v@ == seq![added[j].1]
    }
}

/// Whether the parser `new` is what parsing `s` (as `walk_tiff` says) made
/// of `old`, with the RW2 fields synthesised at the end where the header
/// or an earlier parse said RW2; `r` is what the parse returned.
pub open spec fn parsed_tiff(old: Parser, new: Parser, s: Seq<u8>, ctx: Context, base: u32, r: Result<(), Error>) -> bool {
    let (g, res) = walk_tiff(s, ctx, base, old.rw2, gathered(old));
    &&& r == res
    &&& new.rw2 == (old.rw2 || header_rw2(s))
    &&& new.little_endian == header_le(s)
    &&& gathered(new).errors == g.errors
    &&& new.rw2_tags@ == g.rw2_tags
    &&& if new.rw2 { rw2_appended(g.entries, g.rw2_tags, new.entries@) } else { new.entries@ == g.entries }
}

/// What a new parser has gathered: nothing, with errors collected or not.
pub open spec fn fresh_gathered(collect: bool) -> Gathered {
    Gathered {
        entries: seq![],
        errors: if collect { Some(seq![]) } else { None },
        rw2_tags: Seq::new(24, |i: int| None::<u16>),
    }
}

/// What a new parser makes of the TIFF data `s`, collecting errors or not.
pub open spec fn tiff_parse(s: Seq<u8>, collect: bool) -> (Gathered, Result<(), Error>) {
    walk_tiff(s, Context::Tiff, 0, false, fresh_gathered(collect))
}

/// The fields RW2 synthesis adds after those of the IFDs, where the
/// header says RW2.
pub open spec fn tiff_synthesized(s: Seq<u8>, collect: bool) -> Seq<(Tag, u32)> {
    if header_rw2(s) { rw2_synthesized(tiff_parse(s, collect).0.rw2_tags) } else { seq![] }
}

/// How many fields a new parser finds in `s`.
pub open spec fn tiff_field_count(s: Seq<u8>, collect: bool) -> int {
    (tiff_parse(s, collect).0.entries.len() + tiff_synthesized(s, collect).len()) as int
}

/// Whether `fields` begins with the fields a new parser finds in `s`, each
/// value read in byte order `le`: those of the IFDs, in the order the parse
/// reaches them, then those RW2 synthesis adds.
pub open spec fn tiff_fields(fields: Seq<Field>, s: Seq<u8>, collect: bool, le: bool) -> bool {
    let g = tiff_parse(s, collect).0;
    let added = tiff_synthesized(s, collect);
    &&& fields.len() >= tiff_field_count(s, collect)
    &&& forall|i: int| 0 <= i < g.entries.len() ==> field_read(g.entries[i].spec_field(), #[trigger] fields[i], s, le)
    &&& forall|j: int| 0 <= j < added.len() ==> {
        let f = #[trigger] fields[g.entries.len() + j];
        &&& f.tag == added[j].0
        &&& f.ifd_num == In(0)
        &&& f.value@ == ValueView::Long(seq![added[j].1])
    }
}

/// A position cut to 32 bits is no larger than it was.
pub proof fn lemma_truncate_le(v: usize)
    ensures
        (#[verifier::truncate] (v as u32)) as int <= v as int,
{
    assert((#[verifier::truncate] (v as u32)) as usize <= v) by (bit_vector);
}

impl Parser {
    /// A parser with no entries, stopping at the first error.
    pub fn new() -> (r: Parser)
        ensures
            r.entries@.len() == 0,
            !r.little_endian,
            r.continue_on_error is None,
            !r.rw2,
            r.rw2_tags@ == Seq::new(24, |i: int| None::<u16>),
    {
        let mut tags: Vec<Option<u16>> = Vec::new();
        let mut i: usize = 0;
        while i < 24
            invariant
                i <= 24,
                tags@ == Seq::new(i as nat, |j: int| None::<u16>),
            decreases 24 - i,
        {
            tags.push(None);
            i = i + 1;
            assert(tags@ =~= Seq::new(i as nat, |j: int| None::<u16>));
        }
        Parser { entries: Vec::new(), little_endian: false, continue_on_error: None, rw2: false, rw2_tags: tags }
    }

    /// Records `err` and goes on when errors are collected; returns it
    /// otherwise.
    fn check_error(&mut self, err: Error) -> (r: Result<(), Error>)
        ensures
            final(self).entries == old(self).entries,
            final(self).little_endian == old(self).little_endian,
            final(self).rw2 == old(self).rw2,
            final(self).rw2_tags == old(self).rw2_tags,
            match old(self).continue_on_error {
                Some(v) => r == Ok::<(), Error>(()) && (final(self).continue_on_error matches Some(nv) && nv@ == v@.push(err)),
                None => r == Err::<(), Error>(err) && final(self).continue_on_error is None,
            },
    {
        match &mut self.continue_on_error {
            Some(v) => {
                v.push(err);
                Ok(())
            },
            None => Err(err),
        }
    }

    /// Parses a TIFF header and every IFD it reaches.
    pub fn parse(&mut self, data: &[u8]) -> (r: Result<(), Error>)
        requires
            entries_ok(old(self).entries@, data@.len() as int),
        ensures
            entries_ok(final(self).entries@, data@.len() as int),
            header_error(data@) matches Some(e) ==> r == Err::<(), Error>(e) && *final(self) == *old(self),
            header_error(data@) is None ==> {
                &&& final(self).little_endian == (spec_u16(data@, 0, false) == TIFF_LE)
                &&& (old(self).continue_on_error is Some ==> r is Ok)
                &&& parsed_tiff(*old(self), *final(self), data@, Context::Tiff, 0, r)
            },
            old(self).continue_on_error is Some <==> final(self).continue_on_error is Some,
    {
        self.parse_with_context_offset(data, Context::Tiff, 0)
    }

    /// Parses a TIFF header and every IFD it reaches, naming the first
    /// IFD's context, with every value offset shifted by `base_offset`
    /// (the position of `data` in a larger buffer).
    pub fn parse_with_context_offset(&mut self, data: &[u8], default_context: Context, base_offset: u32)
        -> (r: Result<(), Error>)
        requires
            base_offset == 0 || base_offset + data@.len() <= u32::MAX,
            entries_ok(old(self).entries@, base_offset + data@.len()),
        ensures
            entries_ok(final(self).entries@, base_offset + data@.len()),
            header_error(data@) matches Some(e) ==> r == Err::<(), Error>(e) && *final(self) == *old(self),
            header_error(data@) is None ==> {
                &&& final(self).little_endian == (spec_u16(data@, 0, false) == TIFF_LE)
                &&& (old(self).continue_on_error is Some ==> r is Ok)
                &&& parsed_tiff(*old(self), *final(self), data@, default_context, base_offset, r)
            },
            old(self).continue_on_error is Some <==> final(self).continue_on_error is Some,
    {
        if data.len() < 8 {
            return Err(Error::InvalidFormat("Truncated TIFF header"));
        }
        let mark = load_u16(data, 0, false);
        let le = if mark == TIFF_BE {
            false
        } else if mark == TIFF_LE {
            true
        } else {
            return Err(Error::InvalidFormat("Invalid TIFF byte order"));
        };
        let version = load_u16(data, 2, le);
        if version == RW2_EIGHTY_FIVE {
            self.little_endian = le;
            self.rw2 = true;
        } else if version == TIFF_FORTY_TWO || version == ORF_RO || version == ORF_RS {
            self.little_endian = le;
        } else {
            return Err(Error::InvalidFormat("Invalid forty two"));
        }
        let ifd_offset = load_u32(data, 4, le) as usize;
        let ghost pp = Pass { s: data@, base: base_offset, le, rw2: self.rw2 };
        let ghost g0 = gathered(*self);
        let r = match self.parse_body(data, ifd_offset, default_context, base_offset, le) {
            Ok(()) => Ok(()),
            Err(e) => {
                let ghost g2 = gathered(*self);
                let rr = self.check_error(e);
                assert((gathered(*self), rr) == note_error(g2, e));
                rr
            },
        };
        assert(pp == Pass { s: data@, base: base_offset, le: header_le(data@), rw2: old(self).rw2 || header_rw2(data@) });
        assert(g0 == gathered(*old(self)));
        let ghost wt = walk_tiff(data@, default_context, base_offset, old(self).rw2, gathered(*old(self)));
        assert(gathered(*self) == wt.0);
        assert(r == wt.1);
        assert(self.rw2 == (old(self).rw2 || header_rw2(data@)));
        if self.rw2 {
            let ghost before = self.entries@;
            self.synthesize_rw2();
            proof {
                let added = rw2_synthesized(old(self).rw2_tags@);
                assert forall|i: int| 0 <= i < self.entries@.len() implies {
                    &&& #[trigger] self.entries@[i].in_bounds(base_offset + data@.len())
                    &&& ifd_num_ok(self.entries@[i].spec_field().ifd_num)
                } by {
                    if i >= before.len() {
                        let j = i - before.len();
                        let f = self.entries@[before.len() + j].spec_field();
                        assert(f.ifd_num == In(0));
                        assert(f.value is Long);
                    } else {
                        assert(self.entries@[i] == before[i]);
                        assert(before[i].in_bounds(base_offset + data@.len()));
                    }
                }
            }
        }
        r
    }

    fn parse_body(&mut self, data: &[u8], ifd_offset: usize, ctx: Context, base_offset: u32, le: bool)
        -> (r: Result<(), Error>)
        requires
            base_offset == 0 || base_offset + data@.len() <= u32::MAX,
            entries_ok(old(self).entries@, base_offset + data@.len()),
        ensures
            entries_ok(final(self).entries@, base_offset + data@.len()),
            parser_extends(*old(self), *final(self)),
            (gathered(*final(self)), r) == walk_chain(Pass { s: data@, base: base_offset, le, rw2: old(self).rw2 },
                ifd_offset as int, ctx, 0, gathered(*old(self))),
    {
        let ghost p = Pass { s: data@, base: base_offset, le, rw2: self.rw2 };
        let ghost goal = walk_chain(p, ifd_offset as int, ctx, 0, gathered(*old(self)));
        let mut next = ifd_offset;
        let mut ifd_num: u16 = 0;
        while next != 0
            invariant
                base_offset == 0 || base_offset + data@.len() <= u32::MAX,
                entries_ok(self.entries@, base_offset + data@.len()),
                parser_extends(*old(self), *self),
                ifd_num <= 8,
                p == (Pass { s: data@, base: base_offset, le, rw2: self.rw2 }),
                p.rw2 == old(self).rw2,
                goal == walk_chain(p, ifd_offset as int, ctx, 0, gathered(*old(self))),
                walk_chain(p, next as int, ctx, ifd_num, gathered(*self)) == goal,
            decreases 8 - ifd_num,
        {
            // Limit the number of IFDs to defend against resource
            // exhaustion attacks.
            if ifd_num >= MAX_CHAINED_IFDS {
                return Err(Error::InvalidFormat("Limit the IFD count to 8"));
            }
            next = match self.parse_ifd(data, next, ctx, ifd_num, base_offset, le) {
                Ok(n) => n,
                Err(e) => return Err(e),
            };
            ifd_num = ifd_num + 1;
        }
        Ok(())
    }

    // Parse IFD [EXIF23 4.6.2].
    fn parse_ifd(&mut self, data: &[u8], offset: usize, ctx: Context, ifd_num: u16, base_offset: u32, le: bool)
        -> (r: Result<usize, Error>)
        requires
            base_offset == 0 || base_offset + data@.len() <= u32::MAX,
            entries_ok(old(self).entries@, base_offset + data@.len()),
            ifd_num_ok(In(ifd_num)),
        ensures
            entries_ok(final(self).entries@, base_offset + data@.len()),
            parser_extends(*old(self), *final(self)),
            (gathered(*final(self)), r) == walk_ifd(Pass { s: data@, base: base_offset, le, rw2: old(self).rw2 },
                offset as int, ctx, ifd_num, gathered(*old(self))),
        decreases rank(ctx, ifd_num) * 2 + 1,
    {
        let ghost p = Pass { s: data@, base: base_offset, le, rw2: self.rw2 };
        let ghost goal = walk_ifd(p, offset as int, ctx, ifd_num, gathered(*old(self)));
        // Count (the number of the entries).
        if data.len() < offset || data.len() - offset < 2 {
            return Err(Error::InvalidFormat("Truncated IFD count"));
        }
        let count16 = load_u16(data, offset, le);
        let count = count16 as usize;
        let ghost offset0 = offset;
        let mut pos = offset + 2;
        let mut k: usize = 0;
        while k < count
            invariant
                base_offset == 0 || base_offset + data@.len() <= u32::MAX,
                entries_ok(self.entries@, base_offset + data@.len()),
                parser_extends(*old(self), *self),
                ifd_num_ok(In(ifd_num)),
                pos <= data@.len(),
                k <= count,
                count == count16,
                p == (Pass { s: data@, base: base_offset, le, rw2: self.rw2 }),
                p.rw2 == old(self).rw2,
                offset0 == offset,
                goal == walk_ifd(p, offset as int, ctx, ifd_num, gathered(*old(self))),
                walk_entries(p, pos as int, count16, k as int, ctx, ifd_num, gathered(*self)) == goal,
            decreases count - k,
        {
            if data.len() - pos < 12 {
                return Err(Error::InvalidFormat("Truncated IFD"));
            }
            let ghost pos0 = pos as int;
            let ghost k0 = k as int;
            let ghost g0 = gathered(*self);
            let entry = Self::parse_ifd_entry(data, pos, le);
            pos = pos + 12;
            k = k + 1;
            let (tag_num, raw_val) = match entry {
                Ok(x) => x,
                Err(e) => {
                    match self.check_error(e) {
                        Ok(()) => {},
                        Err(e) => return Err(e),
                    }
                    continue;
                },
            };
            // A value offset is relative to the TIFF header, which is not
            // always at the start of the whole buffer.
            let (typ, cnt, vofs) = match raw_val {
                Value::Unknown(t, c, o) => (t, c, o),
                _ => { continue; },
            };
            let val = Value::Unknown(typ, cnt, vofs + base_offset);
            // Panasonic's sensor geometry and ISO are plain IFD0 SHORTs
            // under vendor tag numbers, captured here and turned into the
            // standard tags by `synthesize_rw2`.
            if self.rw2 && ctx == Context::Tiff && ifd_num == 0 && tag_num <= RW2_TAG_MAX {
                if let Value::Unknown(3, 1, ofs) = val {
                    let ofs = ofs as usize;
                    if ofs < data.len() && data.len() - ofs >= 2 && (tag_num as usize) < self.rw2_tags.len() {
                        let v = load_u16(data, ofs, le);
                        self.rw2_tags.set(tag_num as usize, Some(v));
                    }
                }
            }
            let ghost g1 = gathered(*self);
            assert(g1 == capture_rw2(p, ctx, ifd_num, tag_num, val, g0));
            let tag = Tag(ctx, tag_num);
            // Sub-images are a list of pointers to ordinary TIFF IFDs, so
            // they get IFD numbers of their own.
            if tag == Tag(Context::Tiff, 0x014a) && ifd_num == 0 {
                match self.parse_sub_images(data, typ, cnt, vofs, base_offset, le) {
                    Ok(()) => {},
                    Err(e) => return Err(e),
                }
                continue;
            }
            let child_ctx = if tag == Tag(Context::Tiff, 0x8769) {
                Context::Exif
            } else if tag == Tag(Context::Tiff, 0x8825) {
                Context::Gps
            } else if tag == Tag(Context::Exif, 0xa005) {
                Context::Interop
            } else {
                self.entries.push(IfdEntry { field: Field { tag, ifd_num: In(ifd_num), value: val } });
                continue;
            };
            // The pointer is a LONG of count 1, so the IFD pos is in the
            // entry's own value slot.
            let pointer = parse_value(typ, cnt, vofs, data, le);
            proof { lemma_uint_read(pointer, typ, cnt, vofs as int, data@, le, 0); }
            let res = match pointer.get_uint(0) {
                None => Err(Error::InvalidFormat("Invalid pointer")),
                Some(ofs) => match self.parse_ifd(data, ofs as usize, child_ctx, ifd_num, base_offset, le) {
                    Ok(0) => Ok(()),
                    Ok(_) => Err(Error::InvalidFormat("Unexpected next IFD")),
                    Err(e) => Err(e),
                },
            };
            match res {
                Ok(()) => {},
                Err(e) => match self.check_error(e) {
                    Ok(()) => {},
                    Err(e) => return Err(e),
                },
            }
        }
        // Offset to the next IFD.
        if data.len() - pos < 4 {
            return Err(Error::InvalidFormat("Truncated next IFD offset"));
        }
        let next_ifd_offset = load_u32(data, pos, le);
        Ok(next_ifd_offset as usize)
    }

    /// Parses the IFDs the `SubIFDs` value (of type `typ`, `cnt` units at
    /// `data[vofs..]`) points to, at most eight, as sub-images `16..24`.
    fn parse_sub_images(&mut self, data: &[u8], typ: u16, cnt: u32, vofs: u32, base_offset: u32, le: bool)
        -> (r: Result<(), Error>)
        requires
            base_offset == 0 || base_offset + data@.len() <= u32::MAX,
            entries_ok(old(self).entries@, base_offset + data@.len()),
            vofs + spec_unit_len(typ) * cnt <= data@.len(),
        ensures
            entries_ok(final(self).entries@, base_offset + data@.len()),
            parser_extends(*old(self), *final(self)),
            (gathered(*final(self)), r) == walk_subs(Pass { s: data@, base: base_offset, le, rw2: old(self).rw2 },
                typ, cnt, vofs, 0, gathered(*old(self))),
        decreases 6int,
    {
        let ghost p = Pass { s: data@, base: base_offset, le, rw2: self.rw2 };
        let ghost goal = walk_subs(p, typ, cnt, vofs, 0, gathered(*old(self)));
        let ptr = parse_value(typ, cnt, vofs, data, le);
        proof {
            assert forall|j: int| #[trigger] ptr.spec_get_uint(j) == uint_read(typ, cnt, vofs as int, data@, le, j) by {
                lemma_uint_read(ptr, typ, cnt, vofs as int, data@, le, j);
            }
        }
        let mut i: usize = 0;
        while i < MAX_SUB_IMAGES
            invariant
                base_offset == 0 || base_offset + data@.len() <= u32::MAX,
                entries_ok(self.entries@, base_offset + data@.len()),
                parser_extends(*old(self), *self),
                i <= MAX_SUB_IMAGES,
                p == (Pass { s: data@, base: base_offset, le, rw2: self.rw2 }),
                p.rw2 == old(self).rw2,
                goal == walk_subs(p, typ, cnt, vofs, 0, gathered(*old(self))),
                forall|j: int| #[trigger] ptr.spec_get_uint(j) == uint_read(typ, cnt, vofs as int, data@, le, j),
                walk_subs(p, typ, cnt, vofs, i as int, gathered(*self)) == goal,
            decreases MAX_SUB_IMAGES - i,
        {
            let ofs = match ptr.get_uint(i) {
                Some(o) => o,
                None => {
                    i = MAX_SUB_IMAGES;
                    continue;
                },
            };
            let sub: u16 = 16 + i as u16;
            match self.parse_ifd(data, ofs as usize, Context::Tiff, sub, base_offset, le) {
                Ok(_next) => {},
                Err(e) => match self.check_error(e) {
                    Ok(()) => {},
                    Err(e) => return Err(e),
                },
            }
            i = i + 1;
        }
        Ok(())
    }

    /// Reads the 12-byte IFD entry at `data[offset..]`: its tag, and its
    /// value as `Value::Unknown(type, count, offset of the value)`.
    pub fn parse_ifd_entry(data: &[u8], offset: usize, le: bool) -> (r: Result<(u16, Value), Error>)
        requires
            offset + 12 <= data@.len(),
        ensures
            r == ifd_entry_at(data@, offset as int, le),
            r matches Ok((_, v)) ==> value_in_bounds(v, data@.len() as int),
    {
        let dlen = data.len();
        let tag = load_u16(data, offset, le);
        let typ = load_u16(data, offset + 2, le);
        let cnt = load_u32(data, offset + 4, le);
        let valofs_at = offset + 8;
        let unitlen = unit_len(typ);
        let vallen = match unitlen.checked_mul(cnt as usize) {
            Some(v) => v,
            None => return Err(Error::InvalidFormat("Invalid entry count")),
        };
        if vallen <= 4 {
            // An offset past 4 GiB wraps, as a 32-bit offset does.
            let at: u32 = #[verifier::truncate] (valofs_at as u32);
            proof { lemma_truncate_le(valofs_at); }
            Ok((tag, Value::Unknown(typ, cnt, at)))
        } else {
            let ofs = load_u32(data, valofs_at, le) as usize;
            if data.len() < ofs || data.len() - ofs < vallen {
                return Err(Error::InvalidFormat("Truncated field value"));
            }
            Ok((tag, Value::Unknown(typ, cnt, ofs as u32)))
        }
    }

    /// Turns Panasonic's IFD0 vendor tags into the standard ones: the
    /// active area's width and height from the sensor borders, and the ISO.
    fn synthesize_rw2(&mut self)
        ensures
            ({
                let added = rw2_synthesized(old(self).rw2_tags@);
                &&& final(self).entries@.len() == old(self).entries@.len() + added.len()
                &&& forall|i: int| 0 <= i < old(self).entries@.len() ==> #[trigger] final(self).entries@[i] == old(self).entries@[i]
                &&& forall|j: int| 0 <= j < added.len() ==> {
                    let f = #[trigger] final(self).entries@[old(self).entries@.len() + j].spec_field();
                    &&& f.tag == added[j].0
                    &&& f.ifd_num == In(0)
                    &&& f.value matches Value::Long(v) && v@ == seq![added[j].1]
                }
            }),
            final(self).little_endian == old(self).little_endian,
            final(self).continue_on_error == old(self).continue_on_error,
            final(self).rw2_tags == old(self).rw2_tags,
            final(self).rw2 == old(self).rw2,
    {
        let w = rw2_difference(&self.rw2_tags, RW2_SENSOR_LEFT, RW2_SENSOR_RIGHT);
        let h = rw2_difference(&self.rw2_tags, RW2_SENSOR_TOP, RW2_SENSOR_BOTTOM);
        let iso: Option<u32> = if RW2_ISO < self.rw2_tags.len() {
            match self.rw2_tags[RW2_ISO] {
                Some(v) if v > 0 => Some(v as u32),
                _ => None,
            }
        } else {
            None
        };
        let ghost before = self.entries@;
        if let Some(v) = w {
            self.push_long(Tag(Context::Tiff, 0x0100), v);
        }
        let ghost mid1 = self.entries@;
        if let Some(v) = h {
            self.push_long(Tag(Context::Tiff, 0x0101), v);
        }
        let ghost mid2 = self.entries@;
        if let Some(v) = iso {
            self.push_long(Tag(Context::Exif, 0x8827), v);
        }
        proof {
            let added = rw2_synthesized(self.rw2_tags@);
            assert(added.len() == self.entries@.len() - before.len());
            assert forall|j: int| 0 <= j < added.len() implies {
                let f = #[trigger] self.entries@[before.len() + j].spec_field();
                &&& f.tag == added[j].0
                &&& f.ifd_num == In(0)
                &&& f.value matches Value::Long(v) && v@ == seq![added[j].1]
            } by {
                if j == 0 && w is None && h is None {
                    assert(self.entries@[before.len() + j] == self.entries@[mid2.len() as int]);
                }
            }
        }
    }

    fn push_long(&mut self, tag: Tag, v: u32)
        ensures
            final(self).entries@.len() == old(self).entries@.len() + 1,
            forall|i: int| 0 <= i < old(self).entries@.len() ==> #[trigger] final(self).entries@[i] == old(self).entries@[i],
            ({
                let f = final(self).entries@[old(self).entries@.len() as int].spec_field();
                &&& f.tag == tag
                &&& f.ifd_num == In(0)
                &&& f.value matches Value::Long(x) && x@ == seq![v]
            }),
            final(self).little_endian == old(self).little_endian,
            final(self).continue_on_error == old(self).continue_on_error,
            final(self).rw2_tags == old(self).rw2_tags,
            final(self).rw2 == old(self).rw2,
    {
        let mut x: Vec<u32> = Vec::new();
        x.push(v);
        assert(x@ =~= seq![v]);
        self.entries.push(IfdEntry { field: Field { tag, ifd_num: In(0), value: Value::Long(x) } });
    }
}

/// The RW2 tag captured at `i`, if any.
pub open spec fn rw2_at(tags: Seq<Option<u16>>, i: int) -> Option<u16> {
    if 0 <= i < tags.len() { tags[i] } else { None }
}

/// `tags[hi] - tags[lo]`, when both were captured and the difference is
/// positive.
pub open spec fn rw2_diff(tags: Seq<Option<u16>>, lo: int, hi: int) -> Option<u32> {
    match (rw2_at(tags, lo), rw2_at(tags, hi)) {
        (Some(l), Some(h)) => if h > l { Some((h - l) as u32) } else { None },
        _ => None,
    }
}

/// The fields a RW2's captured vendor tags stand for, in the order they
/// are added: `ImageWidth` from the left and right borders, `ImageLength`
/// from the top and bottom ones, and a non-zero ISO as
/// `PhotographicSensitivity`.
pub open spec fn rw2_synthesized(tags: Seq<Option<u16>>) -> Seq<(Tag, u32)> {
    let a: Seq<(Tag, u32)> = match rw2_diff(tags, 5, 7) {
        Some(w) => seq![(Tag(Context::Tiff, 0x0100), w)],
        None => seq![],
    };
    let b = match rw2_diff(tags, 4, 6) {
        Some(h) => a.push((Tag(Context::Tiff, 0x0101), h)),
        None => a,
    };
    match rw2_at(tags, 0x17) {
        Some(iso) => if iso > 0 { b.push((Tag(Context::Exif, 0x8827), iso as u32)) } else { b },
        None => b,
    }
}

fn rw2_difference(tags: &Vec<Option<u16>>, lo: usize, hi: usize) -> (r: Option<u32>)
    ensures
        r == rw2_diff(tags@, lo as int, hi as int),
{
    if lo < tags.len() && hi < tags.len() {
        match (tags[lo], tags[hi]) {
            (Some(l), Some(h)) => if h > l { Some((h - l) as u32) } else { None },
            _ => None,
        }
    } else {
        None
    }
}


/// The signature of a big-endian TIFF.
pub open spec fn tiff_be_sig() -> Seq<u8> { seq![0x4du8, 0x4d, 0x00, 0x2a] }
/// The signature of a little-endian TIFF.
pub open spec fn tiff_le_sig() -> Seq<u8> { seq![0x49u8, 0x49, 0x2a, 0x00] }
/// The signature of an Olympus ORF (`IIRO`).
pub open spec fn orf_ro_sig() -> Seq<u8> { seq![0x49u8, 0x49, 0x52, 0x4f] }
/// The signature of a later Olympus ORF (`IIRS`).
pub open spec fn orf_rs_sig() -> Seq<u8> { seq![0x49u8, 0x49, 0x52, 0x53] }
/// The signature of a Panasonic RW2 (`IIU\0`).
pub open spec fn rw2_le_sig() -> Seq<u8> { seq![0x49u8, 0x49, 0x55, 0x00] }

/// Whether `buf` starts like a TIFF, or one of the raw dialects whose
/// version word differs.
pub fn is_tiff(buf: &[u8]) -> (r: bool)
    ensures
        r == (spec_starts_with(buf@, tiff_be_sig()) || spec_starts_with(buf@, tiff_le_sig())
            || spec_starts_with(buf@, orf_ro_sig()) || spec_starts_with(buf@, orf_rs_sig())
            || spec_starts_with(buf@, rw2_le_sig())),
{
    let be: [u8; 4] = [0x4d, 0x4d, 0x00, 0x2a];
    let le: [u8; 4] = [0x49, 0x49, 0x2a, 0x00];
    let ro: [u8; 4] = [0x49, 0x49, 0x52, 0x4f];
    let rs: [u8; 4] = [0x49, 0x49, 0x52, 0x53];
    let rw: [u8; 4] = [0x49, 0x49, 0x55, 0x00];
    assert(be@ =~= tiff_be_sig());
    assert(le@ =~= tiff_le_sig());
    assert(ro@ =~= orf_ro_sig());
    assert(rs@ =~= orf_rs_sig());
    assert(rw@ =~= rw2_le_sig());
    starts_with(buf, &be) || starts_with(buf, &le) || starts_with(buf, &ro)
        || starts_with(buf, &rs) || starts_with(buf, &rw)
}

/// A parsed DateTime field.
#[derive(Debug)]
pub struct DateTime {
    pub year: u16,
    pub month: u8,
    pub day: u8,
    pub hour: u8,
    pub minute: u8,
    pub second: u8,
    /// The subsecond data in nanoseconds.  If the Exif attribute has
    /// more significant digits, they are rounded down.
    pub nanosecond: Option<u32>,
    /// The offset of the time zone in minutes.
    pub offset: Option<i16>,
}

/// A blank DateTime: `"    :  :     :  :  "`.
pub open spec fn blank_date_time_colons() -> Seq<u8> {
    seq![32u8, 32, 32, 32, 58, 32, 32, 58, 32, 32, 32, 32, 32, 58, 32, 32, 58, 32, 32]
}

/// A blank DateTime: nineteen spaces.
pub open spec fn blank_date_time_spaces() -> Seq<u8> {
    Seq::new(19, |i: int| 32u8)
}

/// A blank OffsetTime: `"   :  "`.
pub open spec fn blank_offset_colon() -> Seq<u8> {
    seq![32u8, 32, 32, 58, 32, 32]
}

/// A blank OffsetTime: six spaces.
pub open spec fn blank_offset_spaces() -> Seq<u8> {
    Seq::new(6, |i: int| 32u8)
}

/// The digits `s[a..b]` are a number.
pub open spec fn digits_at(s: Seq<u8>, a: int, b: int) -> bool {
    all_digits(s.subrange(a, b))
}

/// The number the digits `s[a..b]` spell.
pub open spec fn number_at(s: Seq<u8>, a: int, b: int) -> int {
    spec_decimal(s.subrange(a, b))
}

/// Whether `s` is a well-formed DateTime: `YYYY:MM:DD HH:MM:SS`, with
/// anything after the nineteenth byte ignored.
pub open spec fn date_time_ok(s: Seq<u8>) -> bool {
    &&& s.len() >= 19
    &&& s[4] == 58 && s[7] == 58 && s[10] == 32 && s[13] == 58 && s[16] == 58
    &&& digits_at(s, 0, 4) && digits_at(s, 5, 7) && digits_at(s, 8, 10)
    &&& digits_at(s, 11, 13) && digits_at(s, 14, 16) && digits_at(s, 17, 19)
}

/// Where a SubsecTime-like field's digits end, looking from `i`: at the
/// first space, after nine bytes, or at the end of the data, whichever
/// comes first.
pub open spec fn subsec_stop(s: Seq<u8>, i: int) -> int
    decreases 9 - i,
{
    if i < 0 || i >= 9 || i >= s.len() || s[i] == 32 {
        i
    } else {
        subsec_stop(s, i + 1)
    }
}

/// Where a SubsecTime-like field's digits end.
pub open spec fn subsec_end(s: Seq<u8>) -> int {
    subsec_stop(s, 0)
}

/// The stop lies between `i` and nine, within the data.
proof fn lemma_subsec_stop(s: Seq<u8>, i: int)
    requires
        0 <= i <= 9,
        i <= s.len(),
    ensures
        i <= subsec_stop(s, i) <= 9,
        subsec_stop(s, i) <= s.len(),
    decreases 9 - i,
{
    if !(i >= 9 || i >= s.len() || s[i] == 32) {
        lemma_subsec_stop(s, i + 1);
    }
}

/// The bytes before the stop are not spaces.
proof fn lemma_subsec_no_space(s: Seq<u8>, i: int, j: int)
    requires
        0 <= i <= j < subsec_stop(s, i),
        i <= s.len(),
    ensures
        s[j] != 32,
    decreases 9 - i,
{
    lemma_subsec_stop(s, i);
    if i < j {
        lemma_subsec_no_space(s, i + 1, j);
    }
}

impl DateTime {
    /// Parses the ASCII data of a DateTime field.  The range of a number
    /// is not validated, so, for example, 13 may be returned as the month.
    ///
    /// If the value is blank, `Error::BlankValue` is returned.
    pub fn from_ascii(data: &[u8]) -> (r: Result<DateTime, Error>)
        ensures
            data@ == blank_date_time_colons() || data@ == blank_date_time_spaces()
                ==> r matches Err(Error::BlankValue(_)),
            !(data@ == blank_date_time_colons() || data@ == blank_date_time_spaces()) ==> {
                &&& r is Ok <==> date_time_ok(data@)
                &&& data@.len() < 19 ==> (r matches Err(e) && e.is_invalid("DateTime too short"))
                &&& data@.len() >= 19 && !(data@[4] == 58 && data@[7] == 58 && data@[10] == 32
                    && data@[13] == 58 && data@[16] == 58)
                    ==> (r matches Err(e) && e.is_invalid("Invalid DateTime delimiter"))
                &&& data@.len() >= 19 && data@[4] == 58 && data@[7] == 58 && data@[10] == 32
                    && data@[13] == 58 && data@[16] == 58 && !date_time_ok(data@)
                    ==> (r matches Err(e) && e.is_invalid("Not a number"))
                &&& r matches Ok(dt) ==> {
                    &&& dt.year == number_at(data@, 0, 4)
                    &&& dt.month == number_at(data@, 5, 7)
                    &&& dt.day == number_at(data@, 8, 10)
                    &&& dt.hour == number_at(data@, 11, 13)
                    &&& dt.minute == number_at(data@, 14, 16)
                    &&& dt.second == number_at(data@, 17, 19)
                    &&& dt.nanosecond is None
                    &&& dt.offset is None
                }
            },
    {
        let colons: [u8; 19] = [32, 32, 32, 32, 58, 32, 32, 58, 32, 32, 32, 32, 32, 58, 32, 32, 58, 32, 32];
        let spaces: [u8; 19] = [32; 19];
        assert(colons@ =~= blank_date_time_colons());
        assert(spaces@ =~= blank_date_time_spaces());
        if bytes_eq(data, &colons) || bytes_eq(data, &spaces) {
            return Err(Error::BlankValue("DateTime is blank"));
        } else if data.len() < 19 {
            return Err(Error::InvalidFormat("DateTime too short"));
        } else if !(data[4] == 58 && data[7] == 58 && data[10] == 32 && data[13] == 58 && data[16] == 58) {
            return Err(Error::InvalidFormat("Invalid DateTime delimiter"));
        }
        let year = atou16(&data[0..4])?;
        let month = atou16(&data[5..7])?;
        let day = atou16(&data[8..10])?;
        let hour = atou16(&data[11..13])?;
        let minute = atou16(&data[14..16])?;
        let second = atou16(&data[17..19])?;
        proof {
            lemma_decimal_bound(data@.subrange(5, 7));
            lemma_decimal_bound(data@.subrange(8, 10));
            lemma_decimal_bound(data@.subrange(11, 13));
            lemma_decimal_bound(data@.subrange(14, 16));
            lemma_decimal_bound(data@.subrange(17, 19));
            reveal_with_fuel(pow10, 3);
        }
        Ok(DateTime {
            year,
            month: month as u8,
            day: day as u8,
            hour: hour as u8,
            minute: minute as u8,
            second: second as u8,
            nanosecond: None,
            offset: None,
        })
    }

    /// Parses a SubsecTime-like field: the digits up to the first space,
    /// at most nine of them, as nanoseconds.
    pub fn parse_subsec(&mut self, data: &[u8]) -> (r: Result<(), Error>)
        ensures
            ({
                let p = subsec_end(data@);
                &&& r is Ok <==> digits_at(data@, 0, p)
                &&& r matches Err(e) ==> e.is_invalid("Not a number") && *final(self) == *old(self)
                &&& r is Ok ==> {
                    &&& final(self).nanosecond == if p == 0 { None } else {
                        Some((number_at(data@, 0, p) * pow10((9 - p) as nat)) as u32) }
                    &&& final(self).year == old(self).year && final(self).month == old(self).month
                    &&& final(self).day == old(self).day && final(self).hour == old(self).hour
                    &&& final(self).minute == old(self).minute && final(self).second == old(self).second
                    &&& final(self).offset == old(self).offset
                }
            }),
    {
        let ghost s = data@;
        proof {
            lemma_subsec_stop(s, 0);
            reveal_with_fuel(pow10, 10);
            assert(s.subrange(0, 0) =~= Seq::<u8>::empty());
        }
        let mut subsec: u32 = 0;
        let mut ndigits: usize = 0;
        while ndigits < 9 && ndigits < data.len() && data[ndigits] != 32
            invariant
                s == data@,
                0 <= ndigits <= 9,
                ndigits <= s.len(),
                subsec_stop(s, ndigits as int) == subsec_end(s),
                digits_at(s, 0, ndigits as int),
                subsec == number_at(s, 0, ndigits as int),
                subsec < pow10(ndigits as nat),
                pow10(9) == 1000000000,
            decreases 9 - ndigits,
        {
            let c = data[ndigits];
            let d = match ctou32(c) {
                Ok(d) => d,
                Err(e) => {
                    proof {
                        lemma_subsec_stop(s, ndigits as int + 1);
                        assert(s.subrange(0, subsec_end(s))[ndigits as int] == c);
                    }
                    return Err(e);
                },
            };
            proof {
                let pre = s.subrange(0, ndigits as int);
                let nxt = s.subrange(0, ndigits + 1);
                assert(nxt.drop_last() =~= pre);
                assert(all_digits(nxt)) by {
                    assert forall|j: int| 0 <= j < nxt.len() implies is_digit(#[trigger] nxt[j]) by {
                        if j < ndigits {
                            assert(nxt[j] == pre[j]);
                        }
                    }
                }
                assert(pow10((ndigits + 1) as nat) == 10 * pow10(ndigits as nat));
                assert(pow10(ndigits as nat) <= 100000000) by {
                    reveal_with_fuel(pow10, 10);
                }
            }
            subsec = subsec * 10 + d;
            ndigits = ndigits + 1;
        }
        let ghost p = ndigits as int;
        proof {
            assert(subsec_end(s) == p);
        }
        if ndigits == 0 {
            self.nanosecond = None;
        } else {
            let mut k: usize = ndigits;
            proof {
                assert((k - p) as nat == 0nat);
                assert(pow10(0) == 1);
                assert(number_at(s, 0, p) * pow10((k - p) as nat) == number_at(s, 0, p) * 1);
            }
            while k < 9
                invariant
                    p <= k <= 9,
                    subsec == number_at(s, 0, p) * pow10((k - p) as nat),
                    subsec < pow10(k as nat),
                    pow10(9) == 1000000000,
                decreases 9 - k,
            {
                proof {
                    assert(pow10(k as nat) <= 100000000) by {
                        reveal_with_fuel(pow10, 10);
                    }
                    assert(pow10((k + 1 - p) as nat) == 10 * pow10((k - p) as nat));
                    assert(number_at(s, 0, p) * pow10((k - p) as nat) * 10
                        == number_at(s, 0, p) * (10 * pow10((k - p) as nat))) by (nonlinear_arith);
                }
                subsec = subsec * 10;
                k = k + 1;
            }
            self.nanosecond = Some(subsec);
        }
        Ok(())
    }

    /// Parses an OffsetTime-like field: a sign, hours, a colon and minutes.
    pub fn parse_offset(&mut self, data: &[u8]) -> (r: Result<(), Error>)
        ensures
            data@ == blank_offset_colon() || data@ == blank_offset_spaces()
                ==> r matches Err(Error::BlankValue(_)),
            r is Ok <==> {
                &&& !(data@ == blank_offset_colon() || data@ == blank_offset_spaces())
                &&& data@.len() >= 6 && data@[3] == 58
                &&& digits_at(data@, 1, 3) && digits_at(data@, 4, 6)
                &&& (data@[0] == 43 || data@[0] == 45)
            },
            !(data@ == blank_offset_colon() || data@ == blank_offset_spaces()) ==> {
                &&& data@.len() < 6 ==> (r matches Err(e) && e.is_invalid("OffsetTime too short"))
                &&& data@.len() >= 6 && data@[3] != 58
                    ==> (r matches Err(e) && e.is_invalid("Invalid OffsetTime delimiter"))
                &&& data@.len() >= 6 && data@[3] == 58 && !(digits_at(data@, 1, 3) && digits_at(data@, 4, 6))
                    ==> (r matches Err(e) && e.is_invalid("Not a number"))
                &&& data@.len() >= 6 && data@[3] == 58 && digits_at(data@, 1, 3) && digits_at(data@, 4, 6)
                    && !(data@[0] == 43 || data@[0] == 45)
                    ==> (r matches Err(e) && e.is_invalid("Invalid OffsetTime sign"))
            },
            r is Err ==> *final(self) == *old(self),
            r is Ok ==> {
                let m = number_at(data@, 1, 3) * 60 + number_at(data@, 4, 6);
                &&& final(self).offset == Some((if data@[0] == 43 { m } else { -m }) as i16)
                &&& final(self).year == old(self).year && final(self).month == old(self).month
                &&& final(self).day == old(self).day && final(self).hour == old(self).hour
                &&& final(self).minute == old(self).minute && final(self).second == old(self).second
                &&& final(self).nanosecond == old(self).nanosecond
            },
    {
        let colon: [u8; 6] = [32, 32, 32, 58, 32, 32];
        let spaces: [u8; 6] = [32; 6];
        assert(colon@ =~= blank_offset_colon());
        assert(spaces@ =~= blank_offset_spaces());
        if bytes_eq(data, &colon) || bytes_eq(data, &spaces) {
            return Err(Error::BlankValue("OffsetTime is blank"));
        } else if data.len() < 6 {
            return Err(Error::InvalidFormat("OffsetTime too short"));
        } else if data[3] != 58 {
            return Err(Error::InvalidFormat("Invalid OffsetTime delimiter"));
        }
        let hour = atou16(&data[1..3])?;
        let min = atou16(&data[4..6])?;
        proof {
            lemma_decimal_bound(data@.subrange(1, 3));
            lemma_decimal_bound(data@.subrange(4, 6));
            reveal_with_fuel(pow10, 3);
        }
        let offset = (hour * 60 + min) as i16;
        if data[0] == 43 {
            self.offset = Some(offset);
        } else if data[0] == 45 {
            self.offset = Some(-offset);
        } else {
            return Err(Error::InvalidFormat("Invalid OffsetTime sign"));
        }
        Ok(())
    }

    /// The date and time as `YYYY-MM-DD HH:MM:SS`.
    pub fn to_string(&self) -> (r: String)
        ensures
            r@ == ascii_chars(date_time_text(*self)),
    {
        let mut b: Vec<u8> = Vec::new();
        push_padded(&mut b, self.year as u64, 4);
        b.push(45);
        push_padded(&mut b, self.month as u64, 2);
        b.push(45);
        push_padded(&mut b, self.day as u64, 2);
        b.push(32);
        push_padded(&mut b, self.hour as u64, 2);
        b.push(58);
        push_padded(&mut b, self.minute as u64, 2);
        b.push(58);
        push_padded(&mut b, self.second as u64, 2);
        proof {
            assert(b@ =~= date_time_text(*self));
        }
        bytes_to_string(b.as_slice())
    }
}

/// The text of a date and time: `YYYY-MM-DD HH:MM:SS`, each number padded
/// with zeros to its width.
pub open spec fn date_time_text(dt: DateTime) -> Seq<u8> {
    padded_dec(dt.year as nat, 4) + seq![45u8] + padded_dec(dt.month as nat, 2) + seq![45u8]
        + padded_dec(dt.day as nat, 2) + seq![32u8] + padded_dec(dt.hour as nat, 2) + seq![58u8]
        + padded_dec(dt.minute as nat, 2) + seq![58u8] + padded_dec(dt.second as nat, 2)
}

/// The sub-image IFD numbers (`SUB_IMAGE` and the seven after it) lie
/// above every number the IFD chain (capped at eight) and `MPF` can take,
/// so a sub-image's fields never land among theirs.
pub proof fn lemma_sub_image_numbers_are_apart(i: u16, chained: u16)
    requires
        i < 8,
        chained < MAX_CHAINED_IFDS,
    ensures
        In((16 + i) as u16) != In(chained),
        In((16 + i) as u16) != In(2),
        ifd_num_ok(In((16 + i) as u16)),
{
}

/// A TIFF header is accepted exactly when it is eight bytes or more, its
/// byte-order mark is `II` or `MM`, and its version word, read in that
/// order, is 42 (TIFF), `RO` or `RS` (Olympus ORF) or 85 (Panasonic RW2).
pub proof fn lemma_tiff_header_accepted(s: Seq<u8>)
    ensures
        header_error(s) is None <==> {
            &&& s.len() >= 8
            &&& ((s[0] == 0x49 && s[1] == 0x49) || (s[0] == 0x4d && s[1] == 0x4d))
            &&& ({
                let v = if s[0] == 0x49 { s[2] + 256 * s[3] } else { 256 * s[2] + s[3] };
                v == 42 || v == 0x4f52 || v == 0x5352 || v == 0x55
            })
        },
{
}

/// Every signature the TIFF test recognises (`MM\0*`, `II*\0`, `IIRO`,
/// `IIRS`, `IIU\0`) starts a header the parser accepts, given eight bytes.
pub proof fn lemma_recognised_tiff_headers_are_accepted(s: Seq<u8>)
    requires
        s.len() >= 8,
        s.subrange(0, 4) == seq![0x4du8, 0x4d, 0x00, 0x2a] || s.subrange(0, 4) == seq![0x49u8, 0x49, 0x2a, 0x00]
            || s.subrange(0, 4) == seq![0x49u8, 0x49, 0x52, 0x4f] || s.subrange(0, 4) == seq![0x49u8, 0x49, 0x52, 0x53]
            || s.subrange(0, 4) == seq![0x49u8, 0x49, 0x55, 0x00],
    ensures
        header_error(s) is None,
{
    assert(s[0] == s.subrange(0, 4)[0] && s[1] == s.subrange(0, 4)[1]);
    assert(s[2] == s.subrange(0, 4)[2] && s[3] == s.subrange(0, 4)[3]);
    lemma_tiff_header_accepted(s);
}

/// The signatures the TIFF test recognises are exactly `MM\0*`, `II*\0`,
/// `IIRO`, `IIRS` and `IIU\0`.
pub proof fn lemma_tiff_signatures(h: Seq<u8>)
    ensures
        (spec_starts_with(h, tiff_be_sig()) || spec_starts_with(h, tiff_le_sig())
            || spec_starts_with(h, orf_ro_sig()) || spec_starts_with(h, orf_rs_sig())
            || spec_starts_with(h, rw2_le_sig())) <==> (h.len() >= 4 && {
            let p = h.subrange(0, 4);
            p == seq![0x4du8, 0x4d, 0x00, 0x2a] || p == seq![0x49u8, 0x49, 0x2a, 0x00]
                || p == seq![0x49u8, 0x49, 0x52, 0x4f] || p == seq![0x49u8, 0x49, 0x52, 0x53]
                || p == seq![0x49u8, 0x49, 0x55, 0x00]
        }),
{
}

} // verus!
