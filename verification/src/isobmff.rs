use vstd::prelude::*;
use crate::bytes::{spec_u16, spec_u32, spec_u64, load_u16, load_u32, load_u64, matches_at, append_range};
use crate::error::Error;

pub mod crx;


verus! {

/// The largest Exif data block taken from a HEIF file.
pub const MAX_EXIF_SIZE: usize = 131070;

/// A big-endian 16-bit integer.
pub open spec fn be16(s: Seq<u8>, i: int) -> int { spec_u16(s, i, false) }
/// A big-endian 32-bit integer.
pub open spec fn be32(s: Seq<u8>, i: int) -> int { spec_u32(s, i, false) }
/// A big-endian 64-bit integer.
pub open spec fn be64(s: Seq<u8>, i: int) -> int { spec_u64(s, i, false) }

/// `s` without its first `n` bytes.
pub open spec fn skip(s: Seq<u8>, n: int) -> Seq<u8> {
    s.subrange(n, s.len() as int)
}

/// The ASCII bytes of a four-character code.
pub open spec fn fourcc(a: char, b: char, c: char, d: char) -> Seq<u8> {
    seq![a as u8, b as u8, c as u8, d as u8]
}

/// The box at the start of `s`: its type, its body and what follows it;
/// or the message of the error reading it gives.
///
/// A size of 0 means the box runs to the end, 1 that a 64-bit size
/// follows the type; any size counts the header.
pub open spec fn child_box_spec(s: Seq<u8>) -> Result<(Seq<u8>, Seq<u8>, Seq<u8>), &'static str> {
    if s.len() < 8 {
        Err("Box too small")
    } else {
        let size = be32(s, 0);
        let t = s.subrange(4, 8);
        let r = skip(s, 8);
        if size == 0 {
            Ok((t, r, Seq::<u8>::empty()))
        } else if size == 1 {
            if r.len() < 8 {
                Err("Box too small")
            } else {
                let large = be64(r, 0);
                let r2 = skip(r, 8);
                if large > usize::MAX {
                    Err("Box is larger than the address space")
                } else if large < 16 {
                    Err("Invalid box size")
                } else if large - 16 > r2.len() {
                    Err("Box too small")
                } else {
                    Ok((t, r2.subrange(0, large - 16), skip(r2, large - 16)))
                }
            }
        } else if size < 8 {
            Err("Invalid box size")
        } else if size - 8 > r.len() {
            Err("Box too small")
        } else {
            Ok((t, r.subrange(0, size - 8), skip(r, size - 8)))
        }
    }
}

/// What follows a box is shorter than the box.
pub proof fn lemma_child_box_shrinks(s: Seq<u8>)
    ensures
        child_box_spec(s) matches Ok((t, body, rest)) ==> rest.len() < s.len() && body.len() < s.len()
            && t.len() == 4,
{
}

/// A cursor over the bytes of an ISO base media box.
pub struct BoxSplitter<'a> {
    inner: &'a [u8],
}

impl<'a> View for BoxSplitter<'a> {
    type V = Seq<u8>;

    closed spec fn view(&self) -> Seq<u8> {
        self.inner@
    }
}

impl<'a> BoxSplitter<'a> {
    /// A cursor at the start of `slice`.
    pub fn new(slice: &'a [u8]) -> (r: BoxSplitter<'a>)
        ensures
            r@ == slice@,
    {
        Self { inner: slice }
    }

    /// Whether nothing is left.
    pub fn is_empty(&self) -> (r: bool)
        ensures
            r == (self@.len() == 0),
    {
        self.inner.len() == 0
    }

    /// The bytes left.
    pub fn as_slice(&self) -> (r: &'a [u8])
        ensures
            r@ == self@,
    {
        self.inner
    }

    /// How many bytes are left.
    pub fn len(&self) -> (r: usize)
        ensures
            r == self@.len(),
    {
        self.inner.len()
    }

    /// Takes the next `at` bytes.
    pub fn slice(&mut self, at: usize) -> (r: Result<&'a [u8], Error>)
        ensures
            at <= old(self)@.len() ==> (r matches Ok(x) && x@ == old(self)@.subrange(0, at as int)
                && final(self)@ == skip(old(self)@, at as int)),
            at > old(self)@.len() ==> (r matches Err(e) && e.is_invalid("Box too small")
                && final(self)@ == old(self)@),
    {
        if at > self.inner.len() {
            return Err(Error::InvalidFormat("Box too small"));
        }
        let head = &self.inner[0..at];
        self.inner = &self.inner[at..self.inner.len()];
        Ok(head)
    }

    /// Reads a big-endian 16-bit integer.
    pub fn uint16(&mut self) -> (r: Result<u16, Error>)
        ensures
            old(self)@.len() >= 2 ==> (r == Ok::<u16, Error>(be16(old(self)@, 0) as u16)
                && final(self)@ == skip(old(self)@, 2)),
            old(self)@.len() < 2 ==> (r matches Err(e) && e.is_invalid("Box too small")
                && final(self)@ == old(self)@),
    {
        let s = self.slice(2)?;
        Ok(load_u16(s, 0, false))
    }

    /// Reads a big-endian 32-bit integer.
    pub fn uint32(&mut self) -> (r: Result<u32, Error>)
        ensures
            old(self)@.len() >= 4 ==> (r == Ok::<u32, Error>(be32(old(self)@, 0) as u32)
                && final(self)@ == skip(old(self)@, 4)),
            old(self)@.len() < 4 ==> (r matches Err(e) && e.is_invalid("Box too small")
                && final(self)@ == old(self)@),
    {
        let s = self.slice(4)?;
        Ok(load_u32(s, 0, false))
    }

    /// Reads a big-endian 64-bit integer.
    pub fn uint64(&mut self) -> (r: Result<u64, Error>)
        ensures
            old(self)@.len() >= 8 ==> (r == Ok::<u64, Error>(be64(old(self)@, 0) as u64)
                && final(self)@ == skip(old(self)@, 8)),
            old(self)@.len() < 8 ==> (r matches Err(e) && e.is_invalid("Box too small")
                && final(self)@ == old(self)@),
    {
        let s = self.slice(8)?;
        Ok(load_u64(s, 0, false))
    }

    /// Reads the next four bytes.
    pub fn array4(&mut self) -> (r: Result<[u8; 4], Error>)
        ensures
            old(self)@.len() >= 4 ==> (r matches Ok(a) && a@ == old(self)@.subrange(0, 4)
                && final(self)@ == skip(old(self)@, 4)),
            old(self)@.len() < 4 ==> (r matches Err(e) && e.is_invalid("Box too small")
                && final(self)@ == old(self)@),
    {
        let s = self.slice(4)?;
        let a: [u8; 4] = [s[0], s[1], s[2], s[3]];
        assert(a@ =~= s@);
        Ok(a)
    }

    /// Reads a 0-, 4- or 8-byte unsigned integer; `None` for another size.
    pub fn size048(&mut self, size: usize) -> (r: Result<Option<u64>, Error>)
        ensures
            size048_spec(old(self)@, size as int) matches Ok((v, rest)) ==> (r == Ok::<Option<u64>, Error>(v)
                && final(self)@ == rest),
            size048_spec(old(self)@, size as int) matches Err(m) ==> (r matches Err(e) && e.is_invalid(m)),
    {
        if size == 0 {
            Ok(Some(0))
        } else if size == 4 {
            let v = self.uint32()?;
            Ok(Some(v as u64))
        } else if size == 8 {
            let v = self.uint64()?;
            Ok(Some(v))
        } else {
            Ok(None)
        }
    }

    /// Reads a full box header: its version and flags.
    pub fn fullbox_header(&mut self) -> (r: Result<(u32, u32), Error>)
        ensures
            old(self)@.len() >= 4 ==> (r == Ok::<(u32, u32), Error>((old(self)@[0] as u32,
                    (be32(old(self)@, 0) % 0x100_0000) as u32))
                && final(self)@ == skip(old(self)@, 4)),
            old(self)@.len() < 4 ==> (r matches Err(e) && e.is_invalid("Box too small")
                && final(self)@ == old(self)@),
    {
        let tmp = self.uint32()?;
        proof {
            assert(tmp >> 24u32 == tmp / 0x100_0000) by (bit_vector);
            assert(tmp & 0xffffffu32 == tmp % 0x100_0000) by (bit_vector);
        }
        Ok((tmp >> 24u32, tmp & 0xffffffu32))
    }

    /// Reads the next box: its type, and a cursor over its body.
    pub fn child_box(&mut self) -> (r: Result<(&'a [u8], BoxSplitter<'a>), Error>)
        ensures
            child_box_spec(old(self)@) matches Ok((t, body, rest)) ==> (r matches Ok((x, b))
                && x@ == t && b@ == body && final(self)@ == rest),
            child_box_spec(old(self)@) matches Err(m) ==> (r matches Err(e) && e.is_invalid(m)),
    {
        let ghost s = self@;
        let size = self.uint32()?;
        let boxtype = self.slice(4)?;
        let body_len: usize = if size == 0 {
            self.len()
        } else if size == 1 {
            let large = self.uint64()?;
            if large > usize::MAX as u64 {
                return Err(Error::InvalidFormat("Box is larger than the address space"));
            }
            if large < 16 {
                return Err(Error::InvalidFormat("Invalid box size"));
            }
            (large - 16) as usize
        } else {
            if size < 8 {
                return Err(Error::InvalidFormat("Invalid box size"));
            }
            (size - 8) as usize
        };
        proof {
            assert(skip(skip(s, 4), 4) =~= skip(s, 8));
            assert(skip(s, 4).subrange(0, 4) =~= s.subrange(4, 8));
            if size == 1 {
                assert(skip(s, 8).subrange(0, 8) =~= s.subrange(8, 16));
                assert(be64(skip(s, 8), 0) == be64(s, 8));
            }
        }
        let body = self.slice(body_len)?;
        Ok((boxtype, BoxSplitter::new(body)))
    }
}

/// A 0-, 4- or 8-byte big-endian integer at the start of `s`, and what
/// follows it; `None` for another size.
pub open spec fn size048_spec(s: Seq<u8>, size: int) -> Result<(Option<u64>, Seq<u8>), &'static str> {
    if size == 0 {
        Ok((Some(0u64), s))
    } else if size == 4 {
        if s.len() < 4 { Err("Box too small") } else { Ok((Some(be32(s, 0) as u64), skip(s, 4))) }
    } else if size == 8 {
        if s.len() < 8 { Err("Box too small") } else { Ok((Some(be64(s, 0) as u64), skip(s, 8))) }
    } else {
        Ok((None, s))
    }
}

// ---------------------------------------------------------------------
// Brands.

/// The compatible brands that make a file a HEIF: `mif1` and `msf1`.
pub open spec fn is_heif_brand(c: Seq<u8>) -> bool {
    c == fourcc('m', 'i', 'f', '1') || c == fourcc('m', 's', 'f', '1')
}

/// Whether one of the four-byte codes of `b`, from `pos` on, satisfies
/// `brand`; a shorter tail is ignored.
pub open spec fn has_brand(b: Seq<u8>, pos: int, heif: bool) -> bool
    decreases b.len() - pos,
{
    if pos < 0 || pos + 4 > b.len() {
        false
    } else if (if heif { is_heif_brand(b.subrange(pos, pos + 4)) } else {
        b.subrange(pos, pos + 4) == fourcc('c', 'r', 'x', ' ') }) {
        true
    } else {
        has_brand(b, pos + 4, heif)
    }
}

/// Whether the body of a file type box names a compatible brand (HEIF
/// ones, or Canon's `crx `): the major brand and minor version come first.
pub open spec fn ftyp_ok(body: Seq<u8>, heif: bool) -> bool {
    body.len() >= 8 && has_brand(body, 8, heif)
}

/// Whether the first file type box among the boxes of `s` names a
/// compatible brand; no box can be read past a broken one.
pub open spec fn first_ftyp_ok(s: Seq<u8>, heif: bool) -> bool
    decreases s.len(),
{
    match child_box_spec(s) {
        Err(_) => false,
        Ok((t, body, rest)) => {
            if t == fourcc('f', 't', 'y', 'p') {
                ftyp_ok(body, heif)
            } else if rest.len() < s.len() {
                first_ftyp_ok(rest, heif)
            } else {
                false
            }
        },
    }
}

/// Whether a four-byte code is a compatible brand.
fn brand_matches(c: [u8; 4], heif: bool) -> (r: bool)
    ensures
        r == (if heif { is_heif_brand(c@) } else { c@ == fourcc('c', 'r', 'x', ' ') }),
{
    let mif1: [u8; 4] = [0x6d, 0x69, 0x66, 0x31];
    let msf1: [u8; 4] = [0x6d, 0x73, 0x66, 0x31];
    let crx: [u8; 4] = [0x63, 0x72, 0x78, 0x20];
    assert(mif1@ =~= fourcc('m', 'i', 'f', '1'));
    assert(msf1@ =~= fourcc('m', 's', 'f', '1'));
    assert(crx@ =~= fourcc('c', 'r', 'x', ' '));
    assert(c@.subrange(0, 4) =~= c@);
    if heif {
        matches_at(&c, 0, &mif1) || matches_at(&c, 0, &msf1)
    } else {
        matches_at(&c, 0, &crx)
    }
}

/// Looks through the four-byte codes of a file type box body, from `pos`
/// on, for a compatible brand.
pub(crate) fn find_brand(b: &[u8], pos: usize, heif: bool) -> (r: bool)
    ensures
        r == has_brand(b@, pos as int, heif),
{
    let mut p = pos;
    while p <= b.len() && b.len() - p >= 4
        invariant
            p >= pos,
            has_brand(b@, p as int, heif) == has_brand(b@, pos as int, heif),
        decreases b@.len() - p,
    {
        let c: [u8; 4] = [b[p], b[p + 1], b[p + 2], b[p + 3]];
        assert(c@ =~= b@.subrange(p as int, p + 4));
        if brand_matches(c, heif) {
            return true;
        }
        p = p + 4;
    }
    false
}

/// Whether `buf` starts like a HEIF file: its first file type box names
/// `mif1` or `msf1` among its compatible brands.
pub fn is_heif(buf: &[u8]) -> (r: bool)
    ensures
        r == first_ftyp_ok(buf@, true),
{
    is_box_file(buf, true)
}

/// Whether the first file type box of `buf` names a compatible brand.
pub(crate) fn is_box_file(buf: &[u8], heif: bool) -> (r: bool)
    ensures
        r == first_ftyp_ok(buf@, heif),
{
    let ftyp: [u8; 4] = [0x66, 0x74, 0x79, 0x70];
    assert(ftyp@ =~= fourcc('f', 't', 'y', 'p'));
    let mut boxp = BoxSplitter::new(buf);
    loop
        invariant
            ftyp@ == fourcc('f', 't', 'y', 'p'),
            first_ftyp_ok(boxp@, heif) == first_ftyp_ok(buf@, heif),
        decreases boxp@.len(),
    {
        let ghost before = boxp@;
        proof {
            lemma_child_box_shrinks(before);
        }
        match boxp.child_box() {
            Ok((boxtype, body)) => {
                if matches_at(boxtype, 0, &ftyp) {
                    assert(boxtype@.subrange(0, 4) =~= boxtype@);
                    let b = body.as_slice();
                    if b.len() < 8 {
                        return false;
                    }
                    return find_brand(b, 8, heif);
                }
                assert(boxtype@.subrange(0, 4) =~= boxtype@);
            },
            Err(_) => {
                return false;
            },
        }
    }
}

// ---------------------------------------------------------------------
// HEIF: the Exif item of the meta box.

/// How reading a box file fails.
pub ghost enum BoxErr {
    Invalid(&'static str),
    NotFound(&'static str),
    NotSupported(&'static str),
    /// The file ends where more was needed.
    Broken,
}

/// Whether `e` is the error `b` stands for, an early end of the file
/// being reported as an invalid format with the message `broken`.
pub open spec fn err_is(e: Error, b: BoxErr, broken: &'static str) -> bool {
    match b {
        BoxErr::Invalid(m) => e.is_invalid(m),
        BoxErr::NotFound(m) => e.is_not_found(m),
        BoxErr::NotSupported(m) => e.is_not_supported(m),
        BoxErr::Broken => e.is_invalid(broken),
    }
}

/// The item an ItemInfoEntry body `b` describes, when its type is `Exif`.
pub open spec fn infe_spec(b: Seq<u8>) -> Result<Option<u32>, &'static str> {
    if b.len() < 4 {
        Err("Box too small")
    } else {
        let r = skip(b, 4);
        if b[0] == 2 {
            if r.len() < 2 { Err("Box too small") } else { infe_tail(skip(r, 2), be16(r, 0) as u32) }
        } else if b[0] == 3 {
            if r.len() < 4 { Err("Box too small") } else { infe_tail(skip(r, 4), be32(r, 0) as u32) }
        } else {
            Err("Unsupported ItemInfoEntry")
        }
    }
}

/// The end of an ItemInfoEntry: the protection index, then the item type.
pub open spec fn infe_tail(r: Seq<u8>, id: u32) -> Result<Option<u32>, &'static str> {
    if r.len() < 2 {
        Err("Box too small")
    } else if r.len() < 6 {
        Err("Box too small")
    } else if r.subrange(2, 6) == fourcc('E', 'x', 'i', 'f') {
        Ok(Some(id))
    } else {
        Ok(None)
    }
}

/// The Exif item after `n` more boxes of an ItemInfoBox, `cur` the one
/// found so far; each `infe` box naming an Exif item replaces it.
pub open spec fn iinf_entries(r: Seq<u8>, n: int, cur: Option<u32>) -> Result<Option<u32>, &'static str>
    decreases n,
{
    if n <= 0 {
        Ok(cur)
    } else {
        match child_box_spec(r) {
            Err(m) => Err(m),
            Ok((t, body, rest)) => {
                if t == fourcc('i', 'n', 'f', 'e') {
                    match infe_spec(body) {
                        Err(m) => Err(m),
                        Ok(o) => iinf_entries(rest, n - 1, if o is Some { o } else { cur }),
                    }
                } else {
                    iinf_entries(rest, n - 1, cur)
                }
            },
        }
    }
}

/// The Exif item once the ItemInfoBox body `b` is read, `cur` the one
/// found before it.
pub open spec fn iinf_spec(b: Seq<u8>, cur: Option<u32>) -> Result<Option<u32>, &'static str> {
    if b.len() < 4 {
        Err("Box too small")
    } else {
        let r = skip(b, 4);
        if b[0] == 0 {
            if r.len() < 2 { Err("Box too small") } else { iinf_entries(skip(r, 2), be16(r, 0), cur) }
        } else {
            if r.len() < 4 { Err("Box too small") } else { iinf_entries(skip(r, 4), be32(r, 0), cur) }
        }
    }
}

/// Reads an ItemInfoEntry body.
fn parse_infe(boxp: BoxSplitter) -> (r: Result<Option<u32>, Error>)
    ensures
        match infe_spec(boxp@) {
            Ok(o) => r == Ok::<Option<u32>, Error>(o),
            Err(m) => r matches Err(e) && e.is_invalid(m),
        },
{
    let ghost b = boxp@;
    let mut boxp = boxp;
    let (version, _flags) = boxp.fullbox_header()?;
    let item_id: u32 = if version == 2 {
        boxp.uint16()? as u32
    } else if version == 3 {
        boxp.uint32()?
    } else {
        return Err(Error::InvalidFormat("Unsupported ItemInfoEntry"));
    };
    let ghost r = boxp@;
    let _protection = boxp.slice(2)?;
    let item_type = boxp.slice(4)?;
    let exif: [u8; 4] = [0x45, 0x78, 0x69, 0x66];
    assert(exif@ =~= fourcc('E', 'x', 'i', 'f'));
    proof {
        assert(skip(r, 2).subrange(0, 4) =~= r.subrange(2, 6));
    }
    if matches_at(item_type, 0, &exif) {
        assert(item_type@.subrange(0, 4) =~= item_type@);
        Ok(Some(item_id))
    } else {
        assert(item_type@.subrange(0, 4) =~= item_type@);
        Ok(None)
    }
}

/// Whether a four-byte box type is the given code.
pub(crate) fn type_is(t: &[u8], a: u8, b: u8, c: u8, d: u8) -> (r: bool)
    ensures
        r == (t@ == seq![a, b, c, d]),
{
    let code: [u8; 4] = [a, b, c, d];
    assert(code@ =~= seq![a, b, c, d]);
    let r = t.len() == 4 && matches_at(t, 0, &code);
    proof {
        if t@.len() == 4 {
            assert(t@.subrange(0, 4) =~= t@);
        }
    }
    r
}

/// Reads an ItemInfoBox body, `cur` being the Exif item found before.
fn parse_iinf(b: BoxSplitter, cur: Option<u32>) -> (r: Result<Option<u32>, Error>)
    ensures
        match iinf_spec(b@, cur) {
            Ok(o) => r == Ok::<Option<u32>, Error>(o),
            Err(m) => r matches Err(e) && e.is_invalid(m),
        },
{
    let ghost b0 = b@;
    let mut boxp = b;
    let (version, _flags) = boxp.fullbox_header()?;
    let entry_count: u32 = if version == 0 {
        boxp.uint16()? as u32
    } else {
        boxp.uint32()?
    };
    let mut item = cur;
    let mut k: u32 = 0;
    while k < entry_count
        invariant
            k <= entry_count,
            b0 == b@,
            iinf_entries(boxp@, entry_count - k, item) == iinf_spec(b0, cur),
        decreases entry_count - k,
    {
        let (boxtype, body) = boxp.child_box()?;
        if type_is(boxtype, 0x69, 0x6e, 0x66, 0x65) {
            assert(fourcc('i', 'n', 'f', 'e') =~= seq![0x69u8, 0x6e, 0x66, 0x65]);
            match parse_infe(body)? {
                Some(id) => { item = Some(id); },
                None => {},
            }
        } else {
            assert(fourcc('i', 'n', 'f', 'e') =~= seq![0x69u8, 0x6e, 0x66, 0x65]);
        }
        k = k + 1;
    }
    Ok(item)
}

/// Where an item's data lies: how it is constructed, its extents (index,
/// offset, length) and the base offset they count from.
pub ghost struct Loc {
    pub cm: u8,
    pub extents: Seq<(u64, u64, u64)>,
    pub base: u64,
}

/// An item's location, as read from an ItemLocationBox.
pub struct Location {
    pub construction_method: u8,
    pub extents: Vec<(u64, u64, u64)>,
    pub base_offset: u64,
}

impl View for Location {
    type V = Loc;

    open spec fn view(&self) -> Loc {
        Loc { cm: self.construction_method, extents: self.extents@, base: self.base_offset }
    }
}

/// The extents read from `r`, `acc` holding those read before, and what
/// follows them; each is three integers of the given sizes.
pub open spec fn extents_spec(r: Seq<u8>, is: int, os: int, ls: int, n: int, acc: Seq<(u64, u64, u64)>)
    -> Result<(Seq<(u64, u64, u64)>, Seq<u8>), BoxErr>
    decreases n,
{
    if n <= 0 {
        Ok((acc, r))
    } else {
        match size048_spec(r, is) {
            Err(m) => Err(BoxErr::Invalid(m)),
            Ok((None, _)) => Err(BoxErr::Invalid("Invalid index_size")),
            Ok((Some(i), r1)) => match size048_spec(r1, os) {
                Err(m) => Err(BoxErr::Invalid(m)),
                Ok((None, _)) => Err(BoxErr::Invalid("Invalid offset_size")),
                Ok((Some(o), r2)) => match size048_spec(r2, ls) {
                    Err(m) => Err(BoxErr::Invalid(m)),
                    Ok((None, _)) => Err(BoxErr::Invalid("Invalid length_size")),
                    Ok((Some(l), r3)) => extents_spec(r3, is, os, ls, n - 1, acc.push((i, o, l))),
                },
            },
        }
    }
}

/// The field sizes an ItemLocationBox states: offset, length, base offset
/// and index sizes.
pub ghost struct IlocSizes {
    pub os: int,
    pub ls: int,
    pub bs: int,
    pub is: int,
}

/// The location of item `id` after `n` more items of an ItemLocationBox,
/// `cur` the one found so far (the last matching item wins).
pub open spec fn iloc_items(r: Seq<u8>, v: u8, z: IlocSizes, n: int, id: u32, cur: Option<Loc>)
    -> Result<Option<Loc>, BoxErr>
    decreases n,
{
    if n <= 0 {
        Ok(cur)
    } else {
        let idlen: int = if v == 0 || v == 1 { 2 } else { 4 };
        let cmlen: int = if v == 0 { 0 } else { 2 };
        if r.len() < idlen || r.len() < idlen + cmlen || r.len() < idlen + cmlen + 2 {
            Err(BoxErr::Invalid("Box too small"))
        } else {
            let item = if v == 0 || v == 1 { be16(r, 0) } else { be32(r, 0) };
            let cm: u8 = if v == 0 { 0 } else { (r[idlen + 1] % 16) as u8 };
            let dri = be16(r, idlen + cmlen);
            let r3 = skip(r, idlen + cmlen + 2);
            if cm == 0 && dri != 0 {
                Err(BoxErr::NotSupported("External data reference is not supported"))
            } else {
                match size048_spec(r3, z.bs) {
                    Err(m) => Err(BoxErr::Invalid(m)),
                    Ok((None, _)) => Err(BoxErr::Invalid("Invalid base_offset_size")),
                    Ok((Some(base), r4)) => {
                        if r4.len() < 2 {
                            Err(BoxErr::Invalid("Box too small"))
                        } else {
                            let ec = be16(r4, 0);
                            let r5 = skip(r4, 2);
                            if item == id {
                                match extents_spec(r5, z.is, z.os, z.ls, ec, Seq::empty()) {
                                    Err(e) => Err(e),
                                    Ok((ex, r6)) => iloc_items(r6, v, z, n - 1, id,
                                        Some(Loc { cm, extents: ex, base })),
                                }
                            } else {
                                let k = (z.is + z.os + z.ls) * ec;
                                if k > r5.len() {
                                    Err(BoxErr::Invalid("Box too small"))
                                } else {
                                    iloc_items(skip(r5, k), v, z, n - 1, id, cur)
                                }
                            }
                        }
                    },
                }
            }
        }
    }
}

/// The location of item `id` that the ItemLocationBox body `b` states.
pub open spec fn iloc_spec(b: Seq<u8>, id: u32) -> Result<Option<Loc>, BoxErr> {
    if b.len() < 6 {
        Err(BoxErr::Invalid("Box too small"))
    } else {
        let v = b[0];
        let tmp = be16(b, 4);
        let z = IlocSizes {
            os: tmp / 4096,
            ls: (tmp / 256) % 16,
            bs: (tmp / 16) % 16,
            is: if v == 1 || v == 2 { tmp % 16 } else { 0 },
        };
        let r = skip(b, 6);
        if v == 0 || v == 1 {
            if r.len() < 2 { Err(BoxErr::Invalid("Box too small")) } else {
                iloc_items(skip(r, 2), v, z, be16(r, 0), id, None) }
        } else if v == 2 {
            if r.len() < 4 { Err(BoxErr::Invalid("Box too small")) } else {
                iloc_items(skip(r, 4), v, z, be32(r, 0), id, None) }
        } else {
            Err(BoxErr::Invalid("Unsupported ItemLocationBox"))
        }
    }
}

/// Turns a reading error into the error it is reported as.
fn invalid(e: Error) -> (r: Error)
    ensures
        r == e,
{
    e
}

/// Reads `n` extents whose fields have the given sizes.
fn parse_extents(boxp: &mut BoxSplitter, is: usize, os: usize, ls: usize, n: u16)
    -> (r: Result<Vec<(u64, u64, u64)>, Error>)
    ensures
        match extents_spec(old(boxp)@, is as int, os as int, ls as int, n as int, Seq::empty()) {
            Ok((ex, rest)) => r matches Ok(v) && v@ == ex && final(boxp)@ == rest,
            Err(e) => r matches Err(x) && err_is(x, e, "Broken HEIF file"),
        },
{
    let ghost b0 = boxp@;
    let mut extents: Vec<(u64, u64, u64)> = Vec::new();
    let mut k: u16 = 0;
    while k < n
        invariant
            k <= n,
            b0 == old(boxp)@,
            extents_spec(boxp@, is as int, os as int, ls as int, n - k, extents@)
                == extents_spec(b0, is as int, os as int, ls as int, n as int, Seq::empty()),
        decreases n - k,
    {
        let index = match boxp.size048(is) {
            Ok(Some(v)) => v,
            Ok(None) => return Err(Error::InvalidFormat("Invalid index_size")),
            Err(e) => return Err(e),
        };
        let offset = match boxp.size048(os) {
            Ok(Some(v)) => v,
            Ok(None) => return Err(Error::InvalidFormat("Invalid offset_size")),
            Err(e) => return Err(e),
        };
        let length = match boxp.size048(ls) {
            Ok(Some(v)) => v,
            Ok(None) => return Err(Error::InvalidFormat("Invalid length_size")),
            Err(e) => return Err(e),
        };
        extents.push((index, offset, length));
        k = k + 1;
    }
    Ok(extents)
}

/// The location an optional exec location stands for.
pub open spec fn opt_loc(o: Option<Location>) -> Option<Loc> {
    match o { Some(l) => Some(l@), None => None }
}

/// Reads an ItemLocationBox body: the location of item `id`.
fn parse_iloc(b: BoxSplitter, id: u32) -> (r: Result<Option<Location>, Error>)
    ensures
        match iloc_spec(b@, id) {
            Ok(o) => r matches Ok(x) && opt_loc(x) == o,
            Err(e) => r matches Err(x) && err_is(x, e, "Broken HEIF file"),
        },
{
    let ghost b0 = b@;
    let mut boxp = b;
    let (version, _flags) = boxp.fullbox_header()?;
    let tmp = boxp.uint16()? as usize;
    let os = tmp / 4096;
    let ls = (tmp / 256) % 16;
    let bs = (tmp / 16) % 16;
    let is = if version == 1 || version == 2 { tmp % 16 } else { 0 };
    let ghost z = IlocSizes { os: os as int, ls: ls as int, bs: bs as int, is: is as int };
    proof {
        assert(skip(skip(b0, 4), 2) =~= skip(b0, 6));
        assert(skip(b0, 4).subrange(0, 2) =~= b0.subrange(4, 6));
    }
    let item_count: u32 = if version == 0 || version == 1 {
        boxp.uint16()? as u32
    } else if version == 2 {
        boxp.uint32()?
    } else {
        return Err(Error::InvalidFormat("Unsupported ItemLocationBox"));
    };
    let ghost v = b0[0];
    let mut cur: Option<Location> = None;
    let mut k: u32 = 0;
    while k < item_count
        invariant
            b0 == b@,
            k <= item_count,
            version == v as u32,
            z == (IlocSizes { os: os as int, ls: ls as int, bs: bs as int, is: is as int }),
            os < 16, ls < 16, bs < 16, is < 16,
            iloc_items(boxp@, v, z, item_count - k, id, opt_loc(cur)) == iloc_spec(b0, id),
        decreases item_count - k,
    {
        let ghost r = boxp@;
        let item: u32 = if version == 0 || version == 1 {
            boxp.uint16()? as u32
        } else {
            boxp.uint32()?
        };
        let cm: u8 = if version == 0 {
            0
        } else {
            let x = boxp.slice(2)?;
            x[1] % 16
        };
        let dri = boxp.uint16()?;
        proof {
            let idlen: int = if v == 0 || v == 1 { 2 } else { 4 };
            let cmlen: int = if v == 0 { 0 } else { 2 };
            assert(boxp@ =~= skip(r, idlen + cmlen + 2));
            if v != 0 {
                assert(r[idlen + 1] == skip(r, idlen)[1]);
            }
            assert(skip(r, idlen + cmlen).subrange(0, 2) =~= r.subrange(idlen + cmlen, idlen + cmlen + 2));
            assert(dri == be16(r, idlen + cmlen));
        }
        if cm == 0 && dri != 0 {
            return Err(Error::NotSupported("External data reference is not supported"));
        }
        let base = match boxp.size048(bs) {
            Ok(Some(x)) => x,
            Ok(None) => return Err(Error::InvalidFormat("Invalid base_offset_size")),
            Err(e) => return Err(e),
        };
        let ec = boxp.uint16()?;
        if item == id {
            let ex = parse_extents(&mut boxp, is, os, ls, ec)?;
            cur = Some(Location { construction_method: cm, extents: ex, base_offset: base });
        } else {
            proof {
                assert((is + os + ls) * ec <= 45 * 65535) by (nonlinear_arith)
                    requires is + os + ls <= 45, ec <= 65535;
            }
            let _ = boxp.slice((is + os + ls) * (ec as usize))?;
        }
        k = k + 1;
    }
    Ok(cur)
}

/// What the children of a meta box have stated so far: the item data
/// box, the item location box and the Exif item.
pub ghost struct MetaState {
    pub idat: Option<Seq<u8>>,
    pub iloc: Option<Seq<u8>>,
    pub item: Option<u32>,
}

/// What a child box of type `t` and body `body` adds to what a meta box
/// has stated so far.
pub open spec fn meta_step(st: MetaState, t: Seq<u8>, body: Seq<u8>) -> Result<MetaState, &'static str> {
    if t == fourcc('i', 'd', 'a', 't') {
        Ok(MetaState { idat: Some(body), ..st })
    } else if t == fourcc('i', 'i', 'n', 'f') {
        match iinf_spec(body, st.item) {
            Err(m) => Err(m),
            Ok(i) => Ok(MetaState { item: i, ..st }),
        }
    } else if t == fourcc('i', 'l', 'o', 'c') {
        Ok(MetaState { iloc: Some(body), ..st })
    } else {
        Ok(st)
    }
}

/// What the child boxes `r` of a meta box state, `st` being what the
/// earlier ones did; the last of each kind counts.
pub open spec fn meta_children(r: Seq<u8>, st: MetaState) -> Result<MetaState, &'static str>
    decreases r.len(),
{
    if r.len() == 0 {
        Ok(st)
    } else {
        match child_box_spec(r) {
            Err(m) => Err(m),
            Ok((t, body, rest)) => {
                if rest.len() >= r.len() {
                    Ok(st)
                } else {
                    match meta_step(st, t, body) {
                        Err(m) => Err(m),
                        Ok(st2) => meta_children(rest, st2),
                    }
                }
            },
        }
    }
}

/// The Exif data once `acc` is extended by the `k`-th extent on, each
/// read from the file `s` at the base offset plus its offset (to the end of
/// the file when its length is 0).
pub open spec fn file_extents(s: Seq<u8>, loc: Loc, k: int, acc: Seq<u8>) -> Result<Seq<u8>, BoxErr>
    decreases loc.extents.len() - k,
{
    if k < 0 || k >= loc.extents.len() {
        Ok(acc)
    } else {
        let off = loc.extents[k].1;
        let len = loc.extents[k].2;
        if loc.base + off > u64::MAX {
            Err(BoxErr::Invalid("Invalid offset"))
        } else {
            let o = loc.base + off;
            let piece: Result<Seq<u8>, BoxErr> = if len == 0 {
                Ok(if o >= s.len() { Seq::<u8>::empty() } else { s.subrange(o, s.len() as int) })
            } else if len > usize::MAX {
                Err(BoxErr::Invalid("Extent too large"))
            } else if o + len > s.len() {
                Err(BoxErr::Broken)
            } else {
                Ok(s.subrange(o, o + len))
            };
            match piece {
                Err(e) => Err(e),
                Ok(p) => if acc.len() + p.len() > MAX_EXIF_SIZE {
                    Err(BoxErr::Invalid("Exif data too large"))
                } else {
                    file_extents(s, loc, k + 1, acc + p)
                },
            }
        }
    }
}

/// The Exif data once `acc` is extended by the `k`-th extent on, each
/// taken from the item data box `idat`.
pub open spec fn idat_extents(idat: Seq<u8>, loc: Loc, k: int, acc: Seq<u8>) -> Result<Seq<u8>, BoxErr>
    decreases loc.extents.len() - k,
{
    if k < 0 || k >= loc.extents.len() {
        Ok(acc)
    } else {
        let off = loc.extents[k].1;
        let len = loc.extents[k].2;
        if loc.base + off > u64::MAX {
            Err(BoxErr::Invalid("Invalid offset"))
        } else if loc.base + off + len > u64::MAX {
            Err(BoxErr::Invalid("Invalid length"))
        } else if loc.base + off > usize::MAX {
            Err(BoxErr::Invalid("Offset too large"))
        } else if loc.base + off + len > usize::MAX {
            Err(BoxErr::Invalid("Length too large"))
        } else {
            let o = loc.base + off;
            let piece: Result<Seq<u8>, BoxErr> = if len == 0 {
                if o > idat.len() { Err(BoxErr::Invalid("Out of ItemDataBox")) } else { Ok(idat.subrange(o, idat.len() as int)) }
            } else if o + len > idat.len() {
                Err(BoxErr::Invalid("Out of ItemDataBox"))
            } else {
                Ok(idat.subrange(o, o + len))
            };
            match piece {
                Err(e) => Err(e),
                Ok(p) => if acc.len() + p.len() > MAX_EXIF_SIZE {
                    Err(BoxErr::Invalid("Exif data too large"))
                } else {
                    idat_extents(idat, loc, k + 1, acc + p)
                },
            }
        }
    }
}

/// The Exif data a meta box body `b` locates in the file `s`.
#[verifier::opaque]
pub open spec fn meta_spec(b: Seq<u8>, s: Seq<u8>) -> Result<Seq<u8>, BoxErr> {
    if b.len() < 4 {
        Err(BoxErr::Invalid("Box too small"))
    } else if b[0] != 0 {
        Err(BoxErr::Invalid("Unsupported MetaBox"))
    } else {
        match meta_children(skip(b, 4), MetaState { idat: None, iloc: None, item: None }) {
            Err(m) => Err(BoxErr::Invalid(m)),
            Ok(st) => {
                if st.item is None {
                    Err(BoxErr::NotFound("HEIF"))
                } else if st.iloc is None {
                    Err(BoxErr::Invalid("No ItemLocationBox"))
                } else {
                    match iloc_spec(st.iloc->0, st.item->0) {
                        Err(e) => Err(e),
                        Ok(None) => Err(BoxErr::Invalid("No matching item in ItemLocationBox")),
                        Ok(Some(loc)) => {
                            if loc.cm == 0 {
                                file_extents(s, loc, 0, Seq::empty())
                            } else if loc.cm == 1 {
                                if st.idat is None {
                                    Err(BoxErr::Invalid("No ItemDataBox"))
                                } else {
                                    idat_extents(st.idat->0, loc, 0, Seq::empty())
                                }
                            } else if loc.cm == 2 {
                                Err(BoxErr::NotSupported("Construction by item offset is not supported"))
                            } else {
                                Err(BoxErr::Invalid("Invalid construction_method"))
                            }
                        },
                    }
                }
            },
        }
    }
}

/// The bytes an optional slice holds.
pub open spec fn opt_slice(o: Option<&[u8]>) -> Option<Seq<u8>> {
    match o { Some(x) => Some(x@), None => None }
}

/// The bytes an optional cursor has left.
pub open spec fn opt_box(o: Option<BoxSplitter>) -> Option<Seq<u8>> {
    match o { Some(x) => Some(x@), None => None }
}

/// Gathers the Exif data from the file's extents.
fn read_file_extents(file: &[u8], loc: &Location) -> (r: Result<Vec<u8>, Error>)
    ensures
        match file_extents(file@, loc@, 0, Seq::empty()) {
            Ok(x) => r matches Ok(v) && v@ == x,
            Err(e) => r matches Err(x) && err_is(x, e, "Broken HEIF file"),
        },
{
    let mut buf: Vec<u8> = Vec::new();
    let mut k: usize = 0;
    while k < loc.extents.len()
        invariant
            k <= loc.extents@.len(),
            file_extents(file@, loc@, k as int, buf@) == file_extents(file@, loc@, 0, Seq::empty()),
            buf@.len() <= MAX_EXIF_SIZE,
        decreases loc.extents@.len() - k,
    {
        let (_, off, len) = loc.extents[k];
        let o = match loc.base_offset.checked_add(off) {
            Some(o) => o,
            None => return Err(Error::InvalidFormat("Invalid offset")),
        };
        if len == 0 {
            if o < file.len() as u64 {
                append_range(&mut buf, file, o as usize, file.len());
            } else {
                assert(buf@ + Seq::<u8>::empty() =~= buf@);
            }
        } else {
            if len > usize::MAX as u64 {
                return Err(Error::InvalidFormat("Extent too large"));
            }
            if o > file.len() as u64 || file.len() as u64 - o < len {
                return Err(Error::InvalidFormat("Broken HEIF file"));
            }
            append_range(&mut buf, file, o as usize, (o + len) as usize);
        }
        if buf.len() > MAX_EXIF_SIZE {
            return Err(Error::InvalidFormat("Exif data too large"));
        }
        k = k + 1;
    }
    Ok(buf)
}

/// Gathers the Exif data from the item data box's extents.
fn read_idat_extents(idat: &[u8], loc: &Location) -> (r: Result<Vec<u8>, Error>)
    ensures
        match idat_extents(idat@, loc@, 0, Seq::empty()) {
            Ok(x) => r matches Ok(v) && v@ == x,
            Err(e) => r matches Err(x) && err_is(x, e, "Broken HEIF file"),
        },
{
    let mut buf: Vec<u8> = Vec::new();
    let mut k: usize = 0;
    while k < loc.extents.len()
        invariant
            k <= loc.extents@.len(),
            idat_extents(idat@, loc@, k as int, buf@) == idat_extents(idat@, loc@, 0, Seq::empty()),
            buf@.len() <= MAX_EXIF_SIZE,
        decreases loc.extents@.len() - k,
    {
        let (_, off, len) = loc.extents[k];
        let o = match loc.base_offset.checked_add(off) {
            Some(o) => o,
            None => return Err(Error::InvalidFormat("Invalid offset")),
        };
        let end = match o.checked_add(len) {
            Some(e) => e,
            None => return Err(Error::InvalidFormat("Invalid length")),
        };
        if o > usize::MAX as u64 {
            return Err(Error::InvalidFormat("Offset too large"));
        }
        if end > usize::MAX as u64 {
            return Err(Error::InvalidFormat("Length too large"));
        }
        if len == 0 {
            if o > idat.len() as u64 {
                return Err(Error::InvalidFormat("Out of ItemDataBox"));
            }
            append_range(&mut buf, idat, o as usize, idat.len());
        } else {
            if end > idat.len() as u64 {
                return Err(Error::InvalidFormat("Out of ItemDataBox"));
            }
            append_range(&mut buf, idat, o as usize, end as usize);
        }
        if buf.len() > MAX_EXIF_SIZE {
            return Err(Error::InvalidFormat("Exif data too large"));
        }
        k = k + 1;
    }
    Ok(buf)
}

/// A meta box whose children cannot be read fails as they do.
pub proof fn lemma_meta_children_err(b: Seq<u8>, s: Seq<u8>, target: Result<MetaState, &'static str>)
    requires
        b.len() >= 4,
        b[0] == 0,
        target == meta_children(skip(b, 4), MetaState { idat: None, iloc: None, item: None }),
    ensures
        target matches Err(m) ==> meta_spec(b, s) == Err::<Seq<u8>, BoxErr>(BoxErr::Invalid(m)),
{
    reveal(meta_spec);
}

/// Takes in a child box of a meta box.
fn meta_child<'a>(t: &[u8], body: BoxSplitter<'a>, idat: Option<&'a [u8]>, iloc: Option<BoxSplitter<'a>>,
    item: Option<u32>) -> (r: Result<(Option<&'a [u8]>, Option<BoxSplitter<'a>>, Option<u32>), Error>)
    ensures
        match meta_step(MetaState { idat: opt_slice(idat), iloc: opt_box(iloc), item }, t@, body@) {
            Ok(st) => r matches Ok((a, b, c)) && st == (MetaState { idat: opt_slice(a), iloc: opt_box(b), item: c }),
            Err(m) => r matches Err(x) && x.is_invalid(m),
        },
{
    assert(fourcc('i', 'd', 'a', 't') =~= seq![0x69u8, 0x64, 0x61, 0x74]);
    assert(fourcc('i', 'i', 'n', 'f') =~= seq![0x69u8, 0x69, 0x6e, 0x66]);
    assert(fourcc('i', 'l', 'o', 'c') =~= seq![0x69u8, 0x6c, 0x6f, 0x63]);
    if type_is(t, 0x69, 0x64, 0x61, 0x74) {
        Ok((Some(body.as_slice()), iloc, item))
    } else if type_is(t, 0x69, 0x69, 0x6e, 0x66) {
        let i = parse_iinf(body, item)?;
        Ok((idat, iloc, i))
    } else if type_is(t, 0x69, 0x6c, 0x6f, 0x63) {
        Ok((idat, Some(body), item))
    } else {
        Ok((idat, iloc, item))
    }
}

/// Reads a meta box body: the Exif item's data, from the file `file`.
fn parse_meta(b: BoxSplitter, file: &[u8]) -> (r: Result<Vec<u8>, Error>)
    ensures
        match meta_spec(b@, file@) {
            Ok(x) => r matches Ok(v) && v@ == x,
            Err(e) => r matches Err(x) && err_is(x, e, "Broken HEIF file"),
        },
{
    reveal(meta_spec);
    let ghost b0 = b@;
    let mut boxp = b;
    let (version, _flags) = boxp.fullbox_header()?;
    if version != 0 {
        return Err(Error::InvalidFormat("Unsupported MetaBox"));
    }
    let ghost init = MetaState { idat: None, iloc: None, item: None };
    let ghost target = meta_children(skip(b0, 4), init);
    let mut idat: Option<&[u8]> = None;
    let mut iloc: Option<BoxSplitter> = None;
    let mut item: Option<u32> = None;
    while !boxp.is_empty()
        invariant
            b0 == b@,
            b0.len() >= 4,
            b0[0] == 0,
            init == (MetaState { idat: None, iloc: None, item: None }),
            target == meta_children(skip(b0, 4), init),
            meta_children(boxp@, MetaState { idat: opt_slice(idat), iloc: opt_box(iloc), item }) == target,
        decreases boxp@.len(),
    {
        proof {
            lemma_child_box_shrinks(boxp@);
        }
        let (boxtype, body) = match boxp.child_box() {
            Ok(x) => x,
            Err(e) => {
                proof {
                    lemma_meta_children_err(b0, file@, target);
                }
                return Err(e);
            },
        };
        let (i1, i2, i3) = match meta_child(boxtype, body, idat, iloc, item) {
            Ok(x) => x,
            Err(e) => {
                proof {
                    lemma_meta_children_err(b0, file@, target);
                }
                return Err(e);
            },
        };
        idat = i1;
        iloc = i2;
        item = i3;
    }
    let id = match item {
        Some(id) => id,
        None => return Err(Error::NotFound("HEIF")),
    };
    let iloc = match iloc {
        Some(x) => x,
        None => return Err(Error::InvalidFormat("No ItemLocationBox")),
    };
    let location = match parse_iloc(iloc, id)? {
        Some(l) => l,
        None => return Err(Error::InvalidFormat("No matching item in ItemLocationBox")),
    };
    if location.construction_method == 0 {
        read_file_extents(file, &location)
    } else if location.construction_method == 1 {
        match idat {
            Some(d) => read_idat_extents(d, &location),
            None => Err(Error::InvalidFormat("No ItemDataBox")),
        }
    } else if location.construction_method == 2 {
        Err(Error::NotSupported("Construction by item offset is not supported"))
    } else {
        Err(Error::InvalidFormat("Invalid construction_method"))
    }
}

// ---------------------------------------------------------------------
// Top-level boxes of a file.

/// The header of the top-level box at `pos` in the file `s`: its body
/// size (`u64::MAX` for one that runs to the end), its type and the
/// header's length.
pub open spec fn file_box_header(s: Seq<u8>, pos: int) -> Result<(u64, Seq<u8>, int), BoxErr> {
    if pos + 8 > s.len() {
        Err(BoxErr::Broken)
    } else {
        let size = be32(s, pos);
        let t = s.subrange(pos + 4, pos + 8);
        if size == 0 {
            Ok((u64::MAX, t, 8))
        } else if size == 1 {
            if pos + 16 > s.len() {
                Err(BoxErr::Broken)
            } else if be64(s, pos + 8) < 16 {
                Err(BoxErr::Invalid("Invalid box size"))
            } else {
                Ok(((be64(s, pos + 8) - 16) as u64, t, 16))
            }
        } else if size < 8 {
            Err(BoxErr::Invalid("Invalid box size"))
        } else {
            Ok(((size - 8) as u64, t, 8))
        }
    }
}

/// The body of a top-level box that starts at `start` with the given size.
pub open spec fn file_box_body(s: Seq<u8>, start: int, size: u64) -> Result<Seq<u8>, BoxErr> {
    if size == u64::MAX {
        Ok(skip(s, start))
    } else if size > usize::MAX {
        Err(BoxErr::Invalid("Box is larger than the address space"))
    } else if start + size > s.len() {
        Err(BoxErr::Broken)
    } else {
        Ok(s.subrange(start, start + size))
    }
}

/// Where the next top-level box starts after one whose body starts at
/// `start` with the given size.
pub open spec fn file_box_end(s: Seq<u8>, start: int, size: u64) -> int {
    if size == u64::MAX { s.len() as int } else { start + size }
}

/// One step of reading a box file: the result, or where the next
/// top-level box starts and whether the file type box has been read.
pub ghost enum FileStep<T> {
    Done(Result<T, BoxErr>),
    Next(int, bool),
}

/// What the top-level box of a HEIF file `s` at `pos` leads to: the file
/// type box must name a HEIF brand and come before the meta box, whose
/// Exif item is the result; other boxes are skipped.
pub open spec fn heif_step(s: Seq<u8>, pos: int, ftyp: bool) -> FileStep<Seq<u8>> {
    match file_box_header(s, pos) {
        Err(e) => FileStep::Done(Err(e)),
        Ok((size, t, hl)) => {
            let start = pos + hl;
            if t == fourcc('f', 't', 'y', 'p') {
                match file_box_body(s, start, size) {
                    Err(e) => FileStep::Done(Err(e)),
                    Ok(body) => if body.len() < 8 {
                        FileStep::Done(Err(BoxErr::Invalid("Box too small")))
                    } else if !has_brand(body, 8, true) {
                        FileStep::Done(Err(BoxErr::Invalid("No compatible brand recognized in ISO base media file")))
                    } else {
                        FileStep::Next(file_box_end(s, start, size), true)
                    },
                }
            } else if t == fourcc('m', 'e', 't', 'a') {
                if !ftyp {
                    FileStep::Done(Err(BoxErr::Invalid("MetaBox found before FileTypeBox")))
                } else {
                    match file_box_body(s, start, size) {
                        Err(e) => FileStep::Done(Err(e)),
                        Ok(body) => FileStep::Done(meta_spec(body, s)),
                    }
                }
            } else if size != u64::MAX && size > i64::MAX {
                FileStep::Done(Err(BoxErr::Invalid("Large seek not supported")))
            } else {
                FileStep::Next(file_box_end(s, start, size), ftyp)
            }
        },
    }
}

/// The Exif data block a HEIF file `s` holds, read from its top-level
/// boxes from `pos` on; `ftyp` is whether the file type box was read.
pub open spec fn heif_file(s: Seq<u8>, pos: int, ftyp: bool) -> Result<Seq<u8>, BoxErr>
    decreases s.len() - pos,
{
    if pos < 0 || pos >= s.len() {
        Err(BoxErr::NotFound("HEIF"))
    } else {
        match heif_step(s, pos, ftyp) {
            FileStep::Done(r) => r,
            FileStep::Next(n, f) => if n <= pos || n > s.len() { Err(BoxErr::NotFound("HEIF")) } else { heif_file(s, n, f) },
        }
    }
}

/// The Exif data of a HEIF file `s`: its Exif data block without the
/// 4-byte offset to the TIFF header and the bytes that offset skips.
pub open spec fn heif_exif(s: Seq<u8>) -> Result<Seq<u8>, BoxErr> {
    match heif_file(s, 0, false) {
        Err(e) => Err(e),
        Ok(buf) => if buf.len() < 4 {
            Err(BoxErr::Invalid("ExifDataBlock too small"))
        } else if buf.len() - 4 < be32(buf, 0) {
            Err(BoxErr::Invalid("Invalid Exif header offset"))
        } else {
            Ok(skip(buf, 4 + be32(buf, 0)))
        },
    }
}

/// Reads the header of the top-level box at `pos`.
pub(crate) fn read_file_box_header(s: &[u8], pos: usize, broken: &'static str)
    -> (r: Result<(u64, usize), Error>)
    requires
        pos < s@.len(),
    ensures
        match file_box_header(s@, pos as int) {
            Ok((size, _, hl)) => r == Ok::<(u64, usize), Error>((size, hl as usize)),
            Err(e) => r matches Err(x) && err_is(x, e, broken),
        },
{
    if s.len() - pos < 8 {
        return Err(Error::InvalidFormat(broken));
    }
    let size = load_u32(s, pos, false);
    if size == 0 {
        Ok((u64::MAX, 8))
    } else if size == 1 {
        if s.len() - pos < 16 {
            return Err(Error::InvalidFormat(broken));
        }
        let large = load_u64(s, pos + 8, false);
        if large < 16 {
            return Err(Error::InvalidFormat("Invalid box size"));
        }
        Ok((large - 16, 16))
    } else if size < 8 {
        Err(Error::InvalidFormat("Invalid box size"))
    } else {
        Ok(((size - 8) as u64, 8))
    }
}

/// Reads the body of a top-level box.
pub(crate) fn read_file_box_body<'a>(s: &'a [u8], start: usize, size: u64, broken: &'static str)
    -> (r: Result<&'a [u8], Error>)
    requires
        start <= s@.len(),
    ensures
        match file_box_body(s@, start as int, size) {
            Ok(b) => r matches Ok(x) && x@ == b,
            Err(e) => r matches Err(x) && err_is(x, e, broken),
        },
{
    if size == u64::MAX {
        return Ok(&s[start..s.len()]);
    }
    if size > usize::MAX as u64 {
        return Err(Error::InvalidFormat("Box is larger than the address space"));
    }
    let size = size as usize;
    if s.len() - start < size {
        return Err(Error::InvalidFormat(broken));
    }
    Ok(&s[start..start + size])
}

/// Gets the Exif data from a HEIF file.
pub fn get_exif_attr(data: &[u8]) -> (r: Result<Vec<u8>, Error>)
    ensures
        match heif_exif(data@) {
            Ok(x) => r matches Ok(v) && v@ == x,
            Err(e) => r matches Err(x) && err_is(x, e, "Broken HEIF file"),
        },
{
    let buf = match heif_parse(data) {
        Ok(b) => b,
        Err(e) => return Err(e),
    };
    if buf.len() < 4 {
        return Err(Error::InvalidFormat("ExifDataBlock too small"));
    }
    let offset = load_u32(buf.as_slice(), 0, false) as usize;
    if buf.len() - 4 < offset {
        return Err(Error::InvalidFormat("Invalid Exif header offset"));
    }
    Ok(crate::bytes::copy_range(buf.as_slice(), 4 + offset, buf.len()))
}

/// Reads the top-level boxes of a HEIF file up to its meta box.
fn heif_parse(data: &[u8]) -> (r: Result<Vec<u8>, Error>)
    ensures
        match heif_file(data@, 0, false) {
            Ok(x) => r matches Ok(v) && v@ == x,
            Err(e) => r matches Err(x) && err_is(x, e, "Broken HEIF file"),
        },
{
    let ghost s = data@;
    let mut pos: u64 = 0;
    let mut ftyp_checked = false;
    let ftyp: [u8; 4] = [0x66, 0x74, 0x79, 0x70];
    let meta: [u8; 4] = [0x6d, 0x65, 0x74, 0x61];
    assert(ftyp@ =~= fourcc('f', 't', 'y', 'p'));
    assert(meta@ =~= fourcc('m', 'e', 't', 'a'));
    loop
        invariant
            s == data@,
            ftyp@ == fourcc('f', 't', 'y', 'p'),
            meta@ == fourcc('m', 'e', 't', 'a'),
            heif_file(s, pos as int, ftyp_checked) == heif_file(s, 0, false),
        decreases u64::MAX - pos,
    {
        if pos >= data.len() as u64 {
            return Err(Error::NotFound("HEIF"));
        }
        let p = pos as usize;
        let (size, hl) = read_file_box_header(data, p, "Broken HEIF file")?;
        let start = p + hl;
        proof {
            assert(data@.subrange(p + 4, p + 8) =~= data@.subrange(p + 4, p + 8));
        }
        if matches_at(data, p + 4, &ftyp) {
            let body = read_file_box_body(data, start, size, "Broken HEIF file")?;
            if body.len() < 8 {
                return Err(Error::InvalidFormat("Box too small"));
            }
            if !find_brand(body, 8, true) {
                return Err(Error::InvalidFormat("No compatible brand recognized in ISO base media file"));
            }
            ftyp_checked = true;
            pos = if size == u64::MAX { data.len() as u64 } else { start as u64 + size };
        } else if matches_at(data, p + 4, &meta) {
            if !ftyp_checked {
                return Err(Error::InvalidFormat("MetaBox found before FileTypeBox"));
            }
            let body = read_file_box_body(data, start, size, "Broken HEIF file")?;
            return parse_meta(BoxSplitter::new(body), data);
        } else {
            if size != u64::MAX && size > 0x7fff_ffff_ffff_ffff {
                return Err(Error::InvalidFormat("Large seek not supported"));
            }
            pos = if size == u64::MAX {
                data.len() as u64
            } else {
                match (start as u64).checked_add(size) {
                    Some(n) => n,
                    None => return Err(Error::NotFound("HEIF")),
                }
            };
        }
    }
}

} // verus!
