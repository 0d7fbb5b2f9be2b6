use vstd::prelude::*;
use crate::bytes::{spec_starts_with, starts_with, spec_u16, spec_u32, load_u16, load_u32, matches_at};
use crate::fmt::{padded_dec, push_padded};
use crate::util::{ascii_chars, bytes_to_string};
use crate::error::Error;
use crate::tag::{Context, Tag};
use crate::tiff::{Field, In, fields_view};
use crate::value::{Value, ValueView};

verus! {

/// `FOVb`, the file magic.
pub open spec fn x3f_magic() -> Seq<u8> { seq![0x46u8, 0x4f, 0x56, 0x62] }

/// Whether `buf` starts with the X3F magic.
pub fn is_x3f(buf: &[u8]) -> (r: bool)
    ensures
        r == spec_starts_with(buf@, x3f_magic()),
{
    let magic: [u8; 4] = [0x46, 0x4f, 0x56, 0x62];
    assert(magic@ =~= x3f_magic());
    starts_with(buf, &magic)
}

/// The latest second a four-digit year can name: 9999-12-31 23:59:59.
pub const MAX_UTC_SECS: i64 = 253_402_300_799;

/// The civil date (year, month, day) of the day `days` after 1970-01-01,
/// for days from the epoch on (H. Hinnant's `civil_from_days`).
pub open spec fn civil_from_days(days: int) -> (int, int, int) {
    let z = days + 719_468;
    let era = z / 146_097;
    let doe = z % 146_097;
    let yoe = (doe - doe / 1460 + doe / 36_524 - doe / 146_096) / 365;
    let y = yoe + era * 400;
    let doy = doe - (365 * yoe + yoe / 4 - yoe / 100);
    let mp = (5 * doy + 2) / 153;
    let d = doy - (153 * mp + 2) / 5 + 1;
    let m = if mp < 10 { mp + 3 } else { mp - 9 };
    (if m <= 2 { y + 1 } else { y }, m, d)
}

/// `YYYY:MM:DD HH:MM:SS` for the moment `secs` seconds after the Unix
/// epoch, in UTC; `None` before the epoch or after year 9999.
pub open spec fn utc_text(secs: int) -> Option<Seq<u8>> {
    if secs < 0 || secs > MAX_UTC_SECS {
        None
    } else {
        let (y, m, d) = civil_from_days(secs / 86_400);
        let rem = secs % 86_400;
        Some(padded_dec(y as nat, 4) + seq![58u8] + padded_dec(m as nat, 2) + seq![58u8]
            + padded_dec(d as nat, 2) + seq![32u8] + padded_dec((rem / 3600) as nat, 2) + seq![58u8]
            + padded_dec(((rem % 3600) / 60) as nat, 2) + seq![58u8] + padded_dec((rem % 60) as nat, 2))
    }
}

/// A Unix timestamp as `YYYY:MM:DD HH:MM:SS` in UTC; `None` outside the
/// years 1970 to 9999.
pub fn utc_string(secs: i64) -> (r: Option<String>)
    ensures
        match utc_text(secs as int) {
            None => r is None,
            Some(t) => r matches Some(s) && s@ == ascii_chars(t),
        },
{
    match utc_bytes(secs) {
        None => None,
        Some(b) => Some(bytes_to_string(b.as_slice())),
    }
}

/// The bytes of a Unix timestamp as `YYYY:MM:DD HH:MM:SS` in UTC.
pub fn utc_bytes(secs: i64) -> (r: Option<Vec<u8>>)
    ensures
        match utc_text(secs as int) {
            None => r is None,
            Some(t) => r matches Some(v) && v@ == t,
        },
{
    if secs < 0 || secs > MAX_UTC_SECS {
        return None;
    }
    let secs = secs as u64;
    let days = secs / 86_400;
    let rem = secs % 86_400;
    let z = days + 719_468;
    let era = z / 146_097;
    let doe = z % 146_097;
    let yoe = (doe - doe / 1460 + doe / 36_524 - doe / 146_096) / 365;
    let y = yoe + era * 400;
    assert(doe - (doe / 1460) + doe / 36_524 - doe / 146_096 <= 146_096);
    assert(yoe <= 400);
    assert(365 * yoe + yoe / 4 - yoe / 100 <= doe) by (nonlinear_arith)
        requires
            yoe == (doe - doe / 1460 + doe / 36_524 - doe / 146_096) / 365,
            doe < 146_097;
    let doy = doe - (365 * yoe + yoe / 4 - yoe / 100);
    assert(doy <= 365) by (nonlinear_arith)
        requires
            yoe == (doe - doe / 1460 + doe / 36_524 - doe / 146_096) / 365,
            doy == doe - (365 * yoe + yoe / 4 - yoe / 100),
            doe < 146_097;
    let mp = (5 * doy + 2) / 153;
    assert((153 * mp + 2) / 5 <= doy) by (nonlinear_arith)
        requires mp == (5 * doy + 2) / 153;
    let d = doy - (153 * mp + 2) / 5 + 1;
    let m = if mp < 10 { mp + 3 } else { mp - 9 };
    let y = if m <= 2 { y + 1 } else { y };
    let mut b: Vec<u8> = Vec::new();
    push_padded(&mut b, y, 4);
    b.push(58);
    push_padded(&mut b, m, 2);
    b.push(58);
    push_padded(&mut b, d, 2);
    b.push(32);
    push_padded(&mut b, rem / 3600, 2);
    b.push(58);
    push_padded(&mut b, (rem % 3600) / 60, 2);
    b.push(58);
    push_padded(&mut b, rem % 60, 2);
    proof {
        assert(b@ =~= utc_text(secs as int)->0);
    }
    Some(b)
}

/// The header before an X3F's sections: magic, version, identifier, mark
/// and the picture's size.
pub const HEADER_SIZE: usize = 36;
/// An image section's header.
pub const IMAGE_HEADER: u32 = 28;
/// The image section format of an embedded JPEG.
pub const FORMAT_JPEG: u32 = 18;
/// A directory with more entries than this is not one.
pub const MAX_ENTRIES: u32 = 64;
/// A property section (or table) larger than this is not one.
pub const MAX_PROP: u32 = 0x10_0000;
/// The first version (the Quattro generation) whose header does not state
/// the picture's size.
pub const QUATTRO_VERSION: u32 = 0x4_0000;
/// A picture edge longer than this is not one.
pub const MAX_EDGE: u32 = 0x2_0000;
/// A property string whose UTF-8 form grows past this many bytes is a
/// malformed table.
pub const MAX_PROP_TEXT: u32 = 512;

/// `SECd`, the directory's mark.
pub const SECD: [u8; 4] = [0x53, 0x45, 0x43, 0x64];
/// `SECp`, a property section's mark.
pub const SECP: [u8; 4] = [0x53, 0x45, 0x43, 0x70];
/// `SECi`, an image section's mark.
pub const SECI: [u8; 4] = [0x53, 0x45, 0x43, 0x69];
/// `PROP`, the property section type.
pub const PROP: [u8; 4] = [0x50, 0x52, 0x4f, 0x50];
/// `IMAG`, the image section type of the SD9.
pub const IMAG: [u8; 4] = [0x49, 0x4d, 0x41, 0x47];
/// `IMA2`, the image section type from the SD14 on.
pub const IMA2: [u8; 4] = [0x49, 0x4d, 0x41, 0x32];

/// What an X3F holds that this library reads: its properties (name and
/// value as UTF-16 code units, in file order), its largest embedded JPEG,
/// its largest embedded JPEG that starts with an APP1 (where the Quattro
/// generation keeps an Exif block), and the picture's size as the header
/// states it.
#[derive(Debug)]
pub struct X3fContents {
    pub props: Vec<(Vec<u16>, Vec<u16>)>,
    pub preview: Option<(u64, u32)>,
    pub exif_jpeg: Option<(u64, u32)>,
    pub frame: Option<(u32, u32)>,
}

/// The contents as values.
pub ghost struct X3fState {
    pub props: Seq<(Seq<u16>, Seq<u16>)>,
    pub preview: Option<(u64, u32)>,
    pub exif_jpeg: Option<(u64, u32)>,
    pub frame: Option<(u32, u32)>,
}

/// The props as values.
pub open spec fn props_view(p: Seq<(Vec<u16>, Vec<u16>)>) -> Seq<(Seq<u16>, Seq<u16>)> {
    p.map_values(|e: (Vec<u16>, Vec<u16>)| (e.0@, e.1@))
}

/// The state contents stand for.
pub open spec fn x3f_state(c: X3fContents) -> X3fState {
    X3fState { props: props_view(c.props@), preview: c.preview, exif_jpeg: c.exif_jpeg, frame: c.frame }
}

/// Whether a UTF-16 code unit is a surrogate, which is no character alone.
pub open spec fn is_surrogate(c: u16) -> bool {
    0xd800 <= c <= 0xdfff
}

/// How many bytes the character of a (non-surrogate) code unit takes in
/// UTF-8.
pub open spec fn utf8_len(c: u16) -> int {
    if c < 0x80 { 1 } else if c < 0x800 { 2 } else { 3 }
}

/// The NUL-terminated UTF-16 (little endian) string at `b[at..]`, whose
/// characters so far take `n8` bytes in UTF-8: `None` where it runs off
/// the end, holds a surrogate, or grows past 512 bytes of UTF-8.
pub open spec fn utf16_from(b: Seq<u8>, at: int, n8: int) -> Option<Seq<u16>>
    decreases b.len() - at,
{
    if at < 0 || at + 2 > b.len() {
        None
    } else {
        let c = spec_u16(b, at, true) as u16;
        if c == 0 {
            Some(seq![])
        } else if is_surrogate(c) || n8 + utf8_len(c) > MAX_PROP_TEXT {
            None
        } else {
            match utf16_from(b, at + 2, n8 + utf8_len(c)) {
                Some(rest) => Some(seq![c] + rest),
                None => None,
            }
        }
    }
}

/// Reads the NUL-terminated UTF-16 string at `b[at..]`.
fn read_utf16(b: &[u8], at: usize) -> (r: Option<Vec<u16>>)
    ensures
        match utf16_from(b@, at as int, 0) {
            Some(s) => r matches Some(v) && v@ == s,
            None => r is None,
        },
{
    let mut out: Vec<u16> = Vec::new();
    let mut pos: usize = at;
    let mut n8: u32 = 0;
    loop
        invariant
            n8 <= MAX_PROP_TEXT,
            pos >= at,
            utf16_from(b@, at as int, 0) == match utf16_from(b@, pos as int, n8 as int) {
                Some(rest) => Some(out@ + rest),
                None => None,
            },
        decreases b@.len() - pos,
    {
        if pos > b.len() || b.len() - pos < 2 {
            return None;
        }
        let c = load_u16(b, pos, true);
        if c == 0 {
            assert(out@ + seq![] =~= out@);
            return Some(out);
        }
        if 0xd800 <= c && c <= 0xdfff {
            return None;
        }
        let w: u32 = if c < 0x80 { 1 } else if c < 0x800 { 2 } else { 3 };
        if n8 + w > MAX_PROP_TEXT {
            return None;
        }
        proof {
            let cc = spec_u16(b@, pos as int, true) as u16;
            assert(cc == c);
            match utf16_from(b@, pos + 2, n8 + w) {
                Some(rest) => assert(out@.push(c) + rest =~= out@ + (seq![c] + rest)),
                None => {},
            }
        }
        out.push(c);
        n8 = n8 + w;
        pos = pos + 2;
    }
}

/// Reads the string `units` UTF-16 code units into the text at `b[text..]`.
fn string_at(b: &[u8], text: usize, units: u32) -> (r: Option<Vec<u16>>)
    requires
        text <= b@.len() <= u32::MAX,
    ensures
        match utf16_from(b@, text + 2 * units, 0) {
            Some(s) => r matches Some(v) && v@ == s,
            None => r is None,
        },
{
    let at: u64 = text as u64 + 2 * (units as u64);
    if at > b.len() as u64 {
        return None;
    }
    read_utf16(b, at as usize)
}

/// The properties the table entries `i` to `n` of a property block `b`
/// add to `props`: each name and value string, where both read and the name
/// is not empty.
pub open spec fn props_from(b: Seq<u8>, text: int, i: int, n: int, props: Seq<(Seq<u16>, Seq<u16>)>)
    -> Seq<(Seq<u16>, Seq<u16>)>
    decreases n - i,
{
    if i >= n {
        props
    } else {
        let e = 24 + 8 * i;
        let no = spec_u32(b, e, true);
        let vo = spec_u32(b, e + 4, true);
        let next = match (utf16_from(b, text + 2 * no, 0), utf16_from(b, text + 2 * vo, 0)) {
            (Some(k), Some(v)) => if k.len() > 0 { props.push((k, v)) } else { props },
            _ => props,
        };
        props_from(b, text, i + 1, n, next)
    }
}

/// What a property section `b` adds to `props`: nothing unless it is
/// `SECp` with its table (24 bytes on, 8 bytes an entry) within it.
pub open spec fn props_of(b: Seq<u8>, props: Seq<(Seq<u16>, Seq<u16>)>) -> Seq<(Seq<u16>, Seq<u16>)> {
    if b.len() < 12 || b.subrange(0, 4) != SECP@ {
        props
    } else {
        let n = spec_u32(b, 8, true);
        if n > MAX_PROP || 24 + 8 * n > b.len() {
            props
        } else {
            props_from(b, 24 + 8 * n, 0, n, props)
        }
    }
}

/// Reads the property section `b` into `out`.
fn read_props(b: &[u8], out: &mut Vec<(Vec<u16>, Vec<u16>)>)
    requires
        b@.len() <= MAX_PROP,
    ensures
        props_view(final(out)@) == props_of(b@, props_view(old(out)@)),
{
    if b.len() < 12 || !matches_at(b, 0, &SECP) {
        proof {
            if b@.len() >= 12 {
                assert(b@.subrange(0, 4) != SECP@);
            }
        }
        return;
    }
    assert(b@.subrange(0, 4) =~= SECP@);
    let n = load_u32(b, 8, true);
    if n > MAX_PROP || 24 + 8 * (n as u64) > b.len() as u64 {
        return;
    }
    let text: usize = 24 + 8 * (n as usize);
    let mut i: u32 = 0;
    while i < n
        invariant
            b@.len() <= MAX_PROP,
            n <= MAX_PROP,
            text == 24 + 8 * n,
            text <= b@.len(),
            i <= n,
            props_of(b@, props_view(old(out)@)) == props_from(b@, text as int, i as int, n as int, props_view(out@)),
        decreases n - i,
    {
        let e: usize = 24 + 8 * (i as usize);
        let no = load_u32(b, e, true);
        let vo = load_u32(b, e + 4, true);
        let k = string_at(b, text, no);
        let v = string_at(b, text, vo);
        let ghost before = props_view(out@);
        match (k, v) {
            (Some(k), Some(v)) => {
                if k.len() > 0 {
                    out.push((k, v));
                    assert(props_view(out@) =~= before.push((k@, v@)));
                }
            },
            _ => {},
        }
        i = i + 1;
    }
}

/// What an image section of `len` bytes at `data[off..]` adds to `st`:
/// where it is `SECi` in JPEG format and its data starts as a JPEG does,
/// (its first four bytes within the file) it is the preview if the largest
/// so far, and the Exif-bearing JPEG if it starts with an APP1 and is the
/// largest such so far.
pub open spec fn image_of(data: Seq<u8>, off: int, len: int, st: X3fState) -> X3fState {
    if len <= IMAGE_HEADER || data.subrange(off, off + 4) != SECI@ || spec_u32(data, off + 12, true) != FORMAT_JPEG {
        st
    } else {
        let at = off + IMAGE_HEADER;
        let size = len - IMAGE_HEADER;
        if at + 4 <= data.len() && data[at] == 0xff && data[at + 1] == 0xd8 {
            let preview = match st.preview {
                Some(p) => if size > p.1 { Some((at as u64, size as u32)) } else { st.preview },
                None => Some((at as u64, size as u32)),
            };
            let exif_jpeg = if data[at + 2] == 0xff && data[at + 3] == 0xe1 {
                match st.exif_jpeg {
                    Some(p) => if size > p.1 { Some((at as u64, size as u32)) } else { st.exif_jpeg },
                    None => Some((at as u64, size as u32)),
                }
            } else {
                st.exif_jpeg
            };
            X3fState { preview, exif_jpeg, ..st }
        } else {
            st
        }
    }
}

/// What the `i`-th directory entry, in the table at `data[tbl..]`, adds to
/// `st`: a property section or an image section (both spellings) that lies
/// within the file; anything else adds nothing.
pub open spec fn entry_step(data: Seq<u8>, tbl: int, i: int, st: X3fState) -> X3fState {
    let base = tbl + 12 * i;
    let off = spec_u32(data, base, true);
    let len = spec_u32(data, base + 4, true);
    let typ = data.subrange(base + 8, base + 12);
    if off + len > data.len() {
        st
    } else if typ == PROP@ {
        if len > MAX_PROP { st } else { X3fState { props: props_of(data.subrange(off, off + len), st.props), ..st } }
    } else if typ == IMAG@ || typ == IMA2@ {
        image_of(data, off, len, st)
    } else {
        st
    }
}

/// `st` after directory entries `i` to `n`.
pub open spec fn dir_fold(data: Seq<u8>, tbl: int, i: int, n: int, st: X3fState) -> X3fState
    decreases n - i,
{
    if i >= n {
        st
    } else {
        dir_fold(data, tbl, i + 1, n, entry_step(data, tbl, i, st))
    }
}

/// The picture's size the header states, below the Quattro generation,
/// where both edges are plausible.
pub open spec fn header_frame(data: Seq<u8>) -> Option<(u32, u32)> {
    if spec_u32(data, 4, true) < QUATTRO_VERSION {
        let c = spec_u32(data, 28, true);
        let r = spec_u32(data, 32, true);
        if c > 0 && r > 0 && c <= MAX_EDGE && r <= MAX_EDGE { Some((c as u32, r as u32)) } else { None }
    } else {
        None
    }
}

/// What an X3F file `data` holds, or why it is refused: the header, then
/// the directory the last four bytes address (`SECd`, a plausible count,
/// 12 bytes an entry), each entry read in order.
pub open spec fn x3f_contents(data: Seq<u8>) -> Result<X3fState, &'static str> {
    if data.len() < HEADER_SIZE {
        Err("Truncated X3F")
    } else if !spec_starts_with(data, x3f_magic()) {
        Err("Not an X3F file")
    } else {
        let dir = spec_u32(data, data.len() - 4, true);
        if dir + 12 > data.len() {
            Err("X3F directory is out of range")
        } else if data.subrange(dir, dir + 4) != SECD@ {
            Err("X3F directory is not SECd")
        } else {
            let count = spec_u32(data, dir + 8, true);
            if count == 0 || count > MAX_ENTRIES {
                Err("Implausible X3F entry count")
            } else if dir + 12 + 12 * count > data.len() {
                Err("Truncated X3F directory")
            } else {
                Ok(dir_fold(data, dir + 12, 0, count, X3fState {
                    props: seq![],
                    preview: None,
                    exif_jpeg: None,
                    frame: header_frame(data),
                }))
            }
        }
    }
}

/// Reads the image section of `len` bytes at `data[off..]` into `out`.
fn read_image(data: &[u8], off: u32, len: u32, out: &mut X3fContents)
    requires
        off + len <= data@.len(),
    ensures
        x3f_state(*final(out)) == image_of(data@, off as int, len as int, x3f_state(*old(out))),
        final(out).props == old(out).props,
{
    if len <= IMAGE_HEADER {
        return;
    }
    let o = off as usize;
    assert(o + len <= data.len());
    if !matches_at(data, o, &SECI) {
        return;
    }
    assert(data@.subrange(o as int, o + 4) =~= SECI@);
    if load_u32(data, o + 12, true) != FORMAT_JPEG {
        return;
    }
    let at = o + IMAGE_HEADER as usize;
    let size = len - IMAGE_HEADER;
    // Confirm rather than trust: the data must start as a JPEG does.
    if data.len() - at >= 4 && data[at] == 0xff && data[at + 1] == 0xd8 {
        // The largest JPEG wins: bodies carry a small one too.
        let bigger = match out.preview {
            Some((_, prev)) => size > prev,
            None => true,
        };
        if bigger {
            out.preview = Some((at as u64, size));
        }
        // An APP1 straight after the SOI is the Exif block.
        if data[at + 2] == 0xff && data[at + 3] == 0xe1 {
            let bigger = match out.exif_jpeg {
                Some((_, prev)) => size > prev,
                None => true,
            };
            if bigger {
                out.exif_jpeg = Some((at as u64, size));
            }
        }
    }
}

/// Reads what an X3F file `data` holds: the header's picture size, the
/// properties, and the embedded JPEGs.
pub fn get_contents(data: &[u8]) -> (r: Result<X3fContents, Error>)
    ensures
        match x3f_contents(data@) {
            Ok(st) => r matches Ok(c) && x3f_state(c) == st,
            Err(m) => r matches Err(e) && e.is_invalid(m),
        },
{
    if data.len() < HEADER_SIZE {
        return Err(Error::InvalidFormat("Truncated X3F"));
    }
    if !is_x3f(data) {
        return Err(Error::InvalidFormat("Not an X3F file"));
    }
    let mut frame: Option<(u32, u32)> = None;
    let version = load_u32(data, 4, true);
    if version < QUATTRO_VERSION {
        let c = load_u32(data, 28, true);
        let r = load_u32(data, 32, true);
        if c > 0 && r > 0 && c <= MAX_EDGE && r <= MAX_EDGE {
            frame = Some((c, r));
        }
    }
    let end = data.len() as u64;
    // The last four bytes address the directory.
    let dir = load_u32(data, data.len() - 4, true) as u64;
    if dir + 12 > end {
        return Err(Error::InvalidFormat("X3F directory is out of range"));
    }
    let d = dir as usize;
    if !matches_at(data, d, &SECD) {
        return Err(Error::InvalidFormat("X3F directory is not SECd"));
    }
    assert(data@.subrange(d as int, d + 4) =~= SECD@);
    let count = load_u32(data, d + 8, true);
    if count == 0 || count > MAX_ENTRIES {
        return Err(Error::InvalidFormat("Implausible X3F entry count"));
    }
    if dir + 12 + 12 * (count as u64) > end {
        return Err(Error::InvalidFormat("Truncated X3F directory"));
    }
    let mut out = X3fContents { props: Vec::new(), preview: None, exif_jpeg: None, frame };
    assert(props_view(out.props@) =~= seq![]);
    let tbl = d + 12;
    let mut i: u32 = 0;
    while i < count
        invariant
            count <= MAX_ENTRIES,
            data@.len() == data.len(),
            end == data@.len(),
            tbl + 12 * count <= data@.len(),
            i <= count,
            x3f_contents(data@) == Ok::<X3fState, &'static str>(dir_fold(data@, tbl as int, i as int, count as int, x3f_state(out))),
        decreases count - i,
    {
        let base = tbl + 12 * (i as usize);
        let off = load_u32(data, base, true);
        let len = load_u32(data, base + 4, true);
        let ghost st = x3f_state(out);
        if (off as u64) + (len as u64) <= end {
            if matches_at(data, base + 8, &PROP) {
                assert(data@.subrange(base + 8, base + 12) =~= PROP@);
                if len <= MAX_PROP {
                    let block = vstd::slice::slice_subrange(data, off as usize, off as usize + len as usize);
                    read_props(block, &mut out.props);
                }
            } else if matches_at(data, base + 8, &IMAG) || matches_at(data, base + 8, &IMA2) {
                proof {
                    assert(data@.subrange(base + 8, base + 12) != PROP@);
                }
                read_image(data, off, len, &mut out);
            } else {
                proof {
                    assert(data@.subrange(base + 8, base + 12) != PROP@);
                    assert(data@.subrange(base + 8, base + 12) != IMAG@);
                    assert(data@.subrange(base + 8, base + 12) != IMA2@);
                }
            }
        }
        assert(x3f_state(out) == entry_step(data@, tbl as int, i as int, st));
        i = i + 1;
    }
    Ok(out)
}

/// Whether a code unit is a white space character, as `str::trim` counts
/// them (Unicode `White_Space`).
pub open spec fn is_ws(c: u16) -> bool {
    (0x09 <= c <= 0x0d) || c == 0x20 || c == 0x85 || c == 0xa0 || c == 0x1680
        || (0x2000 <= c <= 0x200a) || c == 0x2028 || c == 0x2029 || c == 0x202f
        || c == 0x205f || c == 0x3000
}

fn ws(c: u16) -> (r: bool)
    ensures
        r == is_ws(c),
{
    (0x09 <= c && c <= 0x0d) || c == 0x20 || c == 0x85 || c == 0xa0 || c == 0x1680
        || (0x2000 <= c && c <= 0x200a) || c == 0x2028 || c == 0x2029 || c == 0x202f
        || c == 0x205f || c == 0x3000
}

/// The number of white space units `s` starts with, from `i` on.
pub open spec fn lead_ws(s: Seq<u16>, i: int) -> int
    decreases s.len() - i,
{
    if i < 0 || i >= s.len() || !is_ws(s[i]) { i } else { lead_ws(s, i + 1) }
}

/// Where the white space `s[..j]` ends with begins.
pub open spec fn trail_ws(s: Seq<u16>, lo: int, j: int) -> int
    decreases j - lo,
{
    if j <= lo || !is_ws(s[j - 1]) { j } else { trail_ws(s, lo, j - 1) }
}

/// `s` without white space at either end.
pub open spec fn trimmed(s: Seq<u16>) -> Seq<u16> {
    let a = lead_ws(s, 0);
    s.subrange(a, trail_ws(s, a, s.len() as int))
}

/// The UTF-8 bytes of a (non-surrogate) code unit.
pub open spec fn unit_utf8(c: u16) -> Seq<u8> {
    if c < 0x80 {
        seq![c as u8]
    } else if c < 0x800 {
        seq![(0xc0 + c / 64) as u8, (0x80 + c % 64) as u8]
    } else {
        seq![(0xe0 + c / 4096) as u8, (0x80 + (c / 64) % 64) as u8, (0x80 + c % 64) as u8]
    }
}

/// The UTF-8 bytes of a string of (non-surrogate) code units.
pub open spec fn utf8_of(s: Seq<u16>) -> Seq<u8>
    decreases s.len(),
{
    if s.len() == 0 { seq![] } else { utf8_of(s.drop_last()) + unit_utf8(s.last()) }
}

/// Whether `s` spells the ASCII bytes `k`.
pub open spec fn spells(s: Seq<u16>, k: Seq<u8>) -> bool {
    s.len() == k.len() && forall|i: int| 0 <= i < s.len() ==> s[i] == k[i] as u16
}

/// The index of the first property named `k`, from `i` on.
pub open spec fn first_prop(props: Seq<(Seq<u16>, Seq<u16>)>, k: Seq<u8>, i: int) -> Option<int>
    decreases props.len() - i,
{
    if i < 0 || i >= props.len() { None } else if spells(props[i].0, k) { Some(i) } else { first_prop(props, k, i + 1) }
}

/// The value of the first property named `k`, trimmed, if not empty.
pub open spec fn prop(props: Seq<(Seq<u16>, Seq<u16>)>, k: Seq<u8>) -> Option<Seq<u16>> {
    match first_prop(props, k, 0) {
        Some(i) => if trimmed(props[i].1).len() > 0 { Some(trimmed(props[i].1)) } else { None },
        None => None,
    }
}

/// Whether `c` is an ASCII digit as a code unit.
pub open spec fn digit16(c: u16) -> bool {
    48 <= c <= 57
}

/// The number the digit units `s` spell.
pub open spec fn dec16(s: Seq<u16>) -> int
    decreases s.len(),
{
    if s.len() == 0 { 0 } else { 10 * dec16(s.drop_last()) + (s.last() - 48) }
}

/// The digits of `s` after an optional sign `+` (and `-` where `minus`),
/// and whether it was `-`; `None` where no digits follow or another unit
/// does.
pub open spec fn signed_digits(s: Seq<u16>, minus: bool) -> Option<(bool, Seq<u16>)> {
    let sign: int = if s.len() > 0 && (s[0] == 0x2b || (minus && s[0] == 0x2d)) { 1 } else { 0 };
    let neg = minus && s.len() > 0 && s[0] == 0x2d;
    let d = s.subrange(sign, s.len() as int);
    if d.len() > 0 && all_digit16(d) { Some((neg, d)) } else { None }
}

/// Whether every unit of `d` is a digit.
pub open spec fn all_digit16(d: Seq<u16>) -> bool {
    forall|i: int| 0 <= i < d.len() ==> digit16(#[trigger] d[i])
}

/// `s` read as a signed 64-bit number, as `i64::from_str` reads it.
pub open spec fn parse_i64(s: Seq<u16>) -> Option<int> {
    match signed_digits(s, true) {
        Some((neg, d)) => {
            let x = if neg { -dec16(d) } else { dec16(d) };
            if i64::MIN <= x <= i64::MAX { Some(x) } else { None }
        },
        None => None,
    }
}

/// `s` read as an unsigned 32-bit number, as `u32::from_str` reads it.
pub open spec fn parse_u32(s: Seq<u16>) -> Option<int> {
    match signed_digits(s, false) {
        Some((_, d)) => if dec16(d) <= u32::MAX { Some(dec16(d)) } else { None },
        None => None,
    }
}

/// The ASCII field of `tag` in IFD0 holding the bytes `b`.
pub open spec fn ascii_field_view(tag: Tag, b: Seq<u8>) -> (Tag, In, ValueView) {
    (tag, In(0), ValueView::Ascii(seq![b]))
}

/// `CAMMANUF`
pub const CAMMANUF: [u8; 8] = [0x43, 0x41, 0x4d, 0x4d, 0x41, 0x4e, 0x55, 0x46];
/// `CAMMODEL`
pub const CAMMODEL: [u8; 8] = [0x43, 0x41, 0x4d, 0x4d, 0x4f, 0x44, 0x45, 0x4c];
/// `CAMSERIAL`
pub const CAMSERIAL: [u8; 9] = [0x43, 0x41, 0x4d, 0x53, 0x45, 0x52, 0x49, 0x41, 0x4c];
/// `TIME`
pub const TIME: [u8; 4] = [0x54, 0x49, 0x4d, 0x45];
/// `ISO`
pub const ISO: [u8; 3] = [0x49, 0x53, 0x4f];
/// `SHUTTER`, the exposure time in seconds as decimal text.
pub const SHUTTER: [u8; 7] = [0x53, 0x48, 0x55, 0x54, 0x54, 0x45, 0x52];
/// `APERTURE`, the f-number as decimal text.
pub const APERTURE: [u8; 8] = [0x41, 0x50, 0x45, 0x52, 0x54, 0x55, 0x52, 0x45];

/// The fields an X3F's properties and header state, but for the exposure
/// time and f-number, whose text is a floating-point number: the maker,
/// model and serial number, the moment (as a UTC wall clock), the picture's
/// size as a sub-image, and the ISO (saturating at 65535). Only what the
/// file actually states.
pub open spec fn synthesized(props: Seq<(Seq<u16>, Seq<u16>)>, frame: Option<(u32, u32)>) -> Seq<(Tag, In, ValueView)> {
    synthesized_with(props, frame, seq![])
}

/// The fields the properties and header state, with `exposure` (what the
/// exposure time and f-number come to) after the moment.
pub open spec fn synthesized_with(props: Seq<(Seq<u16>, Seq<u16>)>, frame: Option<(u32, u32)>,
    exposure: Seq<(Tag, In, ValueView)>) -> Seq<(Tag, In, ValueView)> {
    let maker = match prop(props, CAMMANUF@) {
        Some(v) => seq![ascii_field_view(Tag(Context::Tiff, 0x010f), utf8_of(v))],
        None => seq![],
    };
    let model = match prop(props, CAMMODEL@) {
        Some(v) => seq![ascii_field_view(Tag(Context::Tiff, 0x0110), utf8_of(v))],
        None => seq![],
    };
    let serial = match prop(props, CAMSERIAL@) {
        Some(v) => seq![ascii_field_view(Tag(Context::Exif, 0xa431), utf8_of(v))],
        None => seq![],
    };
    let time = match prop(props, TIME@) {
        Some(v) => match parse_i64(v) {
            Some(t) => match utc_text(t) {
                Some(u) => seq![ascii_field_view(Tag(Context::Exif, 0x9003), u)],
                None => seq![],
            },
            None => seq![],
        },
        None => seq![],
    };
    let size = match frame {
        Some((w, h)) => seq![(Tag(Context::Tiff, 0x0100), In(16), ValueView::Long(seq![w])),
            (Tag(Context::Tiff, 0x0101), In(16), ValueView::Long(seq![h]))],
        None => seq![],
    };
    let iso = match prop(props, ISO@) {
        Some(v) => match parse_u32(v) {
            Some(n) => seq![(Tag(Context::Exif, 0x8827), In(0),
                ValueView::Short(seq![if n > 0xffff { 0xffffu16 } else { n as u16 }]))],
            None => seq![],
        },
        None => seq![],
    };
    maker + model + serial + time + exposure + size + iso
}

/// Returns the bounds of `s` without white space at either end.
fn trim_bounds(s: &Vec<u16>) -> (r: (usize, usize))
    ensures
        r.0 <= r.1 <= s@.len(),
        s@.subrange(r.0 as int, r.1 as int) == trimmed(s@),
{
    let mut a: usize = 0;
    while a < s.len() && ws(s[a])
        invariant
            a <= s@.len(),
            lead_ws(s@, 0) == lead_ws(s@, a as int),
        decreases s@.len() - a,
    {
        a = a + 1;
    }
    let mut b: usize = s.len();
    while b > a && ws(s[b - 1])
        invariant
            a <= b <= s@.len(),
            lead_ws(s@, 0) == a,
            trail_ws(s@, a as int, s@.len() as int) == trail_ws(s@, a as int, b as int),
        decreases b - a,
    {
        b = b - 1;
    }
    (a, b)
}

/// Appends the UTF-8 bytes of the code units `s[a..b]`.
fn push_utf8(out: &mut Vec<u8>, s: &Vec<u16>, a: usize, b: usize)
    requires
        a <= b <= s@.len(),
    ensures
        final(out)@ == old(out)@ + utf8_of(s@.subrange(a as int, b as int)),
{
    let mut i: usize = a;
    assert(s@.subrange(a as int, a as int) =~= seq![]);
    assert(old(out)@ + utf8_of(seq![]) =~= old(out)@);
    while i < b
        invariant
            a <= i <= b <= s@.len(),
            out@ == old(out)@ + utf8_of(s@.subrange(a as int, i as int)),
        decreases b - i,
    {
        let c = s[i];
        let ghost before = out@;
        if c < 0x80 {
            out.push(c as u8);
        } else if c < 0x800 {
            out.push((0xc0 + c / 64) as u8);
            out.push((0x80 + c % 64) as u8);
        } else {
            out.push((0xe0 + c / 4096) as u8);
            out.push((0x80 + (c / 64) % 64) as u8);
            out.push((0x80 + c % 64) as u8);
        }
        assert(out@ =~= before + unit_utf8(c));
        assert(s@.subrange(a as int, i + 1).drop_last() =~= s@.subrange(a as int, i as int));
        i = i + 1;
    }
}

/// Returns the UTF-8 text of the first property named `k`, trimmed, if it
/// is not empty: how a caller reads what takes floating point to decode
/// (`SHUTTER`, `APERTURE`).
pub fn property_utf8(props: &Vec<(Vec<u16>, Vec<u16>)>, k: &[u8]) -> (r: Option<Vec<u8>>)
    ensures
        match prop(props_view(props@), k@) {
            Some(v) => r matches Some(b) && b@ == utf8_of(v),
            None => r is None,
        },
{
    match get_prop(props, k) {
        Some((i, a, b)) => {
            let mut out: Vec<u8> = Vec::new();
            push_utf8(&mut out, &props[i].1, a, b);
            assert(out@ =~= seq![] + utf8_of(props@[i as int].1@.subrange(a as int, b as int)));
            Some(out)
        },
        None => None,
    }
}

/// Returns the index of the first property named `k`.
fn find_prop(props: &Vec<(Vec<u16>, Vec<u16>)>, k: &[u8]) -> (r: Option<usize>)
    ensures
        match r {
            Some(i) => i < props@.len() && first_prop(props_view(props@), k@, 0) == Some(i as int),
            None => first_prop(props_view(props@), k@, 0) is None,
        },
{
    let mut i: usize = 0;
    while i < props.len()
        invariant
            i <= props@.len(),
            props_view(props@).len() == props@.len(),
            first_prop(props_view(props@), k@, 0) == first_prop(props_view(props@), k@, i as int),
        decreases props@.len() - i,
    {
        let name = &props[i].0;
        assert(props_view(props@)[i as int].0 == name@);
        let mut same = name.len() == k.len();
        let mut j: usize = 0;
        while same && j < k.len()
            invariant
                same ==> name@.len() == k@.len(),
                !same ==> !spells(name@, k@),
                j <= k@.len(),
                same ==> forall|m: int| 0 <= m < j ==> name@[m] == k@[m] as u16,
            ensures
                same == spells(name@, k@),
            decreases k@.len() - j,
        {
            if name[j] != k[j] as u16 {
                same = false;
            }
            j = j + 1;
        }
        if same {
            return Some(i);
        }
        i = i + 1;
    }
    None
}

/// Returns the trimmed value of the first property named `k`, as bounds
/// into its value, if it is not empty.
fn get_prop(props: &Vec<(Vec<u16>, Vec<u16>)>, k: &[u8]) -> (r: Option<(usize, usize, usize)>)
    ensures
        match prop(props_view(props@), k@) {
            Some(v) => r matches Some((i, a, b)) && i < props@.len() && a <= b <= props@[i as int].1@.len()
                && props@[i as int].1@.subrange(a as int, b as int) == v,
            None => r is None,
        },
{
    let i = match find_prop(props, k) {
        Some(i) => i,
        None => return None,
    };
    assert(props_view(props@)[i as int].1 == props@[i as int].1@);
    let (a, b) = trim_bounds(&props[i].1);
    assert(props@[i as int].1@.subrange(a as int, b as int).len() == b - a);
    if a < b { Some((i, a, b)) } else { None }
}

/// Reads the digit units `s[a..b]` as a number, `None` past `limit`.
fn read_digits(s: &Vec<u16>, a: usize, b: usize, limit: u64) -> (r: Option<u64>)
    requires
        a <= b <= s@.len(),
        forall|i: int| a <= i < b ==> digit16(#[trigger] s@[i]),
        limit <= u64::MAX / 16,
    ensures
        match r {
            Some(v) => v == dec16(s@.subrange(a as int, b as int)) && v <= limit,
            None => dec16(s@.subrange(a as int, b as int)) > limit,
        },
{
    let mut v: u64 = 0;
    let mut i: usize = a;
    assert(s@.subrange(a as int, a as int) =~= seq![]);
    while i < b
        invariant
            a <= i <= b <= s@.len(),
            forall|k: int| a <= k < b ==> digit16(#[trigger] s@[k]),
            limit <= u64::MAX / 16,
            v <= limit,
            v == dec16(s@.subrange(a as int, i as int)),
        decreases b - i,
    {
        assert(s@.subrange(a as int, i + 1).drop_last() =~= s@.subrange(a as int, i as int));
        assert(digit16(s@[i as int]));
        let d = (s[i] - 48) as u64;
        let nv = 10 * v + d;
        if nv > limit {
            proof { lemma_dec16_grows(s@, a as int, i + 1, b as int); }
            return None;
        }
        v = nv;
        i = i + 1;
    }
    Some(v)
}

/// A number spelled by more digits is no smaller.
proof fn lemma_dec16_grows(s: Seq<u16>, a: int, i: int, b: int)
    requires
        0 <= a <= i <= b <= s.len(),
        forall|k: int| a <= k < b ==> digit16(#[trigger] s[k]),
    ensures
        dec16(s.subrange(a, b)) >= dec16(s.subrange(a, i)),
    decreases b - i,
{
    if i < b {
        lemma_dec16_grows(s, a, i + 1, b);
        let t = s.subrange(a, i + 1);
        assert(t.drop_last() =~= s.subrange(a, i));
        assert(t.last() == s[i]);
        assert(digit16(s[i]));
        let u = s.subrange(a, i);
        assert forall|k: int| 0 <= k < u.len() implies digit16(#[trigger] u[k]) by {
            assert(u[k] == s[a + k]);
        }
        lemma_dec16_nonneg(u, a);
    }
}

proof fn lemma_dec16_nonneg(s: Seq<u16>, a: int)
    requires
        forall|k: int| 0 <= k < s.len() ==> digit16(#[trigger] s[k]),
    ensures
        dec16(s) >= 0,
    decreases s.len(),
{
    if s.len() > 0 {
        assert(digit16(s[s.len() - 1]));
        lemma_dec16_nonneg(s.drop_last(), a);
    }
}

/// Tests whether every unit of `s[a..b]` is a digit.
fn digit_units(s: &Vec<u16>, a: usize, b: usize) -> (r: bool)
    requires
        a <= b <= s@.len(),
    ensures
        r == all_digit16(s@.subrange(a as int, b as int)),
        r ==> forall|k: int| a <= k < b ==> digit16(#[trigger] s@[k]),
{
    let mut i = a;
    while i < b
        invariant
            a <= i <= b <= s@.len(),
            forall|k: int| a <= k < i ==> digit16(#[trigger] s@[k]),
        decreases b - i,
    {
        if s[i] < 48 || s[i] > 57 {
            assert(s@.subrange(a as int, b as int)[i - a] == s@[i as int]);
            return false;
        }
        i = i + 1;
    }
    assert forall|k: int| 0 <= k < b - a implies digit16(#[trigger] s@.subrange(a as int, b as int)[k]) by {
        assert(s@.subrange(a as int, b as int)[k] == s@[a + k]);
    }
    true
}

/// Reads `s[a..b]` as an optional sign and digits, the digits' value at
/// most `limit`: `Some((minus, value))`, or `None` where it is not a
/// signed number or the value is past `limit`.
fn read_number(s: &Vec<u16>, a: usize, b: usize, minus: bool, limit: u64) -> (r: Option<(bool, u64)>)
    requires
        a <= b <= s@.len(),
        limit <= u64::MAX / 16,
    ensures
        match signed_digits(s@.subrange(a as int, b as int), minus) {
            Some((neg, d)) => match r {
                Some((n, v)) => n == neg && v == dec16(d) && v <= limit,
                None => dec16(d) > limit,
            },
            None => r is None,
        },
{
    let ghost t = s@.subrange(a as int, b as int);
    assert(a < b ==> t[0] == s@[a as int]);
    let mut start = a;
    let mut neg = false;
    if a < b && s[a] == 0x2b {
        start = a + 1;
    } else if minus && a < b && s[a] == 0x2d {
        start = a + 1;
        neg = true;
    }
    assert(s@.subrange(start as int, b as int) =~= t.subrange(start - a, t.len() as int));
    if start >= b {
        return None;
    }
    let ghost d = s@.subrange(start as int, b as int);
    let ghost sign: int = start - a;
    assert(sign == (if t.len() > 0 && (t[0] == 0x2b || (minus && t[0] == 0x2d)) { 1int } else { 0int }));
    assert(neg == (minus && t.len() > 0 && t[0] == 0x2d));
    assert(t.subrange(sign, t.len() as int) == d);
    if !digit_units(s, start, b) {
        return None;
    }
    assert forall|k: int| 0 <= k < d.len() implies digit16(#[trigger] d[k]) by {
        assert(d[k] == s@[start + k]);
    }
    match read_digits(s, start, b, limit) {
        Some(v) => Some((neg, v)),
        None => None,
    }
}

/// Returns the ASCII field of `tag` in IFD0 holding the UTF-8 of `s[a..b]`.
fn utf8_field(tag: Tag, s: &Vec<u16>, a: usize, b: usize) -> (r: Field)
    requires
        a <= b <= s@.len(),
    ensures
        crate::tiff::field_view(r) == ascii_field_view(tag, utf8_of(s@.subrange(a as int, b as int))),
{
    let mut bytes: Vec<u8> = Vec::new();
    push_utf8(&mut bytes, s, a, b);
    assert(bytes@ =~= utf8_of(s@.subrange(a as int, b as int)));
    let v = vec![bytes];
    assert(crate::value::strings_view(v@) =~= seq![utf8_of(s@.subrange(a as int, b as int))]);
    Field { tag, ifd_num: In(0), value: Value::Ascii(v) }
}

/// The field a text property `key` states under `tag`, if any.
pub open spec fn text_field(pv: Seq<(Seq<u16>, Seq<u16>)>, key: Seq<u8>, tag: Tag) -> Seq<(Tag, In, ValueView)> {
    match prop(pv, key) {
        Some(v) => seq![ascii_field_view(tag, utf8_of(v))],
        None => seq![],
    }
}

/// The field the `TIME` property states, if any.
pub open spec fn time_field(pv: Seq<(Seq<u16>, Seq<u16>)>) -> Seq<(Tag, In, ValueView)> {
    match prop(pv, TIME@) {
        Some(v) => match parse_i64(v) {
            Some(t) => match utc_text(t) {
                Some(u) => seq![ascii_field_view(Tag(Context::Exif, 0x9003), u)],
                None => seq![],
            },
            None => seq![],
        },
        None => seq![],
    }
}

/// The field the `ISO` property states, if any.
pub open spec fn iso_field(pv: Seq<(Seq<u16>, Seq<u16>)>) -> Seq<(Tag, In, ValueView)> {
    match prop(pv, ISO@) {
        Some(v) => match parse_u32(v) {
            Some(n) => seq![(Tag(Context::Exif, 0x8827), In(0),
                ValueView::Short(seq![if n > 0xffff { 0xffffu16 } else { n as u16 }]))],
            None => seq![],
        },
        None => seq![],
    }
}

/// The sub-image fields the header's picture size states.
pub open spec fn frame_fields(frame: Option<(u32, u32)>) -> Seq<(Tag, In, ValueView)> {
    match frame {
        Some((w, h)) => seq![(Tag(Context::Tiff, 0x0100), In(16), ValueView::Long(seq![w])),
            (Tag(Context::Tiff, 0x0101), In(16), ValueView::Long(seq![h]))],
        None => seq![],
    }
}

/// Appends the field the text property `key` states under `tag`.
fn push_text_field(out: &mut Vec<Field>, props: &Vec<(Vec<u16>, Vec<u16>)>, key: &[u8], tag: Tag)
    ensures
        fields_view(final(out)@) == fields_view(old(out)@) + text_field(props_view(props@), key@, tag),
{
    let ghost before = fields_view(out@);
    if let Some((i, a, b)) = get_prop(props, key) {
        out.push(utf8_field(tag, &props[i].1, a, b));
    }
    assert(fields_view(out@) =~= before + text_field(props_view(props@), key@, tag));
}

/// Appends the field the `TIME` property states.
fn push_time_field(out: &mut Vec<Field>, props: &Vec<(Vec<u16>, Vec<u16>)>)
    ensures
        fields_view(final(out)@) == fields_view(old(out)@) + time_field(props_view(props@)),
{
    let ghost before = fields_view(out@);
    if let Some((i, a, b)) = get_prop(props, &TIME) {
        let ghost v = props@[i as int].1@.subrange(a as int, b as int);
        // A moment past what the clock can name is absence, whatever its
        // sign or size.
        match read_number(&props[i].1, a, b, true, MAX_UTC_SECS as u64) {
            Some((neg, n)) => {
                if !neg || n == 0 {
                    assert(parse_i64(v) == Some(n as int));
                    match utc_bytes(n as i64) {
                        Some(t) => {
                            let w = vec![t];
                            assert(crate::value::strings_view(w@) =~= seq![t@]);
                            out.push(Field { tag: Tag(Context::Exif, 0x9003), ifd_num: In(0), value: Value::Ascii(w) });
                        },
                        None => {},
                    }
                }
            },
            None => {},
        }
    }
    assert(fields_view(out@) =~= before + time_field(props_view(props@)));
}

/// Appends the field the `ISO` property states.
fn push_iso_field(out: &mut Vec<Field>, props: &Vec<(Vec<u16>, Vec<u16>)>)
    ensures
        fields_view(final(out)@) == fields_view(old(out)@) + iso_field(props_view(props@)),
{
    let ghost before = fields_view(out@);
    if let Some((i, a, b)) = get_prop(props, &ISO) {
        match read_number(&props[i].1, a, b, false, 0xffff_ffff) {
            Some((_, n)) => {
                let iso: u16 = if n > 0xffff { 0xffff } else { n as u16 };
                let iv = vec![iso];
                assert(iv@ =~= seq![iso]);
                out.push(Field { tag: Tag(Context::Exif, 0x8827), ifd_num: In(0), value: Value::Short(iv) });
            },
            None => {},
        }
    }
    assert(fields_view(out@) =~= before + iso_field(props_view(props@)));
}

/// Makes the fields an X3F's properties and header state, but for the
/// exposure time and f-number (floating-point text, added by the caller):
/// maker, model, serial number, the moment as a UTC wall clock, the
/// picture's size as a sub-image, and the ISO. Only what the file states.
/// The texts are the code units `get_contents` reads, which hold no
/// surrogate: a lone surrogate unit would be written out as three bytes.
pub fn synthesize(props: &Vec<(Vec<u16>, Vec<u16>)>, frame: Option<(u32, u32)>) -> (r: Vec<Field>)
    ensures
        fields_view(r@) == synthesized(props_view(props@), frame),
{
    let none: Vec<Field> = Vec::new();
    assert(fields_view(none@) =~= seq![]);
    synthesize_with(props, frame, none)
}

/// As `synthesize`, with the fields the exposure time and f-number come to
/// (`exposure`, made by the caller from their floating-point text) placed
/// after the moment.
pub fn synthesize_with(props: &Vec<(Vec<u16>, Vec<u16>)>, frame: Option<(u32, u32)>, exposure: Vec<Field>)
    -> (r: Vec<Field>)
    ensures
        fields_view(r@) == synthesized_with(props_view(props@), frame, fields_view(exposure@)),
{
    let mut out: Vec<Field> = Vec::new();
    assert(fields_view(out@) =~= seq![]);
    push_text_field(&mut out, props, &CAMMANUF, Tag(Context::Tiff, 0x010f));
    push_text_field(&mut out, props, &CAMMODEL, Tag(Context::Tiff, 0x0110));
    push_text_field(&mut out, props, &CAMSERIAL, Tag(Context::Exif, 0xa431));
    push_time_field(&mut out, props);
    let ghost timed = fields_view(out@);
    let mut exposure = exposure;
    let ghost ev = fields_view(exposure@);
    out.append(&mut exposure);
    assert(fields_view(out@) =~= timed + ev);
    let ghost before = fields_view(out@);
    if let Some((w, h)) = frame {
        let wv = vec![w];
        let hv = vec![h];
        assert(wv@ =~= seq![w] && hv@ =~= seq![h]);
        out.push(Field { tag: Tag(Context::Tiff, 0x0100), ifd_num: In(16), value: Value::Long(wv) });
        out.push(Field { tag: Tag(Context::Tiff, 0x0101), ifd_num: In(16), value: Value::Long(hv) });
    }
    assert(fields_view(out@) =~= before + frame_fields(frame));
    push_iso_field(&mut out, props);
    assert(fields_view(out@) =~= synthesized_with(props_view(props@), frame, ev));
    out
}

/// Only what the file states becomes a field: properties none of whose
/// names is one the fields come from, with no picture size, give none.
pub proof fn lemma_unnamed_properties_give_no_fields(props: Seq<(Seq<u16>, Seq<u16>)>)
    requires
        first_prop(props, CAMMANUF@, 0) is None,
        first_prop(props, CAMMODEL@, 0) is None,
        first_prop(props, CAMSERIAL@, 0) is None,
        first_prop(props, TIME@, 0) is None,
        first_prop(props, ISO@, 0) is None,
    ensures
        synthesized(props, None) == Seq::<(Tag, In, ValueView)>::empty(),
{
    assert(synthesized(props, None) =~= Seq::<(Tag, In, ValueView)>::empty());
}

} // verus!
