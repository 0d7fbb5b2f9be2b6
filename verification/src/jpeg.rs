use vstd::prelude::*;
use vstd::string::StringExecFns;
use crate::bytes::{spec_u16, load_u16, spec_starts_with, starts_with, matches_at, copy_range};
use crate::error::Error;

verus! {

// The first byte of a marker, and the marker codes.
pub const MARKER_P: u8 = 0xff;
pub const MARKER_Z: u8 = 0x00;
pub const MARKER_TEM: u8 = 0x01;
pub const MARKER_RST0: u8 = 0xd0;
pub const MARKER_RST7: u8 = 0xd7;
pub const MARKER_SOI: u8 = 0xd8;
pub const MARKER_EOI: u8 = 0xd9;
pub const MARKER_SOS: u8 = 0xda;
pub const MARKER_APP1: u8 = 0xe1;
pub const MARKER_APP2: u8 = 0xe2;

/// The SOI marker that starts every JPEG.
pub open spec fn jpeg_sig() -> Seq<u8> { seq![0xffu8, 0xd8] }
/// The Exif identifier code `"Exif\0\0"` [EXIF23 4.7.2].
pub open spec fn exif_id() -> Seq<u8> { seq![0x45u8, 0x78, 0x69, 0x66, 0x00, 0x00] }
/// The MPF identifier `"MPF\0"` of an APP2 segment.
pub open spec fn mpf_id() -> Seq<u8> { seq![0x4du8, 0x50, 0x46, 0x00] }

/// Markers that stand alone, without a length and a segment.
pub open spec fn is_standalone(c: u8) -> bool {
    c == MARKER_Z || c == MARKER_TEM || (MARKER_RST0 <= c <= MARKER_RST7)
}

/// What a search of a JPEG for its Exif segment ends with.
pub ghost enum JpegScan {
    /// The Exif data, the APP1 segment without its identifier.
    Exif(Seq<u8>),
    /// The file ends where more was needed.
    Broken,
    NotJpeg,
    UnexpectedSoi,
    /// The image ends, or its scan data begins, before any Exif segment.
    NotFound,
    /// A segment length below 2.
    BadLength,
}

/// The end of the search, from `pos` on: `in_code` is whether a marker
/// prefix (0xFF) was just read, and `exif` the Exif segment found so far.
///
/// Bytes are skipped up to a marker prefix; fill bytes (further 0xFF)
/// are skipped too. Stand-alone markers are passed over; a segment is read
/// whole. The search ends at EOI, at SOS or at an MPF APP2 once Exif was
/// found, or at the end of the data, where a found segment still counts
/// unless the data ends inside a segment length.
pub open spec fn scan_exif(s: Seq<u8>, pos: int, in_code: bool, exif: Option<Seq<u8>>) -> JpegScan
    decreases s.len() - pos,
{
    if pos < 0 || pos >= s.len() {
        match exif { Some(e) => JpegScan::Exif(e), None => JpegScan::Broken }
    } else if !in_code {
        scan_exif(s, pos + 1, s[pos] == MARKER_P, exif)
    } else {
        let c = s[pos];
        let n = pos + 1;
        if c == MARKER_P {
            scan_exif(s, n, true, exif)
        } else if is_standalone(c) {
            scan_exif(s, n, false, exif)
        } else if c == MARKER_SOI {
            JpegScan::UnexpectedSoi
        } else if c == MARKER_EOI {
            match exif { Some(e) => JpegScan::Exif(e), None => JpegScan::NotFound }
        } else if n + 2 > s.len() {
            JpegScan::Broken
        } else if spec_u16(s, n, false) < 2 {
            JpegScan::BadLength
        } else {
            let start = n + 2;
            let end = start + spec_u16(s, n, false) - 2;
            if end > s.len() {
                match exif { Some(e) => JpegScan::Exif(e), None => JpegScan::Broken }
            } else {
                let seg = s.subrange(start, end);
                if c == MARKER_APP1 && spec_starts_with(seg, exif_id()) {
                    scan_exif(s, end, false, Some(seg.subrange(6, seg.len() as int)))
                } else if c == MARKER_APP2 && exif is Some && spec_starts_with(seg, mpf_id()) {
                    JpegScan::Exif(exif->0)
                } else if c == MARKER_SOS && exif is Some {
                    JpegScan::Exif(exif->0)
                } else {
                    scan_exif(s, end, false, exif)
                }
            }
        }
    }
}

/// What the search of the whole file `s` for its Exif segment finds.
pub open spec fn jpeg_exif(s: Seq<u8>) -> JpegScan {
    if s.len() < 2 {
        JpegScan::Broken
    } else if s.subrange(0, 2) != jpeg_sig() {
        JpegScan::NotJpeg
    } else {
        scan_exif(s, 2, false, None)
    }
}

/// The bytes an optional vector holds.
pub open spec fn opt_bytes(o: Option<Vec<u8>>) -> Option<Seq<u8>> {
    match o { Some(v) => Some(v@), None => None }
}

/// Whether `r` is the error a scan for the Exif segment that ends as
/// `scan` is reported as (anything, where it found the segment).
pub open spec fn jpeg_scan_error<T>(scan: JpegScan, r: Result<T, Error>) -> bool {
    match scan {
        JpegScan::Exif(_) => true,
        JpegScan::Broken => r matches Err(x) && x.is_invalid("Broken JPEG file"),
        JpegScan::NotJpeg => r matches Err(x) && x.is_invalid("Not a JPEG file"),
        JpegScan::UnexpectedSoi => r matches Err(x) && x.is_invalid("Unexpected SOI"),
        JpegScan::NotFound => r matches Err(x) && x.is_not_found("JPEG"),
        JpegScan::BadLength => r matches Err(x) && x.is_invalid("Invalid segment length"),
    }
}

/// Whether `r` is the error a search for the Exif and MPF segments that
/// ends as `scan` is reported as (anything, where it found them).
pub open spec fn segment_scan_error<T>(scan: SegmentScan, r: Result<T, Error>) -> bool {
    match scan {
        SegmentScan::Found(_, _, _) => true,
        SegmentScan::Eof => r matches Err(x) && x is Io,
        SegmentScan::NotJpeg => r matches Err(x) && x.is_invalid("Not a JPEG file"),
        SegmentScan::UnexpectedSoi => r matches Err(x) && x.is_invalid("Unexpected SOI"),
        SegmentScan::NotFound => r matches Err(x) && x.is_not_found("JPEG"),
        SegmentScan::BadLength => r matches Err(x) && x.is_invalid("Invalid segment length"),
    }
}

/// Tests whether `buf` starts with the SOI marker.
pub fn is_jpeg(buf: &[u8]) -> (r: bool)
    ensures
        r == spec_starts_with(buf@, jpeg_sig()),
{
    let sig: [u8; 2] = [MARKER_P, MARKER_SOI];
    assert(sig@ =~= jpeg_sig());
    starts_with(buf, &sig)
}

/// Gets the Exif attribute information segment from a JPEG file.
///
/// The APP2 (MPF) segment that may follow it is optional.
pub fn get_exif_attr(data: &[u8]) -> (r: Result<Vec<u8>, Error>)
    ensures
        match jpeg_exif(data@) {
            JpegScan::Exif(e) => r matches Ok(v) && v@ == e,
            JpegScan::Broken => r matches Err(x) && x.is_invalid("Broken JPEG file"),
            JpegScan::NotJpeg => r matches Err(x) && x.is_invalid("Not a JPEG file"),
            JpegScan::UnexpectedSoi => r matches Err(x) && x.is_invalid("Unexpected SOI"),
            JpegScan::NotFound => r matches Err(x) && x.is_not_found("JPEG"),
            JpegScan::BadLength => r matches Err(x) && x.is_invalid("Invalid segment length"),
        },
{
    let ghost s = data@;
    if data.len() < 2 {
        return Err(Error::InvalidFormat("Broken JPEG file"));
    }
    let sig: [u8; 2] = [MARKER_P, MARKER_SOI];
    assert(sig@ =~= jpeg_sig());
    if !matches_at(data, 0, &sig) {
        return Err(Error::InvalidFormat("Not a JPEG file"));
    }
    let exif_sig: [u8; 6] = [0x45, 0x78, 0x69, 0x66, 0x00, 0x00];
    let mpf_sig: [u8; 4] = [0x4d, 0x50, 0x46, 0x00];
    assert(exif_sig@ =~= exif_id());
    assert(mpf_sig@ =~= mpf_id());
    let mut pos: usize = 2;
    let mut in_code = false;
    let mut exif: Option<Vec<u8>> = None;
    loop
        invariant
            s == data@,
            2 <= pos <= s.len(),
            exif_sig@ == exif_id(),
            mpf_sig@ == mpf_id(),
            scan_exif(s, pos as int, in_code, opt_bytes(exif)) == jpeg_exif(s),
        decreases s.len() - pos,
    {
        if pos >= data.len() {
            return match exif {
                Some(e) => Ok(e),
                None => Err(Error::InvalidFormat("Broken JPEG file")),
            };
        }
        let c = data[pos];
        if !in_code {
            in_code = c == MARKER_P;
            pos = pos + 1;
            continue;
        }
        let n = pos + 1;
        if c == MARKER_P {
            pos = n;
            continue;
        }
        if c == MARKER_Z || c == MARKER_TEM || (MARKER_RST0 <= c && c <= MARKER_RST7) {
            in_code = false;
            pos = n;
            continue;
        }
        if c == MARKER_SOI {
            return Err(Error::InvalidFormat("Unexpected SOI"));
        }
        if c == MARKER_EOI {
            return match exif {
                Some(e) => Ok(e),
                None => Err(Error::NotFound("JPEG")),
            };
        }
        if data.len() - n < 2 {
            return Err(Error::InvalidFormat("Broken JPEG file"));
        }
        let len = load_u16(data, n, false) as usize;
        if len < 2 {
            return Err(Error::InvalidFormat("Invalid segment length"));
        }
        let start = n + 2;
        if data.len() - start < len - 2 {
            return match exif {
                Some(e) => Ok(e),
                None => Err(Error::InvalidFormat("Broken JPEG file")),
            };
        }
        let end = start + (len - 2);
        proof {
            let seg = s.subrange(start as int, end as int);
            assert(seg.len() >= 6 ==> seg.subrange(0, 6) =~= s.subrange(start as int, start + 6));
            assert(seg.len() >= 4 ==> seg.subrange(0, 4) =~= s.subrange(start as int, start + 4));
        }
        if c == MARKER_APP1 && len - 2 >= 6 && matches_at(data, start, &exif_sig) {
            let e = copy_range(data, start + 6, end);
            proof {
                let seg = s.subrange(start as int, end as int);
                assert(e@ =~= seg.subrange(6, seg.len() as int));
            }
            exif = Some(e);
            in_code = false;
            pos = end;
            continue;
        }
        if c == MARKER_APP2 && exif.is_some() && len - 2 >= 4 && matches_at(data, start, &mpf_sig) {
            return match exif {
                Some(e) => Ok(e),
                None => Err(Error::InvalidFormat("Broken JPEG file")),
            };
        }
        if c == MARKER_SOS && exif.is_some() {
            return match exif {
                Some(e) => Ok(e),
                None => Err(Error::InvalidFormat("Broken JPEG file")),
            };
        }
        in_code = false;
        pos = end;
    }
}

/// The APP segments of a JPEG that carry metadata.
pub struct JpegSegments {
    /// Exif data from the APP1 segment.
    pub exif_data: Vec<u8>,
    /// MPF data from the APP2 segment, if present.
    pub mpf_data: Option<Vec<u8>>,
    /// The offset in the file where the MPF data (after its identifier)
    /// begins; 0 when there is none.
    pub mpf_app2_offset: u64,
}

/// What a search of a JPEG for its Exif and MPF segments ends with.
pub ghost enum SegmentScan {
    /// The Exif data, the MPF data if found, and where the MPF data begins.
    Found(Seq<u8>, Option<Seq<u8>>, int),
    /// The data ends where more was needed.
    Eof,
    NotJpeg,
    UnexpectedSoi,
    NotFound,
    BadLength,
}

/// The end of the search for the Exif and MPF segments from `pos` on.
///
/// As `scan_exif`, except that running out of data always fails, a later
/// Exif segment replaces an earlier one, SOS ends the search whether Exif
/// was found or not, and an MPF APP2 after the Exif segment is returned
/// with it, together with its position.
pub open spec fn scan_segments(s: Seq<u8>, pos: int, in_code: bool, exif: Option<Seq<u8>>) -> SegmentScan
    decreases s.len() - pos,
{
    if pos < 0 || pos >= s.len() {
        SegmentScan::Eof
    } else if !in_code {
        scan_segments(s, pos + 1, s[pos] == MARKER_P, exif)
    } else {
        let c = s[pos];
        let n = pos + 1;
        if c == MARKER_P {
            scan_segments(s, n, true, exif)
        } else if is_standalone(c) {
            scan_segments(s, n, false, exif)
        } else if c == MARKER_SOI {
            SegmentScan::UnexpectedSoi
        } else if c == MARKER_EOI {
            match exif { Some(e) => SegmentScan::Found(e, None, 0), None => SegmentScan::NotFound }
        } else if n + 2 > s.len() {
            SegmentScan::Eof
        } else if spec_u16(s, n, false) < 2 {
            SegmentScan::BadLength
        } else {
            let start = n + 2;
            let end = start + spec_u16(s, n, false) - 2;
            if end > s.len() {
                SegmentScan::Eof
            } else {
                let seg = s.subrange(start, end);
                if c == MARKER_APP1 && spec_starts_with(seg, exif_id()) {
                    scan_segments(s, end, false, Some(seg.subrange(6, seg.len() as int)))
                } else if c == MARKER_APP2 && exif is Some && spec_starts_with(seg, mpf_id()) {
                    SegmentScan::Found(exif->0, Some(seg.subrange(4, seg.len() as int)), start + 4)
                } else if c == MARKER_SOS {
                    match exif { Some(e) => SegmentScan::Found(e, None, 0), None => SegmentScan::NotFound }
                } else {
                    scan_segments(s, end, false, exif)
                }
            }
        }
    }
}

/// The Exif data a search finds lies within the file searched.
pub proof fn lemma_scan_exif_len(s: Seq<u8>, pos: int, in_code: bool, exif: Option<Seq<u8>>)
    requires
        exif matches Some(e) ==> e.len() <= s.len(),
    ensures
        scan_segments(s, pos, in_code, exif) matches SegmentScan::Found(e, _, _) ==> e.len() <= s.len(),
    decreases s.len() - pos,
{
    if pos < 0 || pos >= s.len() {
    } else if !in_code {
        lemma_scan_exif_len(s, pos + 1, s[pos] == MARKER_P, exif);
    } else {
        let n = pos + 1;
        if n + 2 <= s.len() && spec_u16(s, n, false) >= 2 {
            let start = n + 2;
            let end = start + spec_u16(s, n, false) - 2;
            if end <= s.len() {
                let seg = s.subrange(start, end);
                if seg.len() >= 6 {
                    lemma_scan_exif_len(s, end, false, Some(seg.subrange(6, seg.len() as int)));
                }
                lemma_scan_exif_len(s, end, false, exif);
            }
        }
        lemma_scan_exif_len(s, n, true, exif);
        lemma_scan_exif_len(s, n, false, exif);
    }
}

/// The Exif data a scan of a JPEG finds lies within the JPEG.
pub proof fn lemma_scan_exif_bound(s: Seq<u8>, pos: int, in_code: bool, exif: Option<Seq<u8>>)
    requires
        exif matches Some(e) ==> e.len() <= s.len(),
    ensures
        scan_exif(s, pos, in_code, exif) matches JpegScan::Exif(e) ==> e.len() <= s.len(),
    decreases s.len() - pos,
{
    if pos < 0 || pos >= s.len() {
    } else if !in_code {
        lemma_scan_exif_bound(s, pos + 1, s[pos] == MARKER_P, exif);
    } else {
        let n = pos + 1;
        if n + 2 <= s.len() && spec_u16(s, n, false) >= 2 {
            let start = n + 2;
            let end = start + spec_u16(s, n, false) - 2;
            if end <= s.len() {
                let seg = s.subrange(start, end);
                if seg.len() >= 6 {
                    lemma_scan_exif_bound(s, end, false, Some(seg.subrange(6, seg.len() as int)));
                }
                lemma_scan_exif_bound(s, end, false, exif);
            }
        }
        lemma_scan_exif_bound(s, n, true, exif);
        lemma_scan_exif_bound(s, n, false, exif);
    }
}

/// The Exif data found in a JPEG lies within it.
pub proof fn lemma_exif_len(s: Seq<u8>)
    ensures
        jpeg_exif(s) matches JpegScan::Exif(e) ==> e.len() <= s.len(),
{
    lemma_scan_exif_bound(s, 2, false, None);
}

/// What the search of the whole file `s` for its Exif and MPF segments finds.
pub open spec fn jpeg_segments(s: Seq<u8>) -> SegmentScan {
    if s.len() < 2 {
        SegmentScan::Eof
    } else if s.subrange(0, 2) != jpeg_sig() {
        SegmentScan::NotJpeg
    } else {
        scan_segments(s, 2, false, None)
    }
}

/// The error reading past the end of the data gives.
pub(crate) fn eof_error() -> (e: Error)
    ensures
        e is Io,
{
    Error::Io(String::from_str("failed to fill whole buffer"))
}

/// Gets the Exif (APP1) segment of a JPEG file and the MPF (APP2) segment
/// that may follow it, with the MPF data's position in the file.
pub fn get_exif_and_mpf_sub(data: &[u8]) -> (r: Result<JpegSegments, Error>)
    ensures
        match jpeg_segments(data@) {
            SegmentScan::Found(e, m, o) => r matches Ok(js) && js.exif_data@ == e
                && opt_bytes(js.mpf_data) == m && js.mpf_app2_offset == o,
            SegmentScan::Eof => r matches Err(x) && x is Io,
            SegmentScan::NotJpeg => r matches Err(x) && x.is_invalid("Not a JPEG file"),
            SegmentScan::UnexpectedSoi => r matches Err(x) && x.is_invalid("Unexpected SOI"),
            SegmentScan::NotFound => r matches Err(x) && x.is_not_found("JPEG"),
            SegmentScan::BadLength => r matches Err(x) && x.is_invalid("Invalid segment length"),
        },
{
    let ghost s = data@;
    if data.len() < 2 {
        return Err(eof_error());
    }
    let sig: [u8; 2] = [MARKER_P, MARKER_SOI];
    assert(sig@ =~= jpeg_sig());
    if !matches_at(data, 0, &sig) {
        return Err(Error::InvalidFormat("Not a JPEG file"));
    }
    let exif_sig: [u8; 6] = [0x45, 0x78, 0x69, 0x66, 0x00, 0x00];
    let mpf_sig: [u8; 4] = [0x4d, 0x50, 0x46, 0x00];
    assert(exif_sig@ =~= exif_id());
    assert(mpf_sig@ =~= mpf_id());
    let mut pos: usize = 2;
    let mut in_code = false;
    let mut exif: Option<Vec<u8>> = None;
    loop
        invariant
            s == data@,
            s.len() <= u64::MAX,
            2 <= pos <= s.len(),
            exif_sig@ == exif_id(),
            mpf_sig@ == mpf_id(),
            scan_segments(s, pos as int, in_code, opt_bytes(exif)) == jpeg_segments(s),
        decreases s.len() - pos,
    {
        if pos >= data.len() {
            return Err(eof_error());
        }
        let c = data[pos];
        if !in_code {
            in_code = c == MARKER_P;
            pos = pos + 1;
            continue;
        }
        let n = pos + 1;
        if c == MARKER_P {
            pos = n;
            continue;
        }
        if c == MARKER_Z || c == MARKER_TEM || (MARKER_RST0 <= c && c <= MARKER_RST7) {
            in_code = false;
            pos = n;
            continue;
        }
        if c == MARKER_SOI {
            return Err(Error::InvalidFormat("Unexpected SOI"));
        }
        if c == MARKER_EOI {
            return match exif {
                Some(e) => Ok(JpegSegments { exif_data: e, mpf_data: None, mpf_app2_offset: 0 }),
                None => Err(Error::NotFound("JPEG")),
            };
        }
        if data.len() - n < 2 {
            return Err(eof_error());
        }
        let len = load_u16(data, n, false) as usize;
        if len < 2 {
            return Err(Error::InvalidFormat("Invalid segment length"));
        }
        let start = n + 2;
        if data.len() - start < len - 2 {
            return Err(eof_error());
        }
        let end = start + (len - 2);
        proof {
            let seg = s.subrange(start as int, end as int);
            assert(seg.len() >= 6 ==> seg.subrange(0, 6) =~= s.subrange(start as int, start + 6));
            assert(seg.len() >= 4 ==> seg.subrange(0, 4) =~= s.subrange(start as int, start + 4));
        }
        if c == MARKER_APP1 && len - 2 >= 6 && matches_at(data, start, &exif_sig) {
            let e = copy_range(data, start + 6, end);
            proof {
                let seg = s.subrange(start as int, end as int);
                assert(e@ =~= seg.subrange(6, seg.len() as int));
            }
            exif = Some(e);
            in_code = false;
            pos = end;
            continue;
        }
        if c == MARKER_APP2 && exif.is_some() && len - 2 >= 4 && matches_at(data, start, &mpf_sig) {
            let m = copy_range(data, start + 4, end);
            proof {
                let seg = s.subrange(start as int, end as int);
                assert(m@ =~= seg.subrange(4, seg.len() as int));
            }
            return match exif {
                Some(e) => Ok(JpegSegments { exif_data: e, mpf_data: Some(m), mpf_app2_offset: (start + 4) as u64 }),
                None => Err(Error::NotFound("JPEG")),
            };
        }
        if c == MARKER_SOS {
            return match exif {
                Some(e) => Ok(JpegSegments { exif_data: e, mpf_data: None, mpf_app2_offset: 0 }),
                None => Err(Error::NotFound("JPEG")),
            };
        }
        in_code = false;
        pos = end;
    }
}

} // verus!
