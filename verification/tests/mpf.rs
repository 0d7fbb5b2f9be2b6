use exif::mpf::mpf_tag::{parse_mp_entry, MpImageAttr, MpImageType, MpfTag};
use exif::mpf::{get_mpf_info, parse_mpf, MPF_ID};

#[test]
fn mpf_identifier() {
    assert_eq!(&MPF_ID, b"MPF\0");
}

/// A big-endian MPF index IFD: version, number of images, and an MPEntry
/// of `entries` 16-byte entries stored at offset 50.
fn mpf_segment(entries: &[(u32, u32, u32)], number: u32) -> Vec<u8> {
    let mut m = b"MM\0\x2a\0\0\0\x08".to_vec();
    m.extend_from_slice(&3u16.to_be_bytes());
    m.extend_from_slice(&0xb000u16.to_be_bytes());
    m.extend_from_slice(&7u16.to_be_bytes());
    m.extend_from_slice(&4u32.to_be_bytes());
    m.extend_from_slice(b"0100");
    m.extend_from_slice(&0xb001u16.to_be_bytes());
    m.extend_from_slice(&4u16.to_be_bytes());
    m.extend_from_slice(&1u32.to_be_bytes());
    m.extend_from_slice(&number.to_be_bytes());
    m.extend_from_slice(&0xb002u16.to_be_bytes());
    m.extend_from_slice(&7u16.to_be_bytes());
    m.extend_from_slice(&((entries.len() * 16) as u32).to_be_bytes());
    m.extend_from_slice(&50u32.to_be_bytes());
    m.extend_from_slice(&0u32.to_be_bytes());
    assert_eq!(m.len(), 50);
    for &(attr, size, offset) in entries {
        m.extend_from_slice(&attr.to_be_bytes());
        m.extend_from_slice(&size.to_be_bytes());
        m.extend_from_slice(&offset.to_be_bytes());
        m.extend_from_slice(&[0, 0, 0, 0]);
    }
    m
}

fn jpeg_with(mpf: &[u8]) -> Vec<u8> {
    let mut f = b"\xff\xd8\xff\xe1\x00\x08Exif\0\0".to_vec();
    f.extend_from_slice(b"\xff\xe2");
    f.extend_from_slice(&((mpf.len() + 6) as u16).to_be_bytes());
    f.extend_from_slice(b"MPF\0");
    f.extend_from_slice(mpf);
    f.extend_from_slice(b"\xff\xd9");
    f
}

#[test]
fn mpf_info_counts_offsets_from_the_mpf_header() {
    let seg = mpf_segment(&[(0x2002_0000, 1000, 0), (0x0001_0000, 60000, 700)], 2);
    let f = jpeg_with(&seg);
    let info = get_mpf_info(&f).unwrap().unwrap();
    assert_eq!(info.version, "01.00");
    assert_eq!(info.number_of_images, 2);
    assert_eq!(info.images.len(), 2);
    // The APP2 marker is at 12, so the MPF header is at 20.
    assert_eq!(info.images[0].offset, 20);
    assert_eq!(info.images[1].offset, 720);
    assert_eq!(info.images[1].length, 60000);
    assert_eq!(info.get_primary_image().unwrap().length, 1000);
    assert_eq!(info.get_preview_image().unwrap().offset, 720);
}

#[test]
fn mpf_info_errors() {
    let seg = mpf_segment(&[(0, 1, 0)], 2);
    assert!(matches!(get_mpf_info(&jpeg_with(&seg)),
                     Err(exif::Error::InvalidFormat("MPEntry count mismatch"))));
    assert!(get_mpf_info(b"\xff\xd8\xff\xd9").unwrap().is_none());
    assert!(matches!(get_mpf_info(b"\xff\xd8\xff\xe2"),
                     Err(exif::Error::InvalidFormat("Broken JPEG file"))));
}

#[test]
fn extract_data_takes_the_stated_bytes() {
    let seg = mpf_segment(&[(0, 4, 0)], 1);
    let f = jpeg_with(&seg);
    let info = get_mpf_info(&f).unwrap().unwrap();
    assert_eq!(info.images[0].extract_data(&f).unwrap(), b"MM\0\x2a");
    let far = exif::mpf::MpImage { image_type: 0, length: 10, offset: f.len() as u64 };
    assert!(matches!(far.extract_data(&f), Err(exif::Error::Io(_))));
}

#[test]
fn parse_mpf_makes_the_entry_offsets_absolute() {
    let mut seg = mpf_segment(&[(0, 1, 5), (0, 2, 0xffff_ffff)], 2);
    let before = seg.clone();
    let fields = parse_mpf(&mut seg, 100).unwrap();
    let tags: Vec<MpfTag> = fields.iter().map(|f| f.tag).collect();
    assert_eq!(tags, vec![MpfTag(0xb000), MpfTag(0xb001), MpfTag(0xb002)]);
    assert_eq!(fields[1].value.get_uint(0), Some(2));
    // The MPEntry is read after its offsets were made absolute.
    match &fields[2].value {
        exif::Value::Undefined(d, o) => {
            assert_eq!(*o, 50);
            assert_eq!(&d[8..12], &105u32.to_be_bytes());
        },
        v => panic!("{:?}", v),
    }
    assert_eq!(&seg[50 + 8..50 + 12], &105u32.to_be_bytes());
    assert_eq!(&seg[66 + 8..66 + 12], &99u32.to_be_bytes());
    assert_eq!(&seg[..58], &before[..58]);
}

#[test]
fn mp_entries_and_their_attributes() {
    let mut d = Vec::new();
    d.extend_from_slice(&0x0300_0000u32.to_le_bytes());
    d.extend_from_slice(&77u32.to_le_bytes());
    d.extend_from_slice(&88u32.to_le_bytes());
    d.extend_from_slice(&[1, 0, 2, 0]);
    d.extend_from_slice(&[9, 9, 9]);
    let e = parse_mp_entry(&d, true);
    assert_eq!(e.len(), 1);
    assert_eq!(e[0].image_size, 77);
    assert_eq!(e[0].image_data_offset, 88);
    assert_eq!(e[0].image_type(), MpImageType::MultiFrame);
    assert!(!e[0].is_primary());
    assert!(!e[0].is_representative());
    assert_eq!(e[0].image_attr(), 0x0300_0000);
    let a = MpImageAttr::from_attr(0x4100_0000);
    assert!(a.is_representative);
    assert!(a.image_type.is_thumbnail());
    assert_eq!(MpImageType::from_attr(0x0000_0000), MpImageType::BaselinePrimary);
    assert_eq!(MpImageType::from_attr(0x0f00_0000), MpImageType::Unknown);
    assert_eq!(MpfTag::MPEntry().description(), "MP entry");
    assert_eq!(MpfTag(0x1234).description(), "Unknown MPF tag");
}

#[test]
fn parse_mpf_reports_what_stops_the_parse() {
    let mut bad = b"XX\0\x2a\0\0\0\x08".to_vec();
    assert!(matches!(parse_mpf(&mut bad, 0), Err(exif::Error::InvalidFormat("Invalid TIFF byte order"))));
    let mut truncated = b"MM\0\x2a\0\0\0\x08\0\x03".to_vec();
    assert!(matches!(parse_mpf(&mut truncated, 0), Err(exif::Error::InvalidFormat("Truncated IFD"))));
}
