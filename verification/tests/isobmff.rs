use exif::isobmff::crx::{get_exif_attr_vec, is_crx, preview_boxes};
use exif::isobmff::{get_exif_attr, is_heif, BoxSplitter};
use exif::Error;

#[test]
fn unknown_before_ftyp() {
    let data =
        b"\0\0\0\x09XXXXx\
          \0\0\0\x14ftypmif1\0\0\0\0mif1\
          \0\0\0\x57meta\0\0\0\0\
              \0\0\0\x18iloc\x01\0\0\0\0\0\0\x01\x1e\x1d\0\x01\0\0\0\x01\
              \0\0\0\x22iinf\0\0\0\0\0\x01\
                  \0\0\0\x14infe\x02\0\0\0\x1e\x1d\0\0Exif\
              \0\0\0\x11idat\0\0\0\x01xabcd";
    assert!(is_heif(data));
    let exif = get_exif_attr(&data[..]).unwrap();
    assert_eq!(exif, b"abcd");
}

#[test]
fn bad_exif_data_block() {
    let data =
        b"\0\0\0\x14ftypmif1\0\0\0\0mif1\
          \0\0\0\x52meta\0\0\0\0\
              \0\0\0\x18iloc\x01\0\0\0\0\0\0\x01\x1e\x1d\0\x01\0\0\0\x01\
              \0\0\0\x22iinf\0\0\0\0\0\x01\
                  \0\0\0\x14infe\x02\0\0\0\x1e\x1d\0\0Exif\
              \0\0\0\x0cidat\0\0\0\x01";
    assert!(matches!(get_exif_attr(&data[..]),
                     Err(Error::InvalidFormat("Invalid Exif header offset"))));

    let data =
        b"\0\0\0\x14ftypmif1\0\0\0\0mif1\
          \0\0\0\x51meta\0\0\0\0\
              \0\0\0\x18iloc\x01\0\0\0\0\0\0\x01\x1e\x1d\0\x01\0\0\0\x01\
              \0\0\0\x22iinf\0\0\0\0\0\x01\
                  \0\0\0\x14infe\x02\0\0\0\x1e\x1d\0\0Exif\
              \0\0\0\x0bidat\0\0\0";
    assert!(matches!(get_exif_attr(&data[..]),
                     Err(Error::InvalidFormat("ExifDataBlock too small"))));
}

#[test]
fn heif_errors_by_kind() {
    // A meta box before the file type box.
    let data = b"\0\0\0\x0cmeta\0\0\0\0";
    assert!(matches!(get_exif_attr(&data[..]),
                     Err(Error::InvalidFormat("MetaBox found before FileTypeBox"))));
    // No meta box at all.
    let data = b"\0\0\0\x14ftypmif1\0\0\0\0mif1";
    assert!(matches!(get_exif_attr(&data[..]), Err(Error::NotFound("HEIF"))));
    // A box that claims more than the file holds.
    let data = b"\0\0\0\x20ftypmif1\0\0\0\0mif1";
    assert!(matches!(get_exif_attr(&data[..]),
                     Err(Error::InvalidFormat("Broken HEIF file"))));
    // The wrong brand.
    let data = b"\0\0\0\x14ftypmp41\0\0\0\0mp41";
    assert!(matches!(get_exif_attr(&data[..]),
                     Err(Error::InvalidFormat("No compatible brand recognized in ISO base media file"))));
}

#[test]
fn heif_extents_in_the_file() {
    // Construction method 0: the extent is addressed in the file itself.
    let mut data = b"\0\0\0\x14ftypmif1\0\0\0\0mif1\
          \0\0\0\x4cmeta\0\0\0\0\
              \0\0\0\x1eiloc\0\0\0\0\x44\0\0\x01\x1e\x1d\0\0\0\x01\0\0\0\x60\0\0\0\x08\
              \0\0\0\x22iinf\0\0\0\0\0\x01\
                  \0\0\0\x14infe\x02\0\0\0\x1e\x1d\0\0Exif".to_vec();
    assert_eq!(data.len(), 0x60);
    data.extend_from_slice(b"\0\0\0\x02..MM");
    let exif = get_exif_attr(&data[..]).unwrap();
    assert_eq!(exif, b"MM");
}

#[test]
fn is_heif_test() {
    assert!(is_heif(b"\0\0\0\x14ftypmif1\0\0\0\0mif1"));
    assert!(is_heif(b"\0\0\0\x18ftypheic\0\0\0\0heicmif1"));
    assert!(is_heif(b"\0\0\0\x18ftyphevc\0\0\0\0msf1hevc"));
    assert!(is_heif(b"\0\0\0\x18ftypXXXX\0\0\0\0XXXXmif1"));
    assert!(is_heif(b"\0\0\0\x15ftypmif1\0\0\0\0mif1h"));
    assert!(is_heif(b"\0\0\0\x16ftypmif1\0\0\0\0mif1he"));
    assert!(is_heif(b"\0\0\0\x17ftypmif1\0\0\0\0mif1hei"));
    assert!(!is_heif(b"\0\0\0\x14ftypmp41\0\0\0\0mp41"));
    assert!(!is_heif(b"\0\0\0\x10ftypmif1\0\0\0\0"));
    let mut data: &[u8] = b"\0\0\0\x14ftypmif1\0\0\0\0mif1";
    while let Some((_, rest)) = data.split_last() {
        data = rest;
        assert!(!is_heif(data));
    }
    assert!(!is_heif(b"\0\0\0\x13ftypmif1\0\0\0\0mif1"));
}

#[test]
fn box_splitter() {
    let buf = b"0123456789abcdef";
    let mut boxp = BoxSplitter::new(buf);
    assert!(matches!(boxp.slice(17), Err(Error::InvalidFormat(_))));
    assert_eq!(boxp.slice(16).unwrap(), buf);
    assert!(matches!(boxp.slice(std::usize::MAX), Err(Error::InvalidFormat(_))));

    let mut boxp = BoxSplitter::new(buf);
    assert_eq!(boxp.slice(1).unwrap(), b"0");
    assert_eq!(boxp.uint16().unwrap(), 0x3132);
    assert_eq!(boxp.uint32().unwrap(), 0x33343536);
    assert_eq!(boxp.uint64().unwrap(), 0x3738396162636465);
}

#[test]
fn child_boxes_and_fullbox_headers() {
    let buf = b"\0\0\0\x0cabcd\x01\x00\x00\x07rest";
    let mut boxp = BoxSplitter::new(buf);
    let (t, mut body) = boxp.child_box().unwrap();
    assert_eq!(t, b"abcd");
    assert_eq!(body.fullbox_header().unwrap(), (1, 7));
    assert!(body.is_empty());
    assert_eq!(boxp.len(), 4);
    let mut b = BoxSplitter::new(b"\0\0\0\x07abcd");
    assert!(matches!(b.child_box(), Err(Error::InvalidFormat("Invalid box size"))));
    let mut b = BoxSplitter::new(b"\0\0\0\x01abcd\0\0\0\0\0\0\0\x10");
    let (t, body) = b.child_box().unwrap();
    assert_eq!(t, b"abcd");
    assert_eq!(body.len(), 0);
    let mut b = BoxSplitter::new(b"\0\0\0\x01abcd\0\0\0\0\0\0\0\x0f");
    assert!(matches!(b.child_box(), Err(Error::InvalidFormat("Invalid box size"))));
    let mut b = BoxSplitter::new(b"\0\0\0\0abcdxyz");
    let (_, body) = b.child_box().unwrap();
    assert_eq!(body.len(), 3);
    let mut b = BoxSplitter::new(b"\0\0\0\x10abcd");
    assert!(matches!(b.child_box(), Err(Error::InvalidFormat("Box too small"))));
    let mut b = BoxSplitter::new(b"\0\0\0\x01\0\0\0\x02");
    assert_eq!(b.size048(4).unwrap(), Some(1));
    assert_eq!(b.size048(0).unwrap(), Some(0));
    assert_eq!(b.size048(3).unwrap(), None);
    assert!(matches!(b.size048(8), Err(Error::InvalidFormat("Box too small"))));
}

fn cr3(moov_body: &[u8]) -> Vec<u8> {
    let mut f = b"\0\0\0\x18ftypcrx \0\0\0\x01crx isom".to_vec();
    f.extend_from_slice(&((moov_body.len() + 8) as u32).to_be_bytes());
    f.extend_from_slice(b"moov");
    f.extend_from_slice(moov_body);
    f
}

#[test]
fn cr3_metadata_boxes_come_in_order() {
    let mut uuid = Vec::new();
    let canon: [u8; 16] = [0x85, 0xc0, 0xb6, 0x87, 0x82, 0x0f, 0x11, 0xe0, 0x81, 0x11, 0xf4, 0xce, 0x46, 0x2b, 0x6a, 0x48];
    uuid.extend_from_slice(canon.as_slice());
    uuid.extend_from_slice(b"\0\0\0\x0aCMT1ab\0\0\0\x09CMT2c");
    let mut moov = Vec::new();
    moov.extend_from_slice(&((uuid.len() + 8) as u32).to_be_bytes());
    moov.extend_from_slice(b"uuid");
    moov.extend_from_slice(&uuid);
    moov.extend_from_slice(b"\0\0\0\x09CMT4d");
    let f = cr3(&moov);
    assert!(is_crx(&f));
    assert!(!is_heif(&f));
    let v = get_exif_attr_vec(&f).unwrap();
    assert_eq!(v, vec![b"ab".to_vec(), b"c".to_vec(), b"d".to_vec()]);
    assert_eq!(exif::isobmff::crx::get_exif_attr(&f).unwrap(), b"ab");
    let f = cr3(b"\0\0\0\x08free");
    assert!(matches!(get_exif_attr_vec(&f), Err(Error::NotFound("CR3"))));
}

#[test]
fn cr3_previews_are_found_in_their_boxes() {
    // A THMB box whose JPEG starts 24 bytes in, inside moov.
    let mut thmb = b"\0\0\0\x20THMB".to_vec();
    thmb.extend_from_slice(&[0; 16]);
    thmb.extend_from_slice(b"\xff\xd8\xff\xd9\0\0\0\0");
    let mut f = cr3(&thmb);
    let found = preview_boxes(&f).unwrap();
    // ftyp is 24 bytes, moov's header 8: the THMB box is at 32.
    assert_eq!(found, vec![(32 + 24, 8)]);
    // A box whose SOI is missing is not reported.
    f[32 + 24] = 0;
    assert!(preview_boxes(&f).unwrap().is_empty());
}
