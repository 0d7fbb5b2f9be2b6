use exif::raf::{get_exif_and_raw_image, is_raf, raw_image_from, RafRawImage, HEADER_LEN};
use exif::Error;

const RAF_MAGIC: &[u8] = b"FUJIFILMCCD-RAW ";

#[test]
fn recognises_the_magic_including_its_trailing_space() {
    assert!(is_raf(b"FUJIFILMCCD-RAW 0201"));
    assert!(!is_raf(b"FUJIFILMCCD-RAW0201"));
    assert!(!is_raf(b"\xff\xd8\xff\xe1"));
    assert!(!is_raf(b""));
}

#[test]
fn refuses_a_truncated_header() {
    let mut short = RAF_MAGIC.to_vec();
    short.resize(64, 0);
    assert!(get_exif_and_raw_image(&short).is_err());
}

#[test]
fn refuses_an_absurd_embedded_length() {
    let mut f = RAF_MAGIC.to_vec();
    f.resize(HEADER_LEN, 0);
    f[84..88].copy_from_slice(&148u32.to_be_bytes());
    f[88..92].copy_from_slice(&u32::MAX.to_be_bytes());
    match get_exif_and_raw_image(&f) {
        Err(Error::InvalidFormat(m)) => assert_eq!(m, "Embedded JPEG too large"),
        other => panic!("expected a refusal, got {:?}", other),
    }
}

fn cfa(records: &[(u16, &[u8])]) -> Vec<u8> {
    let mut b = (records.len() as u32).to_be_bytes().to_vec();
    for &(tag, data) in records {
        b.extend_from_slice(&tag.to_be_bytes());
        b.extend_from_slice(&(data.len() as u16).to_be_bytes());
        b.extend_from_slice(data);
    }
    b
}

#[test]
fn the_cropped_size_is_height_then_width() {
    let block = cfa(&[
        (0x0100, &[0x10, 0x56, 0x18, 0xc0]),
        (0x0111, &[0x10, 0x40, 0x18, 0x60]),
    ]);
    let got = raw_image_from(block.len() as u32, &block);
    assert_eq!(got, Some(RafRawImage { width: 6240, height: 4160 }));
}

#[test]
fn a_raf_without_the_record_reports_nothing() {
    let block = cfa(&[(0x0100, &[0x10, 0x56, 0x18, 0xc0])]);
    assert_eq!(raw_image_from(block.len() as u32, &block), None);
}

#[test]
fn a_truncated_directory_stops() {
    let mut block = cfa(&[(0x0111, &[0x10, 0x40, 0x18, 0x60])]);
    block.truncate(6);
    assert_eq!(raw_image_from(block.len() as u32, &block), None);
    let mut lying = 9999u32.to_be_bytes().to_vec();
    lying.extend_from_slice(&[0, 0, 0, 0]);
    assert_eq!(raw_image_from(lying.len() as u32, &lying), None);
}

#[test]
fn a_zero_length_jpeg_is_absence_not_corruption() {
    let mut f = RAF_MAGIC.to_vec();
    f.resize(HEADER_LEN, 0);
    assert!(matches!(get_exif_and_raw_image(&f), Err(Error::NotFound(_))));
}

#[test]
fn the_embedded_jpeg_gives_the_exif_and_the_cfa_the_size() {
    let jpeg = b"\xff\xd8\xff\xe1\x00\x0aExif\0\0MM\xff\xd9";
    let block = cfa(&[(0x0111, &[0x10, 0x40, 0x18, 0x60])]);
    let mut f = RAF_MAGIC.to_vec();
    f.resize(HEADER_LEN, 0);
    let jpeg_at = f.len() as u32;
    f[84..88].copy_from_slice(&jpeg_at.to_be_bytes());
    f[88..92].copy_from_slice(&(jpeg.len() as u32).to_be_bytes());
    f.extend_from_slice(jpeg);
    let cfa_at = f.len() as u32;
    f[92..96].copy_from_slice(&cfa_at.to_be_bytes());
    f[96..100].copy_from_slice(&(block.len() as u32).to_be_bytes());
    f.extend_from_slice(&block);
    let c = get_exif_and_raw_image(&f).unwrap();
    assert_eq!(c.exif, b"MM");
    assert_eq!(c.jpeg_offset, jpeg_at as u64);
    assert_eq!(c.jpeg_length, jpeg.len() as u32);
    assert_eq!(c.raw_image, Some(RafRawImage { width: 6240, height: 4160 }));
    // A JPEG that runs past the end of the file.
    f[88..92].copy_from_slice(&10_000u32.to_be_bytes());
    assert!(matches!(get_exif_and_raw_image(&f),
                     Err(Error::InvalidFormat("Truncated RAF embedded JPEG"))));
}
