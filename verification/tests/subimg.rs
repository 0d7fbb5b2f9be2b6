use exif::subimg::{is_jpeg_start, EmbeddedSubImage, EmbeddedSubImageSource};
use exif::In;

fn jpeg(w: u16, h: u16) -> Vec<u8> {
    let mut b = vec![0xFF, 0xD8];
    b.extend_from_slice(&[0xFF, 0xE0, 0x00, 0x08, 1, 2, 3, 4, 5, 6]);
    b.extend_from_slice(&[0xFF, 0xC0, 0x00, 0x11, 8]);
    b.extend_from_slice(&h.to_be_bytes());
    b.extend_from_slice(&w.to_be_bytes());
    b.extend_from_slice(&[3, 1, 0x22, 0, 2, 0x11, 1, 3, 0x11, 1]);
    b.extend_from_slice(&[0xFF, 0xD9]);
    b
}

fn at(data: Vec<u8>, offset: u64) -> (Vec<u8>, EmbeddedSubImage) {
    let mut file = vec![0u8; offset as usize];
    let len = data.len() as u32;
    file.extend_from_slice(&data);
    (file, EmbeddedSubImage::new_thumbnail(len, offset))
}

#[test]
fn dimensions_come_from_the_frame_header() {
    let (file, img) = at(jpeg(1616, 1080), 64);
    assert_eq!(img.dimensions(&file).unwrap(), (1616, 1080));
}

#[test]
fn a_clobbered_soi_is_still_a_jpeg_start() {
    assert!(is_jpeg_start(&[0x02, 0xD8, 0xFF, 0xDB]));
    assert!(is_jpeg_start(&[0x00, 0xD8, 0xFF, 0xDB]));
    assert!(is_jpeg_start(&[0xFF, 0xD8, 0xFF, 0xC4]));
    assert!(!is_jpeg_start(&[0x00, 0x00, 0x00, 0x00]));
    assert!(!is_jpeg_start(&[0xFF, 0xD8]));
    assert!(is_jpeg_start(&[0x02, 0xD8, 0xFF, 0xDB, 0x00, 0x84]));
}

#[test]
fn a_stated_size_is_not_re_read() {
    let (_file, mut img) = at(jpeg(1616, 1080), 0);
    img.width = Some(4);
    img.height = Some(5);
    assert_eq!(img.dimensions(&[]).unwrap(), (4, 5));
}

#[test]
fn a_length_past_the_end_is_refused_not_allocated() {
    let (file, mut img) = at(jpeg(64, 48), 0);
    img.length = u32::MAX;
    assert!(img.extract_data(&file).is_err());
}

#[test]
fn fill_bytes_before_a_marker_are_skipped() {
    let mut data = vec![0xFF, 0xD8, 0xFF, 0xFF, 0xFF];
    data.extend_from_slice(&[0xC0, 0x00, 0x11, 8]);
    data.extend_from_slice(&300u16.to_be_bytes());
    data.extend_from_slice(&400u16.to_be_bytes());
    data.extend_from_slice(&[3, 1, 0x22, 0, 2, 0x11, 1, 3, 0x11, 1, 0xFF, 0xD9]);
    let (file, img) = at(data, 0);
    assert_eq!(img.dimensions(&file).unwrap(), (400, 300));
}

#[test]
fn scan_data_is_not_parsed_as_segments() {
    let mut data = vec![0xFF, 0xD8];
    data.extend_from_slice(&[0xFF, 0xDA, 0x00, 0x08, 1, 1, 0, 0, 0x3F, 0]);
    data.extend_from_slice(&[0xFF, 0xC0, 0x00, 0x11, 8, 0, 64, 0, 64]);
    data.extend_from_slice(&[0xFF, 0xD9]);
    let (file, img) = at(data, 0);
    assert!(img.dimensions(&file).is_err(), "scan data must not yield dimensions");
}

#[test]
fn a_chain_that_never_ends_is_refused() {
    let mut data = vec![0xFF, 0xD8, 0xFF, 0xE0, 0xFF, 0xFF];
    data.resize(64, 0);
    let (file, img) = at(data, 0);
    assert!(img.dimensions(&file).is_err());
}

#[test]
fn something_that_is_not_a_jpeg_is_refused() {
    let (file, img) = at(vec![0x00; 32], 0);
    assert!(img.dimensions(&file).is_err());
}

#[test]
fn extraction_restores_a_clobbered_soi() {
    let mut data = jpeg(8, 8);
    data[0] = 0x02;
    let (file, img) = at(data.clone(), 3);
    let got = img.extract_data(&file).unwrap();
    assert_eq!(got[0], 0xFF);
    assert_eq!(&got[1..], &data[1..]);
    let plain = vec![0x02, 0x03, 0x04, 0x05];
    let (file, img) = at(plain.clone(), 0);
    assert_eq!(img.extract_data(&file).unwrap(), plain);
}

#[test]
fn constructors_and_names() {
    let p = EmbeddedSubImage::new_primary(10, 20);
    assert_eq!(p.source, EmbeddedSubImageSource::Primary);
    assert_eq!((p.length, p.offset), (10, 20));
    assert!(p.ifd.is_none() && p.width.is_none());
    assert_eq!(EmbeddedSubImage::new_mpf(1, 2).source.name(), "MPF");
    assert_eq!(EmbeddedSubImage::new_maker_note_preview(EmbeddedSubImageSource::MakerNotePreview2, 1, 2)
                   .source.name(), "MakerNotePreview2");
    assert_eq!(EmbeddedSubImageSource::IfdStrip.name(), "IfdStrip");
    let _ = In::PRIMARY();
}
