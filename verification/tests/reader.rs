use exif::{Context, Error, Field, In, Reader, Tag, Value};

/// A little-endian TIFF holding one IFD of SHORT entries, each one value.
fn tiff_le(entries: &[(u16, u16)]) -> Vec<u8> {
    let mut t = b"II\x2a\0\x08\0\0\0".to_vec();
    t.extend_from_slice(&(entries.len() as u16).to_le_bytes());
    for &(tag, value) in entries {
        t.extend_from_slice(&tag.to_le_bytes());
        t.extend_from_slice(&3u16.to_le_bytes());
        t.extend_from_slice(&1u32.to_le_bytes());
        t.extend_from_slice(&value.to_le_bytes());
        t.extend_from_slice(&[0, 0]);
    }
    t.extend_from_slice(&[0, 0, 0, 0]);
    t
}

fn uint_of(exif: &exif::Exif, tag: Tag, ifd: In) -> Option<u32> {
    exif.get_field(tag, ifd).and_then(|f| f.value.get_uint(0))
}

#[test]
fn reader_continue_on_error() {
    let data = b"MM\0\x2a\0\0\0\x08\
                 \0\x02\x01\x00\0\x03\0\0\0\x01\0\x14\0\0\
                       \x01\x01\0\x03\0\0\0\x01\0\x15\0";
    let result = Reader::new()
        .continue_on_error(true)
        .read_raw(data.to_vec());
    if let Err(Error::PartialResult(partial)) = result {
        let (exif, errors) = partial.into_inner();
        assert!(matches!(exif.fields(),
                         [Field { tag, ifd_num: In(0), value: Value::Short(_) }]
                         if *tag == Tag::ImageWidth()));
        assert!(matches!(&errors[..], [Error::InvalidFormat("Truncated IFD")]));
    } else {
        panic!("partial result expected");
    }
}

#[test]
fn without_continue_on_error_the_first_error_is_returned() {
    let data = b"MM\0\x2a\0\0\0\x08\
                 \0\x02\x01\x00\0\x03\0\0\0\x01\0\x14\0\0\
                       \x01\x01\0\x03\0\0\0\x01\0\x15\0";
    let result = Reader::new().read_raw(data.to_vec());
    assert!(matches!(result, Err(Error::InvalidFormat("Truncated IFD"))));
}

#[test]
fn a_clean_file_is_no_partial_result() {
    let result = Reader::new().continue_on_error(true).read_raw(tiff_le(&[(0x0100, 17)]));
    let exif = result.unwrap();
    assert_eq!(uint_of(&exif, Tag::ImageWidth(), In(0)), Some(17));
}

#[test]
fn a_bad_header_is_a_hard_error_even_when_continuing() {
    let result = Reader::new().continue_on_error(true).read_raw(b"XX\0\x2a\0\0\0\x08".to_vec());
    assert!(matches!(result, Err(Error::InvalidFormat(_))));
}

#[test]
fn read_raw_keeps_the_buffer_and_byte_order() {
    let t = tiff_le(&[(0x0100, 17), (0x0101, 9)]);
    let exif = Reader::new().read_raw(t.clone()).unwrap();
    assert!(exif.little_endian());
    assert_eq!(exif.buf(), &t[..]);
    assert_eq!(exif.tiff_base(), 0);
    assert_eq!(exif.fields().len(), 2);
    assert_eq!(uint_of(&exif, Tag::ImageLength(), In::PRIMARY()), Some(9));
    assert_eq!(exif.get_field(Tag::ImageLength(), In(1)).map(|f| f.tag), None);
    assert_eq!(exif.take(), t);
}

#[test]
fn the_last_of_two_equal_fields_is_the_one_found() {
    let exif = Reader::new().read_raw(tiff_le(&[(0x0100, 17), (0x0100, 23)])).unwrap();
    assert_eq!(exif.fields().len(), 2);
    assert_eq!(uint_of(&exif, Tag::ImageWidth(), In::PRIMARY()), Some(23));
}

#[test]
fn a_jpeg_exif_is_placed_after_its_segment_header() {
    let tiff = tiff_le(&[(0x0100, 17)]);
    let mut jpeg = vec![0xff, 0xd8, 0xff, 0xe1];
    jpeg.extend_from_slice(&((tiff.len() + 8) as u16).to_be_bytes());
    jpeg.extend_from_slice(b"Exif\0\0");
    jpeg.extend_from_slice(&tiff);
    jpeg.extend_from_slice(&[0xff, 0xd9]);
    let exif = Reader::new().read_from_container(&jpeg).unwrap();
    assert_eq!(exif.tiff_base(), 12);
    assert_eq!(exif.file_offset(100), 112);
    assert_eq!(exif.buf(), &tiff[..]);
    assert_eq!(uint_of(&exif, Tag::ImageWidth(), In::PRIMARY()), Some(17));
}

#[test]
fn a_tiff_file_is_its_own_exif() {
    let t = tiff_le(&[(0x0112, 6)]);
    let exif = Reader::new().read_from_container(&t).unwrap();
    assert_eq!(exif.buf(), &t[..]);
    assert_eq!(exif.file_offset(100), 100);
    assert_eq!(uint_of(&exif, Tag::Orientation(), In::PRIMARY()), Some(6));
}

#[test]
fn an_unknown_format_is_refused() {
    let result = Reader::new().read_from_container(b"GIF89a and more");
    assert!(matches!(result, Err(Error::InvalidFormat("Unknown image format"))));
}

#[test]
fn extra_fields_join_those_read() {
    let t = tiff_le(&[(0x0100, 17)]);
    let extra = vec![Field { tag: Tag(Context::Exif, 0x8827), ifd_num: In(0), value: Value::Short(vec![400]) }];
    let exif = Reader::new().read_from_container_with(&t, extra).unwrap();
    assert_eq!(exif.fields().len(), 2);
    assert_eq!(uint_of(&exif, Tag(Context::Exif, 0x8827), In::PRIMARY()), Some(400));
}

#[test]
fn no_buffers_read_as_an_empty_exif() {
    let exif = Reader::new().read_raw_vec(Vec::new()).unwrap();
    assert!(exif.buf().is_empty());
    assert!(exif.fields().is_empty());
}

#[test]
fn buffers_after_the_first_are_exif_ifds() {
    let a = tiff_le(&[(0x0112, 1)]);
    let b = tiff_le(&[(0xa001, 0xffff)]);
    let exif = Reader::new().read_raw_vec(vec![a.clone(), b]).unwrap();
    assert_eq!(exif.buf().len(), 2 * a.len());
    assert_eq!(uint_of(&exif, Tag::Orientation(), In::PRIMARY()), Some(1));
    assert_eq!(uint_of(&exif, Tag(Context::Exif, 0xa001), In::PRIMARY()), Some(0xffff));
}

#[test]
fn an_mrw_reads_the_tiff_of_its_ttw_block() {
    let tiff = tiff_le(&[(0x0100, 17)]);
    let mut f = b"\0MRM".to_vec();
    f.extend_from_slice(&((tiff.len() + 8) as u32).to_be_bytes());
    f.extend_from_slice(b"\0TTW");
    f.extend_from_slice(&(tiff.len() as u32).to_be_bytes());
    f.extend_from_slice(&tiff);
    let exif = Reader::new().read_from_container(&f).unwrap();
    assert_eq!(exif.tiff_base(), 16);
    assert_eq!(uint_of(&exif, Tag::ImageWidth(), In::PRIMARY()), Some(17));
}
