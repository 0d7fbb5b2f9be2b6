use exif::tiff::{RW2_EIGHTY_FIVE, TIFF_FORTY_TWO};
use exif::{parse_exif, DateTime, Error, Field, In, Parser, Tag, Value, Context};

fn rw2(entries: &[(u16, u16)]) -> Vec<u8> {
    let mut f = vec![0x49, 0x49];
    f.extend_from_slice(&RW2_EIGHTY_FIVE.to_le_bytes());
    f.extend_from_slice(&8u32.to_le_bytes());
    f.extend_from_slice(&(entries.len() as u16).to_le_bytes());
    for &(tag, value) in entries {
        f.extend_from_slice(&tag.to_le_bytes());
        f.extend_from_slice(&3u16.to_le_bytes());
        f.extend_from_slice(&1u32.to_le_bytes());
        f.extend_from_slice(&value.to_le_bytes());
        f.extend_from_slice(&[0, 0]);
    }
    f.extend_from_slice(&0u32.to_le_bytes());
    f
}

fn field_of(fields: &[Field], tag: Tag) -> Option<u32> {
    fields.iter().find(|f| f.tag == tag)?.value.get_uint(0)
}

#[test]
fn rw2_size_and_iso_come_from_the_vendor_tags() {
    let f = rw2(&[(4, 10), (5, 18), (6, 4010), (7, 6018), (0x17, 100)]);
    let (fields, _le) = parse_exif(&f).unwrap();
    assert_eq!(field_of(&fields, Tag::ImageWidth()), Some(6000));
    assert_eq!(field_of(&fields, Tag::ImageLength()), Some(4000));
    assert_eq!(field_of(&fields, Tag::PhotographicSensitivity()), Some(100));
}

#[test]
fn a_plain_tiff_gets_no_synthesised_fields() {
    let mut f = rw2(&[(4, 10), (5, 18), (6, 4010), (7, 6018), (0x17, 100)]);
    f[2..4].copy_from_slice(&TIFF_FORTY_TWO.to_le_bytes());
    let (fields, _le) = parse_exif(&f).unwrap();
    assert_eq!(field_of(&fields, Tag::ImageWidth()), None);
    assert_eq!(field_of(&fields, Tag::PhotographicSensitivity()), None);
}

#[test]
fn rw2_borders_that_make_no_sense_are_ignored() {
    let f = rw2(&[(4, 4010), (5, 6018), (6, 10), (7, 18)]);
    let (fields, _le) = parse_exif(&f).unwrap();
    assert_eq!(field_of(&fields, Tag::ImageWidth()), None);
    assert_eq!(field_of(&fields, Tag::ImageLength()), None);
}

fn short(f: &mut Vec<u8>, tag: u16, v: u16) {
    f.extend_from_slice(&tag.to_le_bytes());
    f.extend_from_slice(&3u16.to_le_bytes());
    f.extend_from_slice(&1u32.to_le_bytes());
    f.extend_from_slice(&v.to_le_bytes());
    f.extend_from_slice(&[0, 0]);
}

fn dng(crop: Option<(u16, u16)>) -> Vec<u8> {
    let ifd0_at = 8usize;
    let ifd0_entries = 3usize;
    let sub_at = ifd0_at + 2 + ifd0_entries * 12 + 4;
    let mut f = vec![0x49, 0x49];
    f.extend_from_slice(&TIFF_FORTY_TWO.to_le_bytes());
    f.extend_from_slice(&(ifd0_at as u32).to_le_bytes());
    f.extend_from_slice(&(ifd0_entries as u16).to_le_bytes());
    short(&mut f, 0x0100, 256);
    short(&mut f, 0x0101, 171);
    f.extend_from_slice(&0x014au16.to_le_bytes());
    f.extend_from_slice(&4u16.to_le_bytes());
    f.extend_from_slice(&1u32.to_le_bytes());
    f.extend_from_slice(&(sub_at as u32).to_le_bytes());
    f.extend_from_slice(&0u32.to_le_bytes());
    assert_eq!(f.len(), sub_at);
    let n = if crop.is_some() { 3u16 } else { 2 };
    f.extend_from_slice(&n.to_le_bytes());
    short(&mut f, 0x0100, 6188);
    short(&mut f, 0x0101, 4120);
    if let Some((w, h)) = crop {
        f.extend_from_slice(&0xc620u16.to_le_bytes());
        f.extend_from_slice(&3u16.to_le_bytes());
        f.extend_from_slice(&2u32.to_le_bytes());
        f.extend_from_slice(&w.to_le_bytes());
        f.extend_from_slice(&h.to_le_bytes());
    }
    f.extend_from_slice(&0u32.to_le_bytes());
    f
}

#[test]
fn sub_images_get_their_own_ifd_number() {
    let (fields, _le) = parse_exif(&dng(None)).unwrap();
    let at = |tag: Tag, ifd: In| fields.iter()
        .find(|f| f.tag == tag && f.ifd_num == ifd)
        .and_then(|f| f.value.get_uint(0));
    assert_eq!(at(Tag::ImageWidth(), In::PRIMARY()), Some(256));
    assert_eq!(at(Tag::ImageWidth(), In::SUB_IMAGE()), Some(6188));
    assert_eq!(at(Tag::ImageLength(), In::SUB_IMAGE()), Some(4120));
}

#[test]
fn a_dng_crop_size_is_read_in_the_sub_image() {
    let (fields, _le) = parse_exif(&dng(Some((6000, 4000)))).unwrap();
    let crop = fields.iter().find(|f| f.tag == Tag::DefaultCropSize()).unwrap();
    assert_eq!(crop.ifd_num, In::SUB_IMAGE());
    assert_eq!(crop.value.get_uint(0), Some(6000));
    assert_eq!(crop.value.get_uint(1), Some(4000));
}

#[test]
fn the_sub_image_base_cannot_collide() {
    assert!(In::SUB_IMAGE().index() >= 8);
    assert_ne!(In::SUB_IMAGE(), In::PRIMARY());
    assert_ne!(In::SUB_IMAGE(), In::THUMBNAIL());
    assert_ne!(In::SUB_IMAGE(), In::MPF());
}

#[test]
fn in_convert() {
    assert_eq!(In::PRIMARY().index(), 0);
    assert_eq!(In::THUMBNAIL().index(), 1);
    assert_eq!(In(2).index(), 2);
    assert_eq!(In(65535).index(), 65535);
    assert_eq!(In::PRIMARY(), In(0));
}

#[test]
fn tiff_truncated() {
    let mut data =
        b"MM\0\x2a\0\0\0\x08\
          \0\x01\x01\0\0\x03\0\0\0\x01\0\x14\0\0\0\0\0\0".to_vec();
    parse_exif(&data).unwrap();
    while let Some(_) = data.pop() {
        parse_exif(&data).unwrap_err();
    }
}

#[test]
fn tiff_inf_loop_by_next() {
    let data = b"MM\0\x2a\0\0\0\x08\
                 \0\x01\x01\0\0\x03\0\0\0\x01\0\x14\0\0\0\0\0\x08";
    assert!(matches!(parse_exif(data),
                     Err(Error::InvalidFormat("Limit the IFD count to 8"))));
}

#[test]
fn tiff_inf_loop_by_exif_next() {
    let data = b"MM\x00\x2a\x00\x00\x00\x08\
                 \x00\x01\x87\x69\x00\x04\x00\x00\x00\x01\x00\x00\x00\x1a\
                 \x00\x00\x00\x00\
                 \x00\x01\x90\x00\x00\x07\x00\x00\x00\x040231\
                 \x00\x00\x00\x08";
    assert!(matches!(parse_exif(data),
                     Err(Error::InvalidFormat("Unexpected next IFD"))));
}

#[test]
fn tiff_unknown_field() {
    let data = b"MM\0\x2a\0\0\0\x08\
                 \0\x01\x01\0\xff\xff\0\0\0\x01\0\x14\0\0\0\0\0\0";
    let (v, _le) = parse_exif(data).unwrap();
    assert_eq!(v.len(), 1);
    assert!(matches!(v[0].value, Value::Unknown(0xffff, 1, 0x12)));
}

#[test]
fn parse_ifd_entry() {
    let data = b"\x02\x03\x00\x01\0\0\0\x04ABCD";
    assert!(matches!(Parser::parse_ifd_entry(data, 0, false).unwrap(),
                     (0x0203, Value::Unknown(1, 4, 8))));
    let data = b"\x02\x03\x00\x01\0\0\0\x05\0\0\0\x0cABCDE";
    assert!(matches!(Parser::parse_ifd_entry(data, 0, false).unwrap(),
                     (0x0203, Value::Unknown(1, 5, 12))));
    let data = b"\x02\x03\x00\x01\0\0\0\x05\0\0\0\x0cABCD";
    assert!(matches!(Parser::parse_ifd_entry(data, 0, false),
                     Err(Error::InvalidFormat("Truncated field value"))));
    let data = b"X\x04\x05\x00\x03\0\0\0\x02ABCD";
    assert!(matches!(Parser::parse_ifd_entry(data, 1, false).unwrap(),
                     (0x0405, Value::Unknown(3, 2, 9))));
    let data = b"X\x04\x05\x00\x03\0\0\0\x03\0\0\0\x0eXABCDEF";
    assert!(matches!(Parser::parse_ifd_entry(data, 1, false).unwrap(),
                     (0x0405, Value::Unknown(3, 3, 14))));
    let data = b"X\x04\x05\x00\x03\0\0\0\x03\0\0\0\x0eXABCDE";
    assert!(matches!(Parser::parse_ifd_entry(data, 1, false),
                     Err(Error::InvalidFormat("Truncated field value"))));
    let data = b"X\x01\x02\x03\x04\x05\x06\x07\x08ABCD";
    assert!(matches!(Parser::parse_ifd_entry(data, 1, false).unwrap(),
                     (0x0102, Value::Unknown(0x0304, 0x05060708, 9))));
}

#[test]
fn date_time() {
    let mut dt = DateTime::from_ascii(b"2016:05:04 03:02:01").unwrap();
    assert_eq!(dt.year, 2016);
    assert_eq!(dt.to_string(), "2016-05-04 03:02:01");

    dt.parse_subsec(b"987").unwrap();
    assert_eq!(dt.nanosecond.unwrap(), 987000000);
    dt.parse_subsec(b"000987").unwrap();
    assert_eq!(dt.nanosecond.unwrap(), 987000);
    dt.parse_subsec(b"987654321").unwrap();
    assert_eq!(dt.nanosecond.unwrap(), 987654321);
    dt.parse_subsec(b"9876543219").unwrap();
    assert_eq!(dt.nanosecond.unwrap(), 987654321);
    dt.parse_subsec(b"130   ").unwrap();
    assert_eq!(dt.nanosecond.unwrap(), 130000000);
    dt.parse_subsec(b"0").unwrap();
    assert_eq!(dt.nanosecond.unwrap(), 0);
    dt.parse_subsec(b"").unwrap();
    assert!(dt.nanosecond.is_none());
    dt.parse_subsec(b" ").unwrap();
    assert!(dt.nanosecond.is_none());

    dt.parse_offset(b"+00:00").unwrap();
    assert_eq!(dt.offset.unwrap(), 0);
    dt.parse_offset(b"+01:23").unwrap();
    assert_eq!(dt.offset.unwrap(), 83);
    dt.parse_offset(b"+99:99").unwrap();
    assert_eq!(dt.offset.unwrap(), 6039);
    dt.parse_offset(b"-01:23").unwrap();
    assert_eq!(dt.offset.unwrap(), -83);
    dt.parse_offset(b"-99:99").unwrap();
    assert_eq!(dt.offset.unwrap(), -6039);
    assert!(matches!(dt.parse_offset(b"   :  "), Err(Error::BlankValue(_))));
    assert!(matches!(dt.parse_offset(b"      "), Err(Error::BlankValue(_))));
}

#[test]
fn date_time_errors() {
    assert!(matches!(DateTime::from_ascii(b"    :  :     :  :  "), Err(Error::BlankValue(_))));
    assert!(matches!(DateTime::from_ascii(b"2016:05:04"), Err(Error::InvalidFormat("DateTime too short"))));
    assert!(matches!(DateTime::from_ascii(b"2016-05-04 03:02:01"), Err(Error::InvalidFormat("Invalid DateTime delimiter"))));
    assert!(matches!(DateTime::from_ascii(b"2016:0x:04 03:02:01"), Err(Error::InvalidFormat("Not a number"))));
    let mut dt = DateTime::from_ascii(b"2016:05:04 03:02:01").unwrap();
    assert!(matches!(dt.parse_subsec(b"12a"), Err(Error::InvalidFormat("Not a number"))));
    assert!(matches!(dt.parse_offset(b"*01:23"), Err(Error::InvalidFormat("Invalid OffsetTime sign"))));
}

fn define_test(data: &[u8], fields: &[(Tag, fn(&Value) -> bool)], errors: &[&str]) {
    let mut parser = Parser::new();
    match parser.parse(data) {
        Err(Error::InvalidFormat(m)) => assert_eq!(m, errors[0]),
        r => panic!("unexpected {:?}", r),
    }
    let mut parser = Parser::new();
    parser.continue_on_error = Some(Vec::new());
    parser.parse(data).unwrap();
    assert_eq!(parser.little_endian, false);
    assert_eq!(parser.entries.len(), fields.len());
    for (e, (tag, pred)) in parser.entries.iter().zip(fields.iter()) {
        let f = e.ref_field(data, parser.little_endian);
        assert_eq!(f.tag, *tag);
        assert_eq!(f.ifd_num, In(0));
        assert!(pred(&f.value));
    }
    let errs = parser.continue_on_error.as_ref().unwrap();
    assert_eq!(errs.len(), errors.len());
    for (e, m) in errs.iter().zip(errors.iter()) {
        match e {
            Error::InvalidFormat(x) => assert_eq!(x, m),
            other => panic!("unexpected {:?}", other),
        }
    }
}

#[test]
fn tiff_continue_on_error() {
    define_test(b"MM\0\x2a\0\0\0\x08", &[], &["Truncated IFD count"]);
    define_test(b"MM\0\x2a\0\0\0\x08\
                  \0\x02\x01\x00\0\x03\0\0\0\x01\0\x14\0\0\
                        \x01\x01\0\x03\0\0\0\x01\0\x15\0",
                &[(Tag::ImageWidth(), |v| matches!(v, Value::Short(_)))],
                &["Truncated IFD"]);
    define_test(b"MM\0\x2a\0\0\0\x08\
                  \0\x02\x01\x00\0\x03\0\0\0\x03\0\0\0\x21\
                        \x01\x01\0\x03\0\0\0\x01\0\x15\0\0\
                        \0\0\0\0",
                &[(Tag::ImageLength(), |v| matches!(v, Value::Short(_)))],
                &["Truncated field value"]);
    define_test(b"MM\0\x2a\0\0\0\x08\
                  \0\x02\x87\x69\0\x04\0\0\0\x01\0\0\0\x26\
                        \xfd\xe8\0\x09\0\0\0\x01\xfe\xdc\xba\x98\
                        \xff\xff\xff\xff\
                  \0\x01\x90\x00\0\x07\0\0\0\x04\x00\x02\x03\x02\
                        \0\0\0\x01",
                &[(Tag::ExifVersion(), |v| matches!(v, Value::Undefined(_, _))),
                  (Tag(Context::Tiff, 65000), |v| matches!(v, Value::SLong(_)))],
                &["Unexpected next IFD", "Truncated IFD count"]);
    define_test(b"MM\0\x2a\0\0\0\x08\
                  \0\x02\x87\x69\0\x09\0\0\0\x01\0\0\0\x26\
                        \xfd\xe8\0\x06\0\0\0\x03\xfe\xdc\xba\x98\
                        \0\0\0\0\
                  \0\x01\x90\x00\0\x07\0\0\0\x04\x00\x02\x03\x02\
                        \0\0\0\x01",
                &[(Tag(Context::Tiff, 65000), |v| matches!(v, Value::SByte(_)))],
                &["Invalid pointer"]);
    define_test(b"MM\0\x2a\0\0\0\x08\
                  \0\x02\x87\x69\0\x04\0\0\0\x00\0\0\0\x26\
                        \xfd\xe8\0\x08\0\0\0\x02\xfe\xdc\xba\x98\
                        \0\0\0\0\
                  \0\x01\x90\x00\0\x07\0\0\0\x04\x00\x02\x03\x02\
                        \0\0\0\x01",
                &[(Tag(Context::Tiff, 65000), |v| matches!(v, Value::SShort(_)))],
                &["Invalid pointer"]);
}

#[test]
fn ascii_values_split_at_nul() {
    let data = b"MM\0\x2a\0\0\0\x08\
                 \0\x01\x01\x0e\0\x02\0\0\0\x03ab\0\0\0\0\0\0";
    let (v, le) = parse_exif(data).unwrap();
    assert!(!le);
    match &v[0].value {
        Value::Ascii(s) => assert_eq!(s, &vec![b"ab".to_vec()]),
        other => panic!("{:?}", other),
    }
}

fn long_entry(f: &mut Vec<u8>, tag: u16, v: u32) {
    f.extend_from_slice(&tag.to_le_bytes());
    f.extend_from_slice(&4u16.to_le_bytes());
    f.extend_from_slice(&1u32.to_le_bytes());
    f.extend_from_slice(&v.to_le_bytes());
}

#[test]
fn every_ifd_that_addresses_a_jpeg_is_reported() {
    // IFD0 -> preview at 900 (60 bytes), IFD1 -> thumbnail at 700 (30).
    let mut f = vec![0x49, 0x49];
    f.extend_from_slice(&TIFF_FORTY_TWO.to_le_bytes());
    f.extend_from_slice(&8u32.to_le_bytes());
    let ifd1_at = 8 + 2 + 2 * 12 + 4;
    f.extend_from_slice(&2u16.to_le_bytes());
    long_entry(&mut f, 0x0201, 900);
    long_entry(&mut f, 0x0202, 60);
    f.extend_from_slice(&(ifd1_at as u32).to_le_bytes());
    assert_eq!(f.len(), ifd1_at);
    f.extend_from_slice(&2u16.to_le_bytes());
    long_entry(&mut f, 0x0201, 700);
    long_entry(&mut f, 0x0202, 30);
    f.extend_from_slice(&0u32.to_le_bytes());

    let exif = exif::Reader::new().read_raw(f).unwrap();
    let mut found: Vec<(u64, u32)> =
        exif.thumbnails().iter().map(|i| (i.offset, i.length)).collect();
    found.sort_unstable();
    assert_eq!(found, vec![(700, 30), (900, 60)],
               "both IFDs address an image; only one was reported");
}

#[test]
fn a_strip_addressed_image_is_reported_with_its_own_size() {
    let f = strip_tiff(132940, 131328, false);
    let exif = exif::Reader::new().read_raw(f).unwrap();
    let imgs = exif.thumbnails();
    assert_eq!(imgs.len(), 1, "the strip image was not found");
    assert_eq!((imgs[0].offset, imgs[0].length), (132940, 131328));
    assert_eq!((imgs[0].width, imgs[0].height), (Some(256), Some(171)));
    assert_eq!(imgs[0].subfile_type, Some(1), "bit 0 marks it a preview");
}

#[test]
fn a_sentinel_strip_offset_is_not_an_image() {
    let f = strip_tiff(u32::MAX, 43_180_032, false);
    let exif = exif::Reader::new().read_raw(f).unwrap();
    assert!(exif.thumbnails().is_empty());
}

#[test]
fn a_multi_strip_image_is_not_reported() {
    let f = strip_tiff(132940, 131328, true);
    let exif = exif::Reader::new().read_raw(f).unwrap();
    assert!(exif.thumbnails().is_empty());
}

/// One IFD holding a 256x171 image in one strip, or in two.
fn strip_tiff(offset: u32, count: u32, multi: bool) -> Vec<u8> {
    let entries: u16 = 5;
    let ifd_at = 8usize;
    let array_at = ifd_at + 2 + entries as usize * 12 + 4;
    let mut f = vec![0x49, 0x49];
    f.extend_from_slice(&TIFF_FORTY_TWO.to_le_bytes());
    f.extend_from_slice(&(ifd_at as u32).to_le_bytes());
    f.extend_from_slice(&entries.to_le_bytes());
    let put = |f: &mut Vec<u8>, tag: u16, typ: u16, cnt: u32, val: u32| {
        f.extend_from_slice(&tag.to_le_bytes());
        f.extend_from_slice(&typ.to_le_bytes());
        f.extend_from_slice(&cnt.to_le_bytes());
        f.extend_from_slice(&val.to_le_bytes());
    };
    put(&mut f, 0x00fe, 4, 1, 1);          // NewSubfileType: reduced
    put(&mut f, 0x0100, 4, 1, 256);        // ImageWidth
    put(&mut f, 0x0101, 4, 1, 171);        // ImageLength
    if multi {
        // Two strips, so the values live out of line.
        put(&mut f, 0x0111, 4, 2, array_at as u32);
        put(&mut f, 0x0117, 4, 2, (array_at + 8) as u32);
    } else {
        put(&mut f, 0x0111, 4, 1, offset);
        put(&mut f, 0x0117, 4, 1, count);
    }
    f.extend_from_slice(&0u32.to_le_bytes());
    assert_eq!(f.len(), array_at);
    for v in [offset, offset.wrapping_add(1), count, count] {
        f.extend_from_slice(&v.to_le_bytes());
    }
    f
}

#[test]
fn in_display() {
    assert_eq!(format!("{:10}", In::PRIMARY().to_text()), "primary   ");
    assert_eq!(format!("{:>10}", In::THUMBNAIL().to_text()), " thumbnail");
    assert_eq!(format!("{:10}", In(2).to_text()), "IFD2      ");
    assert_eq!(format!("{:^10}", In(65535).to_text()), " IFD65535 ");
}

#[test]
fn date_time_errors_name_what_is_wrong() {
    assert!(matches!(DateTime::from_ascii(b"2016-05-04 03:02:01"), Err(Error::InvalidFormat("Invalid DateTime delimiter"))));
    assert!(matches!(DateTime::from_ascii(b"2016:0x:04 03:02:01"), Err(Error::InvalidFormat("Not a number"))));
    let dt = DateTime::from_ascii(b"2016:13:40 25:61:61").unwrap();
    assert_eq!((dt.month, dt.day, dt.hour), (13, 40, 25));
    let mut dt = DateTime::from_ascii(b"2016:05:04 03:02:01").unwrap();
    assert!(matches!(dt.parse_offset(b"*01:23"), Err(Error::InvalidFormat("Invalid OffsetTime sign"))));
    assert!(matches!(dt.parse_offset(b"+01:2"), Err(Error::InvalidFormat("OffsetTime too short"))));
    assert!(matches!(dt.parse_offset(b"+01-23"), Err(Error::InvalidFormat("Invalid OffsetTime delimiter"))));
    assert!(matches!(dt.parse_offset(b"+0x:23"), Err(Error::InvalidFormat("Not a number"))));
    assert!(matches!(dt.parse_offset(b"   :  "), Err(Error::BlankValue(_))));
    assert_eq!(dt.offset, None);
}
