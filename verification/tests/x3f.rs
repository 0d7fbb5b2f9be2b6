use exif::x3f::{is_x3f, utc_string};
use exif::{Context, In, Tag};

#[test]
fn unix_time_becomes_the_utc_wall_clock() {
    assert_eq!(utc_string(1_050_151_205).as_deref(), Some("2003:04:12 12:40:05"));
    assert_eq!(utc_string(1_345_295_521).as_deref(), Some("2012:08:18 13:12:01"));
    assert_eq!(utc_string(1_161_358_478).as_deref(), Some("2006:10:20 15:34:38"));
    assert_eq!(utc_string(0).as_deref(), Some("1970:01:01 00:00:00"));
    assert_eq!(utc_string(-1), None);
    assert_eq!(utc_string(i64::MAX), None);
}

#[test]
fn the_calendar_ends_with_year_9999() {
    assert_eq!(utc_string(253_402_300_799).as_deref(), Some("9999:12:31 23:59:59"));
    assert_eq!(utc_string(253_402_300_800), None);
    assert_eq!(utc_string(951_782_400).as_deref(), Some("2000:02:29 00:00:00"));
    assert!(is_x3f(b"FOVb\x00\x00"));
    assert!(!is_x3f(b"FOV"));
}

fn units(s: &str) -> Vec<u16> {
    s.encode_utf16().collect()
}

fn props(pairs: &[(&str, &str)]) -> Vec<(Vec<u16>, Vec<u16>)> {
    pairs.iter().map(|(k, v)| (units(k), units(v))).collect()
}

fn ascii(f: &exif::Field) -> Vec<u8> {
    match &f.value {
        exif::Value::Ascii(v) => v[0].clone(),
        other => panic!("not ASCII: {:?}", other),
    }
}

#[test]
fn absent_properties_produce_no_fields() {
    assert!(exif::x3f::synthesize(&Vec::new(), None).is_empty());
    let only_junk = props(&[("NOTATAG", "x"), ("CAMMODEL", "")]);
    assert!(exif::x3f::synthesize(&only_junk, None).is_empty());
}

#[test]
fn the_integer_and_text_properties_become_their_tags() {
    let p = props(&[
        ("CAMMANUF", "SIGMA"), ("CAMMODEL", "SIGMA SD14"),
        ("CAMSERIAL", "01005322"), ("TIME", "1345295521"),
        ("SHUTTER", "0.001791"), ("APERTURE", "6.44196"), ("ISO", "100"),
    ]);
    let got = exif::x3f::synthesize(&p, None);
    assert_eq!(got.len(), 5);
    assert_eq!(got[0].tag, Tag(Context::Tiff, 0x010f));
    assert_eq!(ascii(&got[0]), b"SIGMA");
    assert_eq!(got[1].tag, Tag(Context::Tiff, 0x0110));
    assert_eq!(ascii(&got[1]), b"SIGMA SD14");
    assert_eq!(got[2].tag, Tag(Context::Exif, 0xa431));
    assert_eq!(ascii(&got[2]), b"01005322");
    assert_eq!(got[3].tag, Tag(Context::Exif, 0x9003));
    assert_eq!(ascii(&got[3]), b"2012:08:18 13:12:01");
    assert_eq!(got[4].tag, Tag(Context::Exif, 0x8827));
    assert_eq!(got[4].value.get_uint(0), Some(100));
    assert!(got.iter().all(|f| f.ifd_num == In(0)));
}

#[test]
fn values_are_trimmed_and_the_first_of_a_name_wins() {
    let p = props(&[("CAMMANUF", "  SIGMA\t\u{3000}"), ("CAMMANUF", "Other"), ("CAMMODEL", " \u{2003} ")]);
    let got = exif::x3f::synthesize(&p, None);
    assert_eq!(got.len(), 1);
    assert_eq!(ascii(&got[0]), b"SIGMA");
}

#[test]
fn text_beyond_ascii_is_kept_as_utf8() {
    let p = props(&[("CAMMODEL", "caf\u{e9} \u{20AC}\u{4E2D}")]);
    let got = exif::x3f::synthesize(&p, None);
    assert_eq!(ascii(&got[0]), "caf\u{e9} \u{20AC}\u{4E2D}".as_bytes());
}

#[test]
fn an_iso_past_sixteen_bits_saturates_and_junk_is_dropped() {
    let got = exif::x3f::synthesize(&props(&[("ISO", "70000")]), None);
    assert_eq!(got[0].value.get_uint(0), Some(65535));
    assert!(exif::x3f::synthesize(&props(&[("ISO", "-5")]), None).is_empty());
    assert!(exif::x3f::synthesize(&props(&[("TIME", "12x")]), None).is_empty());
    assert!(exif::x3f::synthesize(&props(&[("TIME", "-1")]), None).is_empty());
}

#[test]
fn the_frame_becomes_the_sub_image_size_before_the_iso() {
    let got = exif::x3f::synthesize(&props(&[("ISO", "+200")]), Some((2640, 1760)));
    assert_eq!(got.len(), 3);
    assert_eq!((got[0].tag, got[0].ifd_num, got[0].value.get_uint(0)), (Tag::ImageWidth(), In(16), Some(2640)));
    assert_eq!((got[1].tag, got[1].ifd_num, got[1].value.get_uint(0)), (Tag::ImageLength(), In(16), Some(1760)));
    assert_eq!(got[2].value.get_uint(0), Some(200));
}

#[test]
fn a_truncated_x3f_is_refused() {
    assert!(matches!(exif::x3f::get_contents(b"FOVb"), Err(exif::Error::InvalidFormat("Truncated X3F"))));
}

#[test]
fn property_text_is_the_trimmed_first_value() {
    let p = props(&[("SHUTTER", " 0.001791 "), ("SHUTTER", "9"), ("APERTURE", "  ")]);
    assert_eq!(exif::x3f::property_utf8(&p, &exif::x3f::SHUTTER), Some(b"0.001791".to_vec()));
    assert_eq!(exif::x3f::property_utf8(&p, &exif::x3f::APERTURE), None);
    assert_eq!(exif::x3f::property_utf8(&p, b"ISO"), None);
}

#[test]
fn exposure_fields_come_after_the_moment() {
    let p = props(&[("TIME", "0"), ("ISO", "100"), ("CAMMANUF", "SIGMA")]);
    let exposure = vec![exif::Field { tag: Tag(Context::Exif, 0x829a), ifd_num: In(0),
                                      value: exif::Value::Rational(vec![exif::Rational { num: 1791, denom: 1_000_000 }]) }];
    let got = exif::x3f::synthesize_with(&p, Some((10, 20)), exposure);
    let tags: Vec<Tag> = got.iter().map(|f| f.tag).collect();
    assert_eq!(tags, vec![Tag(Context::Tiff, 0x010f), Tag(Context::Exif, 0x9003), Tag(Context::Exif, 0x829a),
                          Tag::ImageWidth(), Tag::ImageLength(), Tag(Context::Exif, 0x8827)]);
}

#[test]
fn the_properties_become_the_expected_tags() {
    let p = props(&[
        ("CAMMANUF", "SIGMA"), ("CAMMODEL", "SIGMA SD14"),
        ("CAMSERIAL", "01005322"), ("TIME", "1345295521"),
        ("SHUTTER", "0.001791"), ("APERTURE", "6.44196"), ("ISO", "100"),
    ]);
    // The exposure time and f-number take floating point: the caller makes
    // their fields, as ratios over a million.
    let exposure = vec![
        exif::Field { tag: Tag::ExposureTime(), ifd_num: In(0),
                      value: exif::Value::Rational(vec![exif::Rational { num: 1791, denom: 1_000_000 }]) },
        exif::Field { tag: Tag::FNumber(), ifd_num: In(0),
                      value: exif::Value::Rational(vec![exif::Rational { num: 6_441_960, denom: 1_000_000 }]) },
    ];
    let got = exif::x3f::synthesize_with(&p, None, exposure);
    let has = |t: Tag| got.iter().any(|f| f.tag == t);
    assert!(has(Tag::Make()));
    assert!(has(Tag::Model()));
    assert!(has(Tag::BodySerialNumber()));
    assert!(has(Tag::DateTimeOriginal()));
    assert!(has(Tag::ExposureTime()));
    assert!(has(Tag::FNumber()));
    assert!(has(Tag::PhotographicSensitivity()));
    assert_eq!(got.len(), 7);
}
