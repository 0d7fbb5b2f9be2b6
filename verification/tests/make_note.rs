use exif::value::SRational;
use exif::make_note::apple::detect_apple_byte_order;
use exif::make_note::pentax::detect_pentax_byte_order;
use exif::make_note::sony::{SonyLensFormat, SonyLensMount, SonyTag9416};
use exif::make_note::maker_tag::{MakerNoteField, MakerNoteVendor, MakerTag, d_undef_as_string};
use exif::make_note::minolta::detect_minolta_byte_order;
use exif::make_note::panasonic::{PanasonicFaceDetInfo, PanasonicMacroMode, PanasonicShootingMode,
    PanasonicSweepPanoramaDirection};
use exif::make_note::samsung::detect_samsung_byte_order;
use exif::make_note::sony::{SonyCreativeStyle, SonyFaceInfo};
use exif::make_note::{detect_makernote_byte_order, parse_make_note, parse_make_note_with_vendor,
    MakerNoteParser};
use exif::{Error, In, Tag, Value};

fn invalid(r: Result<impl std::fmt::Debug, Error>, msg: &str) {
    match r {
        Err(Error::InvalidFormat(m)) => assert_eq!(m, msg),
        other => panic!("unexpected {:?}", other),
    }
}

// Before the error is returned, the IFD is parsed multiple times as the
// 0th, 1st, ..., and n-th IFDs.
#[test]
fn mod_inf_loop_by_next() {
    let data = b"MM\0\x2a\0\0\0\x08\
                 \0\x01\x01\0\0\x03\0\0\0\x01\0\x14\0\0\0\0\0\x08";
    invalid(parse_make_note(data, false, 0, 0), "Limit the IFD count to 8");
}

#[test]
fn mod_inf_loop_by_exif_next() {
    let data = b"MM\x00\x2a\x00\x00\x00\x08\
                 \x00\x01\x87\x69\x00\x04\x00\x00\x00\x01\x00\x00\x00\x1a\
                 \x00\x00\x00\x00\
                 \x00\x01\x90\x00\x00\x07\x00\x00\x00\x040231\
                 \x00\x00\x00\x08";
    invalid(parse_make_note(data, false, 0, 0), "Unexpected next IFD");
}

#[test]
fn mod_unknown_field() {
    let data = b"MM\0\x2a\0\0\0\x08\
                 \0\x01\x01\0\xff\xff\0\0\0\x01\0\x14\0\0\0\0\0\0";
    let (v, _le) = parse_make_note(data, false, 0, 0).unwrap();
    assert_eq!(v.len(), 1);
    assert!(matches!(v[0].value, Value::Unknown(0xffff, 1, 0x12)));
}

/// A Dynax 7D's own first 14 bytes: 19 entries, then `MakerNoteVersion` as
/// UNDEFINED[4] holding `MLT0`.
#[test]
fn the_entry_type_settles_the_byte_order() {
    let be = [0x00, 0x13, 0x00, 0x00, 0x00, 0x07, 0x00, 0x00,
              0x00, 0x04, b'M', b'L', b'T', b'0'];
    assert!(!detect_minolta_byte_order(&be));
    // The same entry written the other way round.
    let le = [0x13, 0x00, 0x00, 0x00, 0x07, 0x00, 0x04, 0x00,
              0x00, 0x00, b'M', b'L', b'T', b'0'];
    assert!(detect_minolta_byte_order(&le));
}

fn flat_ifd_case(data: &[u8], fields: &[(Tag, fn(&Value) -> bool)], errors: &[&str]) {
    let mut parser = MakerNoteParser::new();
    invalid(parser.parse(data, None), errors[0]);
    let mut parser = MakerNoteParser::new();
    parser.continue_on_error = Some(Vec::new());
    parser.parse(data, None).unwrap();
    assert_eq!(parser.entries.len(), fields.len());
    for (e, (tag, pred)) in parser.entries.iter().zip(fields.iter()) {
        let f = e.0.ref_field(data, parser.little_endian);
        assert_eq!(f.tag, *tag);
        assert_eq!(f.ifd_num, In(0));
        assert!(pred(&f.value));
    }
    let errs = parser.continue_on_error.as_ref().unwrap();
    assert_eq!(errs.len(), errors.len());
    for (e, m) in errs.iter().zip(errors.iter()) {
        match e {
            Error::InvalidFormat(x) => assert_eq!(x, m),
            other => panic!("unexpected {:?}", other),
        }
    }
}

/// The recovery path on a flat vendor IFD, which is what a MakerNote is.
#[test]
fn continue_on_error_flat_ifd() {
    // 0th IFD is missing.
    flat_ifd_case(b"MM\0\x2a\0\0\0\x08", &[], &["Truncated IFD count"]);
    // 2nd entry is truncated.
    flat_ifd_case(b"MM\0\x2a\0\0\0\x08\
                    \0\x02\x01\x00\0\x03\0\0\0\x01\0\x14\0\0\
                          \x01\x01\0\x03\0\0\0\x01\0\x15\0",
                  &[(Tag::ImageWidth(), |v| matches!(v, Value::Short(_)))],
                  &["Truncated IFD"]);
}

/// A value outside the block is recorded, not fatal.
#[test]
fn a_value_outside_the_block_is_reported_not_fatal() {
    // One entry whose value is 3 SHORTs (6 bytes, so out of line) at an
    // offset past the end of this data.
    let data: &[u8] = b"MM\0\x2a\0\0\0\x08\
                        \0\x01\x01\x01\0\x03\0\0\0\x03\0\0\0\x21\
                        \0\0\0\0";
    let mut parser = MakerNoteParser::new();
    parser.parse(data, None).expect("an unreachable value must not abort");
    assert_eq!(parser.unresolved.len(), 1, "the address must be reported");
    let u = parser.unresolved[0];
    assert_eq!(u.tag, 0x0101);
    assert_eq!(u.offset, 0x21);
    assert_eq!(u.len, 6);
}

#[test]
fn vendors_are_told_apart_by_header_then_make() {
    assert_eq!(MakerNoteVendor::from_header(b"Panasonic\0\0\0", None), MakerNoteVendor::Panasonic);
    assert_eq!(MakerNoteVendor::from_header(b"Nikon\0\x02\x10", None), MakerNoteVendor::Nikon);
    assert_eq!(MakerNoteVendor::from_header(b"SONY DSC \0\0\0", None), MakerNoteVendor::Sony);
    assert_eq!(MakerNoteVendor::from_header(b"OLYMPUS\0II", None), MakerNoteVendor::Olympus);
    assert_eq!(MakerNoteVendor::from_header(b"OLYMP\0\x01\0", None), MakerNoteVendor::Olympus);
    assert_eq!(MakerNoteVendor::from_header(b"OM SYSTEM\0\0\0II", None), MakerNoteVendor::OMSystem);
    assert_eq!(MakerNoteVendor::from_header(b"FUJIFILM\x0c\0\0\0", None), MakerNoteVendor::Fujifilm);
    assert_eq!(MakerNoteVendor::from_header(b"LEICA\0\0\0", None), MakerNoteVendor::Leica);
    assert_eq!(MakerNoteVendor::from_header(b"Apple iOS\0", None), MakerNoteVendor::Apple);
    assert_eq!(MakerNoteVendor::from_header(b"\0\x05", Some("Canon")), MakerNoteVendor::Canon);
    assert_eq!(MakerNoteVendor::from_header(b"\0\x05", Some("SAMSUNG")), MakerNoteVendor::Samsung);
    assert_eq!(MakerNoteVendor::from_header(b"\0\x05", Some("NIKON")), MakerNoteVendor::Unknown);
    assert_eq!(MakerNoteVendor::from_header(b"\0\x05", None), MakerNoteVendor::Unknown);
    // A signature wins over Make.
    assert_eq!(MakerNoteVendor::from_header(b"SONY", Some("Canon")), MakerNoteVendor::Sony);
}

#[test]
fn header_sizes_and_offset_corrections() {
    let cases = [
        (MakerNoteVendor::Panasonic, 12, 4, true),
        (MakerNoteVendor::Nikon, 10, 0, false),
        (MakerNoteVendor::Canon, 0, -8, true),
        (MakerNoteVendor::Sony, 12, 4, true),
        (MakerNoteVendor::Olympus, 12, 4, false),
        (MakerNoteVendor::OMSystem, 16, 8, false),
        (MakerNoteVendor::Fujifilm, 12, 4, false),
        (MakerNoteVendor::Leica, 8, 0, true),
        (MakerNoteVendor::Samsung, 0, -8, false),
        (MakerNoteVendor::Apple, 14, 6, false),
        (MakerNoteVendor::OlympusEquipment, 0, 0, false),
        (MakerNoteVendor::Unknown, 0, 0, false),
    ];
    for (v, size, corr, tiff) in cases {
        assert_eq!(v.header_size(), size, "{:?}", v);
        assert_eq!(v.offset_correction(), corr, "{:?}", v);
        assert_eq!(v.consider_tiff_offset(), tiff, "{:?}", v);
    }
}

#[test]
fn tag_names_come_from_the_vendor_table() {
    let t = MakerTag::new(MakerNoteVendor::Panasonic, 0x0001);
    assert_eq!(t.vendor(), MakerNoteVendor::Panasonic);
    assert_eq!(t.number(), 1);
    assert_eq!(t.name(), Some("ImageQuality"));
    assert_eq!(t.description(), Some("Image Quality"));
    // Leica shares Panasonic's table.
    assert_eq!(MakerTag::new(MakerNoteVendor::Leica, 0x0001).name(), Some("ImageQuality"));
    assert_eq!(MakerTag::new(MakerNoteVendor::Olympus, 0x0209).name(), Some("CameraID"));
    assert_eq!(MakerTag::new(MakerNoteVendor::OMSystem, 0x0209).description(), Some("Camera ID"));
    // The same number names different things for different vendors.
    assert_ne!(MakerTag::new(MakerNoteVendor::Olympus, 0x0001).name(),
               MakerTag::new(MakerNoteVendor::Panasonic, 0x0001).name());
    assert_eq!(MakerTag::new(MakerNoteVendor::Nikon, 0x0001).name(), None);
    assert_eq!(MakerTag::new(MakerNoteVendor::Panasonic, 0xfffe).name(), None);
}

#[test]
fn settings_decode_from_their_numbers() {
    assert_eq!(PanasonicMacroMode::from_repr(0x101), Some(PanasonicMacroMode::TeleMacro));
    assert_eq!(PanasonicMacroMode::from_repr(3), None);
    assert_eq!(PanasonicMacroMode::TeleMacro.label(), "Tele-Macro");
    assert_eq!(PanasonicMacroMode::MacroZoom.repr(), 0x201);
    assert_eq!(PanasonicShootingMode::from_repr(55).map(|m| m.label()), Some("3D Photo"));
    assert_eq!(PanasonicShootingMode::raw_parse(&[0x1b, 0x00], None), Some(PanasonicShootingMode::IntelligentAuto));
    assert_eq!(PanasonicShootingMode::raw_parse(&[0x00, 0x1b], Some(false)), Some(PanasonicShootingMode::IntelligentAuto));
    assert_eq!(PanasonicShootingMode::raw_parse(&[0x1b], None), None);
    assert_eq!(PanasonicSweepPanoramaDirection::raw_parse(&[2], None), Some(PanasonicSweepPanoramaDirection::RightToLeft));
    assert_eq!(SonyCreativeStyle::from_repr(255).map(|s| s.label()), Some("Off"));
    assert_eq!(SonyCreativeStyle::from_repr(12), None);
}

#[test]
fn faces_are_read_and_shown() {
    let data = [2, 0, 10, 0, 20, 0, 30, 0, 40, 0, 1, 0, 2, 0, 3, 0, 4, 0];
    let info = PanasonicFaceDetInfo::raw_parse(&data, None).unwrap();
    assert_eq!(info.num_faces, 2);
    assert_eq!(info.faces[1].width, 3);
    assert_eq!(info.to_text(), "2 face(s) [(10,20 30x40), (1,2 3x4)]");
    // Shorter than the count says.
    assert!(PanasonicFaceDetInfo::raw_parse(&data[..17], None).is_none());
    let none = PanasonicFaceDetInfo::raw_parse(&[0, 0], None).unwrap();
    assert_eq!(none.to_text(), "0 face(s)");

    // Sony: the count, then the first face at entry 1; the second would
    // need 20 bytes.
    let sony = [2, 0, 1, 0, 2, 0, 3, 0, 4, 0];
    let info = SonyFaceInfo::raw_parse(&sony, None).unwrap();
    assert_eq!(info.faces_detected, 2);
    assert_eq!(info.faces.len(), 1);
    assert_eq!(info.to_text(), "2 face(s) [(T:1,L:2 4x3)]");
    let na = SonyFaceInfo::raw_parse(&[0xff, 0xff], None).unwrap();
    assert_eq!(na.to_text(), "n/a");
}

#[test]
fn strings_stop_at_the_first_nul() {
    assert_eq!(d_undef_as_string(&Value::Undefined(b"DC-S5\0junk".to_vec(), 0)), "DC-S5");
    assert_eq!(d_undef_as_string(&Value::Byte(vec![0xff, 0xfe, 0])), "<invalid UTF-8>");
    assert_eq!(d_undef_as_string(&Value::Ascii(vec![vec![], b"abc".to_vec()])), "abc");
    assert_eq!(d_undef_as_string(&Value::Ascii(vec![])), "");
}

#[test]
fn vendor_fields_carry_their_display() {
    let f = MakerNoteField::new(MakerTag::new(MakerNoteVendor::Panasonic, 0x001c), In(0),
                                Value::Short(vec![0x101]));
    assert_eq!(f.custom_display.as_deref(), Some("Tele-Macro"));
    assert_eq!(f.display_value().vendor_text().as_deref(), Some("Tele-Macro"));
    let f = MakerNoteField::new(MakerTag::new(MakerNoteVendor::Olympus, 0x0209), In(0),
                                Value::Undefined(b"OLYMPUS DIGITAL CAMERA\0\0".to_vec(), 0));
    assert_eq!(f.custom_display.as_deref(), Some("OLYMPUS DIGITAL CAMERA"));
    let f = MakerNoteField::new(MakerTag::new(MakerNoteVendor::Panasonic, 0x0001), In(0),
                                Value::Short(vec![2]));
    assert_eq!(f.custom_display, None);
    assert_eq!(f.display_value().vendor_text(), None);
}

#[test]
fn byte_order_hints_come_from_the_header() {
    assert_eq!(detect_makernote_byte_order(b"OLYMPUS\0II\x03\0"), Some(true));
    assert_eq!(detect_makernote_byte_order(b"OLYMPUS\0MM\x03\0"), Some(false));
    assert_eq!(detect_makernote_byte_order(b"OM SYSTEM\0\0\0II\x04\0"), Some(true));
    assert_eq!(detect_makernote_byte_order(b"Apple iOS\0\0\x01MM"), Some(false));
    assert_eq!(detect_makernote_byte_order(b"Apple iOS\0\0\x01XX"), Some(false));
    assert_eq!(detect_makernote_byte_order(b"OLYMPUS\0"), None);
    assert_eq!(detect_makernote_byte_order(b"Panasonic\0\0\0"), None);
    // Samsung: the first tags decide.
    let le = [2, 0, 1, 0, 7, 0, 4, 0, 0, 0, 0, 0, 0, 0];
    assert!(detect_samsung_byte_order(&le));
    let be = [0, 2, 0, 1, 0, 7, 0, 0, 0, 4, 0, 0, 0, 0];
    assert!(!detect_samsung_byte_order(&be));
}

/// A Panasonic MakerNote: a 12-byte header, then a bare little-endian IFD
/// whose value offsets count from the TIFF header, less the correction.
#[test]
fn a_panasonic_maker_note_is_read_under_its_tags() {
    let mut d = b"Panasonic\0\0\0".to_vec();
    d.extend_from_slice(&[2, 0]);
    // 0x001c MacroMode = 0x101, inline.
    d.extend_from_slice(&[0x1c, 0, 3, 0, 1, 0, 0, 0, 0x01, 0x01, 0, 0]);
    // 0x0025 InternalSerialNumber, 6 bytes out of line.
    d.extend_from_slice(&[0x25, 0, 7, 0, 6, 0, 0, 0, 0, 0, 0, 0]);
    d.extend_from_slice(&[0, 0, 0, 0]);
    // The value sits at body offset 30; the file states it counted from the
    // TIFF header, the MakerNote being 100 bytes in: 30 + 4 + 100.
    let at = (30u32 + 4 + 100).to_le_bytes();
    d[12 + 2 + 12 + 8..12 + 2 + 12 + 12].copy_from_slice(&at);
    d.extend_from_slice(b"AB12\0\0");
    let (fields, vendor, le, unresolved) = parse_make_note_with_vendor(&d, 100, None).unwrap();
    assert_eq!(vendor, MakerNoteVendor::Panasonic);
    assert!(le);
    assert!(unresolved.is_empty());
    assert_eq!(fields.len(), 2);
    assert_eq!(fields[0].tag, MakerTag::new(MakerNoteVendor::Panasonic, 0x001c));
    assert_eq!(fields[0].custom_display.as_deref(), Some("Tele-Macro"));
    assert_eq!(fields[1].custom_display.as_deref(), Some("AB12"));
    // Too short for the header.
    invalid(parse_make_note_with_vendor(b"Panasonic", 0, None),
            "MakerNote data too short for vendor header");
}

/// An Olympus subdirectory is read under its own table.
#[test]
fn an_olympus_subdirectory_is_read_under_its_own_vendor() {
    let mut d = b"OLYMPUS\0II\x03\0".to_vec();
    // Main IFD at body offset 0: 0x2020 CameraSettings, stated as 22;
    // the correction for Olympus (its 12-byte header less the 8 of a TIFF
    // header) makes that body offset 18.
    d.extend_from_slice(&[1, 0]);
    d.extend_from_slice(&[0x20, 0x20, 13, 0, 1, 0, 0, 0, 22, 0, 0, 0]);
    d.extend_from_slice(&[0, 0, 0, 0]);
    assert_eq!(d.len(), 30);
    // CameraSettings: 0x0507 ColorSpace = 1.
    d.extend_from_slice(&[1, 0]);
    d.extend_from_slice(&[0x07, 0x05, 3, 0, 1, 0, 0, 0, 1, 0, 0, 0]);
    d.extend_from_slice(&[0, 0, 0, 0]);
    let (fields, vendor, le, _) = parse_make_note_with_vendor(&d, 0, None).unwrap();
    assert_eq!(vendor, MakerNoteVendor::Olympus);
    assert!(le);
    assert_eq!(fields.len(), 1);
    assert_eq!(fields[0].tag, MakerTag::new(MakerNoteVendor::OlympusCameraSettings, 0x0507));
    assert_eq!(fields[0].value.get_uint(0), Some(1));
}

#[test]
fn apple_and_pentax_headers_state_their_byte_order() {
    assert!(detect_apple_byte_order(b"Apple iOS\0\0\x01II"));
    assert!(!detect_apple_byte_order(b"Apple iOS\0\0\x01MM"));
    assert!(!detect_apple_byte_order(b"Apple iOS\0\0\x01XX"));
    assert!(!detect_apple_byte_order(b"Apple iOS"));
    assert!(detect_pentax_byte_order(b"AOC\0II"));
    assert!(!detect_pentax_byte_order(b"AOC\0MM"));
    assert!(!detect_pentax_byte_order(b"RICOH\0MM"));
    assert!(detect_pentax_byte_order(b"RICOH\0II"));
    assert!(detect_pentax_byte_order(b"PENTAX \0MM"));
    assert!(detect_pentax_byte_order(b"AOC"));
}

fn sony_9416(style: u8, mount: u8, format: u8, fl: u16, lo: u16, hi: u16, len: usize) -> Vec<u8> {
    let mut d = vec![0u8; len];
    d[0x37] = style;
    d[0x48] = mount;
    d[0x49] = format;
    d[0x71..0x73].copy_from_slice(&fl.to_le_bytes());
    d[0x73..0x75].copy_from_slice(&lo.to_le_bytes());
    if len >= 0x77 {
        d[0x75..0x77].copy_from_slice(&hi.to_le_bytes());
    }
    d
}

#[test]
fn sony_tag9416_is_read_and_shown() {
    let d = sony_9416(1, 2, 2, 350, 240, 700, 0x80);
    let t = SonyTag9416::raw_parse(&d, None).unwrap();
    assert_eq!(t.creative_style, SonyCreativeStyle::Vivid);
    assert_eq!(t.lens_mount, Some(SonyLensMount::EMount));
    assert_eq!(t.lens_format, Some(SonyLensFormat::FullFrame));
    assert_eq!((t.focal_length, t.min_focal_length, t.max_focal_length), (Some(350), Some(240), Some(700)));
    assert_eq!(t.to_text(),
               "CreativeStyle:Vivid, LensMount:E-mount, LensFormat:Full-frame, FocalLength:35.0mm, FocalRange:24.0-70.0mm");
    // A prime: no range; an unknown mount and a zero focal length: left out.
    let d = sony_9416(5, 9, 1, 0, 500, 500, 0x80);
    let t = SonyTag9416::raw_parse(&d, None).unwrap();
    assert_eq!(t.to_text(), "CreativeStyle:B&W, LensFormat:APS-C");
    // 0x76 bytes: no room for the longest focal length.
    let d = sony_9416(0, 1, 0, 123, 100, 200, 0x76);
    let t = SonyTag9416::raw_parse(&d, None).unwrap();
    assert_eq!(t.max_focal_length, None);
    assert_eq!(t.to_text(), "CreativeStyle:Standard, LensMount:A-mount, LensFormat:Unknown, FocalLength:12.3mm");
    // Too short, or no creative style.
    assert!(SonyTag9416::raw_parse(&d[..0x75], None).is_none());
    assert!(SonyTag9416::raw_parse(&sony_9416(12, 1, 1, 1, 1, 1, 0x80), None).is_none());
    // As a Sony field's display.
    let f = MakerNoteField::new(MakerTag::new(MakerNoteVendor::Sony, 0x9416), In(0),
                                Value::Undefined(sony_9416(255, 0, 0, 0, 0, 0, 0x80), 0));
    assert_eq!(f.custom_display.as_deref(), Some("CreativeStyle:Off, LensMount:Unknown, LensFormat:Unknown"));
}

/// A little-endian TIFF whose Exif IFD holds a Panasonic MakerNote.
fn tiff_with_panasonic_note(entries: &[(u16, u16)]) -> Vec<u8> {
    let mut note = b"Panasonic\0\0\0".to_vec();
    note.extend_from_slice(&(entries.len() as u16).to_le_bytes());
    for &(tag, v) in entries {
        note.extend_from_slice(&tag.to_le_bytes());
        note.extend_from_slice(&3u16.to_le_bytes());
        note.extend_from_slice(&1u32.to_le_bytes());
        note.extend_from_slice(&v.to_le_bytes());
        note.extend_from_slice(&[0, 0]);
    }
    note.extend_from_slice(&[0, 0, 0, 0]);
    let mut t = b"II\x2a\0\x08\0\0\0".to_vec();
    // IFD0 at 8: the Exif IFD pointer (26).
    t.extend_from_slice(&[1, 0]);
    t.extend_from_slice(&[0x69, 0x87, 4, 0, 1, 0, 0, 0, 26, 0, 0, 0]);
    t.extend_from_slice(&[0, 0, 0, 0]);
    assert_eq!(t.len(), 26);
    // Exif IFD at 26: the MakerNote at 44.
    t.extend_from_slice(&[1, 0]);
    t.extend_from_slice(&[0x7c, 0x92, 7, 0]);
    t.extend_from_slice(&(note.len() as u32).to_le_bytes());
    t.extend_from_slice(&44u32.to_le_bytes());
    t.extend_from_slice(&[0, 0, 0, 0]);
    assert_eq!(t.len(), 44);
    t.extend_from_slice(&note);
    t
}

#[test]
fn the_reader_parses_the_maker_note_one_field_per_tag() {
    let t = tiff_with_panasonic_note(&[(0x001c, 2), (0x001a, 3), (0x001c, 0x101)]);
    let exif = exif::Reader::new().read_raw(t).unwrap();
    assert_eq!(exif.maker_note_vendor().ok(), Some(MakerNoteVendor::Panasonic));
    assert_eq!(exif.maker_note_fields().len(), 2);
    let macro_mode = exif.get_maker_note_field(&MakerTag::new(MakerNoteVendor::Panasonic, 0x001c)).unwrap();
    assert_eq!(macro_mode.value.get_uint(0), Some(0x101), "the last of a tag is kept");
    assert_eq!(macro_mode.custom_display.as_deref(), Some("Tele-Macro"));
    // It keeps the place where its tag first came.
    assert_eq!(exif.maker_note_fields()[0].tag, MakerTag::new(MakerNoteVendor::Panasonic, 0x001c));
    assert!(exif.get_maker_note_field(&MakerTag::new(MakerNoteVendor::Panasonic, 0x0099)).is_none());
}

#[test]
fn without_a_maker_note_there_is_no_vendor() {
    let mut t = b"II\x2a\0\x08\0\0\0".to_vec();
    t.extend_from_slice(&[0, 0, 0, 0, 0, 0]);
    let exif = exif::Reader::new().read_raw(t).unwrap();
    assert!(matches!(exif.maker_note_vendor(), Err(Error::MakerNoteNotFound)));
    assert!(exif.maker_note_fields().is_empty());
}

#[test]
fn tags_and_vendors_show_their_names() {
    assert_eq!(MakerNoteVendor::OMSystem.to_text(), "OM System");
    assert_eq!(MakerNoteVendor::OlympusRawInfo.to_text(), "OlympusRawInfo");
    assert_eq!(MakerTag::new(MakerNoteVendor::Panasonic, 0x001c).to_text(), "Panasonic:MacroMode");
    assert_eq!(MakerTag::new(MakerNoteVendor::Unknown, 0xbeef).to_text(), "Unknown:0xBEEF");
    assert_eq!(MakerTag::new(MakerNoteVendor::Sony, 0x0a0b).to_text(), "Sony:0x0A0B");
}

#[test]
fn apple_acceleration_is_three_signed_ratios() {

    let v = Value::SRational(vec![SRational { num: -1, denom: 2 }, SRational { num: 3, denom: 4 },
                                  SRational { num: 5, denom: 6 }]);
    let (x, y, z) = exif::make_note::apple::acceleration_components(&v).unwrap();
    assert_eq!((x.num, y.num, z.denom), (-1, 3, 6));
    assert!(exif::make_note::apple::acceleration_components(&Value::SRational(vec![])).is_none());
    assert!(exif::make_note::apple::acceleration_components(&Value::Short(vec![1, 2, 3])).is_none());
}

#[test]
fn a_value_of_no_known_form_shows_as_its_debug_text() {
    let v = Value::Ascii(vec![b"x".to_vec()]);
    let f = MakerNoteField::new(MakerTag::new(MakerNoteVendor::Panasonic, 0x001c), In(0), v.clone());
    assert_eq!(f.custom_display, Some(format!("{:?}", v)));
    // A number no setting is stored as.
    let v = Value::Short(vec![0x7777]);
    let f = MakerNoteField::new(MakerTag::new(MakerNoteVendor::Panasonic, 0x001c), In(0), v.clone());
    assert_eq!(f.custom_display, Some(format!("{:?}", v)));
    // A face record too short to hold its count.
    let v = Value::Undefined(vec![1], 0);
    let f = MakerNoteField::new(MakerTag::new(MakerNoteVendor::Sony, 0x0020), In(0), v.clone());
    assert_eq!(f.custom_display, Some(format!("{:?}", v)));
}
