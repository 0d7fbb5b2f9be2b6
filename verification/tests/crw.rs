use exif::crw::{focal_length_field, get_contents, is_crw, rotation_to_orientation, Deferred, SETTING_FOCAL_UNITS};
use exif::{Error, In, Tag, Value};

#[test]
fn magic_needs_the_heap_name_not_just_the_byte_order() {
    assert!(is_crw(b"II\x1a\x00\x00\x00HEAPCCDR\x02\x00"));
    assert!(!is_crw(b"II\x2a\x00\x08\x00\x00\x00\x00\x00\x00\x00\x00\x00"));
    assert!(!is_crw(b"II\x1a\x00"));
}

#[test]
fn rotation_degrees_become_orientations() {
    assert_eq!(rotation_to_orientation(0), Some(1));
    assert_eq!(rotation_to_orientation(90), Some(6));
    assert_eq!(rotation_to_orientation(180), Some(3));
    assert_eq!(rotation_to_orientation(270), Some(8));
    assert_eq!(rotation_to_orientation(45), None);
}

fn deferred() -> Deferred {
    Deferred { shot_info: Vec::new(), camera_settings: Vec::new(), base_iso: None, focal: None }
}

#[test]
fn focal_length_is_in_the_units_the_settings_name() {
    let mut acc = deferred();
    acc.focal = Some(240);
    acc.camera_settings = vec![0u16; 40];
    acc.camera_settings[SETTING_FOCAL_UNITS] = 32;
    let mut out = Vec::new();
    focal_length_field(&acc, &mut out);
    let Value::Rational(ref r) = out[0].value else { panic!("not a rational") };
    assert_eq!((r[0].num, r[0].denom), (240, 32));
}

#[test]
fn a_focal_length_without_settings_is_in_millimetres() {
    let mut acc = deferred();
    acc.focal = Some(21);
    let mut out = Vec::new();
    focal_length_field(&acc, &mut out);
    let Value::Rational(ref r) = out[0].value else { panic!("not a rational") };
    assert_eq!((r[0].num, r[0].denom), (21, 1));
    assert_eq!(out[0].tag, Tag::FocalLength());
}

fn ascii_of(fields: &[exif::Field], tag: Tag) -> Option<Vec<u8>> {
    fields.iter().find(|f| f.tag == tag).and_then(|f| match &f.value {
        Value::Ascii(v) => Some(v[0].clone()),
        _ => None,
    })
}

#[test]
fn a_heap_states_make_model_and_serial() {
    let mut f = b"II\x0e\x00\x00\x00HEAPCCDR".to_vec();
    f.extend_from_slice(b"Canon\0EOS\0");
    f.extend_from_slice(&2u16.to_le_bytes());
    // MakeModel, stored at offset 0 of the heap.
    f.extend_from_slice(&0x080au16.to_le_bytes());
    f.extend_from_slice(&10u32.to_le_bytes());
    f.extend_from_slice(&0u32.to_le_bytes());
    // The serial number, stored in the entry itself.
    f.extend_from_slice(&0x580bu16.to_le_bytes());
    f.extend_from_slice(&560u32.to_le_bytes());
    f.extend_from_slice(&0u32.to_le_bytes());
    f.extend_from_slice(&10u32.to_le_bytes());
    let (c, _acc) = get_contents(&f).unwrap();
    assert_eq!(ascii_of(&c.fields, Tag::Make()), Some(b"Canon".to_vec()));
    assert_eq!(ascii_of(&c.fields, Tag::Model()), Some(b"EOS".to_vec()));
    assert_eq!(ascii_of(&c.fields, Tag::BodySerialNumber()), Some(b"560".to_vec()));
    assert_eq!(c.fields.len(), 3);
    assert!(c.fields.iter().all(|f| f.ifd_num == In::PRIMARY()));
    assert!(c.preview.is_none());
}

#[test]
fn crw_errors() {
    assert!(matches!(get_contents(b"II"), Err(Error::InvalidFormat("Truncated CRW"))));
    assert!(matches!(get_contents(b"MM\x1a\x00\x00\x00HEAPCCDR\x02\x00"), Err(Error::InvalidFormat("Not a CRW file"))));
    assert!(matches!(get_contents(b"II\xff\x00\x00\x00HEAPCCDR\x02\x00"),
                     Err(Error::InvalidFormat("CRW heap is out of range"))));
}

fn small_crw() -> Vec<u8> {
    let mut f = b"II\x0e\x00\x00\x00HEAPCCDR".to_vec();
    f.extend_from_slice(b"Canon\0EOS\0");
    f.extend_from_slice(&1u16.to_le_bytes());
    f.extend_from_slice(&0x080au16.to_le_bytes());
    f.extend_from_slice(&10u32.to_le_bytes());
    f.extend_from_slice(&0u32.to_le_bytes());
    f.extend_from_slice(&10u32.to_le_bytes());
    f
}

#[test]
fn a_crw_read_as_a_container_has_its_fields_then_the_callers() {
    let f = small_crw();
    let extra = vec![exif::Field { tag: Tag(exif::Context::Exif, 0x829a), ifd_num: In(0),
                                   value: Value::Rational(vec![exif::Rational { num: 1, denom: 250 }]) }];
    let exif = exif::Reader::new().read_from_container_with(&f, extra).unwrap();
    let tags: Vec<Tag> = exif.fields().iter().map(|f| f.tag).collect();
    assert_eq!(tags, vec![Tag::Make(), Tag::Model(), Tag(exif::Context::Exif, 0x829a)]);
    // An unread value is no field to add.
    let junk = vec![exif::Field { tag: Tag::Make(), ifd_num: In(0), value: Value::Unknown(2, 4, 0) }];
    let exif = exif::Reader::new().read_from_container_with(&f, junk).unwrap();
    assert_eq!(exif.fields().len(), 2);
    assert!(exif.buf().len() == 14);
}

#[test]
fn the_shot_iso_comes_first_then_the_base_iso() {
    let f = exif::crw::iso_field(Some(100), Some(50)).unwrap();
    assert_eq!((f.tag, f.value.get_uint(0)), (Tag::PhotographicSensitivity(), Some(100)));
    assert_eq!(exif::crw::iso_field(None, Some(50)).unwrap().value.get_uint(0), Some(50));
    assert_eq!(exif::crw::iso_field(Some(70000), None).unwrap().value.get_uint(0), Some(65535));
    assert!(exif::crw::iso_field(Some(0), Some(50)).is_none());
    assert!(exif::crw::iso_field(None, None).is_none());
    let mut acc = deferred();
    acc.shot_info = vec![0, 0xffff, 160];
    assert_eq!(exif::crw::shot_value(&acc, 0), None);
    assert_eq!(exif::crw::shot_value(&acc, 1), None);
    assert_eq!(exif::crw::shot_value(&acc, 2), Some(160));
    assert_eq!(exif::crw::shot_value(&acc, 3), None);
}
