use exif::jpeg::{get_exif_and_mpf_sub, get_exif_attr, is_jpeg};
use exif::Error;

#[test]
fn jpeg_truncated() {
    let sets: &[&[u8]] = &[
        b"",
        b"\xff",
        b"\xff\xd8",
        b"\xff\xd8\x00",
        b"\xff\xd8\xff",
        b"\xff\xd8\xff\xe1\x00\x08\x03\x04",
    ];
    for &data in sets {
        assert!(matches!(get_exif_attr(data),
                         Err(Error::InvalidFormat("Broken JPEG file"))));
    }

    let mut data = b"\xff\xd8\xff\xe1\x00\x08Exif\0\0".to_vec();
    assert_eq!(get_exif_attr(&data).unwrap(), b"");
    while let Some(_) = data.pop() {
        get_exif_attr(&data).unwrap_err();
    }
}

#[test]
fn no_exif() {
    let data = b"\xff\xd8\xff\xd9";
    assert!(matches!(get_exif_attr(data), Err(Error::NotFound(_))));
}

#[test]
fn out_of_sync() {
    let data = b"\xff\xd8\x01\x02\x03\xff\x00\xff\xd9";
    assert!(matches!(get_exif_attr(data), Err(Error::NotFound(_))));
}

#[test]
fn empty() {
    let data = b"\xff\xd8\xff\xe1\x00\x08Exif\0\0\xff\xd9";
    assert_eq!(get_exif_attr(data).unwrap(), b"");
}

#[test]
fn non_empty() {
    let data = b"\xff\xd8\xff\xe1\x00\x0aExif\0\0\xbe\xad\xff\xd9";
    assert_eq!(get_exif_attr(data).unwrap(), [0xbe, 0xad]);
}

#[test]
fn jpeg_errors_by_kind() {
    assert!(matches!(get_exif_attr(b"\x89PNG"), Err(Error::InvalidFormat("Not a JPEG file"))));
    assert!(matches!(get_exif_attr(b"\xff\xd8\xff\xd8"), Err(Error::InvalidFormat("Unexpected SOI"))));
    assert!(matches!(get_exif_attr(b"\xff\xd8\xff\xe0\x00\x01"),
                     Err(Error::InvalidFormat("Invalid segment length"))));
    assert!(is_jpeg(b"\xff\xd8\xff"));
    assert!(!is_jpeg(b"\xff"));
}

#[test]
fn fill_bytes_and_other_segments_are_skipped() {
    // An APP0 first, fill bytes before the APP1 marker.
    let data = b"\xff\xd8\xff\xe0\x00\x04JF\xff\xff\xff\xe1\x00\x09Exif\0\0\x42\xff\xd9";
    assert_eq!(get_exif_attr(data).unwrap(), [0x42]);
}

#[test]
fn segments_carry_the_mpf_and_its_position() {
    let data = b"\xff\xd8\xff\xe1\x00\x09Exif\0\0\x42\xff\xe2\x00\x08MPF\0\x01\x02\xff\xd9";
    let s = get_exif_and_mpf_sub(data).unwrap();
    assert_eq!(s.exif_data, [0x42]);
    assert_eq!(s.mpf_data.unwrap(), [0x01, 0x02]);
    assert_eq!(s.mpf_app2_offset, 21);
    let data = b"\xff\xd8\xff\xe1\x00\x09Exif\0\0\x42\xff\xd9";
    let s = get_exif_and_mpf_sub(data).unwrap();
    assert!(s.mpf_data.is_none());
    assert_eq!(s.mpf_app2_offset, 0);
    assert!(matches!(get_exif_and_mpf_sub(b"\xff\xd8\xff\xe1\x00\x09Exif\0\0\x42"), Err(Error::Io(_))));
    assert!(matches!(get_exif_and_mpf_sub(b"\xff\xd8\xff\xda\x00\x02"), Err(Error::NotFound(_))));
}
