use exif::{Error, In, Reader, Tag};

fn tiff_le(width: u16) -> Vec<u8> {
    let mut t = b"II\x2a\0\x08\0\0\0".to_vec();
    t.extend_from_slice(&1u16.to_le_bytes());
    t.extend_from_slice(&0x0100u16.to_le_bytes());
    t.extend_from_slice(&3u16.to_le_bytes());
    t.extend_from_slice(&1u32.to_le_bytes());
    t.extend_from_slice(&width.to_le_bytes());
    t.extend_from_slice(&[0, 0, 0, 0, 0, 0]);
    t
}

fn png_chunk(out: &mut Vec<u8>, ctype: &[u8; 4], data: &[u8]) {
    out.extend_from_slice(&(data.len() as u32).to_be_bytes());
    out.extend_from_slice(ctype);
    out.extend_from_slice(data);
    out.extend_from_slice(&[0, 0, 0, 0]);
}

fn png_with(exif: Option<&[u8]>) -> Vec<u8> {
    let mut f = b"\x89PNG\x0d\x0a\x1a\x0a".to_vec();
    png_chunk(&mut f, b"IHDR", &[0; 13]);
    if let Some(e) = exif {
        png_chunk(&mut f, b"eXIf", e);
    }
    png_chunk(&mut f, b"IEND", &[]);
    f
}

#[test]
fn a_png_exif_chunk_is_read() {
    let t = tiff_le(17);
    let f = png_with(Some(&t));
    assert_eq!(exif::png::get_exif_attr(&f).unwrap(), t);
    let exif = Reader::new().read_from_container(&f).unwrap();
    assert_eq!(exif.get_field(Tag::ImageWidth(), In(0)).and_then(|f| f.value.get_uint(0)), Some(17));
    assert_eq!(exif.tiff_base(), 0);
}

#[test]
fn png_errors() {
    assert!(matches!(exif::png::get_exif_attr(&png_with(None)), Err(Error::NotFound("PNG"))));
    assert!(matches!(exif::png::get_exif_attr(b"\x89PNG"), Err(Error::InvalidFormat("Broken PNG file"))));
    assert!(matches!(exif::png::get_exif_attr(b"GIF89a\0\0\0\0"), Err(Error::InvalidFormat("Not a PNG file"))));
    let mut f = png_with(None);
    f.truncate(f.len() - 2);
    assert!(matches!(exif::png::get_exif_attr(&f), Err(Error::InvalidFormat("Broken PNG file"))));
    assert!(exif::png::is_png(b"\x89PNG\x0d\x0a\x1a\x0a"));
}

fn webp_with(chunks: &[(&[u8; 4], &[u8])]) -> Vec<u8> {
    let mut body = b"WEBP".to_vec();
    for (id, data) in chunks {
        body.extend_from_slice(*id);
        body.extend_from_slice(&(data.len() as u32).to_le_bytes());
        body.extend_from_slice(data);
        if data.len() % 2 == 1 {
            body.push(0);
        }
    }
    let mut f = b"RIFF".to_vec();
    f.extend_from_slice(&(body.len() as u32).to_le_bytes());
    f.extend_from_slice(&body);
    f
}

#[test]
fn a_webp_exif_chunk_is_read() {
    let t = tiff_le(23);
    let f = webp_with(&[(b"VP8X", &[0; 9]), (b"EXIF", &t)]);
    assert_eq!(exif::webp::get_exif_attr(&f).unwrap(), t);
    let exif = Reader::new().read_from_container(&f).unwrap();
    assert_eq!(exif.get_field(Tag::ImageWidth(), In(0)).and_then(|f| f.value.get_uint(0)), Some(23));
}

#[test]
fn webp_errors() {
    assert!(matches!(exif::webp::get_exif_attr(&webp_with(&[(b"VP8 ", &[0; 4])])), Err(Error::NotFound("WebP"))));
    assert!(matches!(exif::webp::get_exif_attr(b"RIFF\0\0\0\0WEBP"), Err(Error::InvalidFormat("Invalid header file size"))));
    assert!(matches!(exif::webp::get_exif_attr(b"RIFF\x04\0\0\0WEBX"), Err(Error::InvalidFormat("Not a WebP file"))));
    let mut f = webp_with(&[(b"EXIF", &[1, 2, 3, 4])]);
    f.truncate(f.len() - 1);
    assert!(matches!(exif::webp::get_exif_attr(&f), Err(Error::InvalidFormat("Truncated chunk"))));
    let mut g = webp_with(&[(b"VP8 ", &[0; 4])]);
    g.truncate(g.len() - 1);
    assert!(matches!(exif::webp::get_exif_attr(&g), Err(Error::InvalidFormat("Broken WebP file"))));
    assert!(exif::webp::is_webp(b"RIFF\x04\0\0\0WEBP"));
}
