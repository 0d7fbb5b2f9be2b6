use exif::mrw::{get_exif_attr, is_mrw, MrwRawImage};
use exif::Error;

const MRW_MAGIC: &[u8] = b"\x00MRM";
const TTW: &[u8; 4] = b"\x00TTW";

fn mrw(order: &[&[u8; 4]], ttw: &[u8]) -> Vec<u8> {
    let mut blocks = Vec::new();
    for name in order {
        let body: &[u8] = if *name == TTW { ttw } else { &[0u8; 16] };
        blocks.extend_from_slice(*name);
        blocks.extend_from_slice(&(body.len() as u32).to_be_bytes());
        blocks.extend_from_slice(body);
    }
    let mut f = MRW_MAGIC.to_vec();
    f.extend_from_slice(&(blocks.len() as u32).to_be_bytes());
    f.extend_from_slice(&blocks);
    f
}

const TIFF: &[u8] = b"MM\x00\x2a\x00\x00\x00\x08\x00\x00\x00\x00\x00\x00";

#[test]
fn finds_the_tiff_wherever_the_block_sits() {
    for order in [
        &[b"\x00PRD", b"\x00WBG", b"\x00RIF", TTW][..],
        &[b"\x00PRD", TTW, b"\x00WBG", b"\x00RIF"][..],
    ] {
        let f = mrw(order, TIFF);
        let got = get_exif_attr(&f).expect("TTW");
        assert_eq!(got.exif, TIFF);
        assert_eq!(&f[got.tiff_offset as usize..][..TIFF.len()], TIFF);
    }
}

#[test]
fn refuses_a_file_that_is_not_mrw() {
    assert!(get_exif_attr(b"MM\x00\x2a").is_err());
    assert!(get_exif_attr(&[]).is_err());
    assert!(!is_mrw(b"MM\x00\x2a"));
    assert!(is_mrw(MRW_MAGIC));
}

#[test]
fn a_file_without_a_ttw_block_reports_nothing() {
    let f = mrw(&[b"\x00PRD", b"\x00WBG"], TIFF);
    assert!(matches!(get_exif_attr(&f), Err(Error::NotFound(_))));
}

#[test]
fn refuses_an_absurd_header_length() {
    let mut f = MRW_MAGIC.to_vec();
    f.extend_from_slice(&u32::MAX.to_be_bytes());
    assert!(get_exif_attr(&f).is_err());
}

#[test]
fn the_prd_block_states_the_output_size() {
    let mut f = MRW_MAGIC.to_vec();
    let mut blocks = b"\x00PRD\0\0\0\x10".to_vec();
    blocks.extend_from_slice(&[0, 0, 0, 0, 0, 0, 0, 0, 0x06, 0x08, 0x08, 0x00, 0x06, 0x08, 0x08, 0x00]);
    blocks.extend_from_slice(TTW);
    blocks.extend_from_slice(&(TIFF.len() as u32).to_be_bytes());
    blocks.extend_from_slice(TIFF);
    f.extend_from_slice(&(blocks.len() as u32).to_be_bytes());
    f.extend_from_slice(&blocks);
    let got = get_exif_attr(&f).unwrap();
    assert_eq!(got.raw_image, Some(MrwRawImage { width: 0x0800, height: 0x0608 }));
}
