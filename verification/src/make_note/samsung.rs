use vstd::prelude::*;
use crate::make_note::maker_tag::TagRow;
use crate::bytes::{spec_u16, load_u16};

verus! {

/// Whether a tag number is one a Samsung MakerNote starts with.
pub open spec fn is_first_tag(t: int) -> bool {
    t == 1 || t == 2 || t == 3 || t == 4
}

/// Whether a tag number is one a Samsung MakerNote's second entry has.
pub open spec fn is_second_tag(t: int) -> bool {
    t == 1 || t == 2 || t == 3 || t == 4 || t == 0x0a || t == 0x0e
}

/// The byte order of a Samsung MakerNote's bare IFD, `true` for little
/// endian: the reading under which the first entry's tag (and, with 26
/// bytes, the second's) is one Samsung writes first; where both or neither
/// readings are, the one giving the smaller entry count, if under 200;
/// little endian for a block too short to tell.
pub open spec fn samsung_little_endian(d: Seq<u8>) -> bool {
    if d.len() < 14 {
        true
    } else {
        let le1 = is_first_tag(spec_u16(d, 2, true));
        let be1 = is_first_tag(spec_u16(d, 2, false));
        let le2 = is_second_tag(spec_u16(d, 14, true));
        let be2 = is_second_tag(spec_u16(d, 14, false));
        if d.len() >= 26 && le1 && le2 {
            true
        } else if d.len() >= 26 && be1 && be2 {
            false
        } else if le1 && !be1 {
            true
        } else if be1 && !le1 {
            false
        } else {
            spec_u16(d, 0, true) < spec_u16(d, 0, false) && spec_u16(d, 0, true) < 200
        }
    }
}

/// Detects the byte order of a Samsung MakerNote's bare IFD from its
/// first tag numbers: `true` for little endian.
pub fn detect_samsung_byte_order(data: &[u8]) -> (r: bool)
    ensures
        r == samsung_little_endian(data@),
{
    // Entry count, then entries of tag, type, count and value.
    if data.len() < 14 {
        return true;
    }
    let t1_le = load_u16(data, 2, true);
    let t1_be = load_u16(data, 2, false);
    let le1 = t1_le == 1 || t1_le == 2 || t1_le == 3 || t1_le == 4;
    let be1 = t1_be == 1 || t1_be == 2 || t1_be == 3 || t1_be == 4;
    if data.len() >= 26 {
        let t2_le = load_u16(data, 14, true);
        let t2_be = load_u16(data, 14, false);
        let le2 = t2_le == 1 || t2_le == 2 || t2_le == 3 || t2_le == 4 || t2_le == 0x0a || t2_le == 0x0e;
        let be2 = t2_be == 1 || t2_be == 2 || t2_be == 3 || t2_be == 4 || t2_be == 0x0a || t2_be == 0x0e;
        if le1 && le2 {
            return true;
        }
        if be1 && be2 {
            return false;
        }
    }
    if le1 && !be1 {
        true
    } else if be1 && !le1 {
        false
    } else {
        let count_le = load_u16(data, 0, true);
        let count_be = load_u16(data, 0, false);
        count_le < count_be && count_le < 200
    }
}

/// Samsung MakerNote tags: number, name, description.
pub const SAMSUNG_TAGS: [TagRow; 51] = [
    (0x0001, "MakerNoteVersion", "Maker Note Version"),
    (0x0002, "DeviceType", "Device Type"),
    (0x0003, "SamsungModelID", "Samsung Model ID"),
    (0x0043, "CameraTemperature", "Camera Temperature"),
    (0x0100, "FaceDetect", "Face Detect"),
    (0x0120, "FaceRecognition", "Face Recognition"),
    (0x0123, "FaceName", "Face Name"),
    (0x0a00, "SmartAlbumColor", "Smart Album Color"),
    (0x0a01, "PictureWizardMode", "Picture Wizard Mode"),
    (0x0a02, "PictureWizardColor", "Picture Wizard Color"),
    (0x0a03, "PictureWizardSaturation", "Picture Wizard Saturation"),
    (0x0a04, "PictureWizardSharpness", "Picture Wizard Sharpness"),
    (0x0a05, "PictureWizardContrast", "Picture Wizard Contrast"),
    (0x0a08, "WhiteBalanceSetup", "White Balance Setup"),
    (0x0a09, "RawDataByteOrder", "Raw Data Byte Order"),
    (0x0a0a, "RawDataCFAPattern", "Raw Data CFA Pattern"),
    (0x0a20, "FirmwareName", "Firmware Name"),
    (0x0a21, "SerialNumber", "Serial Number"),
    (0x0a22, "LensType", "Lens Type"),
    (0x0a23, "LensFirmware", "Lens Firmware"),
    (0x0a24, "InternalLensSerialNumber", "Internal Lens Serial Number"),
    (0x0a25, "DustDeleteData", "Dust Delete Data"),
    (0x0a26, "ColorSpace", "Color Space"),
    (0x0a27, "EncryptionKey", "Encryption Key"),
    (0x0a28, "WB_RGGBLevelsAuto", "WB RGGB Levels Auto"),
    (0x0a29, "WB_RGGBLevelsIlluminator1", "WB RGGB Levels Illuminator1"),
    (0x0a2a, "WB_RGGBLevelsIlluminator2", "WB RGGB Levels Illuminator2"),
    (0x0a2b, "ImageCount", "Image Count"),
    (0x0a2c, "FlashMode", "Flash Mode"),
    (0x0a2d, "ColorTemperature", "Color Temperature"),
    (0x0a2e, "ColorMatrix", "Color Matrix"),
    (0x0a2f, "ColorMatrixSRGB", "Color Matrix sRGB"),
    (0x0a30, "ColorMatrixAdobeRGB", "Color Matrix Adobe RGB"),
    (0x0a31, "ToneCurve1", "Tone Curve 1"),
    (0x0a32, "ToneCurve2", "Tone Curve 2"),
    (0x0a33, "ToneCurve3", "Tone Curve 3"),
    (0x0a34, "ToneCurve4", "Tone Curve 4"),
    (0x0a35, "FlashFired", "Flash Fired"),
    (0x0a36, "ImageUniqueID", "Image Unique ID"),
    (0x0a37, "RawImageUniqueID", "Raw Image Unique ID"),
    (0x0a38, "PreviewImageRelativeOrientation", "Preview Image Relative Orientation"),
    (0x0a39, "PreviewImageLength", "Preview Image Length"),
    (0x0a3a, "SensorAreas", "Sensor Areas"),
    (0x0a3b, "BatteryLevel", "Battery Level"),
    (0x0a3c, "BlackLevel", "Black Level"),
    (0x0a3d, "WB_RGGBLevelsBlack", "WB RGGB Levels Black"),
    (0x0a3e, "CameraBright", "Camera Bright"),
    (0x0a3f, "CameraContrast", "Camera Contrast"),
    (0x0a40, "CameraSaturation", "Camera Saturation"),
    (0x0a41, "CameraSharpness", "Camera Sharpness"),
    (0x0a42, "ImageStabilization", "Image Stabilization"),
];

} // verus!
