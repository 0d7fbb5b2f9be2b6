use vstd::prelude::*;
use crate::make_note::maker_tag::TagRow;
use crate::bytes::{spec_u16, load_u16};
use crate::tiff::TIFF_LE;
use crate::value::{Value, SRational};

verus! {

/// The byte order an Apple MakerNote states, `true` for little endian:
/// `II` after `Apple iOS\0` and a two-byte version; anything else there,
/// and a block too short to hold it, is big endian, Apple's usual order.
pub open spec fn apple_little_endian(data: Seq<u8>) -> bool {
    data.len() >= 14 && spec_u16(data, 12, false) == TIFF_LE
}

/// The three components of Apple's acceleration vector (tag 0x0008), in
/// units of g: an SRATIONAL value of exactly three numbers.
pub fn acceleration_components(value: &Value) -> (r: Option<(SRational, SRational, SRational)>)
    ensures
        match value {
            Value::SRational(v) => if v@.len() == 3 {
                r == Some((v@[0], v@[1], v@[2]))
            } else {
                r is None
            },
            _ => r is None,
        },
{
    match value {
        Value::SRational(v) => if v.len() == 3 { Some((v[0], v[1], v[2])) } else { None },
        _ => None,
    }
}

/// Detects the byte order of an Apple MakerNote (`Apple iOS\0`, version,
/// `II` or `MM`): `true` for little endian.
pub fn detect_apple_byte_order(data: &[u8]) -> (r: bool)
    ensures
        r == apple_little_endian(data@),
{
    if data.len() < 14 {
        return false;
    }
    load_u16(data, 12, false) == TIFF_LE
}

/// Apple MakerNote tags: number, name, description.
pub const APPLE_TAGS: [TagRow; 57] = [
    (0x0001, "MakerNoteVersion", "Maker Note Version"),
    (0x0002, "AEMatrix", "AE Matrix"),
    (0x0003, "RunTime", "Run Time"),
    (0x0004, "AEStable", "AE Stable"),
    (0x0005, "AETarget", "AE Target"),
    (0x0006, "AEAverage", "AE Average"),
    (0x0007, "AFStable", "AF Stable"),
    (0x0008, "AccelerationVector", "Acceleration Vector"),
    (0x000c, "FocusDistanceRange", "Focus Distance Range"),
    (0x000d, "Apple_0x000d", "Apple 0x000d"),
    (0x000e, "Apple_0x000e", "Apple 0x000e"),
    (0x0010, "Apple_0x0010", "Apple 0x0010"),
    (0x0014, "ImageCaptureType", "Image Capture Type"),
    (0x0016, "Apple_0x0016", "Apple 0x0016"),
    (0x0017, "LivePhotoVideoIndex", "Live Photo Video Index"),
    (0x0019, "ImageProcessingFlags", "Image Processing Flags"),
    (0x001a, "QualityHint", "Quality Hint"),
    (0x001d, "LuminanceNoiseAmplitude", "Luminance Noise Amplitude"),
    (0x001f, "PhotosAppFeatureFlags", "Photos App Feature Flags"),
    (0x0020, "ImageCaptureRequestID", "Image Capture Request ID"),
    (0x0021, "HDRHeadroom", "HDR Headroom"),
    (0x0023, "AFPerformance", "AF Performance"),
    (0x0025, "SceneFlags", "Scene Flags"),
    (0x0026, "SignalToNoiseRatioType", "Signal To Noise Ratio Type"),
    (0x0027, "SignalToNoiseRatio", "Signal To Noise Ratio"),
    (0x002b, "PhotoIdentifier", "Photo Identifier"),
    (0x002f, "ColorTemperature", "Color Temperature"),
    (0x0033, "CameraType", "Camera Type"),
    (0x0034, "FocusPosition", "Focus Position"),
    (0x0035, "HDRGain", "HDR Gain"),
    (0x0036, "Apple_0x0036", "Apple 0x0036"),
    (0x0037, "Apple_0x0037", "Apple 0x0037"),
    (0x0038, "AFMeasuredDepth", "AF Measured Depth"),
    (0x0039, "Apple_0x0039", "Apple 0x0039"),
    (0x003a, "Apple_0x003a", "Apple 0x003a"),
    (0x003b, "Apple_0x003b", "Apple 0x003b"),
    (0x003c, "Apple_0x003c", "Apple 0x003c"),
    (0x003d, "AFConfidence", "AF Confidence"),
    (0x003e, "GreenGhostMitigationStatus", "Green Ghost Mitigation Status"),
    (0x003f, "SemanticStyleRenderingVer", "Semantic Style Rendering Ver"),
    (0x0040, "SemanticStylePreset", "Semantic Style Preset"),
    (0x0043, "Apple_0x0043", "Apple 0x0043"),
    (0x0044, "Apple_0x0044", "Apple 0x0044"),
    (0x0045, "Apple_0x0045", "Apple 0x0045"),
    (0x0046, "Apple_0x0046", "Apple 0x0046"),
    (0x0048, "Apple_0x0048", "Apple 0x0048"),
    (0x0049, "Apple_0x0049", "Apple 0x0049"),
    (0x004a, "Apple_0x004a", "Apple 0x004a"),
    (0x004d, "Apple_0x004d", "Apple 0x004d"),
    (0x004e, "Apple_0x004e", "Apple 0x004e"),
    (0x004f, "Apple_0x004f", "Apple 0x004f"),
    (0x0052, "Apple_0x0052", "Apple 0x0052"),
    (0x0053, "Apple_0x0053", "Apple 0x0053"),
    (0x0054, "Apple_0x0054", "Apple 0x0054"),
    (0x0055, "Apple_0x0055", "Apple 0x0055"),
    (0x0058, "Apple_0x0058", "Apple 0x0058"),
    (0x005a, "Apple_0x005a", "Apple 0x005a"),
];

} // verus!
