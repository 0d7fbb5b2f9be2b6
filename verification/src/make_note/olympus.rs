use vstd::prelude::*;
use crate::make_note::maker_tag::{TagRow, MakerNoteVendor};

verus! {

/// Olympus and OM System MakerNote tags: number, name, description.
pub const OLYMPUS_TAGS: [TagRow; 90] = [
    (0x0000, "MakerNoteVersion", "Maker Note Version"),
    (0x0001, "MinoltaCameraSettingsOld", "Minolta Camera Settings Old"),
    (0x0003, "MinoltaCameraSettings", "Minolta Camera Settings"),
    (0x0040, "CompressedImageSize", "Compressed Image Size"),
    (0x0081, "PreviewImageData", "Preview Image Data"),
    (0x0088, "PreviewImageStart", "Preview Image Start"),
    (0x0089, "PreviewImageLength", "Preview Image Length"),
    (0x0100, "ThumbnailImage", "Thumbnail Image"),
    (0x0104, "BodyFirmwareVersion", "Body Firmware Version"),
    (0x0200, "SpecialMode", "Special Mode"),
    (0x0201, "Quality", "Quality"),
    (0x0202, "Macro", "Macro"),
    (0x0203, "BWMode", "BW Mode"),
    (0x0204, "DigitalZoom", "Digital Zoom"),
    (0x0205, "FocalPlaneDiagonal", "Focal Plane Diagonal"),
    (0x0206, "LensDistortionParams", "Lens Distortion Params"),
    (0x0207, "CameraType", "Camera Type"),
    (0x0208, "TextInfo", "Text Info"),
    (0x0209, "CameraID", "Camera ID"),
    (0x0f00, "DataDump", "Data Dump"),
    (0x1000, "ShutterSpeedValue", "Shutter Speed Value"),
    (0x1001, "ISOValue", "ISO Value"),
    (0x1002, "ApertureValue", "Aperture Value"),
    (0x1003, "BrightnessValue", "Brightness Value"),
    (0x1004, "FlashMode", "Flash Mode"),
    (0x1005, "FlashDevice", "Flash Device"),
    (0x1006, "ExposureCompensation", "Exposure Compensation"),
    (0x1007, "SensorTemperature", "Sensor Temperature"),
    (0x1008, "LensTemperature", "Lens Temperature"),
    (0x1009, "LightCondition", "Light Condition"),
    (0x100a, "FocusRange", "Focus Range"),
    (0x100b, "FocusMode", "Focus Mode"),
    (0x100c, "ManualFocusDistance", "Manual Focus Distance"),
    (0x100d, "ZoomStepCount", "Zoom Step Count"),
    (0x100e, "FocusStepCount", "Focus Step Count"),
    (0x100f, "Sharpness", "Sharpness"),
    (0x1010, "FlashChargeLevel", "Flash Charge Level"),
    (0x1011, "ColorMatrix", "Color Matrix"),
    (0x1012, "BlackLevel", "Black Level"),
    (0x1013, "ColorTemperatureBG", "Color Temperature BG"),
    (0x1014, "ColorTemperatureRG", "Color Temperature RG"),
    (0x1015, "WBMode", "WB Mode"),
    (0x1017, "RedBalance", "Red Balance"),
    (0x1018, "BlueBalance", "Blue Balance"),
    (0x1019, "ColorMatrixNumber", "Color Matrix Number"),
    (0x101a, "SerialNumber", "Serial Number"),
    (0x101b, "ExternalFlashAE1_0", "External Flash AE 1.0"),
    (0x101c, "ExternalFlashAE2_0", "External Flash AE 2.0"),
    (0x101d, "InternalFlashAE1_0", "Internal Flash AE 1.0"),
    (0x101e, "InternalFlashAE2_0", "Internal Flash AE 2.0"),
    (0x101f, "ExternalFlashAE1", "External Flash AE 1"),
    (0x1020, "ExternalFlashAE2", "External Flash AE 2"),
    (0x1021, "InternalFlashAE1", "Internal Flash AE 1"),
    (0x1022, "InternalFlashAE2", "Internal Flash AE 2"),
    (0x1023, "FlashExposureComp", "Flash Exposure Comp"),
    (0x1024, "InternalFlashTable", "Internal Flash Table"),
    (0x1025, "ExternalFlashGValue", "External Flash G Value"),
    (0x1026, "ExternalFlashBounce", "External Flash Bounce"),
    (0x1027, "ExternalFlashZoom", "External Flash Zoom"),
    (0x1028, "ExternalFlashMode", "External Flash Mode"),
    (0x1029, "Contrast", "Contrast"),
    (0x102a, "SharpnessFactor", "Sharpness Factor"),
    (0x102b, "ColorControl", "Color Control"),
    (0x102c, "ValidBits", "Valid Bits"),
    (0x102d, "CoringFilter", "Coring Filter"),
    (0x102e, "OlympusImageWidth", "Olympus Image Width"),
    (0x102f, "OlympusImageHeight", "Olympus Image Height"),
    (0x1030, "SceneDetect", "Scene Detect"),
    (0x1031, "SceneArea", "Scene Area"),
    (0x1033, "SceneDetectData", "Scene Detect Data"),
    (0x1034, "CompressionRatio", "Compression Ratio"),
    (0x1035, "PreviewImageValid", "Preview Image Valid"),
    (0x1036, "PreviewImageStart2", "Preview Image Start 2"),
    (0x1037, "PreviewImageLength2", "Preview Image Length 2"),
    (0x1038, "AFResult", "AF Result"),
    (0x1039, "CCDScanMode", "CCD Scan Mode"),
    (0x103a, "NoiseReduction", "Noise Reduction"),
    (0x103b, "InfinityLensStep", "Infinity Lens Step"),
    (0x103c, "NearLensStep", "Near Lens Step"),
    (0x103d, "LightValueCenter", "Light Value Center"),
    (0x103e, "LightValuePeriphery", "Light Value Periphery"),
    (0x103f, "FieldCount", "Field Count"),
    (0x2010, "Equipment", "Equipment"),
    (0x2020, "CameraSettings", "Camera Settings"),
    (0x2030, "RawDevelopment", "Raw Development"),
    (0x2031, "RawDev2", "Raw Dev 2"),
    (0x2040, "ImageProcessing", "Image Processing"),
    (0x2050, "FocusInfo", "Focus Info"),
    (0x3000, "RawInfo", "Raw Info"),
    (0x4000, "MainInfo", "Main Info"),
];

/// Tags of the Olympus Equipment subdirectory (0x2010).
pub const OLYMPUS_EQUIPMENT_TAGS: [TagRow; 25] = [
    (0x0000, "EquipmentVersion", "Equipment Version"),
    (0x0100, "CameraType2", "Camera Type2"),
    (0x0101, "SerialNumber2", "Serial Number"),
    (0x0102, "InternalSerialNumber", "Internal Serial Number"),
    (0x0103, "FocalPlaneDiagonal2", "Focal Plane Diagonal"),
    (0x0104, "BodyFirmwareVersion2", "Body Firmware Version"),
    (0x0201, "LensType", "Lens Type"),
    (0x0202, "LensSerialNumber", "Lens Serial Number"),
    (0x0203, "LensModel", "Lens Model"),
    (0x0204, "LensFirmwareVersion", "Lens Firmware Version"),
    (0x0205, "MaxApertureAtMinFocal", "Max Aperture At Min Focal"),
    (0x0206, "MaxApertureAtMaxFocal", "Max Aperture At Max Focal"),
    (0x0207, "MinFocalLength", "Min Focal Length"),
    (0x0208, "MaxFocalLength", "Max Focal Length"),
    (0x020a, "MaxAperture2", "Max Aperture"),
    (0x020b, "LensProperties", "Lens Properties"),
    (0x0301, "Extender", "Extender"),
    (0x0302, "ExtenderSerialNumber", "Extender Serial Number"),
    (0x0303, "ExtenderModel", "Extender Model"),
    (0x0304, "ExtenderFirmwareVersion", "Extender Firmware Version"),
    (0x0403, "ConversionLens", "Conversion Lens"),
    (0x1000, "FlashType", "Flash Type"),
    (0x1001, "FlashModel2", "Flash Model"),
    (0x1002, "FlashFirmwareVersion", "Flash Firmware Version"),
    (0x1003, "FlashSerialNumber", "Flash Serial Number"),
];

/// Tags of the Olympus CameraSettings subdirectory (0x2020).
pub const OLYMPUS_CAMERA_SETTINGS_TAGS: [TagRow; 72] = [
    (0x0000, "CameraSettingsVersion", "Camera Settings Version"),
    (0x0100, "PreviewImageValid2", "Preview Image Valid"),
    (0x0101, "PreviewImageStart3", "Preview Image Start"),
    (0x0102, "PreviewImageLength3", "Preview Image Length"),
    (0x0200, "ExposureMode2", "Exposure Mode"),
    (0x0201, "AELock2", "AE Lock"),
    (0x0202, "MeteringMode2", "Metering Mode"),
    (0x0203, "ExposureShift", "Exposure Shift"),
    (0x0204, "NDFilter", "ND Filter"),
    (0x0300, "MacroMode2", "Macro Mode"),
    (0x0301, "FocusMode2", "Focus Mode"),
    (0x0302, "FocusProcess2", "Focus Process"),
    (0x0303, "AFSearch", "AF Search"),
    (0x0304, "AFAreas", "AF Areas"),
    (0x0305, "AFPointSelected2", "AF Point Selected"),
    (0x0306, "AFFineTune", "AF Fine Tune"),
    (0x0307, "AFFineTuneAdj", "AF Fine Tune Adj"),
    (0x0308, "FocusBracketStepSize", "Focus Bracket Step Size"),
    (0x0309, "AISubjectTrackingMode", "AI Subject Tracking Mode"),
    (0x030a, "AFTargetInfo", "AF Target Info"),
    (0x030b, "SubjectDetectInfo", "Subject Detect Info"),
    (0x0400, "FlashMode2", "Flash Mode"),
    (0x0401, "FlashExposureComp2", "Flash Exposure Comp"),
    (0x0403, "FlashRemoteControl", "Flash Remote Control"),
    (0x0404, "FlashControlMode", "Flash Control Mode"),
    (0x0405, "FlashIntensity", "Flash Intensity"),
    (0x0406, "ManualFlashStrength", "Manual Flash Strength"),
    (0x0500, "WhiteBalance22", "White Balance2"),
    (0x0501, "WhiteBalanceTemperature2", "White Balance Temperature"),
    (0x0502, "WhiteBalanceBracket", "White Balance Bracket"),
    (0x0503, "CustomSaturation", "Custom Saturation"),
    (0x0504, "ModifiedSaturation", "Modified Saturation"),
    (0x0505, "ContrastSetting2", "Contrast Setting"),
    (0x0506, "SharpnessSetting2", "Sharpness Setting"),
    (0x0507, "ColorSpace2", "Color Space"),
    (0x0509, "SceneMode2", "Scene Mode"),
    (0x050a, "NoiseReduction2", "Noise Reduction"),
    (0x050b, "DistortionCorrection2", "Distortion Correction"),
    (0x050c, "ShadingCompensation", "Shading Compensation"),
    (0x050d, "CompressionFactor2", "Compression Factor"),
    (0x050f, "Gradation", "Gradation"),
    (0x0520, "PictureMode", "Picture Mode"),
    (0x0521, "PictureModeSaturation", "Picture Mode Saturation"),
    (0x0522, "PictureModeHue", "Picture Mode Hue"),
    (0x0523, "PictureModeContrast", "Picture Mode Contrast"),
    (0x0524, "PictureModeSharpness", "Picture Mode Sharpness"),
    (0x0525, "PictureModeBWFilter", "Picture Mode BW Filter"),
    (0x0526, "PictureModeTone", "Picture Mode Tone"),
    (0x0527, "NoiseFilter", "Noise Filter"),
    (0x0529, "ArtFilter", "Art Filter"),
    (0x052c, "MagicFilter", "Magic Filter"),
    (0x052d, "PictureModeEffect", "Picture Mode Effect"),
    (0x052e, "ToneLevel", "Tone Level"),
    (0x052f, "ArtFilterEffect", "Art Filter Effect"),
    (0x0532, "ColorCreatorEffect", "Color Creator Effect"),
    (0x0537, "MonochromeProfileSettings", "Monochrome Profile Settings"),
    (0x0538, "FilmGrainEffect", "Film Grain Effect"),
    (0x0539, "ColorProfileSettings", "Color Profile Settings"),
    (0x053a, "MonochromeVignetting", "Monochrome Vignetting"),
    (0x053b, "MonochromeColor", "Monochrome Color"),
    (0x0600, "DriveMode2", "Drive Mode"),
    (0x0601, "PanoramaMode", "Panorama Mode"),
    (0x0603, "ImageQuality22", "Image Quality2"),
    (0x0604, "ImageStabilization2", "Image Stabilization"),
    (0x0804, "StackedImage", "Stacked Image"),
    (0x0821, "ISOAutoSettings", "ISO Auto Settings"),
    (0x0900, "ManometerPressure", "Manometer Pressure"),
    (0x0901, "ManometerReading", "Manometer Reading"),
    (0x0902, "ExtendedWBDetect", "Extended WB Detect"),
    (0x0903, "RollAngle", "Roll Angle"),
    (0x0904, "PitchAngle", "Pitch Angle"),
    (0x0908, "DateTimeUTC", "Date Time UTC"),
];

/// Tags of the Olympus RawDevelopment subdirectory (0x2030).
pub const OLYMPUS_RAW_DEVELOPMENT_TAGS: [TagRow; 14] = [
    (0x0000, "RawDevVersion", "Raw Dev Version"),
    (0x0100, "RawDevExposureBiasValue", "Raw Dev Exposure Bias Value"),
    (0x0101, "RawDevWhiteBalanceValue", "Raw Dev White Balance Value"),
    (0x0102, "RawDevWBFineAdjustment", "Raw Dev WB Fine Adjustment"),
    (0x0103, "RawDevGrayPoint", "Raw Dev Gray Point"),
    (0x0104, "RawDevSaturationEmphasis", "Raw Dev Saturation Emphasis"),
    (0x0105, "RawDevMemoryColorEmphasis", "Raw Dev Memory Color Emphasis"),
    (0x0106, "RawDevContrastValue", "Raw Dev Contrast Value"),
    (0x0107, "RawDevSharpnessValue", "Raw Dev Sharpness Value"),
    (0x0108, "RawDevColorSpace", "Raw Dev Color Space"),
    (0x0109, "RawDevEngine", "Raw Dev Engine"),
    (0x010a, "RawDevNoiseReduction", "Raw Dev Noise Reduction"),
    (0x010b, "RawDevEditStatus", "Raw Dev Edit Status"),
    (0x010c, "RawDevSettings", "Raw Dev Settings"),
];

/// Tags of the Olympus ImageProcessing subdirectory (0x2040).
pub const OLYMPUS_IMAGE_PROCESSING_TAGS: [TagRow; 56] = [
    (0x0000, "ImageProcessingVersion", "Image Processing Version"),
    (0x0100, "WB_RBLevels", "WB RB Levels"),
    (0x0102, "WB_RBLevels3000K", "WB RB Levels 3000K"),
    (0x0103, "WB_RBLevels3300K", "WB RB Levels 3300K"),
    (0x0104, "WB_RBLevels3600K", "WB RB Levels 3600K"),
    (0x0105, "WB_RBLevels3900K", "WB RB Levels 3900K"),
    (0x0106, "WB_RBLevels4000K", "WB RB Levels 4000K"),
    (0x0107, "WB_RBLevels4300K", "WB RB Levels 4300K"),
    (0x0108, "WB_RBLevels4500K", "WB RB Levels 4500K"),
    (0x0109, "WB_RBLevels4800K", "WB RB Levels 4800K"),
    (0x010a, "WB_RBLevels5300K", "WB RB Levels 5300K"),
    (0x010b, "WB_RBLevels6000K", "WB RB Levels 6000K"),
    (0x010c, "WB_RBLevels6600K", "WB RB Levels 6600K"),
    (0x010d, "WB_RBLevels7500K", "WB RB Levels 7500K"),
    (0x0113, "WB_GLevel3000K", "WB G Level 3000K"),
    (0x0114, "WB_GLevel3300K", "WB G Level 3300K"),
    (0x0115, "WB_GLevel3600K", "WB G Level 3600K"),
    (0x0116, "WB_GLevel3900K", "WB G Level 3900K"),
    (0x0117, "WB_GLevel4000K", "WB G Level 4000K"),
    (0x0118, "WB_GLevel4300K", "WB G Level 4300K"),
    (0x0119, "WB_GLevel4500K", "WB G Level 4500K"),
    (0x011a, "WB_GLevel4800K", "WB G Level 4800K"),
    (0x011b, "WB_GLevel5300K", "WB G Level 5300K"),
    (0x011c, "WB_GLevel6000K", "WB G Level 6000K"),
    (0x011d, "WB_GLevel6600K", "WB G Level 6600K"),
    (0x011e, "WB_GLevel7500K", "WB G Level 7500K"),
    (0x011f, "WB_GLevel", "WB G Level"),
    (0x0200, "ColorMatrix3", "Color Matrix"),
    (0x0300, "Enhancer2", "Enhancer"),
    (0x0301, "EnhancerValues", "Enhancer Values"),
    (0x0310, "CoringFilter2", "Coring Filter"),
    (0x0311, "CoringValues", "Coring Values"),
    (0x0600, "BlackLevel22", "Black Level2"),
    (0x0610, "GainBase", "Gain Base"),
    (0x0611, "ValidBits2", "Valid Bits"),
    (0x0612, "CropLeft2", "Crop Left"),
    (0x0613, "CropTop2", "Crop Top"),
    (0x0614, "CropWidth", "Crop Width"),
    (0x0615, "CropHeight", "Crop Height"),
    (0x0805, "SensorCalibration", "Sensor Calibration"),
    (0x1010, "NoiseReduction22", "Noise Reduction2"),
    (0x1011, "DistortionCorrection22", "Distortion Correction2"),
    (0x1012, "ShadingCompensation2", "Shading Compensation2"),
    (0x101c, "MultipleExposureMode", "Multiple Exposure Mode"),
    (0x1112, "AspectRatio", "Aspect Ratio"),
    (0x1113, "AspectFrame", "Aspect Frame"),
    (0x1200, "FacesDetected", "Faces Detected"),
    (0x1201, "FaceDetectArea", "Face Detect Area"),
    (0x1202, "MaxFaces", "Max Faces"),
    (0x1203, "FaceDetectFrameSize", "Face Detect Frame Size"),
    (0x1207, "FaceDetectFrameCrop", "Face Detect Frame Crop"),
    (0x1306, "CameraTemperature", "Camera Temperature"),
    (0x1900, "KeystoneCompensation", "Keystone Compensation"),
    (0x1901, "KeystoneDirection", "Keystone Direction"),
    (0x1906, "KeystoneValue", "Keystone Value"),
    (0x2110, "GNDFilterType", "GND Filter Type"),
];

/// Tags of the Olympus FocusInfo subdirectory (0x2050).
pub const OLYMPUS_FOCUS_INFO_TAGS: [TagRow; 23] = [
    (0x0000, "FocusInfoVersion", "Focus Info Version"),
    (0x0209, "AutoFocus2", "Auto Focus"),
    (0x0210, "SceneDetect2", "Scene Detect"),
    (0x0211, "SceneArea2", "Scene Area"),
    (0x0212, "SceneDetectData2", "Scene Detect Data"),
    (0x0300, "ZoomStepCount2", "Zoom Step Count"),
    (0x0301, "FocusStepCount2", "Focus Step Count"),
    (0x0303, "FocusStepInfinity", "Focus Step Infinity"),
    (0x0304, "FocusStepNear", "Focus Step Near"),
    (0x0305, "FocusDistance2", "Focus Distance"),
    (0x0308, "AFPoint2", "AF Point"),
    (0x031b, "AFPointDetails", "AF Point Details"),
    (0x0328, "AFInfo", "AF Info"),
    (0x1201, "ExternalFlash2", "External Flash"),
    (0x1203, "ExternalFlashGuideNumber", "External Flash Guide Number"),
    (0x1204, "ExternalFlashBounce2", "External Flash Bounce"),
    (0x1205, "ExternalFlashZoom2", "External Flash Zoom"),
    (0x1208, "InternalFlash2", "Internal Flash"),
    (0x1209, "ManualFlash2", "Manual Flash"),
    (0x120a, "MacroLED", "Macro LED"),
    (0x1500, "SensorTemperature2", "Sensor Temperature"),
    (0x1600, "ImageStabilization22", "Image Stabilization"),
    (0x2100, "AntiShockWaitingTime", "Anti Shock Waiting Time"),
];

/// Tags of the Olympus RawInfo subdirectory (0x3000).
pub const OLYMPUS_RAW_INFO_TAGS: [TagRow; 36] = [
    (0x0000, "RawInfoVersion", "Raw Info Version"),
    (0x0100, "WB_RBLevelsUsed", "WB RB Levels Used"),
    (0x0110, "WB_RBLevelsAuto", "WB RB Levels Auto"),
    (0x0120, "WB_RBLevelsShade", "WB RB Levels Shade"),
    (0x0121, "WB_RBLevelsCloudy", "WB RB Levels Cloudy"),
    (0x0122, "WB_RBLevelsFineWeather", "WB RB Levels Fine Weather"),
    (0x0123, "WB_RBLevelsTungsten", "WB RB Levels Tungsten"),
    (0x0124, "WB_RBLevelsEveningSunlight", "WB RB Levels Evening Sunlight"),
    (0x0130, "WB_RBLevelsDaylightFluor", "WB RB Levels Daylight Fluor"),
    (0x0131, "WB_RBLevelsDayWhiteFluor", "WB RB Levels Day White Fluor"),
    (0x0132, "WB_RBLevelsCoolWhiteFluor", "WB RB Levels Cool White Fluor"),
    (0x0133, "WB_RBLevelsWhiteFluorescent", "WB RB Levels White Fluorescent"),
    (0x0200, "ColorMatrix22", "Color Matrix2"),
    (0x0310, "CoringFilter22", "Coring Filter"),
    (0x0311, "CoringValues2", "Coring Values"),
    (0x0600, "BlackLevel222", "Black Level2"),
    (0x0601, "YCbCrCoefficients", "YCbCr Coefficients"),
    (0x0611, "ValidPixelDepth", "Valid Pixel Depth"),
    (0x0612, "CropLeft22", "Crop Left"),
    (0x0613, "CropTop22", "Crop Top"),
    (0x0614, "CropWidth2", "Crop Width"),
    (0x0615, "CropHeight2", "Crop Height"),
    (0x1000, "LightSource2", "Light Source"),
    (0x1001, "WhiteBalanceComp", "White Balance Comp"),
    (0x1010, "SaturationSetting", "Saturation Setting"),
    (0x1011, "HueSetting", "Hue Setting"),
    (0x1012, "ContrastSetting22", "Contrast Setting"),
    (0x1013, "SharpnessSetting22", "Sharpness Setting"),
    (0x2000, "CMExposureCompensation", "CM Exposure Compensation"),
    (0x2001, "CMWhiteBalance", "CM White Balance"),
    (0x2002, "CMWhiteBalanceComp", "CM White Balance Comp"),
    (0x2010, "CMWhiteBalanceGrayPoint", "CM White Balance Gray Point"),
    (0x2020, "CMSaturation", "CM Saturation"),
    (0x2021, "CMHue", "CM Hue"),
    (0x2022, "CMContrast", "CM Contrast"),
    (0x2023, "CMSharpness", "CM Sharpness"),
];

/// Whether an Olympus tag number points at a subdirectory, a nested IFD.
/// SpecialMode (0x0200) is a plain value.
pub open spec fn spec_is_olympus_subdir(n: u16) -> bool {
    n == 0x2010 || n == 0x2020 || n == 0x2030 || n == 0x2040 || n == 0x2050 || n == 0x3000 || n == 0x4000
}

/// Tests whether an Olympus tag number points at a subdirectory.
pub fn is_olympus_subdir(n: u16) -> (r: bool)
    ensures
        r == spec_is_olympus_subdir(n),
{
    n == 0x2010 || n == 0x2020 || n == 0x2030 || n == 0x2040 || n == 0x2050 || n == 0x3000 || n == 0x4000
}

/// The vendor whose table names the entries of the subdirectory at tag
/// `n`; `fallback` for a subdirectory without a table of its own.
pub open spec fn spec_subdir_vendor(n: u16, fallback: MakerNoteVendor) -> MakerNoteVendor {
    if n == 0x2010 {
        MakerNoteVendor::OlympusEquipment
    } else if n == 0x2020 {
        MakerNoteVendor::OlympusCameraSettings
    } else if n == 0x2030 {
        MakerNoteVendor::OlympusRawDevelopment
    } else if n == 0x2040 {
        MakerNoteVendor::OlympusImageProcessing
    } else if n == 0x2050 {
        MakerNoteVendor::OlympusFocusInfo
    } else if n == 0x3000 {
        MakerNoteVendor::OlympusRawInfo
    } else {
        fallback
    }
}

/// Returns the vendor whose table names the subdirectory's entries.
pub fn subdir_vendor(n: u16, fallback: MakerNoteVendor) -> (r: MakerNoteVendor)
    ensures
        r == spec_subdir_vendor(n, fallback),
{
    if n == 0x2010 {
        MakerNoteVendor::OlympusEquipment
    } else if n == 0x2020 {
        MakerNoteVendor::OlympusCameraSettings
    } else if n == 0x2030 {
        MakerNoteVendor::OlympusRawDevelopment
    } else if n == 0x2040 {
        MakerNoteVendor::OlympusImageProcessing
    } else if n == 0x2050 {
        MakerNoteVendor::OlympusFocusInfo
    } else if n == 0x3000 {
        MakerNoteVendor::OlympusRawInfo
    } else {
        fallback
    }
}

} // verus!
