use vstd::prelude::*;
use crate::make_note::maker_tag::TagRow;
use crate::bytes::{spec_u16, load_u16};
use crate::fmt::{dec_digits, push_dec, push_bytes};
use crate::util::{ascii_chars, bytes_to_string};

verus! {

/// Panasonic Image Stabilization (Tag 0x001a)
#[derive(Debug, Clone, Copy, PartialEq, Eq, Structural)]
pub enum PanasonicImageStabilization {
    OnOptical,
    Off,
    OnMode2,
    OnOpticalPanning,
    OnBodyOnly,
    OnBodyOnlyPanning,
    DualIS,
    DualISPanning,
    Dual2IS,
    Dual2ISPanning,
}

impl PanasonicImageStabilization {
    /// The number the MakerNote stores for the setting.
    pub open spec fn spec_repr(self) -> u16 {
        match self {
            PanasonicImageStabilization::OnOptical => 0x2,
            PanasonicImageStabilization::Off => 0x3,
            PanasonicImageStabilization::OnMode2 => 0x4,
            PanasonicImageStabilization::OnOpticalPanning => 0x5,
            PanasonicImageStabilization::OnBodyOnly => 0x6,
            PanasonicImageStabilization::OnBodyOnlyPanning => 0x7,
            PanasonicImageStabilization::DualIS => 0x9,
            PanasonicImageStabilization::DualISPanning => 0xa,
            PanasonicImageStabilization::Dual2IS => 0xb,
            PanasonicImageStabilization::Dual2ISPanning => 0xc,
        }
    }

    /// The text the setting is shown as.
    pub open spec fn spec_label(self) -> &'static str {
        match self {
            PanasonicImageStabilization::OnOptical => "On, Optical",
            PanasonicImageStabilization::Off => "Off",
            PanasonicImageStabilization::OnMode2 => "On, Mode 2",
            PanasonicImageStabilization::OnOpticalPanning => "On, Optical Panning",
            PanasonicImageStabilization::OnBodyOnly => "On, Body-only",
            PanasonicImageStabilization::OnBodyOnlyPanning => "On, Body-only Panning",
            PanasonicImageStabilization::DualIS => "Dual IS",
            PanasonicImageStabilization::DualISPanning => "Dual IS Panning",
            PanasonicImageStabilization::Dual2IS => "Dual2 IS",
            PanasonicImageStabilization::Dual2ISPanning => "Dual2 IS Panning",
        }
    }

    /// Returns the setting the MakerNote number `v` stands for, if any.
    pub fn from_repr(v: u16) -> (r: Option<PanasonicImageStabilization>)
        ensures
            match r {
                Some(e) => e.spec_repr() == v,
                None => forall|e: PanasonicImageStabilization| #[trigger] e.spec_repr() != v,
            },
    {
        match v {
            0x2 => Some(PanasonicImageStabilization::OnOptical),
            0x3 => Some(PanasonicImageStabilization::Off),
            0x4 => Some(PanasonicImageStabilization::OnMode2),
            0x5 => Some(PanasonicImageStabilization::OnOpticalPanning),
            0x6 => Some(PanasonicImageStabilization::OnBodyOnly),
            0x7 => Some(PanasonicImageStabilization::OnBodyOnlyPanning),
            0x9 => Some(PanasonicImageStabilization::DualIS),
            0xa => Some(PanasonicImageStabilization::DualISPanning),
            0xb => Some(PanasonicImageStabilization::Dual2IS),
            0xc => Some(PanasonicImageStabilization::Dual2ISPanning),
            _ => None,
        }
    }

    /// Returns the number the MakerNote stores for the setting.
    pub fn repr(&self) -> (r: u16)
        ensures
            r == self.spec_repr(),
    {
        match self {
            PanasonicImageStabilization::OnOptical => 0x2,
            PanasonicImageStabilization::Off => 0x3,
            PanasonicImageStabilization::OnMode2 => 0x4,
            PanasonicImageStabilization::OnOpticalPanning => 0x5,
            PanasonicImageStabilization::OnBodyOnly => 0x6,
            PanasonicImageStabilization::OnBodyOnlyPanning => 0x7,
            PanasonicImageStabilization::DualIS => 0x9,
            PanasonicImageStabilization::DualISPanning => 0xa,
            PanasonicImageStabilization::Dual2IS => 0xb,
            PanasonicImageStabilization::Dual2ISPanning => 0xc,
        }
    }

    /// Returns the text the setting is shown as.
    pub fn label(&self) -> (r: &'static str)
        ensures
            r == self.spec_label(),
    {
        match self {
            PanasonicImageStabilization::OnOptical => "On, Optical",
            PanasonicImageStabilization::Off => "Off",
            PanasonicImageStabilization::OnMode2 => "On, Mode 2",
            PanasonicImageStabilization::OnOpticalPanning => "On, Optical Panning",
            PanasonicImageStabilization::OnBodyOnly => "On, Body-only",
            PanasonicImageStabilization::OnBodyOnlyPanning => "On, Body-only Panning",
            PanasonicImageStabilization::DualIS => "Dual IS",
            PanasonicImageStabilization::DualISPanning => "Dual IS Panning",
            PanasonicImageStabilization::Dual2IS => "Dual2 IS",
            PanasonicImageStabilization::Dual2ISPanning => "Dual2 IS Panning",
        }
    }

    /// Reads the setting from the first two bytes of `data`, little endian
    /// unless `le` is `Some(false)`.
    pub fn raw_parse(data: &[u8], le: Option<bool>) -> (r: Option<PanasonicImageStabilization>)
        ensures
            match r {
                Some(e) => data@.len() >= 2 && e.spec_repr() == spec_u16(data@, 0, le != Some(false)),
                None => data@.len() < 2 || forall|e: PanasonicImageStabilization| #[trigger] e.spec_repr() != spec_u16(data@, 0, le != Some(false)),
            },
    {
        if data.len() < 2 {
            return None;
        }
        let little = match le {
            Some(false) => false,
            _ => true,
        };
        PanasonicImageStabilization::from_repr(load_u16(data, 0, little))
    }
}

/// Panasonic Macro Mode (Tag 0x001c)
#[derive(Debug, Clone, Copy, PartialEq, Eq, Structural)]
pub enum PanasonicMacroMode {
    On,
    Off,
    TeleMacro,
    MacroZoom,
}

impl PanasonicMacroMode {
    /// The number the MakerNote stores for the setting.
    pub open spec fn spec_repr(self) -> u16 {
        match self {
            PanasonicMacroMode::On => 0x1,
            PanasonicMacroMode::Off => 0x2,
            PanasonicMacroMode::TeleMacro => 0x101,
            PanasonicMacroMode::MacroZoom => 0x201,
        }
    }

    /// The text the setting is shown as.
    pub open spec fn spec_label(self) -> &'static str {
        match self {
            PanasonicMacroMode::On => "On",
            PanasonicMacroMode::Off => "Off",
            PanasonicMacroMode::TeleMacro => "Tele-Macro",
            PanasonicMacroMode::MacroZoom => "Macro Zoom",
        }
    }

    /// Returns the setting the MakerNote number `v` stands for, if any.
    pub fn from_repr(v: u16) -> (r: Option<PanasonicMacroMode>)
        ensures
            match r {
                Some(e) => e.spec_repr() == v,
                None => forall|e: PanasonicMacroMode| #[trigger] e.spec_repr() != v,
            },
    {
        match v {
            0x1 => Some(PanasonicMacroMode::On),
            0x2 => Some(PanasonicMacroMode::Off),
            0x101 => Some(PanasonicMacroMode::TeleMacro),
            0x201 => Some(PanasonicMacroMode::MacroZoom),
            _ => None,
        }
    }

    /// Returns the number the MakerNote stores for the setting.
    pub fn repr(&self) -> (r: u16)
        ensures
            r == self.spec_repr(),
    {
        match self {
            PanasonicMacroMode::On => 0x1,
            PanasonicMacroMode::Off => 0x2,
            PanasonicMacroMode::TeleMacro => 0x101,
            PanasonicMacroMode::MacroZoom => 0x201,
        }
    }

    /// Returns the text the setting is shown as.
    pub fn label(&self) -> (r: &'static str)
        ensures
            r == self.spec_label(),
    {
        match self {
            PanasonicMacroMode::On => "On",
            PanasonicMacroMode::Off => "Off",
            PanasonicMacroMode::TeleMacro => "Tele-Macro",
            PanasonicMacroMode::MacroZoom => "Macro Zoom",
        }
    }

    /// Reads the setting from the first two bytes of `data`, little endian
    /// unless `le` is `Some(false)`.
    pub fn raw_parse(data: &[u8], le: Option<bool>) -> (r: Option<PanasonicMacroMode>)
        ensures
            match r {
                Some(e) => data@.len() >= 2 && e.spec_repr() == spec_u16(data@, 0, le != Some(false)),
                None => data@.len() < 2 || forall|e: PanasonicMacroMode| #[trigger] e.spec_repr() != spec_u16(data@, 0, le != Some(false)),
            },
    {
        if data.len() < 2 {
            return None;
        }
        let little = match le {
            Some(false) => false,
            _ => true,
        };
        PanasonicMacroMode::from_repr(load_u16(data, 0, little))
    }
}

/// Panasonic Shooting Mode (Tag 0x001f)
#[derive(Debug, Clone, Copy, PartialEq, Eq, Structural)]
pub enum PanasonicShootingMode {
    Normal,
    Portrait,
    Scenery,
    Sports,
    NightPortrait,
    Program,
    AperturePriority,
    ShutterPriority,
    Macro,
    Spot,
    NightScenery,
    Food,
    Baby,
    SoftSkin,
    Candlelight,
    StarryNight,
    HighSensitivity,
    PanoramaAssist,
    Underwater,
    Beach,
    AerialPhoto,
    Sunset,
    Pet,
    IntelligentISO,
    Clipboard,
    HighSpeedContinuousShooting,
    IntelligentAuto,
    MultiAspect,
    Transform,
    FlashBurst,
    PinHole,
    FilmGrain,
    MyColor,
    PhotoFrame,
    Movie,
    Panorama,
    GlassThrough,
    HDR,
    IntelligentAutoPlus,
    IntelligentAutoPremium,
    IHandheldNightShot,
    HandheldNightShot,
    SweepPanorama,
    Photo3D,
    CreativeControl,
    Expressive,
    Retro,
    Pure,
    Elegant,
    Silky,
    MiniatureEffect,
    DynamicMonochrome,
    ImpressiveArt,
    HDRArt,
    ToyEffect,
    ToyPop,
    BleachBypass,
    Monochrome,
    RoughMonochrome,
}

impl PanasonicShootingMode {
    /// The number the MakerNote stores for the setting.
    pub open spec fn spec_repr(self) -> u16 {
        match self {
            PanasonicShootingMode::Normal => 0x1,
            PanasonicShootingMode::Portrait => 0x2,
            PanasonicShootingMode::Scenery => 0x3,
            PanasonicShootingMode::Sports => 0x4,
            PanasonicShootingMode::NightPortrait => 0x5,
            PanasonicShootingMode::Program => 0x6,
            PanasonicShootingMode::AperturePriority => 0x7,
            PanasonicShootingMode::ShutterPriority => 0x8,
            PanasonicShootingMode::Macro => 0x9,
            PanasonicShootingMode::Spot => 0xa,
            PanasonicShootingMode::NightScenery => 0xb,
            PanasonicShootingMode::Food => 0xc,
            PanasonicShootingMode::Baby => 0xd,
            PanasonicShootingMode::SoftSkin => 0xe,
            PanasonicShootingMode::Candlelight => 0xf,
            PanasonicShootingMode::StarryNight => 0x10,
            PanasonicShootingMode::HighSensitivity => 0x11,
            PanasonicShootingMode::PanoramaAssist => 0x12,
            PanasonicShootingMode::Underwater => 0x13,
            PanasonicShootingMode::Beach => 0x14,
            PanasonicShootingMode::AerialPhoto => 0x15,
            PanasonicShootingMode::Sunset => 0x16,
            PanasonicShootingMode::Pet => 0x17,
            PanasonicShootingMode::IntelligentISO => 0x18,
            PanasonicShootingMode::Clipboard => 0x19,
            PanasonicShootingMode::HighSpeedContinuousShooting => 0x1a,
            PanasonicShootingMode::IntelligentAuto => 0x1b,
            PanasonicShootingMode::MultiAspect => 0x1d,
            PanasonicShootingMode::Transform => 0x20,
            PanasonicShootingMode::FlashBurst => 0x21,
            PanasonicShootingMode::PinHole => 0x22,
            PanasonicShootingMode::FilmGrain => 0x23,
            PanasonicShootingMode::MyColor => 0x24,
            PanasonicShootingMode::PhotoFrame => 0x25,
            PanasonicShootingMode::Movie => 0x26,
            PanasonicShootingMode::Panorama => 0x27,
            PanasonicShootingMode::GlassThrough => 0x28,
            PanasonicShootingMode::HDR => 0x29,
            PanasonicShootingMode::IntelligentAutoPlus => 0x2a,
            PanasonicShootingMode::IntelligentAutoPremium => 0x2b,
            PanasonicShootingMode::IHandheldNightShot => 0x2d,
            PanasonicShootingMode::HandheldNightShot => 0x2e,
            PanasonicShootingMode::SweepPanorama => 0x33,
            PanasonicShootingMode::Photo3D => 0x37,
            PanasonicShootingMode::CreativeControl => 0x3b,
            PanasonicShootingMode::Expressive => 0x3e,
            PanasonicShootingMode::Retro => 0x3f,
            PanasonicShootingMode::Pure => 0x40,
            PanasonicShootingMode::Elegant => 0x41,
            PanasonicShootingMode::Silky => 0x43,
            PanasonicShootingMode::MiniatureEffect => 0x50,
            PanasonicShootingMode::DynamicMonochrome => 0x51,
            PanasonicShootingMode::ImpressiveArt => 0x52,
            PanasonicShootingMode::HDRArt => 0x53,
            PanasonicShootingMode::ToyEffect => 0x54,
            PanasonicShootingMode::ToyPop => 0x55,
            PanasonicShootingMode::BleachBypass => 0x56,
            PanasonicShootingMode::Monochrome => 0x59,
            PanasonicShootingMode::RoughMonochrome => 0x5a,
        }
    }

    /// The text the setting is shown as.
    pub open spec fn spec_label(self) -> &'static str {
        match self {
            PanasonicShootingMode::Normal => "Normal",
            PanasonicShootingMode::Portrait => "Portrait",
            PanasonicShootingMode::Scenery => "Scenery",
            PanasonicShootingMode::Sports => "Sports",
            PanasonicShootingMode::NightPortrait => "Night Portrait",
            PanasonicShootingMode::Program => "Program",
            PanasonicShootingMode::AperturePriority => "Aperture Priority",
            PanasonicShootingMode::ShutterPriority => "Shutter Priority",
            PanasonicShootingMode::Macro => "Macro",
            PanasonicShootingMode::Spot => "Spot",
            PanasonicShootingMode::NightScenery => "Night Scenery",
            PanasonicShootingMode::Food => "Food",
            PanasonicShootingMode::Baby => "Baby",
            PanasonicShootingMode::SoftSkin => "Soft Skin",
            PanasonicShootingMode::Candlelight => "Candlelight",
            PanasonicShootingMode::StarryNight => "Starry Night",
            PanasonicShootingMode::HighSensitivity => "High Sensitivity",
            PanasonicShootingMode::PanoramaAssist => "Panorama Assist",
            PanasonicShootingMode::Underwater => "Underwater",
            PanasonicShootingMode::Beach => "Beach",
            PanasonicShootingMode::AerialPhoto => "Aerial Photo",
            PanasonicShootingMode::Sunset => "Sunset",
            PanasonicShootingMode::Pet => "Pet",
            PanasonicShootingMode::IntelligentISO => "Intelligent ISO",
            PanasonicShootingMode::Clipboard => "Clipboard",
            PanasonicShootingMode::HighSpeedContinuousShooting => "High Speed Continuous Shooting",
            PanasonicShootingMode::IntelligentAuto => "Intelligent Auto",
            PanasonicShootingMode::MultiAspect => "Multi-aspect",
            PanasonicShootingMode::Transform => "Transform",
            PanasonicShootingMode::FlashBurst => "Flash Burst",
            PanasonicShootingMode::PinHole => "Pin Hole",
            PanasonicShootingMode::FilmGrain => "Film Grain",
            PanasonicShootingMode::MyColor => "My Color",
            PanasonicShootingMode::PhotoFrame => "Photo Frame",
            PanasonicShootingMode::Movie => "Movie",
            PanasonicShootingMode::Panorama => "Panorama",
            PanasonicShootingMode::GlassThrough => "Glass Through",
            PanasonicShootingMode::HDR => "HDR",
            PanasonicShootingMode::IntelligentAutoPlus => "Intelligent Auto Plus",
            PanasonicShootingMode::IntelligentAutoPremium => "Intelligent Auto Premium",
            PanasonicShootingMode::IHandheldNightShot => "iHandheld Night Shot",
            PanasonicShootingMode::HandheldNightShot => "Handheld Night Shot",
            PanasonicShootingMode::SweepPanorama => "Sweep Panorama",
            PanasonicShootingMode::Photo3D => "3D Photo",
            PanasonicShootingMode::CreativeControl => "Creative Control",
            PanasonicShootingMode::Expressive => "Expressive",
            PanasonicShootingMode::Retro => "Retro",
            PanasonicShootingMode::Pure => "Pure",
            PanasonicShootingMode::Elegant => "Elegant",
            PanasonicShootingMode::Silky => "Silky",
            PanasonicShootingMode::MiniatureEffect => "Miniature Effect",
            PanasonicShootingMode::DynamicMonochrome => "Dynamic Monochrome",
            PanasonicShootingMode::ImpressiveArt => "Impressive Art",
            PanasonicShootingMode::HDRArt => "HDR Art",
            PanasonicShootingMode::ToyEffect => "Toy Effect",
            PanasonicShootingMode::ToyPop => "Toy Pop",
            PanasonicShootingMode::BleachBypass => "Bleach Bypass",
            PanasonicShootingMode::Monochrome => "Monochrome",
            PanasonicShootingMode::RoughMonochrome => "Rough Monochrome",
        }
    }

    /// Returns the setting the MakerNote number `v` stands for, if any.
    pub fn from_repr(v: u16) -> (r: Option<PanasonicShootingMode>)
        ensures
            match r {
                Some(e) => e.spec_repr() == v,
                None => forall|e: PanasonicShootingMode| #[trigger] e.spec_repr() != v,
            },
    {
        match v {
            0x1 => Some(PanasonicShootingMode::Normal),
            0x2 => Some(PanasonicShootingMode::Portrait),
            0x3 => Some(PanasonicShootingMode::Scenery),
            0x4 => Some(PanasonicShootingMode::Sports),
            0x5 => Some(PanasonicShootingMode::NightPortrait),
            0x6 => Some(PanasonicShootingMode::Program),
            0x7 => Some(PanasonicShootingMode::AperturePriority),
            0x8 => Some(PanasonicShootingMode::ShutterPriority),
            0x9 => Some(PanasonicShootingMode::Macro),
            0xa => Some(PanasonicShootingMode::Spot),
            0xb => Some(PanasonicShootingMode::NightScenery),
            0xc => Some(PanasonicShootingMode::Food),
            0xd => Some(PanasonicShootingMode::Baby),
            0xe => Some(PanasonicShootingMode::SoftSkin),
            0xf => Some(PanasonicShootingMode::Candlelight),
            0x10 => Some(PanasonicShootingMode::StarryNight),
            0x11 => Some(PanasonicShootingMode::HighSensitivity),
            0x12 => Some(PanasonicShootingMode::PanoramaAssist),
            0x13 => Some(PanasonicShootingMode::Underwater),
            0x14 => Some(PanasonicShootingMode::Beach),
            0x15 => Some(PanasonicShootingMode::AerialPhoto),
            0x16 => Some(PanasonicShootingMode::Sunset),
            0x17 => Some(PanasonicShootingMode::Pet),
            0x18 => Some(PanasonicShootingMode::IntelligentISO),
            0x19 => Some(PanasonicShootingMode::Clipboard),
            0x1a => Some(PanasonicShootingMode::HighSpeedContinuousShooting),
            0x1b => Some(PanasonicShootingMode::IntelligentAuto),
            0x1d => Some(PanasonicShootingMode::MultiAspect),
            0x20 => Some(PanasonicShootingMode::Transform),
            0x21 => Some(PanasonicShootingMode::FlashBurst),
            0x22 => Some(PanasonicShootingMode::PinHole),
            0x23 => Some(PanasonicShootingMode::FilmGrain),
            0x24 => Some(PanasonicShootingMode::MyColor),
            0x25 => Some(PanasonicShootingMode::PhotoFrame),
            0x26 => Some(PanasonicShootingMode::Movie),
            0x27 => Some(PanasonicShootingMode::Panorama),
            0x28 => Some(PanasonicShootingMode::GlassThrough),
            0x29 => Some(PanasonicShootingMode::HDR),
            0x2a => Some(PanasonicShootingMode::IntelligentAutoPlus),
            0x2b => Some(PanasonicShootingMode::IntelligentAutoPremium),
            0x2d => Some(PanasonicShootingMode::IHandheldNightShot),
            0x2e => Some(PanasonicShootingMode::HandheldNightShot),
            0x33 => Some(PanasonicShootingMode::SweepPanorama),
            0x37 => Some(PanasonicShootingMode::Photo3D),
            0x3b => Some(PanasonicShootingMode::CreativeControl),
            0x3e => Some(PanasonicShootingMode::Expressive),
            0x3f => Some(PanasonicShootingMode::Retro),
            0x40 => Some(PanasonicShootingMode::Pure),
            0x41 => Some(PanasonicShootingMode::Elegant),
            0x43 => Some(PanasonicShootingMode::Silky),
            0x50 => Some(PanasonicShootingMode::MiniatureEffect),
            0x51 => Some(PanasonicShootingMode::DynamicMonochrome),
            0x52 => Some(PanasonicShootingMode::ImpressiveArt),
            0x53 => Some(PanasonicShootingMode::HDRArt),
            0x54 => Some(PanasonicShootingMode::ToyEffect),
            0x55 => Some(PanasonicShootingMode::ToyPop),
            0x56 => Some(PanasonicShootingMode::BleachBypass),
            0x59 => Some(PanasonicShootingMode::Monochrome),
            0x5a => Some(PanasonicShootingMode::RoughMonochrome),
            _ => None,
        }
    }

    /// Returns the number the MakerNote stores for the setting.
    pub fn repr(&self) -> (r: u16)
        ensures
            r == self.spec_repr(),
    {
        match self {
            PanasonicShootingMode::Normal => 0x1,
            PanasonicShootingMode::Portrait => 0x2,
            PanasonicShootingMode::Scenery => 0x3,
            PanasonicShootingMode::Sports => 0x4,
            PanasonicShootingMode::NightPortrait => 0x5,
            PanasonicShootingMode::Program => 0x6,
            PanasonicShootingMode::AperturePriority => 0x7,
            PanasonicShootingMode::ShutterPriority => 0x8,
            PanasonicShootingMode::Macro => 0x9,
            PanasonicShootingMode::Spot => 0xa,
            PanasonicShootingMode::NightScenery => 0xb,
            PanasonicShootingMode::Food => 0xc,
            PanasonicShootingMode::Baby => 0xd,
            PanasonicShootingMode::SoftSkin => 0xe,
            PanasonicShootingMode::Candlelight => 0xf,
            PanasonicShootingMode::StarryNight => 0x10,
            PanasonicShootingMode::HighSensitivity => 0x11,
            PanasonicShootingMode::PanoramaAssist => 0x12,
            PanasonicShootingMode::Underwater => 0x13,
            PanasonicShootingMode::Beach => 0x14,
            PanasonicShootingMode::AerialPhoto => 0x15,
            PanasonicShootingMode::Sunset => 0x16,
            PanasonicShootingMode::Pet => 0x17,
            PanasonicShootingMode::IntelligentISO => 0x18,
            PanasonicShootingMode::Clipboard => 0x19,
            PanasonicShootingMode::HighSpeedContinuousShooting => 0x1a,
            PanasonicShootingMode::IntelligentAuto => 0x1b,
            PanasonicShootingMode::MultiAspect => 0x1d,
            PanasonicShootingMode::Transform => 0x20,
            PanasonicShootingMode::FlashBurst => 0x21,
            PanasonicShootingMode::PinHole => 0x22,
            PanasonicShootingMode::FilmGrain => 0x23,
            PanasonicShootingMode::MyColor => 0x24,
            PanasonicShootingMode::PhotoFrame => 0x25,
            PanasonicShootingMode::Movie => 0x26,
            PanasonicShootingMode::Panorama => 0x27,
            PanasonicShootingMode::GlassThrough => 0x28,
            PanasonicShootingMode::HDR => 0x29,
            PanasonicShootingMode::IntelligentAutoPlus => 0x2a,
            PanasonicShootingMode::IntelligentAutoPremium => 0x2b,
            PanasonicShootingMode::IHandheldNightShot => 0x2d,
            PanasonicShootingMode::HandheldNightShot => 0x2e,
            PanasonicShootingMode::SweepPanorama => 0x33,
            PanasonicShootingMode::Photo3D => 0x37,
            PanasonicShootingMode::CreativeControl => 0x3b,
            PanasonicShootingMode::Expressive => 0x3e,
            PanasonicShootingMode::Retro => 0x3f,
            PanasonicShootingMode::Pure => 0x40,
            PanasonicShootingMode::Elegant => 0x41,
            PanasonicShootingMode::Silky => 0x43,
            PanasonicShootingMode::MiniatureEffect => 0x50,
            PanasonicShootingMode::DynamicMonochrome => 0x51,
            PanasonicShootingMode::ImpressiveArt => 0x52,
            PanasonicShootingMode::HDRArt => 0x53,
            PanasonicShootingMode::ToyEffect => 0x54,
            PanasonicShootingMode::ToyPop => 0x55,
            PanasonicShootingMode::BleachBypass => 0x56,
            PanasonicShootingMode::Monochrome => 0x59,
            PanasonicShootingMode::RoughMonochrome => 0x5a,
        }
    }

    /// Returns the text the setting is shown as.
    pub fn label(&self) -> (r: &'static str)
        ensures
            r == self.spec_label(),
    {
        match self {
            PanasonicShootingMode::Normal => "Normal",
            PanasonicShootingMode::Portrait => "Portrait",
            PanasonicShootingMode::Scenery => "Scenery",
            PanasonicShootingMode::Sports => "Sports",
            PanasonicShootingMode::NightPortrait => "Night Portrait",
            PanasonicShootingMode::Program => "Program",
            PanasonicShootingMode::AperturePriority => "Aperture Priority",
            PanasonicShootingMode::ShutterPriority => "Shutter Priority",
            PanasonicShootingMode::Macro => "Macro",
            PanasonicShootingMode::Spot => "Spot",
            PanasonicShootingMode::NightScenery => "Night Scenery",
            PanasonicShootingMode::Food => "Food",
            PanasonicShootingMode::Baby => "Baby",
            PanasonicShootingMode::SoftSkin => "Soft Skin",
            PanasonicShootingMode::Candlelight => "Candlelight",
            PanasonicShootingMode::StarryNight => "Starry Night",
            PanasonicShootingMode::HighSensitivity => "High Sensitivity",
            PanasonicShootingMode::PanoramaAssist => "Panorama Assist",
            PanasonicShootingMode::Underwater => "Underwater",
            PanasonicShootingMode::Beach => "Beach",
            PanasonicShootingMode::AerialPhoto => "Aerial Photo",
            PanasonicShootingMode::Sunset => "Sunset",
            PanasonicShootingMode::Pet => "Pet",
            PanasonicShootingMode::IntelligentISO => "Intelligent ISO",
            PanasonicShootingMode::Clipboard => "Clipboard",
            PanasonicShootingMode::HighSpeedContinuousShooting => "High Speed Continuous Shooting",
            PanasonicShootingMode::IntelligentAuto => "Intelligent Auto",
            PanasonicShootingMode::MultiAspect => "Multi-aspect",
            PanasonicShootingMode::Transform => "Transform",
            PanasonicShootingMode::FlashBurst => "Flash Burst",
            PanasonicShootingMode::PinHole => "Pin Hole",
            PanasonicShootingMode::FilmGrain => "Film Grain",
            PanasonicShootingMode::MyColor => "My Color",
            PanasonicShootingMode::PhotoFrame => "Photo Frame",
            PanasonicShootingMode::Movie => "Movie",
            PanasonicShootingMode::Panorama => "Panorama",
            PanasonicShootingMode::GlassThrough => "Glass Through",
            PanasonicShootingMode::HDR => "HDR",
            PanasonicShootingMode::IntelligentAutoPlus => "Intelligent Auto Plus",
            PanasonicShootingMode::IntelligentAutoPremium => "Intelligent Auto Premium",
            PanasonicShootingMode::IHandheldNightShot => "iHandheld Night Shot",
            PanasonicShootingMode::HandheldNightShot => "Handheld Night Shot",
            PanasonicShootingMode::SweepPanorama => "Sweep Panorama",
            PanasonicShootingMode::Photo3D => "3D Photo",
            PanasonicShootingMode::CreativeControl => "Creative Control",
            PanasonicShootingMode::Expressive => "Expressive",
            PanasonicShootingMode::Retro => "Retro",
            PanasonicShootingMode::Pure => "Pure",
            PanasonicShootingMode::Elegant => "Elegant",
            PanasonicShootingMode::Silky => "Silky",
            PanasonicShootingMode::MiniatureEffect => "Miniature Effect",
            PanasonicShootingMode::DynamicMonochrome => "Dynamic Monochrome",
            PanasonicShootingMode::ImpressiveArt => "Impressive Art",
            PanasonicShootingMode::HDRArt => "HDR Art",
            PanasonicShootingMode::ToyEffect => "Toy Effect",
            PanasonicShootingMode::ToyPop => "Toy Pop",
            PanasonicShootingMode::BleachBypass => "Bleach Bypass",
            PanasonicShootingMode::Monochrome => "Monochrome",
            PanasonicShootingMode::RoughMonochrome => "Rough Monochrome",
        }
    }

    /// Reads the setting from the first two bytes of `data`, little endian
    /// unless `le` is `Some(false)`.
    pub fn raw_parse(data: &[u8], le: Option<bool>) -> (r: Option<PanasonicShootingMode>)
        ensures
            match r {
                Some(e) => data@.len() >= 2 && e.spec_repr() == spec_u16(data@, 0, le != Some(false)),
                None => data@.len() < 2 || forall|e: PanasonicShootingMode| #[trigger] e.spec_repr() != spec_u16(data@, 0, le != Some(false)),
            },
    {
        if data.len() < 2 {
            return None;
        }
        let little = match le {
            Some(false) => false,
            _ => true,
        };
        PanasonicShootingMode::from_repr(load_u16(data, 0, little))
    }
}

/// Panasonic Color Effect (Tag 0x0028)
#[derive(Debug, Clone, Copy, PartialEq, Eq, Structural)]
pub enum PanasonicColorEffect {
    Off,
    Warm,
    Cool,
    BlackAndWhite,
    Sepia,
    Happy,
    Vivid,
}

impl PanasonicColorEffect {
    /// The number the MakerNote stores for the setting.
    pub open spec fn spec_repr(self) -> u16 {
        match self {
            PanasonicColorEffect::Off => 0x1,
            PanasonicColorEffect::Warm => 0x2,
            PanasonicColorEffect::Cool => 0x3,
            PanasonicColorEffect::BlackAndWhite => 0x4,
            PanasonicColorEffect::Sepia => 0x5,
            PanasonicColorEffect::Happy => 0x6,
            PanasonicColorEffect::Vivid => 0x8,
        }
    }

    /// The text the setting is shown as.
    pub open spec fn spec_label(self) -> &'static str {
        match self {
            PanasonicColorEffect::Off => "Off",
            PanasonicColorEffect::Warm => "Warm",
            PanasonicColorEffect::Cool => "Cool",
            PanasonicColorEffect::BlackAndWhite => "Black & White",
            PanasonicColorEffect::Sepia => "Sepia",
            PanasonicColorEffect::Happy => "Happy",
            PanasonicColorEffect::Vivid => "Vivid",
        }
    }

    /// Returns the setting the MakerNote number `v` stands for, if any.
    pub fn from_repr(v: u16) -> (r: Option<PanasonicColorEffect>)
        ensures
            match r {
                Some(e) => e.spec_repr() == v,
                None => forall|e: PanasonicColorEffect| #[trigger] e.spec_repr() != v,
            },
    {
        match v {
            0x1 => Some(PanasonicColorEffect::Off),
            0x2 => Some(PanasonicColorEffect::Warm),
            0x3 => Some(PanasonicColorEffect::Cool),
            0x4 => Some(PanasonicColorEffect::BlackAndWhite),
            0x5 => Some(PanasonicColorEffect::Sepia),
            0x6 => Some(PanasonicColorEffect::Happy),
            0x8 => Some(PanasonicColorEffect::Vivid),
            _ => None,
        }
    }

    /// Returns the number the MakerNote stores for the setting.
    pub fn repr(&self) -> (r: u16)
        ensures
            r == self.spec_repr(),
    {
        match self {
            PanasonicColorEffect::Off => 0x1,
            PanasonicColorEffect::Warm => 0x2,
            PanasonicColorEffect::Cool => 0x3,
            PanasonicColorEffect::BlackAndWhite => 0x4,
            PanasonicColorEffect::Sepia => 0x5,
            PanasonicColorEffect::Happy => 0x6,
            PanasonicColorEffect::Vivid => 0x8,
        }
    }

    /// Returns the text the setting is shown as.
    pub fn label(&self) -> (r: &'static str)
        ensures
            r == self.spec_label(),
    {
        match self {
            PanasonicColorEffect::Off => "Off",
            PanasonicColorEffect::Warm => "Warm",
            PanasonicColorEffect::Cool => "Cool",
            PanasonicColorEffect::BlackAndWhite => "Black & White",
            PanasonicColorEffect::Sepia => "Sepia",
            PanasonicColorEffect::Happy => "Happy",
            PanasonicColorEffect::Vivid => "Vivid",
        }
    }

    /// Reads the setting from the first two bytes of `data`, little endian
    /// unless `le` is `Some(false)`.
    pub fn raw_parse(data: &[u8], le: Option<bool>) -> (r: Option<PanasonicColorEffect>)
        ensures
            match r {
                Some(e) => data@.len() >= 2 && e.spec_repr() == spec_u16(data@, 0, le != Some(false)),
                None => data@.len() < 2 || forall|e: PanasonicColorEffect| #[trigger] e.spec_repr() != spec_u16(data@, 0, le != Some(false)),
            },
    {
        if data.len() < 2 {
            return None;
        }
        let little = match le {
            Some(false) => false,
            _ => true,
        };
        PanasonicColorEffect::from_repr(load_u16(data, 0, little))
    }
}

/// Panasonic Burst Mode (Tag 0x002a)
#[derive(Debug, Clone, Copy, PartialEq, Eq, Structural)]
pub enum PanasonicBurstMode {
    Off,
    On,
    AEB,
    FocusBracketing,
    Unlimited,
    WhiteBalanceBracketing,
    OnWithFlash,
    ApertureBracketing,
}

impl PanasonicBurstMode {
    /// The number the MakerNote stores for the setting.
    pub open spec fn spec_repr(self) -> u16 {
        match self {
            PanasonicBurstMode::Off => 0x0,
            PanasonicBurstMode::On => 0x1,
            PanasonicBurstMode::AEB => 0x2,
            PanasonicBurstMode::FocusBracketing => 0x3,
            PanasonicBurstMode::Unlimited => 0x4,
            PanasonicBurstMode::WhiteBalanceBracketing => 0x8,
            PanasonicBurstMode::OnWithFlash => 0x11,
            PanasonicBurstMode::ApertureBracketing => 0x12,
        }
    }

    /// The text the setting is shown as.
    pub open spec fn spec_label(self) -> &'static str {
        match self {
            PanasonicBurstMode::Off => "Off",
            PanasonicBurstMode::On => "On",
            PanasonicBurstMode::AEB => "Auto Exposure Bracketing (AEB)",
            PanasonicBurstMode::FocusBracketing => "Focus Bracketing",
            PanasonicBurstMode::Unlimited => "Unlimited",
            PanasonicBurstMode::WhiteBalanceBracketing => "White Balance Bracketing",
            PanasonicBurstMode::OnWithFlash => "On (with flash)",
            PanasonicBurstMode::ApertureBracketing => "Aperture Bracketing",
        }
    }

    /// Returns the setting the MakerNote number `v` stands for, if any.
    pub fn from_repr(v: u16) -> (r: Option<PanasonicBurstMode>)
        ensures
            match r {
                Some(e) => e.spec_repr() == v,
                None => forall|e: PanasonicBurstMode| #[trigger] e.spec_repr() != v,
            },
    {
        match v {
            0x0 => Some(PanasonicBurstMode::Off),
            0x1 => Some(PanasonicBurstMode::On),
            0x2 => Some(PanasonicBurstMode::AEB),
            0x3 => Some(PanasonicBurstMode::FocusBracketing),
            0x4 => Some(PanasonicBurstMode::Unlimited),
            0x8 => Some(PanasonicBurstMode::WhiteBalanceBracketing),
            0x11 => Some(PanasonicBurstMode::OnWithFlash),
            0x12 => Some(PanasonicBurstMode::ApertureBracketing),
            _ => None,
        }
    }

    /// Returns the number the MakerNote stores for the setting.
    pub fn repr(&self) -> (r: u16)
        ensures
            r == self.spec_repr(),
    {
        match self {
            PanasonicBurstMode::Off => 0x0,
            PanasonicBurstMode::On => 0x1,
            PanasonicBurstMode::AEB => 0x2,
            PanasonicBurstMode::FocusBracketing => 0x3,
            PanasonicBurstMode::Unlimited => 0x4,
            PanasonicBurstMode::WhiteBalanceBracketing => 0x8,
            PanasonicBurstMode::OnWithFlash => 0x11,
            PanasonicBurstMode::ApertureBracketing => 0x12,
        }
    }

    /// Returns the text the setting is shown as.
    pub fn label(&self) -> (r: &'static str)
        ensures
            r == self.spec_label(),
    {
        match self {
            PanasonicBurstMode::Off => "Off",
            PanasonicBurstMode::On => "On",
            PanasonicBurstMode::AEB => "Auto Exposure Bracketing (AEB)",
            PanasonicBurstMode::FocusBracketing => "Focus Bracketing",
            PanasonicBurstMode::Unlimited => "Unlimited",
            PanasonicBurstMode::WhiteBalanceBracketing => "White Balance Bracketing",
            PanasonicBurstMode::OnWithFlash => "On (with flash)",
            PanasonicBurstMode::ApertureBracketing => "Aperture Bracketing",
        }
    }

    /// Reads the setting from the first two bytes of `data`, little endian
    /// unless `le` is `Some(false)`.
    pub fn raw_parse(data: &[u8], le: Option<bool>) -> (r: Option<PanasonicBurstMode>)
        ensures
            match r {
                Some(e) => data@.len() >= 2 && e.spec_repr() == spec_u16(data@, 0, le != Some(false)),
                None => data@.len() < 2 || forall|e: PanasonicBurstMode| #[trigger] e.spec_repr() != spec_u16(data@, 0, le != Some(false)),
            },
    {
        if data.len() < 2 {
            return None;
        }
        let little = match le {
            Some(false) => false,
            _ => true,
        };
        PanasonicBurstMode::from_repr(load_u16(data, 0, little))
    }
}

/// Panasonic Self Timer (Tag 0x002e)
#[derive(Debug, Clone, Copy, PartialEq, Eq, Structural)]
pub enum PanasonicSelfTimer {
    Off0,
    Off1,
    Timer10s,
    Timer2s,
    Timer10s3Pics,
    Timer2sAfterShutter,
    Timer10sAfterShutter,
    Photos3After10s,
}

impl PanasonicSelfTimer {
    /// The number the MakerNote stores for the setting.
    pub open spec fn spec_repr(self) -> u16 {
        match self {
            PanasonicSelfTimer::Off0 => 0x0,
            PanasonicSelfTimer::Off1 => 0x1,
            PanasonicSelfTimer::Timer10s => 0x2,
            PanasonicSelfTimer::Timer2s => 0x3,
            PanasonicSelfTimer::Timer10s3Pics => 0x4,
            PanasonicSelfTimer::Timer2sAfterShutter => 0x102,
            PanasonicSelfTimer::Timer10sAfterShutter => 0x10a,
            PanasonicSelfTimer::Photos3After10s => 0x30a,
        }
    }

    /// The text the setting is shown as.
    pub open spec fn spec_label(self) -> &'static str {
        match self {
            PanasonicSelfTimer::Off0 => "Off",
            PanasonicSelfTimer::Off1 => "Off",
            PanasonicSelfTimer::Timer10s => "10 s",
            PanasonicSelfTimer::Timer2s => "2 s",
            PanasonicSelfTimer::Timer10s3Pics => "10 s / 3 pictures",
            PanasonicSelfTimer::Timer2sAfterShutter => "2 s after shutter pressed",
            PanasonicSelfTimer::Timer10sAfterShutter => "10 s after shutter pressed",
            PanasonicSelfTimer::Photos3After10s => "3 photos after 10 s",
        }
    }

    /// Returns the setting the MakerNote number `v` stands for, if any.
    pub fn from_repr(v: u16) -> (r: Option<PanasonicSelfTimer>)
        ensures
            match r {
                Some(e) => e.spec_repr() == v,
                None => forall|e: PanasonicSelfTimer| #[trigger] e.spec_repr() != v,
            },
    {
        match v {
            0x0 => Some(PanasonicSelfTimer::Off0),
            0x1 => Some(PanasonicSelfTimer::Off1),
            0x2 => Some(PanasonicSelfTimer::Timer10s),
            0x3 => Some(PanasonicSelfTimer::Timer2s),
            0x4 => Some(PanasonicSelfTimer::Timer10s3Pics),
            0x102 => Some(PanasonicSelfTimer::Timer2sAfterShutter),
            0x10a => Some(PanasonicSelfTimer::Timer10sAfterShutter),
            0x30a => Some(PanasonicSelfTimer::Photos3After10s),
            _ => None,
        }
    }

    /// Returns the number the MakerNote stores for the setting.
    pub fn repr(&self) -> (r: u16)
        ensures
            r == self.spec_repr(),
    {
        match self {
            PanasonicSelfTimer::Off0 => 0x0,
            PanasonicSelfTimer::Off1 => 0x1,
            PanasonicSelfTimer::Timer10s => 0x2,
            PanasonicSelfTimer::Timer2s => 0x3,
            PanasonicSelfTimer::Timer10s3Pics => 0x4,
            PanasonicSelfTimer::Timer2sAfterShutter => 0x102,
            PanasonicSelfTimer::Timer10sAfterShutter => 0x10a,
            PanasonicSelfTimer::Photos3After10s => 0x30a,
        }
    }

    /// Returns the text the setting is shown as.
    pub fn label(&self) -> (r: &'static str)
        ensures
            r == self.spec_label(),
    {
        match self {
            PanasonicSelfTimer::Off0 => "Off",
            PanasonicSelfTimer::Off1 => "Off",
            PanasonicSelfTimer::Timer10s => "10 s",
            PanasonicSelfTimer::Timer2s => "2 s",
            PanasonicSelfTimer::Timer10s3Pics => "10 s / 3 pictures",
            PanasonicSelfTimer::Timer2sAfterShutter => "2 s after shutter pressed",
            PanasonicSelfTimer::Timer10sAfterShutter => "10 s after shutter pressed",
            PanasonicSelfTimer::Photos3After10s => "3 photos after 10 s",
        }
    }

    /// Reads the setting from the first two bytes of `data`, little endian
    /// unless `le` is `Some(false)`.
    pub fn raw_parse(data: &[u8], le: Option<bool>) -> (r: Option<PanasonicSelfTimer>)
        ensures
            match r {
                Some(e) => data@.len() >= 2 && e.spec_repr() == spec_u16(data@, 0, le != Some(false)),
                None => data@.len() < 2 || forall|e: PanasonicSelfTimer| #[trigger] e.spec_repr() != spec_u16(data@, 0, le != Some(false)),
            },
    {
        if data.len() < 2 {
            return None;
        }
        let little = match le {
            Some(false) => false,
            _ => true,
        };
        PanasonicSelfTimer::from_repr(load_u16(data, 0, little))
    }
}

/// Panasonic Battery Level (Tag 0x0038)
#[derive(Debug, Clone, Copy, PartialEq, Eq, Structural)]
pub enum PanasonicBatteryLevel {
    Full,
    Medium,
    Low,
    NearEmpty,
    NearFull,
    MediumLow,
    NA,
}

impl PanasonicBatteryLevel {
    /// The number the MakerNote stores for the setting.
    pub open spec fn spec_repr(self) -> u16 {
        match self {
            PanasonicBatteryLevel::Full => 0x1,
            PanasonicBatteryLevel::Medium => 0x2,
            PanasonicBatteryLevel::Low => 0x3,
            PanasonicBatteryLevel::NearEmpty => 0x4,
            PanasonicBatteryLevel::NearFull => 0x7,
            PanasonicBatteryLevel::MediumLow => 0x8,
            PanasonicBatteryLevel::NA => 0x100,
        }
    }

    /// The text the setting is shown as.
    pub open spec fn spec_label(self) -> &'static str {
        match self {
            PanasonicBatteryLevel::Full => "Full",
            PanasonicBatteryLevel::Medium => "Medium",
            PanasonicBatteryLevel::Low => "Low",
            PanasonicBatteryLevel::NearEmpty => "Near Empty",
            PanasonicBatteryLevel::NearFull => "Near Full",
            PanasonicBatteryLevel::MediumLow => "Medium Low",
            PanasonicBatteryLevel::NA => "n/a",
        }
    }

    /// Returns the setting the MakerNote number `v` stands for, if any.
    pub fn from_repr(v: u16) -> (r: Option<PanasonicBatteryLevel>)
        ensures
            match r {
                Some(e) => e.spec_repr() == v,
                None => forall|e: PanasonicBatteryLevel| #[trigger] e.spec_repr() != v,
            },
    {
        match v {
            0x1 => Some(PanasonicBatteryLevel::Full),
            0x2 => Some(PanasonicBatteryLevel::Medium),
            0x3 => Some(PanasonicBatteryLevel::Low),
            0x4 => Some(PanasonicBatteryLevel::NearEmpty),
            0x7 => Some(PanasonicBatteryLevel::NearFull),
            0x8 => Some(PanasonicBatteryLevel::MediumLow),
            0x100 => Some(PanasonicBatteryLevel::NA),
            _ => None,
        }
    }

    /// Returns the number the MakerNote stores for the setting.
    pub fn repr(&self) -> (r: u16)
        ensures
            r == self.spec_repr(),
    {
        match self {
            PanasonicBatteryLevel::Full => 0x1,
            PanasonicBatteryLevel::Medium => 0x2,
            PanasonicBatteryLevel::Low => 0x3,
            PanasonicBatteryLevel::NearEmpty => 0x4,
            PanasonicBatteryLevel::NearFull => 0x7,
            PanasonicBatteryLevel::MediumLow => 0x8,
            PanasonicBatteryLevel::NA => 0x100,
        }
    }

    /// Returns the text the setting is shown as.
    pub fn label(&self) -> (r: &'static str)
        ensures
            r == self.spec_label(),
    {
        match self {
            PanasonicBatteryLevel::Full => "Full",
            PanasonicBatteryLevel::Medium => "Medium",
            PanasonicBatteryLevel::Low => "Low",
            PanasonicBatteryLevel::NearEmpty => "Near Empty",
            PanasonicBatteryLevel::NearFull => "Near Full",
            PanasonicBatteryLevel::MediumLow => "Medium Low",
            PanasonicBatteryLevel::NA => "n/a",
        }
    }

    /// Reads the setting from the first two bytes of `data`, little endian
    /// unless `le` is `Some(false)`.
    pub fn raw_parse(data: &[u8], le: Option<bool>) -> (r: Option<PanasonicBatteryLevel>)
        ensures
            match r {
                Some(e) => data@.len() >= 2 && e.spec_repr() == spec_u16(data@, 0, le != Some(false)),
                None => data@.len() < 2 || forall|e: PanasonicBatteryLevel| #[trigger] e.spec_repr() != spec_u16(data@, 0, le != Some(false)),
            },
    {
        if data.len() < 2 {
            return None;
        }
        let little = match le {
            Some(false) => false,
            _ => true,
        };
        PanasonicBatteryLevel::from_repr(load_u16(data, 0, little))
    }
}

/// Panasonic Film Mode (Tag 0x0042)
#[derive(Debug, Clone, Copy, PartialEq, Eq, Structural)]
pub enum PanasonicFilmMode {
    NA,
    StandardColor,
    DynamicColor,
    NatureColor,
    SmoothColor,
    StandardBW,
    DynamicBW,
    SmoothBW,
    Nostalgic,
    Vibrant,
}

impl PanasonicFilmMode {
    /// The number the MakerNote stores for the setting.
    pub open spec fn spec_repr(self) -> u16 {
        match self {
            PanasonicFilmMode::NA => 0x0,
            PanasonicFilmMode::StandardColor => 0x1,
            PanasonicFilmMode::DynamicColor => 0x2,
            PanasonicFilmMode::NatureColor => 0x3,
            PanasonicFilmMode::SmoothColor => 0x4,
            PanasonicFilmMode::StandardBW => 0x5,
            PanasonicFilmMode::DynamicBW => 0x6,
            PanasonicFilmMode::SmoothBW => 0x7,
            PanasonicFilmMode::Nostalgic => 0xa,
            PanasonicFilmMode::Vibrant => 0xb,
        }
    }

    /// The text the setting is shown as.
    pub open spec fn spec_label(self) -> &'static str {
        match self {
            PanasonicFilmMode::NA => "n/a",
            PanasonicFilmMode::StandardColor => "Standard (color)",
            PanasonicFilmMode::DynamicColor => "Dynamic (color)",
            PanasonicFilmMode::NatureColor => "Nature (color)",
            PanasonicFilmMode::SmoothColor => "Smooth (color)",
            PanasonicFilmMode::StandardBW => "Standard (B&W)",
            PanasonicFilmMode::DynamicBW => "Dynamic (B&W)",
            PanasonicFilmMode::SmoothBW => "Smooth (B&W)",
            PanasonicFilmMode::Nostalgic => "Nostalgic",
            PanasonicFilmMode::Vibrant => "Vibrant",
        }
    }

    /// Returns the setting the MakerNote number `v` stands for, if any.
    pub fn from_repr(v: u16) -> (r: Option<PanasonicFilmMode>)
        ensures
            match r {
                Some(e) => e.spec_repr() == v,
                None => forall|e: PanasonicFilmMode| #[trigger] e.spec_repr() != v,
            },
    {
        match v {
            0x0 => Some(PanasonicFilmMode::NA),
            0x1 => Some(PanasonicFilmMode::StandardColor),
            0x2 => Some(PanasonicFilmMode::DynamicColor),
            0x3 => Some(PanasonicFilmMode::NatureColor),
            0x4 => Some(PanasonicFilmMode::SmoothColor),
            0x5 => Some(PanasonicFilmMode::StandardBW),
            0x6 => Some(PanasonicFilmMode::DynamicBW),
            0x7 => Some(PanasonicFilmMode::SmoothBW),
            0xa => Some(PanasonicFilmMode::Nostalgic),
            0xb => Some(PanasonicFilmMode::Vibrant),
            _ => None,
        }
    }

    /// Returns the number the MakerNote stores for the setting.
    pub fn repr(&self) -> (r: u16)
        ensures
            r == self.spec_repr(),
    {
        match self {
            PanasonicFilmMode::NA => 0x0,
            PanasonicFilmMode::StandardColor => 0x1,
            PanasonicFilmMode::DynamicColor => 0x2,
            PanasonicFilmMode::NatureColor => 0x3,
            PanasonicFilmMode::SmoothColor => 0x4,
            PanasonicFilmMode::StandardBW => 0x5,
            PanasonicFilmMode::DynamicBW => 0x6,
            PanasonicFilmMode::SmoothBW => 0x7,
            PanasonicFilmMode::Nostalgic => 0xa,
            PanasonicFilmMode::Vibrant => 0xb,
        }
    }

    /// Returns the text the setting is shown as.
    pub fn label(&self) -> (r: &'static str)
        ensures
            r == self.spec_label(),
    {
        match self {
            PanasonicFilmMode::NA => "n/a",
            PanasonicFilmMode::StandardColor => "Standard (color)",
            PanasonicFilmMode::DynamicColor => "Dynamic (color)",
            PanasonicFilmMode::NatureColor => "Nature (color)",
            PanasonicFilmMode::SmoothColor => "Smooth (color)",
            PanasonicFilmMode::StandardBW => "Standard (B&W)",
            PanasonicFilmMode::DynamicBW => "Dynamic (B&W)",
            PanasonicFilmMode::SmoothBW => "Smooth (B&W)",
            PanasonicFilmMode::Nostalgic => "Nostalgic",
            PanasonicFilmMode::Vibrant => "Vibrant",
        }
    }

    /// Reads the setting from the first two bytes of `data`, little endian
    /// unless `le` is `Some(false)`.
    pub fn raw_parse(data: &[u8], le: Option<bool>) -> (r: Option<PanasonicFilmMode>)
        ensures
            match r {
                Some(e) => data@.len() >= 2 && e.spec_repr() == spec_u16(data@, 0, le != Some(false)),
                None => data@.len() < 2 || forall|e: PanasonicFilmMode| #[trigger] e.spec_repr() != spec_u16(data@, 0, le != Some(false)),
            },
    {
        if data.len() < 2 {
            return None;
        }
        let little = match le {
            Some(false) => false,
            _ => true,
        };
        PanasonicFilmMode::from_repr(load_u16(data, 0, little))
    }
}

/// Panasonic JPEG Quality (Tag 0x0043)
#[derive(Debug, Clone, Copy, PartialEq, Eq, Structural)]
pub enum PanasonicJPEGQuality {
    NA,
    StandardColor,
    DynamicColor,
    NatureColor,
    SmoothColor,
}

impl PanasonicJPEGQuality {
    /// The number the MakerNote stores for the setting.
    pub open spec fn spec_repr(self) -> u16 {
        match self {
            PanasonicJPEGQuality::NA => 0x0,
            PanasonicJPEGQuality::StandardColor => 0x2,
            PanasonicJPEGQuality::DynamicColor => 0x3,
            PanasonicJPEGQuality::NatureColor => 0x6,
            PanasonicJPEGQuality::SmoothColor => 0xff,
        }
    }

    /// The text the setting is shown as.
    pub open spec fn spec_label(self) -> &'static str {
        match self {
            PanasonicJPEGQuality::NA => "n/a (Movie)",
            PanasonicJPEGQuality::StandardColor => "High",
            PanasonicJPEGQuality::DynamicColor => "Standard",
            PanasonicJPEGQuality::NatureColor => "Very High",
            PanasonicJPEGQuality::SmoothColor => "n/a (RAW only)",
        }
    }

    /// Returns the setting the MakerNote number `v` stands for, if any.
    pub fn from_repr(v: u16) -> (r: Option<PanasonicJPEGQuality>)
        ensures
            match r {
                Some(e) => e.spec_repr() == v,
                None => forall|e: PanasonicJPEGQuality| #[trigger] e.spec_repr() != v,
            },
    {
        match v {
            0x0 => Some(PanasonicJPEGQuality::NA),
            0x2 => Some(PanasonicJPEGQuality::StandardColor),
            0x3 => Some(PanasonicJPEGQuality::DynamicColor),
            0x6 => Some(PanasonicJPEGQuality::NatureColor),
            0xff => Some(PanasonicJPEGQuality::SmoothColor),
            _ => None,
        }
    }

    /// Returns the number the MakerNote stores for the setting.
    pub fn repr(&self) -> (r: u16)
        ensures
            r == self.spec_repr(),
    {
        match self {
            PanasonicJPEGQuality::NA => 0x0,
            PanasonicJPEGQuality::StandardColor => 0x2,
            PanasonicJPEGQuality::DynamicColor => 0x3,
            PanasonicJPEGQuality::NatureColor => 0x6,
            PanasonicJPEGQuality::SmoothColor => 0xff,
        }
    }

    /// Returns the text the setting is shown as.
    pub fn label(&self) -> (r: &'static str)
        ensures
            r == self.spec_label(),
    {
        match self {
            PanasonicJPEGQuality::NA => "n/a (Movie)",
            PanasonicJPEGQuality::StandardColor => "High",
            PanasonicJPEGQuality::DynamicColor => "Standard",
            PanasonicJPEGQuality::NatureColor => "Very High",
            PanasonicJPEGQuality::SmoothColor => "n/a (RAW only)",
        }
    }

    /// Reads the setting from the first two bytes of `data`, little endian
    /// unless `le` is `Some(false)`.
    pub fn raw_parse(data: &[u8], le: Option<bool>) -> (r: Option<PanasonicJPEGQuality>)
        ensures
            match r {
                Some(e) => data@.len() >= 2 && e.spec_repr() == spec_u16(data@, 0, le != Some(false)),
                None => data@.len() < 2 || forall|e: PanasonicJPEGQuality| #[trigger] e.spec_repr() != spec_u16(data@, 0, le != Some(false)),
            },
    {
        if data.len() < 2 {
            return None;
        }
        let little = match le {
            Some(false) => false,
            _ => true,
        };
        PanasonicJPEGQuality::from_repr(load_u16(data, 0, little))
    }
}

/// Panasonic IntelligentResolution (Tag 0x0070)
#[derive(Debug, Clone, Copy, PartialEq, Eq, Structural)]
pub enum PanasonicIntelligentResolution {
    Off,
    Low,
    Standard,
    High,
    Extended,
}

impl PanasonicIntelligentResolution {
    /// The number the MakerNote stores for the setting.
    pub open spec fn spec_repr(self) -> u8 {
        match self {
            PanasonicIntelligentResolution::Off => 0x0,
            PanasonicIntelligentResolution::Low => 0x1,
            PanasonicIntelligentResolution::Standard => 0x2,
            PanasonicIntelligentResolution::High => 0x3,
            PanasonicIntelligentResolution::Extended => 0x4,
        }
    }

    /// The text the setting is shown as.
    pub open spec fn spec_label(self) -> &'static str {
        match self {
            PanasonicIntelligentResolution::Off => "Off",
            PanasonicIntelligentResolution::Low => "Low",
            PanasonicIntelligentResolution::Standard => "Standard",
            PanasonicIntelligentResolution::High => "High",
            PanasonicIntelligentResolution::Extended => "Extended",
        }
    }

    /// Returns the setting the MakerNote number `v` stands for, if any.
    pub fn from_repr(v: u8) -> (r: Option<PanasonicIntelligentResolution>)
        ensures
            match r {
                Some(e) => e.spec_repr() == v,
                None => forall|e: PanasonicIntelligentResolution| #[trigger] e.spec_repr() != v,
            },
    {
        match v {
            0x0 => Some(PanasonicIntelligentResolution::Off),
            0x1 => Some(PanasonicIntelligentResolution::Low),
            0x2 => Some(PanasonicIntelligentResolution::Standard),
            0x3 => Some(PanasonicIntelligentResolution::High),
            0x4 => Some(PanasonicIntelligentResolution::Extended),
            _ => None,
        }
    }

    /// Returns the number the MakerNote stores for the setting.
    pub fn repr(&self) -> (r: u8)
        ensures
            r == self.spec_repr(),
    {
        match self {
            PanasonicIntelligentResolution::Off => 0x0,
            PanasonicIntelligentResolution::Low => 0x1,
            PanasonicIntelligentResolution::Standard => 0x2,
            PanasonicIntelligentResolution::High => 0x3,
            PanasonicIntelligentResolution::Extended => 0x4,
        }
    }

    /// Returns the text the setting is shown as.
    pub fn label(&self) -> (r: &'static str)
        ensures
            r == self.spec_label(),
    {
        match self {
            PanasonicIntelligentResolution::Off => "Off",
            PanasonicIntelligentResolution::Low => "Low",
            PanasonicIntelligentResolution::Standard => "Standard",
            PanasonicIntelligentResolution::High => "High",
            PanasonicIntelligentResolution::Extended => "Extended",
        }
    }

    /// Reads the setting from the first byte of `data`.
    pub fn raw_parse(data: &[u8], le: Option<bool>) -> (r: Option<PanasonicIntelligentResolution>)
        ensures
            match r {
                Some(e) => data@.len() >= 1 && e.spec_repr() == data@[0],
                None => data@.len() < 1 || forall|e: PanasonicIntelligentResolution| #[trigger] e.spec_repr() != data@[0],
            },
    {
        if data.len() < 1 {
            return None;
        }
        PanasonicIntelligentResolution::from_repr(data[0])
    }
}

/// Panasonic IntelligentD-Range (Tag 0x0079)
#[derive(Debug, Clone, Copy, PartialEq, Eq, Structural)]
pub enum PanasonicIntelligentDRange {
    Off,
    Low,
    Standard,
    High,
}

impl PanasonicIntelligentDRange {
    /// The number the MakerNote stores for the setting.
    pub open spec fn spec_repr(self) -> u16 {
        match self {
            PanasonicIntelligentDRange::Off => 0x0,
            PanasonicIntelligentDRange::Low => 0x1,
            PanasonicIntelligentDRange::Standard => 0x2,
            PanasonicIntelligentDRange::High => 0x3,
        }
    }

    /// The text the setting is shown as.
    pub open spec fn spec_label(self) -> &'static str {
        match self {
            PanasonicIntelligentDRange::Off => "Off",
            PanasonicIntelligentDRange::Low => "Low",
            PanasonicIntelligentDRange::Standard => "Standard",
            PanasonicIntelligentDRange::High => "High",
        }
    }

    /// Returns the setting the MakerNote number `v` stands for, if any.
    pub fn from_repr(v: u16) -> (r: Option<PanasonicIntelligentDRange>)
        ensures
            match r {
                Some(e) => e.spec_repr() == v,
                None => forall|e: PanasonicIntelligentDRange| #[trigger] e.spec_repr() != v,
            },
    {
        match v {
            0x0 => Some(PanasonicIntelligentDRange::Off),
            0x1 => Some(PanasonicIntelligentDRange::Low),
            0x2 => Some(PanasonicIntelligentDRange::Standard),
            0x3 => Some(PanasonicIntelligentDRange::High),
            _ => None,
        }
    }

    /// Returns the number the MakerNote stores for the setting.
    pub fn repr(&self) -> (r: u16)
        ensures
            r == self.spec_repr(),
    {
        match self {
            PanasonicIntelligentDRange::Off => 0x0,
            PanasonicIntelligentDRange::Low => 0x1,
            PanasonicIntelligentDRange::Standard => 0x2,
            PanasonicIntelligentDRange::High => 0x3,
        }
    }

    /// Returns the text the setting is shown as.
    pub fn label(&self) -> (r: &'static str)
        ensures
            r == self.spec_label(),
    {
        match self {
            PanasonicIntelligentDRange::Off => "Off",
            PanasonicIntelligentDRange::Low => "Low",
            PanasonicIntelligentDRange::Standard => "Standard",
            PanasonicIntelligentDRange::High => "High",
        }
    }

    /// Reads the setting from the first two bytes of `data`, little endian
    /// unless `le` is `Some(false)`.
    pub fn raw_parse(data: &[u8], le: Option<bool>) -> (r: Option<PanasonicIntelligentDRange>)
        ensures
            match r {
                Some(e) => data@.len() >= 2 && e.spec_repr() == spec_u16(data@, 0, le != Some(false)),
                None => data@.len() < 2 || forall|e: PanasonicIntelligentDRange| #[trigger] e.spec_repr() != spec_u16(data@, 0, le != Some(false)),
            },
    {
        if data.len() < 2 {
            return None;
        }
        let little = match le {
            Some(false) => false,
            _ => true,
        };
        PanasonicIntelligentDRange::from_repr(load_u16(data, 0, little))
    }
}

/// Panasonic PhotoStyle (Tag 0x0089)
#[derive(Debug, Clone, Copy, PartialEq, Eq, Structural)]
pub enum PanasonicPhotoStyle {
    Auto,
    StandardOrCustom,
    Vivid,
    Natural,
    Monochrome,
    Scenery,
    Portrait,
    CinelikeD,
    CinelikeV,
    LMonochrome,
    Like709,
    LMonochromeD,
    VLog,
    CinelikeD2,
}

impl PanasonicPhotoStyle {
    /// The number the MakerNote stores for the setting.
    pub open spec fn spec_repr(self) -> u16 {
        match self {
            PanasonicPhotoStyle::Auto => 0x0,
            PanasonicPhotoStyle::StandardOrCustom => 0x1,
            PanasonicPhotoStyle::Vivid => 0x2,
            PanasonicPhotoStyle::Natural => 0x3,
            PanasonicPhotoStyle::Monochrome => 0x4,
            PanasonicPhotoStyle::Scenery => 0x5,
            PanasonicPhotoStyle::Portrait => 0x6,
            PanasonicPhotoStyle::CinelikeD => 0x8,
            PanasonicPhotoStyle::CinelikeV => 0x9,
            PanasonicPhotoStyle::LMonochrome => 0xb,
            PanasonicPhotoStyle::Like709 => 0xc,
            PanasonicPhotoStyle::LMonochromeD => 0xf,
            PanasonicPhotoStyle::VLog => 0x11,
            PanasonicPhotoStyle::CinelikeD2 => 0x12,
        }
    }

    /// The text the setting is shown as.
    pub open spec fn spec_label(self) -> &'static str {
        match self {
            PanasonicPhotoStyle::Auto => "Auto",
            PanasonicPhotoStyle::StandardOrCustom => "Standard or Custom",
            PanasonicPhotoStyle::Vivid => "Vivid",
            PanasonicPhotoStyle::Natural => "Natural",
            PanasonicPhotoStyle::Monochrome => "Monochrome",
            PanasonicPhotoStyle::Scenery => "Scenery",
            PanasonicPhotoStyle::Portrait => "Portrait",
            PanasonicPhotoStyle::CinelikeD => "Cinelike D",
            PanasonicPhotoStyle::CinelikeV => "Cinelike V",
            PanasonicPhotoStyle::LMonochrome => "L. Monochrome",
            PanasonicPhotoStyle::Like709 => "Like709",
            PanasonicPhotoStyle::LMonochromeD => "L. Monochrome D",
            PanasonicPhotoStyle::VLog => "V-Log",
            PanasonicPhotoStyle::CinelikeD2 => "Cinelike D2",
        }
    }

    /// Returns the setting the MakerNote number `v` stands for, if any.
    pub fn from_repr(v: u16) -> (r: Option<PanasonicPhotoStyle>)
        ensures
            match r {
                Some(e) => e.spec_repr() == v,
                None => forall|e: PanasonicPhotoStyle| #[trigger] e.spec_repr() != v,
            },
    {
        match v {
            0x0 => Some(PanasonicPhotoStyle::Auto),
            0x1 => Some(PanasonicPhotoStyle::StandardOrCustom),
            0x2 => Some(PanasonicPhotoStyle::Vivid),
            0x3 => Some(PanasonicPhotoStyle::Natural),
            0x4 => Some(PanasonicPhotoStyle::Monochrome),
            0x5 => Some(PanasonicPhotoStyle::Scenery),
            0x6 => Some(PanasonicPhotoStyle::Portrait),
            0x8 => Some(PanasonicPhotoStyle::CinelikeD),
            0x9 => Some(PanasonicPhotoStyle::CinelikeV),
            0xb => Some(PanasonicPhotoStyle::LMonochrome),
            0xc => Some(PanasonicPhotoStyle::Like709),
            0xf => Some(PanasonicPhotoStyle::LMonochromeD),
            0x11 => Some(PanasonicPhotoStyle::VLog),
            0x12 => Some(PanasonicPhotoStyle::CinelikeD2),
            _ => None,
        }
    }

    /// Returns the number the MakerNote stores for the setting.
    pub fn repr(&self) -> (r: u16)
        ensures
            r == self.spec_repr(),
    {
        match self {
            PanasonicPhotoStyle::Auto => 0x0,
            PanasonicPhotoStyle::StandardOrCustom => 0x1,
            PanasonicPhotoStyle::Vivid => 0x2,
            PanasonicPhotoStyle::Natural => 0x3,
            PanasonicPhotoStyle::Monochrome => 0x4,
            PanasonicPhotoStyle::Scenery => 0x5,
            PanasonicPhotoStyle::Portrait => 0x6,
            PanasonicPhotoStyle::CinelikeD => 0x8,
            PanasonicPhotoStyle::CinelikeV => 0x9,
            PanasonicPhotoStyle::LMonochrome => 0xb,
            PanasonicPhotoStyle::Like709 => 0xc,
            PanasonicPhotoStyle::LMonochromeD => 0xf,
            PanasonicPhotoStyle::VLog => 0x11,
            PanasonicPhotoStyle::CinelikeD2 => 0x12,
        }
    }

    /// Returns the text the setting is shown as.
    pub fn label(&self) -> (r: &'static str)
        ensures
            r == self.spec_label(),
    {
        match self {
            PanasonicPhotoStyle::Auto => "Auto",
            PanasonicPhotoStyle::StandardOrCustom => "Standard or Custom",
            PanasonicPhotoStyle::Vivid => "Vivid",
            PanasonicPhotoStyle::Natural => "Natural",
            PanasonicPhotoStyle::Monochrome => "Monochrome",
            PanasonicPhotoStyle::Scenery => "Scenery",
            PanasonicPhotoStyle::Portrait => "Portrait",
            PanasonicPhotoStyle::CinelikeD => "Cinelike D",
            PanasonicPhotoStyle::CinelikeV => "Cinelike V",
            PanasonicPhotoStyle::LMonochrome => "L. Monochrome",
            PanasonicPhotoStyle::Like709 => "Like709",
            PanasonicPhotoStyle::LMonochromeD => "L. Monochrome D",
            PanasonicPhotoStyle::VLog => "V-Log",
            PanasonicPhotoStyle::CinelikeD2 => "Cinelike D2",
        }
    }

    /// Reads the setting from the first two bytes of `data`, little endian
    /// unless `le` is `Some(false)`.
    pub fn raw_parse(data: &[u8], le: Option<bool>) -> (r: Option<PanasonicPhotoStyle>)
        ensures
            match r {
                Some(e) => data@.len() >= 2 && e.spec_repr() == spec_u16(data@, 0, le != Some(false)),
                None => data@.len() < 2 || forall|e: PanasonicPhotoStyle| #[trigger] e.spec_repr() != spec_u16(data@, 0, le != Some(false)),
            },
    {
        if data.len() < 2 {
            return None;
        }
        let little = match le {
            Some(false) => false,
            _ => true,
        };
        PanasonicPhotoStyle::from_repr(load_u16(data, 0, little))
    }
}

/// Panasonic SweepPanoramaDirection (Tag 0x0093)
#[derive(Debug, Clone, Copy, PartialEq, Eq, Structural)]
pub enum PanasonicSweepPanoramaDirection {
    Off,
    LeftToRight,
    RightToLeft,
    TopToBottom,
    BottomToTop,
}

impl PanasonicSweepPanoramaDirection {
    /// The number the MakerNote stores for the setting.
    pub open spec fn spec_repr(self) -> u8 {
        match self {
            PanasonicSweepPanoramaDirection::Off => 0x0,
            PanasonicSweepPanoramaDirection::LeftToRight => 0x1,
            PanasonicSweepPanoramaDirection::RightToLeft => 0x2,
            PanasonicSweepPanoramaDirection::TopToBottom => 0x3,
            PanasonicSweepPanoramaDirection::BottomToTop => 0x4,
        }
    }

    /// The text the setting is shown as.
    pub open spec fn spec_label(self) -> &'static str {
        match self {
            PanasonicSweepPanoramaDirection::Off => "Off",
            PanasonicSweepPanoramaDirection::LeftToRight => "Left to Right",
            PanasonicSweepPanoramaDirection::RightToLeft => "Right to Left",
            PanasonicSweepPanoramaDirection::TopToBottom => "Top to Bottom",
            PanasonicSweepPanoramaDirection::BottomToTop => "Bottom to Top",
        }
    }

    /// Returns the setting the MakerNote number `v` stands for, if any.
    pub fn from_repr(v: u8) -> (r: Option<PanasonicSweepPanoramaDirection>)
        ensures
            match r {
                Some(e) => e.spec_repr() == v,
                None => forall|e: PanasonicSweepPanoramaDirection| #[trigger] e.spec_repr() != v,
            },
    {
        match v {
            0x0 => Some(PanasonicSweepPanoramaDirection::Off),
            0x1 => Some(PanasonicSweepPanoramaDirection::LeftToRight),
            0x2 => Some(PanasonicSweepPanoramaDirection::RightToLeft),
            0x3 => Some(PanasonicSweepPanoramaDirection::TopToBottom),
            0x4 => Some(PanasonicSweepPanoramaDirection::BottomToTop),
            _ => None,
        }
    }

    /// Returns the number the MakerNote stores for the setting.
    pub fn repr(&self) -> (r: u8)
        ensures
            r == self.spec_repr(),
    {
        match self {
            PanasonicSweepPanoramaDirection::Off => 0x0,
            PanasonicSweepPanoramaDirection::LeftToRight => 0x1,
            PanasonicSweepPanoramaDirection::RightToLeft => 0x2,
            PanasonicSweepPanoramaDirection::TopToBottom => 0x3,
            PanasonicSweepPanoramaDirection::BottomToTop => 0x4,
        }
    }

    /// Returns the text the setting is shown as.
    pub fn label(&self) -> (r: &'static str)
        ensures
            r == self.spec_label(),
    {
        match self {
            PanasonicSweepPanoramaDirection::Off => "Off",
            PanasonicSweepPanoramaDirection::LeftToRight => "Left to Right",
            PanasonicSweepPanoramaDirection::RightToLeft => "Right to Left",
            PanasonicSweepPanoramaDirection::TopToBottom => "Top to Bottom",
            PanasonicSweepPanoramaDirection::BottomToTop => "Bottom to Top",
        }
    }

    /// Reads the setting from the first byte of `data`.
    pub fn raw_parse(data: &[u8], le: Option<bool>) -> (r: Option<PanasonicSweepPanoramaDirection>)
        ensures
            match r {
                Some(e) => data@.len() >= 1 && e.spec_repr() == data@[0],
                None => data@.len() < 1 || forall|e: PanasonicSweepPanoramaDirection| #[trigger] e.spec_repr() != data@[0],
            },
    {
        if data.len() < 1 {
            return None;
        }
        PanasonicSweepPanoramaDirection::from_repr(data[0])
    }
}

/// Panasonic AFSubjectDetection (Tag 0x00E9)
#[derive(Debug, Clone, Copy, PartialEq, Eq, Structural)]
pub enum PanasonicAFSubjectDetection {
    NA,
    HumanEyeFaceBody,
    Animal,
    HumanEyeFace,
    AnimalBody,
    AnimalEyeBody,
    Car,
    Motorcycle,
    CarMainPriority,
    MotorcycleHelmetPriority,
    Train,
}

impl PanasonicAFSubjectDetection {
    /// The number the MakerNote stores for the setting.
    pub open spec fn spec_repr(self) -> u16 {
        match self {
            PanasonicAFSubjectDetection::NA => 0x0,
            PanasonicAFSubjectDetection::HumanEyeFaceBody => 0x1,
            PanasonicAFSubjectDetection::Animal => 0x2,
            PanasonicAFSubjectDetection::HumanEyeFace => 0x3,
            PanasonicAFSubjectDetection::AnimalBody => 0x4,
            PanasonicAFSubjectDetection::AnimalEyeBody => 0x5,
            PanasonicAFSubjectDetection::Car => 0x6,
            PanasonicAFSubjectDetection::Motorcycle => 0x7,
            PanasonicAFSubjectDetection::CarMainPriority => 0x8,
            PanasonicAFSubjectDetection::MotorcycleHelmetPriority => 0x9,
            PanasonicAFSubjectDetection::Train => 0xa,
        }
    }

    /// The text the setting is shown as.
    pub open spec fn spec_label(self) -> &'static str {
        match self {
            PanasonicAFSubjectDetection::NA => "n/a",
            PanasonicAFSubjectDetection::HumanEyeFaceBody => "Human Eye/Face/Body",
            PanasonicAFSubjectDetection::Animal => "Animal",
            PanasonicAFSubjectDetection::HumanEyeFace => "Human Eye/Face",
            PanasonicAFSubjectDetection::AnimalBody => "Animal Body",
            PanasonicAFSubjectDetection::AnimalEyeBody => "Animal Eye/Body",
            PanasonicAFSubjectDetection::Car => "Car",
            PanasonicAFSubjectDetection::Motorcycle => "Motorcycle",
            PanasonicAFSubjectDetection::CarMainPriority => "Car (main part priority)",
            PanasonicAFSubjectDetection::MotorcycleHelmetPriority => "Motorcycle (helmet priority)",
            PanasonicAFSubjectDetection::Train => "Train",
        }
    }

    /// Returns the setting the MakerNote number `v` stands for, if any.
    pub fn from_repr(v: u16) -> (r: Option<PanasonicAFSubjectDetection>)
        ensures
            match r {
                Some(e) => e.spec_repr() == v,
                None => forall|e: PanasonicAFSubjectDetection| #[trigger] e.spec_repr() != v,
            },
    {
        match v {
            0x0 => Some(PanasonicAFSubjectDetection::NA),
            0x1 => Some(PanasonicAFSubjectDetection::HumanEyeFaceBody),
            0x2 => Some(PanasonicAFSubjectDetection::Animal),
            0x3 => Some(PanasonicAFSubjectDetection::HumanEyeFace),
            0x4 => Some(PanasonicAFSubjectDetection::AnimalBody),
            0x5 => Some(PanasonicAFSubjectDetection::AnimalEyeBody),
            0x6 => Some(PanasonicAFSubjectDetection::Car),
            0x7 => Some(PanasonicAFSubjectDetection::Motorcycle),
            0x8 => Some(PanasonicAFSubjectDetection::CarMainPriority),
            0x9 => Some(PanasonicAFSubjectDetection::MotorcycleHelmetPriority),
            0xa => Some(PanasonicAFSubjectDetection::Train),
            _ => None,
        }
    }

    /// Returns the number the MakerNote stores for the setting.
    pub fn repr(&self) -> (r: u16)
        ensures
            r == self.spec_repr(),
    {
        match self {
            PanasonicAFSubjectDetection::NA => 0x0,
            PanasonicAFSubjectDetection::HumanEyeFaceBody => 0x1,
            PanasonicAFSubjectDetection::Animal => 0x2,
            PanasonicAFSubjectDetection::HumanEyeFace => 0x3,
            PanasonicAFSubjectDetection::AnimalBody => 0x4,
            PanasonicAFSubjectDetection::AnimalEyeBody => 0x5,
            PanasonicAFSubjectDetection::Car => 0x6,
            PanasonicAFSubjectDetection::Motorcycle => 0x7,
            PanasonicAFSubjectDetection::CarMainPriority => 0x8,
            PanasonicAFSubjectDetection::MotorcycleHelmetPriority => 0x9,
            PanasonicAFSubjectDetection::Train => 0xa,
        }
    }

    /// Returns the text the setting is shown as.
    pub fn label(&self) -> (r: &'static str)
        ensures
            r == self.spec_label(),
    {
        match self {
            PanasonicAFSubjectDetection::NA => "n/a",
            PanasonicAFSubjectDetection::HumanEyeFaceBody => "Human Eye/Face/Body",
            PanasonicAFSubjectDetection::Animal => "Animal",
            PanasonicAFSubjectDetection::HumanEyeFace => "Human Eye/Face",
            PanasonicAFSubjectDetection::AnimalBody => "Animal Body",
            PanasonicAFSubjectDetection::AnimalEyeBody => "Animal Eye/Body",
            PanasonicAFSubjectDetection::Car => "Car",
            PanasonicAFSubjectDetection::Motorcycle => "Motorcycle",
            PanasonicAFSubjectDetection::CarMainPriority => "Car (main part priority)",
            PanasonicAFSubjectDetection::MotorcycleHelmetPriority => "Motorcycle (helmet priority)",
            PanasonicAFSubjectDetection::Train => "Train",
        }
    }

    /// Reads the setting from the first two bytes of `data`, little endian
    /// unless `le` is `Some(false)`.
    pub fn raw_parse(data: &[u8], le: Option<bool>) -> (r: Option<PanasonicAFSubjectDetection>)
        ensures
            match r {
                Some(e) => data@.len() >= 2 && e.spec_repr() == spec_u16(data@, 0, le != Some(false)),
                None => data@.len() < 2 || forall|e: PanasonicAFSubjectDetection| #[trigger] e.spec_repr() != spec_u16(data@, 0, le != Some(false)),
            },
    {
        if data.len() < 2 {
            return None;
        }
        let little = match le {
            Some(false) => false,
            _ => true,
        };
        PanasonicAFSubjectDetection::from_repr(load_u16(data, 0, little))
    }
}

/// No two `PanasonicImageStabilization` settings are stored as the same number, so the
/// setting read back from a setting's number is that setting.
pub proof fn lemma_image_stabilization_repr_injective(a: PanasonicImageStabilization, b: PanasonicImageStabilization)
    requires
        a.spec_repr() == b.spec_repr(),
    ensures
        a == b,
{
}

/// No two `PanasonicMacroMode` settings are stored as the same number, so the
/// setting read back from a setting's number is that setting.
pub proof fn lemma_macro_mode_repr_injective(a: PanasonicMacroMode, b: PanasonicMacroMode)
    requires
        a.spec_repr() == b.spec_repr(),
    ensures
        a == b,
{
}

/// No two `PanasonicShootingMode` settings are stored as the same number, so the
/// setting read back from a setting's number is that setting.
pub proof fn lemma_shooting_mode_repr_injective(a: PanasonicShootingMode, b: PanasonicShootingMode)
    requires
        a.spec_repr() == b.spec_repr(),
    ensures
        a == b,
{
}

/// No two `PanasonicColorEffect` settings are stored as the same number, so the
/// setting read back from a setting's number is that setting.
pub proof fn lemma_color_effect_repr_injective(a: PanasonicColorEffect, b: PanasonicColorEffect)
    requires
        a.spec_repr() == b.spec_repr(),
    ensures
        a == b,
{
}

/// No two `PanasonicBurstMode` settings are stored as the same number, so the
/// setting read back from a setting's number is that setting.
pub proof fn lemma_burst_mode_repr_injective(a: PanasonicBurstMode, b: PanasonicBurstMode)
    requires
        a.spec_repr() == b.spec_repr(),
    ensures
        a == b,
{
}

/// No two `PanasonicSelfTimer` settings are stored as the same number, so the
/// setting read back from a setting's number is that setting.
pub proof fn lemma_self_timer_repr_injective(a: PanasonicSelfTimer, b: PanasonicSelfTimer)
    requires
        a.spec_repr() == b.spec_repr(),
    ensures
        a == b,
{
}

/// No two `PanasonicBatteryLevel` settings are stored as the same number, so the
/// setting read back from a setting's number is that setting.
pub proof fn lemma_battery_level_repr_injective(a: PanasonicBatteryLevel, b: PanasonicBatteryLevel)
    requires
        a.spec_repr() == b.spec_repr(),
    ensures
        a == b,
{
}

/// No two `PanasonicFilmMode` settings are stored as the same number, so the
/// setting read back from a setting's number is that setting.
pub proof fn lemma_film_mode_repr_injective(a: PanasonicFilmMode, b: PanasonicFilmMode)
    requires
        a.spec_repr() == b.spec_repr(),
    ensures
        a == b,
{
}

/// No two `PanasonicJPEGQuality` settings are stored as the same number, so the
/// setting read back from a setting's number is that setting.
pub proof fn lemma_jpeg_quality_repr_injective(a: PanasonicJPEGQuality, b: PanasonicJPEGQuality)
    requires
        a.spec_repr() == b.spec_repr(),
    ensures
        a == b,
{
}

/// No two `PanasonicIntelligentResolution` settings are stored as the same number, so the
/// setting read back from a setting's number is that setting.
pub proof fn lemma_intelligent_resolution_repr_injective(a: PanasonicIntelligentResolution, b: PanasonicIntelligentResolution)
    requires
        a.spec_repr() == b.spec_repr(),
    ensures
        a == b,
{
}

/// No two `PanasonicIntelligentDRange` settings are stored as the same number, so the
/// setting read back from a setting's number is that setting.
pub proof fn lemma_intelligent_d_range_repr_injective(a: PanasonicIntelligentDRange, b: PanasonicIntelligentDRange)
    requires
        a.spec_repr() == b.spec_repr(),
    ensures
        a == b,
{
}

/// No two `PanasonicPhotoStyle` settings are stored as the same number, so the
/// setting read back from a setting's number is that setting.
pub proof fn lemma_photo_style_repr_injective(a: PanasonicPhotoStyle, b: PanasonicPhotoStyle)
    requires
        a.spec_repr() == b.spec_repr(),
    ensures
        a == b,
{
}

/// No two `PanasonicSweepPanoramaDirection` settings are stored as the same number, so the
/// setting read back from a setting's number is that setting.
pub proof fn lemma_sweep_panorama_direction_repr_injective(a: PanasonicSweepPanoramaDirection, b: PanasonicSweepPanoramaDirection)
    requires
        a.spec_repr() == b.spec_repr(),
    ensures
        a == b,
{
}

/// No two `PanasonicAFSubjectDetection` settings are stored as the same number, so the
/// setting read back from a setting's number is that setting.
pub proof fn lemma_af_subject_detection_repr_injective(a: PanasonicAFSubjectDetection, b: PanasonicAFSubjectDetection)
    requires
        a.spec_repr() == b.spec_repr(),
    ensures
        a == b,
{
}

/// A face as Panasonic records it: its centre and its size.
#[derive(Debug, Clone, Copy, PartialEq, Eq, Structural)]
pub struct FacePosition {
    pub x_center: u16,
    pub y_center: u16,
    pub width: u16,
    pub height: u16,
}

/// Panasonic's face detection record (tag 0x004e): how many faces, and
/// where each is.
#[derive(Debug, Clone, PartialEq)]
pub struct PanasonicFaceDetInfo {
    pub num_faces: u16,
    pub faces: Vec<FacePosition>,
}

/// The face recorded in the 8 bytes at `s[p..]`: four 16-bit numbers.
pub open spec fn face_at(s: Seq<u8>, p: int, le: bool) -> FacePosition {
    FacePosition {
        x_center: spec_u16(s, p, le) as u16,
        y_center: spec_u16(s, p + 2, le) as u16,
        width: spec_u16(s, p + 4, le) as u16,
        height: spec_u16(s, p + 6, le) as u16,
    }
}

/// The face record `s` holds: a count, then 8 bytes for each face; `None`
/// where it is shorter than that.
pub open spec fn panasonic_face_record(s: Seq<u8>, le: bool) -> Option<(u16, Seq<FacePosition>)> {
    let n = spec_u16(s, 0, le);
    if s.len() < 2 || s.len() < 2 + 8 * n {
        None
    } else {
        Some((n as u16, Seq::new(n as nat, |i: int| face_at(s, 2 + 8 * i, le))))
    }
}

/// ` face(s)`
pub const FACES_WORD: [u8; 8] = [0x20, 0x66, 0x61, 0x63, 0x65, 0x28, 0x73, 0x29];

/// A face shown as `(x,y wxh)`.
pub open spec fn face_text(f: FacePosition) -> Seq<u8> {
    seq![0x28u8] + dec_digits(f.x_center as nat) + seq![0x2cu8] + dec_digits(f.y_center as nat)
        + seq![0x20u8] + dec_digits(f.width as nat) + seq![0x78u8] + dec_digits(f.height as nat)
        + seq![0x29u8]
}

/// Faces shown one after another, separated by `, `.
pub open spec fn faces_text(fs: Seq<FacePosition>) -> Seq<u8>
    decreases fs.len(),
{
    if fs.len() == 0 {
        seq![]
    } else if fs.len() == 1 {
        face_text(fs[0])
    } else {
        faces_text(fs.drop_last()) + seq![0x2cu8, 0x20] + face_text(fs.last())
    }
}

/// A face detection record shown as `N face(s)`, followed by the faces in
/// brackets where there are any.
pub open spec fn face_det_text(n: u16, fs: Seq<FacePosition>) -> Seq<u8> {
    dec_digits(n as nat) + FACES_WORD@ + if fs.len() == 0 {
        seq![]
    } else {
        seq![0x20u8, 0x5b] + faces_text(fs) + seq![0x5du8]
    }
}

fn push_face(out: &mut Vec<u8>, f: FacePosition)
    ensures
        final(out)@ == old(out)@ + face_text(f),
{
    out.push(0x28);
    push_dec(out, f.x_center as u64);
    out.push(0x2c);
    push_dec(out, f.y_center as u64);
    out.push(0x20);
    push_dec(out, f.width as u64);
    out.push(0x78);
    push_dec(out, f.height as u64);
    out.push(0x29);
    assert(final(out)@ =~= old(out)@ + face_text(f));
}

impl PanasonicFaceDetInfo {
    /// Reads the record from `data`: a count, then 8 bytes for each face,
    /// little endian unless `le` is `Some(false)`. `None` where the data is
    /// shorter than the count says.
    pub fn raw_parse(data: &[u8], le: Option<bool>) -> (r: Option<PanasonicFaceDetInfo>)
        ensures
            match r {
                Some(info) => panasonic_face_record(data@, le != Some(false)) == Some((info.num_faces, info.faces@)),
                None => panasonic_face_record(data@, le != Some(false)) is None,
            },
    {
        let little = match le {
            Some(false) => false,
            _ => true,
        };
        if data.len() < 2 {
            return None;
        }
        let n = load_u16(data, 0, little);
        let expected: u64 = 2 + 8 * (n as u64);
        if (data.len() as u64) < expected {
            return None;
        }
        let mut faces: Vec<FacePosition> = Vec::new();
        let mut i: u16 = 0;
        while i < n
            invariant
                data@.len() >= 2 + 8 * n,
                n == spec_u16(data@, 0, little),
                i <= n,
                faces@.len() == i,
                forall|k: int| 0 <= k < i ==> #[trigger] faces@[k] == face_at(data@, 2 + 8 * k, little),
            decreases n - i,
        {
            let p: usize = 2 + 8 * (i as usize);
            let f = FacePosition {
                x_center: load_u16(data, p, little),
                y_center: load_u16(data, p + 2, little),
                width: load_u16(data, p + 4, little),
                height: load_u16(data, p + 6, little),
            };
            faces.push(f);
            i = i + 1;
        }
        assert(faces@ =~= Seq::new(n as nat, |k: int| face_at(data@, 2 + 8 * k, little)));
        Some(PanasonicFaceDetInfo { num_faces: n, faces })
    }

    /// Returns the record as text: `N face(s)`, then `[(x,y wxh), ...]`.
    pub fn to_text(&self) -> (r: String)
        ensures
            r@ == ascii_chars(face_det_text(self.num_faces, self.faces@)),
    {
        let mut out: Vec<u8> = Vec::new();
        push_dec(&mut out, self.num_faces as u64);
        push_bytes(&mut out, &FACES_WORD);
        if self.faces.len() > 0 {
            out.push(0x20);
            out.push(0x5b);
            let ghost start = out@;
            let mut i: usize = 0;
            while i < self.faces.len()
                invariant
                    i <= self.faces@.len(),
                    out@ == start + faces_text(self.faces@.subrange(0, i as int)),
                decreases self.faces@.len() - i,
            {
                let ghost before = out@;
                if i > 0 {
                    out.push(0x2c);
                    out.push(0x20);
                }
                push_face(&mut out, self.faces[i]);
                proof {
                    let sub = self.faces@.subrange(0, i + 1);
                    assert(sub.drop_last() =~= self.faces@.subrange(0, i as int));
                    assert(sub.last() == self.faces@[i as int]);
                    if i == 0 {
                        assert(faces_text(self.faces@.subrange(0, 0)) =~= seq![]);
                    }
                }
                i = i + 1;
                assert(out@ =~= start + faces_text(self.faces@.subrange(0, i as int)));
            }
            out.push(0x5d);
            assert(self.faces@.subrange(0, self.faces@.len() as int) =~= self.faces@);
        }
        assert(out@ =~= face_det_text(self.num_faces, self.faces@));
        bytes_to_string(out.as_slice())
    }
}

/// Panasonic (and Leica) MakerNote tags: number, name, description.
pub const PANASONIC_TAGS: [TagRow; 162] = [
    (0x0001, "ImageQuality", "Image Quality"),
    (0x0002, "FirmwareVersion", "Firmware Version"),
    (0x0003, "WhiteBalance", "White Balance"),
    (0x0007, "FocusMode", "Focus Mode"),
    (0x000f, "AFAreaMode", "AF Area Mode"),
    (0x001a, "ImageStabilization", "Image Stabilization"),
    (0x001c, "MacroMode", "Macro Mode"),
    (0x001f, "ShootingMode", "Shooting Mode"),
    (0x0020, "Audio", "Audio"),
    (0x0021, "DataDump", "Data Dump"),
    (0x0023, "WhiteBalanceBias", "White Balance Bias"),
    (0x0024, "FlashBias", "Flash Bias"),
    (0x0025, "InternalSerialNumber", "Internal Serial Number"),
    (0x0026, "PanasonicExifVersion", "Panasonic Exif Version"),
    (0x0027, "VideoFrameRate", "Video Frame Rate"),
    (0x0028, "ColorEffect", "Color Effect"),
    (0x0029, "TimeSincePowerOn", "Time Since Power On"),
    (0x002a, "BurstMode", "Burst Mode"),
    (0x002b, "SequenceNumber", "Sequence Number"),
    (0x002c, "ContrastMode", "Contrast Mode"),
    (0x002d, "NoiseReduction", "Noise Reduction"),
    (0x002e, "SelfTimer", "Self Timer"),
    (0x0030, "Rotation", "Rotation"),
    (0x0031, "AFAssistLamp", "AF Assist Lamp"),
    (0x0032, "ColorMode", "Color Mode"),
    (0x0033, "BabyAge", "Baby Age"),
    (0x0034, "OpticalZoomMode", "Optical Zoom Mode"),
    (0x0035, "ConversionLens", "Conversion Lens"),
    (0x0036, "TravelDay", "Travel Day"),
    (0x0038, "BatteryLevel", "Battery Level"),
    (0x0039, "Contrast", "Contrast"),
    (0x003a, "WorldTimeLocation", "World Time Location"),
    (0x003b, "TextStamp", "Text Stamp"),
    (0x003c, "ProgramISO", "Program ISO"),
    (0x003d, "AdvancedSceneType", "Advanced Scene Type"),
    (0x003e, "TextStamp2", "Text Stamp 2"),
    (0x003f, "FacesDetected", "Faces Detected"),
    (0x0040, "Saturation", "Saturation"),
    (0x0041, "Sharpness", "Sharpness"),
    (0x0042, "FilmMode", "Film Mode"),
    (0x0043, "JPEGQuality", "JPEG Quality"),
    (0x0044, "ColorTempKelvin", "Color Temp Kelvin"),
    (0x0045, "BracketSettings", "Bracket Settings"),
    (0x0046, "WBShiftAB", "WB Shift AB"),
    (0x0047, "WBShiftGM", "WB Shift GM"),
    (0x0048, "FlashCurtain", "Flash Curtain"),
    (0x0049, "LongExposureNoiseReduction", "Long Exposure Noise Reduction"),
    (0x004b, "PanasonicImageWidth", "Panasonic Image Width"),
    (0x004c, "PanasonicImageHeight", "Panasonic Image Height"),
    (0x004d, "AFPointPosition", "AF Point Position"),
    (0x004e, "FaceDetInfo", "Face Det Info"),
    (0x0051, "LensType", "Lens Type"),
    (0x0052, "LensSerialNumber", "Lens Serial Number"),
    (0x0053, "AccessoryType", "Accessory Type"),
    (0x0054, "AccessorySerialNumber", "Accessory Serial Number"),
    (0x0059, "Transform", "Transform"),
    (0x005d, "IntelligentExposure", "Intelligent Exposure"),
    (0x0060, "LensFirmwareVersion", "Lens Firmware Version"),
    (0x0061, "FaceRecInfo", "Face Rec Info"),
    (0x0062, "FlashWarning", "Flash Warning"),
    (0x0063, "RecognizedFaceFlags", "Recognized Face Flags"),
    (0x0065, "Title", "Title"),
    (0x0066, "BabyName", "Baby Name"),
    (0x0067, "Location", "Location"),
    (0x0069, "Country", "Country"),
    (0x006b, "State", "State"),
    (0x006d, "City", "City"),
    (0x006f, "Landmark", "Landmark"),
    (0x0070, "IntelligentResolution", "Intelligent Resolution"),
    (0x0076, "MergedImages", "Merged Images"),
    (0x0077, "BurstSpeed", "Burst Speed"),
    (0x0079, "IntelligentDRange", "Intelligent D-Range"),
    (0x007c, "ClearRetouch", "Clear Retouch"),
    (0x0080, "City2", "City 2"),
    (0x0086, "ManometerPressure", "Manometer Pressure"),
    (0x0089, "PhotoStyle", "Photo Style"),
    (0x008a, "ShadingCompensation", "Shading Compensation"),
    (0x008b, "WBShiftIntelligentAuto", "WB Shift Intelligent Auto"),
    (0x008c, "AccelerometerZ", "Accelerometer Z"),
    (0x008d, "AccelerometerX", "Accelerometer X"),
    (0x008e, "AccelerometerY", "Accelerometer Y"),
    (0x008f, "CameraOrientation", "Camera Orientation"),
    (0x0090, "RollAngle", "Roll Angle"),
    (0x0091, "PitchAngle", "Pitch Angle"),
    (0x0092, "WBShiftCreativeControl", "WB Shift Creative Control"),
    (0x0093, "SweepPanoramaDirection", "Sweep Panorama Direction"),
    (0x0094, "SweepPanoramaFieldOfView", "Sweep Panorama Field Of View"),
    (0x0096, "TimerRecording", "Timer Recording"),
    (0x009d, "InternalNDFilter", "Internal ND Filter"),
    (0x009e, "HDR", "HDR"),
    (0x009f, "ShutterType", "Shutter Type"),
    (0x00a1, "FilterEffect", "Filter Effect"),
    (0x00a3, "ClearRetouchValue", "Clear Retouch Value"),
    (0x00a7, "OutputLUT", "Output LUT"),
    (0x00ab, "TouchAE", "Touch AE"),
    (0x00ac, "MonochromeFilterEffect", "Monochrome Filter Effect"),
    (0x00ad, "HighlightShadow", "Highlight Shadow"),
    (0x00af, "TimeStamp", "Time Stamp"),
    (0x00b3, "VideoBurstResolution", "Video Burst Resolution"),
    (0x00b4, "MultiExposure", "Multi Exposure"),
    (0x00b9, "RedEyeRemoval", "Red Eye Removal"),
    (0x00bb, "VideoBurstMode", "Video Burst Mode"),
    (0x00bc, "DiffractionCorrection", "Diffraction Correction"),
    (0x00bd, "FocusBracket", "Focus Bracket"),
    (0x00be, "LongExposureNRUsed", "Long Exposure NR Used"),
    (0x00bf, "PostFocusMerging", "Post Focus Merging"),
    (0x00c1, "VideoPreburst", "Video Preburst"),
    (0x00c4, "LensTypeMake", "Lens Type Make"),
    (0x00c5, "LensTypeModel", "Lens Type Model"),
    (0x00ca, "SensorType", "Sensor Type"),
    (0x00d1, "ISO", "ISO"),
    (0x00d2, "MonochromeGrainEffect", "Monochrome Grain Effect"),
    (0x00d5, "PhotoStyleName", "Photo Style Name"),
    (0x00d6, "NoiseReductionStrength", "Noise Reduction Strength"),
    (0x00de, "AFAreaSize", "AF Area Size"),
    (0x00e4, "LensTypeModel2", "Lens Type Model 2"),
    (0x00e8, "MinimumISO", "Minimum ISO"),
    (0x00e9, "AFSubjectDetection", "AF Subject Detection"),
    (0x00ee, "DynamicRangeBoost", "Dynamic Range Boost"),
    (0x00f1, "LutPrimaryFile", "Primary LUT File Name"),
    (0x00f3, "LutPrimaryGain", "Primary LUT Gain"),
    (0x00f4, "LutSecondaryFile", "Secondary LUT File Name"),
    (0x00f5, "LutSecondaryGain", "Secondary LUT Gain"),
    (0x0e00, "PrintIM", "Print IM"),
    (0x2003, "TimeInfo", "Time Info"),
    (0x8000, "MakerNoteVersion", "Maker Note Version"),
    (0x8001, "SceneMode", "Scene Mode"),
    (0x8002, "HighlightWarning", "Highlight Warning"),
    (0x8003, "DarkFocusEnvironment", "Dark Focus Environment"),
    (0x8004, "WBRedLevel", "WB Red Level"),
    (0x8005, "WBGreenLevel", "WB Green Level"),
    (0x8006, "WBBlueLevel", "WB Blue Level"),
    (0x8008, "TextStamp3", "Text Stamp 3"),
    (0x8009, "TextStamp4", "Text Stamp 4"),
    (0x8010, "BabyAge2", "Baby Age 2"),
    (0x8012, "Transform2", "Transform 2"),
    (0x0302, "Leica_0x0302", "Leica 0x0302"),
    (0x0304, "Leica_0x0304", "Leica 0x0304"),
    (0x0305, "SerialNumber", "Serial Number"),
    (0x0306, "Leica_0x0306", "Leica 0x0306"),
    (0x0400, "Leica_0x0400", "Leica 0x0400"),
    (0x0401, "Leica_0x0401", "Leica 0x0401"),
    (0x0402, "Leica_0x0402", "Leica 0x0402"),
    (0x0404, "Leica_0x0404", "Leica 0x0404"),
    (0x0405, "Leica_0x0405", "Leica 0x0405"),
    (0x0406, "Leica_0x0406", "Leica 0x0406"),
    (0x0407, "OriginalFileName", "Original File Name"),
    (0x0408, "OriginalDirectory", "Original Directory"),
    (0x0409, "Leica_0x0409", "Leica 0x0409"),
    (0x040a, "FocusInfo", "Focus Info"),
    (0x040b, "Leica_0x040b", "Leica 0x040b"),
    (0x040c, "Leica_0x040c", "Leica 0x040c"),
    (0x040e, "Leica_0x040e", "Leica 0x040e"),
    (0x0410, "ShotInfo", "Shot Info"),
    (0x0411, "Leica_0x0411", "Leica 0x0411"),
    (0x0412, "FilmMode_Leica", "Film Mode"),
    (0x0413, "WB_RGBLevels", "WB RGB Levels"),
    (0x0414, "Leica_0x0414", "Leica 0x0414"),
    (0x0415, "Leica_0x0415", "Leica 0x0415"),
    (0x0416, "Leica_0x0416", "Leica 0x0416"),
    (0x0417, "Leica_0x0417", "Leica 0x0417"),
    (0x0418, "Leica_0x0418", "Leica 0x0418"),
];

/// The text each stored number of a `PanasonicImageStabilization` setting is shown as, and
/// the numbers that name a setting.
pub proof fn lemma_image_stabilization_labels(e: PanasonicImageStabilization)
    ensures
        e.spec_repr() == 2 ==> e.spec_label()@ == "On, Optical"@,
        e.spec_repr() == 3 ==> e.spec_label()@ == "Off"@,
        e.spec_repr() == 4 ==> e.spec_label()@ == "On, Mode 2"@,
        e.spec_repr() == 5 ==> e.spec_label()@ == "On, Optical Panning"@,
        e.spec_repr() == 6 ==> e.spec_label()@ == "On, Body-only"@,
        e.spec_repr() == 7 ==> e.spec_label()@ == "On, Body-only Panning"@,
        e.spec_repr() == 9 ==> e.spec_label()@ == "Dual IS"@,
        e.spec_repr() == 10 ==> e.spec_label()@ == "Dual IS Panning"@,
        e.spec_repr() == 11 ==> e.spec_label()@ == "Dual2 IS"@,
        e.spec_repr() == 12 ==> e.spec_label()@ == "Dual2 IS Panning"@,
        e.spec_repr() == 2 || e.spec_repr() == 3 || e.spec_repr() == 4 || e.spec_repr() == 5 || e.spec_repr() == 6 || e.spec_repr() == 7 || e.spec_repr() == 9 || e.spec_repr() == 10 || e.spec_repr() == 11 || e.spec_repr() == 12,
{
}

/// The text each stored number of a `PanasonicMacroMode` setting is shown as, and
/// the numbers that name a setting.
pub proof fn lemma_macro_mode_labels(e: PanasonicMacroMode)
    ensures
        e.spec_repr() == 1 ==> e.spec_label()@ == "On"@,
        e.spec_repr() == 2 ==> e.spec_label()@ == "Off"@,
        e.spec_repr() == 257 ==> e.spec_label()@ == "Tele-Macro"@,
        e.spec_repr() == 513 ==> e.spec_label()@ == "Macro Zoom"@,
        e.spec_repr() == 1 || e.spec_repr() == 2 || e.spec_repr() == 257 || e.spec_repr() == 513,
{
}

/// The text each stored number of a `PanasonicShootingMode` setting is shown as, and
/// the numbers that name a setting.
pub proof fn lemma_shooting_mode_labels(e: PanasonicShootingMode)
    ensures
        e.spec_repr() == 1 ==> e.spec_label()@ == "Normal"@,
        e.spec_repr() == 2 ==> e.spec_label()@ == "Portrait"@,
        e.spec_repr() == 3 ==> e.spec_label()@ == "Scenery"@,
        e.spec_repr() == 4 ==> e.spec_label()@ == "Sports"@,
        e.spec_repr() == 5 ==> e.spec_label()@ == "Night Portrait"@,
        e.spec_repr() == 6 ==> e.spec_label()@ == "Program"@,
        e.spec_repr() == 7 ==> e.spec_label()@ == "Aperture Priority"@,
        e.spec_repr() == 8 ==> e.spec_label()@ == "Shutter Priority"@,
        e.spec_repr() == 9 ==> e.spec_label()@ == "Macro"@,
        e.spec_repr() == 10 ==> e.spec_label()@ == "Spot"@,
        e.spec_repr() == 11 ==> e.spec_label()@ == "Night Scenery"@,
        e.spec_repr() == 12 ==> e.spec_label()@ == "Food"@,
        e.spec_repr() == 13 ==> e.spec_label()@ == "Baby"@,
        e.spec_repr() == 14 ==> e.spec_label()@ == "Soft Skin"@,
        e.spec_repr() == 15 ==> e.spec_label()@ == "Candlelight"@,
        e.spec_repr() == 16 ==> e.spec_label()@ == "Starry Night"@,
        e.spec_repr() == 17 ==> e.spec_label()@ == "High Sensitivity"@,
        e.spec_repr() == 18 ==> e.spec_label()@ == "Panorama Assist"@,
        e.spec_repr() == 19 ==> e.spec_label()@ == "Underwater"@,
        e.spec_repr() == 20 ==> e.spec_label()@ == "Beach"@,
        e.spec_repr() == 21 ==> e.spec_label()@ == "Aerial Photo"@,
        e.spec_repr() == 22 ==> e.spec_label()@ == "Sunset"@,
        e.spec_repr() == 23 ==> e.spec_label()@ == "Pet"@,
        e.spec_repr() == 24 ==> e.spec_label()@ == "Intelligent ISO"@,
        e.spec_repr() == 25 ==> e.spec_label()@ == "Clipboard"@,
        e.spec_repr() == 26 ==> e.spec_label()@ == "High Speed Continuous Shooting"@,
        e.spec_repr() == 27 ==> e.spec_label()@ == "Intelligent Auto"@,
        e.spec_repr() == 29 ==> e.spec_label()@ == "Multi-aspect"@,
        e.spec_repr() == 32 ==> e.spec_label()@ == "Transform"@,
        e.spec_repr() == 33 ==> e.spec_label()@ == "Flash Burst"@,
        e.spec_repr() == 34 ==> e.spec_label()@ == "Pin Hole"@,
        e.spec_repr() == 35 ==> e.spec_label()@ == "Film Grain"@,
        e.spec_repr() == 36 ==> e.spec_label()@ == "My Color"@,
        e.spec_repr() == 37 ==> e.spec_label()@ == "Photo Frame"@,
        e.spec_repr() == 38 ==> e.spec_label()@ == "Movie"@,
        e.spec_repr() == 39 ==> e.spec_label()@ == "Panorama"@,
        e.spec_repr() == 40 ==> e.spec_label()@ == "Glass Through"@,
        e.spec_repr() == 41 ==> e.spec_label()@ == "HDR"@,
        e.spec_repr() == 42 ==> e.spec_label()@ == "Intelligent Auto Plus"@,
        e.spec_repr() == 43 ==> e.spec_label()@ == "Intelligent Auto Premium"@,
        e.spec_repr() == 45 ==> e.spec_label()@ == "iHandheld Night Shot"@,
        e.spec_repr() == 46 ==> e.spec_label()@ == "Handheld Night Shot"@,
        e.spec_repr() == 51 ==> e.spec_label()@ == "Sweep Panorama"@,
        e.spec_repr() == 55 ==> e.spec_label()@ == "3D Photo"@,
        e.spec_repr() == 59 ==> e.spec_label()@ == "Creative Control"@,
        e.spec_repr() == 62 ==> e.spec_label()@ == "Expressive"@,
        e.spec_repr() == 63 ==> e.spec_label()@ == "Retro"@,
        e.spec_repr() == 64 ==> e.spec_label()@ == "Pure"@,
        e.spec_repr() == 65 ==> e.spec_label()@ == "Elegant"@,
        e.spec_repr() == 67 ==> e.spec_label()@ == "Silky"@,
        e.spec_repr() == 80 ==> e.spec_label()@ == "Miniature Effect"@,
        e.spec_repr() == 81 ==> e.spec_label()@ == "Dynamic Monochrome"@,
        e.spec_repr() == 82 ==> e.spec_label()@ == "Impressive Art"@,
        e.spec_repr() == 83 ==> e.spec_label()@ == "HDR Art"@,
        e.spec_repr() == 84 ==> e.spec_label()@ == "Toy Effect"@,
        e.spec_repr() == 85 ==> e.spec_label()@ == "Toy Pop"@,
        e.spec_repr() == 86 ==> e.spec_label()@ == "Bleach Bypass"@,
        e.spec_repr() == 89 ==> e.spec_label()@ == "Monochrome"@,
        e.spec_repr() == 90 ==> e.spec_label()@ == "Rough Monochrome"@,
        e.spec_repr() == 1 || e.spec_repr() == 2 || e.spec_repr() == 3 || e.spec_repr() == 4 || e.spec_repr() == 5 || e.spec_repr() == 6 || e.spec_repr() == 7 || e.spec_repr() == 8 || e.spec_repr() == 9 || e.spec_repr() == 10 || e.spec_repr() == 11 || e.spec_repr() == 12 || e.spec_repr() == 13 || e.spec_repr() == 14 || e.spec_repr() == 15 || e.spec_repr() == 16 || e.spec_repr() == 17 || e.spec_repr() == 18 || e.spec_repr() == 19 || e.spec_repr() == 20 || e.spec_repr() == 21 || e.spec_repr() == 22 || e.spec_repr() == 23 || e.spec_repr() == 24 || e.spec_repr() == 25 || e.spec_repr() == 26 || e.spec_repr() == 27 || e.spec_repr() == 29 || e.spec_repr() == 32 || e.spec_repr() == 33 || e.spec_repr() == 34 || e.spec_repr() == 35 || e.spec_repr() == 36 || e.spec_repr() == 37 || e.spec_repr() == 38 || e.spec_repr() == 39 || e.spec_repr() == 40 || e.spec_repr() == 41 || e.spec_repr() == 42 || e.spec_repr() == 43 || e.spec_repr() == 45 || e.spec_repr() == 46 || e.spec_repr() == 51 || e.spec_repr() == 55 || e.spec_repr() == 59 || e.spec_repr() == 62 || e.spec_repr() == 63 || e.spec_repr() == 64 || e.spec_repr() == 65 || e.spec_repr() == 67 || e.spec_repr() == 80 || e.spec_repr() == 81 || e.spec_repr() == 82 || e.spec_repr() == 83 || e.spec_repr() == 84 || e.spec_repr() == 85 || e.spec_repr() == 86 || e.spec_repr() == 89 || e.spec_repr() == 90,
{
}

/// The text each stored number of a `PanasonicColorEffect` setting is shown as, and
/// the numbers that name a setting.
pub proof fn lemma_color_effect_labels(e: PanasonicColorEffect)
    ensures
        e.spec_repr() == 1 ==> e.spec_label()@ == "Off"@,
        e.spec_repr() == 2 ==> e.spec_label()@ == "Warm"@,
        e.spec_repr() == 3 ==> e.spec_label()@ == "Cool"@,
        e.spec_repr() == 4 ==> e.spec_label()@ == "Black & White"@,
        e.spec_repr() == 5 ==> e.spec_label()@ == "Sepia"@,
        e.spec_repr() == 6 ==> e.spec_label()@ == "Happy"@,
        e.spec_repr() == 8 ==> e.spec_label()@ == "Vivid"@,
        e.spec_repr() == 1 || e.spec_repr() == 2 || e.spec_repr() == 3 || e.spec_repr() == 4 || e.spec_repr() == 5 || e.spec_repr() == 6 || e.spec_repr() == 8,
{
}

/// The text each stored number of a `PanasonicBurstMode` setting is shown as, and
/// the numbers that name a setting.
pub proof fn lemma_burst_mode_labels(e: PanasonicBurstMode)
    ensures
        e.spec_repr() == 0 ==> e.spec_label()@ == "Off"@,
        e.spec_repr() == 1 ==> e.spec_label()@ == "On"@,
        e.spec_repr() == 2 ==> e.spec_label()@ == "Auto Exposure Bracketing (AEB)"@,
        e.spec_repr() == 3 ==> e.spec_label()@ == "Focus Bracketing"@,
        e.spec_repr() == 4 ==> e.spec_label()@ == "Unlimited"@,
        e.spec_repr() == 8 ==> e.spec_label()@ == "White Balance Bracketing"@,
        e.spec_repr() == 17 ==> e.spec_label()@ == "On (with flash)"@,
        e.spec_repr() == 18 ==> e.spec_label()@ == "Aperture Bracketing"@,
        e.spec_repr() == 0 || e.spec_repr() == 1 || e.spec_repr() == 2 || e.spec_repr() == 3 || e.spec_repr() == 4 || e.spec_repr() == 8 || e.spec_repr() == 17 || e.spec_repr() == 18,
{
}

/// The text each stored number of a `PanasonicSelfTimer` setting is shown as, and
/// the numbers that name a setting.
pub proof fn lemma_self_timer_labels(e: PanasonicSelfTimer)
    ensures
        e.spec_repr() == 0 ==> e.spec_label()@ == "Off"@,
        e.spec_repr() == 1 ==> e.spec_label()@ == "Off"@,
        e.spec_repr() == 2 ==> e.spec_label()@ == "10 s"@,
        e.spec_repr() == 3 ==> e.spec_label()@ == "2 s"@,
        e.spec_repr() == 4 ==> e.spec_label()@ == "10 s / 3 pictures"@,
        e.spec_repr() == 258 ==> e.spec_label()@ == "2 s after shutter pressed"@,
        e.spec_repr() == 266 ==> e.spec_label()@ == "10 s after shutter pressed"@,
        e.spec_repr() == 778 ==> e.spec_label()@ == "3 photos after 10 s"@,
        e.spec_repr() == 0 || e.spec_repr() == 1 || e.spec_repr() == 2 || e.spec_repr() == 3 || e.spec_repr() == 4 || e.spec_repr() == 258 || e.spec_repr() == 266 || e.spec_repr() == 778,
{
}

/// The text each stored number of a `PanasonicBatteryLevel` setting is shown as, and
/// the numbers that name a setting.
pub proof fn lemma_battery_level_labels(e: PanasonicBatteryLevel)
    ensures
        e.spec_repr() == 1 ==> e.spec_label()@ == "Full"@,
        e.spec_repr() == 2 ==> e.spec_label()@ == "Medium"@,
        e.spec_repr() == 3 ==> e.spec_label()@ == "Low"@,
        e.spec_repr() == 4 ==> e.spec_label()@ == "Near Empty"@,
        e.spec_repr() == 7 ==> e.spec_label()@ == "Near Full"@,
        e.spec_repr() == 8 ==> e.spec_label()@ == "Medium Low"@,
        e.spec_repr() == 256 ==> e.spec_label()@ == "n/a"@,
        e.spec_repr() == 1 || e.spec_repr() == 2 || e.spec_repr() == 3 || e.spec_repr() == 4 || e.spec_repr() == 7 || e.spec_repr() == 8 || e.spec_repr() == 256,
{
}

/// The text each stored number of a `PanasonicFilmMode` setting is shown as, and
/// the numbers that name a setting.
pub proof fn lemma_film_mode_labels(e: PanasonicFilmMode)
    ensures
        e.spec_repr() == 0 ==> e.spec_label()@ == "n/a"@,
        e.spec_repr() == 1 ==> e.spec_label()@ == "Standard (color)"@,
        e.spec_repr() == 2 ==> e.spec_label()@ == "Dynamic (color)"@,
        e.spec_repr() == 3 ==> e.spec_label()@ == "Nature (color)"@,
        e.spec_repr() == 4 ==> e.spec_label()@ == "Smooth (color)"@,
        e.spec_repr() == 5 ==> e.spec_label()@ == "Standard (B&W)"@,
        e.spec_repr() == 6 ==> e.spec_label()@ == "Dynamic (B&W)"@,
        e.spec_repr() == 7 ==> e.spec_label()@ == "Smooth (B&W)"@,
        e.spec_repr() == 10 ==> e.spec_label()@ == "Nostalgic"@,
        e.spec_repr() == 11 ==> e.spec_label()@ == "Vibrant"@,
        e.spec_repr() == 0 || e.spec_repr() == 1 || e.spec_repr() == 2 || e.spec_repr() == 3 || e.spec_repr() == 4 || e.spec_repr() == 5 || e.spec_repr() == 6 || e.spec_repr() == 7 || e.spec_repr() == 10 || e.spec_repr() == 11,
{
}

/// The text each stored number of a `PanasonicJPEGQuality` setting is shown as, and
/// the numbers that name a setting.
pub proof fn lemma_jpeg_quality_labels(e: PanasonicJPEGQuality)
    ensures
        e.spec_repr() == 0 ==> e.spec_label()@ == "n/a (Movie)"@,
        e.spec_repr() == 2 ==> e.spec_label()@ == "High"@,
        e.spec_repr() == 3 ==> e.spec_label()@ == "Standard"@,
        e.spec_repr() == 6 ==> e.spec_label()@ == "Very High"@,
        e.spec_repr() == 255 ==> e.spec_label()@ == "n/a (RAW only)"@,
        e.spec_repr() == 0 || e.spec_repr() == 2 || e.spec_repr() == 3 || e.spec_repr() == 6 || e.spec_repr() == 255,
{
}

/// The text each stored number of a `PanasonicIntelligentResolution` setting is shown as, and
/// the numbers that name a setting.
pub proof fn lemma_intelligent_resolution_labels(e: PanasonicIntelligentResolution)
    ensures
        e.spec_repr() == 0 ==> e.spec_label()@ == "Off"@,
        e.spec_repr() == 1 ==> e.spec_label()@ == "Low"@,
        e.spec_repr() == 2 ==> e.spec_label()@ == "Standard"@,
        e.spec_repr() == 3 ==> e.spec_label()@ == "High"@,
        e.spec_repr() == 4 ==> e.spec_label()@ == "Extended"@,
        e.spec_repr() == 0 || e.spec_repr() == 1 || e.spec_repr() == 2 || e.spec_repr() == 3 || e.spec_repr() == 4,
{
}

/// The text each stored number of a `PanasonicIntelligentDRange` setting is shown as, and
/// the numbers that name a setting.
pub proof fn lemma_intelligent_d_range_labels(e: PanasonicIntelligentDRange)
    ensures
        e.spec_repr() == 0 ==> e.spec_label()@ == "Off"@,
        e.spec_repr() == 1 ==> e.spec_label()@ == "Low"@,
        e.spec_repr() == 2 ==> e.spec_label()@ == "Standard"@,
        e.spec_repr() == 3 ==> e.spec_label()@ == "High"@,
        e.spec_repr() == 0 || e.spec_repr() == 1 || e.spec_repr() == 2 || e.spec_repr() == 3,
{
}

/// The text each stored number of a `PanasonicPhotoStyle` setting is shown as, and
/// the numbers that name a setting.
pub proof fn lemma_photo_style_labels(e: PanasonicPhotoStyle)
    ensures
        e.spec_repr() == 0 ==> e.spec_label()@ == "Auto"@,
        e.spec_repr() == 1 ==> e.spec_label()@ == "Standard or Custom"@,
        e.spec_repr() == 2 ==> e.spec_label()@ == "Vivid"@,
        e.spec_repr() == 3 ==> e.spec_label()@ == "Natural"@,
        e.spec_repr() == 4 ==> e.spec_label()@ == "Monochrome"@,
        e.spec_repr() == 5 ==> e.spec_label()@ == "Scenery"@,
        e.spec_repr() == 6 ==> e.spec_label()@ == "Portrait"@,
        e.spec_repr() == 8 ==> e.spec_label()@ == "Cinelike D"@,
        e.spec_repr() == 9 ==> e.spec_label()@ == "Cinelike V"@,
        e.spec_repr() == 11 ==> e.spec_label()@ == "L. Monochrome"@,
        e.spec_repr() == 12 ==> e.spec_label()@ == "Like709"@,
        e.spec_repr() == 15 ==> e.spec_label()@ == "L. Monochrome D"@,
        e.spec_repr() == 17 ==> e.spec_label()@ == "V-Log"@,
        e.spec_repr() == 18 ==> e.spec_label()@ == "Cinelike D2"@,
        e.spec_repr() == 0 || e.spec_repr() == 1 || e.spec_repr() == 2 || e.spec_repr() == 3 || e.spec_repr() == 4 || e.spec_repr() == 5 || e.spec_repr() == 6 || e.spec_repr() == 8 || e.spec_repr() == 9 || e.spec_repr() == 11 || e.spec_repr() == 12 || e.spec_repr() == 15 || e.spec_repr() == 17 || e.spec_repr() == 18,
{
}

/// The text each stored number of a `PanasonicSweepPanoramaDirection` setting is shown as, and
/// the numbers that name a setting.
pub proof fn lemma_sweep_panorama_direction_labels(e: PanasonicSweepPanoramaDirection)
    ensures
        e.spec_repr() == 0 ==> e.spec_label()@ == "Off"@,
        e.spec_repr() == 1 ==> e.spec_label()@ == "Left to Right"@,
        e.spec_repr() == 2 ==> e.spec_label()@ == "Right to Left"@,
        e.spec_repr() == 3 ==> e.spec_label()@ == "Top to Bottom"@,
        e.spec_repr() == 4 ==> e.spec_label()@ == "Bottom to Top"@,
        e.spec_repr() == 0 || e.spec_repr() == 1 || e.spec_repr() == 2 || e.spec_repr() == 3 || e.spec_repr() == 4,
{
}

/// The text each stored number of a `PanasonicAFSubjectDetection` setting is shown as, and
/// the numbers that name a setting.
pub proof fn lemma_af_subject_detection_labels(e: PanasonicAFSubjectDetection)
    ensures
        e.spec_repr() == 0 ==> e.spec_label()@ == "n/a"@,
        e.spec_repr() == 1 ==> e.spec_label()@ == "Human Eye/Face/Body"@,
        e.spec_repr() == 2 ==> e.spec_label()@ == "Animal"@,
        e.spec_repr() == 3 ==> e.spec_label()@ == "Human Eye/Face"@,
        e.spec_repr() == 4 ==> e.spec_label()@ == "Animal Body"@,
        e.spec_repr() == 5 ==> e.spec_label()@ == "Animal Eye/Body"@,
        e.spec_repr() == 6 ==> e.spec_label()@ == "Car"@,
        e.spec_repr() == 7 ==> e.spec_label()@ == "Motorcycle"@,
        e.spec_repr() == 8 ==> e.spec_label()@ == "Car (main part priority)"@,
        e.spec_repr() == 9 ==> e.spec_label()@ == "Motorcycle (helmet priority)"@,
        e.spec_repr() == 10 ==> e.spec_label()@ == "Train"@,
        e.spec_repr() == 0 || e.spec_repr() == 1 || e.spec_repr() == 2 || e.spec_repr() == 3 || e.spec_repr() == 4 || e.spec_repr() == 5 || e.spec_repr() == 6 || e.spec_repr() == 7 || e.spec_repr() == 8 || e.spec_repr() == 9 || e.spec_repr() == 10,
{
}

} // verus!
