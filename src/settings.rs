use vstd::prelude::*;

verus! {

// The engine's nested configuration model: each optional sub-effect is
// present or absent. Fields that hold a single-precision value carry its
// IEEE-754 bit pattern.

/// Which field(s) of an interlaced frame are processed.
#[derive(Clone, Copy, Debug, PartialEq, Eq, Structural)]
pub enum UseField {
    Alternating,
    Upper,
    Lower,
    InterleavedUpper,
    InterleavedLower,
    Both,
}

/// Lowpass filter design.
#[derive(Clone, Copy, Debug, PartialEq, Eq, Structural)]
pub enum FilterType {
    ConstantK,
    Butterworth,
}

/// Luma filter applied to the input.
#[derive(Clone, Copy, Debug, PartialEq, Eq, Structural)]
pub enum LumaLowpass {
    Off,
    Box,
    Notch,
}

/// Strength of a chroma lowpass stage.
#[derive(Clone, Copy, Debug, PartialEq, Eq, Structural)]
pub enum ChromaLowpass {
    Off,
    Light,
    Full,
}

/// Filter used to separate chroma from the composite signal.
#[derive(Clone, Copy, Debug, PartialEq, Eq, Structural)]
pub enum ChromaDemodulationFilter {
    Box,
    Notch,
    OneLineComb,
    TwoLineComb,
}

/// Per-scanline phase shift of the colour subcarrier.
#[derive(Clone, Copy, Debug, PartialEq, Eq, Structural)]
pub enum PhaseShift {
    Degrees0,
    Degrees90,
    Degrees180,
    Degrees270,
}

/// Emulated VHS tape speed.
#[derive(Clone, Copy, Debug, PartialEq, Eq, Structural)]
pub enum VHSTapeSpeed {
    NONE,
    SP,
    LP,
    EP,
}

#[derive(Clone, Copy, Debug, PartialEq, Eq, Structural)]
pub struct HeadSwitchingMidLineSettings {
    pub position: u32,
    pub jitter: u32,
}

#[derive(Clone, Copy, Debug, PartialEq, Eq)]
pub struct HeadSwitchingSettings {
    pub height: u32,
    pub offset: u32,
    pub horiz_shift: u32,
    pub mid_line: Option<HeadSwitchingMidLineSettings>,
}

#[derive(Clone, Copy, Debug, PartialEq, Eq, Structural)]
pub struct TrackingNoiseSettings {
    pub height: u32,
    pub wave_intensity: u32,
    pub snow_intensity: u32,
    pub snow_anisotropy: u32,
    pub noise_intensity: u32,
}

#[derive(Clone, Copy, Debug, PartialEq, Eq, Structural)]
pub struct RingingSettings {
    pub frequency: u32,
    pub power: u32,
    pub intensity: u32,
}

#[derive(Clone, Copy, Debug, PartialEq, Eq, Structural)]
pub struct FbmNoiseSettings {
    pub frequency: u32,
    pub intensity: u32,
    pub detail: u32,
}

#[derive(Clone, Copy, Debug, PartialEq, Eq, Structural)]
pub struct VHSSharpenSettings {
    pub intensity: u32,
    pub frequency: u32,
}

#[derive(Clone, Copy, Debug, PartialEq, Eq, Structural)]
pub struct VHSEdgeWaveSettings {
    pub intensity: u32,
    pub speed: u32,
    pub frequency: u32,
    pub detail: i32,
}

#[derive(Clone, Copy, Debug, PartialEq, Eq)]
pub struct VHSSettings {
    pub tape_speed: VHSTapeSpeed,
    pub chroma_loss: u32,
    pub sharpen: Option<VHSSharpenSettings>,
    pub edge_wave: Option<VHSEdgeWaveSettings>,
}

#[derive(Clone, Copy, Debug, PartialEq, Eq, Structural)]
pub struct ScaleSettings {
    pub horizontal_scale: u32,
    pub vertical_scale: u32,
    pub scale_with_video_size: bool,
}

/// The engine configuration in its nested form.
#[derive(Clone, Copy, Debug, PartialEq, Eq)]
pub struct NtscEffect {
    pub random_seed: i32,
    pub use_field: UseField,
    pub filter_type: FilterType,
    pub input_luma_filter: LumaLowpass,
    pub chroma_lowpass_in: ChromaLowpass,
    pub chroma_demodulation: ChromaDemodulationFilter,
    pub luma_smear: u32,
    pub composite_sharpening: u32,
    pub video_scanline_phase_shift: PhaseShift,
    pub video_scanline_phase_shift_offset: i32,
    pub head_switching: Option<HeadSwitchingSettings>,
    pub tracking_noise: Option<TrackingNoiseSettings>,
    pub composite_noise: Option<FbmNoiseSettings>,
    pub ringing: Option<RingingSettings>,
    pub luma_noise: Option<FbmNoiseSettings>,
    pub chroma_noise: Option<FbmNoiseSettings>,
    pub snow_intensity: u32,
    pub snow_anisotropy: u32,
    pub chroma_phase_noise_intensity: u32,
    pub chroma_phase_error: u32,
    pub chroma_delay_horizontal: u32,
    pub chroma_delay_vertical: i32,
    pub vhs_settings: Option<VHSSettings>,
    pub chroma_vert_blend: bool,
    pub chroma_lowpass_out: ChromaLowpass,
    pub scale: Option<ScaleSettings>,
}

/// The engine's documented default for each sub-effect. When a sub-effect is
/// absent, its flat value fields are filled from here.
#[derive(Clone, Copy, Debug, PartialEq, Eq)]
pub struct SubEffectDefaults {
    pub head_switching: HeadSwitchingSettings,
    pub head_switching_mid_line: HeadSwitchingMidLineSettings,
    pub tracking_noise: TrackingNoiseSettings,
    pub fbm_noise: FbmNoiseSettings,
    pub ringing: RingingSettings,
    pub vhs: VHSSettings,
    pub vhs_sharpen: VHSSharpenSettings,
    pub vhs_edge_wave: VHSEdgeWaveSettings,
    pub scale: ScaleSettings,
}

} // verus!
