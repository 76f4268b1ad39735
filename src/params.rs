use vstd::prelude::*;

verus! {

// The flat, host-facing parameter record. Every optional sub-effect is laid
// out unconditionally and paired with an `enable_*` flag. Fields that hold a
// single-precision value carry its IEEE-754 bit pattern.

/// Which field(s) of an interlaced frame are processed.
#[derive(Clone, Copy, Debug, PartialEq, Eq, Structural)]
pub enum NtscRsUseField {
    UseFieldAlternating,
    UseFieldUpper,
    UseFieldLower,
    UseFieldInterleavedUpper,
    UseFieldInterleavedLower,
    UseFieldBoth,
}

/// Lowpass filter design.
#[derive(Clone, Copy, Debug, PartialEq, Eq, Structural)]
pub enum NtscRsFilterType {
    FilterTypeConstantK,
    FilterTypeButterworth,
}

/// Luma filter applied to the input.
#[derive(Clone, Copy, Debug, PartialEq, Eq, Structural)]
pub enum NtscRsLumaLowpass {
    LumaLowpassNone,
    LumaLowpassBox,
    LumaLowpassNotch,
}

/// Strength of a chroma lowpass stage.
#[derive(Clone, Copy, Debug, PartialEq, Eq, Structural)]
pub enum NtscRsChromaLowpass {
    ChromaLowpassNone,
    ChromaLowpassLight,
    ChromaLowpassFull,
}

/// Filter used to separate chroma from the composite signal.
#[derive(Clone, Copy, Debug, PartialEq, Eq, Structural)]
pub enum NtscRsChromaDemodulationFilter {
    ChromaDemodFilterBox,
    ChromaDemodFilterNotch,
    ChromaDemodFilterOneLineComb,
    ChromaDemodFilterTwoLineComb,
}

/// Per-scanline phase shift of the colour subcarrier.
#[derive(Clone, Copy, Debug, PartialEq, Eq, Structural)]
pub enum NtscRsPhaseShift {
    PhaseShiftDegrees0,
    PhaseShiftDegrees90,
    PhaseShiftDegrees180,
    PhaseShiftDegrees270,
}

/// Emulated VHS tape speed.
#[derive(Clone, Copy, Debug, PartialEq, Eq, Structural)]
pub enum NtscRsTapeSpeed {
    TapeSpeedNONE,
    TapeSpeedSP,
    TapeSpeedLP,
    TapeSpeedEP,
}

/// Head-switching noise; the mid-line jitter part is gated by `enable_mid_line`.
#[derive(Clone, Copy, Debug, PartialEq, Eq, Structural)]
pub struct NtscRsHeadSwitchingSettings {
    pub height: u32,
    pub offset: u32,
    pub horiz_shift: u32,
    pub mid_line_position: u32,
    pub mid_line_jitter: u32,
    pub enable_mid_line: bool,
}

/// Tracking noise at the bottom of the frame.
#[derive(Clone, Copy, Debug, PartialEq, Eq, Structural)]
pub struct NtscRsTrackingNoiseSettings {
    pub height: u32,
    pub wave_intensity: u32,
    pub snow_intensity: u32,
    pub snow_anisotropy: u32,
    pub noise_intensity: u32,
}

/// Ringing around sharp edges.
#[derive(Clone, Copy, Debug, PartialEq, Eq, Structural)]
pub struct NtscRsRingingSettings {
    pub frequency: u32,
    pub power: u32,
    pub intensity: u32,
}

/// Fractal (fBm) noise.
#[derive(Clone, Copy, Debug, PartialEq, Eq, Structural)]
pub struct NtscRsFbmNoiseSettings {
    pub frequency: u32,
    pub intensity: u32,
    pub detail: u32,
}

/// VHS emulation; sharpening and edge wave are gated by their own flags.
#[derive(Clone, Copy, Debug, PartialEq, Eq, Structural)]
pub struct NtscRsVHSSettings {
    pub tape_speed: NtscRsTapeSpeed,
    pub chroma_loss: u32,
    pub sharpen_intensity: u32,
    pub sharpen_frequency: u32,
    pub edge_wave_intensity: u32,
    pub edge_wave_speed: u32,
    pub edge_wave_frequency: u32,
    pub edge_wave_detail: i32,
    pub enable_sharpen: bool,
    pub enable_edge_wave: bool,
}

/// Scaling of the effect relative to the frame size.
#[derive(Clone, Copy, Debug, PartialEq, Eq, Structural)]
pub struct NtscRsScaleSettings {
    pub horizontal_scale: u32,
    pub vertical_scale: u32,
    pub scale_with_video_size: bool,
}

/// Every tunable of the engine in flat form.
#[derive(Clone, Copy, Debug, PartialEq, Eq, Structural)]
pub struct NtscRsEffectParams {
    pub random_seed: i32,
    pub use_field: NtscRsUseField,
    pub filter_type: NtscRsFilterType,
    pub input_luma_filter: NtscRsLumaLowpass,
    pub chroma_lowpass_in: NtscRsChromaLowpass,
    pub chroma_demodulation: NtscRsChromaDemodulationFilter,
    pub luma_smear: u32,
    pub composite_sharpening: u32,
    pub video_scanline_phase_shift: NtscRsPhaseShift,
    pub video_scanline_phase_shift_offset: i32,
    pub head_switching: NtscRsHeadSwitchingSettings,
    pub tracking_noise: NtscRsTrackingNoiseSettings,
    pub composite_noise: NtscRsFbmNoiseSettings,
    pub ringing: NtscRsRingingSettings,
    pub luma_noise: NtscRsFbmNoiseSettings,
    pub chroma_noise: NtscRsFbmNoiseSettings,
    pub snow_intensity: u32,
    pub snow_anisotropy: u32,
    pub chroma_phase_noise_intensity: u32,
    pub chroma_phase_error: u32,
    pub chroma_delay_horizontal: u32,
    pub chroma_delay_vertical: i32,
    pub vhs_settings: NtscRsVHSSettings,
    pub chroma_vert_blend: bool,
    pub chroma_lowpass_out: NtscRsChromaLowpass,
    pub scale: NtscRsScaleSettings,
    pub enable_head_switching: bool,
    pub enable_tracking_noise: bool,
    pub enable_composite_noise: bool,
    pub enable_ringing: bool,
    pub enable_luma_noise: bool,
    pub enable_chroma_noise: bool,
    pub enable_vhs: bool,
}

// Integer tags: a host names each variant by its position in the declaration.

impl NtscRsUseField {
    pub open spec fn spec_tag(self) -> u32 {
        match self {
            NtscRsUseField::UseFieldAlternating => 0,
            NtscRsUseField::UseFieldUpper => 1,
            NtscRsUseField::UseFieldLower => 2,
            NtscRsUseField::UseFieldInterleavedUpper => 3,
            NtscRsUseField::UseFieldInterleavedLower => 4,
            NtscRsUseField::UseFieldBoth => 5,
        }
    }

    /// The stable integer tag of this variant.
    #[verifier::when_used_as_spec(spec_tag)]
    pub fn tag(self) -> (r: u32)
        ensures
            r == self.spec_tag(),
    {
        match self {
            NtscRsUseField::UseFieldAlternating => 0,
            NtscRsUseField::UseFieldUpper => 1,
            NtscRsUseField::UseFieldLower => 2,
            NtscRsUseField::UseFieldInterleavedUpper => 3,
            NtscRsUseField::UseFieldInterleavedLower => 4,
            NtscRsUseField::UseFieldBoth => 5,
        }
    }

    pub open spec fn spec_from_tag(tag: u32) -> Option<NtscRsUseField> {
        match tag {
            0 => Option::Some(NtscRsUseField::UseFieldAlternating),
            1 => Option::Some(NtscRsUseField::UseFieldUpper),
            2 => Option::Some(NtscRsUseField::UseFieldLower),
            3 => Option::Some(NtscRsUseField::UseFieldInterleavedUpper),
            4 => Option::Some(NtscRsUseField::UseFieldInterleavedLower),
            5 => Option::Some(NtscRsUseField::UseFieldBoth),
            _ => Option::None,
        }
    }

    /// The variant with the given tag; `None` for a tag outside the table.
    #[verifier::when_used_as_spec(spec_from_tag)]
    pub fn from_tag(tag: u32) -> (r: Option<NtscRsUseField>)
        ensures
            r == Self::spec_from_tag(tag),
    {
        match tag {
            0 => Option::Some(NtscRsUseField::UseFieldAlternating),
            1 => Option::Some(NtscRsUseField::UseFieldUpper),
            2 => Option::Some(NtscRsUseField::UseFieldLower),
            3 => Option::Some(NtscRsUseField::UseFieldInterleavedUpper),
            4 => Option::Some(NtscRsUseField::UseFieldInterleavedLower),
            5 => Option::Some(NtscRsUseField::UseFieldBoth),
            _ => Option::None,
        }
    }
}

impl NtscRsFilterType {
    pub open spec fn spec_tag(self) -> u32 {
        match self {
            NtscRsFilterType::FilterTypeConstantK => 0,
            NtscRsFilterType::FilterTypeButterworth => 1,
        }
    }

    /// The stable integer tag of this variant.
    #[verifier::when_used_as_spec(spec_tag)]
    pub fn tag(self) -> (r: u32)
        ensures
            r == self.spec_tag(),
    {
        match self {
            NtscRsFilterType::FilterTypeConstantK => 0,
            NtscRsFilterType::FilterTypeButterworth => 1,
        }
    }

    pub open spec fn spec_from_tag(tag: u32) -> Option<NtscRsFilterType> {
        match tag {
            0 => Option::Some(NtscRsFilterType::FilterTypeConstantK),
            1 => Option::Some(NtscRsFilterType::FilterTypeButterworth),
            _ => Option::None,
        }
    }

    /// The variant with the given tag; `None` for a tag outside the table.
    #[verifier::when_used_as_spec(spec_from_tag)]
    pub fn from_tag(tag: u32) -> (r: Option<NtscRsFilterType>)
        ensures
            r == Self::spec_from_tag(tag),
    {
        match tag {
            0 => Option::Some(NtscRsFilterType::FilterTypeConstantK),
            1 => Option::Some(NtscRsFilterType::FilterTypeButterworth),
            _ => Option::None,
        }
    }
}

impl NtscRsLumaLowpass {
    pub open spec fn spec_tag(self) -> u32 {
        match self {
            NtscRsLumaLowpass::LumaLowpassNone => 0,
            NtscRsLumaLowpass::LumaLowpassBox => 1,
            NtscRsLumaLowpass::LumaLowpassNotch => 2,
        }
    }

    /// The stable integer tag of this variant.
    #[verifier::when_used_as_spec(spec_tag)]
    pub fn tag(self) -> (r: u32)
        ensures
            r == self.spec_tag(),
    {
        match self {
            NtscRsLumaLowpass::LumaLowpassNone => 0,
            NtscRsLumaLowpass::LumaLowpassBox => 1,
            NtscRsLumaLowpass::LumaLowpassNotch => 2,
        }
    }

    pub open spec fn spec_from_tag(tag: u32) -> Option<NtscRsLumaLowpass> {
        match tag {
            0 => Option::Some(NtscRsLumaLowpass::LumaLowpassNone),
            1 => Option::Some(NtscRsLumaLowpass::LumaLowpassBox),
            2 => Option::Some(NtscRsLumaLowpass::LumaLowpassNotch),
            _ => Option::None,
        }
    }

    /// The variant with the given tag; `None` for a tag outside the table.
    #[verifier::when_used_as_spec(spec_from_tag)]
    pub fn from_tag(tag: u32) -> (r: Option<NtscRsLumaLowpass>)
        ensures
            r == Self::spec_from_tag(tag),
    {
        match tag {
            0 => Option::Some(NtscRsLumaLowpass::LumaLowpassNone),
            1 => Option::Some(NtscRsLumaLowpass::LumaLowpassBox),
            2 => Option::Some(NtscRsLumaLowpass::LumaLowpassNotch),
            _ => Option::None,
        }
    }
}

impl NtscRsChromaLowpass {
    pub open spec fn spec_tag(self) -> u32 {
        match self {
            NtscRsChromaLowpass::ChromaLowpassNone => 0,
            NtscRsChromaLowpass::ChromaLowpassLight => 1,
            NtscRsChromaLowpass::ChromaLowpassFull => 2,
        }
    }

    /// The stable integer tag of this variant.
    #[verifier::when_used_as_spec(spec_tag)]
    pub fn tag(self) -> (r: u32)
        ensures
            r == self.spec_tag(),
    {
        match self {
            NtscRsChromaLowpass::ChromaLowpassNone => 0,
            NtscRsChromaLowpass::ChromaLowpassLight => 1,
            NtscRsChromaLowpass::ChromaLowpassFull => 2,
        }
    }

    pub open spec fn spec_from_tag(tag: u32) -> Option<NtscRsChromaLowpass> {
        match tag {
            0 => Option::Some(NtscRsChromaLowpass::ChromaLowpassNone),
            1 => Option::Some(NtscRsChromaLowpass::ChromaLowpassLight),
            2 => Option::Some(NtscRsChromaLowpass::ChromaLowpassFull),
            _ => Option::None,
        }
    }

    /// The variant with the given tag; `None` for a tag outside the table.
    #[verifier::when_used_as_spec(spec_from_tag)]
    pub fn from_tag(tag: u32) -> (r: Option<NtscRsChromaLowpass>)
        ensures
            r == Self::spec_from_tag(tag),
    {
        match tag {
            0 => Option::Some(NtscRsChromaLowpass::ChromaLowpassNone),
            1 => Option::Some(NtscRsChromaLowpass::ChromaLowpassLight),
            2 => Option::Some(NtscRsChromaLowpass::ChromaLowpassFull),
            _ => Option::None,
        }
    }
}

impl NtscRsChromaDemodulationFilter {
    pub open spec fn spec_tag(self) -> u32 {
        match self {
            NtscRsChromaDemodulationFilter::ChromaDemodFilterBox => 0,
            NtscRsChromaDemodulationFilter::ChromaDemodFilterNotch => 1,
            NtscRsChromaDemodulationFilter::ChromaDemodFilterOneLineComb => 2,
            NtscRsChromaDemodulationFilter::ChromaDemodFilterTwoLineComb => 3,
        }
    }

    /// The stable integer tag of this variant.
    #[verifier::when_used_as_spec(spec_tag)]
    pub fn tag(self) -> (r: u32)
        ensures
            r == self.spec_tag(),
    {
        match self {
            NtscRsChromaDemodulationFilter::ChromaDemodFilterBox => 0,
            NtscRsChromaDemodulationFilter::ChromaDemodFilterNotch => 1,
            NtscRsChromaDemodulationFilter::ChromaDemodFilterOneLineComb => 2,
            NtscRsChromaDemodulationFilter::ChromaDemodFilterTwoLineComb => 3,
        }
    }

    pub open spec fn spec_from_tag(tag: u32) -> Option<NtscRsChromaDemodulationFilter> {
        match tag {
            0 => Option::Some(NtscRsChromaDemodulationFilter::ChromaDemodFilterBox),
            1 => Option::Some(NtscRsChromaDemodulationFilter::ChromaDemodFilterNotch),
            2 => Option::Some(NtscRsChromaDemodulationFilter::ChromaDemodFilterOneLineComb),
            3 => Option::Some(NtscRsChromaDemodulationFilter::ChromaDemodFilterTwoLineComb),
            _ => Option::None,
        }
    }

    /// The variant with the given tag; `None` for a tag outside the table.
    #[verifier::when_used_as_spec(spec_from_tag)]
    pub fn from_tag(tag: u32) -> (r: Option<NtscRsChromaDemodulationFilter>)
        ensures
            r == Self::spec_from_tag(tag),
    {
        match tag {
            0 => Option::Some(NtscRsChromaDemodulationFilter::ChromaDemodFilterBox),
            1 => Option::Some(NtscRsChromaDemodulationFilter::ChromaDemodFilterNotch),
            2 => Option::Some(NtscRsChromaDemodulationFilter::ChromaDemodFilterOneLineComb),
            3 => Option::Some(NtscRsChromaDemodulationFilter::ChromaDemodFilterTwoLineComb),
            _ => Option::None,
        }
    }
}

impl NtscRsPhaseShift {
    pub open spec fn spec_tag(self) -> u32 {
        match self {
            NtscRsPhaseShift::PhaseShiftDegrees0 => 0,
            NtscRsPhaseShift::PhaseShiftDegrees90 => 1,
            NtscRsPhaseShift::PhaseShiftDegrees180 => 2,
            NtscRsPhaseShift::PhaseShiftDegrees270 => 3,
        }
    }

    /// The stable integer tag of this variant.
    #[verifier::when_used_as_spec(spec_tag)]
    pub fn tag(self) -> (r: u32)
        ensures
            r == self.spec_tag(),
    {
        match self {
            NtscRsPhaseShift::PhaseShiftDegrees0 => 0,
            NtscRsPhaseShift::PhaseShiftDegrees90 => 1,
            NtscRsPhaseShift::PhaseShiftDegrees180 => 2,
            NtscRsPhaseShift::PhaseShiftDegrees270 => 3,
        }
    }

    pub open spec fn spec_from_tag(tag: u32) -> Option<NtscRsPhaseShift> {
        match tag {
            0 => Option::Some(NtscRsPhaseShift::PhaseShiftDegrees0),
            1 => Option::Some(NtscRsPhaseShift::PhaseShiftDegrees90),
            2 => Option::Some(NtscRsPhaseShift::PhaseShiftDegrees180),
            3 => Option::Some(NtscRsPhaseShift::PhaseShiftDegrees270),
            _ => Option::None,
        }
    }

    /// The variant with the given tag; `None` for a tag outside the table.
    #[verifier::when_used_as_spec(spec_from_tag)]
    pub fn from_tag(tag: u32) -> (r: Option<NtscRsPhaseShift>)
        ensures
            r == Self::spec_from_tag(tag),
    {
        match tag {
            0 => Option::Some(NtscRsPhaseShift::PhaseShiftDegrees0),
            1 => Option::Some(NtscRsPhaseShift::PhaseShiftDegrees90),
            2 => Option::Some(NtscRsPhaseShift::PhaseShiftDegrees180),
            3 => Option::Some(NtscRsPhaseShift::PhaseShiftDegrees270),
            _ => Option::None,
        }
    }
}

impl NtscRsTapeSpeed {
    pub open spec fn spec_tag(self) -> u32 {
        match self {
            NtscRsTapeSpeed::TapeSpeedNONE => 0,
            NtscRsTapeSpeed::TapeSpeedSP => 1,
            NtscRsTapeSpeed::TapeSpeedLP => 2,
            NtscRsTapeSpeed::TapeSpeedEP => 3,
        }
    }

    /// The stable integer tag of this variant.
    #[verifier::when_used_as_spec(spec_tag)]
    pub fn tag(self) -> (r: u32)
        ensures
            r == self.spec_tag(),
    {
        match self {
            NtscRsTapeSpeed::TapeSpeedNONE => 0,
            NtscRsTapeSpeed::TapeSpeedSP => 1,
            NtscRsTapeSpeed::TapeSpeedLP => 2,
            NtscRsTapeSpeed::TapeSpeedEP => 3,
        }
    }

    pub open spec fn spec_from_tag(tag: u32) -> Option<NtscRsTapeSpeed> {
        match tag {
            0 => Option::Some(NtscRsTapeSpeed::TapeSpeedNONE),
            1 => Option::Some(NtscRsTapeSpeed::TapeSpeedSP),
            2 => Option::Some(NtscRsTapeSpeed::TapeSpeedLP),
            3 => Option::Some(NtscRsTapeSpeed::TapeSpeedEP),
            _ => Option::None,
        }
    }

    /// The variant with the given tag; `None` for a tag outside the table.
    #[verifier::when_used_as_spec(spec_from_tag)]
    pub fn from_tag(tag: u32) -> (r: Option<NtscRsTapeSpeed>)
        ensures
            r == Self::spec_from_tag(tag),
    {
        match tag {
            0 => Option::Some(NtscRsTapeSpeed::TapeSpeedNONE),
            1 => Option::Some(NtscRsTapeSpeed::TapeSpeedSP),
            2 => Option::Some(NtscRsTapeSpeed::TapeSpeedLP),
            3 => Option::Some(NtscRsTapeSpeed::TapeSpeedEP),
            _ => Option::None,
        }
    }
}

/// Each flat enumeration's tag table is a bijection between its variants and
/// `0..n`, where `n` is its number of variants.
pub proof fn lemma_flat_tags_bijective()
    ensures
        forall|x: NtscRsUseField| #[trigger] NtscRsUseField::spec_from_tag(x.spec_tag()) == Option::Some(x),
        forall|t: u32| #[trigger] NtscRsUseField::spec_from_tag(t) is Some <==> t < 6,
        forall|t: u32| #[trigger] NtscRsUseField::spec_from_tag(t) is Some ==> NtscRsUseField::spec_from_tag(t)->0.spec_tag() == t,
        forall|x: NtscRsFilterType| #[trigger] NtscRsFilterType::spec_from_tag(x.spec_tag()) == Option::Some(x),
        forall|t: u32| #[trigger] NtscRsFilterType::spec_from_tag(t) is Some <==> t < 2,
        forall|t: u32| #[trigger] NtscRsFilterType::spec_from_tag(t) is Some ==> NtscRsFilterType::spec_from_tag(t)->0.spec_tag() == t,
        forall|x: NtscRsLumaLowpass| #[trigger] NtscRsLumaLowpass::spec_from_tag(x.spec_tag()) == Option::Some(x),
        forall|t: u32| #[trigger] NtscRsLumaLowpass::spec_from_tag(t) is Some <==> t < 3,
        forall|t: u32| #[trigger] NtscRsLumaLowpass::spec_from_tag(t) is Some ==> NtscRsLumaLowpass::spec_from_tag(t)->0.spec_tag() == t,
        forall|x: NtscRsChromaLowpass| #[trigger] NtscRsChromaLowpass::spec_from_tag(x.spec_tag()) == Option::Some(x),
        forall|t: u32| #[trigger] NtscRsChromaLowpass::spec_from_tag(t) is Some <==> t < 3,
        forall|t: u32| #[trigger] NtscRsChromaLowpass::spec_from_tag(t) is Some ==> NtscRsChromaLowpass::spec_from_tag(t)->0.spec_tag() == t,
        forall|x: NtscRsChromaDemodulationFilter| #[trigger] NtscRsChromaDemodulationFilter::spec_from_tag(x.spec_tag()) == Option::Some(x),
        forall|t: u32| #[trigger] NtscRsChromaDemodulationFilter::spec_from_tag(t) is Some <==> t < 4,
        forall|t: u32| #[trigger] NtscRsChromaDemodulationFilter::spec_from_tag(t) is Some ==> NtscRsChromaDemodulationFilter::spec_from_tag(t)->0.spec_tag() == t,
        forall|x: NtscRsPhaseShift| #[trigger] NtscRsPhaseShift::spec_from_tag(x.spec_tag()) == Option::Some(x),
        forall|t: u32| #[trigger] NtscRsPhaseShift::spec_from_tag(t) is Some <==> t < 4,
        forall|t: u32| #[trigger] NtscRsPhaseShift::spec_from_tag(t) is Some ==> NtscRsPhaseShift::spec_from_tag(t)->0.spec_tag() == t,
        forall|x: NtscRsTapeSpeed| #[trigger] NtscRsTapeSpeed::spec_from_tag(x.spec_tag()) == Option::Some(x),
        forall|t: u32| #[trigger] NtscRsTapeSpeed::spec_from_tag(t) is Some <==> t < 4,
        forall|t: u32| #[trigger] NtscRsTapeSpeed::spec_from_tag(t) is Some ==> NtscRsTapeSpeed::spec_from_tag(t)->0.spec_tag() == t,
{
}

} // verus!
