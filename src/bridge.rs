use crate::params::{
    NtscRsChromaDemodulationFilter, NtscRsChromaLowpass, NtscRsEffectParams,
    NtscRsFbmNoiseSettings, NtscRsFilterType, NtscRsHeadSwitchingSettings, NtscRsLumaLowpass,
    NtscRsPhaseShift, NtscRsRingingSettings, NtscRsScaleSettings, NtscRsTapeSpeed,
    NtscRsTrackingNoiseSettings, NtscRsUseField, NtscRsVHSSettings,
};
use crate::settings::{
    ChromaDemodulationFilter, ChromaLowpass, FbmNoiseSettings, FilterType,
    HeadSwitchingMidLineSettings, HeadSwitchingSettings, LumaLowpass, NtscEffect, PhaseShift,
    RingingSettings, ScaleSettings, SubEffectDefaults, TrackingNoiseSettings, UseField,
    VHSEdgeWaveSettings, VHSSettings, VHSSharpenSettings, VHSTapeSpeed,
};
use vstd::prelude::*;

verus! {

// Tag tables between the flat discriminants and the engine's variants.

impl NtscRsUseField {
    pub open spec fn spec_to_nested(self) -> UseField {
        match self {
            NtscRsUseField::UseFieldAlternating => UseField::Alternating,
            NtscRsUseField::UseFieldUpper => UseField::Upper,
            NtscRsUseField::UseFieldLower => UseField::Lower,
            NtscRsUseField::UseFieldInterleavedUpper => UseField::InterleavedUpper,
            NtscRsUseField::UseFieldInterleavedLower => UseField::InterleavedLower,
            NtscRsUseField::UseFieldBoth => UseField::Both,
        }
    }

    /// The engine variant that this tag stands for.
    #[verifier::when_used_as_spec(spec_to_nested)]
    pub fn to_nested(self) -> (r: UseField)
        ensures
            r == self.spec_to_nested(),
    {
        match self {
            NtscRsUseField::UseFieldAlternating => UseField::Alternating,
            NtscRsUseField::UseFieldUpper => UseField::Upper,
            NtscRsUseField::UseFieldLower => UseField::Lower,
            NtscRsUseField::UseFieldInterleavedUpper => UseField::InterleavedUpper,
            NtscRsUseField::UseFieldInterleavedLower => UseField::InterleavedLower,
            NtscRsUseField::UseFieldBoth => UseField::Both,
        }
    }
}

impl UseField {
    pub open spec fn spec_to_flat(self) -> NtscRsUseField {
        match self {
            UseField::Alternating => NtscRsUseField::UseFieldAlternating,
            UseField::Upper => NtscRsUseField::UseFieldUpper,
            UseField::Lower => NtscRsUseField::UseFieldLower,
            UseField::InterleavedUpper => NtscRsUseField::UseFieldInterleavedUpper,
            UseField::InterleavedLower => NtscRsUseField::UseFieldInterleavedLower,
            UseField::Both => NtscRsUseField::UseFieldBoth,
        }
    }

    /// The flat tag that stands for this variant.
    #[verifier::when_used_as_spec(spec_to_flat)]
    pub fn to_flat(self) -> (r: NtscRsUseField)
        ensures
            r == self.spec_to_flat(),
    {
        match self {
            UseField::Alternating => NtscRsUseField::UseFieldAlternating,
            UseField::Upper => NtscRsUseField::UseFieldUpper,
            UseField::Lower => NtscRsUseField::UseFieldLower,
            UseField::InterleavedUpper => NtscRsUseField::UseFieldInterleavedUpper,
            UseField::InterleavedLower => NtscRsUseField::UseFieldInterleavedLower,
            UseField::Both => NtscRsUseField::UseFieldBoth,
        }
    }
}

impl NtscRsFilterType {
    pub open spec fn spec_to_nested(self) -> FilterType {
        match self {
            NtscRsFilterType::FilterTypeConstantK => FilterType::ConstantK,
            NtscRsFilterType::FilterTypeButterworth => FilterType::Butterworth,
        }
    }

    /// The engine variant that this tag stands for.
    #[verifier::when_used_as_spec(spec_to_nested)]
    pub fn to_nested(self) -> (r: FilterType)
        ensures
            r == self.spec_to_nested(),
    {
        match self {
            NtscRsFilterType::FilterTypeConstantK => FilterType::ConstantK,
            NtscRsFilterType::FilterTypeButterworth => FilterType::Butterworth,
        }
    }
}

impl FilterType {
    pub open spec fn spec_to_flat(self) -> NtscRsFilterType {
        match self {
            FilterType::ConstantK => NtscRsFilterType::FilterTypeConstantK,
            FilterType::Butterworth => NtscRsFilterType::FilterTypeButterworth,
        }
    }

    /// The flat tag that stands for this variant.
    #[verifier::when_used_as_spec(spec_to_flat)]
    pub fn to_flat(self) -> (r: NtscRsFilterType)
        ensures
            r == self.spec_to_flat(),
    {
        match self {
            FilterType::ConstantK => NtscRsFilterType::FilterTypeConstantK,
            FilterType::Butterworth => NtscRsFilterType::FilterTypeButterworth,
        }
    }
}

impl NtscRsLumaLowpass {
    pub open spec fn spec_to_nested(self) -> LumaLowpass {
        match self {
            NtscRsLumaLowpass::LumaLowpassNone => LumaLowpass::Off,
            NtscRsLumaLowpass::LumaLowpassBox => LumaLowpass::Box,
            NtscRsLumaLowpass::LumaLowpassNotch => LumaLowpass::Notch,
        }
    }

    /// The engine variant that this tag stands for.
    #[verifier::when_used_as_spec(spec_to_nested)]
    pub fn to_nested(self) -> (r: LumaLowpass)
        ensures
            r == self.spec_to_nested(),
    {
        match self {
            NtscRsLumaLowpass::LumaLowpassNone => LumaLowpass::Off,
            NtscRsLumaLowpass::LumaLowpassBox => LumaLowpass::Box,
            NtscRsLumaLowpass::LumaLowpassNotch => LumaLowpass::Notch,
        }
    }
}

impl LumaLowpass {
    pub open spec fn spec_to_flat(self) -> NtscRsLumaLowpass {
        match self {
            LumaLowpass::Off => NtscRsLumaLowpass::LumaLowpassNone,
            LumaLowpass::Box => NtscRsLumaLowpass::LumaLowpassBox,
            LumaLowpass::Notch => NtscRsLumaLowpass::LumaLowpassNotch,
        }
    }

    /// The flat tag that stands for this variant.
    #[verifier::when_used_as_spec(spec_to_flat)]
    pub fn to_flat(self) -> (r: NtscRsLumaLowpass)
        ensures
            r == self.spec_to_flat(),
    {
        match self {
            LumaLowpass::Off => NtscRsLumaLowpass::LumaLowpassNone,
            LumaLowpass::Box => NtscRsLumaLowpass::LumaLowpassBox,
            LumaLowpass::Notch => NtscRsLumaLowpass::LumaLowpassNotch,
        }
    }
}

impl NtscRsChromaLowpass {
    pub open spec fn spec_to_nested(self) -> ChromaLowpass {
        match self {
            NtscRsChromaLowpass::ChromaLowpassNone => ChromaLowpass::Off,
            NtscRsChromaLowpass::ChromaLowpassLight => ChromaLowpass::Light,
            NtscRsChromaLowpass::ChromaLowpassFull => ChromaLowpass::Full,
        }
    }

    /// The engine variant that this tag stands for.
    #[verifier::when_used_as_spec(spec_to_nested)]
    pub fn to_nested(self) -> (r: ChromaLowpass)
        ensures
            r == self.spec_to_nested(),
    {
        match self {
            NtscRsChromaLowpass::ChromaLowpassNone => ChromaLowpass::Off,
            NtscRsChromaLowpass::ChromaLowpassLight => ChromaLowpass::Light,
            NtscRsChromaLowpass::ChromaLowpassFull => ChromaLowpass::Full,
        }
    }
}

impl ChromaLowpass {
    pub open spec fn spec_to_flat(self) -> NtscRsChromaLowpass {
        match self {
            ChromaLowpass::Off => NtscRsChromaLowpass::ChromaLowpassNone,
            ChromaLowpass::Light => NtscRsChromaLowpass::ChromaLowpassLight,
            ChromaLowpass::Full => NtscRsChromaLowpass::ChromaLowpassFull,
        }
    }

    /// The flat tag that stands for this variant.
    #[verifier::when_used_as_spec(spec_to_flat)]
    pub fn to_flat(self) -> (r: NtscRsChromaLowpass)
        ensures
            r == self.spec_to_flat(),
    {
        match self {
            ChromaLowpass::Off => NtscRsChromaLowpass::ChromaLowpassNone,
            ChromaLowpass::Light => NtscRsChromaLowpass::ChromaLowpassLight,
            ChromaLowpass::Full => NtscRsChromaLowpass::ChromaLowpassFull,
        }
    }
}

impl NtscRsChromaDemodulationFilter {
    pub open spec fn spec_to_nested(self) -> ChromaDemodulationFilter {
        match self {
            NtscRsChromaDemodulationFilter::ChromaDemodFilterBox => ChromaDemodulationFilter::Box,
            NtscRsChromaDemodulationFilter::ChromaDemodFilterNotch => ChromaDemodulationFilter::Notch,
            NtscRsChromaDemodulationFilter::ChromaDemodFilterOneLineComb => ChromaDemodulationFilter::OneLineComb,
            NtscRsChromaDemodulationFilter::ChromaDemodFilterTwoLineComb => ChromaDemodulationFilter::TwoLineComb,
        }
    }

    /// The engine variant that this tag stands for.
    #[verifier::when_used_as_spec(spec_to_nested)]
    pub fn to_nested(self) -> (r: ChromaDemodulationFilter)
        ensures
            r == self.spec_to_nested(),
    {
        match self {
            NtscRsChromaDemodulationFilter::ChromaDemodFilterBox => ChromaDemodulationFilter::Box,
            NtscRsChromaDemodulationFilter::ChromaDemodFilterNotch => ChromaDemodulationFilter::Notch,
            NtscRsChromaDemodulationFilter::ChromaDemodFilterOneLineComb => ChromaDemodulationFilter::OneLineComb,
            NtscRsChromaDemodulationFilter::ChromaDemodFilterTwoLineComb => ChromaDemodulationFilter::TwoLineComb,
        }
    }
}

impl ChromaDemodulationFilter {
    pub open spec fn spec_to_flat(self) -> NtscRsChromaDemodulationFilter {
        match self {
            ChromaDemodulationFilter::Box => NtscRsChromaDemodulationFilter::ChromaDemodFilterBox,
            ChromaDemodulationFilter::Notch => NtscRsChromaDemodulationFilter::ChromaDemodFilterNotch,
            ChromaDemodulationFilter::OneLineComb => NtscRsChromaDemodulationFilter::ChromaDemodFilterOneLineComb,
            ChromaDemodulationFilter::TwoLineComb => NtscRsChromaDemodulationFilter::ChromaDemodFilterTwoLineComb,
        }
    }

    /// The flat tag that stands for this variant.
    #[verifier::when_used_as_spec(spec_to_flat)]
    pub fn to_flat(self) -> (r: NtscRsChromaDemodulationFilter)
        ensures
            r == self.spec_to_flat(),
    {
        match self {
            ChromaDemodulationFilter::Box => NtscRsChromaDemodulationFilter::ChromaDemodFilterBox,
            ChromaDemodulationFilter::Notch => NtscRsChromaDemodulationFilter::ChromaDemodFilterNotch,
            ChromaDemodulationFilter::OneLineComb => NtscRsChromaDemodulationFilter::ChromaDemodFilterOneLineComb,
            ChromaDemodulationFilter::TwoLineComb => NtscRsChromaDemodulationFilter::ChromaDemodFilterTwoLineComb,
        }
    }
}

impl NtscRsPhaseShift {
    pub open spec fn spec_to_nested(self) -> PhaseShift {
        match self {
            NtscRsPhaseShift::PhaseShiftDegrees0 => PhaseShift::Degrees0,
            NtscRsPhaseShift::PhaseShiftDegrees90 => PhaseShift::Degrees90,
            NtscRsPhaseShift::PhaseShiftDegrees180 => PhaseShift::Degrees180,
            NtscRsPhaseShift::PhaseShiftDegrees270 => PhaseShift::Degrees270,
        }
    }

    /// The engine variant that this tag stands for.
    #[verifier::when_used_as_spec(spec_to_nested)]
    pub fn to_nested(self) -> (r: PhaseShift)
        ensures
            r == self.spec_to_nested(),
    {
        match self {
            NtscRsPhaseShift::PhaseShiftDegrees0 => PhaseShift::Degrees0,
            NtscRsPhaseShift::PhaseShiftDegrees90 => PhaseShift::Degrees90,
            NtscRsPhaseShift::PhaseShiftDegrees180 => PhaseShift::Degrees180,
            NtscRsPhaseShift::PhaseShiftDegrees270 => PhaseShift::Degrees270,
        }
    }
}

impl PhaseShift {
    pub open spec fn spec_to_flat(self) -> NtscRsPhaseShift {
        match self {
            PhaseShift::Degrees0 => NtscRsPhaseShift::PhaseShiftDegrees0,
            PhaseShift::Degrees90 => NtscRsPhaseShift::PhaseShiftDegrees90,
            PhaseShift::Degrees180 => NtscRsPhaseShift::PhaseShiftDegrees180,
            PhaseShift::Degrees270 => NtscRsPhaseShift::PhaseShiftDegrees270,
        }
    }

    /// The flat tag that stands for this variant.
    #[verifier::when_used_as_spec(spec_to_flat)]
    pub fn to_flat(self) -> (r: NtscRsPhaseShift)
        ensures
            r == self.spec_to_flat(),
    {
        match self {
            PhaseShift::Degrees0 => NtscRsPhaseShift::PhaseShiftDegrees0,
            PhaseShift::Degrees90 => NtscRsPhaseShift::PhaseShiftDegrees90,
            PhaseShift::Degrees180 => NtscRsPhaseShift::PhaseShiftDegrees180,
            PhaseShift::Degrees270 => NtscRsPhaseShift::PhaseShiftDegrees270,
        }
    }
}

impl NtscRsTapeSpeed {
    pub open spec fn spec_to_nested(self) -> VHSTapeSpeed {
        match self {
            NtscRsTapeSpeed::TapeSpeedNONE => VHSTapeSpeed::NONE,
            NtscRsTapeSpeed::TapeSpeedSP => VHSTapeSpeed::SP,
            NtscRsTapeSpeed::TapeSpeedLP => VHSTapeSpeed::LP,
            NtscRsTapeSpeed::TapeSpeedEP => VHSTapeSpeed::EP,
        }
    }

    /// The engine variant that this tag stands for.
    #[verifier::when_used_as_spec(spec_to_nested)]
    pub fn to_nested(self) -> (r: VHSTapeSpeed)
        ensures
            r == self.spec_to_nested(),
    {
        match self {
            NtscRsTapeSpeed::TapeSpeedNONE => VHSTapeSpeed::NONE,
            NtscRsTapeSpeed::TapeSpeedSP => VHSTapeSpeed::SP,
            NtscRsTapeSpeed::TapeSpeedLP => VHSTapeSpeed::LP,
            NtscRsTapeSpeed::TapeSpeedEP => VHSTapeSpeed::EP,
        }
    }
}

impl VHSTapeSpeed {
    pub open spec fn spec_to_flat(self) -> NtscRsTapeSpeed {
        match self {
            VHSTapeSpeed::NONE => NtscRsTapeSpeed::TapeSpeedNONE,
            VHSTapeSpeed::SP => NtscRsTapeSpeed::TapeSpeedSP,
            VHSTapeSpeed::LP => NtscRsTapeSpeed::TapeSpeedLP,
            VHSTapeSpeed::EP => NtscRsTapeSpeed::TapeSpeedEP,
        }
    }

    /// The flat tag that stands for this variant.
    #[verifier::when_used_as_spec(spec_to_flat)]
    pub fn to_flat(self) -> (r: NtscRsTapeSpeed)
        ensures
            r == self.spec_to_flat(),
    {
        match self {
            VHSTapeSpeed::NONE => NtscRsTapeSpeed::TapeSpeedNONE,
            VHSTapeSpeed::SP => NtscRsTapeSpeed::TapeSpeedSP,
            VHSTapeSpeed::LP => NtscRsTapeSpeed::TapeSpeedLP,
            VHSTapeSpeed::EP => NtscRsTapeSpeed::TapeSpeedEP,
        }
    }
}

/// Each flat tag table and its engine-side counterpart are mutual inverses
/// over their whole domain.
pub proof fn lemma_enum_tables_inverse()
    ensures
        forall|x: NtscRsUseField| #[trigger] x.spec_to_nested().spec_to_flat() == x,
        forall|x: UseField| #[trigger] x.spec_to_flat().spec_to_nested() == x,
        forall|x: NtscRsFilterType| #[trigger] x.spec_to_nested().spec_to_flat() == x,
        forall|x: FilterType| #[trigger] x.spec_to_flat().spec_to_nested() == x,
        forall|x: NtscRsLumaLowpass| #[trigger] x.spec_to_nested().spec_to_flat() == x,
        forall|x: LumaLowpass| #[trigger] x.spec_to_flat().spec_to_nested() == x,
        forall|x: NtscRsChromaLowpass| #[trigger] x.spec_to_nested().spec_to_flat() == x,
        forall|x: ChromaLowpass| #[trigger] x.spec_to_flat().spec_to_nested() == x,
        forall|x: NtscRsChromaDemodulationFilter| #[trigger] x.spec_to_nested().spec_to_flat() == x,
        forall|x: ChromaDemodulationFilter| #[trigger] x.spec_to_flat().spec_to_nested() == x,
        forall|x: NtscRsPhaseShift| #[trigger] x.spec_to_nested().spec_to_flat() == x,
        forall|x: PhaseShift| #[trigger] x.spec_to_flat().spec_to_nested() == x,
        forall|x: NtscRsTapeSpeed| #[trigger] x.spec_to_nested().spec_to_flat() == x,
        forall|x: VHSTapeSpeed| #[trigger] x.spec_to_flat().spec_to_nested() == x,
{
}

// Sub-record conversions. Gating on the top-level `enable_*` flags happens in
// `ntscrs_effect_from_params`; the nested optionals inside head switching and
// VHS are gated here by the sub-record's own flags.

/// The value inside `o`, or `fallback` when it is absent.
pub open spec fn value_or<T>(o: Option<T>, fallback: T) -> T {
    match o {
        Option::Some(v) => v,
        Option::None => fallback,
    }
}

pub open spec fn spec_head_switching_from_flat(h: NtscRsHeadSwitchingSettings) -> HeadSwitchingSettings {
    HeadSwitchingSettings {
        height: h.height,
        offset: h.offset,
        horiz_shift: h.horiz_shift,
        mid_line: if h.enable_mid_line {
            Option::Some(HeadSwitchingMidLineSettings { position: h.mid_line_position, jitter: h.mid_line_jitter })
        } else {
            Option::None
        },
    }
}

#[verifier::when_used_as_spec(spec_head_switching_from_flat)]
pub fn head_switching_from_flat(h: NtscRsHeadSwitchingSettings) -> (r: HeadSwitchingSettings)
    ensures
        r == spec_head_switching_from_flat(h),
{
    HeadSwitchingSettings {
        height: h.height,
        offset: h.offset,
        horiz_shift: h.horiz_shift,
        mid_line: if h.enable_mid_line {
            Option::Some(HeadSwitchingMidLineSettings { position: h.mid_line_position, jitter: h.mid_line_jitter })
        } else {
            Option::None
        },
    }
}

pub open spec fn spec_head_switching_to_flat(
    h: HeadSwitchingSettings,
    mid_line_default: HeadSwitchingMidLineSettings,
) -> NtscRsHeadSwitchingSettings {
    let m = value_or(h.mid_line, mid_line_default);
    NtscRsHeadSwitchingSettings {
        height: h.height,
        offset: h.offset,
        horiz_shift: h.horiz_shift,
        mid_line_position: m.position,
        mid_line_jitter: m.jitter,
        enable_mid_line: h.mid_line is Some,
    }
}

#[verifier::when_used_as_spec(spec_head_switching_to_flat)]
pub fn head_switching_to_flat(
    h: HeadSwitchingSettings,
    mid_line_default: HeadSwitchingMidLineSettings,
) -> (r: NtscRsHeadSwitchingSettings)
    ensures
        r == spec_head_switching_to_flat(h, mid_line_default),
{
    let m = match h.mid_line {
        Option::Some(m) => m,
        Option::None => mid_line_default,
    };
    NtscRsHeadSwitchingSettings {
        height: h.height,
        offset: h.offset,
        horiz_shift: h.horiz_shift,
        mid_line_position: m.position,
        mid_line_jitter: m.jitter,
        enable_mid_line: h.mid_line.is_some(),
    }
}

pub open spec fn spec_tracking_noise_from_flat(t: NtscRsTrackingNoiseSettings) -> TrackingNoiseSettings {
    TrackingNoiseSettings {
        height: t.height,
        wave_intensity: t.wave_intensity,
        snow_intensity: t.snow_intensity,
        snow_anisotropy: t.snow_anisotropy,
        noise_intensity: t.noise_intensity,
    }
}

#[verifier::when_used_as_spec(spec_tracking_noise_from_flat)]
pub fn tracking_noise_from_flat(t: NtscRsTrackingNoiseSettings) -> (r: TrackingNoiseSettings)
    ensures
        r == spec_tracking_noise_from_flat(t),
{
    TrackingNoiseSettings {
        height: t.height,
        wave_intensity: t.wave_intensity,
        snow_intensity: t.snow_intensity,
        snow_anisotropy: t.snow_anisotropy,
        noise_intensity: t.noise_intensity,
    }
}

pub open spec fn spec_tracking_noise_to_flat(t: TrackingNoiseSettings) -> NtscRsTrackingNoiseSettings {
    NtscRsTrackingNoiseSettings {
        height: t.height,
        wave_intensity: t.wave_intensity,
        snow_intensity: t.snow_intensity,
        snow_anisotropy: t.snow_anisotropy,
        noise_intensity: t.noise_intensity,
    }
}

#[verifier::when_used_as_spec(spec_tracking_noise_to_flat)]
pub fn tracking_noise_to_flat(t: TrackingNoiseSettings) -> (r: NtscRsTrackingNoiseSettings)
    ensures
        r == spec_tracking_noise_to_flat(t),
{
    NtscRsTrackingNoiseSettings {
        height: t.height,
        wave_intensity: t.wave_intensity,
        snow_intensity: t.snow_intensity,
        snow_anisotropy: t.snow_anisotropy,
        noise_intensity: t.noise_intensity,
    }
}

pub open spec fn spec_ringing_from_flat(g: NtscRsRingingSettings) -> RingingSettings {
    RingingSettings { frequency: g.frequency, power: g.power, intensity: g.intensity }
}

#[verifier::when_used_as_spec(spec_ringing_from_flat)]
pub fn ringing_from_flat(g: NtscRsRingingSettings) -> (r: RingingSettings)
    ensures
        r == spec_ringing_from_flat(g),
{
    RingingSettings { frequency: g.frequency, power: g.power, intensity: g.intensity }
}

pub open spec fn spec_ringing_to_flat(g: RingingSettings) -> NtscRsRingingSettings {
    NtscRsRingingSettings { frequency: g.frequency, power: g.power, intensity: g.intensity }
}

#[verifier::when_used_as_spec(spec_ringing_to_flat)]
pub fn ringing_to_flat(g: RingingSettings) -> (r: NtscRsRingingSettings)
    ensures
        r == spec_ringing_to_flat(g),
{
    NtscRsRingingSettings { frequency: g.frequency, power: g.power, intensity: g.intensity }
}

pub open spec fn spec_fbm_noise_from_flat(n: NtscRsFbmNoiseSettings) -> FbmNoiseSettings {
    FbmNoiseSettings { frequency: n.frequency, intensity: n.intensity, detail: n.detail }
}

#[verifier::when_used_as_spec(spec_fbm_noise_from_flat)]
pub fn fbm_noise_from_flat(n: NtscRsFbmNoiseSettings) -> (r: FbmNoiseSettings)
    ensures
        r == spec_fbm_noise_from_flat(n),
{
    FbmNoiseSettings { frequency: n.frequency, intensity: n.intensity, detail: n.detail }
}

pub open spec fn spec_fbm_noise_to_flat(n: FbmNoiseSettings) -> NtscRsFbmNoiseSettings {
    NtscRsFbmNoiseSettings { frequency: n.frequency, intensity: n.intensity, detail: n.detail }
}

#[verifier::when_used_as_spec(spec_fbm_noise_to_flat)]
pub fn fbm_noise_to_flat(n: FbmNoiseSettings) -> (r: NtscRsFbmNoiseSettings)
    ensures
        r == spec_fbm_noise_to_flat(n),
{
    NtscRsFbmNoiseSettings { frequency: n.frequency, intensity: n.intensity, detail: n.detail }
}

pub open spec fn spec_vhs_from_flat(v: NtscRsVHSSettings) -> VHSSettings {
    VHSSettings {
        tape_speed: v.tape_speed.spec_to_nested(),
        chroma_loss: v.chroma_loss,
        sharpen: if v.enable_sharpen {
            Option::Some(VHSSharpenSettings { intensity: v.sharpen_intensity, frequency: v.sharpen_frequency })
        } else {
            Option::None
        },
        edge_wave: if v.enable_edge_wave {
            Option::Some(
                VHSEdgeWaveSettings {
                    intensity: v.edge_wave_intensity,
                    speed: v.edge_wave_speed,
                    frequency: v.edge_wave_frequency,
                    detail: v.edge_wave_detail,
                },
            )
        } else {
            Option::None
        },
    }
}

#[verifier::when_used_as_spec(spec_vhs_from_flat)]
pub fn vhs_from_flat(v: NtscRsVHSSettings) -> (r: VHSSettings)
    ensures
        r == spec_vhs_from_flat(v),
{
    VHSSettings {
        tape_speed: v.tape_speed.to_nested(),
        chroma_loss: v.chroma_loss,
        sharpen: if v.enable_sharpen {
            Option::Some(VHSSharpenSettings { intensity: v.sharpen_intensity, frequency: v.sharpen_frequency })
        } else {
            Option::None
        },
        edge_wave: if v.enable_edge_wave {
            Option::Some(
                VHSEdgeWaveSettings {
                    intensity: v.edge_wave_intensity,
                    speed: v.edge_wave_speed,
                    frequency: v.edge_wave_frequency,
                    detail: v.edge_wave_detail,
                },
            )
        } else {
            Option::None
        },
    }
}

pub open spec fn spec_vhs_to_flat(
    v: VHSSettings,
    sharpen_default: VHSSharpenSettings,
    edge_wave_default: VHSEdgeWaveSettings,
) -> NtscRsVHSSettings {
    let s = value_or(v.sharpen, sharpen_default);
    let e = value_or(v.edge_wave, edge_wave_default);
    NtscRsVHSSettings {
        tape_speed: v.tape_speed.spec_to_flat(),
        chroma_loss: v.chroma_loss,
        sharpen_intensity: s.intensity,
        sharpen_frequency: s.frequency,
        edge_wave_intensity: e.intensity,
        edge_wave_speed: e.speed,
        edge_wave_frequency: e.frequency,
        edge_wave_detail: e.detail,
        enable_sharpen: v.sharpen is Some,
        enable_edge_wave: v.edge_wave is Some,
    }
}

#[verifier::when_used_as_spec(spec_vhs_to_flat)]
pub fn vhs_to_flat(
    v: VHSSettings,
    sharpen_default: VHSSharpenSettings,
    edge_wave_default: VHSEdgeWaveSettings,
) -> (r: NtscRsVHSSettings)
    ensures
        r == spec_vhs_to_flat(v, sharpen_default, edge_wave_default),
{
    let s = match v.sharpen {
        Option::Some(s) => s,
        Option::None => sharpen_default,
    };
    let e = match v.edge_wave {
        Option::Some(e) => e,
        Option::None => edge_wave_default,
    };
    NtscRsVHSSettings {
        tape_speed: v.tape_speed.to_flat(),
        chroma_loss: v.chroma_loss,
        sharpen_intensity: s.intensity,
        sharpen_frequency: s.frequency,
        edge_wave_intensity: e.intensity,
        edge_wave_speed: e.speed,
        edge_wave_frequency: e.frequency,
        edge_wave_detail: e.detail,
        enable_sharpen: v.sharpen.is_some(),
        enable_edge_wave: v.edge_wave.is_some(),
    }
}

pub open spec fn spec_scale_from_flat(s: NtscRsScaleSettings) -> ScaleSettings {
    ScaleSettings {
        horizontal_scale: s.horizontal_scale,
        vertical_scale: s.vertical_scale,
        scale_with_video_size: s.scale_with_video_size,
    }
}

#[verifier::when_used_as_spec(spec_scale_from_flat)]
pub fn scale_from_flat(s: NtscRsScaleSettings) -> (r: ScaleSettings)
    ensures
        r == spec_scale_from_flat(s),
{
    ScaleSettings {
        horizontal_scale: s.horizontal_scale,
        vertical_scale: s.vertical_scale,
        scale_with_video_size: s.scale_with_video_size,
    }
}

pub open spec fn spec_scale_to_flat(s: ScaleSettings) -> NtscRsScaleSettings {
    NtscRsScaleSettings {
        horizontal_scale: s.horizontal_scale,
        vertical_scale: s.vertical_scale,
        scale_with_video_size: s.scale_with_video_size,
    }
}

#[verifier::when_used_as_spec(spec_scale_to_flat)]
pub fn scale_to_flat(s: ScaleSettings) -> (r: NtscRsScaleSettings)
    ensures
        r == spec_scale_to_flat(s),
{
    NtscRsScaleSettings {
        horizontal_scale: s.horizontal_scale,
        vertical_scale: s.vertical_scale,
        scale_with_video_size: s.scale_with_video_size,
    }
}

// The whole record.

/// The nested configuration that a flat record describes. A sub-effect is
/// present exactly when its flag is set; scale is always present.
pub open spec fn spec_effect_from_params(p: NtscRsEffectParams) -> NtscEffect {
    NtscEffect {
        random_seed: p.random_seed,
        use_field: p.use_field.spec_to_nested(),
        filter_type: p.filter_type.spec_to_nested(),
        input_luma_filter: p.input_luma_filter.spec_to_nested(),
        chroma_lowpass_in: p.chroma_lowpass_in.spec_to_nested(),
        chroma_demodulation: p.chroma_demodulation.spec_to_nested(),
        luma_smear: p.luma_smear,
        composite_sharpening: p.composite_sharpening,
        video_scanline_phase_shift: p.video_scanline_phase_shift.spec_to_nested(),
        video_scanline_phase_shift_offset: p.video_scanline_phase_shift_offset,
        head_switching: if p.enable_head_switching {
            Option::Some(spec_head_switching_from_flat(p.head_switching))
        } else {
            Option::None
        },
        tracking_noise: if p.enable_tracking_noise {
            Option::Some(spec_tracking_noise_from_flat(p.tracking_noise))
        } else {
            Option::None
        },
        composite_noise: if p.enable_composite_noise {
            Option::Some(spec_fbm_noise_from_flat(p.composite_noise))
        } else {
            Option::None
        },
        ringing: if p.enable_ringing {
            Option::Some(spec_ringing_from_flat(p.ringing))
        } else {
            Option::None
        },
        luma_noise: if p.enable_luma_noise {
            Option::Some(spec_fbm_noise_from_flat(p.luma_noise))
        } else {
            Option::None
        },
        chroma_noise: if p.enable_chroma_noise {
            Option::Some(spec_fbm_noise_from_flat(p.chroma_noise))
        } else {
            Option::None
        },
        snow_intensity: p.snow_intensity,
        snow_anisotropy: p.snow_anisotropy,
        chroma_phase_noise_intensity: p.chroma_phase_noise_intensity,
        chroma_phase_error: p.chroma_phase_error,
        chroma_delay_horizontal: p.chroma_delay_horizontal,
        chroma_delay_vertical: p.chroma_delay_vertical,
        vhs_settings: if p.enable_vhs {
            Option::Some(spec_vhs_from_flat(p.vhs_settings))
        } else {
            Option::None
        },
        chroma_vert_blend: p.chroma_vert_blend,
        chroma_lowpass_out: p.chroma_lowpass_out.spec_to_nested(),
        scale: Option::Some(spec_scale_from_flat(p.scale)),
    }
}

/// Builds the nested configuration from a flat record.
pub fn ntscrs_effect_from_params(params: NtscRsEffectParams) -> (r: NtscEffect)
    ensures
        r == spec_effect_from_params(params),
{
    NtscEffect {
        random_seed: params.random_seed,
        use_field: params.use_field.to_nested(),
        filter_type: params.filter_type.to_nested(),
        input_luma_filter: params.input_luma_filter.to_nested(),
        chroma_lowpass_in: params.chroma_lowpass_in.to_nested(),
        chroma_demodulation: params.chroma_demodulation.to_nested(),
        luma_smear: params.luma_smear,
        composite_sharpening: params.composite_sharpening,
        video_scanline_phase_shift: params.video_scanline_phase_shift.to_nested(),
        video_scanline_phase_shift_offset: params.video_scanline_phase_shift_offset,
        head_switching: if params.enable_head_switching {
            Option::Some(head_switching_from_flat(params.head_switching))
        } else {
            Option::None
        },
        tracking_noise: if params.enable_tracking_noise {
            Option::Some(tracking_noise_from_flat(params.tracking_noise))
        } else {
            Option::None
        },
        composite_noise: if params.enable_composite_noise {
            Option::Some(fbm_noise_from_flat(params.composite_noise))
        } else {
            Option::None
        },
        ringing: if params.enable_ringing {
            Option::Some(ringing_from_flat(params.ringing))
        } else {
            Option::None
        },
        luma_noise: if params.enable_luma_noise {
            Option::Some(fbm_noise_from_flat(params.luma_noise))
        } else {
            Option::None
        },
        chroma_noise: if params.enable_chroma_noise {
            Option::Some(fbm_noise_from_flat(params.chroma_noise))
        } else {
            Option::None
        },
        snow_intensity: params.snow_intensity,
        snow_anisotropy: params.snow_anisotropy,
        chroma_phase_noise_intensity: params.chroma_phase_noise_intensity,
        chroma_phase_error: params.chroma_phase_error,
        chroma_delay_horizontal: params.chroma_delay_horizontal,
        chroma_delay_vertical: params.chroma_delay_vertical,
        vhs_settings: if params.enable_vhs {
            Option::Some(vhs_from_flat(params.vhs_settings))
        } else {
            Option::None
        },
        chroma_vert_blend: params.chroma_vert_blend,
        chroma_lowpass_out: params.chroma_lowpass_out.to_nested(),
        scale: Option::Some(scale_from_flat(params.scale)),
    }
}

/// The flat record that describes a nested configuration. An absent
/// sub-effect clears its flag and takes its value fields from `d`.
pub open spec fn spec_effect_to_params(e: NtscEffect, d: SubEffectDefaults) -> NtscRsEffectParams {
    NtscRsEffectParams {
        random_seed: e.random_seed,
        use_field: e.use_field.spec_to_flat(),
        filter_type: e.filter_type.spec_to_flat(),
        input_luma_filter: e.input_luma_filter.spec_to_flat(),
        chroma_lowpass_in: e.chroma_lowpass_in.spec_to_flat(),
        chroma_demodulation: e.chroma_demodulation.spec_to_flat(),
        luma_smear: e.luma_smear,
        composite_sharpening: e.composite_sharpening,
        video_scanline_phase_shift: e.video_scanline_phase_shift.spec_to_flat(),
        video_scanline_phase_shift_offset: e.video_scanline_phase_shift_offset,
        head_switching: spec_head_switching_to_flat(
            value_or(e.head_switching, d.head_switching),
            d.head_switching_mid_line,
        ),
        tracking_noise: spec_tracking_noise_to_flat(value_or(e.tracking_noise, d.tracking_noise)),
        composite_noise: spec_fbm_noise_to_flat(value_or(e.composite_noise, d.fbm_noise)),
        ringing: spec_ringing_to_flat(value_or(e.ringing, d.ringing)),
        luma_noise: spec_fbm_noise_to_flat(value_or(e.luma_noise, d.fbm_noise)),
        chroma_noise: spec_fbm_noise_to_flat(value_or(e.chroma_noise, d.fbm_noise)),
        snow_intensity: e.snow_intensity,
        snow_anisotropy: e.snow_anisotropy,
        chroma_phase_noise_intensity: e.chroma_phase_noise_intensity,
        chroma_phase_error: e.chroma_phase_error,
        chroma_delay_horizontal: e.chroma_delay_horizontal,
        chroma_delay_vertical: e.chroma_delay_vertical,
        vhs_settings: spec_vhs_to_flat(value_or(e.vhs_settings, d.vhs), d.vhs_sharpen, d.vhs_edge_wave),
        chroma_vert_blend: e.chroma_vert_blend,
        chroma_lowpass_out: e.chroma_lowpass_out.spec_to_flat(),
        scale: spec_scale_to_flat(value_or(e.scale, d.scale)),
        enable_head_switching: e.head_switching is Some,
        enable_tracking_noise: e.tracking_noise is Some,
        enable_composite_noise: e.composite_noise is Some,
        enable_ringing: e.ringing is Some,
        enable_luma_noise: e.luma_noise is Some,
        enable_chroma_noise: e.chroma_noise is Some,
        enable_vhs: e.vhs_settings is Some,
    }
}

/// Flattens a nested configuration, filling absent sub-effects from `defaults`.
pub fn ntscrs_effect_to_params(effect: NtscEffect, defaults: SubEffectDefaults) -> (r: NtscRsEffectParams)
    ensures
        r == spec_effect_to_params(effect, defaults),
{
    let head_switching = match effect.head_switching {
        Option::Some(h) => h,
        Option::None => defaults.head_switching,
    };
    let tracking_noise = match effect.tracking_noise {
        Option::Some(t) => t,
        Option::None => defaults.tracking_noise,
    };
    let composite_noise = match effect.composite_noise {
        Option::Some(n) => n,
        Option::None => defaults.fbm_noise,
    };
    let ringing = match effect.ringing {
        Option::Some(g) => g,
        Option::None => defaults.ringing,
    };
    let luma_noise = match effect.luma_noise {
        Option::Some(n) => n,
        Option::None => defaults.fbm_noise,
    };
    let chroma_noise = match effect.chroma_noise {
        Option::Some(n) => n,
        Option::None => defaults.fbm_noise,
    };
    let vhs = match effect.vhs_settings {
        Option::Some(v) => v,
        Option::None => defaults.vhs,
    };
    let scale = match effect.scale {
        Option::Some(s) => s,
        Option::None => defaults.scale,
    };
    NtscRsEffectParams {
        random_seed: effect.random_seed,
        use_field: effect.use_field.to_flat(),
        filter_type: effect.filter_type.to_flat(),
        input_luma_filter: effect.input_luma_filter.to_flat(),
        chroma_lowpass_in: effect.chroma_lowpass_in.to_flat(),
        chroma_demodulation: effect.chroma_demodulation.to_flat(),
        luma_smear: effect.luma_smear,
        composite_sharpening: effect.composite_sharpening,
        video_scanline_phase_shift: effect.video_scanline_phase_shift.to_flat(),
        video_scanline_phase_shift_offset: effect.video_scanline_phase_shift_offset,
        head_switching: head_switching_to_flat(head_switching, defaults.head_switching_mid_line),
        tracking_noise: tracking_noise_to_flat(tracking_noise),
        composite_noise: fbm_noise_to_flat(composite_noise),
        ringing: ringing_to_flat(ringing),
        luma_noise: fbm_noise_to_flat(luma_noise),
        chroma_noise: fbm_noise_to_flat(chroma_noise),
        snow_intensity: effect.snow_intensity,
        snow_anisotropy: effect.snow_anisotropy,
        chroma_phase_noise_intensity: effect.chroma_phase_noise_intensity,
        chroma_phase_error: effect.chroma_phase_error,
        chroma_delay_horizontal: effect.chroma_delay_horizontal,
        chroma_delay_vertical: effect.chroma_delay_vertical,
        vhs_settings: vhs_to_flat(vhs, defaults.vhs_sharpen, defaults.vhs_edge_wave),
        chroma_vert_blend: effect.chroma_vert_blend,
        chroma_lowpass_out: effect.chroma_lowpass_out.to_flat(),
        scale: scale_to_flat(scale),
        enable_head_switching: effect.head_switching.is_some(),
        enable_tracking_noise: effect.tracking_noise.is_some(),
        enable_composite_noise: effect.composite_noise.is_some(),
        enable_ringing: effect.ringing.is_some(),
        enable_luma_noise: effect.luma_noise.is_some(),
        enable_chroma_noise: effect.chroma_noise.is_some(),
        enable_vhs: effect.vhs_settings.is_some(),
    }
}

/// Rebuilding the nested form from the flattened form gives the configuration
/// back, for any defaults, provided scale is present (a rebuilt configuration
/// always has it).
pub proof fn lemma_effect_round_trip(c: NtscEffect, d: SubEffectDefaults)
    requires
        c.scale is Some,
    ensures
        spec_effect_from_params(spec_effect_to_params(c, d)) == c,
{
    lemma_enum_tables_inverse();
}

/// One round trip through the nested form keeps every flag, every scalar and
/// every enabled sub-record of a flat record, and replaces the value fields of
/// each disabled sub-record (or disabled nested part) by the default.
pub proof fn lemma_params_round_trip(p: NtscRsEffectParams, d: SubEffectDefaults)
    ensures
        ({
            let q = spec_effect_to_params(spec_effect_from_params(p), d);
            &&& q.random_seed == p.random_seed
            &&& q.use_field == p.use_field
            &&& q.filter_type == p.filter_type
            &&& q.input_luma_filter == p.input_luma_filter
            &&& q.chroma_lowpass_in == p.chroma_lowpass_in
            &&& q.chroma_demodulation == p.chroma_demodulation
            &&& q.luma_smear == p.luma_smear
            &&& q.composite_sharpening == p.composite_sharpening
            &&& q.video_scanline_phase_shift == p.video_scanline_phase_shift
            &&& q.video_scanline_phase_shift_offset == p.video_scanline_phase_shift_offset
            &&& q.snow_intensity == p.snow_intensity
            &&& q.snow_anisotropy == p.snow_anisotropy
            &&& q.chroma_phase_noise_intensity == p.chroma_phase_noise_intensity
            &&& q.chroma_phase_error == p.chroma_phase_error
            &&& q.chroma_delay_horizontal == p.chroma_delay_horizontal
            &&& q.chroma_delay_vertical == p.chroma_delay_vertical
            &&& q.chroma_vert_blend == p.chroma_vert_blend
            &&& q.chroma_lowpass_out == p.chroma_lowpass_out
            &&& q.scale == p.scale
            &&& q.enable_head_switching == p.enable_head_switching
            &&& q.enable_tracking_noise == p.enable_tracking_noise
            &&& q.enable_composite_noise == p.enable_composite_noise
            &&& q.enable_ringing == p.enable_ringing
            &&& q.enable_luma_noise == p.enable_luma_noise
            &&& q.enable_chroma_noise == p.enable_chroma_noise
            &&& q.enable_vhs == p.enable_vhs
            &&& q.tracking_noise == if p.enable_tracking_noise {
                p.tracking_noise
            } else {
                spec_tracking_noise_to_flat(d.tracking_noise)
            }
            &&& q.composite_noise == if p.enable_composite_noise {
                p.composite_noise
            } else {
                spec_fbm_noise_to_flat(d.fbm_noise)
            }
            &&& q.ringing == if p.enable_ringing {
                p.ringing
            } else {
                spec_ringing_to_flat(d.ringing)
            }
            &&& q.luma_noise == if p.enable_luma_noise {
                p.luma_noise
            } else {
                spec_fbm_noise_to_flat(d.fbm_noise)
            }
            &&& q.chroma_noise == if p.enable_chroma_noise {
                p.chroma_noise
            } else {
                spec_fbm_noise_to_flat(d.fbm_noise)
            }
            &&& !p.enable_head_switching ==> q.head_switching == spec_head_switching_to_flat(
                d.head_switching,
                d.head_switching_mid_line,
            )
            &&& p.enable_head_switching ==> {
                &&& q.head_switching.height == p.head_switching.height
                &&& q.head_switching.offset == p.head_switching.offset
                &&& q.head_switching.horiz_shift == p.head_switching.horiz_shift
                &&& q.head_switching.enable_mid_line == p.head_switching.enable_mid_line
                &&& q.head_switching.mid_line_position == if p.head_switching.enable_mid_line {
                    p.head_switching.mid_line_position
                } else {
                    d.head_switching_mid_line.position
                }
                &&& q.head_switching.mid_line_jitter == if p.head_switching.enable_mid_line {
                    p.head_switching.mid_line_jitter
                } else {
                    d.head_switching_mid_line.jitter
                }
            }
            &&& !p.enable_vhs ==> q.vhs_settings == spec_vhs_to_flat(
                d.vhs,
                d.vhs_sharpen,
                d.vhs_edge_wave,
            )
            &&& p.enable_vhs ==> {
                &&& q.vhs_settings.tape_speed == p.vhs_settings.tape_speed
                &&& q.vhs_settings.chroma_loss == p.vhs_settings.chroma_loss
                &&& q.vhs_settings.enable_sharpen == p.vhs_settings.enable_sharpen
                &&& q.vhs_settings.enable_edge_wave == p.vhs_settings.enable_edge_wave
                &&& if p.vhs_settings.enable_sharpen {
                    &&& q.vhs_settings.sharpen_intensity == p.vhs_settings.sharpen_intensity
                    &&& q.vhs_settings.sharpen_frequency == p.vhs_settings.sharpen_frequency
                } else {
                    &&& q.vhs_settings.sharpen_intensity == d.vhs_sharpen.intensity
                    &&& q.vhs_settings.sharpen_frequency == d.vhs_sharpen.frequency
                }
                &&& if p.vhs_settings.enable_edge_wave {
                    &&& q.vhs_settings.edge_wave_intensity == p.vhs_settings.edge_wave_intensity
                    &&& q.vhs_settings.edge_wave_speed == p.vhs_settings.edge_wave_speed
                    &&& q.vhs_settings.edge_wave_frequency == p.vhs_settings.edge_wave_frequency
                    &&& q.vhs_settings.edge_wave_detail == p.vhs_settings.edge_wave_detail
                } else {
                    &&& q.vhs_settings.edge_wave_intensity == d.vhs_edge_wave.intensity
                    &&& q.vhs_settings.edge_wave_speed == d.vhs_edge_wave.speed
                    &&& q.vhs_settings.edge_wave_frequency == d.vhs_edge_wave.frequency
                    &&& q.vhs_settings.edge_wave_detail == d.vhs_edge_wave.detail
                }
            }
        }),
{
    lemma_enum_tables_inverse();
}

/// A flat record with every flag set (nested flags included) survives a round
/// trip through the nested form unchanged.
pub proof fn lemma_enabled_params_round_trip(p: NtscRsEffectParams, d: SubEffectDefaults)
    requires
        p.enable_head_switching,
        p.head_switching.enable_mid_line,
        p.enable_tracking_noise,
        p.enable_composite_noise,
        p.enable_ringing,
        p.enable_luma_noise,
        p.enable_chroma_noise,
        p.enable_vhs,
        p.vhs_settings.enable_sharpen,
        p.vhs_settings.enable_edge_wave,
    ensures
        spec_effect_to_params(spec_effect_from_params(p), d) == p,
{
    lemma_enum_tables_inverse();
}

/// Re-serialising is stable: a second round trip through the nested form
/// changes nothing that the first one produced.
pub proof fn lemma_reserialization_stable(p: NtscRsEffectParams, d: SubEffectDefaults)
    ensures
        ({
            let q = spec_effect_to_params(spec_effect_from_params(p), d);
            spec_effect_to_params(spec_effect_from_params(q), d) == q
        }),
{
    lemma_effect_round_trip(spec_effect_from_params(p), d);
}

/// The flat record for the engine's default configuration. It is a fixed
/// point of the bridge: rebuilding the nested form from it yields the default
/// again whenever the default has scale settings.
pub fn ntscrs_default_effect_params(engine_default: NtscEffect, defaults: SubEffectDefaults) -> (r: NtscRsEffectParams)
    ensures
        r == spec_effect_to_params(engine_default, defaults),
        engine_default.scale is Some ==> spec_effect_from_params(r) == engine_default,
{
    proof {
        if engine_default.scale is Some {
            lemma_effect_round_trip(engine_default, defaults);
        }
    }
    ntscrs_effect_to_params(engine_default, defaults)
}

} // verus!
