//! Settings bridge and pixel-format registry for an NTSC/VHS artifact engine.
//!
//! The flat parameter record (`params`) is the host-facing form of the engine
//! configuration; the nested model (`settings`) is the engine's own shape. The
//! `bridge` converts between them, `format` describes the supported frame
//! buffer layouts, and `dispatch` sizes a host buffer for one frame.
//!
//! Single-precision values are carried as their IEEE-754 bit patterns (`u32`),
//! so every conversion here is exact.

pub mod bridge;
pub mod dispatch;
pub mod format;
pub mod params;
pub mod settings;

pub use bridge::{
    lemma_effect_round_trip, lemma_enabled_params_round_trip, lemma_enum_tables_inverse,
    lemma_params_round_trip, lemma_reserialization_stable, ntscrs_default_effect_params,
    ntscrs_effect_from_params, ntscrs_effect_to_params,
};
pub use dispatch::{frame_byte_len, lemma_zero_sized_frame, prepare_frame, FrameError, FrameRequest};
pub use format::{
    lemma_bytes_per_pixel_consistent, lemma_tag_bijection, ChannelLayout, ElementType,
    NtscRsPixelFormat, PIXEL_FORMAT_COUNT,
};
pub use params::{
    lemma_flat_tags_bijective, NtscRsChromaDemodulationFilter, NtscRsChromaLowpass,
    NtscRsEffectParams, NtscRsFbmNoiseSettings, NtscRsFilterType, NtscRsHeadSwitchingSettings,
    NtscRsLumaLowpass, NtscRsPhaseShift, NtscRsRingingSettings, NtscRsScaleSettings,
    NtscRsTapeSpeed, NtscRsTrackingNoiseSettings, NtscRsUseField, NtscRsVHSSettings,
};
pub use settings::{
    ChromaDemodulationFilter, ChromaLowpass, FbmNoiseSettings, FilterType,
    HeadSwitchingMidLineSettings, HeadSwitchingSettings, LumaLowpass, NtscEffect, PhaseShift,
    RingingSettings, ScaleSettings, SubEffectDefaults, TrackingNoiseSettings, UseField,
    VHSEdgeWaveSettings, VHSSettings, VHSSharpenSettings, VHSTapeSpeed,
};
