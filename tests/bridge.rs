use ntscrs_cbind::{
    ntscrs_default_effect_params, ntscrs_effect_from_params, ntscrs_effect_to_params,
    ChromaDemodulationFilter, ChromaLowpass, FbmNoiseSettings, FilterType,
    HeadSwitchingMidLineSettings, HeadSwitchingSettings, LumaLowpass,
    NtscRsChromaDemodulationFilter, NtscRsChromaLowpass, NtscRsEffectParams,
    NtscRsFbmNoiseSettings, NtscRsFilterType, NtscRsHeadSwitchingSettings, NtscRsLumaLowpass,
    NtscRsPhaseShift, NtscRsRingingSettings, NtscRsScaleSettings, NtscRsTapeSpeed,
    NtscRsTrackingNoiseSettings, NtscRsUseField, NtscRsVHSSettings, PhaseShift, RingingSettings,
    ScaleSettings, SubEffectDefaults, TrackingNoiseSettings, UseField, VHSEdgeWaveSettings,
    VHSSettings, VHSSharpenSettings, VHSTapeSpeed,
};

fn b(x: f32) -> u32 {
    x.to_bits()
}

fn enabled_params() -> NtscRsEffectParams {
    NtscRsEffectParams {
        random_seed: -17,
        use_field: NtscRsUseField::UseFieldInterleavedLower,
        filter_type: NtscRsFilterType::FilterTypeButterworth,
        input_luma_filter: NtscRsLumaLowpass::LumaLowpassNotch,
        chroma_lowpass_in: NtscRsChromaLowpass::ChromaLowpassLight,
        chroma_demodulation: NtscRsChromaDemodulationFilter::ChromaDemodFilterOneLineComb,
        luma_smear: b(0.25),
        composite_sharpening: b(1.5),
        video_scanline_phase_shift: NtscRsPhaseShift::PhaseShiftDegrees270,
        video_scanline_phase_shift_offset: 3,
        head_switching: NtscRsHeadSwitchingSettings {
            height: 8,
            offset: 3,
            horiz_shift: b(72.0),
            mid_line_position: b(0.95),
            mid_line_jitter: b(0.03),
            enable_mid_line: true,
        },
        tracking_noise: NtscRsTrackingNoiseSettings {
            height: 12,
            wave_intensity: b(15.0),
            snow_intensity: b(0.025),
            snow_anisotropy: b(0.25),
            noise_intensity: b(0.25),
        },
        composite_noise: NtscRsFbmNoiseSettings { frequency: b(0.5), intensity: b(0.05), detail: 1 },
        ringing: NtscRsRingingSettings { frequency: b(0.45), power: b(4.0), intensity: b(4.0) },
        luma_noise: NtscRsFbmNoiseSettings { frequency: b(0.5), intensity: b(0.01), detail: 2 },
        chroma_noise: NtscRsFbmNoiseSettings { frequency: b(0.05), intensity: b(0.1), detail: 3 },
        snow_intensity: b(0.00025),
        snow_anisotropy: b(0.5),
        chroma_phase_noise_intensity: b(0.001),
        chroma_phase_error: b(0.1),
        chroma_delay_horizontal: b(-1.0),
        chroma_delay_vertical: -2,
        vhs_settings: NtscRsVHSSettings {
            tape_speed: NtscRsTapeSpeed::TapeSpeedEP,
            chroma_loss: b(0.0001),
            sharpen_intensity: b(0.25),
            sharpen_frequency: b(1.0),
            edge_wave_intensity: b(0.5),
            edge_wave_speed: b(4.0),
            edge_wave_frequency: b(0.05),
            edge_wave_detail: 2,
            enable_sharpen: true,
            enable_edge_wave: true,
        },
        chroma_vert_blend: true,
        chroma_lowpass_out: NtscRsChromaLowpass::ChromaLowpassFull,
        scale: NtscRsScaleSettings {
            horizontal_scale: b(2.0),
            vertical_scale: b(0.5),
            scale_with_video_size: true,
        },
        enable_head_switching: true,
        enable_tracking_noise: true,
        enable_composite_noise: true,
        enable_ringing: true,
        enable_luma_noise: true,
        enable_chroma_noise: true,
        enable_vhs: true,
    }
}

fn defaults() -> SubEffectDefaults {
    SubEffectDefaults {
        head_switching: HeadSwitchingSettings {
            height: 8,
            offset: 3,
            horiz_shift: b(72.0),
            mid_line: Some(HeadSwitchingMidLineSettings { position: b(0.95), jitter: b(0.03) }),
        },
        head_switching_mid_line: HeadSwitchingMidLineSettings { position: b(0.9), jitter: b(0.02) },
        tracking_noise: TrackingNoiseSettings {
            height: 24,
            wave_intensity: b(5.0),
            snow_intensity: b(0.05),
            snow_anisotropy: b(0.5),
            noise_intensity: b(0.005),
        },
        fbm_noise: FbmNoiseSettings { frequency: b(0.25), intensity: b(0.1), detail: 1 },
        ringing: RingingSettings { frequency: b(0.45), power: b(4.0), intensity: b(4.0) },
        vhs: VHSSettings {
            tape_speed: VHSTapeSpeed::LP,
            chroma_loss: b(0.0),
            sharpen: Some(VHSSharpenSettings { intensity: b(0.5), frequency: b(2.0) }),
            edge_wave: None,
        },
        vhs_sharpen: VHSSharpenSettings { intensity: b(1.0), frequency: b(1.5) },
        vhs_edge_wave: VHSEdgeWaveSettings {
            intensity: b(1.0),
            speed: b(2.0),
            frequency: b(0.5),
            detail: 3,
        },
        scale: ScaleSettings {
            horizontal_scale: b(1.0),
            vertical_scale: b(1.0),
            scale_with_video_size: false,
        },
    }
}

#[test]
fn fully_enabled_record_round_trips_unchanged() {
    let p = enabled_params();
    let q = ntscrs_effect_to_params(ntscrs_effect_from_params(p), defaults());
    assert_eq!(q, p);
}

#[test]
fn enabled_flags_become_present_sub_effects() {
    let e = ntscrs_effect_from_params(enabled_params());
    assert_eq!(e.random_seed, -17);
    assert_eq!(e.use_field, UseField::InterleavedLower);
    assert_eq!(e.filter_type, FilterType::Butterworth);
    assert_eq!(e.input_luma_filter, LumaLowpass::Notch);
    assert_eq!(e.chroma_lowpass_in, ChromaLowpass::Light);
    assert_eq!(e.chroma_demodulation, ChromaDemodulationFilter::OneLineComb);
    assert_eq!(e.video_scanline_phase_shift, PhaseShift::Degrees270);
    assert_eq!(e.chroma_lowpass_out, ChromaLowpass::Full);
    let hs = e.head_switching.unwrap();
    assert_eq!(hs.height, 8);
    assert_eq!(hs.mid_line, Some(HeadSwitchingMidLineSettings { position: b(0.95), jitter: b(0.03) }));
    assert_eq!(e.ringing, Some(RingingSettings { frequency: b(0.45), power: b(4.0), intensity: b(4.0) }));
    assert_eq!(e.chroma_noise, Some(FbmNoiseSettings { frequency: b(0.05), intensity: b(0.1), detail: 3 }));
    let vhs = e.vhs_settings.unwrap();
    assert_eq!(vhs.tape_speed, VHSTapeSpeed::EP);
    assert_eq!(vhs.sharpen, Some(VHSSharpenSettings { intensity: b(0.25), frequency: b(1.0) }));
    assert_eq!(vhs.edge_wave.unwrap().detail, 2);
    assert_eq!(f32::from_bits(e.luma_smear), 0.25);
}

#[test]
fn disabled_flags_become_absent_sub_effects() {
    let mut p = enabled_params();
    p.enable_head_switching = false;
    p.enable_tracking_noise = false;
    p.enable_composite_noise = false;
    p.enable_ringing = false;
    p.enable_luma_noise = false;
    p.enable_chroma_noise = false;
    p.enable_vhs = false;
    let e = ntscrs_effect_from_params(p);
    assert_eq!(e.head_switching, None);
    assert_eq!(e.tracking_noise, None);
    assert_eq!(e.composite_noise, None);
    assert_eq!(e.ringing, None);
    assert_eq!(e.luma_noise, None);
    assert_eq!(e.chroma_noise, None);
    assert_eq!(e.vhs_settings, None);
}

#[test]
fn scale_is_always_present() {
    let e = ntscrs_effect_from_params(enabled_params());
    assert_eq!(
        e.scale,
        Some(ScaleSettings { horizontal_scale: b(2.0), vertical_scale: b(0.5), scale_with_video_size: true })
    );
}

#[test]
fn disabled_ringing_falls_back_to_default() {
    let mut p = enabled_params();
    p.enable_ringing = false;
    p.ringing.intensity = b(99.0);
    let q = ntscrs_effect_to_params(ntscrs_effect_from_params(p), defaults());
    assert!(!q.enable_ringing);
    assert_eq!(f32::from_bits(q.ringing.intensity), 4.0);
    assert_ne!(f32::from_bits(q.ringing.intensity), 99.0);
    assert_eq!(q.ringing, NtscRsRingingSettings { frequency: b(0.45), power: b(4.0), intensity: b(4.0) });
    assert_eq!(q.composite_noise, p.composite_noise);
}

#[test]
fn disabled_noise_records_fall_back_to_default() {
    let mut p = enabled_params();
    p.enable_luma_noise = false;
    p.enable_tracking_noise = false;
    p.luma_noise.detail = 77;
    p.tracking_noise.height = 999;
    let q = ntscrs_effect_to_params(ntscrs_effect_from_params(p), defaults());
    assert_eq!(q.luma_noise, NtscRsFbmNoiseSettings { frequency: b(0.25), intensity: b(0.1), detail: 1 });
    assert_eq!(q.tracking_noise.height, 24);
    assert_eq!(q.chroma_noise, p.chroma_noise);
}

#[test]
fn disabled_mid_line_falls_back_to_default() {
    let mut p = enabled_params();
    p.head_switching.enable_mid_line = false;
    p.head_switching.mid_line_position = b(-5.0);
    let q = ntscrs_effect_to_params(ntscrs_effect_from_params(p), defaults());
    assert!(q.enable_head_switching);
    assert!(!q.head_switching.enable_mid_line);
    assert_eq!(q.head_switching.mid_line_position, b(0.9));
    assert_eq!(q.head_switching.mid_line_jitter, b(0.02));
    assert_eq!(q.head_switching.horiz_shift, b(72.0));
}

#[test]
fn disabled_head_switching_takes_default_record() {
    let mut p = enabled_params();
    p.enable_head_switching = false;
    p.head_switching.height = 500;
    let q = ntscrs_effect_to_params(ntscrs_effect_from_params(p), defaults());
    assert!(!q.enable_head_switching);
    assert_eq!(q.head_switching.height, 8);
    assert!(q.head_switching.enable_mid_line);
    assert_eq!(q.head_switching.mid_line_position, b(0.95));
}

#[test]
fn disabled_vhs_takes_default_record() {
    let mut p = enabled_params();
    p.enable_vhs = false;
    p.vhs_settings.chroma_loss = b(123.0);
    let q = ntscrs_effect_to_params(ntscrs_effect_from_params(p), defaults());
    assert!(!q.enable_vhs);
    assert_eq!(q.vhs_settings.tape_speed, NtscRsTapeSpeed::TapeSpeedLP);
    assert_eq!(q.vhs_settings.chroma_loss, b(0.0));
    assert!(q.vhs_settings.enable_sharpen);
    assert_eq!(q.vhs_settings.sharpen_intensity, b(0.5));
    assert!(!q.vhs_settings.enable_edge_wave);
    assert_eq!(q.vhs_settings.edge_wave_detail, 3);
}

#[test]
fn disabled_vhs_parts_fall_back_to_default() {
    let mut p = enabled_params();
    p.vhs_settings.enable_sharpen = false;
    p.vhs_settings.enable_edge_wave = false;
    p.vhs_settings.sharpen_frequency = b(42.0);
    p.vhs_settings.edge_wave_detail = 42;
    let q = ntscrs_effect_to_params(ntscrs_effect_from_params(p), defaults());
    assert!(q.enable_vhs);
    assert_eq!(q.vhs_settings.sharpen_frequency, b(1.5));
    assert_eq!(q.vhs_settings.edge_wave_detail, 3);
    assert_eq!(q.vhs_settings.tape_speed, NtscRsTapeSpeed::TapeSpeedEP);
}

#[test]
fn reserialization_is_stable() {
    let mut p = enabled_params();
    p.enable_ringing = false;
    p.enable_vhs = false;
    p.head_switching.enable_mid_line = false;
    let q = ntscrs_effect_to_params(ntscrs_effect_from_params(p), defaults());
    let r = ntscrs_effect_to_params(ntscrs_effect_from_params(q), defaults());
    assert_eq!(q, r);
}

#[test]
fn nested_config_round_trips() {
    let mut c = ntscrs_effect_from_params(enabled_params());
    assert_eq!(ntscrs_effect_from_params(ntscrs_effect_to_params(c, defaults())), c);
    c.ringing = None;
    c.luma_noise = None;
    c.head_switching = Some(HeadSwitchingSettings { height: 1, offset: 2, horiz_shift: b(3.0), mid_line: None });
    c.vhs_settings = Some(VHSSettings {
        tape_speed: VHSTapeSpeed::SP,
        chroma_loss: b(0.5),
        sharpen: None,
        edge_wave: Some(VHSEdgeWaveSettings { intensity: b(9.0), speed: b(8.0), frequency: b(7.0), detail: -6 }),
    });
    assert_eq!(ntscrs_effect_from_params(ntscrs_effect_to_params(c, defaults())), c);
    c.vhs_settings = None;
    c.tracking_noise = None;
    assert_eq!(ntscrs_effect_from_params(ntscrs_effect_to_params(c, defaults())), c);
}

#[test]
fn default_params_are_a_fixed_point() {
    let mut engine_default = ntscrs_effect_from_params(enabled_params());
    engine_default.ringing = None;
    engine_default.vhs_settings = None;
    let first = ntscrs_default_effect_params(engine_default, defaults());
    let second = ntscrs_default_effect_params(engine_default, defaults());
    assert_eq!(first, second);
    assert_eq!(ntscrs_effect_from_params(first), engine_default);
    assert!(!first.enable_ringing);
    assert_eq!(first.ringing.frequency, b(0.45));
}

#[test]
fn absent_scale_is_flattened_from_default() {
    let mut c = ntscrs_effect_from_params(enabled_params());
    c.scale = None;
    let p = ntscrs_effect_to_params(c, defaults());
    assert_eq!(p.scale, NtscRsScaleSettings { horizontal_scale: b(1.0), vertical_scale: b(1.0), scale_with_video_size: false });
    assert_eq!(ntscrs_effect_from_params(p).scale, Some(defaults().scale));
}

#[test]
fn enum_tables_are_inverse() {
    let use_fields = [
        (NtscRsUseField::UseFieldAlternating, UseField::Alternating),
        (NtscRsUseField::UseFieldUpper, UseField::Upper),
        (NtscRsUseField::UseFieldLower, UseField::Lower),
        (NtscRsUseField::UseFieldInterleavedUpper, UseField::InterleavedUpper),
        (NtscRsUseField::UseFieldInterleavedLower, UseField::InterleavedLower),
        (NtscRsUseField::UseFieldBoth, UseField::Both),
    ];
    for (f, n) in use_fields {
        assert_eq!(f.to_nested(), n);
        assert_eq!(n.to_flat(), f);
    }
    let filters = [
        (NtscRsFilterType::FilterTypeConstantK, FilterType::ConstantK),
        (NtscRsFilterType::FilterTypeButterworth, FilterType::Butterworth),
    ];
    for (f, n) in filters {
        assert_eq!(f.to_nested(), n);
        assert_eq!(n.to_flat(), f);
    }
    let luma = [
        (NtscRsLumaLowpass::LumaLowpassNone, LumaLowpass::Off),
        (NtscRsLumaLowpass::LumaLowpassBox, LumaLowpass::Box),
        (NtscRsLumaLowpass::LumaLowpassNotch, LumaLowpass::Notch),
    ];
    for (f, n) in luma {
        assert_eq!(f.to_nested(), n);
        assert_eq!(n.to_flat(), f);
    }
    let chroma = [
        (NtscRsChromaLowpass::ChromaLowpassNone, ChromaLowpass::Off),
        (NtscRsChromaLowpass::ChromaLowpassLight, ChromaLowpass::Light),
        (NtscRsChromaLowpass::ChromaLowpassFull, ChromaLowpass::Full),
    ];
    for (f, n) in chroma {
        assert_eq!(f.to_nested(), n);
        assert_eq!(n.to_flat(), f);
    }
    let demod = [
        (NtscRsChromaDemodulationFilter::ChromaDemodFilterBox, ChromaDemodulationFilter::Box),
        (NtscRsChromaDemodulationFilter::ChromaDemodFilterNotch, ChromaDemodulationFilter::Notch),
        (NtscRsChromaDemodulationFilter::ChromaDemodFilterOneLineComb, ChromaDemodulationFilter::OneLineComb),
        (NtscRsChromaDemodulationFilter::ChromaDemodFilterTwoLineComb, ChromaDemodulationFilter::TwoLineComb),
    ];
    for (f, n) in demod {
        assert_eq!(f.to_nested(), n);
        assert_eq!(n.to_flat(), f);
    }
    let phase = [
        (NtscRsPhaseShift::PhaseShiftDegrees0, PhaseShift::Degrees0),
        (NtscRsPhaseShift::PhaseShiftDegrees90, PhaseShift::Degrees90),
        (NtscRsPhaseShift::PhaseShiftDegrees180, PhaseShift::Degrees180),
        (NtscRsPhaseShift::PhaseShiftDegrees270, PhaseShift::Degrees270),
    ];
    for (f, n) in phase {
        assert_eq!(f.to_nested(), n);
        assert_eq!(n.to_flat(), f);
    }
    let tape = [
        (NtscRsTapeSpeed::TapeSpeedNONE, VHSTapeSpeed::NONE),
        (NtscRsTapeSpeed::TapeSpeedSP, VHSTapeSpeed::SP),
        (NtscRsTapeSpeed::TapeSpeedLP, VHSTapeSpeed::LP),
        (NtscRsTapeSpeed::TapeSpeedEP, VHSTapeSpeed::EP),
    ];
    for (f, n) in tape {
        assert_eq!(f.to_nested(), n);
        assert_eq!(n.to_flat(), f);
    }
}

#[test]
fn flat_enum_tags_follow_declaration_order() {
    assert_eq!(NtscRsUseField::UseFieldAlternating.tag(), 0);
    assert_eq!(NtscRsUseField::UseFieldInterleavedUpper.tag(), 3);
    assert_eq!(NtscRsUseField::UseFieldBoth.tag(), 5);
    assert_eq!(NtscRsUseField::from_tag(4), Some(NtscRsUseField::UseFieldInterleavedLower));
    assert_eq!(NtscRsUseField::from_tag(6), None);
    assert_eq!(NtscRsFilterType::FilterTypeButterworth.tag(), 1);
    assert_eq!(NtscRsFilterType::from_tag(2), None);
    assert_eq!(NtscRsLumaLowpass::from_tag(2), Some(NtscRsLumaLowpass::LumaLowpassNotch));
    assert_eq!(NtscRsChromaLowpass::ChromaLowpassFull.tag(), 2);
    assert_eq!(NtscRsChromaLowpass::from_tag(3), None);
    assert_eq!(
        NtscRsChromaDemodulationFilter::from_tag(3),
        Some(NtscRsChromaDemodulationFilter::ChromaDemodFilterTwoLineComb)
    );
    assert_eq!(NtscRsPhaseShift::PhaseShiftDegrees180.tag(), 2);
    assert_eq!(NtscRsPhaseShift::from_tag(4), None);
    assert_eq!(NtscRsTapeSpeed::TapeSpeedSP.tag(), 1);
    assert_eq!(NtscRsTapeSpeed::from_tag(3), Some(NtscRsTapeSpeed::TapeSpeedEP));
    assert_eq!(NtscRsTapeSpeed::from_tag(u32::MAX), None);
}

#[test]
fn flat_enum_tags_round_trip() {
    for t in 0..10u32 {
        if let Some(x) = NtscRsUseField::from_tag(t) {
            assert_eq!(x.tag(), t);
        }
        if let Some(x) = NtscRsChromaDemodulationFilter::from_tag(t) {
            assert_eq!(x.tag(), t);
        }
        if let Some(x) = NtscRsTapeSpeed::from_tag(t) {
            assert_eq!(x.tag(), t);
        }
    }
}
