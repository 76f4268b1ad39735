use ntscrs_cbind::{
    frame_byte_len, prepare_frame, NtscRsEffectParams, NtscRsFbmNoiseSettings,
    NtscRsFilterType, NtscRsHeadSwitchingSettings, NtscRsLumaLowpass, NtscRsChromaLowpass,
    NtscRsChromaDemodulationFilter, NtscRsPhaseShift, NtscRsPixelFormat, NtscRsRingingSettings,
    NtscRsScaleSettings, NtscRsTapeSpeed, NtscRsTrackingNoiseSettings, NtscRsUseField,
    NtscRsVHSSettings, FrameError, ntscrs_effect_from_params,
};

fn all_disabled_params() -> NtscRsEffectParams {
    NtscRsEffectParams {
        random_seed: 0,
        use_field: NtscRsUseField::UseFieldAlternating,
        filter_type: NtscRsFilterType::FilterTypeConstantK,
        input_luma_filter: NtscRsLumaLowpass::LumaLowpassNone,
        chroma_lowpass_in: NtscRsChromaLowpass::ChromaLowpassNone,
        chroma_demodulation: NtscRsChromaDemodulationFilter::ChromaDemodFilterBox,
        luma_smear: 0.0f32.to_bits(),
        composite_sharpening: 0.0f32.to_bits(),
        video_scanline_phase_shift: NtscRsPhaseShift::PhaseShiftDegrees0,
        video_scanline_phase_shift_offset: 0,
        head_switching: NtscRsHeadSwitchingSettings {
            height: 0,
            offset: 0,
            horiz_shift: 0,
            mid_line_position: 0,
            mid_line_jitter: 0,
            enable_mid_line: false,
        },
        tracking_noise: NtscRsTrackingNoiseSettings {
            height: 0,
            wave_intensity: 0,
            snow_intensity: 0,
            snow_anisotropy: 0,
            noise_intensity: 0,
        },
        composite_noise: NtscRsFbmNoiseSettings { frequency: 0, intensity: 0, detail: 0 },
        ringing: NtscRsRingingSettings { frequency: 0, power: 0, intensity: 0 },
        luma_noise: NtscRsFbmNoiseSettings { frequency: 0, intensity: 0, detail: 0 },
        chroma_noise: NtscRsFbmNoiseSettings { frequency: 0, intensity: 0, detail: 0 },
        snow_intensity: 0,
        snow_anisotropy: 0,
        chroma_phase_noise_intensity: 0,
        chroma_phase_error: 0,
        chroma_delay_horizontal: 0,
        chroma_delay_vertical: 0,
        vhs_settings: NtscRsVHSSettings {
            tape_speed: NtscRsTapeSpeed::TapeSpeedNONE,
            chroma_loss: 0,
            sharpen_intensity: 0,
            sharpen_frequency: 0,
            edge_wave_intensity: 0,
            edge_wave_speed: 0,
            edge_wave_frequency: 0,
            edge_wave_detail: 0,
            enable_sharpen: false,
            enable_edge_wave: false,
        },
        chroma_vert_blend: false,
        chroma_lowpass_out: NtscRsChromaLowpass::ChromaLowpassNone,
        scale: NtscRsScaleSettings {
            horizontal_scale: 1.0f32.to_bits(),
            vertical_scale: 1.0f32.to_bits(),
            scale_with_video_size: false,
        },
        enable_head_switching: false,
        enable_tracking_noise: false,
        enable_composite_noise: false,
        enable_ringing: false,
        enable_luma_noise: false,
        enable_chroma_noise: false,
        enable_vhs: false,
    }
}

#[test]
fn two_by_one_rgb8_frame_covers_six_bytes() {
    let params = all_disabled_params();
    let buffer: Vec<u8> = vec![10, 20, 30, 40, 50, 60];
    let req = prepare_frame(params, 2, 1, buffer.len(), NtscRsPixelFormat::Rgb8, 0).unwrap();
    assert_eq!(req.byte_len, 6);
    assert_eq!(req.element_count, 6);
    assert_eq!(req.width, 2);
    assert_eq!(req.height, 1);
    assert_eq!(req.frame_num, 0);
    assert_eq!(req.format, NtscRsPixelFormat::Rgb8);
    assert_eq!(req.effect, ntscrs_effect_from_params(params));
    assert_eq!(buffer.len(), 6);
}

#[test]
fn zero_width_or_height_gives_empty_view() {
    let params = all_disabled_params();
    let a = prepare_frame(params, 0, 480, 0, NtscRsPixelFormat::Xbgr32f, 7).unwrap();
    assert_eq!(a.byte_len, 0);
    assert_eq!(a.element_count, 0);
    let b = prepare_frame(params, 640, 0, 0, NtscRsPixelFormat::Rgb16s, 7).unwrap();
    assert_eq!(b.byte_len, 0);
    assert_eq!(b.element_count, 0);
    assert_eq!(frame_byte_len(0, 0, NtscRsPixelFormat::Rgbx8), Some(0));
}

#[test]
fn sixteen_bit_view_counts_samples_not_bytes() {
    let params = all_disabled_params();
    let req = prepare_frame(params, 3, 2, 48, NtscRsPixelFormat::Rgbx16, 1).unwrap();
    assert_eq!(req.byte_len, 48);
    assert_eq!(req.element_count, 24);
    let f = prepare_frame(params, 3, 2, 100, NtscRsPixelFormat::Bgr32f, 1).unwrap();
    assert_eq!(f.byte_len, 72);
    assert_eq!(f.element_count, 18);
}

#[test]
fn short_buffer_is_refused() {
    let params = all_disabled_params();
    let r = prepare_frame(params, 2, 2, 11, NtscRsPixelFormat::Rgb8, 0);
    assert_eq!(r, Err(FrameError::BufferTooSmall { needed: 12, actual: 11 }));
}

#[test]
fn oversized_frame_is_refused() {
    let params = all_disabled_params();
    let r = prepare_frame(params, usize::MAX, 2, usize::MAX, NtscRsPixelFormat::Rgb8, 0);
    assert_eq!(r, Err(FrameError::SizeOverflow));
    let s = prepare_frame(params, usize::MAX / 2, 1, usize::MAX, NtscRsPixelFormat::Rgbx8, 0);
    assert_eq!(s, Err(FrameError::SizeOverflow));
    assert_eq!(frame_byte_len(usize::MAX, 1, NtscRsPixelFormat::Rgb8), None);
    assert_eq!(frame_byte_len(usize::MAX, 1, NtscRsPixelFormat::Rgbx8), None);
}

#[test]
fn frame_byte_len_examples() {
    assert_eq!(frame_byte_len(1920, 1080, NtscRsPixelFormat::Rgbx8), Some(1920 * 1080 * 4));
    assert_eq!(frame_byte_len(2, 1, NtscRsPixelFormat::Rgb8), Some(6));
    assert_eq!(frame_byte_len(4, 4, NtscRsPixelFormat::Xrgb16s), Some(128));
}
