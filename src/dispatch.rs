use crate::bridge::{ntscrs_effect_from_params, spec_effect_from_params};
use crate::format::{lemma_bytes_per_pixel_consistent, NtscRsPixelFormat};
use crate::params::NtscRsEffectParams;
use crate::settings::NtscEffect;
use vstd::prelude::*;

verus! {

/// Why a host buffer cannot be processed.
#[derive(Clone, Copy, Debug, PartialEq, Eq, Structural)]
pub enum FrameError {
    /// `width * height * bytes_per_pixel` does not fit in `usize`.
    SizeOverflow,
    /// The buffer is shorter than one frame of the requested format.
    BufferTooSmall { needed: usize, actual: usize },
}

/// Everything the engine needs to process one frame: the configuration, the
/// frame geometry, and the extent of the buffer view in bytes and in samples.
/// The engine is always run at unit scale.
#[derive(Clone, Copy, Debug, PartialEq, Eq)]
pub struct FrameRequest {
    pub effect: NtscEffect,
    pub format: NtscRsPixelFormat,
    pub width: usize,
    pub height: usize,
    pub byte_len: usize,
    pub element_count: usize,
    pub frame_num: usize,
}

/// Bytes in one frame.
pub open spec fn spec_frame_bytes(width: usize, height: usize, format: NtscRsPixelFormat) -> int {
    width * height * format.spec_bytes_per_pixel()
}

/// Channel samples in one frame.
pub open spec fn spec_frame_elements(width: usize, height: usize, format: NtscRsPixelFormat) -> int {
    width * height * format.spec_layout().spec_channel_count()
}

/// Bytes in one frame, or `None` when that does not fit in `usize`.
pub fn frame_byte_len(width: usize, height: usize, format: NtscRsPixelFormat) -> (r: Option<usize>)
    ensures
        r == if spec_frame_bytes(width, height, format) <= usize::MAX {
            Option::Some(spec_frame_bytes(width, height, format) as usize)
        } else {
            Option::None::<usize>
        },
{
    let bpp = format.bytes_per_pixel();
    match width.checked_mul(height) {
        Option::Some(pixels) => pixels.checked_mul(bpp),
        Option::None => {
            proof {
                let p = width * height;
                assert(p * bpp >= p) by (nonlinear_arith)
                    requires
                        p >= 0,
                        bpp >= 1,
                ;
            }
            Option::None
        },
    }
}

/// Sizes the buffer view for one frame and builds the engine configuration.
/// The view covers the first `width * height * bytes_per_pixel` bytes of a
/// buffer of `buffer_len` bytes; a shorter buffer is refused.
pub fn prepare_frame(
    params: NtscRsEffectParams,
    width: usize,
    height: usize,
    buffer_len: usize,
    format: NtscRsPixelFormat,
    frame_num: usize,
) -> (r: Result<FrameRequest, FrameError>)
    ensures
        match r {
            Result::Ok(req) => {
                &&& spec_frame_bytes(width, height, format) <= buffer_len
                &&& req == (FrameRequest {
                    effect: spec_effect_from_params(params),
                    format,
                    width,
                    height,
                    byte_len: spec_frame_bytes(width, height, format) as usize,
                    element_count: spec_frame_elements(width, height, format) as usize,
                    frame_num,
                })
                &&& req.element_count * format.spec_element_type().spec_size_in_bytes() == req.byte_len
            },
            Result::Err(FrameError::SizeOverflow) => spec_frame_bytes(width, height, format) > usize::MAX,
            Result::Err(FrameError::BufferTooSmall { needed, actual }) => {
                &&& needed == spec_frame_bytes(width, height, format)
                &&& actual == buffer_len
                &&& buffer_len < needed
            },
        },
        width == 0 || height == 0 ==> (r matches Result::Ok(req) && req.byte_len == 0
            && req.element_count == 0),
{
    proof {
        lemma_zero_sized_frame_bounds(width, height, format);
    }
    let byte_len = match frame_byte_len(width, height, format) {
        Option::Some(n) => n,
        Option::None => {
            return Result::Err(FrameError::SizeOverflow);
        },
    };
    if buffer_len < byte_len {
        return Result::Err(FrameError::BufferTooSmall { needed: byte_len, actual: buffer_len });
    }
    let channels = format.layout().channel_count();
    let sample = format.element_type().size_in_bytes();
    proof {
        lemma_bytes_per_pixel_consistent(format);
        let p = width * height;
        assert(p * channels * sample == p * (channels * sample)) by (nonlinear_arith);
        assert(p <= p * channels <= p * (channels * sample)) by (nonlinear_arith)
            requires
                p >= 0,
                sample >= 1,
                channels >= 1,
        ;
    }
    let element_count = width * height * channels;
    let effect = ntscrs_effect_from_params(params);
    Result::Ok(
        FrameRequest { effect, format, width, height, byte_len, element_count, frame_num },
    )
}

proof fn lemma_zero_sized_frame_bounds(width: usize, height: usize, format: NtscRsPixelFormat)
    ensures
        width == 0 || height == 0 ==> spec_frame_bytes(width, height, format) == 0
            && spec_frame_elements(width, height, format) == 0,
{
}

/// A frame with no rows or no columns has no bytes and no samples, so any
/// buffer, even an empty one, holds it.
pub proof fn lemma_zero_sized_frame(width: usize, height: usize, format: NtscRsPixelFormat)
    requires
        width == 0 || height == 0,
    ensures
        spec_frame_bytes(width, height, format) == 0,
        spec_frame_elements(width, height, format) == 0,
{
    lemma_zero_sized_frame_bounds(width, height, format);
}

} // verus!
