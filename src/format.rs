use vstd::prelude::*;

verus! {

/// Numeric representation of one channel sample in a frame buffer.
#[derive(Clone, Copy, Debug, PartialEq, Eq, Structural)]
pub enum ElementType {
    U8,
    U16,
    I16,
    F32,
}

impl ElementType {
    pub open spec fn spec_size_in_bytes(self) -> usize {
        match self {
            ElementType::U8 => 1,
            ElementType::U16 => 2,
            ElementType::I16 => 2,
            ElementType::F32 => 4,
        }
    }

    /// Width of one sample in bytes.
    #[verifier::when_used_as_spec(spec_size_in_bytes)]
    pub fn size_in_bytes(self) -> (r: usize)
        ensures
            r == self.spec_size_in_bytes(),
    {
        match self {
            ElementType::U8 => 1,
            ElementType::U16 => 2,
            ElementType::I16 => 2,
            ElementType::F32 => 4,
        }
    }
}

/// Order of the colour channels within one pixel; `X` is a padding channel.
#[derive(Clone, Copy, Debug, PartialEq, Eq, Structural)]
pub enum ChannelLayout {
    Rgbx,
    Xrgb,
    Bgrx,
    Xbgr,
    Rgb,
    Bgr,
}

impl ChannelLayout {
    pub open spec fn spec_channel_count(self) -> usize {
        match self {
            ChannelLayout::Rgb | ChannelLayout::Bgr => 3,
            _ => 4,
        }
    }

    /// Number of channels per pixel, padding included.
    #[verifier::when_used_as_spec(spec_channel_count)]
    pub fn channel_count(self) -> (r: usize)
        ensures
            r == self.spec_channel_count(),
    {
        match self {
            ChannelLayout::Rgb | ChannelLayout::Bgr => 3,
            _ => 4,
        }
    }

    /// Whether a fourth, unused channel is present.
    pub fn has_padding(self) -> (r: bool)
        ensures
            r == (self.spec_channel_count() == 4),
    {
        match self {
            ChannelLayout::Rgb | ChannelLayout::Bgr => false,
            _ => true,
        }
    }

    pub open spec fn spec_rgb_positions(self) -> (usize, usize, usize) {
        match self {
            ChannelLayout::Rgbx => (0, 1, 2),
            ChannelLayout::Xrgb => (1, 2, 3),
            ChannelLayout::Bgrx => (2, 1, 0),
            ChannelLayout::Xbgr => (3, 2, 1),
            ChannelLayout::Rgb => (0, 1, 2),
            ChannelLayout::Bgr => (2, 1, 0),
        }
    }

    /// Positions of the red, green and blue samples within one pixel.
    #[verifier::when_used_as_spec(spec_rgb_positions)]
    pub fn rgb_positions(self) -> (r: (usize, usize, usize))
        ensures
            r == self.spec_rgb_positions(),
            r.0 < self.spec_channel_count(),
            r.1 < self.spec_channel_count(),
            r.2 < self.spec_channel_count(),
            r.0 != r.1 && r.1 != r.2 && r.0 != r.2,
    {
        match self {
            ChannelLayout::Rgbx => (0, 1, 2),
            ChannelLayout::Xrgb => (1, 2, 3),
            ChannelLayout::Bgrx => (2, 1, 0),
            ChannelLayout::Xbgr => (3, 2, 1),
            ChannelLayout::Rgb => (0, 1, 2),
            ChannelLayout::Bgr => (2, 1, 0),
        }
    }
}

/// The supported frame buffer layouts. A host names one by its position in
/// this list (see `tag`), so the order is part of the external interface.
#[derive(Clone, Copy, Debug, PartialEq, Eq, Structural)]
pub enum NtscRsPixelFormat {
    Rgbx8,
    Xrgb8,
    Bgrx8,
    Xbgr8,
    Rgb8,
    Bgr8,
    Rgbx16,
    Xrgb16,
    Bgrx16,
    Xbgr16,
    Rgb16,
    Bgr16,
    Rgbx16s,
    Xrgb16s,
    Bgrx16s,
    Xbgr16s,
    Rgb16s,
    Bgr16s,
    Rgbx32f,
    Xrgb32f,
    Bgrx32f,
    Xbgr32f,
    Rgb32f,
    Bgr32f,
}

/// Number of pixel formats; the valid tags are `0..PIXEL_FORMAT_COUNT`.
pub const PIXEL_FORMAT_COUNT: u32 = 24;

impl NtscRsPixelFormat {
    pub open spec fn spec_tag(self) -> u32 {
        match self {
            NtscRsPixelFormat::Rgbx8 => 0,
            NtscRsPixelFormat::Xrgb8 => 1,
            NtscRsPixelFormat::Bgrx8 => 2,
            NtscRsPixelFormat::Xbgr8 => 3,
            NtscRsPixelFormat::Rgb8 => 4,
            NtscRsPixelFormat::Bgr8 => 5,
            NtscRsPixelFormat::Rgbx16 => 6,
            NtscRsPixelFormat::Xrgb16 => 7,
            NtscRsPixelFormat::Bgrx16 => 8,
            NtscRsPixelFormat::Xbgr16 => 9,
            NtscRsPixelFormat::Rgb16 => 10,
            NtscRsPixelFormat::Bgr16 => 11,
            NtscRsPixelFormat::Rgbx16s => 12,
            NtscRsPixelFormat::Xrgb16s => 13,
            NtscRsPixelFormat::Bgrx16s => 14,
            NtscRsPixelFormat::Xbgr16s => 15,
            NtscRsPixelFormat::Rgb16s => 16,
            NtscRsPixelFormat::Bgr16s => 17,
            NtscRsPixelFormat::Rgbx32f => 18,
            NtscRsPixelFormat::Xrgb32f => 19,
            NtscRsPixelFormat::Bgrx32f => 20,
            NtscRsPixelFormat::Xbgr32f => 21,
            NtscRsPixelFormat::Rgb32f => 22,
            NtscRsPixelFormat::Bgr32f => 23,
        }
    }

    /// The stable integer tag of this format.
    #[verifier::when_used_as_spec(spec_tag)]
    pub fn tag(self) -> (r: u32)
        ensures
            r == self.spec_tag(),
    {
        match self {
            NtscRsPixelFormat::Rgbx8 => 0,
            NtscRsPixelFormat::Xrgb8 => 1,
            NtscRsPixelFormat::Bgrx8 => 2,
            NtscRsPixelFormat::Xbgr8 => 3,
            NtscRsPixelFormat::Rgb8 => 4,
            NtscRsPixelFormat::Bgr8 => 5,
            NtscRsPixelFormat::Rgbx16 => 6,
            NtscRsPixelFormat::Xrgb16 => 7,
            NtscRsPixelFormat::Bgrx16 => 8,
            NtscRsPixelFormat::Xbgr16 => 9,
            NtscRsPixelFormat::Rgb16 => 10,
            NtscRsPixelFormat::Bgr16 => 11,
            NtscRsPixelFormat::Rgbx16s => 12,
            NtscRsPixelFormat::Xrgb16s => 13,
            NtscRsPixelFormat::Bgrx16s => 14,
            NtscRsPixelFormat::Xbgr16s => 15,
            NtscRsPixelFormat::Rgb16s => 16,
            NtscRsPixelFormat::Bgr16s => 17,
            NtscRsPixelFormat::Rgbx32f => 18,
            NtscRsPixelFormat::Xrgb32f => 19,
            NtscRsPixelFormat::Bgrx32f => 20,
            NtscRsPixelFormat::Xbgr32f => 21,
            NtscRsPixelFormat::Rgb32f => 22,
            NtscRsPixelFormat::Bgr32f => 23,
        }
    }

    pub open spec fn spec_from_tag(tag: u32) -> Option<NtscRsPixelFormat> {
        match tag {
            0 => Option::Some(NtscRsPixelFormat::Rgbx8),
            1 => Option::Some(NtscRsPixelFormat::Xrgb8),
            2 => Option::Some(NtscRsPixelFormat::Bgrx8),
            3 => Option::Some(NtscRsPixelFormat::Xbgr8),
            4 => Option::Some(NtscRsPixelFormat::Rgb8),
            5 => Option::Some(NtscRsPixelFormat::Bgr8),
            6 => Option::Some(NtscRsPixelFormat::Rgbx16),
            7 => Option::Some(NtscRsPixelFormat::Xrgb16),
            8 => Option::Some(NtscRsPixelFormat::Bgrx16),
            9 => Option::Some(NtscRsPixelFormat::Xbgr16),
            10 => Option::Some(NtscRsPixelFormat::Rgb16),
            11 => Option::Some(NtscRsPixelFormat::Bgr16),
            12 => Option::Some(NtscRsPixelFormat::Rgbx16s),
            13 => Option::Some(NtscRsPixelFormat::Xrgb16s),
            14 => Option::Some(NtscRsPixelFormat::Bgrx16s),
            15 => Option::Some(NtscRsPixelFormat::Xbgr16s),
            16 => Option::Some(NtscRsPixelFormat::Rgb16s),
            17 => Option::Some(NtscRsPixelFormat::Bgr16s),
            18 => Option::Some(NtscRsPixelFormat::Rgbx32f),
            19 => Option::Some(NtscRsPixelFormat::Xrgb32f),
            20 => Option::Some(NtscRsPixelFormat::Bgrx32f),
            21 => Option::Some(NtscRsPixelFormat::Xbgr32f),
            22 => Option::Some(NtscRsPixelFormat::Rgb32f),
            23 => Option::Some(NtscRsPixelFormat::Bgr32f),
            _ => Option::None,
        }
    }

    /// The format with the given tag; `None` for a tag outside the table.
    #[verifier::when_used_as_spec(spec_from_tag)]
    pub fn from_tag(tag: u32) -> (r: Option<NtscRsPixelFormat>)
        ensures
            r == Self::spec_from_tag(tag),
    {
        match tag {
            0 => Option::Some(NtscRsPixelFormat::Rgbx8),
            1 => Option::Some(NtscRsPixelFormat::Xrgb8),
            2 => Option::Some(NtscRsPixelFormat::Bgrx8),
            3 => Option::Some(NtscRsPixelFormat::Xbgr8),
            4 => Option::Some(NtscRsPixelFormat::Rgb8),
            5 => Option::Some(NtscRsPixelFormat::Bgr8),
            6 => Option::Some(NtscRsPixelFormat::Rgbx16),
            7 => Option::Some(NtscRsPixelFormat::Xrgb16),
            8 => Option::Some(NtscRsPixelFormat::Bgrx16),
            9 => Option::Some(NtscRsPixelFormat::Xbgr16),
            10 => Option::Some(NtscRsPixelFormat::Rgb16),
            11 => Option::Some(NtscRsPixelFormat::Bgr16),
            12 => Option::Some(NtscRsPixelFormat::Rgbx16s),
            13 => Option::Some(NtscRsPixelFormat::Xrgb16s),
            14 => Option::Some(NtscRsPixelFormat::Bgrx16s),
            15 => Option::Some(NtscRsPixelFormat::Xbgr16s),
            16 => Option::Some(NtscRsPixelFormat::Rgb16s),
            17 => Option::Some(NtscRsPixelFormat::Bgr16s),
            18 => Option::Some(NtscRsPixelFormat::Rgbx32f),
            19 => Option::Some(NtscRsPixelFormat::Xrgb32f),
            20 => Option::Some(NtscRsPixelFormat::Bgrx32f),
            21 => Option::Some(NtscRsPixelFormat::Xbgr32f),
            22 => Option::Some(NtscRsPixelFormat::Rgb32f),
            23 => Option::Some(NtscRsPixelFormat::Bgr32f),
            _ => Option::None,
        }
    }

    pub open spec fn spec_layout(self) -> ChannelLayout {
        match self {
            NtscRsPixelFormat::Rgbx8 => ChannelLayout::Rgbx,
            NtscRsPixelFormat::Xrgb8 => ChannelLayout::Xrgb,
            NtscRsPixelFormat::Bgrx8 => ChannelLayout::Bgrx,
            NtscRsPixelFormat::Xbgr8 => ChannelLayout::Xbgr,
            NtscRsPixelFormat::Rgb8 => ChannelLayout::Rgb,
            NtscRsPixelFormat::Bgr8 => ChannelLayout::Bgr,
            NtscRsPixelFormat::Rgbx16 => ChannelLayout::Rgbx,
            NtscRsPixelFormat::Xrgb16 => ChannelLayout::Xrgb,
            NtscRsPixelFormat::Bgrx16 => ChannelLayout::Bgrx,
            NtscRsPixelFormat::Xbgr16 => ChannelLayout::Xbgr,
            NtscRsPixelFormat::Rgb16 => ChannelLayout::Rgb,
            NtscRsPixelFormat::Bgr16 => ChannelLayout::Bgr,
            NtscRsPixelFormat::Rgbx16s => ChannelLayout::Rgbx,
            NtscRsPixelFormat::Xrgb16s => ChannelLayout::Xrgb,
            NtscRsPixelFormat::Bgrx16s => ChannelLayout::Bgrx,
            NtscRsPixelFormat::Xbgr16s => ChannelLayout::Xbgr,
            NtscRsPixelFormat::Rgb16s => ChannelLayout::Rgb,
            NtscRsPixelFormat::Bgr16s => ChannelLayout::Bgr,
            NtscRsPixelFormat::Rgbx32f => ChannelLayout::Rgbx,
            NtscRsPixelFormat::Xrgb32f => ChannelLayout::Xrgb,
            NtscRsPixelFormat::Bgrx32f => ChannelLayout::Bgrx,
            NtscRsPixelFormat::Xbgr32f => ChannelLayout::Xbgr,
            NtscRsPixelFormat::Rgb32f => ChannelLayout::Rgb,
            NtscRsPixelFormat::Bgr32f => ChannelLayout::Bgr,
        }
    }

    /// Channel order and padding of this format.
    #[verifier::when_used_as_spec(spec_layout)]
    pub fn layout(self) -> (r: ChannelLayout)
        ensures
            r == self.spec_layout(),
    {
        match self {
            NtscRsPixelFormat::Rgbx8 => ChannelLayout::Rgbx,
            NtscRsPixelFormat::Xrgb8 => ChannelLayout::Xrgb,
            NtscRsPixelFormat::Bgrx8 => ChannelLayout::Bgrx,
            NtscRsPixelFormat::Xbgr8 => ChannelLayout::Xbgr,
            NtscRsPixelFormat::Rgb8 => ChannelLayout::Rgb,
            NtscRsPixelFormat::Bgr8 => ChannelLayout::Bgr,
            NtscRsPixelFormat::Rgbx16 => ChannelLayout::Rgbx,
            NtscRsPixelFormat::Xrgb16 => ChannelLayout::Xrgb,
            NtscRsPixelFormat::Bgrx16 => ChannelLayout::Bgrx,
            NtscRsPixelFormat::Xbgr16 => ChannelLayout::Xbgr,
            NtscRsPixelFormat::Rgb16 => ChannelLayout::Rgb,
            NtscRsPixelFormat::Bgr16 => ChannelLayout::Bgr,
            NtscRsPixelFormat::Rgbx16s => ChannelLayout::Rgbx,
            NtscRsPixelFormat::Xrgb16s => ChannelLayout::Xrgb,
            NtscRsPixelFormat::Bgrx16s => ChannelLayout::Bgrx,
            NtscRsPixelFormat::Xbgr16s => ChannelLayout::Xbgr,
            NtscRsPixelFormat::Rgb16s => ChannelLayout::Rgb,
            NtscRsPixelFormat::Bgr16s => ChannelLayout::Bgr,
            NtscRsPixelFormat::Rgbx32f => ChannelLayout::Rgbx,
            NtscRsPixelFormat::Xrgb32f => ChannelLayout::Xrgb,
            NtscRsPixelFormat::Bgrx32f => ChannelLayout::Bgrx,
            NtscRsPixelFormat::Xbgr32f => ChannelLayout::Xbgr,
            NtscRsPixelFormat::Rgb32f => ChannelLayout::Rgb,
            NtscRsPixelFormat::Bgr32f => ChannelLayout::Bgr,
        }
    }

    pub open spec fn spec_element_type(self) -> ElementType {
        match self {
            NtscRsPixelFormat::Rgbx8 => ElementType::U8,
            NtscRsPixelFormat::Xrgb8 => ElementType::U8,
            NtscRsPixelFormat::Bgrx8 => ElementType::U8,
            NtscRsPixelFormat::Xbgr8 => ElementType::U8,
            NtscRsPixelFormat::Rgb8 => ElementType::U8,
            NtscRsPixelFormat::Bgr8 => ElementType::U8,
            NtscRsPixelFormat::Rgbx16 => ElementType::U16,
            NtscRsPixelFormat::Xrgb16 => ElementType::U16,
            NtscRsPixelFormat::Bgrx16 => ElementType::U16,
            NtscRsPixelFormat::Xbgr16 => ElementType::U16,
            NtscRsPixelFormat::Rgb16 => ElementType::U16,
            NtscRsPixelFormat::Bgr16 => ElementType::U16,
            NtscRsPixelFormat::Rgbx16s => ElementType::I16,
            NtscRsPixelFormat::Xrgb16s => ElementType::I16,
            NtscRsPixelFormat::Bgrx16s => ElementType::I16,
            NtscRsPixelFormat::Xbgr16s => ElementType::I16,
            NtscRsPixelFormat::Rgb16s => ElementType::I16,
            NtscRsPixelFormat::Bgr16s => ElementType::I16,
            NtscRsPixelFormat::Rgbx32f => ElementType::F32,
            NtscRsPixelFormat::Xrgb32f => ElementType::F32,
            NtscRsPixelFormat::Bgrx32f => ElementType::F32,
            NtscRsPixelFormat::Xbgr32f => ElementType::F32,
            NtscRsPixelFormat::Rgb32f => ElementType::F32,
            NtscRsPixelFormat::Bgr32f => ElementType::F32,
        }
    }

    /// Representation of one channel sample in this format.
    #[verifier::when_used_as_spec(spec_element_type)]
    pub fn element_type(self) -> (r: ElementType)
        ensures
            r == self.spec_element_type(),
    {
        match self {
            NtscRsPixelFormat::Rgbx8 => ElementType::U8,
            NtscRsPixelFormat::Xrgb8 => ElementType::U8,
            NtscRsPixelFormat::Bgrx8 => ElementType::U8,
            NtscRsPixelFormat::Xbgr8 => ElementType::U8,
            NtscRsPixelFormat::Rgb8 => ElementType::U8,
            NtscRsPixelFormat::Bgr8 => ElementType::U8,
            NtscRsPixelFormat::Rgbx16 => ElementType::U16,
            NtscRsPixelFormat::Xrgb16 => ElementType::U16,
            NtscRsPixelFormat::Bgrx16 => ElementType::U16,
            NtscRsPixelFormat::Xbgr16 => ElementType::U16,
            NtscRsPixelFormat::Rgb16 => ElementType::U16,
            NtscRsPixelFormat::Bgr16 => ElementType::U16,
            NtscRsPixelFormat::Rgbx16s => ElementType::I16,
            NtscRsPixelFormat::Xrgb16s => ElementType::I16,
            NtscRsPixelFormat::Bgrx16s => ElementType::I16,
            NtscRsPixelFormat::Xbgr16s => ElementType::I16,
            NtscRsPixelFormat::Rgb16s => ElementType::I16,
            NtscRsPixelFormat::Bgr16s => ElementType::I16,
            NtscRsPixelFormat::Rgbx32f => ElementType::F32,
            NtscRsPixelFormat::Xrgb32f => ElementType::F32,
            NtscRsPixelFormat::Bgrx32f => ElementType::F32,
            NtscRsPixelFormat::Xbgr32f => ElementType::F32,
            NtscRsPixelFormat::Rgb32f => ElementType::F32,
            NtscRsPixelFormat::Bgr32f => ElementType::F32,
        }
    }

    /// Byte stride of one pixel, as the engine's format table gives it.
    pub open spec fn spec_bytes_per_pixel(self) -> usize {
        match self {
            NtscRsPixelFormat::Rgbx8 => 4,
            NtscRsPixelFormat::Xrgb8 => 4,
            NtscRsPixelFormat::Bgrx8 => 4,
            NtscRsPixelFormat::Xbgr8 => 4,
            NtscRsPixelFormat::Rgb8 => 3,
            NtscRsPixelFormat::Bgr8 => 3,
            NtscRsPixelFormat::Rgbx16 => 8,
            NtscRsPixelFormat::Xrgb16 => 8,
            NtscRsPixelFormat::Bgrx16 => 8,
            NtscRsPixelFormat::Xbgr16 => 8,
            NtscRsPixelFormat::Rgb16 => 6,
            NtscRsPixelFormat::Bgr16 => 6,
            NtscRsPixelFormat::Rgbx16s => 8,
            NtscRsPixelFormat::Xrgb16s => 8,
            NtscRsPixelFormat::Bgrx16s => 8,
            NtscRsPixelFormat::Xbgr16s => 8,
            NtscRsPixelFormat::Rgb16s => 6,
            NtscRsPixelFormat::Bgr16s => 6,
            NtscRsPixelFormat::Rgbx32f => 16,
            NtscRsPixelFormat::Xrgb32f => 16,
            NtscRsPixelFormat::Bgrx32f => 16,
            NtscRsPixelFormat::Xbgr32f => 16,
            NtscRsPixelFormat::Rgb32f => 12,
            NtscRsPixelFormat::Bgr32f => 12,
        }
    }

    /// Byte stride of one pixel.
    #[verifier::when_used_as_spec(spec_bytes_per_pixel)]
    pub fn bytes_per_pixel(self) -> (r: usize)
        ensures
            r == self.spec_bytes_per_pixel(),
            r > 0,
    {
        match self {
            NtscRsPixelFormat::Rgbx8 => 4,
            NtscRsPixelFormat::Xrgb8 => 4,
            NtscRsPixelFormat::Bgrx8 => 4,
            NtscRsPixelFormat::Xbgr8 => 4,
            NtscRsPixelFormat::Rgb8 => 3,
            NtscRsPixelFormat::Bgr8 => 3,
            NtscRsPixelFormat::Rgbx16 => 8,
            NtscRsPixelFormat::Xrgb16 => 8,
            NtscRsPixelFormat::Bgrx16 => 8,
            NtscRsPixelFormat::Xbgr16 => 8,
            NtscRsPixelFormat::Rgb16 => 6,
            NtscRsPixelFormat::Bgr16 => 6,
            NtscRsPixelFormat::Rgbx16s => 8,
            NtscRsPixelFormat::Xrgb16s => 8,
            NtscRsPixelFormat::Bgrx16s => 8,
            NtscRsPixelFormat::Xbgr16s => 8,
            NtscRsPixelFormat::Rgb16s => 6,
            NtscRsPixelFormat::Bgr16s => 6,
            NtscRsPixelFormat::Rgbx32f => 16,
            NtscRsPixelFormat::Xrgb32f => 16,
            NtscRsPixelFormat::Bgrx32f => 16,
            NtscRsPixelFormat::Xbgr32f => 16,
            NtscRsPixelFormat::Rgb32f => 12,
            NtscRsPixelFormat::Bgr32f => 12,
        }
    }
}

/// Every format's byte stride is its channel count times its sample width,
/// and is positive.
pub proof fn lemma_bytes_per_pixel_consistent(f: NtscRsPixelFormat)
    ensures
        f.spec_bytes_per_pixel() > 0,
        f.spec_bytes_per_pixel() as int == f.spec_layout().spec_channel_count() as int
            * f.spec_element_type().spec_size_in_bytes() as int,
{
    let c = f.spec_layout().spec_channel_count() as int;
    let s = f.spec_element_type().spec_size_in_bytes() as int;
    assert(c == 3 || c == 4);
    assert(s == 1 || s == 2 || s == 4);
    match f {
        NtscRsPixelFormat::Rgb8 | NtscRsPixelFormat::Bgr8 => assert(c * s == 3 * 1),
        NtscRsPixelFormat::Rgb16 | NtscRsPixelFormat::Bgr16 => assert(c * s == 3 * 2),
        NtscRsPixelFormat::Rgb16s | NtscRsPixelFormat::Bgr16s => assert(c * s == 3 * 2),
        NtscRsPixelFormat::Rgb32f | NtscRsPixelFormat::Bgr32f => assert(c * s == 3 * 4),
        NtscRsPixelFormat::Rgbx8 | NtscRsPixelFormat::Xrgb8 | NtscRsPixelFormat::Bgrx8
        | NtscRsPixelFormat::Xbgr8 => assert(c * s == 4 * 1),
        NtscRsPixelFormat::Rgbx16 | NtscRsPixelFormat::Xrgb16 | NtscRsPixelFormat::Bgrx16
        | NtscRsPixelFormat::Xbgr16 => assert(c * s == 4 * 2),
        NtscRsPixelFormat::Rgbx16s | NtscRsPixelFormat::Xrgb16s | NtscRsPixelFormat::Bgrx16s
        | NtscRsPixelFormat::Xbgr16s => assert(c * s == 4 * 2),
        NtscRsPixelFormat::Rgbx32f | NtscRsPixelFormat::Xrgb32f | NtscRsPixelFormat::Bgrx32f
        | NtscRsPixelFormat::Xbgr32f => assert(c * s == 4 * 4),
    }
}

/// The tag table is a bijection between the formats and `0..PIXEL_FORMAT_COUNT`.
pub proof fn lemma_tag_bijection()
    ensures
        forall|f: NtscRsPixelFormat| #[trigger] f.spec_tag() < PIXEL_FORMAT_COUNT
            && NtscRsPixelFormat::spec_from_tag(f.spec_tag()) == Option::Some(f),
        forall|t: u32| #[trigger] NtscRsPixelFormat::spec_from_tag(t) is Some <==> t < PIXEL_FORMAT_COUNT,
        forall|t: u32| #[trigger] NtscRsPixelFormat::spec_from_tag(t) is Some
            ==> NtscRsPixelFormat::spec_from_tag(t)->0.spec_tag() == t,
{
}

} // verus!
