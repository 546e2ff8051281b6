//! RGB frames, their scaling, and their form as textures.

use vstd::prelude::*;

verus! {

/// The greatest width or height that frames are scaled to.
///
/// Up to it the centre of each new pixel, computed in single precision, stays near enough
/// to a pixel of the source that its filter weights do not all vanish.
pub const MAX_SCALED_SIDE: u32 = 4_194_304;

/// A single-precision number, carried by its bit pattern and never computed with.
#[derive(Debug, Clone, Copy, PartialEq, Eq, Structural)]
pub struct SingleBits {
    pub bits: u32,
}

/// What a frame is: its dimensions and its bytes, three to a pixel, row by row. Bytes that
/// follow those of the last pixel belong to none.
pub struct FrameView {
    pub width: u32,
    pub height: u32,
    pub pixels: Seq<u8>,
}

/// The number of bytes of an RGB frame of the given dimensions.
pub open spec fn rgb_len(width: u32, height: u32) -> int {
    3 * (width * height)
}

impl FrameView {
    pub open spec fn wf(self) -> bool {
        self.pixels.len() >= rgb_len(self.width, self.height)
    }

    /// Whether there are no bytes beyond those of the pixels.
    pub open spec fn exact(self) -> bool {
        self.pixels.len() == rgb_len(self.width, self.height)
    }

    /// The bytes of the pixels.
    pub open spec fn rgb(self) -> Seq<u8> {
        self.pixels.take(rgb_len(self.width, self.height))
    }

    /// The byte of channel `channel` (red, green, blue) of the pixel at (`x`, `y`).
    pub open spec fn channel(self, x: int, y: int, channel: int) -> u8 {
        self.pixels[3 * (y * self.width + x) + channel]
    }
}

/// An RGB frame that holds three bytes for each of its pixels, and perhaps some to spare.
#[derive(Debug, PartialEq, Eq)]
pub struct RgbFrame {
    width: u32,
    height: u32,
    pixels: Vec<u8>,
}

impl View for RgbFrame {
    type V = FrameView;

    closed spec fn view(&self) -> FrameView {
        FrameView { width: self.width, height: self.height, pixels: self.pixels@ }
    }
}

impl RgbFrame {
    #[verifier::type_invariant]
    spec fn enough(self) -> bool {
        self.pixels@.len() >= rgb_len(self.width, self.height)
    }

    /// The frame of these bytes, if there are three for each pixel.
    pub fn from_raw(width: u32, height: u32, pixels: Vec<u8>) -> (frame: Option<RgbFrame>)
        ensures
            frame is Some <==> pixels@.len() >= rgb_len(width, height),
            frame matches Some(f) ==> f@ == (FrameView { width, height, pixels: pixels@ }),
    {
        let area: u64 = area_of(width, height);
        let have: u64 = pixels.len() as u64;
        if have / 3 >= area {
            Some(RgbFrame { width, height, pixels })
        } else {
            None
        }
    }

    pub fn width(&self) -> (width: u32)
        ensures
            width == self@.width,
            self@.wf(),
    {
        proof {
            use_type_invariant(self);
        }
        self.width
    }

    pub fn height(&self) -> (height: u32)
        ensures
            height == self@.height,
            self@.wf(),
    {
        proof {
            use_type_invariant(self);
        }
        self.height
    }

    pub fn as_raw(&self) -> (pixels: &Vec<u8>)
        ensures
            pixels@ == self@.pixels,
            self@.wf(),
    {
        proof {
            use_type_invariant(self);
        }
        &self.pixels
    }

    /// Whether there are no bytes beyond those of the pixels.
    pub fn is_exact(&self) -> (yes: bool)
        ensures
            yes == self@.exact(),
            self@.wf(),
    {
        proof {
            use_type_invariant(self);
        }
        let area: u64 = area_of(self.width, self.height);
        let have: u64 = self.pixels.len() as u64;
        have / 3 == area && have % 3 == 0
    }

    /// The bytes of the pixels.
    pub fn rgb_bytes(&self) -> (bytes: &[u8])
        ensures
            bytes@ == self@.rgb(),
            bytes@.len() == rgb_len(self@.width, self@.height),
    {
        proof {
            use_type_invariant(self);
        }
        let area: u64 = area_of(self.width, self.height);
        let have: usize = self.pixels.len();
        assert(3 * area <= have);
        vstd::slice::slice_subrange(self.pixels.as_slice(), 0, (3 * area) as usize)
    }

    /// A second frame with the same contents.
    pub fn duplicate(&self) -> (copy: RgbFrame)
        ensures
            copy@ == self@,
    {
        proof {
            use_type_invariant(self);
        }
        let pixels = self.pixels.clone();
        assert(pixels@ =~= self.pixels@);
        RgbFrame { width: self.width, height: self.height, pixels }
    }
}

/// Whether frames of these dimensions can be scaled to the new ones: they are the same, or
/// no new side is longer than [`MAX_SCALED_SIDE`]; and the buffers that the scaling needs (a
/// growing list of weights for a row or a column, four single-precision numbers for each
/// pixel of the half-way image, three bytes for each of the result) fit into memory.
pub open spec fn scalable(width: u32, height: u32, new_width: u32, new_height: u32) -> bool {
    &&& 8 * width <= isize::MAX
    &&& 8 * height <= isize::MAX
    &&& (width == new_width && height == new_height) || (new_width <= MAX_SCALED_SIDE
        && new_height <= MAX_SCALED_SIDE && 16 * (width * new_height) <= isize::MAX)
    &&& rgb_len(new_width, new_height) <= isize::MAX
}

/// Tests [`scalable`].
pub fn can_scale(width: u32, height: u32, new_width: u32, new_height: u32) -> (yes: bool)
    ensures
        yes == scalable(width, height, new_width, new_height),
{
    let halfway: u64 = area_of(width, new_height);
    let area: u64 = area_of(new_width, new_height);
    let most: u64 = isize::MAX as u64;
    width as u64 <= most / 8 && height as u64 <= most / 8 && ((width == new_width && height
        == new_height) || (new_width <= MAX_SCALED_SIDE && new_height <= MAX_SCALED_SIDE && halfway
        <= most / 16)) && area <= most / 3
}

/// The bytes of an RGB image scaled to new dimensions with a triangle filter.
pub uninterp spec fn scaled_rgb(
    width: u32,
    height: u32,
    pixels: Seq<u8>,
    new_width: u32,
    new_height: u32,
) -> Seq<u8>;

/// Calls `image::imageops::resize` with `FilterType::Triangle`.
///
/// Not proved: that the result is a function of the arguments, `scaled_rgb`; that it
/// holds three bytes for each pixel of the new dimensions; that scaling to the same
/// dimensions copies the image; and that scaling an image without pixels gives black.
#[verifier::external_body]
fn resize_triangle(width: u32, height: u32, pixels: &[u8], new_width: u32, new_height: u32) -> (scaled:
    Vec<u8>)
    requires
        pixels@.len() == rgb_len(width, height),
        scalable(width, height, new_width, new_height),
    ensures
        scaled@ == scaled_rgb(width, height, pixels@, new_width, new_height),
        scaled@.len() == rgb_len(new_width, new_height),
        width == new_width && height == new_height ==> scaled@ == pixels@,
        width == 0 || height == 0 ==> forall|i: int| 0 <= i < scaled@.len() ==> scaled@[i] == 0,
{
    let source: image::ImageBuffer<image::Rgb<u8>, &[u8]> =
        image::ImageBuffer::from_raw(width, height, pixels).unwrap();
    image::imageops::resize(
        &source,
        new_width,
        new_height,
        image::imageops::FilterType::Triangle,
    ).into_raw()
}

/// The frame scaled to the given dimensions with a triangle filter.
pub fn scale(frame: &RgbFrame, new_width: u32, new_height: u32) -> (scaled: RgbFrame)
    requires
        scalable(frame@.width, frame@.height, new_width, new_height),
    ensures
        scaled@ == (FrameView {
            width: new_width,
            height: new_height,
            pixels: scaled_rgb(
                frame@.width,
                frame@.height,
                frame@.rgb(),
                new_width,
                new_height,
            ),
        }),
        scaled@.exact(),
        frame@.width == new_width && frame@.height == new_height ==> scaled@.pixels == frame@.rgb(),
        frame@.width == 0 || frame@.height == 0 ==> forall|i: int|
            0 <= i < scaled@.pixels.len() ==> scaled@.pixels[i] == 0,
{
    let scaled = resize_triangle(
        frame.width(),
        frame.height(),
        frame.rgb_bytes(),
        new_width,
        new_height,
    );
    RgbFrame { width: new_width, height: new_height, pixels: scaled }
}

/// Makes `egui::ColorImage` known. What such an image holds is told by [`texture_size`] and
/// [`texture_pixels`].
#[verifier::external_type_specification]
#[verifier::external_body]
pub struct ExColorImage(eframe::egui::ColorImage);

/// The width and height of a texture image.
pub uninterp spec fn texture_size(image: eframe::egui::ColorImage) -> (usize, usize);

/// The pixels of a texture image, row by row: red, green, blue and opacity.
pub uninterp spec fn texture_pixels(image: eframe::egui::ColorImage) -> Seq<(u8, u8, u8, u8)>;

/// RGB bytes as fully opaque pixels.
pub open spec fn opaque_pixels(rgb: Seq<u8>) -> Seq<(u8, u8, u8, u8)> {
    Seq::new(
        (rgb.len() / 3) as nat,
        |i: int| (rgb[3 * i], rgb[3 * i + 1], rgb[3 * i + 2], 255u8),
    )
}

/// Calls `egui::ColorImage::from_rgb`.
///
/// Not proved: that the image has the given size, and that its pixels are the given
/// ones, in order and fully opaque.
#[verifier::external_body]
fn color_image(width: usize, height: usize, rgb: &[u8]) -> (image: eframe::egui::ColorImage)
    requires
        3 * (width * height) == rgb@.len(),
    ensures
        texture_size(image) == (width, height),
        texture_pixels(image) == opaque_pixels(rgb@),
{
    eframe::egui::ColorImage::from_rgb([width, height], rgb)
}

/// The frame, which has no bytes to spare, as an image that can be uploaded as a texture.
pub fn texture_image(frame: &RgbFrame) -> (image: eframe::egui::ColorImage)
    requires
        frame@.exact(),
    ensures
        texture_size(image) == (frame@.width as usize, frame@.height as usize),
        texture_pixels(image) == opaque_pixels(frame@.pixels),
{
    let pixels: &Vec<u8> = frame.as_raw();
    color_image(frame.width() as usize, frame.height() as usize, pixels.as_slice())
}

pub(crate) fn area_of(width: u32, height: u32) -> (area: u64)
    ensures
        area == width * height,
{
    proof {
        lemma_area_fits(width, height);
    }
    (width as u64) * (height as u64)
}

proof fn lemma_area_fits(width: u32, height: u32)
    ensures
        0 <= width * height <= 0xFFFF_FFFE_0000_0001,
{
    assert(0 <= width * height <= 0xFFFF_FFFE_0000_0001) by (nonlinear_arith)
        requires
            0 <= width <= 0xFFFF_FFFF,
            0 <= height <= 0xFFFF_FFFF,
    ;
}

/// A frame has three bytes for each of its pixels and perhaps more; it is exact if there are no
/// more, and the bytes of its pixels are the first ones.
pub proof fn law_frame_bytes(frame: FrameView)
    ensures
        frame.wf() <==> frame.pixels.len() >= 3 * (frame.width * frame.height),
        frame.exact() <==> frame.pixels.len() == 3 * (frame.width * frame.height),
        frame.wf() ==> frame.rgb().len() == 3 * (frame.width * frame.height),
        forall|i: int|
            frame.wf() && 0 <= i < frame.rgb().len() ==> frame.rgb()[i] == frame.pixels[i],
        frame.exact() ==> frame.rgb() == frame.pixels,
{
    lemma_area_fits(frame.width, frame.height);
    if frame.exact() {
        assert(frame.rgb() =~= frame.pixels);
    }
}

/// Frames of up to 8192 columns and rows, and so all that cameras deliver, can be scaled to any
/// size of up to as many.
pub proof fn law_ordinary_frames_can_be_scaled(
    width: u32,
    height: u32,
    new_width: u32,
    new_height: u32,
)
    requires
        width <= 8192,
        height <= 8192,
        new_width <= 8192,
        new_height <= 8192,
    ensures
        scalable(width, height, new_width, new_height),
{
    assert(16 * (width * new_height) <= 0x4000_0000) by (nonlinear_arith)
        requires
            0 <= width <= 8192,
            0 <= new_height <= 8192,
    ;
    assert(3 * (new_width * new_height) <= 0x4000_0000) by (nonlinear_arith)
        requires
            0 <= new_width <= 8192,
            0 <= new_height <= 8192,
    ;
    assert(isize::MAX >= 0x7FFF_FFFF);
}

/// Nothing but memory, and the length of the new sides where they differ, keeps a frame from
/// being scaled.
pub proof fn law_memory_bounds_scaling(width: u32, height: u32, new_width: u32, new_height: u32)
    requires
        8 * width <= isize::MAX,
        8 * height <= isize::MAX,
        16 * (width * new_height) <= isize::MAX,
        3 * (new_width * new_height) <= isize::MAX,
    ensures
        new_width <= 4_194_304 && new_height <= 4_194_304 ==> scalable(
            width,
            height,
            new_width,
            new_height,
        ),
        scalable(width, height, new_width, new_height) ==> (new_width <= 4_194_304 && new_height
            <= 4_194_304) || (new_width == width && new_height == height),
{
}

} // verus!
