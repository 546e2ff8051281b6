//! Uncompressed camera images as RGB frames.

use crate::frame::{FrameView, RgbFrame, rgb_len};
use vstd::prelude::*;

verus! {

/// The uncompressed formats in which cameras deliver images.
#[derive(Debug, Clone, Copy, PartialEq, Eq, Structural)]
pub enum RawFormat {
    Yuyv,
    Nv12,
    Gray,
    RawRgb,
    RawBgr,
}

/// An image as a camera delivers it.
#[derive(Debug, PartialEq, Eq)]
pub struct RawImage {
    pub format: RawFormat,
    pub width: u32,
    pub height: u32,
    pub data: Vec<u8>,
}

/// Whether the decoder can be given an image: the sizes that it computes fit into its
/// numbers and into memory, and a bi-planar image that is otherwise in order has rows to go
/// through.
pub open spec fn decodable(format: RawFormat, width: u32, height: u32, len: nat) -> bool {
    &&& 6 * len <= isize::MAX
    &&& format == RawFormat::Nv12 ==> {
        &&& 3 * width <= u32::MAX
        &&& rgb_len(width, height) <= u32::MAX
        &&& rgb_len(width, height) <= isize::MAX
        &&& !(width == 0 && height % 2 == 0 && len == 0)
    }
}

/// Whether the data of an image are as many as its format and dimensions ask for.
pub open spec fn enough_data(format: RawFormat, width: u32, height: u32, len: nat) -> bool {
    let needed = rgb_len(width, height);
    match format {
        RawFormat::Yuyv => len % 4 == 0 && needed <= 6 * (len / 4) && 3 * width <= usize::MAX,
        RawFormat::Nv12 => width % 2 == 0 && height % 2 == 0 && needed == 2 * len,
        RawFormat::Gray => needed <= 3 * len && 3 * width <= usize::MAX,
        RawFormat::RawRgb | RawFormat::RawBgr => needed <= len && 3 * width <= usize::MAX,
    }
}

/// What the decoder complains of where the data are not as many as they should be.
pub open spec fn complaint(format: RawFormat, width: u32, height: u32, len: nat) -> Seq<char> {
    match format {
        RawFormat::Yuyv => if len % 4 != 0 {
            "Could not process frame YUYV to RGB888: Assertion failure, the YUV stream isn't 4:2:2! (wrong number of bytes)"@
        } else {
            "Could not process frame YUYV to F: Failed to create buffer"@
        },
        RawFormat::Nv12 => if width % 2 != 0 || height % 2 != 0 {
            "Could not process frame NV12 to RGB: bad resolution"@
        } else {
            "Could not process frame NV12 to RGB: bad input buffer size"@
        },
        RawFormat::Gray => "Could not process frame GRAY to F: Failed to create buffer"@,
        RawFormat::RawRgb => "Could not process frame RAWRGB to F: Failed to create buffer"@,
        RawFormat::RawBgr => "Could not process frame RAWBGR to F: Failed to create buffer"@,
    }
}

/// A number as the nearest byte.
pub open spec fn nearest_byte(n: int) -> u8 {
    if n < 0 {
        0
    } else if n > 255 {
        255
    } else {
        n as u8
    }
}

/// A channel (red, green, blue) of the colour with the given luma and chroma.
pub open spec fn yuv_channel(y: u8, u: u8, v: u8, channel: int) -> u8 {
    let luma = 298 * (y - 16) + 128;
    nearest_byte(
        if channel == 0 {
            (luma + 409 * (v - 128)) / 256
        } else if channel == 1 {
            (luma - 100 * (u - 128) - 208 * (v - 128)) / 256
        } else {
            (luma + 516 * (u - 128)) / 256
        },
    )
}

/// Pairs of pixels in four bytes each, two lumas and the chroma between and after them, as
/// RGB.
pub open spec fn yuyv_rgb(data: Seq<u8>) -> Seq<u8> {
    Seq::new(
        6 * (data.len() / 4),
        |i: int|
            {
                let at = 4 * (i / 6);
                yuv_channel(data[at + 2 * ((i % 6) / 3)], data[at + 1], data[at + 3], i % 3)
            },
    )
}

/// A plane of lumas, and after it one of the chroma of each two by two pixels, as RGB.
pub open spec fn nv12_rgb(width: u32, height: u32, data: Seq<u8>) -> Seq<u8> {
    Seq::new(
        rgb_len(width, height) as nat,
        |i: int|
            {
                let row = (i / 3) / (width as int);
                let column = (i / 3) % (width as int);
                let chroma = width * height + (row / 2) * width + 2 * (column / 2);
                yuv_channel(data[i / 3], data[chroma], data[chroma + 1], i % 3)
            },
    )
}

/// Grey levels as RGB.
pub open spec fn gray_rgb(data: Seq<u8>) -> Seq<u8> {
    Seq::new((3 * data.len()) as nat, |i: int| data[i / 3])
}

/// Blue, green, red as red, green, blue; bytes that make no pixel become zero.
pub open spec fn bgr_rgb(data: Seq<u8>) -> Seq<u8> {
    Seq::new(
        data.len(),
        |i: int|
            if i < 3 * (data.len() / 3) {
                data[3 * (i / 3) + (2 - i % 3)]
            } else {
                0u8
            },
    )
}

/// The RGB bytes of an uncompressed image, bytes to spare among them, or the decoder's
/// complaint.
pub open spec fn decoded_rgb(
    format: RawFormat,
    width: u32,
    height: u32,
    data: Seq<u8>,
) -> Result<Seq<u8>, Seq<char>> {
    if enough_data(format, width, height, data.len()) {
        Ok(
            match format {
                RawFormat::Yuyv => yuyv_rgb(data),
                RawFormat::Nv12 => nv12_rgb(width, height, data),
                RawFormat::Gray => gray_rgb(data),
                RawFormat::RawRgb => data,
                RawFormat::RawBgr => bgr_rgb(data),
            },
        )
    } else {
        Err(complaint(format, width, height, data.len()))
    }
}

/// Calls `nokhwa::Buffer::decode_image` for `RgbFormat`.
///
/// Not proved: that it complains, and with these words, exactly where the data are not as
/// many as the format and the dimensions ask for; and that otherwise it gives the data's
/// RGB bytes: luma and chroma by their formula, grey levels repeated, RGB copied, and BGR
/// reversed, pixel by pixel.
#[verifier::external_body]
fn decode_rgb(format: RawFormat, width: u32, height: u32, data: &[u8]) -> (decoded: Result<
    Vec<u8>,
    String,
>)
    requires
        decodable(format, width, height, data@.len()),
    ensures
        match (decoded, decoded_rgb(format, width, height, data@)) {
            (Ok(rgb), Ok(named)) => rgb@ == named,
            (Err(text), Err(named)) => text@ == named,
            _ => false,
        },
{
    let source = match format {
        RawFormat::Yuyv => nokhwa::utils::FrameFormat::YUYV,
        RawFormat::Nv12 => nokhwa::utils::FrameFormat::NV12,
        RawFormat::Gray => nokhwa::utils::FrameFormat::GRAY,
        RawFormat::RawRgb => nokhwa::utils::FrameFormat::RAWRGB,
        RawFormat::RawBgr => nokhwa::utils::FrameFormat::RAWBGR,
    };
    let buffer = nokhwa::Buffer::new(nokhwa::utils::Resolution::new(width, height), data, source);
    match buffer.decode_image::<nokhwa::pixel_format::RgbFormat>() {
        Ok(image) => Ok(image.into_raw()),
        Err(error) => Err(format!("{error:#}")),
    }
}

/// What becomes of decoded bytes: the frame of all of them, or the complaint.
pub open spec fn framed(width: u32, height: u32, decoded: Result<Seq<u8>, Seq<char>>) -> Result<
    FrameView,
    Seq<char>,
> {
    match decoded {
        Ok(rgb) => Ok(FrameView { width, height, pixels: rgb }),
        Err(text) => Err(text),
    }
}

/// The meaning of a decoded frame or a complaint.
pub open spec fn framed_view(result: Result<RgbFrame, String>) -> Result<FrameView, Seq<char>> {
    match result {
        Ok(frame) => Ok(frame@),
        Err(text) => Err(text@),
    }
}

/// Makes a frame of decoded bytes, of which there are enough.
pub fn frame_from_decoded(width: u32, height: u32, decoded: Result<Vec<u8>, String>) -> (result:
    Result<RgbFrame, String>)
    requires
        decoded matches Ok(rgb) ==> rgb@.len() >= rgb_len(width, height),
    ensures
        framed_view(result) == framed(
            width,
            height,
            match decoded {
                Ok(rgb) => Ok(rgb@),
                Err(text) => Err(text@),
            },
        ),
{
    match decoded {
        Ok(rgb) => Ok(RgbFrame::from_raw(width, height, rgb).unwrap()),
        Err(text) => Err(text),
    }
}

/// Decodes an uncompressed image. It is a frame if and only if there are enough data for
/// its format and dimensions, else a complaint.
pub fn decode_frame(image: &RawImage) -> (result: Result<RgbFrame, String>)
    requires
        decodable(image.format, image.width, image.height, image.data@.len()),
    ensures
        framed_view(result) == framed(
            image.width,
            image.height,
            decoded_rgb(image.format, image.width, image.height, image.data@),
        ),
        result is Ok <==> enough_data(
            image.format,
            image.width,
            image.height,
            image.data@.len(),
        ),
        result matches Ok(frame) ==> frame@.wf(),
{
    let decoded = decode_rgb(image.format, image.width, image.height, image.data.as_slice());
    frame_from_decoded(image.width, image.height, decoded)
}

/// A grey image shows at each pixel the level that is delivered for it.
pub proof fn law_gray_pixel(data: Seq<u8>, pixel: int, channel: int)
    requires
        0 <= pixel < data.len(),
        0 <= channel < 3,
    ensures
        gray_rgb(data)[3 * pixel + channel] == data[pixel],
{
}

/// An image in blue, green, red shows at each pixel the three bytes that are delivered for
/// it in reverse.
pub proof fn law_bgr_pixel(data: Seq<u8>, pixel: int, channel: int)
    requires
        0 <= pixel < data.len() / 3,
        0 <= channel < 3,
    ensures
        bgr_rgb(data)[3 * pixel + channel] == data[3 * pixel + (2 - channel)],
{
}

/// Without colour in its chroma a pixel is grey, and the brighter the greater its luma.
pub proof fn law_neutral_chroma_is_grey(y: u8, brighter: u8, channel: int)
    requires
        y <= brighter,
        0 <= channel < 3,
    ensures
        yuv_channel(y, 128, 128, channel) == yuv_channel(y, 128, 128, 0),
        yuv_channel(y, 128, 128, channel) <= yuv_channel(brighter, 128, 128, channel),
{
}

/// The two pixels of a pair share their chroma, and so do the four of a square of the
/// bi-planar format.
pub proof fn law_chroma_is_shared(
    data: Seq<u8>,
    planes: Seq<u8>,
    width: u32,
    height: u32,
    pair: int,
    row: int,
    column: int,
    channel: int,
)
    requires
        0 <= pair < data.len() / 4,
        0 <= row < height,
        0 <= column < width,
        0 <= channel < 3,
    ensures
        yuyv_rgb(data)[6 * pair + channel] == yuv_channel(
            data[4 * pair],
            data[4 * pair + 1],
            data[4 * pair + 3],
            channel,
        ),
        yuyv_rgb(data)[6 * pair + 3 + channel] == yuv_channel(
            data[4 * pair + 2],
            data[4 * pair + 1],
            data[4 * pair + 3],
            channel,
        ),
        nv12_rgb(width, height, planes)[3 * (row * width + column) + channel] == ({
            let chroma = width * height + (row / 2) * width + 2 * (column / 2);
            yuv_channel(
                planes[row * width + column],
                planes[chroma],
                planes[chroma + 1],
                channel,
            )
        }),
{
    let w = width as int;
    let pixel = row * w + column;
    assert(pixel / w == row && pixel % w == column && 0 <= pixel < w * height) by (nonlinear_arith)
        requires
            pixel == row * w + column,
            0 <= column < w,
            0 <= row < height,
    ;
    assert((3 * pixel + channel) / 3 == pixel);
    assert((3 * pixel + channel) % 3 == channel);
    let i = 6 * pair + channel;
    assert(i / 6 == pair && i % 6 == channel && i % 3 == channel);
    let j = 6 * pair + 3 + channel;
    assert(j / 6 == pair && j % 6 == 3 + channel && j % 3 == channel);
}

/// Tests [`decodable`].
pub fn can_decode(image: &RawImage) -> (yes: bool)
    ensures
        yes == decodable(image.format, image.width, image.height, image.data@.len()),
{
    let most: u64 = isize::MAX as u64;
    let len: u64 = image.data.len() as u64;
    let area: u64 = crate::frame::area_of(image.width, image.height);
    len <= most / 6 && (image.format != RawFormat::Nv12 || (image.width <= u32::MAX / 3 && area
        <= (u32::MAX / 3) as u64 && area <= most / 3 && !(image.width == 0 && image.height % 2 == 0
        && len == 0)))
}

/// How much data is enough, in pixels: a byte for each in grey, three in colour, four for each
/// two in pairs, and, in planes with even sides, exactly six for each four.
pub proof fn law_enough_data(width: u32, height: u32, len: nat)
    requires
        3 * width <= usize::MAX,
    ensures
        enough_data(RawFormat::Gray, width, height, len) <==> len >= width * height,
        enough_data(RawFormat::RawRgb, width, height, len) <==> len >= 3 * (width * height),
        enough_data(RawFormat::RawBgr, width, height, len) <==> len >= 3 * (width * height),
        enough_data(RawFormat::Yuyv, width, height, len) <==> len % 4 == 0 && len >= 2 * (width
            * height),
        enough_data(RawFormat::Nv12, width, height, len) <==> width % 2 == 0 && height % 2 == 0
            && 2 * len == 3 * (width * height),
{
}

/// Images of up to 8192 columns and rows with up to three bytes for each pixel, and so all that
/// cameras deliver, can be given to the decoder.
pub proof fn law_ordinary_images_are_decodable(
    format: RawFormat,
    width: u32,
    height: u32,
    len: nat,
)
    requires
        0 < width <= 8192,
        height <= 8192,
        len <= 3 * (width * height),
    ensures
        decodable(format, width, height, len),
{
    assert(width * height <= 0x400_0000) by (nonlinear_arith)
        requires
            0 <= width <= 8192,
            0 <= height <= 8192,
    ;
    assert(isize::MAX >= 0x7FFF_FFFF);
}

/// Enough data become the frame of the given size with all the decoded bytes, and too few
/// become the complaint.
pub proof fn law_decoded_frame(format: RawFormat, width: u32, height: u32, data: Seq<u8>)
    ensures
        ({
            let result = framed(width, height, decoded_rgb(format, width, height, data));
            &&& result is Ok <==> enough_data(format, width, height, data.len())
            &&& result matches Ok(frame) ==> frame.width == width && frame.height == height
                && match format {
                RawFormat::Yuyv => frame.pixels == yuyv_rgb(data),
                RawFormat::Nv12 => frame.pixels == nv12_rgb(width, height, data),
                RawFormat::Gray => frame.pixels == gray_rgb(data),
                RawFormat::RawRgb => frame.pixels == data,
                RawFormat::RawBgr => frame.pixels == bgr_rgb(data),
            }
            &&& result matches Err(text) ==> text == complaint(format, width, height, data.len())
        }),
{
}

/// Nothing but memory keeps an image from the decoder, unless it is in planes; and of those in
/// planes only the ones that have no columns or whose sizes do not fit into 31 bits.
pub proof fn law_memory_bounds_decoding(format: RawFormat, width: u32, height: u32, len: nat)
    requires
        6 * len <= isize::MAX,
    ensures
        !(format is Nv12) ==> decodable(format, width, height, len),
        width > 0 && 3 * width <= 0x7FFF_FFFF && 3 * (width * height) <= 0x7FFF_FFFF ==> decodable(
            format,
            width,
            height,
            len,
        ),
{
    assert(isize::MAX >= 0x7FFF_FFFF);
}

} // verus!
