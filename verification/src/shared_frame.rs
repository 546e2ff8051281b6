//! The memory that the virtual camera reads: a header, and one frame in RGB32.
//!
//! All numbers are little-endian. The header ends with four bytes of padding.

use crate::frame::{FrameView, RgbFrame, scale};
use vstd::prelude::*;

verus! {

/// Width of a published frame in pixels.
pub const WIDTH: u32 = 1280;

/// Height of a published frame in pixels.
pub const HEIGHT: u32 = 720;

/// Bytes from one row of a published frame to the next.
pub const STRIDE: u32 = 5120;

/// Bytes of a published frame: four to a pixel.
pub const BYTES: usize = 3_686_400;

/// Bytes of the header, padding counted.
pub const HEADER_BYTES: usize = 32;

/// Bytes of the header and the frame.
pub const REGION_BYTES: usize = 3_686_432;

/// What precedes the frame in the shared memory.
#[derive(Debug, Clone, Copy, PartialEq, Eq, Structural)]
pub struct FrameHeader {
    /// Counts the published frames; wraps around.
    pub sequence: u64,
    /// When the frame was published, in units of 100 ns since the Unix epoch.
    pub timestamp100ns: u64,
    pub width: u32,
    pub height: u32,
    /// Bytes from one row to the next.
    pub stride: u32,
}

/// The 32-bit number stored at `at`.
pub open spec fn u32_at(bytes: Seq<u8>, at: int) -> u32 {
    (bytes[at] + 0x100 * bytes[at + 1] + 0x1_0000 * bytes[at + 2] + 0x100_0000 * bytes[at
        + 3]) as u32
}

/// The 64-bit number stored at `at`.
pub open spec fn u64_at(bytes: Seq<u8>, at: int) -> u64 {
    (u32_at(bytes, at) + 0x1_0000_0000 * u32_at(bytes, at + 4)) as u64
}

/// The header at the start of the shared memory.
pub open spec fn header_of(region: Seq<u8>) -> FrameHeader {
    FrameHeader {
        sequence: u64_at(region, 0),
        timestamp100ns: u64_at(region, 8),
        width: u32_at(region, 16),
        height: u32_at(region, 20),
        stride: u32_at(region, 24),
    }
}

/// The bytes of the frame in the shared memory.
pub open spec fn frame_of(region: Seq<u8>) -> Seq<u8> {
    region.subrange(HEADER_BYTES as int, REGION_BYTES as int)
}

/// RGB bytes as RGB32: blue, green, red and 255 for each pixel.
pub open spec fn rgb32(rgb: Seq<u8>) -> Seq<u8> {
    Seq::new(
        (4 * (rgb.len() / 3)) as nat,
        |i: int|
            if i % 4 == 3 {
                255u8
            } else {
                rgb[3 * (i / 4) + (2 - i % 4)]
            },
    )
}

/// The header that follows `previous` when a frame is published at `timestamp100ns`.
pub open spec fn next_header(previous: FrameHeader, timestamp100ns: u64) -> FrameHeader {
    FrameHeader {
        sequence: if previous.sequence == u64::MAX {
            0
        } else {
            (previous.sequence + 1) as u64
        },
        timestamp100ns,
        width: WIDTH,
        height: HEIGHT,
        stride: STRIDE,
    }
}

/// The frame as it is published: scaled to the published dimensions.
pub open spec fn published_rgb(image: FrameView) -> Seq<u8> {
    crate::frame::scaled_rgb(image.width, image.height, image.rgb(), WIDTH, HEIGHT)
}

/// Whether publishing the image at `timestamp100ns` makes `after` of `before`: the next
/// header, the image's pixels as RGB32, and the header's padding as it was.
pub open spec fn publishes(
    before: Seq<u8>,
    image: FrameView,
    timestamp100ns: u64,
    after: Seq<u8>,
) -> bool {
    &&& after.len() == REGION_BYTES
    &&& header_of(after) == next_header(header_of(before), timestamp100ns)
    &&& frame_of(after) == rgb32(published_rgb(image))
    &&& forall|i: int| 28 <= i < HEADER_BYTES ==> after[i] == before[i]
}

fn get_u32(bytes: &[u8], at: usize) -> (value: u32)
    requires
        at + 4 <= HEADER_BYTES <= bytes@.len(),
    ensures
        value == u32_at(bytes@, at as int),
{
    (bytes[at] as u32) + 0x100 * (bytes[at + 1] as u32) + 0x1_0000 * (bytes[at + 2] as u32)
        + 0x100_0000 * (bytes[at + 3] as u32)
}

fn get_u64(bytes: &[u8], at: usize) -> (value: u64)
    requires
        at + 8 <= HEADER_BYTES <= bytes@.len(),
    ensures
        value == u64_at(bytes@, at as int),
{
    (get_u32(bytes, at) as u64) + 0x1_0000_0000 * (get_u32(bytes, at + 4) as u64)
}

fn put_u32(bytes: &mut [u8], at: usize, value: u32)
    requires
        at + 4 <= HEADER_BYTES <= old(bytes)@.len(),
    ensures
        final(bytes)@.len() == old(bytes)@.len(),
        u32_at(final(bytes)@, at as int) == value,
        forall|i: int|
            0 <= i < old(bytes)@.len() && !(at <= i < at + 4) ==> final(bytes)@[i] == old(
                bytes,
            )@[i],
{
    let upper: u32 = value / 0x100;
    let high: u32 = upper / 0x100;
    bytes[at] = (value % 0x100) as u8;
    bytes[at + 1] = (upper % 0x100) as u8;
    bytes[at + 2] = (high % 0x100) as u8;
    bytes[at + 3] = (high / 0x100) as u8;
}

fn put_u64(bytes: &mut [u8], at: usize, value: u64)
    requires
        at + 8 <= HEADER_BYTES <= old(bytes)@.len(),
    ensures
        final(bytes)@.len() == old(bytes)@.len(),
        u64_at(final(bytes)@, at as int) == value,
        forall|i: int|
            0 <= i < old(bytes)@.len() && !(at <= i < at + 8) ==> final(bytes)@[i] == old(
                bytes,
            )@[i],
{
    put_u32(bytes, at, (value % 0x1_0000_0000) as u32);
    let ghost low = bytes@;
    put_u32(bytes, at + 4, (value / 0x1_0000_0000) as u32);
    assert(u32_at(bytes@, at as int) == u32_at(low, at as int));
}

/// Reads the header of the shared memory.
pub fn read_header(region: &[u8]) -> (header: FrameHeader)
    requires
        region@.len() >= HEADER_BYTES,
    ensures
        header == header_of(region@),
{
    FrameHeader {
        sequence: get_u64(region, 0),
        timestamp100ns: get_u64(region, 8),
        width: get_u32(region, 16),
        height: get_u32(region, 20),
        stride: get_u32(region, 24),
    }
}

/// The published time of a frame: `micros` microseconds since the Unix epoch, of
/// which the low 64 bits count, in units of 100 ns.
pub open spec fn timestamp(micros: u128) -> int {
    10 * (micros % 0x1_0000_0000_0000_0000) as int
}

/// Computes [`timestamp`].
pub fn timestamp_100ns(micros: u128) -> (units: u64)
    requires
        timestamp(micros) <= u64::MAX,
    ensures
        units == timestamp(micros),
{
    let low: u64 = (micros % 0x1_0000_0000_0000_0000) as u64;
    low * 10
}

spec fn pixel_stored(region: Seq<u8>, rgb: Seq<u8>, k: int) -> bool {
    &&& region[HEADER_BYTES + 4 * k] == rgb[3 * k + 2]
    &&& region[HEADER_BYTES + 4 * k + 1] == rgb[3 * k + 1]
    &&& region[HEADER_BYTES + 4 * k + 2] == rgb[3 * k]
    &&& region[HEADER_BYTES + 4 * k + 3] == 255
}

/// Stores the pixels of an RGB frame of the published dimensions as RGB32.
fn store_pixels(region: &mut [u8], rgb: &[u8])
    requires
        old(region)@.len() == REGION_BYTES,
        4 * rgb@.len() == 3 * BYTES,
    ensures
        final(region)@.len() == REGION_BYTES,
        frame_of(final(region)@) == rgb32(rgb@),
        forall|i: int| 0 <= i < HEADER_BYTES ==> final(region)@[i] == old(region)@[i],
{
    let count: usize = BYTES / 4;
    let mut index: usize = 0;
    while index < count
        invariant
            index <= count,
            count == BYTES / 4,
            rgb@.len() == 3 * count,
            region@.len() == REGION_BYTES,
            old(region)@.len() == REGION_BYTES,
            forall|k: int| 0 <= k < index ==> #[trigger] pixel_stored(region@, rgb@, k),
            forall|i: int| 0 <= i < HEADER_BYTES ==> region@[i] == old(region)@[i],
        decreases count - index,
    {
        let ghost before = region@;
        let at: usize = HEADER_BYTES + 4 * index;
        region[at] = rgb[3 * index + 2];
        region[at + 1] = rgb[3 * index + 1];
        region[at + 2] = rgb[3 * index];
        region[at + 3] = 255;
        assert forall|k: int| 0 <= k < index + 1 implies #[trigger] pixel_stored(
            region@,
            rgb@,
            k,
        ) by {
            if k < index {
                assert(pixel_stored(before, rgb@, k));
            }
        }
        index = index + 1;
    }
    assert forall|i: int| 0 <= i < BYTES implies frame_of(region@)[i] == rgb32(rgb@)[i] by {
        assert(pixel_stored(region@, rgb@, i / 4));
    }
    assert(frame_of(region@) =~= rgb32(rgb@));
}

/// Publishes a frame: scales it, stores its pixels, and completes the header with
/// the next sequence number. The padding of the header stays as it was.
pub fn write_frame(region: &mut [u8], image: &RgbFrame, timestamp100ns: u64)
    requires
        old(region)@.len() == REGION_BYTES,
        crate::frame::scalable(image@.width, image@.height, WIDTH, HEIGHT),
    ensures
        publishes(old(region)@, image@, timestamp100ns, final(region)@),
        published_rgb(image@).len() == 3 * (WIDTH * HEIGHT),
        image@.width == WIDTH && image@.height == HEIGHT ==> frame_of(final(region)@) == rgb32(
            image@.rgb(),
        ),
{
    let frame = scale(image, WIDTH, HEIGHT);
    let sequence: u64 = get_u64(region, 0).wrapping_add(1);
    store_pixels(region, frame.as_raw().as_slice());
    let ghost stored = region@;
    put_u32(region, 16, WIDTH);
    put_u32(region, 20, HEIGHT);
    put_u32(region, 24, STRIDE);
    put_u64(region, 8, timestamp100ns);
    put_u64(region, 0, sequence);
    assert(frame_of(region@) =~= frame_of(stored));
}

/// Publishing changes the sequence number, always by one modulo 2^64, so that a
/// reader who remembers the last number that it saw notices the new frame.
pub proof fn law_new_frame_is_noticed(previous: FrameHeader, timestamp100ns: u64)
    ensures
        next_header(previous, timestamp100ns).sequence != previous.sequence,
        next_header(previous, timestamp100ns).sequence == (previous.sequence + 1)
            % 0x1_0000_0000_0000_0000,
{
}

/// Of two frames that are published one after the other, whatever their sizes, nothing of
/// the first remains: but for the sequence number, which has grown by two modulo 2^64, all
/// is as if only the second had been published. So a reader always finds the newest frame.
pub proof fn law_newest_frame_remains(
    before: Seq<u8>,
    first: FrameView,
    first_time: u64,
    between: Seq<u8>,
    second: FrameView,
    second_time: u64,
    after: Seq<u8>,
    alone: Seq<u8>,
)
    requires
        publishes(before, first, first_time, between),
        publishes(between, second, second_time, after),
        publishes(before, second, second_time, alone),
    ensures
        header_of(after).sequence == (header_of(before).sequence + 2) % 0x1_0000_0000_0000_0000,
        header_of(after) == (FrameHeader {
            sequence: header_of(after).sequence,
            ..header_of(alone)
        }),
        frame_of(after) == frame_of(alone),
        forall|i: int| 28 <= i < HEADER_BYTES ==> after[i] == alone[i],
{
    lemma_two_headers(
        header_of(before),
        first_time,
        header_of(between),
        second_time,
        header_of(after),
        header_of(alone),
    );
}

proof fn lemma_two_headers(
    before: FrameHeader,
    first_time: u64,
    between: FrameHeader,
    second_time: u64,
    after: FrameHeader,
    alone: FrameHeader,
)
    requires
        between == next_header(before, first_time),
        after == next_header(between, second_time),
        alone == next_header(before, second_time),
    ensures
        after.sequence == (before.sequence + 2) % 0x1_0000_0000_0000_0000,
        after == (FrameHeader { sequence: after.sequence, ..alone }),
{
}

/// A frame that is read back gives, for every pixel, the colour that was published:
/// blue, green and red at `stride * y + 4 * x`, and full opacity after them.
pub proof fn law_pixel_read_back(region: Seq<u8>, image: FrameView, x: int, y: int)
    requires
        image.wf(),
        image.width == WIDTH,
        image.height == HEIGHT,
        region.len() == REGION_BYTES,
        frame_of(region) == rgb32(image.rgb()),
        0 <= x < WIDTH,
        0 <= y < HEIGHT,
    ensures
        ({
            let at = HEADER_BYTES + STRIDE * y + 4 * x;
            &&& region[at] == image.channel(x, y, 2)
            &&& region[at + 1] == image.channel(x, y, 1)
            &&& region[at + 2] == image.channel(x, y, 0)
            &&& region[at + 3] == 255
        }),
{
    let k = y * (WIDTH as int) + x;
    let at = HEADER_BYTES + STRIDE * y + 4 * x;
    assert(4 * k == STRIDE * y + 4 * x);
    assert(image.rgb().len() == crate::frame::rgb_len(WIDTH, HEIGHT));
    assert(0 <= k < 921_600);
    assert(region[at] == frame_of(region)[4 * k]);
    assert(region[at + 1] == frame_of(region)[4 * k + 1]);
    assert(region[at + 2] == frame_of(region)[4 * k + 2]);
    assert(region[at + 3] == frame_of(region)[4 * k + 3]);
    assert((4 * k) / 4 == k && (4 * k + 1) / 4 == k && (4 * k + 2) / 4 == k && (4 * k + 3) / 4
        == k);
}

/// Whatever the header before, the header of a published frame has the published size, the
/// frame's own time and a sequence number that is one further.
pub proof fn law_header_of_a_published_frame(previous: FrameHeader, timestamp100ns: u64)
    ensures
        ({
            let header = next_header(previous, timestamp100ns);
            &&& header.width == 1280
            &&& header.height == 720
            &&& header.stride == 4 * 1280
            &&& header.timestamp100ns == timestamp100ns
            &&& previous.sequence < u64::MAX ==> header.sequence == previous.sequence + 1
            &&& previous.sequence == u64::MAX ==> header.sequence == 0
        }),
{
}

/// Times grow with the clock, ten units to a microsecond, as long as the microseconds fit
/// into 64 bits; beyond that they start anew.
pub proof fn law_published_times(micros: u128)
    ensures
        micros <= u64::MAX ==> timestamp(micros) == 10 * micros,
        micros <= u64::MAX ==> timestamp((micros + 0x1_0000_0000_0000_0000) as u128) == 10 * micros,
{
}

/// Numbers are stored with their lowest byte first.
pub proof fn law_numbers_are_little_endian(bytes: Seq<u8>, at: int)
    ensures
        u32_at(bytes, at) == bytes[at] + 256 * bytes[at + 1] + 65_536 * bytes[at + 2] + 16_777_216
            * bytes[at + 3],
        u64_at(bytes, at) == u32_at(bytes, at) + 4_294_967_296 * u32_at(bytes, at + 4),
{
}

/// The fields of the header lie one after the other.
pub proof fn law_header_places(region: Seq<u8>)
    ensures
        header_of(region).sequence == u64_at(region, 0),
        header_of(region).timestamp100ns == u64_at(region, 8),
        header_of(region).width == u32_at(region, 16),
        header_of(region).height == u32_at(region, 20),
        header_of(region).stride == u32_at(region, 24),
{
}

/// The frame lies after the 32 bytes of the header and fills the rest.
pub proof fn law_frame_place(region: Seq<u8>, i: int)
    requires
        region.len() == 32 + 1280 * 720 * 4,
    ensures
        frame_of(region).len() == region.len() - 32,
        0 <= i < frame_of(region).len() ==> frame_of(region)[i] == region[32 + i],
{
}

/// RGB32 has four bytes for each pixel: its blue, green and red, and 255.
pub proof fn law_rgb32_pixel(rgb: Seq<u8>, pixel: int)
    requires
        0 <= pixel < rgb.len() / 3,
    ensures
        rgb32(rgb).len() == 4 * (rgb.len() / 3),
        rgb32(rgb)[4 * pixel] == rgb[3 * pixel + 2],
        rgb32(rgb)[4 * pixel + 1] == rgb[3 * pixel + 1],
        rgb32(rgb)[4 * pixel + 2] == rgb[3 * pixel],
        rgb32(rgb)[4 * pixel + 3] == 255,
{
}

/// What is published is the image's pixels scaled to 1280 by 720, and of two images with the
/// same pixels the same.
pub proof fn law_published_image(image: FrameView, other: FrameView)
    ensures
        published_rgb(image) == crate::frame::scaled_rgb(
            image.width,
            image.height,
            image.rgb(),
            1280,
            720,
        ),
        image.width == other.width && image.height == other.height && image.rgb() == other.rgb()
            ==> published_rgb(image) == published_rgb(other),
{
}

/// After a publication the memory holds, pixel by pixel, the published image, and before it
/// the header of a published frame; four bytes between them are as they were.
pub proof fn law_memory_after_a_publication(
    before: Seq<u8>,
    image: FrameView,
    timestamp100ns: u64,
    after: Seq<u8>,
    pixel: int,
)
    requires
        publishes(before, image, timestamp100ns, after),
        published_rgb(image).len() == 3 * (1280 * 720),
        0 <= pixel < 1280 * 720,
    ensures
        after.len() == 32 + 1280 * 720 * 4,
        header_of(after) == next_header(header_of(before), timestamp100ns),
        after[32 + 4 * pixel] == published_rgb(image)[3 * pixel + 2],
        after[32 + 4 * pixel + 1] == published_rgb(image)[3 * pixel + 1],
        after[32 + 4 * pixel + 2] == published_rgb(image)[3 * pixel],
        after[32 + 4 * pixel + 3] == 255,
        forall|i: int| 28 <= i < 32 ==> after[i] == before[i],
{
    law_frame_place(after, 4 * pixel);
    law_frame_place(after, 4 * pixel + 1);
    law_frame_place(after, 4 * pixel + 2);
    law_frame_place(after, 4 * pixel + 3);
    law_rgb32_pixel(published_rgb(image), pixel);
}

} // verus!
