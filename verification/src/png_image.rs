//! Decoding PNG images into 8-bit RGBA pixels.
use crate::sys::Image;
use vstd::prelude::*;

verus! {

/// The transformation that adds an alpha channel to every pixel and expands palette and low-depth
/// grayscale colors.
pub const ALPHA: u32 = 0x10000;

/// The transformation that strips 16-bit samples down to 8 bits.
pub const STRIP_16: u32 = 0x1;

/// The transformations that every image is decoded with.
pub const RGBA8: u32 = 0x10001;

/// How many bytes the first frame of the PNG image `data` needs, if its header can be read.
pub uninterp spec fn png_buffer_size(data: Seq<u8>, transformations: u32) -> Option<usize>;

/// The first frame of the PNG image `data`, if the whole image can be read: its width, its height,
/// how many samples each pixel has, and the samples row by row.
pub uninterp spec fn png_first_frame(data: Seq<u8>, transformations: u32) -> Option<
    (u32, u32, usize, Seq<u8>),
>;

/// What is known of a frame that was read.
#[derive(Clone, Copy, Debug)]
pub struct FrameInfo {
    /// The width in pixels.
    pub width: u32,
    /// The height in pixels.
    pub height: u32,
    /// How many samples each pixel has.
    pub samples: usize,
    /// How many bytes the frame has.
    pub size: usize,
}

/// How many bytes the first frame of a PNG image needs.
///
/// This is `Reader::output_buffer_size` of the `png` crate, on the reader that
/// `Decoder::read_info` makes of the image, with the given transformations. There is no size if
/// the header cannot be read, or if the frame would be longer than `isize::MAX`.
#[verifier::external_body]
fn output_buffer_size(data: &[u8], transformations: u32) -> (res: Option<usize>)
    ensures
        res == png_buffer_size(data@, transformations),
        res matches Some(size) ==> size <= isize::MAX,
{
    let mut decoder = png::Decoder::new(std::io::Cursor::new(data));
    decoder.set_transformations(png::Transformations::from_bits_retain(transformations));
    decoder.read_info().ok()?.output_buffer_size()
}

/// Read the first frame of a PNG image to the front of `buf`, and the rest of the image.
///
/// This is `Reader::next_frame` of the `png` crate, followed by `Reader::finish`. A frame is only
/// read into a buffer that holds as much as `Reader::output_buffer_size` says. With an alpha
/// channel added and 16-bit samples stripped, every sample is one byte and a pixel has two samples
/// (gray and alpha) or four (red, green, blue and alpha); the frame then fills that size.
#[verifier::external_body]
fn read_first_frame(data: &[u8], transformations: u32, buf: &mut [u8]) -> (res: Option<FrameInfo>)
    requires
        transformations == RGBA8,
    ensures
        final(buf)@.len() == old(buf)@.len(),
        match res {
            Some(info) => {
                &&& png_buffer_size(data@, transformations) == Some(info.size)
                &&& info.size <= old(buf)@.len()
                &&& info.samples == 2 || info.samples == 4
                &&& info.size == info.width * info.height * info.samples
                &&& png_first_frame(data@, transformations) == Some(
                    (info.width, info.height, info.samples, final(buf)@.take(info.size as int)),
                )
            },
            None => png_first_frame(data@, transformations) is None || {
                &&& png_buffer_size(data@, transformations) matches Some(size)
                &&& old(buf)@.len() < size
            },
        },
{
    let mut decoder = png::Decoder::new(std::io::Cursor::new(data));
    decoder.set_transformations(png::Transformations::from_bits_retain(transformations));
    let mut reader = decoder.read_info().ok()?;
    let info = reader.next_frame(buf).ok()?;
    reader.finish().ok()?;
    Some(FrameInfo {
        width: info.width,
        height: info.height,
        samples: info.color_type.samples(),
        size: info.buffer_size(),
    })
}

/// Gray pixels with alpha as red, green, blue and alpha: every gray sample stands for all three
/// colors. Pixels with four samples are already that.
pub open spec fn rgba(pixels: Seq<u8>, samples: usize) -> Seq<u8> {
    if samples == 2 {
        Seq::new(
            (pixels.len() / 2 * 4) as nat,
            |i: int|
                if i % 4 == 3 {
                    pixels[i / 4 * 2 + 1]
                } else {
                    pixels[i / 4 * 2]
                },
        )
    } else {
        pixels
    }
}

/// The pixels of a frame as red, green, blue and alpha.
pub fn to_rgba8(pixels: &[u8], samples: usize) -> (res: Vec<u8>)
    requires
        samples == 2 || samples == 4,
        samples == 2 ==> pixels@.len() % 2 == 0,
    ensures
        res@ == rgba(pixels@, samples),
{
    let mut out: Vec<u8> = Vec::new();
    if samples == 4 {
        out.extend_from_slice(pixels);
        assert(out@ =~= pixels@);
        return out;
    }
    let count: usize = pixels.len() / 2;
    let mut i: usize = 0;
    while i < count
        invariant
            i <= count,
            count == pixels@.len() / 2,
            count * 2 <= usize::MAX,
            out@.len() == i * 4,
            forall|j: int|
                0 <= j < i * 4 ==> #[trigger] out@[j] == if j % 4 == 3 {
                    pixels@[j / 4 * 2 + 1]
                } else {
                    pixels@[j / 4 * 2]
                },
        decreases count - i,
    {
        let gray: u8 = pixels[i * 2];
        let alpha: u8 = pixels[i * 2 + 1];
        out.push(gray);
        out.push(gray);
        out.push(gray);
        out.push(alpha);
        i += 1;
    }
    assert(out@ =~= rgba(pixels@, samples));
    out
}

/// The RGBA image that the PNG image `data` holds: its width, its height, and its pixels.
pub open spec fn png_image(data: Seq<u8>) -> Option<(u32, u32, Seq<u8>)> {
    match (png_buffer_size(data, RGBA8), png_first_frame(data, RGBA8)) {
        (Some(_), Some((width, height, samples, pixels))) => Some(
            (width, height, rgba(pixels, samples)),
        ),
        _ => None,
    }
}

/// The width, the height and the pixels of an image.
pub open spec fn parts(image: Option<Image>) -> Option<(u32, u32, Seq<u8>)> {
    match image {
        Some(image) => Some((image.width, image.height, image.data@)),
        None => None,
    }
}

/// Decode a PNG image into 8-bit RGBA pixels, with `buf` as working space.
///
/// Returns nothing if the image cannot be decoded.
pub fn decode(data: &[u8], buf: &mut Vec<u8>) -> (res: Option<Image>)
    ensures
        parts(res) == png_image(data@),
        res matches Some(image) ==> image.data@.len() == image.width * image.height * 4,
{
    // The engine only accepts RGBA8 data, so images in other formats are transformed: palette and
    // grayscale colors are expanded, and 16-bit samples are stripped down to 8 bits.
    let size: usize = match output_buffer_size(data, RGBA8) {
        Some(size) => size,
        None => {
            return None;
        },
    };
    buf.clear();
    buf.resize(size, 0);
    match read_first_frame(data, RGBA8, buf.as_mut_slice()) {
        Some(info) => {
            assert(buf@.take(info.size as int) =~= buf@);
            proof {
                let area = info.width * info.height;
                assert(info.samples == 2 ==> area * info.samples == area * 2) by (nonlinear_arith);
                assert(info.samples == 4 ==> area * info.samples == area * 4) by (nonlinear_arith);
            }
            let pixels = to_rgba8(buf.as_slice(), info.samples);
            Some(Image { width: info.width, height: info.height, data: pixels })
        },
        None => None,
    }
}

/// Turning a frame into RGBA pixels keeps the number of pixels: each takes four bytes.
pub proof fn rgba_has_four_bytes_per_pixel(pixels: Seq<u8>, samples: usize, count: nat)
    requires
        samples == 2 || samples == 4,
        pixels.len() == count * samples,
    ensures
        rgba(pixels, samples).len() == count * 4,
{
}

/// Every pixel of a frame comes out as it is: a gray one with its gray as all three colors, any
/// other one with its own red, green and blue, and both with their own alpha.
pub proof fn pixels_keep_their_colors(pixels: Seq<u8>, samples: usize, count: nat, i: int)
    requires
        samples == 2 || samples == 4,
        pixels.len() == count * samples,
        0 <= i < count,
    ensures
        ({
            let out = rgba(pixels, samples);
            &&& out.len() == count * 4
            &&& samples == 2 ==> {
                &&& out[4 * i] == pixels[2 * i]
                &&& out[4 * i + 1] == pixels[2 * i]
                &&& out[4 * i + 2] == pixels[2 * i]
                &&& out[4 * i + 3] == pixels[2 * i + 1]
            }
            &&& samples == 4 ==> {
                &&& out[4 * i] == pixels[4 * i]
                &&& out[4 * i + 1] == pixels[4 * i + 1]
                &&& out[4 * i + 2] == pixels[4 * i + 2]
                &&& out[4 * i + 3] == pixels[4 * i + 3]
            }
        }),
{
}

/// An image comes out exactly if its size and its first frame can be read, with the width and the
/// height of the frame. It is read with an alpha channel added and with 16-bit samples stripped.
pub proof fn an_image_is_its_first_frame(data: Seq<u8>)
    ensures
        png_image(data) is Some <==> png_buffer_size(data, 0x10000u32 | 1) is Some && png_first_frame(
            data,
            0x10000u32 | 1,
        ) is Some,
        png_image(data) matches Some(image) ==> {
            let frame = png_first_frame(data, 0x10000u32 | 1)->0;
            &&& image.0 == frame.0
            &&& image.1 == frame.1
            &&& frame.2 == 4 ==> image.2 == frame.3
        },
{
    assert(0x10000u32 | 1 == 0x10001) by (bit_vector);
}

/// The parts of an image are its own.
pub proof fn parts_are_the_images(image: Image)
    ensures
        parts(Some(image)) matches Some((width, height, pixels)) && width == image.width && height
            == image.height && pixels == image.data@,
        parts(None) is None,
{
}

} // verus!
