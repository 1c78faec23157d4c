use vstd::prelude::*;

use crate::pixel::Pixel;

pub mod codec;
pub mod jpeg;

verus! {

/// Colour layouts of a decoded PNG frame.
#[derive(Debug, PartialEq, Eq, Structural, Clone, Copy)]
pub enum ColorType {
    Grayscale,
    Rgb,
    Indexed,
    GrayscaleAlpha,
    Rgba,
}

/// Why a decoded PNG frame cannot be turned into an image.
#[derive(Debug, PartialEq, Eq, Structural, Clone, Copy)]
pub enum PngFormatError {
    /// The frame's bit depth is not 8.
    BitDepthNotEight,
    /// The frame holds palette indices.
    IndexedColor,
}

/// Number of bytes of one pixel of a frame with the given colour type.
pub open spec fn spec_pixel_size(color_type: ColorType) -> nat {
    match color_type {
        ColorType::Grayscale => 1,
        ColorType::Rgb => 3,
        ColorType::Indexed => 1,
        ColorType::GrayscaleAlpha => 2,
        ColorType::Rgba => 4,
    }
}

/// The RGBA channels of the pixel whose bytes are `source`, in a frame of the given
/// colour type: grey levels give equal red, green and blue, and alpha is 255 where the
/// frame has none.
pub open spec fn decoded_channels(source: Seq<u8>, color_type: ColorType) -> (u8, u8, u8, u8) {
    match color_type {
        ColorType::Grayscale => (source[0], source[0], source[0], 255u8),
        ColorType::Rgb => (source[0], source[1], source[2], 255u8),
        ColorType::Indexed => (source[0], source[0], source[0], 255u8),
        ColorType::GrayscaleAlpha => (source[0], source[0], source[0], source[1]),
        ColorType::Rgba => (source[0], source[1], source[2], source[3]),
    }
}

/// The channels of pixel `i` of a decoded frame `bytes`, or zeros past its end.
pub open spec fn frame_pixel(bytes: Seq<u8>, color_type: ColorType, i: int) -> (u8, u8, u8, u8) {
    let size = spec_pixel_size(color_type) as int;
    if (i + 1) * size <= bytes.len() {
        decoded_channels(bytes.subrange(i * size, i * size + size), color_type)
    } else {
        (0u8, 0u8, 0u8, 0u8)
    }
}

/// Number of bytes of one pixel of a frame with the given colour type.
pub fn pixel_size_by_color_type(color_type: ColorType) -> (r: usize)
    ensures
        r == spec_pixel_size(color_type),
{
    match color_type {
        ColorType::Grayscale => 1,
        ColorType::Rgb => 3,
        ColorType::Indexed => 1,
        ColorType::GrayscaleAlpha => 2,
        ColorType::Rgba => 4,
    }
}

fn get_red(source: &[u8], color_type: ColorType) -> (r: u8)
    requires
        source@.len() >= spec_pixel_size(color_type),
    ensures
        r == decoded_channels(source@, color_type).0,
{
    match color_type {
        ColorType::Grayscale => source[0],
        ColorType::Rgb => source[0],
        ColorType::Indexed => source[0],
        ColorType::GrayscaleAlpha => source[0],
        ColorType::Rgba => source[0],
    }
}

fn get_green(source: &[u8], color_type: ColorType) -> (r: u8)
    requires
        source@.len() >= spec_pixel_size(color_type),
    ensures
        r == decoded_channels(source@, color_type).1,
{
    match color_type {
        ColorType::Grayscale => source[0],
        ColorType::Rgb => source[1],
        ColorType::Indexed => source[0],
        ColorType::GrayscaleAlpha => source[0],
        ColorType::Rgba => source[1],
    }
}

fn get_blue(source: &[u8], color_type: ColorType) -> (r: u8)
    requires
        source@.len() >= spec_pixel_size(color_type),
    ensures
        r == decoded_channels(source@, color_type).2,
{
    match color_type {
        ColorType::Grayscale => source[0],
        ColorType::Rgb => source[2],
        ColorType::Indexed => source[0],
        ColorType::GrayscaleAlpha => source[0],
        ColorType::Rgba => source[2],
    }
}

fn get_alpha(source: &[u8], color_type: ColorType) -> (r: u8)
    requires
        source@.len() >= spec_pixel_size(color_type),
    ensures
        r == decoded_channels(source@, color_type).3,
{
    match color_type {
        ColorType::Grayscale => 255,
        ColorType::Rgb => 255,
        ColorType::Indexed => 255,
        ColorType::GrayscaleAlpha => source[1],
        ColorType::Rgba => source[3],
    }
}

/// Check that a decoded PNG frame can be turned into an image: its bit depth must be 8,
/// else `BitDepthNotEight`, and it must not hold palette indices, else `IndexedColor`.
pub fn check_png_format(bit_depth_is_eight: bool, color_type: ColorType) -> (r: Result<(), PngFormatError>)
    ensures
        !bit_depth_is_eight ==> r == Err::<(), PngFormatError>(PngFormatError::BitDepthNotEight),
        bit_depth_is_eight && color_type == ColorType::Indexed ==> r == Err::<(), PngFormatError>(PngFormatError::IndexedColor),
        bit_depth_is_eight && color_type != ColorType::Indexed ==> r is Ok,
{
    if !bit_depth_is_eight {
        return Err(PngFormatError::BitDepthNotEight);
    }
    if color_type == ColorType::Indexed {
        return Err(PngFormatError::IndexedColor);
    }
    Ok(())
}

/// The first `count` RGBA pixels of the decoded frame `bytes` of the given colour type;
/// where the frame holds fewer pixels, the rest are zero.
///
/// The frame must hold whole pixels only.
pub fn decode_pixels(bytes: &[u8], color_type: ColorType, count: usize) -> (r: Vec<Pixel>)
    requires
        bytes@.len() % spec_pixel_size(color_type) == 0,
    ensures
        r@.len() == count,
        forall|i: int| 0 <= i < count ==> #[trigger] r@[i]@ == frame_pixel(bytes@, color_type, i),
{
    let size = pixel_size_by_color_type(color_type);
    let available = bytes.len() / size;
    let mut pixels: Vec<Pixel> = Vec::new();
    let mut i: usize = 0;
    while i < count
        invariant
            size == spec_pixel_size(color_type),
            1 <= size <= 4,
            bytes@.len() <= usize::MAX,
            bytes@.len() % (size as nat) == 0,
            available == bytes@.len() / (size as nat),
            i <= count,
            pixels@.len() == i,
            forall|j: int| 0 <= j < i ==> #[trigger] pixels@[j]@ == frame_pixel(bytes@, color_type, j),
        decreases count - i,
    {
        if i < available {
            proof {
                assert(i * size + size <= bytes@.len()) by (nonlinear_arith)
                    requires i + 1 <= available, available == bytes@.len() / (size as nat), size >= 1, bytes@.len() % (size as nat) == 0;
            }
            let start = i * size;
            let source = vstd::slice::slice_subrange(bytes, start, start + size);
            let px = Pixel::new([
                get_red(source, color_type),
                get_green(source, color_type),
                get_blue(source, color_type),
                get_alpha(source, color_type),
            ]);
            pixels.push(px);
        } else {
            proof {
                assert((i + 1) * size > bytes@.len()) by (nonlinear_arith)
                    requires i >= available, available == bytes@.len() / (size as nat), size >= 1;
            }
            pixels.push(Pixel::zero());
        }
        i = i + 1;
    }
    pixels
}

/// The pixels of a raw RGBA buffer, four bytes each.
pub fn pixels_from_rgba(bytes: &[u8]) -> (r: Vec<Pixel>)
    requires
        bytes@.len() % 4 == 0,
    ensures
        r@.len() == bytes@.len() / 4,
        forall|i: int| 0 <= i < r@.len() ==> #[trigger] r@[i]@ == (bytes@[4 * i], bytes@[4 * i + 1], bytes@[4 * i + 2], bytes@[4 * i + 3]),
{
    let n = bytes.len() / 4;
    let mut pixels: Vec<Pixel> = Vec::new();
    let mut i: usize = 0;
    while i < n
        invariant
            n == bytes@.len() / 4,
            bytes@.len() % 4 == 0,
            bytes@.len() <= usize::MAX,
            i <= n,
            pixels@.len() == i,
            forall|j: int| 0 <= j < i ==> #[trigger] pixels@[j]@ == (bytes@[4 * j], bytes@[4 * j + 1], bytes@[4 * j + 2], bytes@[4 * j + 3]),
        decreases n - i,
    {
        proof {
            assert(4 * i + 3 < bytes@.len()) by (nonlinear_arith)
                requires i < n, n == bytes@.len() / 4, bytes@.len() % 4 == 0;
        }
        let px = Pixel::new([bytes[4 * i], bytes[4 * i + 1], bytes[4 * i + 2], bytes[4 * i + 3]]);
        pixels.push(px);
        i = i + 1;
    }
    pixels
}


/// The pixels read back from the raw RGBA buffer of some pixels are those pixels: where
/// `buffer` is what [`Image::buffer`](crate::image::Image::buffer) gives for `pixels` and
/// `decoded` what [`pixels_from_rgba`] gives for `buffer`, `decoded` equals `pixels`.
pub proof fn law_rgba_roundtrip(pixels: Seq<Pixel>, buffer: Seq<u8>, decoded: Seq<Pixel>)
    requires
        buffer.len() == 4 * pixels.len(),
        forall|i: int| #![trigger pixels[i]] 0 <= i < pixels.len() ==> {
            &&& buffer[4 * i] == pixels[i]@.0
            &&& buffer[4 * i + 1] == pixels[i]@.1
            &&& buffer[4 * i + 2] == pixels[i]@.2
            &&& buffer[4 * i + 3] == pixels[i]@.3
        },
        decoded.len() == buffer.len() / 4,
        forall|i: int| 0 <= i < decoded.len() ==> #[trigger] decoded[i]@ == (buffer[4 * i], buffer[4 * i + 1], buffer[4 * i + 2], buffer[4 * i + 3]),
    ensures
        decoded == pixels,
{
    assert forall|i: int| 0 <= i < pixels.len() implies decoded[i] == pixels[i] by {
        assert(decoded[i]@ == pixels[i]@);
        Pixel::lemma_view_eq(decoded[i], pixels[i]);
    }
    assert(decoded =~= pixels);
}

} // verus!
