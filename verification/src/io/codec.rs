use vstd::prelude::*;

use crate::component::primitive::Size;
use crate::component::primitive::limits::lemma_dimension_max;
use crate::component::primitive::SizeCreationError;
use crate::component::primitive::size::{size_new_result, valid_dims};
use crate::image::{Image, rgba_bytes};
use crate::io::{ColorType, PngFormatError, check_png_format, decode_pixels, frame_pixel, spec_pixel_size};

verus! {

#[verifier::external_type_specification]
#[verifier::external_body]
pub struct ExDecodingError(::png::DecodingError);

#[verifier::external_type_specification]
#[verifier::external_body]
pub struct ExEncodingError(::png::EncodingError);

/// The first frame that the `png` crate decodes from `bytes`, without transformations:
/// its width, height, bit depth, colour type (both as the numbers that PNG gives them)
/// and its bytes, or `None` where decoding fails.
pub uninterp spec fn png_frame(bytes: Seq<u8>) -> Option<(u32, u32, u8, u8, Seq<u8>)>;

/// The PNG file that the `png` crate writes for an 8-bit RGBA image of the given width
/// and height with the bytes `rgba`, or `None` where encoding fails.
pub uninterp spec fn png_encoded(width: u32, height: u32, rgba: Seq<u8>) -> Option<Seq<u8>>;

/// A frame decoded from a PNG file.
pub struct PngFrame {
    pub width: u32,
    pub height: u32,
    /// Bits per sample: 1, 2, 4, 8 or 16.
    pub bit_depth: u8,
    /// PNG colour type: 0 grey, 2 RGB, 3 palette, 4 grey with alpha, 6 RGBA.
    pub color_type: u8,
    /// The frame's rows, packed one after the other.
    pub data: Vec<u8>,
}

/// Whether `code` is one of the colour types of PNG.
pub open spec fn png_color_code(code: u8) -> bool {
    code == 0 || code == 2 || code == 3 || code == 4 || code == 6
}

/// The colour type with the PNG number `code`; meaningful where [`png_color_code`] holds.
pub open spec fn spec_color_type(code: u8) -> ColorType {
    if code == 0 {
        ColorType::Grayscale
    } else if code == 2 {
        ColorType::Rgb
    } else if code == 3 {
        ColorType::Indexed
    } else if code == 4 {
        ColorType::GrayscaleAlpha
    } else {
        ColorType::Rgba
    }
}

/// Decode the first frame of the PNG file `bytes` with the `png` crate: `Decoder::new`,
/// `Reader::read_info`, then `Reader::next_frame` into a buffer of
/// `Reader::output_buffer_size` bytes, of which the frame's `OutputInfo::buffer_size` are
/// kept.
///
/// Claimed of the crate: the result is a function of `bytes`; the colour type and bit
/// depth are those of its `ColorType` and `BitDepth` enums, whose numbers they are; and
/// with no transformation set, an 8-bit frame holds `width * height` pixels of as many
/// bytes as its colour type has samples (`OutputInfo::buffer_size` is the line size,
/// `width` times the samples at 8 bits, times `height`). What the error holds is not
/// stated.
#[verifier::external_body]
fn decode_png_frame(bytes: &[u8]) -> (r: Result<PngFrame, ::png::DecodingError>)
    ensures
        r is Ok <==> png_frame(bytes@) is Some,
        r matches Ok(f) ==> png_frame(bytes@) == Some((f.width, f.height, f.bit_depth, f.color_type, f.data@)),
        r matches Ok(f) ==> png_color_code(f.color_type),
        r matches Ok(f) ==> f.bit_depth == 1 || f.bit_depth == 2 || f.bit_depth == 4 || f.bit_depth == 8 || f.bit_depth == 16,
        r matches Ok(f) ==> (f.bit_depth == 8 ==> f.data@.len() == f.width * f.height * spec_pixel_size(spec_color_type(f.color_type))),
{
    let mut reader = match ::png::Decoder::new(bytes).read_info() { Ok(reader) => reader, Err(e) => return Err(e) };
    let mut buf = vec![0; reader.output_buffer_size()];
    let info = match reader.next_frame(&mut buf) { Ok(info) => info, Err(e) => return Err(e) };
    buf.truncate(info.buffer_size());
    Ok(PngFrame { width: info.width, height: info.height, bit_depth: info.bit_depth as u8, color_type: info.color_type as u8, data: buf })
}

/// Encode an 8-bit RGBA image of the given width and height with the bytes `rgba` with
/// the `png` crate: `Encoder::new` over a `Vec`, RGBA colour and 8-bit depth,
/// `Encoder::write_header`, `Writer::write_image_data`, then `Writer::finish`.
///
/// Claimed of the crate: the result is a function of the arguments. What the error
/// holds is not stated.
#[verifier::external_body]
fn encode_png(width: u32, height: u32, rgba: &[u8]) -> (r: Result<Vec<u8>, ::png::EncodingError>)
    ensures
        r is Ok <==> png_encoded(width, height, rgba@) is Some,
        r matches Ok(v) ==> png_encoded(width, height, rgba@) == Some(v@),
{
    let mut out: Vec<u8> = Vec::new();
    let mut encoder = ::png::Encoder::new(&mut out, width, height);
    encoder.set_color(::png::ColorType::Rgba);
    encoder.set_depth(::png::BitDepth::Eight);
    let mut writer = match encoder.write_header() { Ok(writer) => writer, Err(e) => return Err(e) };
    match writer.write_image_data(rgba) { Ok(()) => {}, Err(e) => return Err(e) }
    match writer.finish() { Ok(()) => Ok(out), Err(e) => Err(e) }
}

/// Why a PNG file cannot be read into an image.
#[derive(Debug)]
pub enum PngReadError {
    /// The `png` crate could not decode it.
    Decoding(::png::DecodingError),
    /// Its frame is not 8-bit, or holds palette indices.
    Format(PngFormatError),
    /// Its width or height is not that of an image.
    Size(SizeCreationError),
}

/// Why an image cannot be written as a PNG file.
#[derive(Debug)]
pub enum PngWriteError {
    /// The `png` crate could not encode it.
    Encoding(::png::EncodingError),
}

/// The colour type with the PNG number `code`, which is one of PNG's.
fn color_type_of(code: u8) -> (r: ColorType)
    requires
        png_color_code(code),
    ensures
        r == spec_color_type(code),
{
    if code == 0 {
        ColorType::Grayscale
    } else if code == 2 {
        ColorType::Rgb
    } else if code == 3 {
        ColorType::Indexed
    } else if code == 4 {
        ColorType::GrayscaleAlpha
    } else {
        ColorType::Rgba
    }
}

/// What reading a PNG file whose first frame is `frame` gives, short of the image's
/// pixels: the format error, the size error, or the image's dimensions.
pub open spec fn png_read_outcome(frame: (u32, u32, u8, u8, Seq<u8>)) -> Result<(int, int), PngReadError> {
    let (width, height, depth, code, data) = frame;
    if depth != 8 {
        Err(PngReadError::Format(PngFormatError::BitDepthNotEight))
    } else if spec_color_type(code) == ColorType::Indexed {
        Err(PngReadError::Format(PngFormatError::IndexedColor))
    } else {
        match size_new_result(width as int, height as int) {
            Ok(dims) => Ok(dims),
            Err(e) => Err(PngReadError::Size(e)),
        }
    }
}

/// Read the PNG file `bytes` into an image.
///
/// Fails with `Decoding` where the `png` crate cannot decode it; then, checking its
/// first frame, with `Format(BitDepthNotEight)` unless the frame has 8 bits per sample,
/// with `Format(IndexedColor)` where it holds palette indices, and with `Size` where its
/// width or height is not that of an image. Otherwise the image has the frame's width
/// and height, and pixel `i`, row by row, is pixel `i` of the frame, grey levels giving
/// equal red, green and blue and alpha being 255 where the frame has none.
pub fn read_png_bytes(bytes: &[u8]) -> (r: Result<Image, PngReadError>)
    ensures
        png_frame(bytes@) is None ==> r matches Err(PngReadError::Decoding(_)),
        png_frame(bytes@) matches Some(frame) ==> match png_read_outcome(frame) {
            Err(e) => r == Err::<Image, PngReadError>(e),
            Ok(dims) => r matches Ok(image) && image@.0@ == dims && image@.1.len() == dims.0 * dims.1
                && forall|i: int| 0 <= i < image@.1.len() ==> #[trigger] image@.1[i]@ == frame_pixel(
                    frame.4,
                    spec_color_type(frame.3),
                    i,
                ),
        },
{
    let frame = match decode_png_frame(bytes) {
        Ok(frame) => frame,
        Err(e) => return Err(PngReadError::Decoding(e)),
    };
    let color_type = color_type_of(frame.color_type);
    match check_png_format(frame.bit_depth == 8, color_type) {
        Ok(()) => {},
        Err(e) => return Err(PngReadError::Format(e)),
    }
    proof {
        lemma_dimension_max();
    }
    let size = match Size::new(frame.width as usize, frame.height as usize) {
        Ok(size) => size,
        Err(e) => return Err(PngReadError::Size(e)),
    };
    let count = size.area();
    proof {
        let n = spec_pixel_size(color_type);
        assert(frame.data@.len() == (frame.width * frame.height) * n) by (nonlinear_arith)
            requires frame.data@.len() == frame.width * frame.height * n;
        assert(frame.data@.len() % n == 0) by (nonlinear_arith)
            requires frame.data@.len() == (frame.width * frame.height) * n, n >= 1;
    }
    let pixels = decode_pixels(&frame.data, color_type, count);
    let image = Image::new(size, pixels).unwrap();
    Ok(image)
}

/// Write `image` as an 8-bit RGBA PNG file: the file that the `png` crate encodes from
/// its width, height and raw RGBA bytes, or `Encoding` where it fails to.
pub fn write_png_bytes(image: &Image) -> (r: Result<Vec<u8>, PngWriteError>)
    ensures
        match png_encoded(image@.0@.0 as u32, image@.0@.1 as u32, rgba_bytes(image@.1)) {
            Some(file) => r matches Ok(v) && v@ == file,
            None => r matches Err(PngWriteError::Encoding(_)),
        },
{
    let size = image.size();
    let (width, height) = (size.width(), size.height());
    proof {
        lemma_dimension_max();
    }
    let buffer = image.buffer();
    match encode_png(width as u32, height as u32, &buffer) {
        Ok(file) => Ok(file),
        Err(e) => Err(PngWriteError::Encoding(e)),
    }
}

/// What reading a PNG frame gives for each colour type that PNG numbers: a frame that is
/// not 8-bit is refused for its bit depth; an 8-bit frame of palette indices (type 3) is
/// refused; an 8-bit frame of valid dimensions of type 0 (grey), 2 (RGB), 4 (grey with
/// alpha) or 6 (RGBA) is read, and its pixel `i`, whose bytes lie within `data`, is:
/// the grey byte thrice with alpha 255; the three RGB bytes with alpha 255; the grey
/// byte thrice with its alpha byte; or the four RGBA bytes.
pub proof fn law_png_color_types(width: u32, height: u32, depth: u8, code: u8, data: Seq<u8>, i: int)
    requires
        valid_dims(width as int, height as int),
        0 <= i,
    ensures
        depth != 8 ==> png_read_outcome((width, height, depth, code, data)) == Err::<(int, int), PngReadError>(
            PngReadError::Format(PngFormatError::BitDepthNotEight),
        ),
        depth == 8 && code == 3 ==> png_read_outcome((width, height, depth, code, data)) == Err::<(int, int), PngReadError>(
            PngReadError::Format(PngFormatError::IndexedColor),
        ),
        depth == 8 && (code == 0 || code == 2 || code == 4 || code == 6) ==> png_read_outcome(
            (width, height, depth, code, data),
        ) == Ok::<(int, int), PngReadError>((width as int, height as int)),
        code == 0 && i + 1 <= data.len() ==> frame_pixel(data, spec_color_type(code), i) == (data[i], data[i], data[i], 255u8),
        code == 2 && 3 * i + 3 <= data.len() ==> frame_pixel(data, spec_color_type(code), i) == (
            data[3 * i],
            data[3 * i + 1],
            data[3 * i + 2],
            255u8,
        ),
        code == 4 && 2 * i + 2 <= data.len() ==> frame_pixel(data, spec_color_type(code), i) == (
            data[2 * i],
            data[2 * i],
            data[2 * i],
            data[2 * i + 1],
        ),
        code == 6 && 4 * i + 4 <= data.len() ==> frame_pixel(data, spec_color_type(code), i) == (
            data[4 * i],
            data[4 * i + 1],
            data[4 * i + 2],
            data[4 * i + 3],
        ),
{
    if code == 0 && i + 1 <= data.len() {
        assert(spec_pixel_size(spec_color_type(code)) == 1);
        assert((i + 1) * 1 == i + 1 && i * 1 == i);
        assert(data.subrange(i, i + 1)[0] == data[i]);
        assert(frame_pixel(data, spec_color_type(code), i) == (data[i], data[i], data[i], 255u8));
    }
    if code == 2 && 3 * i + 3 <= data.len() {
        let px = data.subrange(3 * i, 3 * i + 3);
        assert(spec_pixel_size(spec_color_type(code)) == 3);
        assert((i + 1) * 3 == 3 * i + 3 && i * 3 == 3 * i);
        assert(px[0] == data[3 * i] && px[1] == data[3 * i + 1] && px[2] == data[3 * i + 2]);
        assert(frame_pixel(data, spec_color_type(code), i) == (data[3 * i], data[3 * i + 1], data[3 * i + 2], 255u8));
    }
    if code == 4 && 2 * i + 2 <= data.len() {
        let px = data.subrange(2 * i, 2 * i + 2);
        assert(px[0] == data[2 * i] && px[1] == data[2 * i + 1]);
    }
    if code == 6 && 4 * i + 4 <= data.len() {
        let px = data.subrange(4 * i, 4 * i + 4);
        assert(px[0] == data[4 * i] && px[1] == data[4 * i + 1] && px[2] == data[4 * i + 2] && px[3] == data[4 * i + 3]);
    }
}

} // verus!
