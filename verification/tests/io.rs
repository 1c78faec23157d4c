use img::io::jpeg::{JpegQuality, JpegQualityCreationError, JpegSubsampling};
use img::io::{ColorType, PngFormatError, check_png_format, decode_pixels, pixel_size_by_color_type, pixels_from_rgba};
use img::component::primitive::{Point, Size};
use img::image::Image;
use img::io::codec::{PngReadError, read_png_bytes, write_png_bytes};
use img::pixel::Pixel;

#[test]
fn pixel_sizes() {
    assert_eq!(pixel_size_by_color_type(ColorType::Grayscale), 1);
    assert_eq!(pixel_size_by_color_type(ColorType::Rgb), 3);
    assert_eq!(pixel_size_by_color_type(ColorType::Indexed), 1);
    assert_eq!(pixel_size_by_color_type(ColorType::GrayscaleAlpha), 2);
    assert_eq!(pixel_size_by_color_type(ColorType::Rgba), 4);
}

#[test]
fn png_format_checks() {
    assert_eq!(check_png_format(false, ColorType::Rgb), Err(PngFormatError::BitDepthNotEight));
    assert_eq!(check_png_format(false, ColorType::Indexed), Err(PngFormatError::BitDepthNotEight));
    assert_eq!(check_png_format(true, ColorType::Indexed), Err(PngFormatError::IndexedColor));
    assert_eq!(check_png_format(true, ColorType::Rgba), Ok(()));
}

#[test]
fn decode_each_color_type() {
    assert_eq!(decode_pixels(&[7, 9], ColorType::Grayscale, 2), vec![Pixel::new([7, 7, 7, 255]), Pixel::new([9, 9, 9, 255])]);
    assert_eq!(decode_pixels(&[1, 2, 3], ColorType::Rgb, 1), vec![Pixel::new([1, 2, 3, 255])]);
    assert_eq!(decode_pixels(&[5, 6], ColorType::GrayscaleAlpha, 1), vec![Pixel::new([5, 5, 5, 6])]);
    assert_eq!(decode_pixels(&[1, 2, 3, 4], ColorType::Rgba, 1), vec![Pixel::new([1, 2, 3, 4])]);
}

#[test]
fn decode_pads_missing_pixels_with_zero() {
    assert_eq!(
        decode_pixels(&[1, 2, 3], ColorType::Rgb, 3),
        vec![Pixel::new([1, 2, 3, 255]), Pixel::zero(), Pixel::zero()]
    );
    assert_eq!(decode_pixels(&[1, 2, 3, 4, 5, 6], ColorType::Rgb, 1), vec![Pixel::new([1, 2, 3, 255])]);
}

#[test]
fn rgba_bytes_to_pixels() {
    assert_eq!(
        pixels_from_rgba(&[1, 2, 3, 4, 5, 6, 7, 8]),
        vec![Pixel::new([1, 2, 3, 4]), Pixel::new([5, 6, 7, 8])]
    );
    assert_eq!(pixels_from_rgba(&[]), Vec::<Pixel>::new());
    let bytes = [9, 8, 7, 6, 5, 4, 3, 2];
    assert_eq!(decode_pixels(&bytes, ColorType::Rgba, 2), pixels_from_rgba(&bytes));
}

#[test]
fn jpeg_quality_range() {
    assert_eq!(JpegQuality::new(0).unwrap().value(), 0);
    assert_eq!(JpegQuality::new(100).unwrap().value(), 100);
    assert_eq!(JpegQuality::new(-1).unwrap_err(), JpegQualityCreationError::InvalidValue);
    assert_eq!(JpegQuality::new(101).unwrap_err(), JpegQualityCreationError::InvalidValue);
    assert_eq!(JpegQuality::default().value(), 75);
    assert_eq!(JpegSubsampling::default(), JpegSubsampling::Sub2x2);
}

fn encode_with(width: u32, height: u32, color: png::ColorType, depth: png::BitDepth, palette: Option<Vec<u8>>, data: &[u8]) -> Vec<u8> {
    let mut out = Vec::new();
    {
        let mut encoder = png::Encoder::new(&mut out, width, height);
        encoder.set_color(color);
        encoder.set_depth(depth);
        if let Some(palette) = palette {
            encoder.set_palette(palette);
        }
        let mut writer = encoder.write_header().unwrap();
        writer.write_image_data(data).unwrap();
        writer.finish().unwrap();
    }
    out
}

#[test]
fn write_png_success() {
    let image = Image::empty(Size::new(10, 10).unwrap());
    let file = write_png_bytes(&image).unwrap();
    assert_eq!(&file[..8], &[137, 80, 78, 71, 13, 10, 26, 10]);
}

#[test]
fn write_read_same_image() {
    let mut image = Image::empty(Size::new(2, 2).unwrap());
    for (x, y) in [(0, 0), (0, 1), (1, 0), (1, 1)] {
        image.pixel_mut(Point::new(x, y).unwrap()).unwrap().set_r(1);
    }

    let data = write_png_bytes(&image).unwrap();
    let image2 = read_png_bytes(&data).unwrap();

    for (x, y) in [(0, 0), (0, 1), (1, 0), (1, 1)] {
        let p = Point::new(x, y).unwrap();
        assert_eq!(image.pixel(p).unwrap(), image2.pixel(p).unwrap());
    }
}

#[test]
fn read_png_converts_grayscale() {
    let file = encode_with(2, 1, png::ColorType::GrayscaleAlpha, png::BitDepth::Eight, None, &[10, 20, 30, 40]);
    let image = read_png_bytes(&file).unwrap();
    assert_eq!(image.size(), Size::new(2, 1).unwrap());
    assert_eq!(*image.pixel(Point::new(0, 0).unwrap()).unwrap(), Pixel::new([10, 10, 10, 20]));
    assert_eq!(*image.pixel(Point::new(1, 0).unwrap()).unwrap(), Pixel::new([30, 30, 30, 40]));

    let file = encode_with(1, 2, png::ColorType::Rgb, png::BitDepth::Eight, None, &[1, 2, 3, 4, 5, 6]);
    let image = read_png_bytes(&file).unwrap();
    assert_eq!(*image.pixel(Point::new(0, 1).unwrap()).unwrap(), Pixel::new([4, 5, 6, 255]));
}

#[test]
fn read_png_errors() {
    assert!(matches!(read_png_bytes(&[1, 2, 3]), Err(PngReadError::Decoding(_))));
    let deep = encode_with(1, 1, png::ColorType::Grayscale, png::BitDepth::Sixteen, None, &[0, 7]);
    assert!(matches!(read_png_bytes(&deep), Err(PngReadError::Format(PngFormatError::BitDepthNotEight))));
    let indexed = encode_with(1, 1, png::ColorType::Indexed, png::BitDepth::Eight, Some(vec![9, 9, 9]), &[0]);
    assert!(matches!(read_png_bytes(&indexed), Err(PngReadError::Format(PngFormatError::IndexedColor))));
}
