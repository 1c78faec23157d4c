use img::component::primitive::{Point, Size};
use img::error::OutOfBoundsError;
use img::image::Image;
use img::ops::blur::gaussian::offset_to_point;
use img::ops::blur::median::{Error as MedianError, median_blur, output_size};
use img::ops::geometry::crop::{Error as CropError, crop};
use img::pixel::Pixel;

#[test]
fn test_offset_to_point() {
    assert_eq!(offset_to_point((0, 0), 2), Ok(Point::new(2, 2).unwrap()));
    assert_eq!(offset_to_point((-2, -2), 2), Ok(Point::new(0, 0).unwrap()));
    assert_eq!(offset_to_point((2, 2), 2), Ok(Point::new(4, 4).unwrap()));
    assert_eq!(offset_to_point((3, 2), 2), Err(OutOfBoundsError));
    assert_eq!(offset_to_point((-3, -2), 2), Err(OutOfBoundsError));
}

#[test]
fn offset_to_point_truncates_radius() {
    let wide: usize = (1usize << 32) + 2;
    assert_eq!(offset_to_point((-2, 1), wide), Ok(Point::new(0, 3).unwrap()));
    assert_eq!(offset_to_point((3, 0), wide), Err(OutOfBoundsError));
    assert_eq!(offset_to_point((0, 0), 0x8000_0000usize), Err(OutOfBoundsError));
}

fn numbered_image(width: usize, height: usize) -> Image {
    let size = Size::new(width, height).unwrap();
    let pixels = (0..width * height)
        .map(|i| Pixel::new([i as u8, (i * 2) as u8, (i * 3) as u8, 100 + i as u8]))
        .collect();
    Image::new(size, pixels).unwrap()
}

#[test]
fn median_blur_radius_too_big() {
    let image = numbered_image(4, 6);
    assert_eq!(median_blur(&image, 2).unwrap_err(), MedianError::RadiusTooBig);
    assert!(median_blur(&image, 1).is_ok());
}

#[test]
fn median_output_size_matches_blur() {
    let image = numbered_image(7, 5);
    assert_eq!(output_size(&image, 0), Ok(Size::new(7, 5).unwrap()));
    assert_eq!(output_size(&image, 2), Ok(Size::new(3, 1).unwrap()));
    assert_eq!(output_size(&image, 3), Err(MedianError::RadiusTooBig));
    assert_eq!(median_blur(&image, 2).unwrap().size(), Size::new(3, 1).unwrap());
}

#[test]
fn median_blur_shrinks_and_keeps_alpha() {
    let image = numbered_image(5, 4);
    let out = median_blur(&image, 1).unwrap();
    assert_eq!(out.size(), Size::new(3, 2).unwrap());
    for y in 0..2 {
        for x in 0..3 {
            let p = Point::new(x, y).unwrap();
            assert_eq!(out.pixel(p).unwrap().a(), image.pixel(p).unwrap().a());
        }
    }
}

#[test]
fn median_blur_radius_zero_is_identity_on_colors() {
    let image = numbered_image(3, 3);
    let out = median_blur(&image, 0).unwrap();
    assert_eq!(out.size(), image.size());
    assert_eq!(out.buffer(), image.buffer());
}

#[test]
fn median_blur_uniform_image() {
    let size = Size::new(4, 4).unwrap();
    let image = Image::new(size, vec![Pixel::new([7, 8, 9, 10]); 16]).unwrap();
    let out = median_blur(&image, 1).unwrap();
    for y in 0..2 {
        for x in 0..2 {
            assert_eq!(out.pixel(Point::new(x, y).unwrap()).unwrap(), &Pixel::new([7, 8, 9, 10]));
        }
    }
}

#[test]
fn ops_crop_copies_area() {
    let image = numbered_image(5, 4);
    let out = crop(&image, Size::new(2, 3).unwrap(), (2, 1)).unwrap();
    assert_eq!(out.size(), Size::new(2, 3).unwrap());
    for y in 0..3 {
        for x in 0..2 {
            assert_eq!(
                out.pixel(Point::new(x, y).unwrap()).unwrap(),
                image.pixel(Point::new(x + 2, y + 1).unwrap()).unwrap()
            );
        }
    }
}

#[test]
fn ops_crop_errors() {
    let image = numbered_image(5, 4);
    assert_eq!(crop(&image, Size::new(5, 4).unwrap(), (0, 0)).unwrap_err(), CropError::SizeTooBig);
    assert_eq!(crop(&image, Size::new(6, 2).unwrap(), (0, 0)).unwrap_err(), CropError::SizeTooBig);
    assert_eq!(crop(&image, Size::new(2, 2).unwrap(), (6, 0)).unwrap_err(), CropError::OffsetTooBig);
    assert_eq!(crop(&image, Size::new(2, 2).unwrap(), (4, 0)).unwrap_err(), CropError::OutOfBounds);
    assert_eq!(crop(&image, Size::new(2, 2).unwrap(), (0, 3)).unwrap_err(), CropError::OutOfBounds);
}
