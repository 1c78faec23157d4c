use itertools::Itertools;
use rand::rngs::SmallRng;
use rand::{Rng, SeedableRng};

use img::component::primitive::{DIMENSION_MAX, Point, Size};
use img::error::IndexError;
use img::image::{CreationError, Image};
use img::lens::{FromLens, Lens, LensExt};
use img::pixel::Pixel;

fn random_image(size: Size, rng: &mut SmallRng) -> Image {
    let pixels = (0..size.area()).map(|_| Pixel::new(rng.random())).collect();
    Image::new(size, pixels).unwrap()
}

#[test]
fn test_dimension_max() {
    assert!(DIMENSION_MAX < isize::MAX as usize);
    assert!((DIMENSION_MAX as u128 * DIMENSION_MAX as u128) < usize::MAX as u128);
}

#[test]
fn image_test_new_err() {
    let size = Size::new(2, 2).unwrap();
    let bad_size = Size::new(2, 3).unwrap();
    let pixels = vec![Pixel::zero(); size.area()];
    let image = Image::new(bad_size, pixels.clone());
    assert_eq!(image.unwrap_err(), CreationError::SizePixelsMismatch);
}

#[test]
fn test_empty() {
    let size = Size::new(2, 2).unwrap();
    let image = Image::empty(size);
    assert_eq!(size, image.size());
    for (x, y) in (0..2).cartesian_product(0..2) {
        assert_eq!(image.pixel(Point::new(x, y).unwrap()).unwrap(), &Pixel::zero());
    }
}

#[test]
fn test_random() {
    let size = Size::new(2, 2).unwrap();
    let image = random_image(size, &mut SmallRng::seed_from_u64(0));
    assert_eq!(size, image.size());
    assert_eq!(image.buffer().len() / 4, size.area());
}

#[test]
fn test_pixel_ok() {
    let size = Size::new(2, 2).unwrap();
    let image = Image::empty(size);
    let point = Point::new(1, 1).unwrap();
    assert_eq!(image.pixel(point).unwrap(), &Pixel::zero());
}

#[test]
fn test_pixel_oob() {
    let size = Size::new(2, 2).unwrap();
    let image = Image::empty(size);
    let point = Point::new(2, 1).unwrap();
    assert_eq!(image.pixel(point).unwrap_err(), IndexError::OutOfBounds);
}

#[test]
fn test_pixel_mut_ok() {
    let size = Size::new(2, 2).unwrap();
    let mut image = Image::empty(size);
    let point = Point::new(1, 1).unwrap();
    assert_eq!(image.pixel_mut(point).unwrap(), &Pixel::zero());
}

#[test]
fn test_pixel_mut_oob() {
    let size = Size::new(2, 2).unwrap();
    let mut image = Image::empty(size);
    let point = Point::new(2, 1).unwrap();
    assert_eq!(image.pixel_mut(point).unwrap_err(), IndexError::OutOfBounds);
}

#[test]
fn test_buffer_consistency() {
    let size = Size::new(2, 1).unwrap();
    let pixels = vec![Pixel::new([1, 2, 3, 4]), Pixel::new([5, 6, 7, 8])];
    let image = Image::new(size, pixels).unwrap();
    let buffer = image.buffer();
    assert_eq!(buffer, vec![1, 2, 3, 4, 5, 6, 7, 8]);
}

#[test]
fn test_lens() {
    let size = Size::new(2, 2).unwrap();
    let image = random_image(size, &mut SmallRng::seed_from_u64(0));
    let lens = image.lens();
    assert_eq!(image.size(), lens.size());
    for (x, y) in (0..2).cartesian_product(0..2) {
        let point = Point::new(x, y).unwrap();
        assert_eq!(image.pixel(point).unwrap(), lens.look(point).unwrap());
    }
}

#[test]
fn test_from_lens() {
    let size = Size::new(2, 2).unwrap();
    let image1 = random_image(size, &mut SmallRng::seed_from_u64(0));
    let image2 = Image::from_lens(image1.lens().cloned());
    assert_eq!(image1.size(), image2.size());
    for (x, y) in (0..2).cartesian_product(0..2) {
        let point = Point::new(x, y).unwrap();
        assert_eq!(image1.pixel(point).unwrap(), image2.pixel(point).unwrap());
    }
}

#[test]
fn pixel_mut_writes_back() {
    let size = Size::new(2, 2).unwrap();
    let mut image = Image::empty(size);
    let point = Point::new(1, 0).unwrap();
    image.pixel_mut(point).unwrap().set_g(9);
    assert_eq!(image.pixel(point).unwrap(), &Pixel::new([0, 9, 0, 0]));
    assert_eq!(image.buffer(), vec![0, 0, 0, 0, 0, 9, 0, 0, 0, 0, 0, 0, 0, 0, 0, 0]);
}

#[test]
fn clone_keeps_pixels() {
    let size = Size::new(3, 2).unwrap();
    let image = random_image(size, &mut SmallRng::seed_from_u64(3));
    let copy = image.clone();
    assert_eq!(image.buffer(), copy.buffer());
    assert_eq!(image.size(), copy.size());
}
