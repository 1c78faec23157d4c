use img::component::primitive::{Margin, Point, Size, SizeCreationError};
use img::error::IndexError;
use img::image::Image;
use img::lens::image::PixelLens;
use img::lens::image::colors::{BlueColorLens, ChannelLensFactory, ColorsLens, GreenColorLens, RedColorLens};
use img::lens::materialize::{MaterializeLens, materialize_row};
use img::lens::quick_split::QuickSplitLens;
use img::lens::split::{LensFactory, SplitLens2};
use img::component::kernel::identity::IdentityKernel;
use img::lens::kernel::KernelLensCreationError;
use img::lens::overlay::OverlayLensCreationError;
use img::lens::value::ValueLens;
use img::lens::{FromLens, Lens, LensExt, Mapping};
use img::operation::color::negative::{negative, negative_lens};
use img::operation::detection::edge::canny::{CannyCreationError, canny_border};
use img::operation::geometry::crop::crop;
use img::pixel::{ChannelFlags, Pixel};
use rand::rngs::StdRng;
use rand::{Rng, SeedableRng};

fn random_image(size: Size, rng: &mut StdRng) -> Image {
    let pixels = (0..size.area()).map(|_| Pixel::new(rng.random())).collect();
    Image::new(size, pixels).unwrap()
}

struct Keep;

impl<L: Lens<Item = u8>> ChannelLensFactory<L> for Keep {
    type Output = L;
    type Error = u8;

    fn build(self, source: L) -> Result<L, u8> {
        Ok(source)
    }
}

struct Fail(u8);

impl<L: Lens<Item = u8>> ChannelLensFactory<L> for Fail {
    type Output = L;
    type Error = u8;

    fn build(self, _source: L) -> Result<L, u8> {
        Err(self.0)
    }
}

struct Same;

impl<S: Lens> LensFactory<S> for Same {
    type Output = S;

    fn build(&self, source: S) -> S {
        source
    }
}

struct Double;

impl Mapping<i32> for Double {
    type Output = i32;

    fn apply(&self, value: i32) -> i32 {
        value * 2
    }
}

#[test]
fn test_crop_with_valid_margins() {
    let image = random_image(Size::new(10, 20).unwrap(), &mut StdRng::from_seed([7u8; 32]));

    let equal = crop(&image, Margin::new(0, 0, 0, 0).unwrap());
    assert!(equal.is_ok());
    assert_eq!(equal.unwrap().size(), Size::new(10, 20).unwrap());

    let top_right = crop(&image, Margin::new(5, 5, 0, 0).unwrap());
    assert!(top_right.is_ok());
    assert_eq!(top_right.unwrap().size(), Size::new(5, 15).unwrap());

    let bottom_left = crop(&image, Margin::new(0, 0, 5, 5).unwrap());
    assert!(bottom_left.is_ok());
    assert_eq!(bottom_left.unwrap().size(), Size::new(5, 15).unwrap());
}

#[test]
fn test_crop_with_invalid_margins() {
    let image = random_image(Size::new(10, 20).unwrap(), &mut StdRng::from_seed([7u8; 32]));

    let shrinked_horizontal = crop(&image, Margin::new(0, 5, 0, 5).unwrap());
    assert_eq!(shrinked_horizontal.unwrap_err(), SizeCreationError::WidthZero);

    let shrinked_vertical = crop(&image, Margin::new(10, 0, 10, 0).unwrap());
    assert_eq!(shrinked_vertical.unwrap_err(), SizeCreationError::HeightZero);

    let shrinked_both = crop(&image, Margin::new(10, 5, 10, 5).unwrap());
    assert_eq!(shrinked_both.unwrap_err(), SizeCreationError::WidthZero);

    let top_oob = crop(&image, Margin::new(20, 0, 0, 0).unwrap());
    assert_eq!(top_oob.unwrap_err(), SizeCreationError::HeightZero);

    let right_oob = crop(&image, Margin::new(0, 10, 0, 0).unwrap());
    assert_eq!(right_oob.unwrap_err(), SizeCreationError::WidthZero);

    let bottom_oob = crop(&image, Margin::new(0, 0, 20, 0).unwrap());
    assert_eq!(bottom_oob.unwrap_err(), SizeCreationError::HeightZero);

    let left_oob = crop(&image, Margin::new(0, 0, 0, 10).unwrap());
    assert_eq!(left_oob.unwrap_err(), SizeCreationError::WidthZero);
}

#[test]
fn crop_reads_shifted_points() {
    let image = random_image(Size::new(6, 5).unwrap(), &mut StdRng::from_seed([3u8; 32]));
    let out = crop(&image, Margin::new(1, 2, 0, 3).unwrap()).unwrap();
    assert_eq!(out.size(), Size::new(1, 4).unwrap());
    for y in 0..4 {
        assert_eq!(out.pixel(Point::new(0, y).unwrap()).unwrap(), image.pixel(Point::new(3, y + 1).unwrap()).unwrap());
    }
    let same = crop(&image, Margin::zero()).unwrap();
    assert_eq!(same.buffer(), image.buffer());
}

#[test]
fn negative_values_and_twice() {
    let image = Image::new(Size::new(2, 1).unwrap(), vec![Pixel::new([0, 10, 200, 255]), Pixel::new([1, 2, 3, 4])]).unwrap();
    let once = negative(&image, ChannelFlags::rgb());
    assert_eq!(once.pixel(Point::new(0, 0).unwrap()).unwrap(), &Pixel::new([255, 245, 55, 255]));
    assert_eq!(once.pixel(Point::new(1, 0).unwrap()).unwrap(), &Pixel::new([254, 253, 252, 4]));
    let all = negative(&image, ChannelFlags::rgba());
    assert_eq!(all.pixel(Point::new(1, 0).unwrap()).unwrap(), &Pixel::new([254, 253, 252, 251]));
    let twice = negative(&once, ChannelFlags::rgb());
    assert_eq!(twice.buffer(), image.buffer());
    let lens = negative_lens(image.lens(), ChannelFlags::new(true, false, false, false));
    assert_eq!(lens.look(Point::new(0, 0).unwrap()).unwrap(), Pixel::new([255, 10, 200, 255]));
}

#[test]
fn map_and_materialize() {
    let lens = ValueLens::new(21, Size::new(3, 2).unwrap()).map(Double);
    assert_eq!(lens.look(Point::new(2, 1).unwrap()).unwrap(), 42);
    assert_eq!(lens.look(Point::new(3, 1).unwrap()).unwrap_err(), IndexError::OutOfBounds);
    let materialized = lens.materialize();
    assert_eq!(materialized.size(), Size::new(3, 2).unwrap());
    assert_eq!(materialize_row(&materialized, 1), vec![42, 42, 42]);
    assert!(MaterializeLens::from_values(Size::new(2, 2).unwrap(), vec![1, 2, 3]).is_none());
    let from_values = MaterializeLens::from_values(Size::new(2, 2).unwrap(), vec![1, 2, 3, 4]).unwrap();
    assert_eq!(materialize_row(&from_values, 0), vec![1, 2]);
    assert_eq!(materialize_row(&from_values, 1), vec![3, 4]);
}

#[test]
fn kernel_and_overlay_methods() {
    let base = ValueLens::new(1u8, Size::new(4, 3).unwrap());
    let kernel = base.kernel(IdentityKernel::new()).unwrap();
    assert_eq!(kernel.size(), Size::new(4, 3).unwrap());
    assert_eq!(kernel.look(Point::new(3, 2).unwrap()).unwrap(), 1);
    let top = ValueLens::new(9u8, Size::new(2, 2).unwrap());
    let overlaid = base.overlay(top, Point::new(1, 1).unwrap()).unwrap();
    assert_eq!(overlaid.size(), Size::new(4, 3).unwrap());
    assert_eq!(overlaid.look(Point::new(0, 0).unwrap()).unwrap(), 1);
    assert_eq!(overlaid.look(Point::new(2, 2).unwrap()).unwrap(), 9);
    assert_eq!(overlaid.look(Point::new(3, 1).unwrap()).unwrap(), 1);
    assert_eq!(
        base.overlay(top, Point::new(3, 1).unwrap()).err(),
        Some(OverlayLensCreationError::OverlayTooBig)
    );
    assert_eq!(
        base.overlay(top, Point::new(4, 0).unwrap()).err(),
        Some(OverlayLensCreationError::OverlayStartOutOfBounds)
    );
    let sobel = ValueLens::new(0u8, Size::new(2, 3).unwrap()).kernel(img::component::kernel::sobel::SobelKernel::new());
    assert_eq!(sobel.err(), Some(KernelLensCreationError::KernelWidthTooBig));
}

#[test]
fn split_and_quick_split() {
    let source = ValueLens::new(5, Size::new(3, 4).unwrap());
    let split = SplitLens2::new(source, Same, Same);
    assert_eq!(split.size(), Size::new(3, 4).unwrap());
    assert_eq!(split.look(Point::new(1, 1).unwrap()).unwrap(), (5, 5));
    let quick = QuickSplitLens::new(source, Same, Same);
    assert_eq!(quick.size(), Size::new(3, 4).unwrap());
    assert_eq!(quick.look(Point::new(2, 3).unwrap()).unwrap(), (5, 5));
    assert_eq!(quick.look(Point::new(3, 3).unwrap()).unwrap_err(), IndexError::OutOfBounds);
}

#[test]
fn colors_lens_recombines_channels() {
    let image = Image::new(Size::new(2, 1).unwrap(), vec![Pixel::new([1, 2, 3, 4]), Pixel::new([5, 6, 7, 8])]).unwrap();
    let source = img::lens::cloned::ClonedLens::new(image.lens());
    let colors = ColorsLens::new(source, Keep, Keep, Keep, Keep).unwrap();
    assert_eq!(colors.size(), image.size());
    assert_eq!(colors.look(Point::new(1, 0).unwrap()).unwrap(), Pixel::new([5, 6, 7, 8]));
    assert_eq!(colors.look(Point::new(2, 0).unwrap()).unwrap_err(), IndexError::OutOfBounds);
    let rebuilt = Image::from_lens(colors);
    assert_eq!(rebuilt.buffer(), image.buffer());

    let failed = source.colors(Keep, Fail(2), Fail(3), Keep);
    assert_eq!(failed.err(), Some(2));
}

#[test]
fn channel_lenses_show_their_channel() {
    let image = Image::new(Size::new(1, 1).unwrap(), vec![Pixel::new([9, 8, 7, 6])]).unwrap();
    let source = img::lens::cloned::ClonedLens::new(image.lens());
    struct Check;
    impl ChannelLensFactory<RedColorLens> for Check {
        type Output = RedColorLens;
        type Error = u8;
        fn build(self, source: RedColorLens) -> Result<RedColorLens, u8> {
            assert_eq!(source.look(Point::new(0, 0).unwrap()).unwrap(), 9);
            Ok(source)
        }
    }
    struct CheckGreen;
    impl ChannelLensFactory<GreenColorLens> for CheckGreen {
        type Output = GreenColorLens;
        type Error = u8;
        fn build(self, source: GreenColorLens) -> Result<GreenColorLens, u8> {
            assert_eq!(source.look(Point::new(0, 0).unwrap()).unwrap(), 8);
            Ok(source)
        }
    }
    struct CheckBlue;
    impl ChannelLensFactory<BlueColorLens> for CheckBlue {
        type Output = BlueColorLens;
        type Error = u8;
        fn build(self, source: BlueColorLens) -> Result<BlueColorLens, u8> {
            assert_eq!(source.look(Point::new(0, 0).unwrap()).unwrap(), 7);
            Ok(source)
        }
    }
    let colors = source.colors(Check, CheckGreen, CheckBlue, Keep).unwrap();
    assert_eq!(colors.look(Point::new(0, 0).unwrap()).unwrap(), Pixel::new([9, 8, 7, 6]));
}

#[test]
fn canny_border_stage() {
    let image = Image::new(Size::new(1, 1).unwrap(), vec![Pixel::new([9, 9, 9, 9])]).unwrap();
    let (margin, lens) = canny_border(img::lens::cloned::ClonedLens::new(image.lens()), 2).unwrap();
    assert_eq!(margin, Margin::unified(2).unwrap());
    assert_eq!(lens.size(), Size::new(5, 5).unwrap());
    assert_eq!(lens.look(Point::new(2, 2).unwrap()).unwrap(), Pixel::new([9, 9, 9, 9]));
    assert_eq!(lens.look(Point::new(0, 2).unwrap()).unwrap(), Pixel::zero());
    let too_big = canny_border(img::lens::cloned::ClonedLens::new(image.lens()), img::component::primitive::DIMENSION_MAX + 1);
    assert_eq!(too_big.err().map(|e| e == CannyCreationError::GaussianRadiusTooBig), Some(true));
    let too_wide = canny_border(img::lens::cloned::ClonedLens::new(image.lens()), img::component::primitive::DIMENSION_MAX);
    assert_eq!(too_wide.err().map(|e| e == CannyCreationError::IntermediateLensTooBig), Some(true));
}
