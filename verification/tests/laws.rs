use img::component::primitive::{Margin, Offset, Point, Size};
use img::image::Image;
use img::io::pixels_from_rgba;
use img::ops::blur::median::median_blur;
use img::pixel::Pixel;

#[test]
fn index_then_from_index() {
    let size = Size::new(7, 5).unwrap();
    for y in 0..5 {
        for x in 0..7 {
            let p = Point::new(x, y).unwrap();
            let index = p.index(size).unwrap();
            assert_eq!(Point::from_index(index, size).unwrap(), p);
        }
    }
}

#[test]
fn translate_and_back() {
    let p = Point::new(4, 9).unwrap();
    for (dx, dy) in [(0, 0), (3, -2), (-4, 5), (-4, -9), (100, 1)] {
        let o = Offset::new(dx, dy).unwrap();
        let moved = p.translate(o).unwrap();
        assert_eq!(moved.translate(-o).unwrap(), p);
    }
    assert!(p.translate(Offset::new(-5, 0).unwrap()).is_err());
}

#[test]
fn translate_by_difference_and_sub() {
    let a = Point::new(3, 8).unwrap();
    let b = Point::new(10, 2).unwrap();
    assert_eq!(a.translate(b - a).unwrap(), b);
    assert_eq!(b.translate(a - b).unwrap(), a);
    assert_eq!(a - b, -(b - a));
}

#[test]
fn offset_point_roundtrip() {
    let p = Point::new(12, 34).unwrap();
    assert_eq!(Point::try_from(Offset::from(p)).unwrap(), p);
    let o = Offset::new(-3, 7).unwrap();
    assert_eq!(-(-o), o);
}

#[test]
fn shrink_and_extend_are_inverse() {
    let size = Size::new(20, 10).unwrap();
    let margin = Margin::new(1, 2, 3, 4).unwrap();
    assert_eq!(size.shrink_by_margin(margin).unwrap().extend_by_margin(margin).unwrap(), size);
    assert_eq!(size.extend_by_margin(margin).unwrap().shrink_by_margin(margin).unwrap(), size);
}

#[test]
fn order_is_reversed_when_swapped() {
    let sizes = [Size::new(1, 1).unwrap(), Size::new(2, 1).unwrap(), Size::new(1, 2).unwrap(), Size::new(2, 2).unwrap()];
    for a in sizes {
        for b in sizes {
            assert_eq!(a.partial_cmp(&b).map(|o| o.reverse()), b.partial_cmp(&a));
        }
    }
}

#[test]
fn buffer_reads_back() {
    let pixels = vec![Pixel::new([1, 2, 3, 4]), Pixel::new([9, 8, 7, 6]), Pixel::new([0, 0, 255, 128])];
    let image = Image::new(Size::new(3, 1).unwrap(), pixels.clone()).unwrap();
    assert_eq!(pixels_from_rgba(&image.buffer()), pixels);
}

#[test]
fn median_of_uniform_image() {
    let u = Pixel::new([3, 0, 77, 5]);
    let image = Image::new(Size::new(6, 5).unwrap(), vec![u; 30]).unwrap();
    for radius in 0..3 {
        let out = median_blur(&image, radius).unwrap();
        assert_eq!(out.buffer(), vec![3, 0, 77, 5].repeat(out.size().area()));
    }
}
