use img::collection::tracking_set::TrackingSet;
use img::component::primitive::{Area, AreaCreationError, Margin, Point, Size, SizeCreationError};
use img::error::IndexError;
use img::lens::border::{BorderFill, BorderLens};
use img::lens::materialize::MaterializeLens;
use img::lens::value::ValueLens;
use img::lens::{Lens, LensExt};
use img::pixel::{ChannelFlags, Pixel};

#[test]
fn tracking_set_queue_and_middle() {
    let mut set = TrackingSet::new();
    assert_eq!(set.mid(), None);
    assert_eq!(set.pop(), None);
    for v in [5u8, 1, 9, 3] {
        set.push(v);
    }
    assert_eq!(set.mid(), Some(&5));
    assert_eq!(set.pop(), Some(5));
    assert_eq!(set.mid(), Some(&3));
    assert_eq!(set.pop(), Some(1));
    assert_eq!(set.pop(), Some(9));
    assert_eq!(set.mid(), Some(&3));
    assert_eq!(set.pop(), Some(3));
    assert_eq!(set.mid(), None);
}

#[test]
fn tracking_set_duplicates_leave_with_first_pop() {
    let mut set = TrackingSet::default();
    set.push(4);
    set.push(4);
    set.push(2);
    assert_eq!(set.mid(), Some(&4));
    assert_eq!(set.pop(), Some(4));
    assert_eq!(set.mid(), Some(&2));
    assert_eq!(set.pop(), Some(4));
    assert_eq!(set.pop(), Some(2));
    assert_eq!(set.pop(), None);
}

#[test]
fn area_corners_and_contains() {
    let area = Area::new(Size::new(3, 2).unwrap(), Point::new(1, 4).unwrap());
    assert_eq!(area.size(), Size::new(3, 2).unwrap());
    assert_eq!(area.top_left(), Point::new(1, 4).unwrap());
    assert_eq!(area.top_right(), Point::new(4, 4).unwrap());
    assert_eq!(area.bottom_left(), Point::new(1, 6).unwrap());
    assert_eq!(area.bottom_right(), Point::new(4, 6).unwrap());
    assert!(area.contains(&Point::new(1, 4).unwrap()));
    assert!(area.contains(&Point::new(3, 5).unwrap()));
    assert!(!area.contains(&Point::new(4, 5).unwrap()));
    assert!(!area.contains(&Point::new(0, 5).unwrap()));
    assert!(!area.contains(&Point::new(2, 6).unwrap()));

    let cropped = Area::from_cropped_size(Size::new(10, 8).unwrap(), Margin::new(1, 2, 3, 4).unwrap()).unwrap();
    assert_eq!(cropped.size(), Size::new(4, 4).unwrap());
    assert_eq!(cropped.top_left(), Point::new(4, 1).unwrap());
    assert_eq!(
        Area::from_cropped_size(Size::new(5, 8).unwrap(), Margin::new(0, 2, 0, 3).unwrap()).unwrap_err(),
        AreaCreationError::SizeInvalid(SizeCreationError::WidthZero)
    );
}

#[test]
fn border_lens_picks_top_left() {
    let source = MaterializeLens::from_values(Size::new(2, 1).unwrap(), vec![7, 8]).unwrap();
    let lens = BorderLens::new(source, Margin::new(1, 0, 0, 1).unwrap(), BorderFill::PickZero);
    assert_eq!(lens.size(), Size::new(3, 2).unwrap());
    assert_eq!(lens.look(Point::new(1, 1).unwrap()).unwrap(), 7);
    assert_eq!(lens.look(Point::new(2, 1).unwrap()).unwrap(), 8);
    assert_eq!(lens.look(Point::new(0, 0).unwrap()).unwrap(), 7);
    assert_eq!(lens.look(Point::new(2, 0).unwrap()).unwrap(), 7);
    assert_eq!(lens.look(Point::new(3, 0).unwrap()).unwrap_err(), IndexError::OutOfBounds);
}

#[test]
fn lens_rows_and_elements() {
    let source = MaterializeLens::from_values(Size::new(2, 2).unwrap(), vec![1, 2, 3, 4]).unwrap();
    let mut rows = source.rows();
    let mut first = rows.next().unwrap();
    assert_eq!(first.next(), Some(1));
    assert_eq!(first.next(), Some(2));
    assert_eq!(first.next(), None);
    let mut second = rows.next().unwrap();
    assert_eq!(second.next(), Some(3));
    assert_eq!(second.next(), Some(4));
    assert!(rows.next().is_none());

    let mut elements = source.elements();
    let mut all = Vec::new();
    while let Some(v) = elements.next() {
        all.push(v);
    }
    assert_eq!(all, vec![1, 2, 3, 4]);

    let value = ValueLens::new('x', Size::new(1, 1).unwrap());
    assert_eq!(value.look(Point::new(0, 0).unwrap()).unwrap(), 'x');
    assert_eq!(value.look(Point::new(0, 1).unwrap()).unwrap_err(), IndexError::OutOfBounds);
}

#[test]
fn pixel_channels_and_flags() {
    let mut px = Pixel::new([1, 2, 3, 4]);
    assert_eq!((px.r(), px.g(), px.b(), px.a()), (1, 2, 3, 4));
    px.set_with_flags(9, 9, 9, 9, ChannelFlags::new(false, true, false, true));
    assert_eq!(px, Pixel::new([1, 9, 3, 9]));
    px.set_with_flags(7, 7, 7, 7, ChannelFlags::rgb());
    assert_eq!(px.buffer(), [7, 7, 7, 9]);
    px.set_r(0);
    px.set_a(255);
    assert_eq!(px, Pixel::new([0, 7, 7, 255]));
    assert_eq!(Pixel::zero(), Pixel::new([0, 0, 0, 0]));
}
