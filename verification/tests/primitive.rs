use std::cmp::Ordering;

use img::component::primitive::{
    DIMENSION_MAX, Margin, Offset, OffsetCreationError, Point, PointCreationError, Size, SizeCreationError,
};
use img::error::IndexError;

#[test]
fn margin_test_new_ok() {
    assert!(Margin::new(0, 0, 0, 0).is_ok());
    assert!(Margin::new(DIMENSION_MAX, 0, 0, 0).is_ok());
    assert!(Margin::new(0, DIMENSION_MAX, 0, 0).is_ok());
    assert!(Margin::new(0, 0, DIMENSION_MAX, 0).is_ok());
    assert!(Margin::new(0, 0, 0, DIMENSION_MAX).is_ok());
}

#[test]
fn offset_test_new_ok() {
    assert!(Offset::new(0, 0).is_ok());
    assert!(Offset::new(-(DIMENSION_MAX as isize) + 1, 0).is_ok());
    assert!(Offset::new(0, -(DIMENSION_MAX as isize) + 1).is_ok());
    assert!(Offset::new((DIMENSION_MAX as isize) - 1, 0).is_ok());
    assert!(Offset::new(0, (DIMENSION_MAX as isize) - 1).is_ok());
}

#[test]
fn offset_test_new_err() {
    assert_eq!(Offset::new(-(DIMENSION_MAX as isize), 0).unwrap_err(), OffsetCreationError::XTooSmall);
    assert_eq!(Offset::new(0, -(DIMENSION_MAX as isize)).unwrap_err(), OffsetCreationError::YTooSmall);
    assert_eq!(Offset::new(DIMENSION_MAX as isize, 0).unwrap_err(), OffsetCreationError::XTooBig);
    assert_eq!(Offset::new(0, DIMENSION_MAX as isize).unwrap_err(), OffsetCreationError::YTooBig);
}

#[test]
fn test_from_point() {
    assert_eq!(Offset::from(Point::new(0, 0).unwrap()), Offset::new(0, 0).unwrap());
    assert_eq!(
        Offset::from(Point::new(DIMENSION_MAX - 1, 0).unwrap()),
        Offset::new((DIMENSION_MAX as isize) - 1, 0).unwrap()
    );
    assert_eq!(
        Offset::from(Point::new(0, DIMENSION_MAX - 1).unwrap()),
        Offset::new(0, (DIMENSION_MAX as isize) - 1).unwrap()
    );
}

#[test]
fn test_neg() {
    assert_eq!(-Offset::new(0, 0).unwrap(), Offset::new(0, 0).unwrap());
    assert_eq!(
        -Offset::new((DIMENSION_MAX as isize) - 1, 0).unwrap(),
        Offset::new(-(DIMENSION_MAX as isize) + 1, 0).unwrap()
    );
    assert_eq!(
        -Offset::new(0, (DIMENSION_MAX as isize) - 1).unwrap(),
        Offset::new(0, -(DIMENSION_MAX as isize) + 1).unwrap()
    );
}

#[test]
fn point_test_new_ok() {
    assert!(Point::new(0, 0).is_ok());
    assert!(Point::new(DIMENSION_MAX - 1, 0).is_ok());
    assert!(Point::new(0, DIMENSION_MAX - 1).is_ok());
}

#[test]
fn point_test_new_err() {
    assert_eq!(Point::new(DIMENSION_MAX, 0).unwrap_err(), PointCreationError::XTooBig);
    assert_eq!(Point::new(0, DIMENSION_MAX).unwrap_err(), PointCreationError::YTooBig);
}

#[test]
fn test_from_index_ok() {
    let size = Size::new(DIMENSION_MAX, DIMENSION_MAX).unwrap();
    assert_eq!(Point::from_index(1, size).unwrap(), Point::new(1, 0).unwrap());
    assert_eq!(Point::from_index(DIMENSION_MAX + 1, size).unwrap(), Point::new(1, 1).unwrap());
    assert_eq!(
        Point::from_index(DIMENSION_MAX * DIMENSION_MAX - 1, size).unwrap(),
        Point::new(DIMENSION_MAX - 1, DIMENSION_MAX - 1).unwrap()
    );
}

#[test]
fn test_from_index_err() {
    assert_eq!(
        Point::from_index(DIMENSION_MAX * DIMENSION_MAX, Size::new(DIMENSION_MAX, DIMENSION_MAX).unwrap())
            .unwrap_err(),
        IndexError::OutOfBounds
    );
    assert_eq!(Point::from_index(4, Size::new(2, 2).unwrap()).unwrap_err(), IndexError::OutOfBounds);
}

#[test]
fn test_index_ok() {
    assert_eq!(Point::new(0, 0).unwrap().index(Size::new(1, 1).unwrap()).unwrap(), 0);
    assert_eq!(
        Point::new(DIMENSION_MAX - 1, 0).unwrap().index(Size::new(DIMENSION_MAX, 1).unwrap()).unwrap(),
        DIMENSION_MAX - 1
    );
    assert_eq!(
        Point::new(0, DIMENSION_MAX - 1).unwrap().index(Size::new(1, DIMENSION_MAX).unwrap()).unwrap(),
        DIMENSION_MAX - 1
    );
    assert_eq!(
        Point::new(DIMENSION_MAX - 1, DIMENSION_MAX - 1)
            .unwrap()
            .index(Size::new(DIMENSION_MAX, DIMENSION_MAX).unwrap())
            .unwrap(),
        DIMENSION_MAX * DIMENSION_MAX - 1
    );
}

#[test]
fn test_index_err() {
    assert_eq!(Point::new(1, 0).unwrap().index(Size::new(1, 1).unwrap()).unwrap_err(), IndexError::OutOfBounds);
    assert_eq!(
        Point::new(DIMENSION_MAX - 1, 1).unwrap().index(Size::new(DIMENSION_MAX, 1).unwrap()).unwrap_err(),
        IndexError::OutOfBounds
    );
    assert_eq!(
        Point::new(1, DIMENSION_MAX - 1).unwrap().index(Size::new(1, DIMENSION_MAX).unwrap()).unwrap_err(),
        IndexError::OutOfBounds
    );
    assert_eq!(
        Point::new(DIMENSION_MAX - 1, DIMENSION_MAX - 1)
            .unwrap()
            .index(Size::new(DIMENSION_MAX, DIMENSION_MAX - 1).unwrap())
            .unwrap_err(),
        IndexError::OutOfBounds
    );
    assert_eq!(
        Point::new(DIMENSION_MAX - 1, DIMENSION_MAX - 1)
            .unwrap()
            .index(Size::new(DIMENSION_MAX - 1, DIMENSION_MAX - 1).unwrap())
            .unwrap_err(),
        IndexError::OutOfBounds
    );
}

#[test]
fn point_test_translate_ok() {
    assert!(Point::new(0, 0).unwrap().translate(Offset::new(0, 0).unwrap()).is_ok());
    assert!(Point::new(0, 0)
        .unwrap()
        .translate(Offset::new((DIMENSION_MAX as isize) - 1, (DIMENSION_MAX as isize) - 1).unwrap())
        .is_ok());
    assert!(Point::new(DIMENSION_MAX - 1, DIMENSION_MAX - 1)
        .unwrap()
        .translate(Offset::new(0, 0).unwrap())
        .is_ok());
    assert!(Point::new(DIMENSION_MAX - 1, DIMENSION_MAX - 1)
        .unwrap()
        .translate(Offset::new(-(DIMENSION_MAX as isize) + 1, -(DIMENSION_MAX as isize) + 1).unwrap())
        .is_ok());
}

#[test]
fn point_test_translate_err() {
    assert_eq!(
        Point::new(1, 1)
            .unwrap()
            .translate(Offset::new((DIMENSION_MAX as isize) - 1, (DIMENSION_MAX as isize) - 1).unwrap())
            .unwrap_err(),
        PointCreationError::XTooBig
    );
    assert_eq!(
        Point::new(1, 1).unwrap().translate(Offset::new((DIMENSION_MAX as isize) - 1, 0).unwrap()).unwrap_err(),
        PointCreationError::XTooBig
    );
    assert_eq!(
        Point::new(1, 1).unwrap().translate(Offset::new(0, (DIMENSION_MAX as isize) - 1).unwrap()).unwrap_err(),
        PointCreationError::YTooBig
    );
    assert_eq!(
        Point::new(DIMENSION_MAX - 1, DIMENSION_MAX - 1).unwrap().translate(Offset::new(1, 1).unwrap()).unwrap_err(),
        PointCreationError::XTooBig
    );
    assert_eq!(
        Point::new(DIMENSION_MAX - 1, DIMENSION_MAX - 1).unwrap().translate(Offset::new(1, 0).unwrap()).unwrap_err(),
        PointCreationError::XTooBig
    );
    assert_eq!(
        Point::new(DIMENSION_MAX - 1, DIMENSION_MAX - 1).unwrap().translate(Offset::new(0, 1).unwrap()).unwrap_err(),
        PointCreationError::YTooBig
    );
    assert_eq!(
        Point::new(0, 0).unwrap().translate(Offset::new(-1, -1).unwrap()).unwrap_err(),
        PointCreationError::XNegative
    );
    assert_eq!(
        Point::new(0, 0).unwrap().translate(Offset::new(-1, 1).unwrap()).unwrap_err(),
        PointCreationError::XNegative
    );
    assert_eq!(
        Point::new(0, 0).unwrap().translate(Offset::new(1, -1).unwrap()).unwrap_err(),
        PointCreationError::YNegative
    );
}

#[test]
fn test_sub() {
    assert_eq!(Point::new(0, 0).unwrap() - Point::new(0, 0).unwrap(), Offset::new(0, 0).unwrap());
    assert_eq!(
        Point::new(0, 0).unwrap() - Point::new(DIMENSION_MAX - 1, DIMENSION_MAX - 1).unwrap(),
        Offset::new(-(DIMENSION_MAX as isize) + 1, -(DIMENSION_MAX as isize) + 1).unwrap()
    );
    assert_eq!(
        Point::new(DIMENSION_MAX - 1, DIMENSION_MAX - 1).unwrap() - Point::new(DIMENSION_MAX - 1, DIMENSION_MAX - 1).unwrap(),
        Offset::new(0, 0).unwrap()
    );
    assert_eq!(
        Point::new(DIMENSION_MAX - 1, DIMENSION_MAX - 1).unwrap() - Point::new(0, 0).unwrap(),
        Offset::new(DIMENSION_MAX as isize - 1, DIMENSION_MAX as isize - 1).unwrap()
    );
}

#[test]
fn point_test_partial_cmp() {
    let p = |x: usize, y: usize| Point::new(x, y).unwrap();
    let m = DIMENSION_MAX - 1;
    assert_eq!(p(0, 0).partial_cmp(&p(0, 0)), Some(Ordering::Equal));
    assert_eq!(p(m, 0).partial_cmp(&p(m, 0)), Some(Ordering::Equal));
    assert_eq!(p(0, m).partial_cmp(&p(0, m)), Some(Ordering::Equal));
    assert_eq!(p(m, m).partial_cmp(&p(m, m)), Some(Ordering::Equal));

    assert_eq!(p(m, 0).partial_cmp(&p(0, 0)), Some(Ordering::Greater));
    assert_eq!(p(0, m).partial_cmp(&p(0, 0)), Some(Ordering::Greater));
    assert_eq!(p(m, m).partial_cmp(&p(0, 0)), Some(Ordering::Greater));
    assert_eq!(p(m, m).partial_cmp(&p(m, 0)), Some(Ordering::Greater));
    assert_eq!(p(m, m).partial_cmp(&p(0, m)), Some(Ordering::Greater));

    assert_eq!(p(0, 0).partial_cmp(&p(m, 0)), Some(Ordering::Less));
    assert_eq!(p(0, 0).partial_cmp(&p(0, m)), Some(Ordering::Less));
    assert_eq!(p(0, 0).partial_cmp(&p(m, m)), Some(Ordering::Less));
    assert_eq!(p(m, 0).partial_cmp(&p(m, m)), Some(Ordering::Less));
    assert_eq!(p(0, m).partial_cmp(&p(m, m)), Some(Ordering::Less));

    assert_eq!(p(m, 0).partial_cmp(&p(0, m)), None);
    assert_eq!(p(0, m).partial_cmp(&p(m, 0)), None);
}

#[test]
fn test_try_from_offset_ok() {
    assert_eq!(Point::try_from(Offset::new(0, 0).unwrap()).unwrap(), Point::new(0, 0).unwrap());
    assert_eq!(
        Point::try_from(Offset::new(DIMENSION_MAX as isize - 1, 0).unwrap()).unwrap(),
        Point::new(DIMENSION_MAX - 1, 0).unwrap()
    );
    assert_eq!(
        Point::try_from(Offset::new(0, DIMENSION_MAX as isize - 1).unwrap()).unwrap(),
        Point::new(0, DIMENSION_MAX - 1).unwrap()
    );
    assert_eq!(
        Point::try_from(Offset::new(DIMENSION_MAX as isize - 1, DIMENSION_MAX as isize - 1).unwrap()).unwrap(),
        Point::new(DIMENSION_MAX - 1, DIMENSION_MAX - 1).unwrap()
    );
}

#[test]
fn test_try_from_offset_err() {
    assert_eq!(
        Point::try_from(Offset::new(-(DIMENSION_MAX as isize) + 1, 0).unwrap()).unwrap_err(),
        PointCreationError::XNegative
    );
    assert_eq!(
        Point::try_from(Offset::new(0, -(DIMENSION_MAX as isize) + 1).unwrap()).unwrap_err(),
        PointCreationError::YNegative
    );
    assert_eq!(
        Point::try_from(Offset::new(-(DIMENSION_MAX as isize) + 1, -(DIMENSION_MAX as isize) + 1).unwrap()).unwrap_err(),
        PointCreationError::XNegative
    );
}

#[test]
fn new_ok() {
    assert!(Size::new(10, 20).is_ok());
    assert!(Size::new(DIMENSION_MAX, DIMENSION_MAX).is_ok());
}

#[test]
fn new_err() {
    assert_eq!(Size::new(0, 10).unwrap_err(), SizeCreationError::WidthZero);
    assert_eq!(Size::new(10, 0).unwrap_err(), SizeCreationError::HeightZero);
    assert_eq!(Size::new(DIMENSION_MAX + 1, 10).unwrap_err(), SizeCreationError::WidthTooBig);
    assert_eq!(Size::new(10, DIMENSION_MAX + 1).unwrap_err(), SizeCreationError::HeightTooBig);
}

#[test]
fn from_radius_ok() {
    assert!(Size::from_radius(0).is_ok());
    assert!(Size::from_radius(DIMENSION_MAX / 2).is_ok());
}
