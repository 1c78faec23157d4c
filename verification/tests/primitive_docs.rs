use std::cmp::Ordering;

use img::component::primitive::{DIMENSION_MAX, Margin, Point, Size, SizeCreationError};

#[test]
fn size_from_radius_values() {
    let small = Size::from_radius(0).unwrap();
    assert_eq!((small.width(), small.height()), (1, 1));
    let medium = Size::from_radius(15).unwrap();
    assert_eq!((medium.width(), medium.height()), (31, 31));
    let large = Size::from_radius(10_000).unwrap();
    assert_eq!((large.width(), large.height()), (20_001, 20_001));
    assert_eq!(Size::from_radius(DIMENSION_MAX / 2 + 1).unwrap_err(), SizeCreationError::WidthTooBig);
}

#[test]
fn size_middle_values() {
    assert_eq!(Size::new(1, 1).unwrap().middle().unwrap(), Point::new(0, 0).unwrap());
    assert_eq!(Size::new(10, 10).unwrap().middle().unwrap(), Point::new(5, 5).unwrap());
    assert_eq!(Size::new(11, 11).unwrap().middle().unwrap(), Point::new(5, 5).unwrap());
}

#[test]
fn size_contains_values() {
    let small = Size::new(1, 1).unwrap();
    assert!(small.contains(&Point::new(0, 0).unwrap()));
    assert!(!small.contains(&Point::new(1, 0).unwrap()));
    assert!(!small.contains(&Point::new(0, 1).unwrap()));
    let medium = Size::new(15, 30).unwrap();
    assert!(medium.contains(&Point::new(0, 0).unwrap()));
    assert!(medium.contains(&Point::new(14, 29).unwrap()));
    assert!(!medium.contains(&Point::new(15, 0).unwrap()));
    assert!(!medium.contains(&Point::new(0, 30).unwrap()));
    let large = Size::new(1000, 1000).unwrap();
    assert!(large.contains(&Point::new(999, 999).unwrap()));
    assert!(!large.contains(&Point::new(1000, 0).unwrap()));
    assert!(!large.contains(&Point::new(0, 1000).unwrap()));
}

#[test]
fn size_shrink_values() {
    let size = Size::new(10, 20).unwrap();
    let reduced = size.shrink_by_margin(Margin::new(2, 3, 4, 5).unwrap()).unwrap();
    assert_eq!((reduced.width(), reduced.height()), (2, 14));
    assert_eq!(size.shrink_by_margin(Margin::new(0, 4, 0, 6).unwrap()), Err(SizeCreationError::WidthZero));
    assert_eq!(size.shrink_by_margin(Margin::new(14, 0, 6, 0).unwrap()), Err(SizeCreationError::HeightZero));
}

#[test]
fn size_extend_values() {
    let size = Size::new(10, 20).unwrap();
    let increased = size.extend_by_margin(Margin::new(2, 3, 4, 5).unwrap()).unwrap();
    assert_eq!((increased.width(), increased.height()), (18, 26));
    assert_eq!(
        size.extend_by_margin(Margin::new(0, DIMENSION_MAX - 1, 0, 6).unwrap()),
        Err(SizeCreationError::WidthTooBig)
    );
    assert_eq!(
        size.extend_by_margin(Margin::new(DIMENSION_MAX - 1, 0, 6, 0).unwrap()),
        Err(SizeCreationError::HeightTooBig)
    );
}

#[test]
fn size_partial_cmp_values() {
    let s = |w: usize, h: usize| Size::new(w, h).unwrap();
    assert_eq!(s(10, 10).partial_cmp(&s(10, 10)), Some(Ordering::Equal));
    assert_eq!(s(10, 10).partial_cmp(&s(20, 20)), Some(Ordering::Less));
    assert_eq!(s(10, 10).partial_cmp(&s(10, 20)), Some(Ordering::Less));
    assert_eq!(s(10, 10).partial_cmp(&s(20, 10)), Some(Ordering::Less));
    assert_eq!(s(20, 20).partial_cmp(&s(10, 10)), Some(Ordering::Greater));
    assert_eq!(s(20, 10).partial_cmp(&s(10, 10)), Some(Ordering::Greater));
    assert_eq!(s(10, 20).partial_cmp(&s(10, 10)), Some(Ordering::Greater));
    assert_eq!(s(20, 10).partial_cmp(&s(10, 20)), None);
    assert_eq!(s(10, 20).partial_cmp(&s(20, 10)), None);
}

#[test]
fn point_from_index_values() {
    let size = Size::new(2, 2).unwrap();
    assert_eq!(Point::from_index(0, size).unwrap(), Point::new(0, 0).unwrap());
    assert_eq!(Point::from_index(1, size).unwrap(), Point::new(1, 0).unwrap());
    assert_eq!(Point::zero(), Point::new(0, 0).unwrap());
}
