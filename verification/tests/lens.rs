use itertools::Itertools;

use img::component::lens::border::value_border;
use img::component::primitive::{DIMENSION_MAX, Margin, Point, Size};
use img::error::IndexError;
use img::lens::Lens;
use img::lens::overlay::{OverlayLens, OverlayLensCreationError};
use img::lens::value::ValueLens;

#[test]
fn test_value_border_ok() {
    let no_margin = value_border(ValueLens::new(1, Size::new(1, 1).unwrap()), Margin::new(0, 0, 0, 0).unwrap(), 0);
    assert!(no_margin.is_ok());
    assert_eq!(no_margin.unwrap().size(), Size::new(1, 1).unwrap());

    let with_margin = value_border(ValueLens::new(1, Size::new(1, 1).unwrap()), Margin::new(1, 2, 3, 4).unwrap(), 0);
    assert!(with_margin.is_ok());
    assert_eq!(with_margin.unwrap().size(), Size::new(7, 5).unwrap());
}

#[test]
fn test_value_border_err() {
    assert!(value_border(ValueLens::new(1, Size::new(DIMENSION_MAX, 1).unwrap()), Margin::new(0, 1, 0, 0).unwrap(), 0)
        .is_err_and(|e| e == OverlayLensCreationError::OverlayTooBig));
    assert!(value_border(ValueLens::new(1, Size::new(1, DIMENSION_MAX).unwrap()), Margin::new(1, 0, 0, 0).unwrap(), 0)
        .is_err_and(|e| e == OverlayLensCreationError::OverlayTooBig));
    assert!(value_border(ValueLens::new(1, Size::new(DIMENSION_MAX, 1).unwrap()), Margin::new(0, 0, 0, 1).unwrap(), 0)
        .is_err_and(|e| e == OverlayLensCreationError::OverlayTooBig));
    assert!(value_border(ValueLens::new(1, Size::new(1, DIMENSION_MAX).unwrap()), Margin::new(0, 0, 1, 0).unwrap(), 0)
        .is_err_and(|e| e == OverlayLensCreationError::OverlayTooBig));
}

#[test]
fn test_value_border_works() {
    let lens = value_border(ValueLens::new(1, Size::new(1, 1).unwrap()), Margin::new(1, 2, 3, 4).unwrap(), 0).unwrap();
    let expected_one_point = Point::new(4, 1).unwrap();

    for point in (0..7).cartesian_product(0..5).map(|(x, y)| Point::new(x, y).unwrap()) {
        if point == expected_one_point {
            assert_eq!(lens.look(point).unwrap(), 1);
        } else {
            assert_eq!(lens.look(point).unwrap(), 0);
        }
    }

    assert_eq!(lens.size(), Size::new(7, 5).unwrap());
    assert_eq!(lens.look(Point::new(7, 0).unwrap()).unwrap_err(), IndexError::OutOfBounds);
    assert_eq!(lens.look(Point::new(0, 5).unwrap()).unwrap_err(), IndexError::OutOfBounds);
}

#[test]
fn overlay_test_new_ok() {
    assert!(OverlayLens::new(
        ValueLens::new(1, Size::new(1, 1).unwrap()),
        ValueLens::new(1, Size::new(1, 1).unwrap()),
        Point::new(0, 0).unwrap()
    )
    .is_ok());
}

#[test]
fn overlay_test_new_err() {
    assert!(OverlayLens::new(
        ValueLens::new(1, Size::new(1, 1).unwrap()),
        ValueLens::new(1, Size::new(1, 1).unwrap()),
        Point::new(1, 0).unwrap()
    )
    .is_err_and(|e| e == OverlayLensCreationError::OverlayStartOutOfBounds));
    assert!(OverlayLens::new(
        ValueLens::new(1, Size::new(1, 1).unwrap()),
        ValueLens::new(1, Size::new(1, 1).unwrap()),
        Point::new(0, 1).unwrap()
    )
    .is_err_and(|e| e == OverlayLensCreationError::OverlayStartOutOfBounds));
    assert!(OverlayLens::new(
        ValueLens::new(1, Size::new(1, 1).unwrap()),
        ValueLens::new(1, Size::new(2, 1).unwrap()),
        Point::new(0, 0).unwrap()
    )
    .is_err_and(|e| e == OverlayLensCreationError::OverlayTooBig));
    assert!(OverlayLens::new(
        ValueLens::new(1, Size::new(1, 1).unwrap()),
        ValueLens::new(1, Size::new(1, 2).unwrap()),
        Point::new(0, 0).unwrap()
    )
    .is_err_and(|e| e == OverlayLensCreationError::OverlayTooBig));
}

#[test]
fn test_look() {
    let overlay_top_left = OverlayLens::new(
        ValueLens::new(0, Size::new(2, 2).unwrap()),
        ValueLens::new(1, Size::new(1, 1).unwrap()),
        Point::new(0, 0).unwrap(),
    )
    .unwrap();
    assert_eq!(overlay_top_left.look(Point::new(0, 0).unwrap()).unwrap(), 1);
    assert_eq!(overlay_top_left.look(Point::new(1, 0).unwrap()).unwrap(), 0);
    assert_eq!(overlay_top_left.look(Point::new(0, 1).unwrap()).unwrap(), 0);
    assert_eq!(overlay_top_left.look(Point::new(1, 1).unwrap()).unwrap(), 0);
    assert_eq!(overlay_top_left.look(Point::new(2, 0).unwrap()).unwrap_err(), IndexError::OutOfBounds);
    assert_eq!(overlay_top_left.look(Point::new(0, 2).unwrap()).unwrap_err(), IndexError::OutOfBounds);

    let overlay_bottom_right = OverlayLens::new(
        ValueLens::new(0, Size::new(2, 2).unwrap()),
        ValueLens::new(1, Size::new(1, 1).unwrap()),
        Point::new(1, 1).unwrap(),
    )
    .unwrap();
    assert_eq!(overlay_bottom_right.look(Point::new(0, 0).unwrap()).unwrap(), 0);
    assert_eq!(overlay_bottom_right.look(Point::new(1, 0).unwrap()).unwrap(), 0);
    assert_eq!(overlay_bottom_right.look(Point::new(0, 1).unwrap()).unwrap(), 0);
    assert_eq!(overlay_bottom_right.look(Point::new(1, 1).unwrap()).unwrap(), 1);
    assert_eq!(overlay_bottom_right.look(Point::new(2, 0).unwrap()).unwrap_err(), IndexError::OutOfBounds);
    assert_eq!(overlay_bottom_right.look(Point::new(0, 2).unwrap()).unwrap_err(), IndexError::OutOfBounds);
}
