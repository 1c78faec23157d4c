use img::component::primitive::Size;
use img::error::BufferLengthMismatchError;
use img::iter::{Pixels, PixelsMut, Row, RowMut, Rows, RowsMut};
use img::pixel::Pixel;

#[test]
fn pixels_reads_in_order() {
    let buffer = [1u8, 2, 3, 4, 5, 6, 7, 8];
    let mut pixels = Pixels::new(&buffer).unwrap();
    assert_eq!(pixels.next(), Some(Pixel::new([1, 2, 3, 4])));
    assert_eq!(pixels.next(), Some(Pixel::new([5, 6, 7, 8])));
    assert_eq!(pixels.next(), None);
    assert_eq!(pixels.next(), None);
}

#[test]
fn pixels_length_mismatch() {
    assert_eq!(Pixels::new(&[1, 2, 3]).unwrap_err(), BufferLengthMismatchError);
    let mut buffer = [0u8; 5];
    assert!(PixelsMut::new(&mut buffer).is_err());
    assert!(Row::new(&[0u8; 6]).is_err());
}

#[test]
fn pixels_mut_writes_back() {
    let mut buffer = [0u8; 8];
    {
        let mut pixels = PixelsMut::new(&mut buffer).unwrap();
        let mut first = pixels.next().unwrap();
        first.set_r(1);
        first.set_a(4);
        let mut second = pixels.next().unwrap();
        second.copy_from_pixel(Pixel::new([5, 6, 7, 8]));
        assert_eq!(second.pixel(), Pixel::new([5, 6, 7, 8]));
        assert!(pixels.next().is_none());
    }
    assert_eq!(buffer, [1, 0, 0, 4, 5, 6, 7, 8]);
}

#[test]
fn row_positions() {
    let buffer = [1u8, 1, 1, 1, 2, 2, 2, 2];
    let mut row = Row::new(&buffer).unwrap();
    assert_eq!(row.next(), Some((0, Pixel::new([1, 1, 1, 1]))));
    assert_eq!(row.next(), Some((1, Pixel::new([2, 2, 2, 2]))));
    assert_eq!(row.next(), None);
}

#[test]
fn rows_split_buffer() {
    let buffer: Vec<u8> = (0..24).collect();
    let size = Size::new(2, 3).unwrap();
    let mut rows = Rows::new(&buffer, size).unwrap();
    for expected in 0..3usize {
        let (position, mut row) = rows.next().unwrap();
        assert_eq!(position, expected);
        let base = (expected * 8) as u8;
        assert_eq!(row.next(), Some((0, Pixel::new([base, base + 1, base + 2, base + 3]))));
        assert_eq!(row.next(), Some((1, Pixel::new([base + 4, base + 5, base + 6, base + 7]))));
        assert!(row.next().is_none());
    }
    assert!(rows.next().is_none());
    assert!(Rows::new(&buffer[..20], size).is_err());
}

#[test]
fn rows_mut_write_back() {
    let mut buffer = vec![0u8; 16];
    let size = Size::new(2, 2).unwrap();
    {
        let mut rows = RowsMut::new(&mut buffer, size).unwrap();
        while let Some((y, mut row)) = rows.next() {
            while let Some((x, mut px)) = row.next() {
                px.copy_from_pixel(Pixel::new([x as u8, y as u8, 9, 9]));
            }
        }
    }
    assert_eq!(buffer, vec![0, 0, 9, 9, 1, 0, 9, 9, 0, 1, 9, 9, 1, 1, 9, 9]);
    let mut short = vec![0u8; 12];
    assert!(RowsMut::new(&mut short, size).is_err());
    let mut row_buffer = vec![0u8; 4];
    let mut row = RowMut::new(&mut row_buffer).unwrap();
    row.next().unwrap().1.set_b(3);
    assert_eq!(row_buffer, vec![0, 0, 3, 0]);
}
