use tilt_matrix::matrix::{RGBMatrix, RGB8};

const BLACK: RGB8 = RGB8 { r: 0, g: 0, b: 0 };
const BLUE: RGB8 = RGB8 { r: 0, g: 0, b: 100 };

fn all_black(matrix: &RGBMatrix) -> bool {
    matrix.led_array().iter().all(|pixel| *pixel == BLACK)
}

#[test]
fn rgb8_new_keeps_the_channels() {
    let pixel = RGB8::new(1, 2, 3);
    assert_eq!(pixel.r, 1);
    assert_eq!(pixel.g, 2);
    assert_eq!(pixel.b, 3);
}

#[test]
fn new_matrix_is_black() {
    let matrix = RGBMatrix::new(5, 5);
    assert_eq!(matrix.width(), 5);
    assert_eq!(matrix.height(), 5);
    assert_eq!(matrix.led_array().len(), 25);
    assert!(all_black(&matrix));
}

#[test]
fn new_matrix_may_be_empty() {
    let matrix = RGBMatrix::new(0, 7);
    assert_eq!(matrix.width(), 0);
    assert_eq!(matrix.height(), 7);
    assert!(matrix.led_array().is_empty());
}

#[test]
fn set_xy_writes_in_row_major_order() {
    let mut matrix = RGBMatrix::new(4, 3);
    matrix.set_xy_rgb(1, 2, BLUE);
    for (index, pixel) in matrix.led_array().iter().enumerate() {
        if index == 2 * 4 + 1 {
            assert_eq!(*pixel, BLUE);
        } else {
            assert_eq!(*pixel, BLACK);
        }
    }
}

#[test]
fn set_xy_uses_the_width_as_stride() {
    let mut matrix = RGBMatrix::new(2, 5);
    matrix.set_xy_rgb(1, 3, BLUE);
    assert_eq!(matrix.led_array()[7], BLUE);
    assert_eq!(
        matrix.led_array().iter().filter(|pixel| **pixel == BLUE).count(),
        1
    );
}

#[test]
fn set_xy_beyond_the_width_changes_nothing() {
    let mut matrix = RGBMatrix::new(5, 5);
    matrix.set_xy_rgb(2, 2, BLUE);
    let before = matrix.led_array().clone();
    matrix.set_xy_rgb(5, 0, RGB8::new(9, 9, 9));
    matrix.set_xy_rgb(7, 4, RGB8::new(9, 9, 9));
    matrix.set_xy_rgb(usize::MAX, 1, RGB8::new(9, 9, 9));
    assert_eq!(*matrix.led_array(), before);
}

#[test]
fn set_xy_beyond_the_height_changes_nothing() {
    let mut matrix = RGBMatrix::new(5, 5);
    matrix.set_xy_rgb(2, 2, BLUE);
    let before = matrix.led_array().clone();
    matrix.set_xy_rgb(0, 5, RGB8::new(9, 9, 9));
    matrix.set_xy_rgb(4, usize::MAX, RGB8::new(9, 9, 9));
    matrix.set_xy_rgb(5, 5, RGB8::new(9, 9, 9));
    assert_eq!(*matrix.led_array(), before);
}

#[test]
fn set_xy_does_not_spill_into_the_next_row() {
    let mut matrix = RGBMatrix::new(3, 3);
    matrix.set_xy_rgb(3, 0, BLUE);
    assert!(all_black(&matrix));
}

#[test]
fn set_rgb_writes_by_position() {
    let mut matrix = RGBMatrix::new(3, 2);
    matrix._set_rgb(4, BLUE);
    assert_eq!(matrix.led_array()[4], BLUE);
    assert_eq!(
        matrix.led_array().iter().filter(|pixel| **pixel == BLACK).count(),
        5
    );
}

#[test]
fn set_rgb_past_the_end_changes_nothing() {
    let mut matrix = RGBMatrix::new(3, 2);
    matrix._set_rgb(6, BLUE);
    matrix._set_rgb(usize::MAX, BLUE);
    assert!(all_black(&matrix));
}

#[test]
fn clear_resets_every_pixel() {
    let mut matrix = RGBMatrix::new(5, 5);
    for y in 0..5 {
        for x in 0..5 {
            matrix.set_xy_rgb(x, y, RGB8::new(x as u8 + 1, y as u8 + 1, 200));
        }
    }
    assert!(!all_black(&matrix));
    matrix.clear();
    assert_eq!(matrix.led_array().len(), 25);
    assert_eq!(matrix.width(), 5);
    assert_eq!(matrix.height(), 5);
    assert!(all_black(&matrix));
}
