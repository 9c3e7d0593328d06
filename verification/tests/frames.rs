use tilt_matrix::encoder::{HardwareError, PulseEdge};
use tilt_matrix::frame::{remaining_delay_ms, render, tick, FRAME_TARGET_MICROS};
use tilt_matrix::matrix::{RGBMatrix, RGB8};
use tilt_matrix::minigame::{MiniGame, Mode, Position, Tilt};

const BLACK: RGB8 = RGB8 { r: 0, g: 0, b: 0 };
const BLUE: RGB8 = RGB8 { r: 0, g: 0, b: 100 };
const ONE_GHZ: u32 = 1_000_000_000;

fn lit(matrix: &RGBMatrix) -> Vec<usize> {
    let pixels = matrix.led_array();
    (0..pixels.len()).filter(|index| pixels[*index] != BLACK).collect()
}

#[test]
fn render_shows_the_marker_alone() {
    let mut matrix = RGBMatrix::new(5, 5);
    matrix.set_xy_rgb(0, 0, RGB8::new(9, 9, 9));
    matrix.set_xy_rgb(4, 4, RGB8::new(9, 9, 9));
    render(&mut matrix, Position { x: 3, y: 1 }, BLUE);
    assert_eq!(lit(&matrix), vec![8]);
    assert_eq!(matrix.led_array()[8], BLUE);
    assert_eq!(matrix.width(), 5);
    assert_eq!(matrix.height(), 5);
}

#[test]
fn render_off_the_grid_leaves_it_dark() {
    let mut matrix = RGBMatrix::new(3, 3);
    matrix.set_xy_rgb(1, 1, BLUE);
    render(&mut matrix, Position { x: 3, y: 0 }, BLUE);
    assert!(lit(&matrix).is_empty());
    render(&mut matrix, Position { x: 0, y: 200 }, BLUE);
    assert!(lit(&matrix).is_empty());
}

#[test]
fn tick_moves_draws_and_encodes() {
    let mut game = MiniGame::new(5, 5, 300);
    let mut matrix = RGBMatrix::new(5, 5);
    let reading = Some(Tilt::new(9_000, 0));
    let signal = tick(&mut game, &mut matrix, Mode::Continuous, reading, 62_500, BLUE, Some(ONE_GHZ))
        .unwrap();
    // A sixteenth of a second at sixteen times one cell per second.
    assert_eq!(game.fractional(), (300_000, 200_000));
    assert_eq!(game.curr_pos(), Position { x: 3, y: 2 });
    assert_eq!(lit(&matrix), vec![13]);
    assert_eq!(matrix.refresh_leds(Some(ONE_GHZ)), Ok(signal.clone()));
    assert_eq!(signal.len(), 1_200);
    let ones: Vec<usize> = (0..600)
        .filter(|bit| signal[2 * bit] == PulseEdge { high: true, ticks: 700 })
        .collect();
    assert_eq!(ones, vec![13 * 24 + 17, 13 * 24 + 18, 13 * 24 + 21]);
}

#[test]
fn tick_without_a_reading_shows_the_same_frame() {
    let mut game = MiniGame::new(5, 5, 300);
    let mut matrix = RGBMatrix::new(5, 5);
    let moved = Some(Tilt::new(5_000, 9_000));
    let first = tick(&mut game, &mut matrix, Mode::Discrete, moved, 16_667, BLUE, Some(ONE_GHZ));
    assert_eq!(game.curr_pos(), Position { x: 2, y: 3 });
    let second = tick(&mut game, &mut matrix, Mode::Discrete, None, 16_667, BLUE, Some(ONE_GHZ));
    assert_eq!(game.curr_pos(), Position { x: 2, y: 3 });
    assert_eq!(game.fractional(), (200_000, 300_000));
    assert_eq!(lit(&matrix), vec![17]);
    assert!(first.is_ok());
    assert_eq!(first, second);
}

#[test]
fn tick_in_the_dead_zone_shows_the_same_frame() {
    let mut game = MiniGame::new(5, 5, 300);
    let mut matrix = RGBMatrix::new(5, 5);
    let still = Some(Tilt::new(299, 4_500));
    let first = tick(&mut game, &mut matrix, Mode::Continuous, still, 16_667, BLUE, Some(40_000_000));
    let second = tick(&mut game, &mut matrix, Mode::Continuous, still, u32::MAX, BLUE, Some(40_000_000));
    assert_eq!(game.fractional(), (200_000, 200_000));
    assert_eq!(lit(&matrix), vec![12]);
    assert_eq!(first, second);
}

#[test]
fn tick_without_a_tick_rate_sends_nothing() {
    let mut game = MiniGame::new(5, 5, 300);
    let mut matrix = RGBMatrix::new(5, 5);
    let reading = Some(Tilt::new(1_000, 18_000));
    let out = tick(&mut game, &mut matrix, Mode::Discrete, reading, 0, BLUE, None);
    assert_eq!(out, Err(HardwareError::TickRateUnavailable));
    assert_eq!(game.curr_pos(), Position { x: 1, y: 2 });
    assert_eq!(lit(&matrix), vec![11]);
}

#[test]
fn tick_on_a_smaller_display_hides_a_marker_beyond_it() {
    let mut game = MiniGame::new(5, 5, 300);
    let mut matrix = RGBMatrix::new(2, 2);
    let out = tick(&mut game, &mut matrix, Mode::Discrete, None, 0, BLUE, Some(ONE_GHZ)).unwrap();
    assert!(lit(&matrix).is_empty());
    assert_eq!(out.len(), 4 * 48);
    assert!(out.iter().all(|edge| edge.ticks == 350 || edge.ticks == 800));
}

#[test]
fn delay_fills_the_frame() {
    assert_eq!(FRAME_TARGET_MICROS, 16_667);
    assert_eq!(remaining_delay_ms(0, FRAME_TARGET_MICROS), Some(16));
    assert_eq!(remaining_delay_ms(5_000, FRAME_TARGET_MICROS), Some(11));
    assert_eq!(remaining_delay_ms(5_667, FRAME_TARGET_MICROS), Some(11));
    assert_eq!(remaining_delay_ms(5_668, FRAME_TARGET_MICROS), Some(10));
    assert_eq!(remaining_delay_ms(16_000, FRAME_TARGET_MICROS), Some(0));
    assert_eq!(remaining_delay_ms(16_666, FRAME_TARGET_MICROS), Some(0));
}

#[test]
fn no_delay_after_a_long_frame() {
    assert_eq!(remaining_delay_ms(16_667, FRAME_TARGET_MICROS), None);
    assert_eq!(remaining_delay_ms(20_000, FRAME_TARGET_MICROS), None);
    assert_eq!(remaining_delay_ms(u64::MAX, FRAME_TARGET_MICROS), None);
    assert_eq!(remaining_delay_ms(0, 0), None);
}

#[test]
fn delay_takes_the_largest_target() {
    assert_eq!(remaining_delay_ms(0, u32::MAX), Some(4_294_967));
    assert_eq!(remaining_delay_ms(u32::MAX as u64 - 1, u32::MAX), Some(0));
    assert_eq!(remaining_delay_ms(u32::MAX as u64, u32::MAX), None);
}
