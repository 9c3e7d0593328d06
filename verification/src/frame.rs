//! One frame of the game: the tilt moves the marker, the marker is drawn, and
//! the drawing is encoded for the display.

use crate::encoder::{frame_edges, HardwareError, PulseEdge, Timing};
use crate::matrix::{blank, RGBMatrix, RGB8};
use crate::minigame::{MiniGame, Mode, Position, Tilt};
use vstd::prelude::*;

verus! {

/// The time a frame should take, in microseconds: a sixtieth of a second.
pub const FRAME_TARGET_MICROS: u32 = 16_667;

/// A dark grid with one pixel lit. A marker outside the grid leaves it dark.
pub open spec fn marker_frame(width: usize, height: usize, marker: Position, color: RGB8) -> Seq<
    RGB8,
> {
    if marker.x < width && marker.y < height {
        blank((width * height) as nat).update(marker.y * width + marker.x, color)
    } else {
        blank((width * height) as nat)
    }
}

/// How long to wait after a frame that took `frame_micros`, in milliseconds
/// rounded down; nothing once the target is used up.
pub open spec fn delay_after(frame_micros: u64, target_micros: u32) -> Option<u32> {
    if frame_micros < target_micros {
        Some(((target_micros - frame_micros) / 1_000) as u32)
    } else {
        None
    }
}

/// Draws the marker alone on the grid.
pub fn render(matrix: &mut RGBMatrix, marker: Position, color: RGB8)
    ensures
        final(matrix).width() == old(matrix).width(),
        final(matrix).height() == old(matrix).height(),
        final(matrix)@ == marker_frame(
            old(matrix).width(),
            old(matrix).height(),
            marker,
            color,
        ),
{
    matrix.clear();
    matrix.set_xy_rgb(marker.x as usize, marker.y as usize, color);
}

/// One frame. With a tilt reading the marker moves first; without one it
/// stays where it was. Then the marker is drawn and the grid is encoded for a
/// transmitter whose tick rate was read beforehand.
pub fn tick(
    game: &mut MiniGame,
    matrix: &mut RGBMatrix,
    mode: Mode,
    reading: Option<Tilt>,
    elapsed_micros: u32,
    color: RGB8,
    tick_rate: Option<u32>,
) -> (out: Result<Vec<PulseEdge>, HardwareError>)
    ensures
        reading is None ==> final(game)@ == old(game)@,
        reading is Some ==> final(game)@ == old(game)@.updated(
            mode,
            reading->Some_0,
            elapsed_micros,
        ),
        final(game)@.wf(),
        final(matrix).width() == old(matrix).width(),
        final(matrix).height() == old(matrix).height(),
        final(matrix)@ == marker_frame(
            old(matrix).width(),
            old(matrix).height(),
            final(game)@.curr_pos,
            color,
        ),
        tick_rate is None ==> out == Err::<Vec<PulseEdge>, HardwareError>(
            HardwareError::TickRateUnavailable,
        ),
        tick_rate is Some ==> out is Ok && out->Ok_0@ == frame_edges(
            final(matrix)@,
            Timing::ws2812().in_ticks(tick_rate->Some_0),
        ),
{
    match reading {
        Some(tilt) => {
            game.update(mode, tilt, elapsed_micros);
        },
        None => {},
    }
    let marker: Position = game.curr_pos();
    render(matrix, marker, color);
    matrix.refresh_leds(tick_rate)
}

/// How long to sleep after a frame so that frames come at the target rate.
pub fn remaining_delay_ms(frame_micros: u64, target_micros: u32) -> (out: Option<u32>)
    ensures
        out == delay_after(frame_micros, target_micros),
{
    if frame_micros < target_micros as u64 {
        Some((target_micros - frame_micros as u32) / 1_000)
    } else {
        None
    }
}

} // verus!
