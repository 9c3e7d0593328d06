//! The frame buffer: a grid of pixels kept row by row, in the order in which
//! the display is wired and the encoder sends them.

use crate::encoder::{encode, frame_edges, lemma_ws2812_always_fits};
use crate::encoder::{HardwareError, PulseEdge, Timing};
use vstd::prelude::*;

verus! {

/// One display element: three 8-bit colour channels.
#[derive(Debug, Clone, Copy, PartialEq, Eq, Structural)]
pub struct RGB8 {
    pub r: u8,
    pub g: u8,
    pub b: u8,
}

impl RGB8 {
    pub fn new(r: u8, g: u8, b: u8) -> (out: Self)
        ensures
            out == (RGB8 { r, g, b }),
    {
        RGB8 { r, g, b }
    }
}

/// The colour of an unlit element.
pub open spec fn black() -> RGB8 {
    RGB8 { r: 0, g: 0, b: 0 }
}

/// `count` unlit pixels.
pub open spec fn blank(count: nat) -> Seq<RGB8> {
    Seq::new(count, |i: int| black())
}

/// A grid of `width * height` pixels. Pixel `(x, y)` is entry `y * width + x`
/// of the view.
pub struct RGBMatrix {
    led_array: Vec<RGB8>,
    x_dim: usize,
    y_dim: usize,
}

impl View for RGBMatrix {
    type V = Seq<RGB8>;

    closed spec fn view(&self) -> Seq<RGB8> {
        self.led_array@
    }
}

impl RGBMatrix {
    #[verifier::type_invariant]
    spec fn well_formed(self) -> bool {
        self.led_array@.len() == self.x_dim * self.y_dim
    }

    pub closed spec fn spec_width(&self) -> usize {
        self.x_dim
    }

    pub closed spec fn spec_height(&self) -> usize {
        self.y_dim
    }

    /// Where pixel `(x, y)` stands in the view.
    pub open spec fn index_of(&self, x: usize, y: usize) -> int {
        y * self.spec_width() + x
    }

    /// A grid of the given size with every pixel unlit.
    pub fn new(x_dim: usize, y_dim: usize) -> (out: Self)
        requires
            x_dim * y_dim <= usize::MAX,
        ensures
            out.spec_width() == x_dim,
            out.spec_height() == y_dim,
            out@ == blank((x_dim * y_dim) as nat),
    {
        let count: usize = x_dim * y_dim;
        let mut led_array: Vec<RGB8> = Vec::new();
        let mut i: usize = 0;
        while i < count
            invariant
                i <= count,
                led_array@ == blank(i as nat),
            decreases count - i,
        {
            led_array.push(RGB8::new(0, 0, 0));
            i = i + 1;
        }
        RGBMatrix { led_array, x_dim, y_dim }
    }

    #[verifier::when_used_as_spec(spec_width)]
    pub fn width(&self) -> (out: usize)
        ensures
            out == self.spec_width(),
    {
        self.x_dim
    }

    #[verifier::when_used_as_spec(spec_height)]
    pub fn height(&self) -> (out: usize)
        ensures
            out == self.spec_height(),
    {
        self.y_dim
    }

    /// The pixels in row-major order.
    pub fn led_array(&self) -> (out: &Vec<RGB8>)
        ensures
            out@ == self@,
            out@.len() == self.width() * self.height(),
    {
        proof {
            use_type_invariant(self);
        }
        &self.led_array
    }

    /// Resets every pixel to black.
    pub fn clear(&mut self)
        ensures
            final(self).width() == old(self).width(),
            final(self).height() == old(self).height(),
            final(self)@ == blank((old(self).width() * old(self).height()) as nat),
    {
        proof {
            use_type_invariant(&*self);
        }
        let count: usize = self.led_array.len();
        let mut i: usize = 0;
        while i < count
            invariant
                i <= count,
                count == self.x_dim * self.y_dim,
                self.led_array@.len() == count,
                self.x_dim == old(self).x_dim,
                self.y_dim == old(self).y_dim,
                forall|k: int| 0 <= k < i ==> self.led_array@[k] == black(),
            decreases count - i,
        {
            self.led_array[i] = RGB8::new(0, 0, 0);
            i = i + 1;
        }
        assert(self.led_array@ =~= blank(count as nat));
    }

    /// Sets the pixel at position `pixel` of the row-major order. A position
    /// past the end is ignored.
    pub fn _set_rgb(&mut self, pixel: usize, rgb: RGB8)
        ensures
            final(self).width() == old(self).width(),
            final(self).height() == old(self).height(),
            pixel < old(self)@.len() ==> final(self)@ == old(self)@.update(pixel as int, rgb),
            pixel >= old(self)@.len() ==> final(self)@ == old(self)@,
    {
        proof {
            use_type_invariant(&*self);
        }
        if pixel < self.led_array.len() {
            self.led_array[pixel] = rgb;
        }
    }

    /// Sets the pixel in column `x` of row `y`. A write outside the grid is
    /// ignored: no pixel changes and nothing is reported.
    pub fn set_xy_rgb(&mut self, x: usize, y: usize, rgb: RGB8)
        ensures
            final(self).width() == old(self).width(),
            final(self).height() == old(self).height(),
            x < old(self).width() && y < old(self).height() ==> final(self)@ == old(self)@.update(
                old(self).index_of(x, y),
                rgb,
            ),
            x >= old(self).width() || y >= old(self).height() ==> final(self)@ == old(self)@,
    {
        proof {
            use_type_invariant(&*self);
        }
        let width: usize = self.x_dim;
        let height: usize = self.y_dim;
        // The length is the product of the sides, so every index fits.
        let count: usize = self.led_array.len();
        if x < width && y < height {
            assert(0 <= y * width && y * width + x < count) by (nonlinear_arith)
                requires
                    x < width,
                    y < height,
                    count == width * height,
            ;
            let index: usize = y * width + x;
            self.led_array[index] = rgb;
        }
    }

    /// The pulse train that shows this frame on a WS2812 display, for a
    /// transmitter whose tick rate was read beforehand.
    pub fn refresh_leds(&self, tick_rate: Option<u32>) -> (out: Result<
        Vec<PulseEdge>,
        HardwareError,
    >)
        ensures
            tick_rate is None ==> out == Err::<Vec<PulseEdge>, HardwareError>(
                HardwareError::TickRateUnavailable,
            ),
            tick_rate is Some ==> out is Ok && out->Ok_0@ == frame_edges(
                self@,
                Timing::ws2812().in_ticks(tick_rate->Some_0),
            ),
    {
        proof {
            if tick_rate is Some {
                lemma_ws2812_always_fits(tick_rate->Some_0);
            }
        }
        let timing: Timing = Timing::ws2812();
        encode(self.led_array.as_slice(), tick_rate, &timing)
    }
}

} // verus!
