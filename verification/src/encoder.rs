//! The one-wire LED protocol: a pixel sequence becomes a train of timed pulses.
//!
//! Every pixel is sent as a 24-bit word, green first, then red, then blue, most
//! significant bit first. Every bit is a high pulse followed by a low pulse; the
//! two durations tell a one from a zero.

use crate::matrix::{blank, RGB8};
use vstd::prelude::*;

verus! {

pub const NANOS_PER_SECOND: u64 = 1_000_000_000;

/// The longest pulse the transmitter accepts: a 15-bit tick count.
pub const MAX_PULSE_TICKS: u16 = 32_767;

/// Why a frame could not be encoded. Either way nothing is sent.
#[derive(Debug, Clone, Copy, PartialEq, Eq, Structural)]
pub enum HardwareError {
    /// The transmitter could not report its tick rate.
    TickRateUnavailable,
    /// A timing value does not fit in a pulse at the given tick rate.
    PulseOutOfRange,
}

/// Half of a protocol bit: the line level and how many ticks it is held.
#[derive(Debug, Clone, Copy, PartialEq, Eq, Structural)]
pub struct PulseEdge {
    pub high: bool,
    pub ticks: u16,
}

/// The four protocol durations, in nanoseconds.
#[derive(Debug, Clone, Copy, PartialEq, Eq, Structural)]
pub struct Timing {
    pub t0h_ns: u64,
    pub t0l_ns: u64,
    pub t1h_ns: u64,
    pub t1l_ns: u64,
}

/// The four protocol durations, in ticks of the transmitter's clock.
#[derive(Debug, Clone, Copy, PartialEq, Eq, Structural)]
pub struct TickTiming {
    pub t0h: u16,
    pub t0l: u16,
    pub t1h: u16,
    pub t1l: u16,
}

/// Whole ticks that fit in `nanos` nanoseconds at `tick_rate` ticks per second.
pub open spec fn ticks_for(tick_rate: u32, nanos: u64) -> int {
    (nanos as int * tick_rate as int) / (NANOS_PER_SECOND as int)
}

/// Converts a duration to ticks, rounding down.
pub fn duration_to_ticks(tick_rate: u32, nanos: u64) -> (out: Result<u16, HardwareError>)
    ensures
        ticks_for(tick_rate, nanos) <= MAX_PULSE_TICKS ==> out == Ok::<u16, HardwareError>(
            ticks_for(tick_rate, nanos) as u16,
        ),
        ticks_for(tick_rate, nanos) > MAX_PULSE_TICKS ==> out == Err::<u16, HardwareError>(
            HardwareError::PulseOutOfRange,
        ),
{
    assert(nanos as int * tick_rate as int <= 0xffff_ffff_ffff_ffff * 0xffff_ffff) by (nonlinear_arith)
        requires
            0 <= nanos <= 0xffff_ffff_ffff_ffff,
            0 <= tick_rate <= 0xffff_ffff,
    ;
    assert(0 <= nanos as int * tick_rate as int) by (nonlinear_arith);
    let product: u128 = (nanos as u128) * (tick_rate as u128);
    let ticks: u128 = product / (NANOS_PER_SECOND as u128);
    if ticks > MAX_PULSE_TICKS as u128 {
        Err(HardwareError::PulseOutOfRange)
    } else {
        Ok(ticks as u16)
    }
}

impl Timing {
    /// The durations of the WS2812 family: a zero is 350 ns high and 800 ns low,
    /// a one is 700 ns high and 600 ns low.
    pub open spec fn spec_ws2812() -> Timing {
        Timing { t0h_ns: 350, t0l_ns: 800, t1h_ns: 700, t1l_ns: 600 }
    }

    #[verifier::when_used_as_spec(spec_ws2812)]
    pub fn ws2812() -> (out: Timing)
        ensures
            out == Timing::spec_ws2812(),
    {
        Timing { t0h_ns: 350, t0l_ns: 800, t1h_ns: 700, t1l_ns: 600 }
    }

    /// All four durations fit in a pulse at `tick_rate`.
    pub open spec fn fits(self, tick_rate: u32) -> bool {
        &&& ticks_for(tick_rate, self.t0h_ns) <= MAX_PULSE_TICKS
        &&& ticks_for(tick_rate, self.t0l_ns) <= MAX_PULSE_TICKS
        &&& ticks_for(tick_rate, self.t1h_ns) <= MAX_PULSE_TICKS
        &&& ticks_for(tick_rate, self.t1l_ns) <= MAX_PULSE_TICKS
    }

    /// The durations in ticks; meaningful where `fits` holds.
    pub open spec fn in_ticks(self, tick_rate: u32) -> TickTiming {
        TickTiming {
            t0h: ticks_for(tick_rate, self.t0h_ns) as u16,
            t0l: ticks_for(tick_rate, self.t0l_ns) as u16,
            t1h: ticks_for(tick_rate, self.t1h_ns) as u16,
            t1l: ticks_for(tick_rate, self.t1l_ns) as u16,
        }
    }

    /// Converts all four durations, or fails if any of them is too long.
    pub fn to_ticks(&self, tick_rate: u32) -> (out: Result<TickTiming, HardwareError>)
        ensures
            self.fits(tick_rate) ==> out == Ok::<TickTiming, HardwareError>(
                self.in_ticks(tick_rate),
            ),
            !self.fits(tick_rate) ==> out == Err::<TickTiming, HardwareError>(
                HardwareError::PulseOutOfRange,
            ),
    {
        let t0h: u16 = match duration_to_ticks(tick_rate, self.t0h_ns) {
            Ok(ticks) => ticks,
            Err(error) => {
                return Err(error);
            },
        };
        let t0l: u16 = match duration_to_ticks(tick_rate, self.t0l_ns) {
            Ok(ticks) => ticks,
            Err(error) => {
                return Err(error);
            },
        };
        let t1h: u16 = match duration_to_ticks(tick_rate, self.t1h_ns) {
            Ok(ticks) => ticks,
            Err(error) => {
                return Err(error);
            },
        };
        let t1l: u16 = match duration_to_ticks(tick_rate, self.t1l_ns) {
            Ok(ticks) => ticks,
            Err(error) => {
                return Err(error);
            },
        };
        Ok(TickTiming { t0h, t0l, t1h, t1l })
    }
}

/// The WS2812 durations fit in a pulse at every tick rate a `u32` can hold.
pub proof fn lemma_ws2812_always_fits(tick_rate: u32)
    ensures
        Timing::spec_ws2812().fits(tick_rate),
{
}

/// The word a pixel is sent as: green in bits 23 to 16, red in bits 15 to 8,
/// blue in bits 7 to 0.
pub open spec fn grb_word(pixel: RGB8) -> u32 {
    (pixel.g * 65_536 + pixel.r * 256 + pixel.b) as u32
}

/// Bit `k` of a word in sending order: `k == 0` is bit 23, `k == 23` is bit 0.
pub open spec fn word_bit(word: u32, k: int) -> bool {
    (word >> ((23 - k) as u32)) & 1 == 1
}

/// Bit `k` of a channel, counted from its most significant bit.
pub open spec fn channel_bit(channel: u8, k: int) -> bool {
    (channel >> ((7 - k) as u8)) & 1 == 1
}

/// The high and low pulse that stand for one bit.
pub open spec fn bit_edges(bit: bool, ticks: TickTiming) -> (PulseEdge, PulseEdge) {
    if bit {
        (PulseEdge { high: true, ticks: ticks.t1h }, PulseEdge { high: false, ticks: ticks.t1l })
    } else {
        (PulseEdge { high: true, ticks: ticks.t0h }, PulseEdge { high: false, ticks: ticks.t0l })
    }
}

/// Edge `j` of the 48 that one pixel is sent as.
pub open spec fn pixel_edge(pixel: RGB8, ticks: TickTiming, j: int) -> PulseEdge {
    let pair = bit_edges(word_bit(grb_word(pixel), j / 2), ticks);
    if j % 2 == 0 {
        pair.0
    } else {
        pair.1
    }
}

/// The 48 edges of one pixel.
pub open spec fn pixel_edges(pixel: RGB8, ticks: TickTiming) -> Seq<PulseEdge> {
    Seq::new(48, |j: int| pixel_edge(pixel, ticks, j))
}

/// The pulse train of a whole frame: the pixels in order, 48 edges each.
pub open spec fn frame_edges(pixels: Seq<RGB8>, ticks: TickTiming) -> Seq<PulseEdge> {
    Seq::new(
        pixels.len() * 48,
        |j: int| pixel_edge(pixels[j / 48], ticks, j % 48),
    )
}

/// The pulse pair at place `j` of a train of zero bits only.
pub open spec fn zero_bit_edge(ticks: TickTiming, j: int) -> PulseEdge {
    if j % 2 == 0 {
        PulseEdge { high: true, ticks: ticks.t0h }
    } else {
        PulseEdge { high: false, ticks: ticks.t0l }
    }
}

/// A pixel is sent as the eight bits of green, then of red, then of blue, each
/// channel from its most significant bit down.
pub proof fn lemma_word_bits_by_channel(pixel: RGB8, k: int)
    requires
        0 <= k < 8,
    ensures
        word_bit(grb_word(pixel), k) == channel_bit(pixel.g, k),
        word_bit(grb_word(pixel), 8 + k) == channel_bit(pixel.r, k),
        word_bit(grb_word(pixel), 16 + k) == channel_bit(pixel.b, k),
{
    let g: u8 = pixel.g;
    let r: u8 = pixel.r;
    let b: u8 = pixel.b;
    let word: u32 = grb_word(pixel);
    let down: u8 = (7 - k) as u8;
    assert(word == (g as u32) * 65_536 + (r as u32) * 256 + (b as u32));
    assert(((word >> ((down as u32) + 16)) & 1 == 1) == ((g >> down) & 1 == 1)) by (bit_vector)
        requires
            word == (g as u32) * 65_536 + (r as u32) * 256 + (b as u32),
            down < 8,
    ;
    assert(((word >> ((down as u32) + 8)) & 1 == 1) == ((r >> down) & 1 == 1)) by (bit_vector)
        requires
            word == (g as u32) * 65_536 + (r as u32) * 256 + (b as u32),
            down < 8,
    ;
    assert(((word >> (down as u32)) & 1 == 1) == ((b >> down) & 1 == 1)) by (bit_vector)
        requires
            word == (g as u32) * 65_536 + (r as u32) * 256 + (b as u32),
            down < 8,
    ;
    assert((23 - k) as u32 == (down as u32) + 16);
    assert((23 - (8 + k)) as u32 == (down as u32) + 8);
    assert((23 - (16 + k)) as u32 == down as u32);
}

/// The pixels are sent one after the other: a frame with one more pixel is the
/// frame before it followed by that pixel's edges.
pub proof fn lemma_frame_appends_pixel(pixels: Seq<RGB8>, pixel: RGB8, ticks: TickTiming)
    ensures
        frame_edges(pixels.push(pixel), ticks) == frame_edges(pixels, ticks) + pixel_edges(
            pixel,
            ticks,
        ),
{
    let longer = frame_edges(pixels.push(pixel), ticks);
    let joined = frame_edges(pixels, ticks) + pixel_edges(pixel, ticks);
    assert(longer.len() == joined.len());
    assert forall|j: int| 0 <= j < longer.len() implies longer[j] == joined[j] by {
        if j < pixels.len() * 48 {
            assert(pixels.push(pixel)[j / 48] == pixels[j / 48]);
        } else {
            assert(j / 48 == pixels.len());
            assert(j % 48 == j - pixels.len() * 48);
        }
    }
    assert(longer =~= joined);
}

/// A frame holds two edges for each of the 24 bits of each pixel.
pub proof fn lemma_frame_length(pixels: Seq<RGB8>, ticks: TickTiming)
    ensures
        frame_edges(pixels, ticks).len() == 2 * (24 * pixels.len()),
{
}

/// A cleared grid of any size is sent as zero bits only: 24 for each pixel,
/// each a short high pulse and a long low pulse.
pub proof fn lemma_blank_frame_is_all_zero_bits(count: nat, ticks: TickTiming)
    ensures
        frame_edges(blank(count), ticks).len() == 2 * (24 * count),
        forall|j: int|
            0 <= j < 2 * (24 * count) ==> #[trigger] frame_edges(blank(count), ticks)[j]
                == zero_bit_edge(ticks, j),
{
    assert forall|j: int| 0 <= j < 2 * (24 * count) implies #[trigger] frame_edges(
        blank(count),
        ticks,
    )[j] == zero_bit_edge(ticks, j) by {
        let k: int = (j % 48) / 2;
        let shift: u32 = (23 - k) as u32;
        assert(grb_word(blank(count)[j / 48]) == 0);
        assert((0u32 >> shift) & 1 == 0) by (bit_vector);
        assert(!word_bit(0u32, k));
        assert((j % 48) % 2 == j % 2);
    }
}

/// Reorders the channels of a pixel into the word that is sent.
pub fn pixel_word(pixel: RGB8) -> (word: u32)
    ensures
        word == grb_word(pixel),
        word < 0x100_0000,
{
    let g: u32 = pixel.g as u32;
    let r: u32 = pixel.r as u32;
    let b: u32 = pixel.b as u32;
    assert((g << 16) | (r << 8) | b == g * 65_536 + r * 256 + b) by (bit_vector)
        requires
            g < 256,
            r < 256,
            b < 256,
    ;
    (g << 16) | (r << 8) | b
}

/// The pulse pair of one bit.
pub fn encode_bit(bit: bool, ticks: &TickTiming) -> (out: (PulseEdge, PulseEdge))
    ensures
        out == bit_edges(bit, *ticks),
{
    if bit {
        (PulseEdge { high: true, ticks: ticks.t1h }, PulseEdge { high: false, ticks: ticks.t1l })
    } else {
        (PulseEdge { high: true, ticks: ticks.t0h }, PulseEdge { high: false, ticks: ticks.t0l })
    }
}

/// Appends the 48 edges of one pixel to a pulse train.
pub fn encode_pixel(pixel: RGB8, ticks: &TickTiming, signal: &mut Vec<PulseEdge>)
    ensures
        final(signal)@ == old(signal)@ + pixel_edges(pixel, *ticks),
{
    let word: u32 = pixel_word(pixel);
    let ghost before: Seq<PulseEdge> = signal@;
    let mut sent: u32 = 0;
    while sent < 24
        invariant
            sent <= 24,
            word == grb_word(pixel),
            signal@.len() == before.len() + 2 * sent,
            forall|j: int| 0 <= j < before.len() ==> signal@[j] == before[j],
            forall|j: int|
                before.len() <= j < before.len() + 2 * sent ==> signal@[j] == pixel_edge(
                    pixel,
                    *ticks,
                    j - before.len(),
                ),
        decreases 24 - sent,
    {
        let shift: u32 = 23 - sent;
        let mask: u32 = 1u32 << shift;
        let bit: bool = mask & word != 0;
        assert(bit == word_bit(word, sent as int)) by {
            assert(((1u32 << shift) & word != 0) == ((word >> shift) & 1 == 1)) by (bit_vector)
                requires
                    shift < 24,
            ;
        }
        let (high_pulse, low_pulse) = encode_bit(bit, ticks);
        signal.push(high_pulse);
        signal.push(low_pulse);
        sent = sent + 1;
    }
    assert(signal@ =~= before + pixel_edges(pixel, *ticks));
}

/// Encodes a frame at known tick durations.
pub fn encode_frame(pixels: &[RGB8], ticks: &TickTiming) -> (signal: Vec<PulseEdge>)
    ensures
        signal@ == frame_edges(pixels@, *ticks),
{
    let mut signal: Vec<PulseEdge> = Vec::new();
    let mut i: usize = 0;
    while i < pixels.len()
        invariant
            i <= pixels.len(),
            signal@ == frame_edges(pixels@.take(i as int), *ticks),
        decreases pixels.len() - i,
    {
        encode_pixel(pixels[i], ticks, &mut signal);
        proof {
            assert(pixels@.take(i + 1) =~= pixels@.take(i as int).push(pixels@[i as int]));
            lemma_frame_appends_pixel(pixels@.take(i as int), pixels@[i as int], *ticks);
        }
        i = i + 1;
    }
    assert(pixels@.take(pixels.len() as int) =~= pixels@);
    signal
}

/// Encodes a frame for a transmitter whose tick rate was read beforehand.
///
/// A frame is all or nothing: without a tick rate, or with a duration that does
/// not fit in a pulse, no pulse train is produced at all.
pub fn encode(pixels: &[RGB8], tick_rate: Option<u32>, timing: &Timing) -> (out: Result<
    Vec<PulseEdge>,
    HardwareError,
>)
    ensures
        tick_rate is None ==> out == Err::<Vec<PulseEdge>, HardwareError>(
            HardwareError::TickRateUnavailable,
        ),
        tick_rate is Some && !timing.fits(tick_rate->Some_0) ==> out == Err::<
            Vec<PulseEdge>,
            HardwareError,
        >(HardwareError::PulseOutOfRange),
        tick_rate is Some && timing.fits(tick_rate->Some_0) ==> out is Ok && out->Ok_0@
            == frame_edges(pixels@, timing.in_ticks(tick_rate->Some_0)),
{
    match tick_rate {
        None => Err(HardwareError::TickRateUnavailable),
        Some(rate) => match timing.to_ticks(rate) {
            Err(error) => Err(error),
            Ok(ticks) => Ok(encode_frame(pixels, &ticks)),
        },
    }
}

} // verus!
