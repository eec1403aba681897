//! Drawing parameter sets at random.
//!
//! Each field is drawn on its own, uniformly from a fixed interval of
//! millionths. The generator is the caller's: one seeded by the caller gives
//! the same parameters again.
use vstd::prelude::*;
use rand::rngs::StdRng;
use rand::Rng;
use crate::noise::FULL_TURN;
use crate::params::{ChannelWave, ChannelWaveXY, CosineWaveParams, CosineWaveParamsXY, RorschachApp};
use crate::units::UNIT;

verus! {

/// The least amplitude drawn, 0.25.
pub const AMPLITUDE_MIN: u32 = 250_000;

/// The greatest amplitude drawn, 0.75.
pub const AMPLITUDE_MAX: u32 = 750_000;

/// The least frequency drawn, 0.5.
pub const FREQ_MIN: u32 = 500_000;

/// The greatest frequency drawn, 2.0.
pub const FREQ_MAX: u32 = 2_000_000;

/// The greatest phase drawn, half a turn; the least is zero.
pub const PHASE_MAX: u32 = 500_000;

/// The least noise scale drawn, 0.5.
pub const SCALE_MIN: u32 = 500_000;

/// The greatest noise scale drawn, 10.0.
pub const SCALE_MAX: u32 = 10_000_000;

/// The least noise factor drawn, 0.1.
pub const FACTOR_MIN: u32 = 100_000;

/// The greatest noise factor drawn, 5.0.
pub const FACTOR_MAX: u32 = 5_000_000;

#[verifier::external_type_specification]
#[verifier::external_body]
pub struct ExStdRng(rand::rngs::StdRng);

/// Calls `Rng::gen_range` of the rand crate on the closed range from `lo` to
/// `hi`. Believed of it: the number drawn lies in that range. An empty range
/// makes it panic and is left out.
#[verifier::external_body]
fn draw_between(rng: &mut StdRng, lo: u32, hi: u32) -> (v: u32)
    requires
        lo <= hi,
    ensures
        lo <= v <= hi,
{
    rng.gen_range(lo..=hi)
}

/// Calls `Rng::gen_ratio` of the rand crate, which is true with a chance of
/// `numerator` in `denominator`. Believed of it: it is true for certain where
/// the two are equal, and false for certain where the numerator is zero. A
/// zero denominator, or a numerator above it, makes it panic and is left out.
#[verifier::external_body]
fn draw_ratio(rng: &mut StdRng, numerator: u32, denominator: u32) -> (hit: bool)
    requires
        0 < denominator,
        numerator <= denominator,
    ensures
        numerator == denominator ==> hit,
        numerator == 0 ==> !hit,
{
    rng.gen_ratio(numerator, denominator)
}

impl ChannelWave {
    /// Whether every field lies in the interval it is drawn from, and the
    /// offset is what the amplitude leaves of one.
    pub open spec fn in_sampling_range(self) -> bool {
        &&& AMPLITUDE_MIN <= self.a <= AMPLITUDE_MAX
        &&& self.b == UNIT - self.a
        &&& FREQ_MIN <= self.freq <= FREQ_MAX
        &&& self.phase <= PHASE_MAX
    }

    /// The wave that three draws give: the offset is not drawn, it is what
    /// the amplitude leaves of one.
    pub fn from_draws(a: u32, freq: u32, phase: u32) -> (wave: ChannelWave)
        requires
            a <= UNIT,
        ensures
            wave.a == a,
            wave.b == UNIT - a,
            wave.freq == freq,
            wave.phase == phase,
    {
        ChannelWave { a: a as i32, b: (UNIT - a) as i32, freq, phase }
    }

    /// Draws a wave: amplitude, frequency and phase from their intervals.
    pub fn sample(rng: &mut StdRng) -> (wave: ChannelWave)
        ensures
            wave.in_sampling_range(),
    {
        let a: u32 = draw_between(rng, AMPLITUDE_MIN, AMPLITUDE_MAX);
        let freq: u32 = draw_between(rng, FREQ_MIN, FREQ_MAX);
        let phase: u32 = draw_between(rng, 0, PHASE_MAX);
        ChannelWave::from_draws(a, freq, phase)
    }
}

/// The least offset drawn beside the amplitude `a`: half of what `a` leaves
/// of one.
pub open spec fn offset_min(a: int) -> int {
    (UNIT - a) / 2
}

/// The greatest offset drawn beside the amplitude `a`: what `a` leaves of one.
pub open spec fn offset_max(a: int) -> int {
    UNIT - a
}

impl ChannelWaveXY {
    /// Whether every field lies in the interval it is drawn from; the
    /// interval of the offset depends on the amplitude.
    pub open spec fn in_sampling_range(self) -> bool {
        &&& AMPLITUDE_MIN <= self.a <= AMPLITUDE_MAX
        &&& offset_min(self.a as int) <= self.b <= offset_max(self.a as int)
        &&& FREQ_MIN <= self.freq_x <= FREQ_MAX
        &&& self.phase_x <= PHASE_MAX
        &&& FREQ_MIN <= self.freq_y <= FREQ_MAX
        &&& self.phase_y <= PHASE_MAX
    }

    /// The interval from which the offset is drawn once the amplitude is `a`.
    pub fn offset_interval(a: u32) -> (ends: (u32, u32))
        requires
            a <= UNIT,
        ensures
            ends.0 == offset_min(a as int),
            ends.1 == offset_max(a as int),
            ends.0 <= ends.1,
    {
        let rest: u32 = UNIT - a;
        (rest / 2, rest)
    }

    /// Draws a wave: the amplitude first, then the offset from the interval
    /// that the amplitude leaves, then a frequency and a phase for each axis.
    pub fn sample(rng: &mut StdRng) -> (wave: ChannelWaveXY)
        ensures
            wave.in_sampling_range(),
    {
        let a: u32 = draw_between(rng, AMPLITUDE_MIN, AMPLITUDE_MAX);
        let ends: (u32, u32) = ChannelWaveXY::offset_interval(a);
        let b: u32 = draw_between(rng, ends.0, ends.1);
        let freq_x: u32 = draw_between(rng, FREQ_MIN, FREQ_MAX);
        let phase_x: u32 = draw_between(rng, 0, PHASE_MAX);
        let freq_y: u32 = draw_between(rng, FREQ_MIN, FREQ_MAX);
        let phase_y: u32 = draw_between(rng, 0, PHASE_MAX);
        ChannelWaveXY::from_draws(a, b, freq_x, phase_x, freq_y, phase_y)
    }
}

impl CosineWaveParams {
    /// Whether each channel lies in its sampling range.
    pub open spec fn in_sampling_range(self) -> bool {
        &&& self.red.in_sampling_range()
        &&& self.green.in_sampling_range()
        &&& self.blue.in_sampling_range()
    }

    /// Draws all three channels.
    pub fn sample(rng: &mut StdRng) -> (p: CosineWaveParams)
        ensures
            p.in_sampling_range(),
    {
        let red: ChannelWave = ChannelWave::sample(rng);
        let green: ChannelWave = ChannelWave::sample(rng);
        let blue: ChannelWave = ChannelWave::sample(rng);
        CosineWaveParams { red, green, blue }
    }

    /// Overwrites every field with a fresh draw.
    pub fn randomize(&mut self, rng: &mut StdRng)
        ensures
            final(self).in_sampling_range(),
    {
        *self = CosineWaveParams::sample(rng);
    }
}

impl CosineWaveParamsXY {
    /// Whether each channel lies in its sampling range.
    pub open spec fn in_sampling_range(self) -> bool {
        &&& self.red.in_sampling_range()
        &&& self.green.in_sampling_range()
        &&& self.blue.in_sampling_range()
    }

    /// Draws all three channels.
    pub fn sample(rng: &mut StdRng) -> (p: CosineWaveParamsXY)
        ensures
            p.in_sampling_range(),
    {
        let red: ChannelWaveXY = ChannelWaveXY::sample(rng);
        let green: ChannelWaveXY = ChannelWaveXY::sample(rng);
        let blue: ChannelWaveXY = ChannelWaveXY::sample(rng);
        CosineWaveParamsXY { red, green, blue }
    }

    /// Overwrites every field with a fresh draw.
    pub fn randomize(&mut self, rng: &mut StdRng)
        ensures
            final(self).in_sampling_range(),
    {
        *self = CosineWaveParamsXY::sample(rng);
    }
}

impl RorschachApp {
    /// Whether every field lies in the interval it is drawn from: scales from
    /// 0.5 to 10.0, factors from 0.1 to 5.0, both angles from zero up to, not
    /// including, a full turn.
    pub open spec fn in_sampling_range(self) -> bool {
        &&& self.hue_angle < FULL_TURN
        &&& SCALE_MIN <= self.x_scale <= SCALE_MAX
        &&& FACTOR_MIN <= self.x_factor <= FACTOR_MAX
        &&& SCALE_MIN <= self.y_scale <= SCALE_MAX
        &&& FACTOR_MIN <= self.y_factor <= FACTOR_MAX
        &&& SCALE_MIN <= self.z_scale <= SCALE_MAX
        &&& FACTOR_MIN <= self.z_factor <= FACTOR_MAX
        &&& self.y_value < FULL_TURN
    }

    /// Draws every field: a scale and a factor for each axis, the hue angle,
    /// the number of dimensions by the flip of a fair coin, and the fixed
    /// second coordinate.
    pub fn sample(rng: &mut StdRng) -> (p: RorschachApp)
        ensures
            p.in_sampling_range(),
    {
        let x_scale: u32 = draw_between(rng, SCALE_MIN, SCALE_MAX);
        let x_factor: u32 = draw_between(rng, FACTOR_MIN, FACTOR_MAX);
        let y_scale: u32 = draw_between(rng, SCALE_MIN, SCALE_MAX);
        let y_factor: u32 = draw_between(rng, FACTOR_MIN, FACTOR_MAX);
        let z_scale: u32 = draw_between(rng, SCALE_MIN, SCALE_MAX);
        let z_factor: u32 = draw_between(rng, FACTOR_MIN, FACTOR_MAX);
        let hue_angle: u32 = draw_between(rng, 0, FULL_TURN - 1);
        let dim2: bool = draw_ratio(rng, 1, 2);
        let y_value: u32 = draw_between(rng, 0, FULL_TURN - 1);
        RorschachApp::from_draws(
            hue_angle,
            x_scale,
            x_factor,
            y_scale,
            y_factor,
            z_scale,
            z_factor,
            dim2,
            y_value,
        )
    }

    /// Overwrites every field with a fresh draw.
    pub fn randomize(&mut self, rng: &mut StdRng)
        ensures
            final(self).in_sampling_range(),
    {
        *self = RorschachApp::sample(rng);
    }
}

impl ChannelWaveXY {
    /// The wave that six draws give, each field being the draw of its name.
    pub fn from_draws(
        a: u32,
        b: u32,
        freq_x: u32,
        phase_x: u32,
        freq_y: u32,
        phase_y: u32,
    ) -> (wave: ChannelWaveXY)
        requires
            a <= UNIT,
            b <= UNIT,
        ensures
            wave.a == a,
            wave.b == b,
            wave.freq_x == freq_x,
            wave.phase_x == phase_x,
            wave.freq_y == freq_y,
            wave.phase_y == phase_y,
    {
        ChannelWaveXY { a: a as i32, b: b as i32, freq_x, phase_x, freq_y, phase_y }
    }
}

impl RorschachApp {
    /// The parameters that nine draws give, each field being the draw of its
    /// name.
    pub fn from_draws(
        hue_angle: u32,
        x_scale: u32,
        x_factor: u32,
        y_scale: u32,
        y_factor: u32,
        z_scale: u32,
        z_factor: u32,
        dim2: bool,
        y_value: u32,
    ) -> (p: RorschachApp)
        ensures
            p == (RorschachApp {
                hue_angle,
                x_scale,
                x_factor,
                y_scale,
                y_factor,
                z_scale,
                z_factor,
                dim2,
                y_value,
            }),
    {
        RorschachApp {
            hue_angle,
            x_scale,
            x_factor,
            y_scale,
            y_factor,
            z_scale,
            z_factor,
            dim2,
            y_value,
        }
    }
}

} // verus!
