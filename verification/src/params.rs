//! The parameter sets of the two models, with their baseline values.
//!
//! Every field is a fixed-point number in millionths: amplitudes, offsets,
//! frequencies, scales and factors in millionths of one, phases in millionths
//! of a full turn, angles in millionths of a degree.
use vstd::prelude::*;

verus! {

/// One colour channel of the one-dimensional cosine model: the channel follows
/// `a * cos(freq * t + phase) + b`, with the phase counted in full turns.
#[derive(Clone, Copy, Debug, PartialEq, Eq, Structural)]
pub struct ChannelWave {
    pub a: i32,
    pub b: i32,
    pub freq: u32,
    pub phase: u32,
}

/// One colour channel of the two-dimensional cosine model: the channel follows
/// `a * cos(freq_x * u + phase_x) * cos(freq_y * v + phase_y) + b`.
#[derive(Clone, Copy, Debug, PartialEq, Eq, Structural)]
pub struct ChannelWaveXY {
    pub a: i32,
    pub b: i32,
    pub freq_x: u32,
    pub phase_x: u32,
    pub freq_y: u32,
    pub phase_y: u32,
}

/// The parameters of the one-dimensional cosine model: one wave per channel.
#[derive(Clone, Copy, Debug, PartialEq, Eq, Structural)]
pub struct CosineWaveParams {
    pub red: ChannelWave,
    pub green: ChannelWave,
    pub blue: ChannelWave,
}

/// The parameters of the two-dimensional cosine model: one wave per channel.
#[derive(Clone, Copy, Debug, PartialEq, Eq, Structural)]
pub struct CosineWaveParamsXY {
    pub red: ChannelWaveXY,
    pub green: ChannelWaveXY,
    pub blue: ChannelWaveXY,
}

/// The parameters of the noise-driven colour field.
///
/// `hue_angle` and `y_value` are in millionths of a degree. With `dim2` set
/// the noise is sampled over columns and rows; without it, over columns alone,
/// at the fixed second coordinate `y_value`.
#[derive(Clone, Copy, Debug, PartialEq, Eq, Structural)]
pub struct RorschachApp {
    pub hue_angle: u32,
    pub x_scale: u32,
    pub x_factor: u32,
    pub y_scale: u32,
    pub y_factor: u32,
    pub z_scale: u32,
    pub z_factor: u32,
    pub dim2: bool,
    pub y_value: u32,
}

impl ChannelWave {
    /// The baseline wave of a channel whose phase is `phase`: amplitude and
    /// offset one half, frequency one.
    pub open spec fn baseline(phase: u32) -> ChannelWave {
        ChannelWave { a: 500_000, b: 500_000, freq: 1_000_000, phase }
    }
}

impl ChannelWaveXY {
    /// The baseline wave of a channel whose phase is `phase` on both axes:
    /// amplitude and offset one half, both frequencies one.
    pub open spec fn baseline(phase: u32) -> ChannelWaveXY {
        ChannelWaveXY {
            a: 500_000,
            b: 500_000,
            freq_x: 1_000_000,
            phase_x: phase,
            freq_y: 1_000_000,
            phase_y: phase,
        }
    }
}

impl CosineWaveParams {
    /// The baseline: the three channels differ only in phase, which is 0.0 for
    /// red, 0.1 for green and 0.2 for blue.
    pub open spec fn baseline() -> CosineWaveParams {
        CosineWaveParams {
            red: ChannelWave::baseline(0),
            green: ChannelWave::baseline(100_000),
            blue: ChannelWave::baseline(200_000),
        }
    }

    /// Puts every field back to its baseline value.
    pub fn reset(&mut self)
        ensures
            *final(self) == CosineWaveParams::baseline(),
    {
        *self = CosineWaveParams::default();
    }
}

impl CosineWaveParamsXY {
    /// The baseline: the three channels differ only in phase, which is 0.0 for
    /// red, 0.1 for green and 0.2 for blue, on both axes.
    pub open spec fn baseline() -> CosineWaveParamsXY {
        CosineWaveParamsXY {
            red: ChannelWaveXY::baseline(0),
            green: ChannelWaveXY::baseline(100_000),
            blue: ChannelWaveXY::baseline(200_000),
        }
    }

    /// Puts every field back to its baseline value.
    pub fn reset(&mut self)
        ensures
            *final(self) == CosineWaveParamsXY::baseline(),
    {
        *self = CosineWaveParamsXY::default();
    }
}

impl RorschachApp {
    /// The baseline: no hue rotation, scale 4.0 and factor 1.0 on each axis,
    /// noise over both dimensions.
    pub open spec fn baseline() -> RorschachApp {
        RorschachApp {
            hue_angle: 0,
            x_scale: 4_000_000,
            x_factor: 1_000_000,
            y_scale: 4_000_000,
            y_factor: 1_000_000,
            z_scale: 4_000_000,
            z_factor: 1_000_000,
            dim2: true,
            y_value: 0,
        }
    }

    /// Puts every field back to its baseline value.
    pub fn reset(&mut self)
        ensures
            *final(self) == RorschachApp::baseline(),
    {
        *self = RorschachApp::default();
    }
}

impl Default for CosineWaveParams {
    fn default() -> (p: CosineWaveParams)
        ensures
            p == CosineWaveParams::baseline(),
    {
        CosineWaveParams {
            red: ChannelWave { a: 500_000, b: 500_000, freq: 1_000_000, phase: 0 },
            green: ChannelWave { a: 500_000, b: 500_000, freq: 1_000_000, phase: 100_000 },
            blue: ChannelWave { a: 500_000, b: 500_000, freq: 1_000_000, phase: 200_000 },
        }
    }
}

impl Default for CosineWaveParamsXY {
    fn default() -> (p: CosineWaveParamsXY)
        ensures
            p == CosineWaveParamsXY::baseline(),
    {
        CosineWaveParamsXY {
            red: ChannelWaveXY {
                a: 500_000,
                b: 500_000,
                freq_x: 1_000_000,
                phase_x: 0,
                freq_y: 1_000_000,
                phase_y: 0,
            },
            green: ChannelWaveXY {
                a: 500_000,
                b: 500_000,
                freq_x: 1_000_000,
                phase_x: 100_000,
                freq_y: 1_000_000,
                phase_y: 100_000,
            },
            blue: ChannelWaveXY {
                a: 500_000,
                b: 500_000,
                freq_x: 1_000_000,
                phase_x: 200_000,
                freq_y: 1_000_000,
                phase_y: 200_000,
            },
        }
    }
}

impl Default for RorschachApp {
    fn default() -> (p: RorschachApp)
        ensures
            p == RorschachApp::baseline(),
    {
        RorschachApp {
            hue_angle: 0,
            x_scale: 4_000_000,
            x_factor: 1_000_000,
            y_scale: 4_000_000,
            y_factor: 1_000_000,
            z_scale: 4_000_000,
            z_factor: 1_000_000,
            dim2: true,
            y_value: 0,
        }
    }
}

} // verus!
