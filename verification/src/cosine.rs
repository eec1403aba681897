//! The cosine-wave colour model, in one and in two dimensions.
//!
//! Each channel is a cosine of the position, scaled by an amplitude and
//! raised by an offset. The library computes the argument of every cosine,
//! takes the cosines themselves from the caller, and turns them into
//! intensities, colours and pixels.
use vstd::prelude::*;
use crate::buffer::{lemma_index_in_grid, PixelBuffer};
use crate::color::{assembled, Rgba};
use crate::params::{ChannelWave, ChannelWaveXY, CosineWaveParams, CosineWaveParamsXY};
use crate::units::{lemma_level_bounds, level_of, scale, scale3, scaled, scaled3, UNIT};

verus! {

/// The number of colour bands of the one-dimensional model.
pub const BANDS: usize = 360;

/// The width of one band, in pixels.
pub const BAND_WIDTH: usize = 2;

/// The width of the one-dimensional canvas, in pixels.
pub const STRIPES_WIDTH: usize = 720;

/// The height of the one-dimensional canvas, in pixels.
pub const STRIPES_HEIGHT: usize = 300;

/// The side of the square two-dimensional canvas, in pixels.
pub const FIELD_SIDE: usize = 720;

/// The number of bands over which the position `t` of the one-dimensional
/// model advances by a full turn: band `i` stands at `t = i / 180 * pi`.
pub const BANDS_PER_TURN: u32 = 360;

/// The number of columns over which the position `u` of the two-dimensional
/// model advances by a full turn: column `i` stands at `u = i / 360 * pi`.
pub const COLUMNS_PER_TURN: u32 = 720;

/// The number of rows over which the position `v` of the two-dimensional
/// model advances by one radian: row `j` stands at `v = j / 360`.
pub const ROWS_PER_RADIAN: u32 = 360;

/// The argument of a cosine, as the sum of two parts: `turns` millionths of a
/// full turn, less than one turn, and `radians` millionths of a radian.
#[derive(Clone, Copy, Debug, PartialEq, Eq, Structural)]
pub struct Angle {
    pub turns: u32,
    pub radians: u64,
}

/// The arguments of the cosines of the three channels at one position.
#[derive(Clone, Copy, Debug, PartialEq, Eq, Structural)]
pub struct ChannelAngles {
    pub red: Angle,
    pub green: Angle,
    pub blue: Angle,
}

/// The cosines of the three channels at one position, in millionths.
#[derive(Clone, Copy, Debug, PartialEq, Eq, Structural)]
pub struct ChannelCosines {
    pub red: i32,
    pub green: i32,
    pub blue: i32,
}

/// The part of a full turn reached after `steps` steps at frequency `freq`,
/// `per_turn` steps making one turn at frequency one, starting from `phase`.
/// Whole turns are dropped.
pub open spec fn turns_after(freq: int, steps: int, per_turn: int, phase: int) -> int {
    ((freq * steps) / per_turn + phase) % (UNIT as int)
}

/// The radians reached after `steps` steps at frequency `freq`, `per_radian`
/// steps making one radian at frequency one.
pub open spec fn radians_after(freq: int, steps: int, per_radian: int) -> int {
    (freq * steps) / per_radian
}

/// The part of a full turn reached after `steps` steps.
fn turn_part(freq: u32, steps: u32, per_turn: u32, phase: u32) -> (turns: u32)
    requires
        per_turn > 0,
    ensures
        turns as int == turns_after(freq as int, steps as int, per_turn as int, phase as int),
        turns < UNIT,
{
    let advanced: u64 = step_product(freq, steps) / (per_turn as u64);
    let sum: u64 = advanced + (phase as u64);
    (sum % (UNIT as u64)) as u32
}

/// The product of a frequency and a number of steps.
fn step_product(freq: u32, steps: u32) -> (p: u64)
    ensures
        p as int == freq as int * steps as int,
        p <= 0xFFFF_FFFE_0000_0001,
{
    assert(0 <= (freq as int) * (steps as int) <= 0xFFFF_FFFF * 0xFFFF_FFFF) by (nonlinear_arith)
        requires
            0 <= (freq as int) <= 0xFFFF_FFFF,
            0 <= (steps as int) <= 0xFFFF_FFFF,
    ;
    (freq as u64) * (steps as u64)
}

impl ChannelWave {
    /// The argument of the cosine at band `band`, where `t = band / 180 * pi`:
    /// `freq * t` is `freq * band / 360` of a turn, and the phase is added to
    /// it.
    pub open spec fn angle_at(self, band: int) -> Angle {
        Angle {
            turns: turns_after(
                self.freq as int,
                band,
                BANDS_PER_TURN as int,
                self.phase as int,
            ) as u32,
            radians: 0,
        }
    }

    /// The intensity of the channel where the cosine is `cosine`:
    /// `a * cosine + b`, not clamped.
    pub open spec fn intensity(self, cosine: int) -> int {
        scaled(self.a as int, cosine) + self.b as int
    }

    /// The argument of the cosine at band `band`.
    pub fn angle(&self, band: u32) -> (at: Angle)
        ensures
            at == self.angle_at(band as int),
            at.turns < UNIT,
    {
        Angle { turns: turn_part(self.freq, band, BANDS_PER_TURN, self.phase), radians: 0 }
    }

    /// The intensity of the channel where the cosine of its argument is
    /// `cosine`. Nothing is clamped here: that is done when the three
    /// channels are assembled into a colour.
    pub fn evaluate(&self, cosine: i32) -> (v: i64)
        ensures
            v as int == self.intensity(cosine as int),
    {
        let swing: i64 = scale(self.a, cosine);
        proof {
            lemma_scaled_bounds(self.a as int, cosine as int);
        }
        swing + (self.b as i64)
    }
}

impl ChannelWaveXY {
    /// The argument of the cosine along the columns at column `column`, where
    /// `u = column / 360 * pi`: `freq_x * u` is `freq_x * column / 720` of a
    /// turn, and the phase is added to it.
    pub open spec fn angle_x_at(self, column: int) -> Angle {
        Angle {
            turns: turns_after(
                self.freq_x as int,
                column,
                COLUMNS_PER_TURN as int,
                self.phase_x as int,
            ) as u32,
            radians: 0,
        }
    }

    /// The argument of the cosine along the rows at row `row`, where
    /// `v = row / 360` with no factor of pi: `freq_y * v` is in radians, and
    /// the phase stays in turns.
    pub open spec fn angle_y_at(self, row: int) -> Angle {
        Angle {
            turns: (self.phase_y as int % UNIT as int) as u32,
            radians: radians_after(self.freq_y as int, row, ROWS_PER_RADIAN as int) as u64,
        }
    }

    /// The intensity of the channel where the two cosines are `cos_x` and
    /// `cos_y`: `a * cos_x * cos_y + b`, not clamped.
    pub open spec fn intensity(self, cos_x: int, cos_y: int) -> int {
        scaled3(self.a as int, cos_x, cos_y) + self.b as int
    }

    /// The argument of the cosine along the columns at column `column`.
    pub fn angle_x(&self, column: u32) -> (at: Angle)
        ensures
            at == self.angle_x_at(column as int),
            at.turns < UNIT,
    {
        Angle {
            turns: turn_part(self.freq_x, column, COLUMNS_PER_TURN, self.phase_x),
            radians: 0,
        }
    }

    /// The argument of the cosine along the rows at row `row`.
    pub fn angle_y(&self, row: u32) -> (at: Angle)
        ensures
            at == self.angle_y_at(row as int),
            at.turns < UNIT,
    {
        Angle {
            turns: self.phase_y % UNIT,
            radians: step_product(self.freq_y, row) / (ROWS_PER_RADIAN as u64),
        }
    }

    /// The intensity of the channel where the cosines of its two arguments
    /// are `cos_x` and `cos_y`: their product, scaled by the amplitude and
    /// raised by the offset. Nothing is clamped here.
    pub fn evaluate_xy(&self, cos_x: i32, cos_y: i32) -> (v: i64)
        ensures
            v as int == self.intensity(cos_x as int, cos_y as int),
    {
        let swing: i64 = scale3(self.a, cos_x, cos_y);
        proof {
            lemma_scaled3_bounds(self.a as int, cos_x as int, cos_y as int);
        }
        swing + (self.b as i64)
    }
}

/// A wave repeats: bands whose cosine arguments lie a whole number of turns
/// apart are given the same angle. At frequency one that is every 360 bands,
/// the period of `t` being `2 * pi / freq`.
pub proof fn lemma_wave_repeats(wave: ChannelWave, band: nat, shift: nat, turns: nat)
    requires
        wave.freq as int * shift == BANDS_PER_TURN as int * (UNIT as int * turns),
    ensures
        wave.angle_at((band + shift) as int) == wave.angle_at(band as int),
{
    let f = wave.freq as int;
    let whole = UNIT as int * turns;
    assert(f * (band + shift) == f * band + 360 * whole) by (nonlinear_arith)
        requires
            f * shift == 360 * whole,
    ;
    lemma_div_add_multiple(f * band, whole, 360);
    vstd::arithmetic::div_mod::lemma_mod_multiples_vanish(
        turns as int,
        (f * band) / 360 + wave.phase as int,
        UNIT as int,
    );
}

/// Adding `m` times the divisor to a number adds `m` to its quotient.
proof fn lemma_div_add_multiple(n: int, m: int, d: int)
    requires
        d > 0,
    ensures
        (n + d * m) / d == n / d + m,
{
    vstd::arithmetic::div_mod::lemma_fundamental_div_mod(n, d);
    assert(n + d * m == d * (n / d + m) + n % d) by (nonlinear_arith)
        requires
            n == d * (n / d) + n % d,
    ;
    vstd::arithmetic::div_mod::lemma_fundamental_div_mod_converse(
        n + d * m,
        d,
        n / d + m,
        n % d,
    );
}

/// The product of two 32-bit fixed-point numbers leaves room to add a third.
proof fn lemma_scaled_bounds(a: int, b: int)
    requires
        -0x8000_0000 <= a < 0x8000_0000,
        -0x8000_0000 <= b < 0x8000_0000,
    ensures
        -0x4000_0000_0000_0000 <= scaled(a, b) <= 0x4000_0000_0000_0000,
{
    assert(-0x4000_0000_0000_0000 <= a * b <= 0x4000_0000_0000_0000) by (nonlinear_arith)
        requires
            -0x8000_0000 <= a < 0x8000_0000,
            -0x8000_0000 <= b < 0x8000_0000,
    ;
}

/// The product of three 32-bit fixed-point numbers leaves room to add a
/// fourth.
proof fn lemma_scaled3_bounds(a: int, b: int, c: int)
    requires
        -0x8000_0000 <= a < 0x8000_0000,
        -0x8000_0000 <= b < 0x8000_0000,
        -0x8000_0000 <= c < 0x8000_0000,
    ensures
        -0x4000_0000_0000_0000 <= scaled3(a, b, c) <= 0x4000_0000_0000_0000,
{
    assert(-0x4000_0000_0000_0000 <= a * b <= 0x4000_0000_0000_0000) by (nonlinear_arith)
        requires
            -0x8000_0000 <= a < 0x8000_0000,
            -0x8000_0000 <= b < 0x8000_0000,
    ;
    let ab = a * b;
    assert(-0x2000_0000_0000_0000_0000_0000 <= ab * c <= 0x2000_0000_0000_0000_0000_0000)
        by (nonlinear_arith)
        requires
            -0x4000_0000_0000_0000 <= ab <= 0x4000_0000_0000_0000,
            -0x8000_0000 <= c < 0x8000_0000,
    ;
    assert(UNIT as int * UNIT as int == 1_000_000_000_000) by (nonlinear_arith);
}

/// The colour of a band of the one-dimensional model whose cosines are `c`.
pub open spec fn band_color(p: CosineWaveParams, c: ChannelCosines) -> Rgba {
    assembled(
        p.red.intensity(c.red as int),
        p.green.intensity(c.green as int),
        p.blue.intensity(c.blue as int),
    )
}

/// The colour of column `x` of the one-dimensional canvas: that of the band
/// the column lies in, or blank where no cosines were given for that band.
pub open spec fn stripe_color(p: CosineWaveParams, cosines: Seq<ChannelCosines>, x: int) -> Rgba {
    let band = x / (BAND_WIDTH as int);
    if band < cosines.len() && band < BANDS as int {
        band_color(p, cosines[band])
    } else {
        Rgba::blank()
    }
}

/// The pixels of the one-dimensional canvas: every row shows the same
/// stripes.
pub open spec fn stripes_image(p: CosineWaveParams, cosines: Seq<ChannelCosines>) -> Seq<Rgba> {
    Seq::new(
        (STRIPES_WIDTH * STRIPES_HEIGHT) as nat,
        |k: int| stripe_color(p, cosines, k % (STRIPES_WIDTH as int)),
    )
}

/// The colour of a pixel of the two-dimensional model whose cosines along
/// the columns are `cx` and along the rows `cy`.
pub open spec fn field_color(p: CosineWaveParamsXY, cx: ChannelCosines, cy: ChannelCosines) -> Rgba {
    assembled(
        p.red.intensity(cx.red as int, cy.red as int),
        p.green.intensity(cx.green as int, cy.green as int),
        p.blue.intensity(cx.blue as int, cy.blue as int),
    )
}

/// The colour of the pixel in column `x` of row `y` of the two-dimensional
/// canvas, or blank where no cosines were given for the column or the row.
pub open spec fn field_pixel(
    p: CosineWaveParamsXY,
    cos_x: Seq<ChannelCosines>,
    cos_y: Seq<ChannelCosines>,
    x: int,
    y: int,
) -> Rgba {
    if x < cos_x.len() && y < cos_y.len() {
        field_color(p, cos_x[x], cos_y[y])
    } else {
        Rgba::blank()
    }
}

/// The pixels of the two-dimensional canvas.
pub open spec fn field_image(
    p: CosineWaveParamsXY,
    cos_x: Seq<ChannelCosines>,
    cos_y: Seq<ChannelCosines>,
) -> Seq<Rgba> {
    Seq::new(
        (FIELD_SIDE * FIELD_SIDE) as nat,
        |k: int| field_pixel(p, cos_x, cos_y, k % (FIELD_SIDE as int), k / (FIELD_SIDE as int)),
    )
}

impl CosineWaveParams {
    /// The arguments of the cosines of band `band`.
    pub open spec fn angles_at(self, band: int) -> ChannelAngles {
        ChannelAngles {
            red: self.red.angle_at(band),
            green: self.green.angle_at(band),
            blue: self.blue.angle_at(band),
        }
    }

    /// The arguments of the cosines to evaluate, band after band.
    pub fn band_angles(&self) -> (angles: Vec<ChannelAngles>)
        ensures
            angles@ == Seq::new(BANDS as nat, |i: int| self.angles_at(i)),
    {
        let mut angles: Vec<ChannelAngles> = Vec::new();
        let mut i: u32 = 0;
        while i < 360
            invariant
                i <= 360,
                angles@.len() == i,
                forall|k: int| 0 <= k < i ==> angles@[k] == self.angles_at(k),
            decreases 360 - i,
        {
            angles.push(
                ChannelAngles {
                    red: self.red.angle(i),
                    green: self.green.angle(i),
                    blue: self.blue.angle(i),
                },
            );
            i += 1;
        }
        assert(angles@ =~= Seq::new(BANDS as nat, |i: int| self.angles_at(i)));
        angles
    }

    /// The colour of a band whose cosines are `c`: each channel evaluated,
    /// clamped to the unit interval and scaled to eight bits.
    pub fn color(&self, c: &ChannelCosines) -> (out: Rgba)
        ensures
            out == band_color(*self, *c),
    {
        Rgba::from_intensities(
            self.red.evaluate(c.red),
            self.green.evaluate(c.green),
            self.blue.evaluate(c.blue),
        )
    }
}

impl CosineWaveParamsXY {
    /// The arguments of the cosines along the columns at column `column`.
    pub open spec fn angles_x_at(self, column: int) -> ChannelAngles {
        ChannelAngles {
            red: self.red.angle_x_at(column),
            green: self.green.angle_x_at(column),
            blue: self.blue.angle_x_at(column),
        }
    }

    /// The arguments of the cosines along the rows at row `row`.
    pub open spec fn angles_y_at(self, row: int) -> ChannelAngles {
        ChannelAngles {
            red: self.red.angle_y_at(row),
            green: self.green.angle_y_at(row),
            blue: self.blue.angle_y_at(row),
        }
    }

    /// The arguments of the cosines along the columns, column after column.
    pub fn column_angles(&self) -> (angles: Vec<ChannelAngles>)
        ensures
            angles@ == Seq::new(FIELD_SIDE as nat, |i: int| self.angles_x_at(i)),
    {
        let mut angles: Vec<ChannelAngles> = Vec::new();
        let mut i: u32 = 0;
        while i < 720
            invariant
                i <= 720,
                angles@.len() == i,
                forall|k: int| 0 <= k < i ==> angles@[k] == self.angles_x_at(k),
            decreases 720 - i,
        {
            angles.push(
                ChannelAngles {
                    red: self.red.angle_x(i),
                    green: self.green.angle_x(i),
                    blue: self.blue.angle_x(i),
                },
            );
            i += 1;
        }
        assert(angles@ =~= Seq::new(FIELD_SIDE as nat, |i: int| self.angles_x_at(i)));
        angles
    }

    /// The arguments of the cosines along the rows, row after row.
    pub fn row_angles(&self) -> (angles: Vec<ChannelAngles>)
        ensures
            angles@ == Seq::new(FIELD_SIDE as nat, |j: int| self.angles_y_at(j)),
    {
        let mut angles: Vec<ChannelAngles> = Vec::new();
        let mut j: u32 = 0;
        while j < 720
            invariant
                j <= 720,
                angles@.len() == j,
                forall|k: int| 0 <= k < j ==> angles@[k] == self.angles_y_at(k),
            decreases 720 - j,
        {
            angles.push(
                ChannelAngles {
                    red: self.red.angle_y(j),
                    green: self.green.angle_y(j),
                    blue: self.blue.angle_y(j),
                },
            );
            j += 1;
        }
        assert(angles@ =~= Seq::new(FIELD_SIDE as nat, |j: int| self.angles_y_at(j)));
        angles
    }

    /// The colour of a pixel whose cosines along the columns are `cx` and
    /// along the rows `cy`.
    pub fn color(&self, cx: &ChannelCosines, cy: &ChannelCosines) -> (out: Rgba)
        ensures
            out == field_color(*self, *cx, *cy),
    {
        Rgba::from_intensities(
            self.red.evaluate_xy(cx.red, cy.red),
            self.green.evaluate_xy(cx.green, cy.green),
            self.blue.evaluate_xy(cx.blue, cy.blue),
        )
    }
}

/// Renders the one-dimensional model on its canvas of 720 by 300 pixels.
///
/// `cosines` holds, band after band, the cosines of the angles that
/// `band_angles` names. Band `i` fills the two columns `2 * i` and
/// `2 * i + 1` over the whole height. Columns of a band without cosines stay
/// blank; cosines beyond the last band are not looked at.
pub fn render_cosine_1d(params: &CosineWaveParams, cosines: &Vec<ChannelCosines>) -> (buf:
    PixelBuffer)
    ensures
        buf.columns() == STRIPES_WIDTH,
        buf.rows() == STRIPES_HEIGHT,
        buf@ == stripes_image(*params, cosines@),
        forall|x: int, y: int|
            0 <= x < STRIPES_WIDTH && 0 <= y < STRIPES_HEIGHT ==> #[trigger] buf.pixel(x, y)
                == stripe_color(*params, cosines@, x),
{
    let mut row: Vec<Rgba> = Vec::new();
    let mut x: usize = 0;
    while x < STRIPES_WIDTH
        invariant
            x <= STRIPES_WIDTH,
            row@.len() == x,
            forall|k: int| 0 <= k < x ==> row@[k] == stripe_color(*params, cosines@, k),
        decreases STRIPES_WIDTH - x,
    {
        let band: usize = x / BAND_WIDTH;
        let c: Rgba = if band < cosines.len() && band < BANDS {
            params.color(&cosines[band])
        } else {
            Rgba::transparent()
        };
        row.push(c);
        x += 1;
    }
    let ghost image = stripes_image(*params, cosines@);
    let mut pixels: Vec<Rgba> = Vec::new();
    let mut y: usize = 0;
    while y < STRIPES_HEIGHT
        invariant
            y <= STRIPES_HEIGHT,
            row@.len() == STRIPES_WIDTH,
            forall|k: int| 0 <= k < STRIPES_WIDTH ==> row@[k] == stripe_color(*params, cosines@, k),
            image == stripes_image(*params, cosines@),
            pixels@.len() == y * STRIPES_WIDTH,
            forall|k: int| 0 <= k < y * STRIPES_WIDTH ==> pixels@[k] == image[k],
        decreases STRIPES_HEIGHT - y,
    {
        let mut x: usize = 0;
        while x < STRIPES_WIDTH
            invariant
                y < STRIPES_HEIGHT,
                x <= STRIPES_WIDTH,
                row@.len() == STRIPES_WIDTH,
                forall|k: int|
                    0 <= k < STRIPES_WIDTH ==> row@[k] == stripe_color(*params, cosines@, k),
                image == stripes_image(*params, cosines@),
                pixels@.len() == y * STRIPES_WIDTH + x,
                forall|k: int| 0 <= k < y * STRIPES_WIDTH + x ==> pixels@[k] == image[k],
            decreases STRIPES_WIDTH - x,
        {
            proof {
                lemma_index_in_grid(
                    x as int,
                    y as int,
                    STRIPES_WIDTH as int,
                    STRIPES_HEIGHT as int,
                );
            }
            pixels.push(row[x]);
            x += 1;
        }
        y += 1;
    }
    assert(pixels@ =~= image);
    let buf: PixelBuffer = PixelBuffer::from_grid(STRIPES_WIDTH, STRIPES_HEIGHT, pixels);
    assert forall|x: int, y: int|
        0 <= x < STRIPES_WIDTH && 0 <= y < STRIPES_HEIGHT implies #[trigger] buf.pixel(x, y)
            == stripe_color(*params, cosines@, x) by {
        lemma_index_in_grid(x, y, STRIPES_WIDTH as int, STRIPES_HEIGHT as int);
    }
    buf
}

/// Renders the two-dimensional model on its canvas of 720 by 720 pixels.
///
/// `cos_x` holds, column after column, the cosines of the angles that
/// `column_angles` names, and `cos_y`, row after row, those that `row_angles`
/// names. A pixel whose column or row has no cosines stays blank.
pub fn render_cosine_2d(
    params: &CosineWaveParamsXY,
    cos_x: &Vec<ChannelCosines>,
    cos_y: &Vec<ChannelCosines>,
) -> (buf: PixelBuffer)
    ensures
        buf.columns() == FIELD_SIDE,
        buf.rows() == FIELD_SIDE,
        buf@ == field_image(*params, cos_x@, cos_y@),
        forall|x: int, y: int|
            0 <= x < FIELD_SIDE && 0 <= y < FIELD_SIDE ==> #[trigger] buf.pixel(x, y)
                == field_pixel(*params, cos_x@, cos_y@, x, y),
{
    let ghost image = field_image(*params, cos_x@, cos_y@);
    let mut pixels: Vec<Rgba> = Vec::new();
    let mut y: usize = 0;
    while y < FIELD_SIDE
        invariant
            y <= FIELD_SIDE,
            image == field_image(*params, cos_x@, cos_y@),
            pixels@.len() == y * FIELD_SIDE,
            forall|k: int| 0 <= k < y * FIELD_SIDE ==> pixels@[k] == image[k],
        decreases FIELD_SIDE - y,
    {
        let mut x: usize = 0;
        while x < FIELD_SIDE
            invariant
                y < FIELD_SIDE,
                x <= FIELD_SIDE,
                image == field_image(*params, cos_x@, cos_y@),
                pixels@.len() == y * FIELD_SIDE + x,
                forall|k: int| 0 <= k < y * FIELD_SIDE + x ==> pixels@[k] == image[k],
            decreases FIELD_SIDE - x,
        {
            proof {
                lemma_index_in_grid(x as int, y as int, FIELD_SIDE as int, FIELD_SIDE as int);
            }
            let c: Rgba = if x < cos_x.len() && y < cos_y.len() {
                params.color(&cos_x[x], &cos_y[y])
            } else {
                Rgba::transparent()
            };
            pixels.push(c);
            x += 1;
        }
        y += 1;
    }
    assert(pixels@ =~= image);
    let buf: PixelBuffer = PixelBuffer::from_grid(FIELD_SIDE, FIELD_SIDE, pixels);
    assert forall|x: int, y: int|
        0 <= x < FIELD_SIDE && 0 <= y < FIELD_SIDE implies #[trigger] buf.pixel(x, y)
            == field_pixel(*params, cos_x@, cos_y@, x, y) by {
        lemma_index_in_grid(x, y, FIELD_SIDE as int, FIELD_SIDE as int);
    }
    buf
}

/// Every channel that the models assemble is an 8-bit level: darkest where
/// the intensity is zero or less, brightest where it is one or more.
pub proof fn lemma_assembled_levels(r: int, g: int, b: int)
    ensures
        assembled(r, g, b).r as int == level_of(r),
        assembled(r, g, b).g as int == level_of(g),
        assembled(r, g, b).b as int == level_of(b),
        assembled(r, g, b).a == 255,
        0 <= level_of(r) <= 255 && 0 <= level_of(g) <= 255 && 0 <= level_of(b) <= 255,
{
    lemma_level_bounds(r);
    lemma_level_bounds(g);
    lemma_level_bounds(b);
}

/// Parameters that were reset render as parameters freshly made do: both are
/// the baseline, so the angles asked for and the stripes are the same.
pub proof fn lemma_reset_renders_as_fresh(
    reset: CosineWaveParams,
    fresh: CosineWaveParams,
    cosines: Seq<ChannelCosines>,
    band: int,
)
    requires
        reset == CosineWaveParams::baseline(),
        fresh == CosineWaveParams::baseline(),
    ensures
        reset.angles_at(band) == fresh.angles_at(band),
        stripes_image(reset, cosines) == stripes_image(fresh, cosines),
{
}

/// Parameters that were reset render as parameters freshly made do, in two
/// dimensions as well.
pub proof fn lemma_reset_renders_as_fresh_xy(
    reset: CosineWaveParamsXY,
    fresh: CosineWaveParamsXY,
    cos_x: Seq<ChannelCosines>,
    cos_y: Seq<ChannelCosines>,
    at: int,
)
    requires
        reset == CosineWaveParamsXY::baseline(),
        fresh == CosineWaveParamsXY::baseline(),
    ensures
        reset.angles_x_at(at) == fresh.angles_x_at(at),
        reset.angles_y_at(at) == fresh.angles_y_at(at),
        field_image(reset, cos_x, cos_y) == field_image(fresh, cos_x, cos_y),
{
}

} // verus!
