//! The noise-driven colour field.
//!
//! Three coherent-noise fields, one per axis of a tristimulus space, give each
//! pixel a colour, which is then rotated in hue. The library decides with
//! which seed, scale and factor each field is built, at which coordinates it
//! is sampled and whether a rotation applies, and it lays the colours out as
//! pixels. The noise values and the colour-space conversions are the
//! caller's to compute.
use vstd::prelude::*;
use crate::buffer::{lemma_index_in_grid, PixelBuffer};
use crate::color::Rgba;
use crate::params::RorschachApp;
use crate::units::{clamp_unit, unit_clamped, UNIT};

verus! {

/// The seed of the noise field that drives the first axis.
pub const SEED_X: u32 = 0;

/// The seed of the noise field that drives the second axis.
pub const SEED_Y: u32 = 1;

/// The seed of the noise field that drives the third axis.
pub const SEED_Z: u32 = 2;

/// The smallest scale a noise field is built with, in millionths. A smaller
/// scale, zero included, is raised to it: the field is then all but constant.
pub const MIN_SCALE: u32 = 1;

/// A full turn of hue, in millionths of a degree.
pub const FULL_TURN: u32 = 360_000_000;

/// The side of the square preview, in pixels.
pub const PREVIEW_SIDE: usize = 360;

/// The side of the square export, in pixels.
pub const EXPORT_SIDE: usize = 1080;

/// How one noise field is built: its seed, the spatial scale of its features
/// and the factor applied to its values, the last two in millionths.
#[derive(Clone, Copy, Debug, PartialEq, Eq, Structural)]
pub struct NoiseAxis {
    pub seed: u32,
    pub scale: u32,
    pub factor: u32,
}

/// The second coordinate of a sample: a pixel row, or a fixed value in
/// millionths.
#[derive(Clone, Copy, Debug, PartialEq, Eq, Structural)]
pub enum Ordinate {
    Row(usize),
    Fixed(u32),
}

/// A place at which the three noise fields are sampled: a pixel column and a
/// second coordinate.
#[derive(Clone, Copy, Debug, PartialEq, Eq, Structural)]
pub struct SamplePoint {
    pub column: usize,
    pub ordinate: Ordinate,
}

/// A point of the tristimulus space: three coordinates in millionths, each
/// within the unit interval where `tristimulus` made the point.
#[derive(Clone, Copy, Debug, PartialEq, Eq, Structural)]
pub struct Tristimulus {
    pub x: u32,
    pub y: u32,
    pub z: u32,
}

/// The scale a field is built with for a requested scale.
pub open spec fn effective_scale(scale: u32) -> u32 {
    if scale < MIN_SCALE {
        MIN_SCALE
    } else {
        scale
    }
}

/// The pixels of a field of `width` by `height` whose samples are `colors`.
/// Over two dimensions every pixel has a sample of its own; over one, the
/// samples are those of a single row, which every row repeats.
pub open spec fn noise_image(dim2: bool, width: nat, height: nat, colors: Seq<Rgba>) -> Seq<Rgba> {
    Seq::new(
        width * height,
        |k: int|
            if dim2 {
                colors[k]
            } else {
                colors[k % (width as int)]
            },
    )
}

impl RorschachApp {
    /// The number of rows that have samples of their own in a field of
    /// `height` rows: all of them over two dimensions, at most one otherwise.
    pub open spec fn sampled_rows(self, height: nat) -> nat {
        if self.dim2 || height == 0 {
            height
        } else {
            1
        }
    }

    /// The second coordinate at which row `row` is sampled.
    pub open spec fn ordinate_at(self, row: usize) -> Ordinate {
        if self.dim2 {
            Ordinate::Row(row)
        } else {
            Ordinate::Fixed(self.y_value)
        }
    }

    /// The `k`-th sample point of a field of `width` columns.
    pub open spec fn sample_point_at(self, width: usize, k: int) -> SamplePoint {
        SamplePoint {
            column: (k % (width as int)) as usize,
            ordinate: self.ordinate_at((k / (width as int)) as usize),
        }
    }

    /// The hue angle reduced to less than a full turn.
    pub open spec fn reduced_hue(self) -> int {
        self.hue_angle as int % FULL_TURN as int
    }

    /// The three noise fields, in the order of the axes. Each has a seed of
    /// its own, so that the fields are unrelated, and no scale below
    /// `MIN_SCALE`.
    pub fn noise_axes(&self) -> (axes: (NoiseAxis, NoiseAxis, NoiseAxis))
        ensures
            axes.0 == (NoiseAxis {
                seed: SEED_X,
                scale: effective_scale(self.x_scale),
                factor: self.x_factor,
            }),
            axes.1 == (NoiseAxis {
                seed: SEED_Y,
                scale: effective_scale(self.y_scale),
                factor: self.y_factor,
            }),
            axes.2 == (NoiseAxis {
                seed: SEED_Z,
                scale: effective_scale(self.z_scale),
                factor: self.z_factor,
            }),
    {
        (
            NoiseAxis { seed: SEED_X, scale: raise_scale(self.x_scale), factor: self.x_factor },
            NoiseAxis { seed: SEED_Y, scale: raise_scale(self.y_scale), factor: self.y_factor },
            NoiseAxis { seed: SEED_Z, scale: raise_scale(self.z_scale), factor: self.z_factor },
        )
    }

    /// The number of rows to sample for a field of `height` rows.
    pub fn sample_rows(&self, height: usize) -> (rows: usize)
        ensures
            rows == self.sampled_rows(height as nat),
            rows <= height,
    {
        if self.dim2 || height == 0 {
            height
        } else {
            1
        }
    }

    /// The second coordinate at which row `row` is sampled: the row itself
    /// over two dimensions, the fixed `y_value` otherwise.
    pub fn ordinate(&self, row: usize) -> (k: Ordinate)
        ensures
            k == self.ordinate_at(row),
    {
        if self.dim2 {
            Ordinate::Row(row)
        } else {
            Ordinate::Fixed(self.y_value)
        }
    }

    /// The rotation of hue to apply to every colour, in millionths of a
    /// degree and less than a full turn; `None` where the angle is a whole
    /// number of turns, zero included, and the colours stay as they are.
    pub fn hue_rotation(&self) -> (turn: Option<u32>)
        ensures
            turn.is_none() <==> self.reduced_hue() == 0,
            turn matches Some(angle) ==> angle as int == self.reduced_hue() && 0 < angle
                < FULL_TURN,
    {
        let angle: u32 = self.hue_angle % FULL_TURN;
        if angle == 0 {
            None
        } else {
            Some(angle)
        }
    }

    /// The places at which to sample the noise for a field of `width` by
    /// `height`, row after row and column after column within a row. Over one
    /// dimension a single row is sampled, whatever the height.
    pub fn sample_points(&self, width: usize, height: usize) -> (points: Vec<SamplePoint>)
        requires
            width * self.sampled_rows(height as nat) <= usize::MAX,
        ensures
            points@ == Seq::new(
                width as nat * self.sampled_rows(height as nat),
                |k: int| self.sample_point_at(width, k),
            ),
    {
        let rows: usize = self.sample_rows(height);
        let mut points: Vec<SamplePoint> = Vec::new();
        let mut j: usize = 0;
        while j < rows
            invariant
                j <= rows,
                points@.len() == j * width,
                forall|k: int| 0 <= k < j * width ==> points@[k] == self.sample_point_at(width, k),
            decreases rows - j,
        {
            let k: Ordinate = self.ordinate(j);
            let mut i: usize = 0;
            while i < width
                invariant
                    j < rows,
                    i <= width,
                    k == self.ordinate_at(j),
                    points@.len() == j * width + i,
                    forall|k: int|
                        0 <= k < j * width + i ==> points@[k] == self.sample_point_at(width, k),
                decreases width - i,
            {
                proof {
                    lemma_index_in_grid(i as int, j as int, width as int, rows as int);
                }
                points.push(SamplePoint { column: i, ordinate: k });
                i += 1;
            }
            assert((j + 1) * width == j * width + width) by (nonlinear_arith);
            j += 1;
        }
        assert(width * rows == rows * width) by (nonlinear_arith);
        assert(points@ =~= Seq::new(
            width as nat * self.sampled_rows(height as nat),
            |k: int| self.sample_point_at(width, k),
        ));
        points
    }
}

/// The scale a field is built with for a requested scale.
fn raise_scale(scale: u32) -> (s: u32)
    ensures
        s == effective_scale(scale),
{
    if scale < MIN_SCALE {
        MIN_SCALE
    } else {
        scale
    }
}

/// Lays the sampled colours out as a field of `width` by `height` pixels.
///
/// `colors` holds one colour for each point that `sample_points` names, in
/// that order. With any other number of colours there is no field, nor is
/// there one of more pixels than can be addressed.
pub fn render_noise_field(
    params: &RorschachApp,
    width: usize,
    height: usize,
    colors: &Vec<Rgba>,
) -> (out: Option<PixelBuffer>)
    ensures
        out.is_some() <==> width * height <= usize::MAX && colors@.len() == width
            * params.sampled_rows(height as nat),
        out matches Some(buf) ==> {
            &&& buf.columns() == width
            &&& buf.rows() == height
            &&& buf@ == noise_image(params.dim2, width as nat, height as nat, colors@)
            &&& forall|x: int, y: int|
                0 <= x < width && 0 <= y < height ==> #[trigger] buf.pixel(x, y) == colors@[if params.dim2 {
                    y * width + x
                } else {
                    x
                }]
        },
{
    if width.checked_mul(height).is_none() {
        return None;
    }
    let rows: usize = params.sample_rows(height);
    assert(width * rows <= width * height) by (nonlinear_arith)
        requires
            rows <= height,
    ;
    if colors.len() != width * rows {
        return None;
    }
    let mut pixels: Vec<Rgba> = Vec::new();
    let ghost image = noise_image(params.dim2, width as nat, height as nat, colors@);
    let mut j: usize = 0;
    while j < height
        invariant
            j <= height,
            width * height <= usize::MAX,
            colors@.len() == width * params.sampled_rows(height as nat),
            image == noise_image(params.dim2, width as nat, height as nat, colors@),
            pixels@.len() == j * width,
            forall|k: int| 0 <= k < j * width ==> pixels@[k] == image[k],
        decreases height - j,
    {
        let mut i: usize = 0;
        while i < width
            invariant
                j < height,
                i <= width,
                width * height <= usize::MAX,
                colors@.len() == width * params.sampled_rows(height as nat),
                image == noise_image(params.dim2, width as nat, height as nat, colors@),
                pixels@.len() == j * width + i,
                forall|k: int| 0 <= k < j * width + i ==> pixels@[k] == image[k],
            decreases width - i,
        {
            proof {
                lemma_index_in_grid(i as int, j as int, width as int, height as int);
            }
            let at: usize = if params.dim2 {
                j * width + i
            } else {
                i
            };
            pixels.push(colors[at]);
            i += 1;
        }
        assert((j + 1) * width == j * width + width) by (nonlinear_arith);
        j += 1;
    }
    assert(width * height == height * width) by (nonlinear_arith);
    assert(pixels@ =~= image);
    let buf: PixelBuffer = PixelBuffer::from_grid(width, height, pixels);
    assert forall|x: int, y: int| 0 <= x < width && 0 <= y < height implies #[trigger] buf.pixel(
        x,
        y,
    ) == colors@[if params.dim2 {
        y * width + x
    } else {
        x
    }] by {
        lemma_index_in_grid(x, y, width as int, height as int);
    }
    Some(buf)
}

/// The point of the tristimulus space that three noise values give, one per
/// axis. A noise field may overshoot the unit interval: each value is limited
/// to it.
pub fn tristimulus(x: i64, y: i64, z: i64) -> (point: Tristimulus)
    ensures
        point.x as int == unit_clamped(x as int),
        point.y as int == unit_clamped(y as int),
        point.z as int == unit_clamped(z as int),
        point.x <= UNIT && point.y <= UNIT && point.z <= UNIT,
{
    Tristimulus { x: clamp_unit(x), y: clamp_unit(y), z: clamp_unit(z) }
}

/// The preview: a field of 360 by 360 pixels.
pub fn render_preview(params: &RorschachApp, colors: &Vec<Rgba>) -> (out: Option<PixelBuffer>)
    ensures
        out.is_some() <==> colors@.len() == PREVIEW_SIDE * params.sampled_rows(PREVIEW_SIDE as nat),
        out matches Some(buf) ==> {
            &&& buf.columns() == PREVIEW_SIDE
            &&& buf.rows() == PREVIEW_SIDE
            &&& buf@ == noise_image(params.dim2, PREVIEW_SIDE as nat, PREVIEW_SIDE as nat, colors@)
        },
{
    render_noise_field(params, PREVIEW_SIDE, PREVIEW_SIDE, colors)
}

/// The export: a field of 1080 by 1080 pixels, made as the preview is.
pub fn render_export(params: &RorschachApp, colors: &Vec<Rgba>) -> (out: Option<PixelBuffer>)
    ensures
        out.is_some() <==> colors@.len() == EXPORT_SIDE * params.sampled_rows(EXPORT_SIDE as nat),
        out matches Some(buf) ==> {
            &&& buf.columns() == EXPORT_SIDE
            &&& buf.rows() == EXPORT_SIDE
            &&& buf@ == noise_image(params.dim2, EXPORT_SIDE as nat, EXPORT_SIDE as nat, colors@)
        },
{
    render_noise_field(params, EXPORT_SIDE, EXPORT_SIDE, colors)
}

/// Parameters that were reset render as parameters freshly made do: both are
/// the baseline, so the same places are sampled, the same rotation applies
/// and the same pixels come out.
pub proof fn lemma_reset_renders_as_fresh(
    reset: RorschachApp,
    fresh: RorschachApp,
    width: usize,
    height: usize,
    colors: Seq<Rgba>,
    k: int,
)
    requires
        reset == RorschachApp::baseline(),
        fresh == RorschachApp::baseline(),
    ensures
        reset.sampled_rows(height as nat) == fresh.sampled_rows(height as nat),
        reset.sample_point_at(width, k) == fresh.sample_point_at(width, k),
        reset.reduced_hue() == fresh.reduced_hue(),
        noise_image(reset.dim2, width as nat, height as nat, colors) == noise_image(
            fresh.dim2,
            width as nat,
            height as nat,
            colors,
        ),
{
}

/// Over one dimension every row of the field is the first row again.
pub proof fn lemma_rows_repeat(
    width: nat,
    height: nat,
    colors: Seq<Rgba>,
    column: int,
    row: int,
)
    requires
        0 <= column < width,
        0 <= row < height,
    ensures
        0 <= row * width + column < noise_image(false, width, height, colors).len(),
        noise_image(false, width, height, colors)[row * width + column] == noise_image(
            false,
            width,
            height,
            colors,
        )[column],
{
    lemma_index_in_grid(column, row, width as int, height as int);
    lemma_index_in_grid(column, 0, width as int, height as int);
}

/// Whole turns added to the hue angle change nothing: the rotation that
/// applies is the same, and an angle of a whole number of turns asks for
/// none.
pub proof fn lemma_hue_wraps(p: RorschachApp, q: RorschachApp, turns: nat)
    requires
        q.hue_angle as int == p.hue_angle as int + turns * FULL_TURN as int,
    ensures
        q.reduced_hue() == p.reduced_hue(),
        p.hue_angle == 0 ==> q.reduced_hue() == 0,
{
    vstd::arithmetic::div_mod::lemma_mod_multiples_vanish(
        turns as int,
        p.hue_angle as int,
        FULL_TURN as int,
    );
    assert(FULL_TURN as int * turns as int == turns * FULL_TURN as int) by (nonlinear_arith);
}

} // verus!
