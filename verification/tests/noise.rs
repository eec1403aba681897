use wassily::prelude::palette::{FromColor, Srgba, Xyz};
use rorschach::buffer::PixelBuffer;
use rorschach::color::Rgba;
use rorschach::noise::{
    render_export, render_noise_field, render_preview, tristimulus, NoiseAxis, Ordinate,
    SamplePoint, Tristimulus, EXPORT_SIDE, FULL_TURN, MIN_SCALE, PREVIEW_SIDE, SEED_X, SEED_Y,
    SEED_Z,
};
use rorschach::params::RorschachApp;
use wassily::prelude::{noise2d_01, Color, Colorful, NoiseOpts, Perlin};

fn field(axis: &NoiseAxis, width: usize, height: usize, point: &SamplePoint) -> i64 {
    let k = match point.ordinate {
        Ordinate::Row(j) => j as f32,
        Ordinate::Fixed(v) => v as f32 / 1e6,
    };
    let nf = Perlin::new(axis.seed);
    let opts = NoiseOpts::with_wh(width as u32, height as u32)
        .scales(axis.scale as f32 / 1e6)
        .factor(axis.factor as f32 / 1e6);
    (noise2d_01(&nf, &opts, point.column as f32, k) as f64 * 1e6).round() as i64
}

fn shade(params: &RorschachApp, width: usize, height: usize, point: &SamplePoint) -> Rgba {
    let (ax, ay, az) = params.noise_axes();
    let at = tristimulus(
        field(&ax, width, height, point),
        field(&ay, width, height, point),
        field(&az, width, height, point),
    );
    let xyz = Xyz::new(at.x as f32 / 1e6, at.y as f32 / 1e6, at.z as f32 / 1e6);
    let rgba = Srgba::from_color(xyz).into_components();
    let mut c = Color::from_rgba(rgba.0, rgba.1, rgba.2, 1.0).unwrap();
    if let Some(angle) = params.hue_rotation() {
        c = c.rotate_hue(angle as f32 / 1e6);
    }
    let (r, g, b, a) = c.as_u8s();
    Rgba { r, g, b, a }
}

fn render(params: &RorschachApp, width: usize, height: usize) -> PixelBuffer {
    let colors: Vec<Rgba> = params
        .sample_points(width, height)
        .iter()
        .map(|p| shade(params, width, height, p))
        .collect();
    render_noise_field(params, width, height, &colors).unwrap()
}

fn ramp(count: usize) -> Vec<Rgba> {
    (0..count)
        .map(|k| Rgba { r: k as u8, g: (k / 256) as u8, b: 7, a: 255 })
        .collect()
}

#[test]
fn noise_constants() {
    assert_eq!((SEED_X, SEED_Y, SEED_Z), (0, 1, 2));
    assert_eq!(MIN_SCALE, 1);
    assert_eq!(FULL_TURN, 360_000_000);
    assert_eq!(PREVIEW_SIDE, 360);
    assert_eq!(EXPORT_SIDE, 1080);
}

#[test]
fn axes_have_seeds_of_their_own() {
    let p = RorschachApp {
        hue_angle: 0,
        x_scale: 1_000_000,
        x_factor: 2_000_000,
        y_scale: 3_000_000,
        y_factor: 4_000_000,
        z_scale: 5_000_000,
        z_factor: 6_000_000,
        dim2: true,
        y_value: 0,
    };
    let (x, y, z) = p.noise_axes();
    assert_eq!(x, NoiseAxis { seed: 0, scale: 1_000_000, factor: 2_000_000 });
    assert_eq!(y, NoiseAxis { seed: 1, scale: 3_000_000, factor: 4_000_000 });
    assert_eq!(z, NoiseAxis { seed: 2, scale: 5_000_000, factor: 6_000_000 });
}

#[test]
fn zero_scale_is_raised() {
    let mut p = RorschachApp::default();
    p.x_scale = 0;
    p.z_scale = 1;
    let (x, y, z) = p.noise_axes();
    assert_eq!(x.scale, 1);
    assert_eq!(y.scale, 4_000_000);
    assert_eq!(z.scale, 1);
}

#[test]
fn zero_scale_gives_a_constant_field() {
    let mut p = RorschachApp::default();
    p.x_scale = 0;
    p.y_scale = 0;
    p.z_scale = 0;
    let buf = render(&p, 8, 8);
    let first = buf.get(0, 0).unwrap();
    for y in 0..8 {
        for x in 0..8 {
            assert_eq!(buf.get(x, y), Some(first));
        }
    }
}

#[test]
fn zero_factor_and_zero_frequency_do_not_fail() {
    let mut p = RorschachApp::default();
    p.x_factor = 0;
    p.y_factor = 0;
    p.z_factor = 0;
    let buf = render(&p, 4, 4);
    assert_eq!(buf.len(), 16);
    let first = buf.get(0, 0).unwrap();
    assert_eq!(buf.get(3, 3), Some(first));
}

#[test]
fn noise_values_are_limited_to_the_unit_interval() {
    assert_eq!(
        tristimulus(-1, 500_000, 1_000_001),
        Tristimulus { x: 0, y: 500_000, z: 1_000_000 }
    );
    assert_eq!(
        tristimulus(0, 1_000_000, i64::MAX),
        Tristimulus { x: 0, y: 1_000_000, z: 1_000_000 }
    );
    assert_eq!(tristimulus(i64::MIN, 1, 999_999), Tristimulus { x: 0, y: 1, z: 999_999 });
}

#[test]
fn a_strong_factor_overshoots_and_is_limited() {
    let mut p = RorschachApp::default();
    p.x_factor = 5_000_000;
    p.y_factor = 5_000_000;
    p.z_factor = 5_000_000;
    let (ax, _, _) = p.noise_axes();
    let mut over = false;
    for point in p.sample_points(32, 32).iter() {
        let v = field(&ax, 32, 32, point);
        if v < 0 || v > 1_000_000 {
            over = true;
        }
        let at = tristimulus(v, v, v);
        assert!(at.x <= 1_000_000);
    }
    assert!(over);
    assert_eq!(render(&p, 32, 32).len(), 1024);
}

#[test]
fn a_grid_too_large_is_no_field() {
    let mut p = RorschachApp::default();
    assert!(render_noise_field(&p, usize::MAX, 2, &ramp(0)).is_none());
    p.dim2 = false;
    assert!(render_noise_field(&p, 2, usize::MAX, &ramp(2)).is_none());
}

#[test]
fn hue_of_no_turn_asks_for_no_rotation() {
    let mut p = RorschachApp::default();
    assert_eq!(p.hue_rotation(), None);
    p.hue_angle = 360_000_000;
    assert_eq!(p.hue_rotation(), None);
    p.hue_angle = 720_000_000;
    assert_eq!(p.hue_rotation(), None);
}

#[test]
fn hue_is_reduced_to_less_than_a_turn() {
    let mut p = RorschachApp::default();
    p.hue_angle = 90_000_000;
    assert_eq!(p.hue_rotation(), Some(90_000_000));
    p.hue_angle = 450_000_000;
    assert_eq!(p.hue_rotation(), Some(90_000_000));
    p.hue_angle = 359_999_999;
    assert_eq!(p.hue_rotation(), Some(359_999_999));
    p.hue_angle = 1;
    assert_eq!(p.hue_rotation(), Some(1));
    p.hue_angle = u32::MAX;
    assert_eq!(p.hue_rotation(), Some(334_967_295));
}

#[test]
fn a_full_turn_of_hue_renders_as_none() {
    let mut p = RorschachApp::default();
    let plain = render(&p, 8, 8);
    p.hue_angle = 360_000_000;
    assert_eq!(render(&p, 8, 8), plain);
}

#[test]
fn a_quarter_turn_of_hue_changes_the_colours() {
    let mut p = RorschachApp::default();
    let plain = render(&p, 8, 8);
    p.hue_angle = 90_000_000;
    assert_ne!(render(&p, 8, 8), plain);
}

#[test]
fn rows_are_sampled_by_dimension() {
    let mut p = RorschachApp::default();
    assert_eq!(p.sample_rows(8), 8);
    assert_eq!(p.sample_rows(0), 0);
    assert_eq!(p.ordinate(5), Ordinate::Row(5));
    p.dim2 = false;
    p.y_value = 12_500_000;
    assert_eq!(p.sample_rows(8), 1);
    assert_eq!(p.sample_rows(1), 1);
    assert_eq!(p.sample_rows(0), 0);
    assert_eq!(p.ordinate(5), Ordinate::Fixed(12_500_000));
}

#[test]
fn sample_points_over_two_dimensions() {
    let p = RorschachApp::default();
    let points = p.sample_points(3, 2);
    assert_eq!(
        points,
        vec![
            SamplePoint { column: 0, ordinate: Ordinate::Row(0) },
            SamplePoint { column: 1, ordinate: Ordinate::Row(0) },
            SamplePoint { column: 2, ordinate: Ordinate::Row(0) },
            SamplePoint { column: 0, ordinate: Ordinate::Row(1) },
            SamplePoint { column: 1, ordinate: Ordinate::Row(1) },
            SamplePoint { column: 2, ordinate: Ordinate::Row(1) },
        ]
    );
}

#[test]
fn sample_points_over_one_dimension() {
    let mut p = RorschachApp::default();
    p.dim2 = false;
    p.y_value = 90_000_000;
    let points = p.sample_points(3, 5);
    assert_eq!(
        points,
        vec![
            SamplePoint { column: 0, ordinate: Ordinate::Fixed(90_000_000) },
            SamplePoint { column: 1, ordinate: Ordinate::Fixed(90_000_000) },
            SamplePoint { column: 2, ordinate: Ordinate::Fixed(90_000_000) },
        ]
    );
    assert_eq!(p.sample_points(3, 0), Vec::new());
    assert_eq!(p.sample_points(0, 3), Vec::new());
}

#[test]
fn field_lays_colours_out_row_by_row() {
    let p = RorschachApp::default();
    let colors = ramp(6);
    let buf = render_noise_field(&p, 3, 2, &colors).unwrap();
    assert_eq!(buf.width(), 3);
    assert_eq!(buf.height(), 2);
    assert_eq!(buf.pixels(), &colors);
    assert_eq!(buf.get(1, 1), Some(colors[4]));
}

#[test]
fn field_refuses_a_wrong_number_of_colours() {
    let mut p = RorschachApp::default();
    assert!(render_noise_field(&p, 3, 2, &ramp(5)).is_none());
    assert!(render_noise_field(&p, 3, 2, &ramp(7)).is_none());
    assert!(render_noise_field(&p, 3, 2, &ramp(3)).is_none());
    p.dim2 = false;
    assert!(render_noise_field(&p, 3, 2, &ramp(6)).is_none());
    assert!(render_noise_field(&p, 3, 2, &ramp(3)).is_some());
    assert!(render_noise_field(&p, 3, 0, &ramp(3)).is_none());
    assert!(render_noise_field(&p, 3, 0, &ramp(0)).is_some());
}

#[test]
fn one_dimension_repeats_the_row() {
    let mut p = RorschachApp::default();
    p.dim2 = false;
    let colors = ramp(4);
    let buf = render_noise_field(&p, 4, 3, &colors).unwrap();
    assert_eq!(buf.len(), 12);
    for y in 0..3 {
        for x in 0..4 {
            assert_eq!(buf.get(x, y), Some(colors[x]));
        }
    }
}

#[test]
fn one_dimension_rows_are_identical() {
    let mut p = RorschachApp::default();
    p.dim2 = false;
    p.y_value = 45_000_000;
    let buf = render(&p, 16, 16);
    for y in 1..16 {
        for x in 0..16 {
            assert_eq!(buf.get(x, y), buf.get(x, 0));
        }
    }
    let mut distinct = false;
    for x in 1..16 {
        if buf.get(x, 0) != buf.get(0, 0) {
            distinct = true;
        }
    }
    assert!(distinct);
}

#[test]
fn default_field_at_eight_by_eight() {
    let p = RorschachApp {
        hue_angle: 0,
        x_scale: 4_000_000,
        x_factor: 1_000_000,
        y_scale: 4_000_000,
        y_factor: 1_000_000,
        z_scale: 4_000_000,
        z_factor: 1_000_000,
        dim2: true,
        y_value: 0,
    };
    let first = render(&p, 8, 8);
    assert_eq!(first.len(), 64);
    assert_eq!(first.pixels().len(), 64);
    assert_eq!(first.to_rgba8().len(), 256);
    for px in first.pixels() {
        assert_eq!(px.a, 255);
    }
    let second = render(&p, 8, 8);
    assert_eq!(first, second);
    assert_eq!(first.to_rgba8(), second.to_rgba8());
}

#[test]
fn two_dimensions_vary_between_rows() {
    let p = RorschachApp::default();
    let buf = render(&p, 8, 8);
    let mut distinct = false;
    for y in 1..8 {
        for x in 0..8 {
            if buf.get(x, y) != buf.get(x, 0) {
                distinct = true;
            }
        }
    }
    assert!(distinct);
}

#[test]
fn reset_then_render_noise_is_render_of_default() {
    let mut p = RorschachApp {
        hue_angle: 123_000_000,
        x_scale: 9_000_000,
        x_factor: 300_000,
        y_scale: 700_000,
        y_factor: 4_000_000,
        z_scale: 2_000_000,
        z_factor: 2_000_000,
        dim2: false,
        y_value: 200_000_000,
    };
    p.reset();
    let fresh = RorschachApp::default();
    assert_eq!(p.sample_points(8, 8), fresh.sample_points(8, 8));
    assert_eq!(render(&p, 8, 8), render(&fresh, 8, 8));
}

#[test]
fn preview_and_export_sizes() {
    let mut p = RorschachApp::default();
    p.dim2 = false;
    let row = ramp(360);
    let preview = render_preview(&p, &row).unwrap();
    assert_eq!((preview.width(), preview.height()), (360, 360));
    assert_eq!(preview.get(359, 359), Some(row[359]));
    assert!(render_preview(&p, &ramp(1080)).is_none());
    let wide = ramp(1080);
    let export = render_export(&p, &wide).unwrap();
    assert_eq!((export.width(), export.height()), (1080, 1080));
    assert_eq!(export.get(1079, 500), Some(wide[1079]));
    assert!(render_export(&p, &row).is_none());
    p.dim2 = true;
    assert!(render_preview(&p, &row).is_none());
    assert!(render_preview(&p, &ramp(360 * 360)).is_some());
}
