use rorschach::params::{
    ChannelWave, ChannelWaveXY, CosineWaveParams, CosineWaveParamsXY, RorschachApp,
};

#[test]
fn cosine_defaults() {
    let p = CosineWaveParams::default();
    assert_eq!(p.red, ChannelWave { a: 500_000, b: 500_000, freq: 1_000_000, phase: 0 });
    assert_eq!(p.green, ChannelWave { a: 500_000, b: 500_000, freq: 1_000_000, phase: 100_000 });
    assert_eq!(p.blue, ChannelWave { a: 500_000, b: 500_000, freq: 1_000_000, phase: 200_000 });
}

#[test]
fn cosine_xy_defaults() {
    let p = CosineWaveParamsXY::default();
    assert_eq!(
        p.red,
        ChannelWaveXY {
            a: 500_000,
            b: 500_000,
            freq_x: 1_000_000,
            phase_x: 0,
            freq_y: 1_000_000,
            phase_y: 0
        }
    );
    assert_eq!(p.green.phase_x, 100_000);
    assert_eq!(p.green.phase_y, 100_000);
    assert_eq!(p.blue.phase_x, 200_000);
    assert_eq!(p.blue.phase_y, 200_000);
    assert_eq!(p.blue.a, 500_000);
    assert_eq!(p.blue.b, 500_000);
    assert_eq!(p.blue.freq_x, 1_000_000);
    assert_eq!(p.blue.freq_y, 1_000_000);
}

#[test]
fn noise_defaults() {
    let p = RorschachApp::default();
    assert_eq!(
        p,
        RorschachApp {
            hue_angle: 0,
            x_scale: 4_000_000,
            x_factor: 1_000_000,
            y_scale: 4_000_000,
            y_factor: 1_000_000,
            z_scale: 4_000_000,
            z_factor: 1_000_000,
            dim2: true,
            y_value: 0,
        }
    );
}

#[test]
fn reset_overwrites_every_field() {
    let mut p = RorschachApp {
        hue_angle: 12_000_000,
        x_scale: 1,
        x_factor: 2,
        y_scale: 3,
        y_factor: 4,
        z_scale: 5,
        z_factor: 6,
        dim2: false,
        y_value: 77_000_000,
    };
    p.reset();
    assert_eq!(p, RorschachApp::default());
}

#[test]
fn reset_twice_is_reset_once() {
    let mut p = RorschachApp::default();
    p.x_scale = 9_000_000;
    p.reset();
    let once = p;
    p.reset();
    assert_eq!(p, once);
}

#[test]
fn cosine_reset_overwrites_every_field() {
    let mut p = CosineWaveParams::default();
    p.red.a = -3;
    p.green.freq = 17;
    p.blue.phase = 999;
    p.reset();
    assert_eq!(p, CosineWaveParams::default());
    let mut q = CosineWaveParamsXY::default();
    q.red.b = 12;
    q.green.freq_y = 0;
    q.blue.phase_x = 5;
    q.reset();
    assert_eq!(q, CosineWaveParamsXY::default());
}
