use niri_config::Color;
use niri_config::color::PREMUL_DENOM;

fn premul_f32(c: Color) -> [f32; 4] {
    let p = c.to_premultiplied();
    let d = PREMUL_DENOM as f32;
    [
        p.r as f32 / d,
        p.g as f32 / d,
        p.b as f32 / d,
        p.a as f32 / d,
    ]
}

#[test]
fn premultiply_full_alpha() {
    let [r, g, b, a] = premul_f32(Color::new(0, 100, 200, 255));
    assert!((r - 0.0).abs() < 1e-3);
    assert!((g - 0.392).abs() < 1e-3);
    assert!((b - 0.784).abs() < 1e-3);
    assert!((a - 1.0).abs() < 1e-6);
}

#[test]
fn premultiply_zero_alpha() {
    let [r, g, b, a] = premul_f32(Color::new(255, 200, 100, 0));
    assert_eq!([r, g, b, a], [0.0, 0.0, 0.0, 0.0]);
}

#[test]
fn premultiply_exact_numerators() {
    let p = Color::new(10, 20, 30, 51).to_premultiplied();
    assert_eq!(p.r, 10 * 51);
    assert_eq!(p.g, 20 * 51);
    assert_eq!(p.b, 30 * 51);
    assert_eq!(p.a, 51 * 255);
}
