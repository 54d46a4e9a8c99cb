use lockblur::scene::{Scene, Transform};
use lockblur::units::{DEGREE, FAR_PLANE, FULL_TURN, NEAR_PLANE, OVERLAY_DEPTH, UNIT};

#[test]
fn units_are_six_decimal_places() {
    assert_eq!(UNIT, 1_000_000);
    assert_eq!(NEAR_PLANE as f64 / UNIT as f64, 0.1);
    assert_eq!(FAR_PLANE as f64 / UNIT as f64, 1000.0);
    assert_eq!(OVERLAY_DEPTH as f64 / UNIT as f64, -500.0);
}

#[test]
fn rotation_is_held_to_nine_decimal_places() {
    assert_eq!(DEGREE, 1_000_000_000);
    assert_eq!(FULL_TURN, 360 * DEGREE);
    assert_eq!(5_000 as f64 / DEGREE as f64, 0.000005);
}

#[test]
fn projection_spans_the_surface_from_its_centre() {
    let scene = Scene::new(1920, 1080);
    assert_eq!(
        scene.to_matrix(),
        Transform::Orthographic {
            left: -960_000_000,
            right: 960_000_000,
            bottom: -540_000_000,
            top: 540_000_000,
            near: 100_000,
            far: 1_000_000_000,
        }
    );
}

#[test]
fn projection_of_odd_sizes_keeps_the_half_pixel() {
    let scene = Scene::new(3, 1);
    assert_eq!(
        scene.to_matrix(),
        Transform::Orthographic {
            left: -1_500_000,
            right: 1_500_000,
            bottom: -500_000,
            top: 500_000,
            near: 100_000,
            far: 1_000_000_000,
        }
    );
}

#[test]
fn none_is_the_identity() {
    assert_eq!(Scene::new(1920, 1080).none(), Transform::Identity);
}

#[test]
fn position_is_measured_from_the_centre() {
    let scene = Scene::new(1920, 1080);
    assert_eq!(scene.position(960, 540), Transform::Translation { x: 0, y: 0, z: -500_000_000 });
    assert_eq!(
        scene.position(0, 0),
        Transform::Translation { x: -960_000_000, y: 540_000_000, z: -500_000_000 }
    );
    assert_eq!(
        scene.position(1920, 1080),
        Transform::Translation { x: 960_000_000, y: -540_000_000, z: -500_000_000 }
    );
    assert_eq!(
        scene.position(1000, 500),
        Transform::Translation { x: 40_000_000, y: 40_000_000, z: -500_000_000 }
    );
}

#[test]
fn position_on_the_largest_surface_does_not_overflow() {
    let scene = Scene::new(u32::MAX, u32::MAX);
    assert_eq!(
        scene.position(0, u32::MAX),
        Transform::Translation {
            x: -(u32::MAX as i64) * 500_000,
            y: (u32::MAX as i64) * 500_000 - (u32::MAX as i64) * 1_000_000,
            z: -500_000_000,
        }
    );
}

#[test]
fn rotate_carries_the_angle() {
    let scene = Scene::new(1920, 1080);
    assert_eq!(scene.rotate(0), Transform::RotationZ { degrees: 0 });
    assert_eq!(scene.rotate(359_999_995_000), Transform::RotationZ { degrees: 359_999_995_000 });
}

#[test]
fn scale_is_relative_to_1080_lines() {
    assert_eq!(Scene::new(1920, 1080).scale(400_000_000), Transform::Scaling { factor: 400_000_000 });
    assert_eq!(Scene::new(3840, 2160).scale(400_000_000), Transform::Scaling { factor: 800_000_000 });
    assert_eq!(Scene::new(1280, 720).scale(400_000_000), Transform::Scaling { factor: 266_666_666 });
    // the smaller side decides, also when it is the width
    assert_eq!(Scene::new(540, 1080).scale(400_000_000), Transform::Scaling { factor: 200_000_000 });
    assert_eq!(Scene::new(0, 1080).scale(400_000_000), Transform::Scaling { factor: 0 });
}

#[test]
fn scale_of_the_largest_values_does_not_overflow() {
    let expected = (u32::MAX as u64) * (u32::MAX as u64) / 1080;
    assert_eq!(Scene::new(u32::MAX, u32::MAX).scale(u32::MAX), Transform::Scaling { factor: expected });
}

#[test]
fn placed_and_scaled_quad_corner() {
    // width 1920, height 1080, overlay at (960, 540), scale 400
    let scene = Scene::new(1920, 1080);
    let (tx, ty, tz) = match scene.position(960, 540) {
        Transform::Translation { x, y, z } => (x as f64 / 1e6, y as f64 / 1e6, z as f64 / 1e6),
        other => panic!("not a translation: {:?}", other),
    };
    let s = match scene.scale(400_000_000) {
        Transform::Scaling { factor } => factor as f64 / 1e6,
        other => panic!("not a scaling: {:?}", other),
    };
    let (l, r, b, t, n, f) = match scene.to_matrix() {
        Transform::Orthographic { left, right, bottom, top, near, far } => (
            left as f64 / 1e6,
            right as f64 / 1e6,
            bottom as f64 / 1e6,
            top as f64 / 1e6,
            near as f64 / 1e6,
            far as f64 / 1e6,
        ),
        other => panic!("not a projection: {:?}", other),
    };
    // placement * scale, as a matrix
    let model = [[s, 0.0, 0.0, tx], [0.0, s, 0.0, ty], [0.0, 0.0, s, tz], [0.0, 0.0, 0.0, 1.0]];
    assert_eq!(
        model,
        [
            [400.0, 0.0, 0.0, 0.0],
            [0.0, 400.0, 0.0, 0.0],
            [0.0, 0.0, 400.0, -500.0],
            [0.0, 0.0, 0.0, 1.0]
        ]
    );
    // the corner (-1, -1) of the quad
    let corner = [-1.0, -1.0, 0.0, 1.0];
    let mut placed = [0.0f64; 4];
    for i in 0..4 {
        for j in 0..4 {
            placed[i] += model[i][j] * corner[j];
        }
    }
    assert_eq!(placed, [-400.0, -400.0, -500.0, 1.0]);
    // through the projection
    let x = 2.0 / (r - l) * placed[0] - (r + l) / (r - l);
    let y = 2.0 / (t - b) * placed[1] - (t + b) / (t - b);
    let z = -2.0 / (f - n) * placed[2] - (f + n) / (f - n);
    assert!((x - (-400.0 / 960.0)).abs() < 1e-12);
    assert!((y - (-400.0 / 540.0)).abs() < 1e-12);
    assert!((z - (1000.0 / 999.9 - 1000.1 / 999.9)).abs() < 1e-12);
}
