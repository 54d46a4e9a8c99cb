use lockblur::config::{BlurSetting, RotateSetting, Table};
use lockblur::frame::{Axis, Buffer, Command, Layer};
use lockblur::saver::{Password, Saver, State};
use lockblur::scene::Transform;

fn empty() -> Table {
    Table { blur: BlurSetting::Absent, scale: None, normalize: None, rotate: RotateSetting::Absent }
}

fn ready_on(table: Table, width: u32, height: u32) -> Saver {
    let mut saver = Saver::default();
    saver.config(table);
    saver.initialize(width, height);
    saver
}

fn horizontal(radius: u32, width: u32) -> Command {
    Command::Blur {
        source: Buffer::Second,
        target: Buffer::First,
        axis: Axis::Horizontal,
        radius,
        resolution: width,
    }
}

fn vertical(radius: u32, height: u32) -> Command {
    Command::Blur {
        source: Buffer::First,
        target: Buffer::Second,
        axis: Axis::Vertical,
        radius,
        resolution: height,
    }
}

fn projection_1080p() -> Transform {
    Transform::Orthographic {
        left: -960_000_000,
        right: 960_000_000,
        bottom: -540_000_000,
        top: 540_000_000,
        near: 100_000,
        far: 1_000_000_000,
    }
}

fn overlay_1080p(degrees: i64, alpha: u32, hue: i64) -> Vec<Command> {
    vec![
        Command::Clear,
        Command::Layer { layer: Layer::Fixed, mvp: Transform::Identity },
        Command::Layer { layer: Layer::Dynamic, mvp: Transform::RotationZ { degrees } },
        Command::Overlay {
            projection: projection_1080p(),
            placement: Transform::Translation { x: 0, y: 0, z: -500_000_000 },
            scale: Transform::Scaling { factor: 400_000_000 },
            alpha,
            hue,
        },
    ]
}

#[test]
fn idle_frame_with_default_settings() {
    let saver = ready_on(empty(), 1920, 1080);
    let mut expected = vec![Command::Capture];
    for _ in 0..4 {
        expected.push(horizontal(0, 1920));
        expected.push(vertical(0, 1080));
    }
    expected.push(Command::Background { mvp: Transform::Identity });
    expected.extend(overlay_1080p(0, 0, 0));
    assert_eq!(saver.render(), expected);
    assert_eq!(saver.render().len(), 14);
}

#[test]
fn entering_frame_carries_radius_alpha_and_angle() {
    let mut saver = ready_on(empty(), 1920, 1080);
    saver.start();
    saver.update();
    saver.update();
    let mut expected = vec![Command::Capture];
    for _ in 0..4 {
        expected.push(horizontal(20_000, 1920));
        expected.push(vertical(20_000, 1080));
    }
    expected.push(Command::Background { mvp: Transform::Identity });
    expected.extend(overlay_1080p(10_000, 16_666, 0));
    assert_eq!(saver.render(), expected);
}

#[test]
fn steady_frame_does_not_blur_again() {
    let blur = BlurSetting::Fields { max: Some(1_200_000), step: Some(600_000), count: Some(2), always: None };
    let mut saver = ready_on(Table { blur, ..empty() }, 1920, 1080);
    saver.start();
    saver.update();
    saver.update();
    assert_eq!(saver.state(), State::Steady);
    let mut expected = vec![Command::Background { mvp: Transform::Identity }];
    expected.extend(overlay_1080p(10_000, 1_000_000, 0));
    assert_eq!(saver.render(), expected);

    saver.stop();
    saver.update();
    let mut expected = vec![
        Command::Capture,
        horizontal(600_000, 1920),
        vertical(600_000, 1080),
        horizontal(600_000, 1920),
        vertical(600_000, 1080),
        Command::Background { mvp: Transform::Identity },
    ];
    expected.extend(overlay_1080p(15_000, 500_000, 0));
    assert_eq!(saver.render(), expected);
}

#[test]
fn steady_frame_blurs_again_when_asked_to() {
    let blur = BlurSetting::Fields { max: Some(1_200_000), step: Some(600_000), count: Some(1), always: Some(true) };
    let mut saver = ready_on(Table { blur, ..empty() }, 1920, 1080);
    saver.start();
    saver.update();
    saver.update();
    assert_eq!(saver.state(), State::Steady);
    let mut expected = vec![
        Command::Capture,
        horizontal(1_200_000, 1920),
        vertical(1_200_000, 1080),
        Command::Background { mvp: Transform::Identity },
    ];
    expected.extend(overlay_1080p(10_000, 1_000_000, 0));
    assert_eq!(saver.render(), expected);
}

#[test]
fn no_passes_still_captures_and_draws() {
    let blur = BlurSetting::Fields { max: None, step: None, count: Some(0), always: None };
    let saver = ready_on(Table { blur, ..empty() }, 1920, 1080);
    let mut expected = vec![Command::Capture, Command::Background { mvp: Transform::Identity }];
    expected.extend(overlay_1080p(0, 0, 0));
    assert_eq!(saver.render(), expected);
}

#[test]
fn passes_alternate_between_the_surfaces() {
    let blur = BlurSetting::Fields { max: None, step: None, count: Some(9), always: None };
    let saver = ready_on(Table { blur, ..empty() }, 640, 480);
    let plan = saver.render();
    assert_eq!(plan[0], Command::Capture);
    let passes = &plan[1..19];
    let mut holds_latest = Buffer::Second;
    for (i, pass) in passes.iter().enumerate() {
        match *pass {
            Command::Blur { source, target, axis, radius, resolution } => {
                assert_eq!(source, holds_latest);
                assert_ne!(source, target);
                assert_eq!(radius, 0);
                if i % 2 == 0 {
                    assert_eq!((axis, resolution), (Axis::Horizontal, 640));
                } else {
                    assert_eq!((axis, resolution), (Axis::Vertical, 480));
                }
                holds_latest = target;
            }
            other => panic!("not a blur pass: {:?}", other),
        }
    }
    assert_eq!(holds_latest, Buffer::Second);
    assert_eq!(plan[19], Command::Background { mvp: Transform::Identity });
}

#[test]
fn without_blur_the_frame_is_the_overlay_alone() {
    let mut saver = ready_on(Table { blur: BlurSetting::Flag(false), ..empty() }, 1920, 1080);
    assert_eq!(saver.render(), overlay_1080p(0, 0, 0));
    saver.start();
    for _ in 0..1500 {
        saver.update();
        for command in saver.render() {
            match command {
                Command::Capture | Command::Blur { .. } | Command::Background { .. } => {
                    panic!("blur command without blur: {:?}", command)
                }
                _ => {}
            }
        }
    }
    assert_eq!(saver.render(), overlay_1080p(7_500_000, 1_000_000, 0));
    saver.stop();
    for _ in 0..1500 {
        saver.update();
        assert_eq!(saver.render().len(), 4);
    }
}

#[test]
fn dialog_hides_the_overlay() {
    let mut saver = ready_on(empty(), 1920, 1080);
    saver.dialog(true);
    let mut expected = vec![Command::Capture];
    for _ in 0..4 {
        expected.push(horizontal(0, 1920));
        expected.push(vertical(0, 1080));
    }
    expected.push(Command::Background { mvp: Transform::Identity });
    assert_eq!(saver.render(), expected);
    saver.dialog(false);
    assert_eq!(saver.render().len(), 14);
}

#[test]
fn dialog_without_blur_leaves_nothing_to_draw() {
    let mut saver = ready_on(Table { blur: BlurSetting::Flag(false), ..empty() }, 1920, 1080);
    saver.dialog(true);
    assert_eq!(saver.render(), Vec::new());
}

#[test]
fn overlay_carries_the_hue_of_the_last_outcome() {
    let mut saver = ready_on(Table { blur: BlurSetting::Flag(false), ..empty() }, 1920, 1080);
    saver.password(Password::Check);
    saver.password(Password::Failure);
    assert_eq!(saver.render(), overlay_1080p(0, 0, 150_000_000));
    saver.password(Password::Check);
    saver.password(Password::Success);
    assert_eq!(saver.render(), overlay_1080p(0, 0, -80_000_000));
}

#[test]
fn overlay_scale_follows_the_resolution_unless_told_otherwise() {
    let table = Table { blur: BlurSetting::Flag(false), ..empty() };
    let saver = ready_on(table, 3840, 2160);
    match saver.render()[3] {
        Command::Overlay { placement, scale, .. } => {
            assert_eq!(placement, Transform::Translation { x: 0, y: 0, z: -500_000_000 });
            assert_eq!(scale, Transform::Scaling { factor: 800_000_000 });
        }
        other => panic!("not the overlay: {:?}", other),
    }
    let table = Table { blur: BlurSetting::Flag(false), normalize: Some(false), ..empty() };
    let saver = ready_on(table, 3840, 2160);
    match saver.render()[3] {
        Command::Overlay { scale, .. } => {
            assert_eq!(scale, Transform::Scaling { factor: 400_000_000 });
        }
        other => panic!("not the overlay: {:?}", other),
    }
}

#[test]
fn overlay_on_an_odd_surface_sits_half_a_pixel_off_centre() {
    let table = Table { blur: BlurSetting::Flag(false), ..empty() };
    let saver = ready_on(table, 1921, 1081);
    match saver.render()[3] {
        Command::Overlay { projection, placement, .. } => {
            assert_eq!(placement, Transform::Translation { x: -500_000, y: 500_000, z: -500_000_000 });
            assert_eq!(
                projection,
                Transform::Orthographic {
                    left: -960_500_000,
                    right: 960_500_000,
                    bottom: -540_500_000,
                    top: 540_500_000,
                    near: 100_000,
                    far: 1_000_000_000,
                }
            );
        }
        other => panic!("not the overlay: {:?}", other),
    }
}
