use lockblur::config::{Blur, BlurSetting, Config, Man, RotateSetting, Table};

fn empty() -> Table {
    Table { blur: BlurSetting::Absent, scale: None, normalize: None, rotate: RotateSetting::Absent }
}

#[test]
fn defaults_are_the_documented_values() {
    let blur = Blur::default();
    assert_eq!(blur, Blur { max: 1_200_000, step: 10_000, count: 4, always: false });
    let man = Man::default();
    assert_eq!(man, Man { rotate: Some(5_000), scale: 400_000_000, normalize: true });
    assert_eq!(Config::default(), Config { blur: Some(blur), man });
}

#[test]
fn empty_table_gives_defaults() {
    assert_eq!(Config::new(empty()), Config::default());
}

#[test]
fn blur_false_disables_blur() {
    let config = Config::new(Table { blur: BlurSetting::Flag(false), ..empty() });
    assert_eq!(config.blur, None);
    assert_eq!(config.man, Man::default());
}

#[test]
fn blur_true_keeps_default_blur() {
    let config = Config::new(Table { blur: BlurSetting::Flag(true), ..empty() });
    assert_eq!(config.blur, Some(Blur::default()));
}

#[test]
fn blur_fields_override_one_by_one() {
    let fields = BlurSetting::Fields { max: Some(2_000_000), step: None, count: Some(7), always: None };
    let config = Config::new(Table { blur: fields, ..empty() });
    assert_eq!(config.blur, Some(Blur { max: 2_000_000, step: 10_000, count: 7, always: false }));

    let fields = BlurSetting::Fields { max: None, step: Some(600_000), count: None, always: Some(true) };
    let config = Config::new(Table { blur: fields, ..empty() });
    assert_eq!(config.blur, Some(Blur { max: 1_200_000, step: 600_000, count: 4, always: true }));
}

#[test]
fn blur_fields_all_absent_is_default_blur() {
    let fields = BlurSetting::Fields { max: None, step: None, count: None, always: None };
    let config = Config::new(Table { blur: fields, ..empty() });
    assert_eq!(config.blur, Some(Blur::default()));
}

#[test]
fn rotate_false_disables_rotation() {
    let config = Config::new(Table { rotate: RotateSetting::Flag(false), ..empty() });
    assert_eq!(config.man.rotate, None);
    assert_eq!(config.blur, Some(Blur::default()));
}

#[test]
fn rotate_true_keeps_default_step() {
    let config = Config::new(Table { rotate: RotateSetting::Flag(true), ..empty() });
    assert_eq!(config.man.rotate, Some(5_000));
}

#[test]
fn rotate_step_is_taken() {
    let config = Config::new(Table { rotate: RotateSetting::Step(90_000_000_000), ..empty() });
    assert_eq!(config.man.rotate, Some(90_000_000_000));
    let config = Config::new(Table { rotate: RotateSetting::Step(-5_000), ..empty() });
    assert_eq!(config.man.rotate, Some(-5_000));
    let config = Config::new(Table { rotate: RotateSetting::Step(0), ..empty() });
    assert_eq!(config.man.rotate, Some(0));
}

#[test]
fn scale_and_normalize_are_taken() {
    let config = Config::new(Table { scale: Some(123_000_000), normalize: Some(false), ..empty() });
    assert_eq!(config.man, Man { rotate: Some(5_000), scale: 123_000_000, normalize: false });
}
