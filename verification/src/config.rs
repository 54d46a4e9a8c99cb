//! Typed configuration of the effect and the rules that derive it from the
//! settings a host supplies.

use vstd::prelude::*;

verus! {

/// Parameters of the blur ramp. Scalars are fixed-point, see [`crate::units`].
#[derive(Copy, Clone, Debug, PartialEq, Eq, Structural)]
pub struct Blur {
    /// Radius reached when the effect is fully in.
    pub max: u32,
    /// Radius added or removed per tick.
    pub step: u32,
    /// Number of horizontal-then-vertical passes per frame.
    pub count: usize,
    /// Whether the passes also run while the effect is steady.
    pub always: bool,
}

impl Blur {
    /// The blur used when nothing is configured: `max = 1.2`, `step = 0.01`,
    /// four passes, run only while the effect is not steady.
    pub open spec fn spec_default() -> Blur {
        Blur { max: 1_200_000, step: 10_000, count: 4, always: false }
    }
}

impl Default for Blur {
    fn default() -> (blur: Blur)
        ensures
            blur == Blur::spec_default(),
    {
        Blur { max: 1_200_000, step: 10_000, count: 4, always: false }
    }
}

/// Parameters of the overlay.
#[derive(Copy, Clone, Debug, PartialEq, Eq, Structural)]
pub struct Man {
    /// Degrees added to the rotation per tick, in the units of the rotation;
    /// a negative step turns the other way, `None` disables rotation.
    pub rotate: Option<i64>,
    /// Half-size of the overlay in pixels.
    pub scale: u32,
    /// Whether `scale` is relative to a surface 1080 pixels high.
    pub normalize: bool,
}

impl Man {
    /// The overlay used when nothing is configured: `rotate = 0.000005`,
    /// `scale = 400.0`, relative to the reference height.
    pub open spec fn spec_default() -> Man {
        Man { rotate: Some(5_000i64), scale: 400_000_000, normalize: true }
    }
}

impl Default for Man {
    fn default() -> (man: Man)
        ensures
            man == Man::spec_default(),
    {
        Man { rotate: Some(5_000), scale: 400_000_000, normalize: true }
    }
}

/// The configuration of one session.
#[derive(Copy, Clone, Debug, PartialEq, Eq, Structural)]
pub struct Config {
    /// The blur ramp; `None` disables blurring entirely.
    pub blur: Option<Blur>,
    /// The overlay.
    pub man: Man,
}

impl Default for Config {
    fn default() -> (config: Config)
        ensures
            config == Config::spec_default(),
    {
        Config { blur: Some(Blur::default()), man: Man::default() }
    }
}

/// What a host may say about the blur: nothing, a plain switch, or a table
/// of parameters, each of which may be left out.
#[derive(Copy, Clone, Debug, PartialEq, Eq, Structural)]
pub enum BlurSetting {
    Absent,
    Flag(bool),
    Fields { max: Option<u32>, step: Option<u32>, count: Option<usize>, always: Option<bool> },
}

/// What a host may say about the rotation: nothing, a plain switch, or the
/// step per tick.
#[derive(Copy, Clone, Debug, PartialEq, Eq, Structural)]
pub enum RotateSetting {
    Absent,
    Flag(bool),
    Step(i64),
}

/// The settings of a session as the host supplied them.
#[derive(Copy, Clone, Debug, PartialEq, Eq, Structural)]
pub struct Table {
    pub blur: BlurSetting,
    pub scale: Option<u32>,
    pub normalize: Option<bool>,
    pub rotate: RotateSetting,
}

/// `value` where it is given, `fallback` where it is not.
pub open spec fn or_default<T>(value: Option<T>, fallback: T) -> T {
    match value {
        Some(v) => v,
        None => fallback,
    }
}

impl Config {
    /// Blur and overlay both at their defaults.
    pub open spec fn spec_default() -> Config {
        Config { blur: Some(Blur::spec_default()), man: Man::spec_default() }
    }

    /// The blur that `setting` asks for. Only the switch set to `false`
    /// disables it; every parameter left out keeps its default.
    pub open spec fn blur_of(setting: BlurSetting) -> Option<Blur> {
        match setting {
            BlurSetting::Flag(false) => None,
            BlurSetting::Fields { max, step, count, always } => Some(
                Blur {
                    max: or_default(max, Blur::spec_default().max),
                    step: or_default(step, Blur::spec_default().step),
                    count: or_default(count, Blur::spec_default().count),
                    always: or_default(always, Blur::spec_default().always),
                },
            ),
            _ => Some(Blur::spec_default()),
        }
    }

    /// The rotation step that `setting` asks for. Only the switch set to
    /// `false` disables rotation.
    pub open spec fn rotate_of(setting: RotateSetting) -> Option<i64> {
        match setting {
            RotateSetting::Flag(false) => None,
            RotateSetting::Step(step) => Some(step),
            _ => Man::spec_default().rotate,
        }
    }

    /// The configuration that `table` describes.
    pub open spec fn spec_new(table: Table) -> Config {
        Config {
            blur: Config::blur_of(table.blur),
            man: Man {
                rotate: Config::rotate_of(table.rotate),
                scale: or_default(table.scale, Man::spec_default().scale),
                normalize: or_default(table.normalize, Man::spec_default().normalize),
            },
        }
    }

    /// Derives the configuration from the host's settings.
    pub fn new(table: Table) -> (config: Config)
        ensures
            config == Config::spec_new(table),
            config.blur is None <==> table.blur == BlurSetting::Flag(false),
            config.man.rotate is None <==> table.rotate == RotateSetting::Flag(false),
    {
        let mut config = Config::default();

        match table.blur {
            BlurSetting::Flag(false) => {
                config.blur = None;
            },
            BlurSetting::Fields { max, step, count, always } => {
                let mut blur = Blur::default();
                if let Some(value) = max {
                    blur.max = value;
                }
                if let Some(value) = step {
                    blur.step = value;
                }
                if let Some(value) = count {
                    blur.count = value;
                }
                if let Some(value) = always {
                    blur.always = value;
                }
                config.blur = Some(blur);
            },
            _ => {},
        }

        if let Some(value) = table.scale {
            config.man.scale = value;
        }
        if let Some(value) = table.normalize {
            config.man.normalize = value;
        }
        match table.rotate {
            RotateSetting::Flag(false) => {
                config.man.rotate = None;
            },
            RotateSetting::Step(value) => {
                config.man.rotate = Some(value);
            },
            _ => {},
        }

        config
    }
}

} // verus!
