//! The lifecycle state machine and the animated parameters it owns.

use vstd::prelude::*;
use vstd::arithmetic::div_mod::{
    lemma_fundamental_div_mod, lemma_fundamental_div_mod_converse, lemma_mod_pos_bound,
};
use crate::config::{Blur, Config, Table};
use crate::frame::{passes, Axis, Buffer, Command, Layer};
use crate::scene::{Scene, Transform};
use crate::units::{DEFAULT_ALPHA_STEP, FULL_TURN, HUE_FAILURE, HUE_SUCCESS, KEY_TICKS, UNIT};

verus! {

/// Where the effect stands in its lifecycle.
#[derive(Copy, Clone, Debug, PartialEq, Eq, Structural)]
pub enum State {
    /// Nothing is shown.
    Idle,
    /// The effect is ramping in.
    Entering,
    /// The effect is fully in.
    Steady,
    /// The effect is ramping out.
    Exiting,
}

/// What the host reports about the credential prompt.
#[derive(Copy, Clone, Debug, PartialEq, Eq, Structural)]
pub enum Password {
    /// A character was typed.
    Insert,
    /// A character was deleted.
    Delete,
    /// The field was cleared.
    Reset,
    /// The credential is being checked.
    Check,
    /// The check succeeded.
    Success,
    /// The check failed.
    Failure,
}

/// The animated overlay. Scalars are fixed-point, see [`crate::units`].
#[derive(Copy, Clone, Debug, PartialEq, Eq, Structural)]
pub struct Man {
    /// Pixel column of the overlay's origin.
    pub x: u32,
    /// Pixel row of the overlay's origin.
    pub y: u32,
    /// Current opacity, between `0` and `UNIT`.
    pub alpha: u32,
    /// Opacity added or removed per tick.
    pub alpha_step: u32,
    /// Current rotation, in the units of the rotation, from zero up to but
    /// not including a full turn.
    pub angle: i64,
    /// Ticks counted since the rotation last wrapped.
    pub ticks: u32,
    /// Whether the rotation advances; it is frozen during a check.
    pub active: bool,
    /// Half-size of the overlay.
    pub scale: u32,
    /// Hue shift, in degrees.
    pub hue: i64,
}

/// `n`, held at the largest tick count that can be stored.
pub open spec fn capped(n: int) -> u32 {
    if n > u32::MAX {
        u32::MAX
    } else {
        n as u32
    }
}

/// `angle` wrapped into the full turn: the remainder of its division by
/// 360 degrees, which lies between zero and the full turn also for a
/// negative angle.
pub open spec fn wrapped(angle: int) -> int {
    angle % (FULL_TURN as int)
}

/// Whether `angle` amounts to a full turn or more, in either direction.
pub open spec fn completes_turn(angle: int) -> bool {
    angle >= FULL_TURN || angle <= -FULL_TURN
}

impl Man {
    /// The overlay after one tick of rotation at `rotate` degrees per tick.
    /// A frozen overlay, or one without rotation, stays as it is. Otherwise
    /// the tick is counted, and the angle is the count times the step,
    /// wrapped into the full turn: the remainder, never negative. On the
    /// tick on which the product reaches a full turn, in either direction,
    /// the count starts again from zero.
    pub open spec fn turned(self, rotate: Option<i64>) -> Man {
        match rotate {
            Some(step) => {
                let next = self.ticks + 1;
                if !self.active {
                    self
                } else {
                    Man {
                        angle: wrapped(next * step) as i64,
                        ticks: if completes_turn(next * step) {
                            0
                        } else {
                            capped(next)
                        },
                        ..self
                    }
                }
            },
            None => self,
        }
    }

    /// The overlay after the host reported `password`. A key stroke moves
    /// the tick count by `KEY_TICKS`, within what can be stored; a reset
    /// clears it; a check freezes the rotation; its outcome resumes the
    /// rotation and sets the hue.
    pub open spec fn keyed(self, password: Password) -> Man {
        match password {
            Password::Insert => Man { ticks: capped(self.ticks + KEY_TICKS), ..self },
            Password::Delete => Man {
                ticks: if self.ticks <= KEY_TICKS {
                    0
                } else {
                    (self.ticks - KEY_TICKS) as u32
                },
                ..self
            },
            Password::Reset => Man { ticks: 0, ..self },
            Password::Check => Man { active: false, ..self },
            Password::Success => Man { active: true, hue: HUE_SUCCESS, ..self },
            Password::Failure => Man { active: true, hue: HUE_FAILURE, ..self },
        }
    }
}

/// What is known of the output surface once the effect is initialised.
#[derive(Copy, Clone, Debug, PartialEq, Eq, Structural)]
pub struct Graphics {
    pub width: u32,
    pub height: u32,
    pub scene: Scene,
}

/// The effect: its configuration, lifecycle state and animated parameters.
pub struct Saver {
    config: Option<Config>,
    state: State,
    gl: Option<Graphics>,
    dialog: bool,
    blur: u32,
    man: Option<Man>,
}

/// The abstract value of a [`Saver`].
pub struct Model {
    /// The configuration, once supplied.
    pub config: Option<Config>,
    /// The lifecycle state.
    pub state: State,
    /// The output surface, once initialised.
    pub gl: Option<Graphics>,
    /// Whether the host shows a dialog over the overlay.
    pub dialog: bool,
    /// The current blur radius.
    pub blur: u32,
    /// The overlay, once initialised.
    pub man: Option<Man>,
}

/// Opacity step per tick that goes with a blur ramp: the ratio of the
/// radius step to the maximum, rounded down to the fixed-point resolution
/// and held at the largest value that can be stored. A ramp without extent
/// has no such ratio; its one tick covers the whole range of the opacity.
/// Without blur the step is a fixed default.
pub open spec fn alpha_step_of(blur: Option<Blur>) -> int {
    match blur {
        None => DEFAULT_ALPHA_STEP as int,
        Some(b) => if b.max == 0 {
            UNIT as int
        } else if b.step * UNIT / (b.max as int) > u32::MAX {
            u32::MAX as int
        } else {
            b.step * UNIT / (b.max as int)
        },
    }
}

/// The opacity stands as many steps above zero as the radius does.
pub open spec fn rising(alpha: int, radius: int, blur: Blur) -> bool {
    alpha * blur.step == radius * alpha_step_of(Some(blur))
}

/// The opacity stands as many steps below one as the radius does below its
/// maximum.
pub open spec fn falling(alpha: int, radius: int, blur: Blur) -> bool {
    (UNIT - alpha) * blur.step == (blur.max - radius) * alpha_step_of(Some(blur))
}

impl Model {
    /// The value of a fresh effect.
    pub open spec fn fresh() -> Model {
        Model { config: None, state: State::Idle, gl: None, dialog: false, blur: 0, man: None }
    }

    /// Whether the effect has been initialised, so that it can be advanced
    /// and rendered.
    pub open spec fn ready(self) -> bool {
        self.man is Some
    }

    /// The blur ramp in force, if any.
    pub open spec fn ramp(self) -> Option<Blur> {
        match self.config {
            Some(config) => config.blur,
            None => None,
        }
    }

    /// Whether the radius is within the range of the blur ramp: between
    /// zero and the configured maximum, and zero without a ramp.
    pub open spec fn in_range(self) -> bool {
        match self.ramp() {
            Some(blur) => 0 <= self.blur <= blur.max,
            None => self.blur == 0,
        }
    }

    /// The overlay as initialisation leaves it for a surface of the given
    /// size: centred, transparent, unrotated and turning.
    pub open spec fn initial_man(config: Config, width: u32, height: u32) -> Man {
        Man {
            x: width / 2,
            y: height / 2,
            alpha: 0,
            alpha_step: alpha_step_of(config.blur) as u32,
            angle: 0,
            ticks: 0,
            active: true,
            scale: config.man.scale,
            hue: 0,
        }
    }

    /// The invariant of the effect, in every state it can reach.
    pub open spec fn wf(self) -> bool {
        &&& self.man is Some <==> self.gl is Some
        &&& self.man is Some ==> self.config is Some
        &&& self.man is None ==> self.blur == 0
        &&& match self.ramp() {
            Some(blur) => self.blur <= blur.max,
            None => self.blur == 0,
        }
        &&& match (self.config, self.gl, self.man) {
            (Some(config), Some(gl), Some(man)) => {
                &&& gl.scene == (Scene { width: gl.width, height: gl.height })
                &&& man.x == gl.width / 2
                &&& man.y == gl.height / 2
                &&& man.scale == config.man.scale
                &&& man.alpha <= UNIT
                &&& 0 <= man.angle < FULL_TURN
                &&& man.alpha_step == alpha_step_of(config.blur)
                &&& match config.blur {
                    Some(blur) => rising(man.alpha as int, self.blur as int, blur) || falling(
                        man.alpha as int,
                        self.blur as int,
                        blur,
                    ),
                    None => true,
                }
            },
            _ => true,
        }
    }

    /// The effect after a begin event: it ramps in from where it stands.
    pub open spec fn start(self) -> Model {
        Model { state: State::Entering, ..self }
    }

    /// The effect after an end event: it ramps out from where it stands.
    pub open spec fn stop(self) -> Model {
        Model { state: State::Exiting, ..self }
    }

    /// The effect after the host opened or closed a dialog.
    pub open spec fn dialog(self, open: bool) -> Model {
        Model { dialog: open, ..self }
    }

    /// The effect after it was given its settings.
    pub open spec fn config(self, table: Table) -> Model {
        Model { config: Some(Config::spec_new(table)), ..self }
    }

    /// The effect after it was initialised for a surface of the given size.
    pub open spec fn initialize(self, width: u32, height: u32) -> Model
        recommends
            self.config is Some,
    {
        Model {
            gl: Some(Graphics { width, height, scene: Scene { width, height } }),
            man: Some(Model::initial_man(self.config->0, width, height)),
            ..self
        }
    }
    /// The effect after the host reported `password`. Before
    /// initialisation there is no overlay to act on.
    pub open spec fn password(self, password: Password) -> Model {
        match self.man {
            Some(man) => Model { man: Some(man.keyed(password)), ..self },
            None => self,
        }
    }

    /// The effect one step further into the ramp, `man` being the overlay
    /// after its rotation. While entering, radius and opacity grow by their
    /// steps; when the radius reaches its maximum both snap to their targets
    /// and the effect is steady. While exiting they shrink; when the radius
    /// reaches zero both snap to zero and the effect is idle. Without a blur
    /// ramp the opacity alone decides.
    pub open spec fn ramped(self, man: Man) -> Model {
        match self.state {
            State::Idle | State::Steady => Model { man: Some(man), ..self },
            State::Entering => match self.ramp() {
                Some(blur) => if self.blur + blur.step >= blur.max {
                    Model {
                        state: State::Steady,
                        blur: blur.max,
                        man: Some(Man { alpha: UNIT, ..man }),
                        ..self
                    }
                } else {
                    Model {
                        blur: (self.blur + blur.step) as u32,
                        man: Some(Man { alpha: (man.alpha + man.alpha_step) as u32, ..man }),
                        ..self
                    }
                },
                None => if man.alpha + man.alpha_step >= UNIT {
                    Model { state: State::Steady, man: Some(Man { alpha: UNIT, ..man }), ..self }
                } else {
                    Model {
                        man: Some(Man { alpha: (man.alpha + man.alpha_step) as u32, ..man }),
                        ..self
                    }
                },
            },
            State::Exiting => match self.ramp() {
                Some(blur) => if self.blur <= blur.step {
                    Model {
                        state: State::Idle,
                        blur: 0,
                        man: Some(Man { alpha: 0, ..man }),
                        ..self
                    }
                } else {
                    Model {
                        blur: (self.blur - blur.step) as u32,
                        man: Some(Man { alpha: (man.alpha - man.alpha_step) as u32, ..man }),
                        ..self
                    }
                },
                None => if man.alpha <= man.alpha_step {
                    Model { state: State::Idle, man: Some(Man { alpha: 0, ..man }), ..self }
                } else {
                    Model {
                        man: Some(Man { alpha: (man.alpha - man.alpha_step) as u32, ..man }),
                        ..self
                    }
                },
            },
        }
    }

    /// The effect after one tick: the rotation advances, then the ramp.
    pub open spec fn update(self) -> Model
        recommends
            self.ready(),
            self.config is Some,
    {
        self.ramped(self.man->0.turned(self.config->0.man.rotate))
    }
    /// The scale of the overlay: relative to the reference height where the
    /// configuration says so, literal otherwise.
    pub open spec fn overlay_scale(self) -> Transform
        recommends
            self.ready(),
            self.wf(),
    {
        if self.config->0.man.normalize {
            self.gl->0.scene.spec_scale(self.man->0.scale)
        } else {
            Transform::Scaling { factor: self.man->0.scale as u64 }
        }
    }

    /// The commands that put the blurred screen on the output. Without a
    /// blur ramp there are none. With one, the screen is captured and
    /// blurred in `count` passes at the current radius, unless the effect is
    /// steady and the ramp does not ask for passes then; the second
    /// transient surface, which holds the result of the last blur, is drawn
    /// over the whole output.
    pub open spec fn background(self) -> Seq<Command>
        recommends
            self.ready(),
            self.wf(),
    {
        match self.ramp() {
            Some(blur) => {
                let blurred = if self.state != State::Steady || blur.always {
                    seq![Command::Capture] + passes(
                        blur.count as nat,
                        self.blur,
                        self.gl->0.width,
                        self.gl->0.height,
                    )
                } else {
                    Seq::empty()
                };
                blurred.push(Command::Background { mvp: Transform::Identity })
            },
            None => Seq::empty(),
        }
    }

    /// The commands that put the overlay on the output. While a dialog is
    /// open there are none. Otherwise the composite surface is cleared, the
    /// fixed layer is drawn onto it as it is and the dynamic layer under the
    /// current rotation, and the composite is drawn at the overlay's place
    /// and scale with the current opacity and hue.
    pub open spec fn overlay(self) -> Seq<Command>
        recommends
            self.ready(),
            self.wf(),
    {
        if self.dialog {
            Seq::empty()
        } else {
            seq![
                Command::Clear,
                Command::Layer { layer: Layer::Fixed, mvp: Transform::Identity },
                Command::Layer {
                    layer: Layer::Dynamic,
                    mvp: Transform::RotationZ { degrees: self.man->0.angle },
                },
                Command::Overlay {
                    projection: self.gl->0.scene.spec_to_matrix(),
                    placement: self.gl->0.scene.spec_position(self.man->0.x, self.man->0.y),
                    scale: self.overlay_scale(),
                    alpha: self.man->0.alpha,
                    hue: self.man->0.hue,
                },
            ]
        }
    }

    /// The commands of one frame: the background, then the overlay.
    pub open spec fn render(self) -> Seq<Command>
        recommends
            self.ready(),
            self.wf(),
    {
        self.background() + self.overlay()
    }
}

/// An angle run backwards wraps to what is left of the full turn after the
/// same angle run forwards.
proof fn lemma_wrapped_backwards(angle: int)
    requires
        0 <= angle,
    ensures
        0 <= wrapped(angle) < FULL_TURN,
        wrapped(-angle) == if wrapped(angle) == 0 {
            0
        } else {
            FULL_TURN - wrapped(angle)
        },
{
    let full = FULL_TURN as int;
    let turns = angle / full;
    let rest = angle % full;
    lemma_fundamental_div_mod(angle, full);
    lemma_mod_pos_bound(angle, full);
    assert(full * turns == turns * full) by (nonlinear_arith);
    if rest == 0 {
        assert(-angle == (-turns) * full + 0) by (nonlinear_arith)
            requires
                angle == turns * full + rest,
                rest == 0,
        ;
        lemma_fundamental_div_mod_converse(-angle, full, -turns, 0);
    } else {
        assert(-angle == (-turns - 1) * full + (full - rest)) by (nonlinear_arith)
            requires
                angle == turns * full + rest,
        ;
        lemma_fundamental_div_mod_converse(-angle, full, -turns - 1, full - rest);
    }
}

/// The rounded-down opacity step never outruns the radius step.
pub(crate) proof fn lemma_alpha_step(step: int, max: int) by (nonlinear_arith)
    requires
        0 <= step < max,
    ensures
        0 <= step * UNIT / max < UNIT,
        (step * UNIT / max) * max <= step * UNIT,
        step == 0 ==> step * UNIT / max == 0,
{
}

/// One step up keeps the opacity in step with the radius, and below one.
pub(crate) proof fn lemma_ramp_up(alpha: int, radius: int, blur: Blur)
    requires
        0 <= alpha <= UNIT,
        0 <= radius,
        radius + blur.step < blur.max,
        rising(alpha, radius, blur) || falling(alpha, radius, blur),
    ensures
        alpha + alpha_step_of(Some(blur)) <= UNIT,
        rising(alpha + alpha_step_of(Some(blur)), radius + blur.step, blur) || falling(
            alpha + alpha_step_of(Some(blur)),
            radius + blur.step,
            blur,
        ),
{
    let s = blur.step as int;
    let m = blur.max as int;
    let q = alpha_step_of(Some(blur));
    let u = UNIT as int;
    lemma_alpha_step(s, m);
    if rising(alpha, radius, blur) {
        assert((alpha + q) * s == (radius + s) * q && alpha + q <= u) by (nonlinear_arith)
            requires
                alpha * s == radius * q,
                0 <= alpha <= u,
                0 <= radius,
                0 <= s,
                radius + s < m,
                0 <= q,
                q * m <= s * u,
                s == 0 ==> q == 0,
        ;
    } else {
        assert((u - (alpha + q)) * s == (m - (radius + s)) * q && alpha + q <= u)
            by (nonlinear_arith)
            requires
                (u - alpha) * s == (m - radius) * q,
                0 <= alpha <= u,
                0 <= radius,
                0 <= s,
                radius + s < m,
                0 <= q,
                q * m <= s * u,
                s == 0 ==> q == 0,
        ;
    }
}

/// One step down keeps the opacity in step with the radius, and above zero.
pub(crate) proof fn lemma_ramp_down(alpha: int, radius: int, blur: Blur)
    requires
        0 <= alpha <= UNIT,
        blur.step < radius <= blur.max,
        rising(alpha, radius, blur) || falling(alpha, radius, blur),
    ensures
        alpha - alpha_step_of(Some(blur)) >= 0,
        rising(alpha - alpha_step_of(Some(blur)), radius - blur.step, blur) || falling(
            alpha - alpha_step_of(Some(blur)),
            radius - blur.step,
            blur,
        ),
{
    let s = blur.step as int;
    let m = blur.max as int;
    let q = alpha_step_of(Some(blur));
    let u = UNIT as int;
    lemma_alpha_step(s, m);
    if rising(alpha, radius, blur) {
        assert((alpha - q) * s == (radius - s) * q && alpha - q >= 0) by (nonlinear_arith)
            requires
                alpha * s == radius * q,
                0 <= alpha <= u,
                0 <= s < radius,
                radius <= m,
                0 <= q,
                q * m <= s * u,
                s == 0 ==> q == 0,
        ;
    } else {
        assert((u - (alpha - q)) * s == (m - (radius - s)) * q && alpha - q >= 0)
            by (nonlinear_arith)
            requires
                (u - alpha) * s == (m - radius) * q,
                0 <= alpha <= u,
                0 <= s < radius,
                radius <= m,
                0 <= q,
                q * m <= s * u,
                s == 0 ==> q == 0,
        ;
    }
}

impl View for Saver {
    type V = Model;

    closed spec fn view(&self) -> Model {
        Model {
            config: self.config,
            state: self.state,
            gl: self.gl,
            dialog: self.dialog,
            blur: self.blur,
            man: self.man,
        }
    }
}

impl Default for Saver {
    fn default() -> (saver: Saver)
        ensures
            saver@ == Model::fresh(),
    {
        Saver { config: None, state: State::Idle, gl: None, dialog: false, blur: 0, man: None }
    }
}

impl Saver {
    #[verifier::type_invariant]
    spec fn inv(self) -> bool {
        self@.wf()
    }

    /// Takes the settings of the session. They are supplied before the
    /// effect is initialised.
    pub fn config(&mut self, table: Table)
        requires
            !old(self)@.ready(),
        ensures
            final(self)@ == old(self)@.config(table),
            final(self)@.wf(),
    {
        proof {
            use_type_invariant(&*self);
        }
        self.config = Some(Config::new(table));
    }

    /// Begins the effect.
    pub fn start(&mut self)
        ensures
            final(self)@ == old(self)@.start(),
            final(self)@.wf(),
    {
        proof {
            use_type_invariant(&*self);
        }
        self.state = State::Entering;
    }

    /// Ends the effect.
    pub fn stop(&mut self)
        ensures
            final(self)@ == old(self)@.stop(),
            final(self)@.wf(),
    {
        proof {
            use_type_invariant(&*self);
        }
        self.state = State::Exiting;
    }

    /// The current lifecycle state.
    pub fn state(&self) -> (state: State)
        ensures
            state == self@.state,
    {
        self.state
    }

    /// Records whether the host shows a dialog, which hides the overlay.
    pub fn dialog(&mut self, open: bool)
        ensures
            final(self)@ == old(self)@.dialog(open),
            final(self)@.wf(),
    {
        proof {
            use_type_invariant(&*self);
        }
        self.dialog = open;
    }

    /// Prepares the effect for an output surface of the given size: the
    /// overlay is centred on it, transparent and unrotated, and its opacity
    /// step is derived from the blur ramp.
    pub fn initialize(&mut self, width: u32, height: u32)
        requires
            old(self)@.config is Some,
            !old(self)@.ready(),
        ensures
            final(self)@ == old(self)@.initialize(width, height),
            final(self)@.wf(),
    {
        proof {
            use_type_invariant(&*self);
        }
        let config = self.config.unwrap();
        let step: u32 = match config.blur {
            Some(blur) => {
                if blur.max == 0 {
                    UNIT
                } else {
                    assert(blur.step as u64 * UNIT as u64 <= 0xffff_ffff * 1_000_000)
                        by (nonlinear_arith)
                        requires
                            blur.step <= 0xffff_ffff,
                            UNIT == 1_000_000,
                    ;
                    let ratio: u64 = blur.step as u64 * UNIT as u64 / blur.max as u64;
                    if ratio > u32::MAX as u64 {
                        u32::MAX
                    } else {
                        ratio as u32
                    }
                }
            },
            None => DEFAULT_ALPHA_STEP,
        };
        proof {
            if config.blur is Some {
                let blur = config.blur->0;
                if blur.step < blur.max {
                    lemma_alpha_step(blur.step as int, blur.max as int);
                }
            }
        }
        let man = Man {
            x: width / 2,
            y: height / 2,
            alpha: 0,
            alpha_step: step,
            angle: 0,
            ticks: 0,
            active: true,
            scale: config.man.scale,
            hue: 0,
        };
        let gl = Graphics { width, height, scene: Scene::new(width, height) };
        *self = Saver {
            config: self.config,
            state: self.state,
            gl: Some(gl),
            dialog: self.dialog,
            blur: self.blur,
            man: Some(man),
        };
    }

    /// Takes note of what happens at the credential prompt. Nothing
    /// happens before the effect is initialised.
    pub fn password(&mut self, password: Password)
        ensures
            final(self)@ == old(self)@.password(password),
            final(self)@.wf(),
    {
        proof {
            use_type_invariant(&*self);
        }
        if let Some(man) = self.man {
            let mut man = man;
            match password {
                Password::Insert => {
                    man.ticks = if man.ticks > u32::MAX - KEY_TICKS {
                        u32::MAX
                    } else {
                        man.ticks + KEY_TICKS
                    };
                },
                Password::Delete => {
                    man.ticks = if man.ticks <= KEY_TICKS {
                        0
                    } else {
                        man.ticks - KEY_TICKS
                    };
                },
                Password::Reset => {
                    man.ticks = 0;
                },
                Password::Check => {
                    man.active = false;
                },
                Password::Success => {
                    man.active = true;
                    man.hue = HUE_SUCCESS;
                },
                Password::Failure => {
                    man.active = true;
                    man.hue = HUE_FAILURE;
                },
            }
            self.man = Some(man);
        }
    }

    /// Advances the effect by one tick: first the rotation, then the ramp
    /// that the lifecycle state calls for. The radius never falls while
    /// entering, never grows while exiting, and stays within its range; the
    /// state moves only from entering to steady and from exiting to idle.
    pub fn update(&mut self)
        requires
            old(self)@.ready(),
        ensures
            final(self)@ == old(self)@.update(),
            final(self)@.wf(),
            final(self)@.in_range(),
            old(self)@.state == State::Entering ==> final(self)@.blur >= old(self)@.blur,
            old(self)@.state == State::Exiting ==> final(self)@.blur <= old(self)@.blur,
            final(self)@.state == old(self)@.state || (old(self)@.state == State::Entering
                && final(self)@.state == State::Steady) || (old(self)@.state == State::Exiting
                && final(self)@.state == State::Idle),
    {
        proof {
            use_type_invariant(&*self);
        }
        let config = self.config.unwrap();
        let mut man = self.man.unwrap();

        if let Some(step) = config.man.rotate {
            if man.active {
                let next: i128 = man.ticks as i128 + 1;
                let size: i128 = if step < 0 {
                    -(step as i128)
                } else {
                    step as i128
                };
                assert(next * size <= 0x1_0000_0000 * 0x8000_0000_0000_0000 && next * size >= 0
                    && next * size == if step < 0 {
                    -(next * step)
                } else {
                    next * step
                }) by (nonlinear_arith)
                    requires
                        0 <= next <= 0x1_0000_0000,
                        0 <= size <= 0x8000_0000_0000_0000,
                        size == if step < 0 {
                            -step
                        } else {
                            step as int
                        },
                ;
                let travelled: i128 = next * size;
                let rest: i128 = travelled % (FULL_TURN as i128);
                proof {
                    lemma_wrapped_backwards(travelled as int);
                }
                man.angle = if step < 0 && rest != 0 {
                    (FULL_TURN as i128 - rest) as i64
                } else {
                    rest as i64
                };
                man.ticks = if travelled >= FULL_TURN as i128 {
                    0
                } else if next > u32::MAX as i128 {
                    u32::MAX
                } else {
                    next as u32
                };
            }
        }
        let mut state = self.state;
        let mut radius = self.blur;
        match self.state {
            State::Idle | State::Steady => {},
            State::Entering => {
                match config.blur {
                    Some(blur) => {
                        if blur.step >= blur.max - radius {
                            state = State::Steady;
                            radius = blur.max;
                            man.alpha = UNIT;
                        } else {
                            proof {
                                lemma_ramp_up(man.alpha as int, radius as int, blur);
                            }
                            radius = radius + blur.step;
                            man.alpha = man.alpha + man.alpha_step;
                        }
                    },
                    None => {
                        if man.alpha_step >= UNIT - man.alpha {
                            state = State::Steady;
                            man.alpha = UNIT;
                        } else {
                            man.alpha = man.alpha + man.alpha_step;
                        }
                    },
                }
            },
            State::Exiting => {
                match config.blur {
                    Some(blur) => {
                        if radius <= blur.step {
                            state = State::Idle;
                            radius = 0;
                            man.alpha = 0;
                        } else {
                            proof {
                                lemma_ramp_down(man.alpha as int, radius as int, blur);
                            }
                            radius = radius - blur.step;
                            man.alpha = man.alpha - man.alpha_step;
                        }
                    },
                    None => {
                        if man.alpha <= man.alpha_step {
                            state = State::Idle;
                            man.alpha = 0;
                        } else {
                            man.alpha = man.alpha - man.alpha_step;
                        }
                    },
                }
            },
        }
        *self = Saver {
            config: self.config,
            state,
            gl: self.gl,
            dialog: self.dialog,
            blur: radius,
            man: Some(man),
        };
    }

    /// Describes the current frame as the list of draw calls that produce
    /// it, in the order in which they are to be carried out.
    pub fn render(&self) -> (plan: Vec<Command>)
        requires
            self@.ready(),
        ensures
            plan@ == self@.render(),
    {
        proof {
            use_type_invariant(self);
        }
        let config = self.config.unwrap();
        let gl = self.gl.unwrap();
        let man = self.man.unwrap();
        let mut plan: Vec<Command> = Vec::new();

        if let Some(blur) = config.blur {
            if self.state != State::Steady || blur.always {
                plan.push(Command::Capture);
                let mut i: usize = 0;
                while i < blur.count
                    invariant
                        i <= blur.count,
                        plan@ == seq![Command::Capture] + passes(
                            i as nat,
                            self.blur,
                            gl.width,
                            gl.height,
                        ),
                    decreases blur.count - i,
                {
                    plan.push(
                        Command::Blur {
                            source: Buffer::Second,
                            target: Buffer::First,
                            axis: Axis::Horizontal,
                            radius: self.blur,
                            resolution: gl.width,
                        },
                    );
                    plan.push(
                        Command::Blur {
                            source: Buffer::First,
                            target: Buffer::Second,
                            axis: Axis::Vertical,
                            radius: self.blur,
                            resolution: gl.height,
                        },
                    );
                    i = i + 1;
                }
            }
            plan.push(Command::Background { mvp: gl.scene.none() });
        }

        if !self.dialog {
            let scale = if config.man.normalize {
                gl.scene.scale(man.scale)
            } else {
                Transform::Scaling { factor: man.scale as u64 }
            };
            plan.push(Command::Clear);
            plan.push(Command::Layer { layer: Layer::Fixed, mvp: gl.scene.none() });
            plan.push(Command::Layer { layer: Layer::Dynamic, mvp: gl.scene.rotate(man.angle) });
            plan.push(
                Command::Overlay {
                    projection: gl.scene.to_matrix(),
                    placement: gl.scene.position(man.x, man.y),
                    scale,
                    alpha: man.alpha,
                    hue: man.hue,
                },
            );
        }
        plan
    }

    /// The configuration in force, once the settings were supplied.
    pub fn settings(&self) -> (config: Option<Config>)
        ensures
            config == self@.config,
    {
        self.config
    }

    /// The current blur radius.
    pub fn radius(&self) -> (radius: u32)
        ensures
            radius == self@.blur,
            self@.in_range(),
    {
        proof {
            use_type_invariant(self);
        }
        self.blur
    }

    /// A snapshot of the overlay, once the effect is initialised.
    pub fn man(&self) -> (man: Option<Man>)
        ensures
            man == self@.man,
            man is Some <==> self@.ready(),
            man matches Some(m) ==> m.alpha <= UNIT && 0 <= m.angle < FULL_TURN,
    {
        proof {
            use_type_invariant(self);
        }
        self.man
    }
}

} // verus!
