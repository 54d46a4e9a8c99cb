//! Sessions: what holds of the effect over any run of events.
//!
//! The statements here are about the abstract value of a
//! [`Saver`](crate::saver::Saver); they carry over to the effect itself
//! because each of its operations is specified by the function of the same
//! name on [`Model`].

use vstd::prelude::*;
use vstd::arithmetic::div_mod::{
    lemma_fundamental_div_mod, lemma_fundamental_div_mod_converse, lemma_mod_multiples_vanish,
    lemma_mod_pos_bound,
};
use crate::config::{BlurSetting, Config, Table};
use crate::frame::{passes, Axis, Buffer, Command};
use crate::saver::{
    capped, completes_turn, lemma_alpha_step, lemma_ramp_down, lemma_ramp_up, wrapped, Model,
    Password, State,
};
use crate::units::{FULL_TURN, HUE_SUCCESS, UNIT};

verus! {

/// Something that happens to an initialised effect.
pub enum Event {
    /// The host begins the effect.
    Start,
    /// The host ends the effect.
    Stop,
    /// The host reports on the credential prompt.
    Password(Password),
    /// The host opens or closes a dialog.
    Dialog(bool),
    /// One tick passes.
    Update,
}

impl Model {
    /// The effect after `event`.
    pub open spec fn apply(self, event: Event) -> Model {
        match event {
            Event::Start => self.start(),
            Event::Stop => self.stop(),
            Event::Password(password) => self.password(password),
            Event::Dialog(open) => self.dialog(open),
            Event::Update => self.update(),
        }
    }

    /// The effect after `events`, in order.
    pub open spec fn run(self, events: Seq<Event>) -> Model
        decreases events.len(),
    {
        if events.len() == 0 {
            self
        } else {
            self.run(events.drop_last()).apply(events.last())
        }
    }

    /// The effect after `n` ticks with nothing else in between.
    pub open spec fn ticks(self, n: nat) -> Model
        decreases n,
    {
        if n == 0 {
            self
        } else {
            self.ticks((n - 1) as nat).update()
        }
    }
}

/// No event breaks the invariant of an initialised effect, and none
/// changes its configuration or its surface.
pub proof fn law_event_keeps_invariant(m: Model, event: Event)
    requires
        m.wf(),
        m.ready(),
    ensures
        m.apply(event).wf(),
        m.apply(event).ready(),
        m.apply(event).config == m.config,
        m.apply(event).gl == m.gl,
{
    match event {
        Event::Update => {
            let man = m.man->0.turned(m.config->0.man.rotate);
            match m.ramp() {
                Some(blur) => {
                    if m.state == State::Entering && m.blur + blur.step < blur.max {
                        lemma_ramp_up(man.alpha as int, m.blur as int, blur);
                    }
                    if m.state == State::Exiting && m.blur > blur.step {
                        lemma_ramp_down(man.alpha as int, m.blur as int, blur);
                    }
                },
                None => {},
            }
        },
        _ => {},
    }
}

/// Throughout a session the effect keeps its invariant, and the blur
/// radius never leaves the range of its ramp.
pub proof fn law_session_keeps_invariant(m: Model, events: Seq<Event>)
    requires
        m.wf(),
        m.ready(),
    ensures
        m.run(events).wf(),
        m.run(events).ready(),
        m.run(events).config == m.config,
        m.run(events).gl == m.gl,
        m.run(events).in_range(),
    decreases events.len(),
{
    if events.len() > 0 {
        law_session_keeps_invariant(m, events.drop_last());
        law_event_keeps_invariant(m.run(events.drop_last()), events.last());
    }
}

/// A tick moves the lifecycle state only from entering to steady and from
/// exiting to idle; a begin event leads to entering and an end event to
/// exiting; nothing else changes the state.
pub proof fn law_transitions(m: Model, event: Event)
    requires
        m.wf(),
        m.ready(),
    ensures
        match event {
            Event::Start => m.apply(event).state == State::Entering,
            Event::Stop => m.apply(event).state == State::Exiting,
            Event::Update => {
                ||| m.apply(event).state == m.state
                ||| m.state == State::Entering && m.apply(event).state == State::Steady
                ||| m.state == State::Exiting && m.apply(event).state == State::Idle
            },
            _ => m.apply(event).state == m.state,
        },
{
}

/// A tick reaches steady exactly when the radius would reach its maximum,
/// and idle exactly when it would reach zero; radius and opacity then
/// stand at their targets exactly.
pub proof fn law_bounds_trigger_transitions(m: Model)
    requires
        m.wf(),
        m.ready(),
        m.ramp() is Some,
    ensures
        m.state == State::Entering ==> (m.update().state == State::Steady <==> m.blur
            + m.ramp()->0.step >= m.ramp()->0.max),
        m.state == State::Exiting ==> (m.update().state == State::Idle <==> m.blur
            - m.ramp()->0.step <= 0),
        m.state == State::Entering && m.update().state == State::Steady ==> m.update().blur
            == m.ramp()->0.max && m.update().man->0.alpha == UNIT,
        m.state == State::Exiting && m.update().state == State::Idle ==> m.update().blur == 0
            && m.update().man->0.alpha == 0,
{
}

/// While the effect is entering the radius does not fall from one tick to
/// the next, and while it is exiting the radius does not grow.
pub proof fn law_radius_monotone(m: Model)
    requires
        m.wf(),
        m.ready(),
    ensures
        m.state == State::Entering ==> m.update().blur >= m.blur,
        m.state == State::Exiting ==> m.update().blur <= m.blur,
        m.state == State::Idle || m.state == State::Steady ==> m.update().blur == m.blur,
{
}

/// Over any number of ticks during which the effect is entering, the
/// radius only grows.
pub proof fn law_radius_rises(m: Model, n: nat)
    requires
        m.wf(),
        m.ready(),
        forall|k: nat| k < n ==> (#[trigger] m.ticks(k)).state == State::Entering,
    ensures
        m.ticks(n).wf(),
        m.ticks(n).ready(),
        m.ticks(n).blur >= m.blur,
    decreases n,
{
    if n > 0 {
        let before = (n - 1) as nat;
        law_radius_rises(m, before);
        assert(m.ticks(before).state == State::Entering);
        law_event_keeps_invariant(m.ticks(before), Event::Update);
        law_radius_monotone(m.ticks(before));
    }
}

/// Over any number of ticks during which the effect is exiting, the
/// radius only shrinks.
pub proof fn law_radius_falls(m: Model, n: nat)
    requires
        m.wf(),
        m.ready(),
        forall|k: nat| k < n ==> (#[trigger] m.ticks(k)).state == State::Exiting,
    ensures
        m.ticks(n).wf(),
        m.ticks(n).ready(),
        m.ticks(n).blur <= m.blur,
    decreases n,
{
    if n > 0 {
        let before = (n - 1) as nat;
        law_radius_falls(m, before);
        assert(m.ticks(before).state == State::Exiting);
        law_event_keeps_invariant(m.ticks(before), Event::Update);
        law_radius_monotone(m.ticks(before));
    }
}

/// The remainder of the successor: one more, or zero where that would
/// reach the divisor.
proof fn lemma_mod_successor(k: int, p: int)
    requires
        0 <= k,
        0 < p,
    ensures
        (k + 1) % p == if k % p + 1 == p {
            0
        } else {
            k % p + 1
        },
{
    lemma_fundamental_div_mod(k, p);
    lemma_mod_pos_bound(k, p);
    let q = k / p;
    let r = k % p;
    assert(p * q == q * p) by (nonlinear_arith);
    if r + 1 == p {
        assert(k + 1 == (q + 1) * p + 0) by (nonlinear_arith)
            requires
                k == q * p + r,
                r + 1 == p,
        ;
        lemma_fundamental_div_mod_converse(k + 1, p, q + 1, 0);
    } else {
        lemma_fundamental_div_mod_converse(k + 1, p, q, r + 1);
    }
}

/// The size of a step, whichever way it turns.
pub open spec fn magnitude(step: int) -> int {
    if step < 0 {
        -step
    } else {
        step
    }
}

/// Whether a whole number of steps of `step` degrees makes a full turn.
pub open spec fn divides_turn(step: int) -> bool {
    step != 0 && (FULL_TURN as int) % magnitude(step) == 0
}

/// The number of ticks of `step` degrees that make a full turn.
pub open spec fn steps_per_turn(step: int) -> int {
    (FULL_TURN as int) / magnitude(step)
}

impl Model {
    /// Whether the overlay turns, and stands where initialisation left it:
    /// unrotated, with no tick counted.
    pub open spec fn turns_from_rest(self) -> bool {
        &&& self.wf()
        &&& self.ready()
        &&& self.config->0.man.rotate is Some
        &&& self.man->0.active
        &&& self.man->0.ticks == 0
        &&& self.man->0.angle == 0
    }

    /// The rotation step per tick; meaningful where the overlay turns.
    pub open spec fn rate(self) -> int {
        self.config->0.man.rotate->0 as int
    }
}

/// Zero wraps to zero, and a full turn in either direction wraps to zero.
proof fn lemma_wrapped_zero()
    ensures
        wrapped(0) == 0,
        wrapped(FULL_TURN as int) == 0,
        wrapped(-FULL_TURN) == 0,
{
    lemma_fundamental_div_mod_converse(0, FULL_TURN as int, 0, 0);
    lemma_fundamental_div_mod_converse(FULL_TURN as int, FULL_TURN as int, 1, 0);
    lemma_fundamental_div_mod_converse(-FULL_TURN, FULL_TURN as int, -1, 0);
}

/// The rotation of an overlay that turns freely from rest, through its
/// first turn, for any step in either direction: as long as no earlier tick
/// completed a turn, the angle after `k` ticks is `k` steps wrapped into the
/// full turn, and the tick count is `k`, or zero on the tick that completes
/// the turn. The tick count is taken to be one that can be stored.
pub proof fn law_rotation_first_turn(m: Model, k: nat)
    requires
        m.turns_from_rest(),
        k <= u32::MAX,
        k == 0 || !completes_turn((k - 1) * m.rate()),
    ensures
        m.ticks(k).wf(),
        m.ticks(k).ready(),
        m.ticks(k).config == m.config,
        m.ticks(k).man->0.active,
        m.ticks(k).man->0.angle == wrapped(k * m.rate()),
        m.ticks(k).man->0.ticks == if completes_turn(k * m.rate()) {
            0
        } else {
            k as int
        },
    decreases k,
{
    let step = m.rate();
    if k == 0 {
        lemma_wrapped_zero();
        assert(0 * step == 0);
    } else {
        let j = (k - 1) as nat;
        if j > 0 {
            assert(!completes_turn((j - 1) * step)) by (nonlinear_arith)
                requires
                    !(j * step >= FULL_TURN || j * step <= -FULL_TURN),
                    j >= 1,
            {
                assert((j - 1) * step == j * step - step);
            }
        }
        law_rotation_first_turn(m, j);
        let before = m.ticks(j);
        law_event_keeps_invariant(before, Event::Update);
        assert(before.man->0.ticks == j);
        let turned = before.man->0.turned(before.config->0.man.rotate);
        assert(before.update().man->0.ticks == turned.ticks);
        assert(before.update().man->0.angle == turned.angle);
        assert(before.update().man->0.active == turned.active);
        assert(m.ticks(k) == before.update());
    }
}

/// Tick count of an overlay that turns freely from rest, for a step that
/// divides the full turn.
proof fn lemma_rotation_counts(m: Model, k: nat)
    requires
        m.turns_from_rest(),
        divides_turn(m.rate()),
        steps_per_turn(m.rate()) <= u32::MAX,
    ensures
        m.ticks(k).wf(),
        m.ticks(k).ready(),
        m.ticks(k).config == m.config,
        m.ticks(k).man->0.active,
        m.ticks(k).man->0.ticks == (k as int) % steps_per_turn(m.rate()),
        m.ticks(k).man->0.angle == wrapped(k * m.rate()),
    decreases k,
{
    let step = m.rate();
    let size = magnitude(step);
    let full = FULL_TURN as int;
    let period = full / size;
    lemma_fundamental_div_mod(full, size);
    assert(0 < period <= full && full == size * period) by (nonlinear_arith)
        requires
            full == size * period + full % size,
            full % size == 0,
            size > 0,
            full > 0,
    ;
    if k == 0 {
        lemma_fundamental_div_mod_converse(0, period, 0, 0);
        lemma_wrapped_zero();
        assert(0 * step == 0);
    } else {
        let j = (k - 1) as nat;
        lemma_rotation_counts(m, j);
        let before = m.ticks(j);
        law_event_keeps_invariant(before, Event::Update);
        lemma_mod_pos_bound(j as int, period);
        lemma_mod_successor(j as int, period);
        lemma_fundamental_div_mod(j as int, period);
        let count = (j as int) % period;
        let laps = (j as int) / period;
        let next = count + 1;
        assert(before.man->0.ticks == count);
        assert(completes_turn(next * step) <==> next == period) by (nonlinear_arith)
            requires
                full == size * period,
                size > 0,
                0 < next <= period,
                step == size || step == -size,
                full == FULL_TURN,
        ;
        // `k` steps are whole turns and the steps since the last one
        let sign: int = if step < 0 {
            -1
        } else {
            1
        };
        assert(step == sign * size) by (nonlinear_arith)
            requires
                (sign == 1 && step == size) || (sign == -1 && step == -size),
        ;
        assert(k * step == full * (sign * laps) + next * step) by (nonlinear_arith)
            requires
                k == period * laps + count + 1,
                next == count + 1,
                full == size * period,
                step == sign * size,
        ;
        lemma_mod_multiples_vanish(sign * laps, next * step, full);
        let turned = before.man->0.turned(before.config->0.man.rotate);
        assert(turned.angle == wrapped(next * step));
        assert(before.update().man->0.ticks == turned.ticks);
        assert(before.update().man->0.angle == turned.angle);
        assert(before.update().man->0.active == turned.active);
        assert(m.ticks(k) == before.update());
    }
}

/// The rotation of an overlay that turns freely from rest, for a step, in
/// either direction, that divides the full turn into a number of ticks that
/// can be counted: the angle after `k` ticks is `k` steps wrapped into the
/// full turn, and the tick count is `k` modulo the number of steps in a
/// turn. The count goes back to zero exactly on the tick on which the
/// product of count and step completes a turn.
pub proof fn law_rotation(m: Model, k: nat)
    requires
        m.turns_from_rest(),
        divides_turn(m.rate()),
        steps_per_turn(m.rate()) <= u32::MAX,
    ensures
        m.ticks(k).man->0.angle == wrapped(k * m.rate()),
        0 <= m.ticks(k).man->0.angle < FULL_TURN,
        m.ticks(k).man->0.ticks == (k as int) % steps_per_turn(m.rate()),
        m.ticks(k + 1).man->0.ticks == 0 <==> completes_turn(
            (m.ticks(k).man->0.ticks + 1) * m.rate(),
        ),
{
    let step = m.rate();
    let size = magnitude(step);
    let full = FULL_TURN as int;
    let period = full / size;
    lemma_fundamental_div_mod(full, size);
    assert(0 < period && full == size * period) by (nonlinear_arith)
        requires
            full == size * period + full % size,
            full % size == 0,
            size > 0,
            full > 0,
    ;
    lemma_rotation_counts(m, k);
    lemma_rotation_counts(m, k + 1);
    lemma_mod_pos_bound(k as int, period);
    lemma_mod_successor(k as int, period);
    let next = (k as int) % period + 1;
    assert(completes_turn(next * step) <==> next == period) by (nonlinear_arith)
        requires
            full == size * period,
            size > 0,
            0 < next <= period,
            step == size || step == -size,
            full == FULL_TURN,
    ;
}

/// A check freezes the rotation: however many ticks follow, angle and tick
/// count stay as they were. Success then sets the hue to its constant and
/// lets the rotation go on: the next tick counts again.
pub proof fn law_check_freezes_rotation(m: Model, n: nat)
    requires
        m.wf(),
        m.ready(),
    ensures
        m.password(Password::Check).ticks(n).wf(),
        m.password(Password::Check).ticks(n).ready(),
        m.password(Password::Check).ticks(n).config == m.config,
        !m.password(Password::Check).ticks(n).man->0.active,
        m.password(Password::Check).ticks(n).man->0.angle == m.man->0.angle,
        m.password(Password::Check).ticks(n).man->0.ticks == m.man->0.ticks,
        ({
            let resumed = m.password(Password::Check).ticks(n).password(Password::Success);
            let count = m.man->0.ticks;
            &&& resumed.man->0.hue == HUE_SUCCESS
            &&& resumed.man->0.active
            &&& resumed.man->0.angle == m.man->0.angle
            &&& resumed.man->0.ticks == count
            &&& m.config->0.man.rotate matches Some(step) ==> {
                &&& resumed.update().man->0.angle == wrapped((count + 1) * step)
                &&& resumed.update().man->0.ticks == if completes_turn((count + 1) * step) {
                    0
                } else {
                    capped(count + 1)
                }
            }
        }),
    decreases n,
{
    let frozen = m.password(Password::Check);
    if n > 0 {
        let before = (n - 1) as nat;
        law_check_freezes_rotation(m, before);
        law_event_keeps_invariant(frozen.ticks(before), Event::Update);
        assert(frozen.ticks(n) == frozen.ticks(before).update());
    }
}

/// Switching the blur off in the settings leaves the effect without a blur
/// ramp, whatever else the settings say.
pub proof fn law_blur_switched_off(table: Table)
    requires
        table.blur == BlurSetting::Flag(false),
    ensures
        Config::spec_new(table).blur is None,
        Model::fresh().config(table).ramp() is None,
{
}

/// A fresh effect that is given its settings and then initialised is ready
/// and keeps its invariant; nothing is blurred and nothing shows yet.
pub proof fn law_setup(table: Table, width: u32, height: u32)
    ensures
        Model::fresh().config(table).initialize(width, height).wf(),
        Model::fresh().config(table).initialize(width, height).ready(),
        Model::fresh().config(table).initialize(width, height).config == Some(
            Config::spec_new(table),
        ),
        Model::fresh().config(table).initialize(width, height).state == State::Idle,
        Model::fresh().config(table).initialize(width, height).blur == 0,
        Model::fresh().config(table).initialize(width, height).man->0.alpha == 0,
{
    let blur = Config::spec_new(table).blur;
    if blur is Some && blur->0.step < blur->0.max {
        lemma_alpha_step(blur->0.step as int, blur->0.max as int);
    }
}

/// With the blur switched off in the settings, the radius is zero for the
/// whole session that follows, and no frame of it captures, convolves or
/// draws the screen.
pub proof fn law_blur_off_for_the_session(
    table: Table,
    width: u32,
    height: u32,
    events: Seq<Event>,
)
    requires
        table.blur == BlurSetting::Flag(false),
    ensures
        Model::fresh().config(table).initialize(width, height).run(events).blur == 0,
        Model::fresh().config(table).initialize(width, height).run(events).background()
            == Seq::<Command>::empty(),
{
    law_setup(table, width, height);
    law_no_blur_without_ramp(Model::fresh().config(table).initialize(width, height), events);
}

/// Without a blur ramp the radius is zero for the whole session, and no
/// frame holds a command of the blur: the screen is never captured,
/// convolved or drawn.
pub proof fn law_no_blur_without_ramp(m: Model, events: Seq<Event>)
    requires
        m.wf(),
        m.ready(),
        m.ramp() is None,
    ensures
        m.run(events).blur == 0,
        m.run(events).background() == Seq::<Command>::empty(),
        forall|i: int|
            0 <= i < m.run(events).render().len() ==> {
                let command = #[trigger] m.run(events).render()[i];
                !(command is Capture) && !(command is Blur) && !(command is Background)
            },
{
    law_session_keeps_invariant(m, events);
}

/// The blur passes alternate between the two transient surfaces: no pass
/// reads the surface it writes, each reads what the one before it wrote,
/// the first reads the second surface, where the screen was captured, and
/// the last leaves its result there.
pub proof fn law_passes_alternate(count: nat, radius: u32, width: u32, height: u32)
    ensures
        passes(count, radius, width, height).len() == 2 * count,
        forall|i: int|
            0 <= i < 2 * count ==> {
                let pass = #[trigger] passes(count, radius, width, height)[i];
                pass matches Command::Blur { source, target, radius: r, .. } && source != target
                    && r == radius
            },
        forall|i: int|
            0 <= i < 2 * count - 1 ==> (#[trigger] passes(count, radius, width, height)[i
                + 1])->source == (passes(count, radius, width, height)[i])->target,
        count > 0 ==> (passes(count, radius, width, height)[0])->source == Buffer::Second,
        count > 0 ==> (passes(count, radius, width, height)[2 * count - 1])->target
            == Buffer::Second,
{
}

/// What happens at the credential prompt or with a dialog leaves the
/// lifecycle alone: state, radius and opacity stay as they are.
pub proof fn law_feedback_leaves_ramp(m: Model, event: Event)
    requires
        m.wf(),
        m.ready(),
        event is Password || event is Dialog,
    ensures
        m.apply(event).state == m.state,
        m.apply(event).blur == m.blur,
        m.apply(event).man->0.alpha == m.man->0.alpha,
{
}

/// While the effect is idle or steady a tick changes neither radius nor
/// opacity.
pub proof fn law_rest_is_still(m: Model)
    requires
        m.wf(),
        m.ready(),
        m.state == State::Idle || m.state == State::Steady,
    ensures
        m.update().state == m.state,
        m.update().blur == m.blur,
        m.update().man->0.alpha == m.man->0.alpha,
{
}

/// The radius of an effect that keeps entering: one step more per tick, as
/// long as the maximum is not reached.
proof fn lemma_entering_climbs(m: Model, k: nat)
    requires
        m.wf(),
        m.ready(),
        m.state == State::Entering,
        m.ramp() is Some,
        m.blur + k * m.ramp()->0.step < m.ramp()->0.max,
    ensures
        m.ticks(k).wf(),
        m.ticks(k).ready(),
        m.ticks(k).config == m.config,
        m.ticks(k).state == State::Entering,
        m.ticks(k).blur == m.blur + k * m.ramp()->0.step,
    decreases k,
{
    if k > 0 {
        let j = (k - 1) as nat;
        let step = m.ramp()->0.step as int;
        assert(j * step + step == k * step && j * step >= 0) by (nonlinear_arith)
            requires
                j + 1 == k,
                step >= 0,
                j >= 0,
        ;
        lemma_entering_climbs(m, j);
        law_event_keeps_invariant(m.ticks(j), Event::Update);
    } else {
        assert(0 * m.ramp()->0.step == 0);
    }
}

/// The radius of an effect that keeps exiting: one step less per tick, as
/// long as zero is not reached.
proof fn lemma_exiting_descends(m: Model, k: nat)
    requires
        m.wf(),
        m.ready(),
        m.state == State::Exiting,
        m.ramp() is Some,
        m.blur - k * m.ramp()->0.step > 0,
    ensures
        m.ticks(k).wf(),
        m.ticks(k).ready(),
        m.ticks(k).config == m.config,
        m.ticks(k).state == State::Exiting,
        m.ticks(k).blur == m.blur - k * m.ramp()->0.step,
    decreases k,
{
    if k > 0 {
        let j = (k - 1) as nat;
        let step = m.ramp()->0.step as int;
        assert(j * step + step == k * step && j * step >= 0) by (nonlinear_arith)
            requires
                j + 1 == k,
                step >= 0,
                j >= 0,
        ;
        lemma_exiting_descends(m, j);
        law_event_keeps_invariant(m.ticks(j), Event::Update);
    } else {
        assert(0 * m.ramp()->0.step == 0);
    }
}

/// An effect that is left to enter becomes steady: on the first tick on
/// which the radius, growing by one step per tick, reaches the maximum. Up
/// to then it is entering, and from then on radius and opacity stand at
/// their targets.
pub proof fn law_entering_completes(m: Model, n: nat)
    requires
        m.wf(),
        m.ready(),
        m.state == State::Entering,
        m.ramp() is Some,
        n >= 1,
        m.blur + (n - 1) * m.ramp()->0.step < m.ramp()->0.max,
        m.blur + n * m.ramp()->0.step >= m.ramp()->0.max,
    ensures
        forall|k: nat| k < n ==> (#[trigger] m.ticks(k)).state == State::Entering,
        m.ticks(n).state == State::Steady,
        m.ticks(n).blur == m.ramp()->0.max,
        m.ticks(n).man->0.alpha == UNIT,
{
    let step = m.ramp()->0.step as int;
    let last = (n - 1) as nat;
    assert forall|k: nat| k < n implies (#[trigger] m.ticks(k)).state == State::Entering by {
        assert(k * step <= last * step) by (nonlinear_arith)
            requires
                k <= last,
                step >= 0,
        ;
        lemma_entering_climbs(m, k);
    }
    lemma_entering_climbs(m, last);
    assert(last * step + step == n * step) by (nonlinear_arith)
        requires
            last + 1 == n,
    ;
    assert(m.ticks(n) == m.ticks(last).update());
}

/// An effect that is left to exit becomes idle: on the first tick on which
/// the radius, shrinking by one step per tick, reaches zero. Up to then it
/// is exiting, and from then on radius and opacity are zero.
pub proof fn law_exiting_completes(m: Model, n: nat)
    requires
        m.wf(),
        m.ready(),
        m.state == State::Exiting,
        m.ramp() is Some,
        n >= 1,
        m.blur - (n - 1) * m.ramp()->0.step > 0,
        m.blur - n * m.ramp()->0.step <= 0,
    ensures
        forall|k: nat| k < n ==> (#[trigger] m.ticks(k)).state == State::Exiting,
        m.ticks(n).state == State::Idle,
        m.ticks(n).blur == 0,
        m.ticks(n).man->0.alpha == 0,
{
    let step = m.ramp()->0.step as int;
    let last = (n - 1) as nat;
    assert forall|k: nat| k < n implies (#[trigger] m.ticks(k)).state == State::Exiting by {
        assert(k * step <= last * step) by (nonlinear_arith)
            requires
                k <= last,
                step >= 0,
        ;
        lemma_exiting_descends(m, k);
    }
    lemma_exiting_descends(m, last);
    assert(last * step + step == n * step) by (nonlinear_arith)
        requires
            last + 1 == n,
    ;
    assert(m.ticks(n) == m.ticks(last).update());
}

/// Every convolution of a frame is asked for at the current radius, which
/// lies within the range of the ramp, and across the extent of the surface
/// along its axis.
pub proof fn law_frame_blurs_at_radius(m: Model)
    requires
        m.wf(),
        m.ready(),
    ensures
        forall|i: int|
            0 <= i < m.render().len() ==> ((#[trigger] m.render()[i]) matches Command::Blur {
                axis,
                radius,
                resolution,
                ..
            } ==> {
                &&& radius == m.blur
                &&& m.ramp() is Some
                &&& radius <= m.ramp()->0.max
                &&& resolution == match axis {
                    Axis::Horizontal => m.gl->0.width,
                    Axis::Vertical => m.gl->0.height,
                }
            }),
{
    assert forall|i: int| 0 <= i < m.render().len() implies ((#[trigger] m.render()[i]) matches Command::Blur {
        axis,
        radius,
        resolution,
        ..
    } ==> {
        &&& radius == m.blur
        &&& m.ramp() is Some
        &&& radius <= m.ramp()->0.max
        &&& resolution == match axis {
            Axis::Horizontal => m.gl->0.width,
            Axis::Vertical => m.gl->0.height,
        }
    }) by {
        let background = m.background();
        if i < background.len() {
            assert(m.render()[i] == background[i]);
        } else {
            assert(m.render()[i] == m.overlay()[i - background.len()]);
        }
    }
}

} // verus!
