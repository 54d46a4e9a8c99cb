//! The animation core of a screen-lock effect: the captured screen is
//! blurred in steps while an overlay mark fades in and turns, and both ramp
//! back out on unlock.
//!
//! The crate decides; it draws nothing itself. [`Saver`] keeps the lifecycle
//! state and the animated parameters, advances them once per tick, and
//! describes each frame as a list of draw commands for a renderer to carry
//! out. [`Scene`] gives the parameters of the transforms those commands use.

use vstd::prelude::*;

pub mod config;
pub mod frame;
pub mod saver;
pub mod scene;
pub mod session;
pub mod units;

pub use config::Config;
pub use saver::Saver;
pub use scene::Scene;

use config::Table;
use saver::Model;

verus! {

/// A new effect with the given settings, ready to be initialised.
pub fn new(table: Table) -> (saver: Box<Saver>)
    ensures
        (*saver)@ == Model::fresh().config(table),
        (*saver)@.wf(),
{
    let mut saver = Saver::default();
    saver.config(table);
    Box::new(saver)
}

} // verus!
