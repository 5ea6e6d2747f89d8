//! The events of the interface loop and its settings.
use vstd::prelude::*;

verus! {

/// What the interface loop reacts to: an input, or the passing of a tick.
pub enum Event<I> {
    Input(I),
    Tick,
}

/// Settings of the interface loop.
pub struct Cli {
    /// time in ms between two ticks.
    pub tick_rate: u64,
    /// whether unicode symbols are used to improve the overall look of the app
    pub enhanced_graphics: bool,
}

impl Cli {
    /// The settings the launcher runs with: a tick every 250 ms, unicode
    /// symbols on.
    pub fn launcher_default() -> (r: Cli)
        ensures
            r.tick_rate == 250,
            r.enhanced_graphics,
    {
        Cli { tick_rate: 250, enhanced_graphics: true }
    }
}

} // verus!
