//! Polled push-button input. The line is pulled up externally, so a
//! pressed button reads low.
use vstd::prelude::*;

verus! {

/// What one poll of the button line observed.
#[derive(Clone, Copy, Debug, PartialEq, Eq, Structural)]
pub enum ButtonEdge {
    /// The button is held down on this tick.
    Pressed,
    /// The button was held on the previous tick and is up now.
    Released,
    /// The button is up, as it was on the previous tick.
    NoChange,
}

/// Samples the button once per fixed tick; the tick interval is what
/// suppresses contact bounce. A held button reports `Pressed` on every
/// tick it stays down, not only on the first.
#[derive(Clone, Copy, Debug)]
pub struct Debouncer {
    pub held: bool,
}

/// Whether a raw line level means the button is down (active low).
pub open spec fn is_active(raw_level: bool) -> bool {
    !raw_level
}

/// The edge reported for `raw_level` when the previous tick saw the button
/// held (`was_held`) or not.
pub open spec fn edge_for(was_held: bool, raw_level: bool) -> ButtonEdge {
    if is_active(raw_level) {
        ButtonEdge::Pressed
    } else if was_held {
        ButtonEdge::Released
    } else {
        ButtonEdge::NoChange
    }
}

impl Debouncer {
    /// A debouncer that has seen the button up.
    pub fn new() -> (r: Debouncer)
        ensures
            !r.held,
    {
        Debouncer { held: false }
    }

    /// Takes one sample of the line and reports what changed.
    pub fn poll(&mut self, raw_level: bool) -> (r: ButtonEdge)
        ensures
            r == edge_for(old(self).held, raw_level),
            final(self).held == is_active(raw_level),
    {
        let active = !raw_level;
        let edge = if active {
            ButtonEdge::Pressed
        } else if self.held {
            ButtonEdge::Released
        } else {
            ButtonEdge::NoChange
        };
        self.held = active;
        edge
    }
}

} // verus!
