//! The rainbow animation: a hue that moves a fixed step per button press.
use vstd::prelude::*;
use crate::color::Hsv;

verus! {

/// How far the hue moves on each press, out of a 256-step circle.
pub const HUE_STEP: u8 = 10;

/// The hue shown last; the only state of the animation.
#[derive(Clone, Copy, Debug, PartialEq, Eq, Structural)]
pub struct AnimationState {
    pub hue: u8,
}

/// The hue after one step from `hue`, wrapping at 256.
pub open spec fn next_hue(hue: int) -> int {
    (hue + HUE_STEP as int) % 256
}

/// The hue after `n` steps from `hue`.
pub open spec fn hue_after(hue: int, n: nat) -> int
    decreases n,
{
    if n == 0 {
        hue
    } else {
        next_hue(hue_after(hue, (n - 1) as nat))
    }
}

impl AnimationState {
    /// The state at start-up: hue zero.
    pub fn new() -> (r: AnimationState)
        ensures
            r.hue == 0,
    {
        AnimationState { hue: 0 }
    }

    /// Moves the hue one step and returns it at full saturation and value.
    pub fn advance(&mut self) -> (r: Hsv)
        ensures
            final(self).hue as int == next_hue(old(self).hue as int),
            r == (Hsv { hue: final(self).hue, saturation: 255, value: 255 }),
    {
        self.hue = self.hue.wrapping_add(HUE_STEP);
        Hsv { hue: self.hue, saturation: 255, value: 255 }
    }
}

/// `n` steps move a hue by `n * HUE_STEP` around the circle.
pub proof fn lemma_hue_after_closed_form(hue: int, n: nat)
    requires
        0 <= hue < 256,
    ensures
        hue_after(hue, n) == (hue + n * HUE_STEP as int) % 256,
    decreases n,
{
    if n > 0 {
        lemma_hue_after_closed_form(hue, (n - 1) as nat);
        let a = hue + (n - 1) * 10;
        assert((a % 256 + 10) % 256 == (a + 10) % 256) by (nonlinear_arith)
            requires a >= 0;
        assert(a + 10 == hue + n * 10) by (nonlinear_arith)
            requires a == hue + (n - 1) * 10;
    }
}

/// Twenty-six steps go once round the circle and land four steps of the
/// circle past the start: less than one step away from where they began.
pub proof fn lemma_cycle_returns_near_start(hue: u8)
    ensures
        hue_after(hue as int, 26) == (hue as int + 4) % 256,
        (hue_after(hue as int, 26) - hue as int + 256) % 256 < HUE_STEP as int,
{
    lemma_hue_after_closed_form(hue as int, 26);
}

} // verus!
