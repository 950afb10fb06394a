//! The decisions of the main loop, one tick at a time. The loop itself
//! (reading the line, writing the LED, waiting for the next tick) runs
//! outside; it hands each sample to [`Pipeline::step`] and carries out the
//! action that comes back.
use vstd::prelude::*;
use crate::animation::{AnimationState, next_hue};
use crate::button::{ButtonEdge, Debouncer, edge_for, is_active};
use crate::color::{
    brightness_scale, channels, convert, gamma_correct, gamma_of, hsv_to_rgb, scaled, Hsv, Rgb,
};

verus! {

/// What the loop does on a tick.
#[derive(Clone, Copy, Debug, PartialEq, Eq, Structural)]
pub enum Action {
    /// Nothing was pressed: leave the LED as it is.
    Idle,
    /// Send this color to the LED.
    Write(Rgb),
}

/// The state the loop owns: the button, the animation and the corrections.
#[derive(Clone, Copy, Debug)]
pub struct Pipeline {
    pub debouncer: Debouncer,
    pub animation: AnimationState,
    /// Whether the perceptual curve is applied before scaling.
    pub gamma: bool,
    /// Overall brightness, in 255ths.
    pub brightness: u8,
    /// Set after a fatal failure; a halted loop never drives the LED again.
    pub halted: bool,
}

/// The device color for `c`: converted, then optionally gamma-corrected,
/// then scaled by `brightness`, in that order.
pub open spec fn render_of(c: Hsv, gamma: bool, brightness: u8) -> (int, int, int) {
    let raw = hsv_to_rgb(c);
    let g = if gamma {
        (gamma_of(raw.0), gamma_of(raw.1), gamma_of(raw.2))
    } else {
        raw
    };
    let b = brightness as int;
    (scaled(g.0, b), scaled(g.1, b), scaled(g.2, b))
}

/// Runs the whole color pipeline on one request.
pub fn render(c: Hsv, gamma: bool, brightness: u8) -> (r: Rgb)
    ensures
        channels(r) == render_of(c, gamma, brightness),
{
    let raw = convert(c);
    let corrected = if gamma {
        gamma_correct(raw)
    } else {
        raw
    };
    brightness_scale(corrected, brightness)
}

impl Pipeline {
    /// A running loop at hue zero with the button up.
    pub fn new(gamma: bool, brightness: u8) -> (r: Pipeline)
        ensures
            !r.debouncer.held,
            r.animation.hue == 0,
            r.gamma == gamma,
            r.brightness == brightness,
            !r.halted,
    {
        Pipeline {
            debouncer: Debouncer::new(),
            animation: AnimationState::new(),
            gamma,
            brightness,
            halted: false,
        }
    }

    /// One tick: samples the button; on a press moves the animation one
    /// step and returns the rendered color to write. A halted loop stays
    /// idle and unchanged.
    pub fn step(&mut self, raw_level: bool) -> (r: Action)
        ensures
            old(self).halted ==> r == Action::Idle && *final(self) == *old(self),
            !old(self).halted ==> {
                &&& final(self).debouncer.held == is_active(raw_level)
                &&& final(self).gamma == old(self).gamma
                &&& final(self).brightness == old(self).brightness
                &&& !final(self).halted
                &&& if edge_for(old(self).debouncer.held, raw_level) == ButtonEdge::Pressed {
                    &&& final(self).animation.hue as int == next_hue(
                        old(self).animation.hue as int,
                    )
                    &&& exists|c: Rgb|
                        r == Action::Write(c) && channels(c) == render_of(
                            Hsv { hue: final(self).animation.hue, saturation: 255, value: 255 },
                            old(self).gamma,
                            old(self).brightness,
                        )
                } else {
                    final(self).animation == old(self).animation && r == Action::Idle
                }
            },
    {
        if self.halted {
            return Action::Idle;
        }
        let edge = self.debouncer.poll(raw_level);
        match edge {
            ButtonEdge::Pressed => {
                let c = self.animation.advance();
                let out = render(c, self.gamma, self.brightness);
                Action::Write(out)
            },
            _ => Action::Idle,
        }
    }
}

/// Stops the loop for good after a fatal failure: from then on every tick
/// is idle and the LED keeps whatever it showed.
pub fn panic(pipeline: &mut Pipeline)
    ensures
        *final(pipeline) == (Pipeline { halted: true, ..*old(pipeline) }),
{
    pipeline.halted = true;
}

} // verus!
