//! Color pipeline for a single addressable RGB LED driven by a push button:
//! hue/saturation/value conversion, perceptual corrections, a polled button
//! debouncer, a rainbow animation state and the per-tick decision of the
//! main loop.
pub mod animation;
pub mod button;
pub mod color;
pub mod pipeline;
