//! The controller between a user interface and the simulation: it holds the
//! target configuration as slider positions, and turns each message into
//! the effect that the interface must carry out.
//!
//! A mean is its slider position divided by `MEAN_STEPS`, a standard
//! deviation its slider position divided by `STDDEV_STEPS`.
use crate::error::ConfigError;
use std::time::Instant;
use vstd::prelude::*;

verus! {

/// Slider steps per unit of a mean.
pub const MEAN_STEPS: u32 = 10;

/// Slider steps per unit of a standard deviation.
pub const STDDEV_STEPS: u32 = 50;

/// Ticks per second that a running simulation asks for.
pub const TICKS_PER_SECOND: u64 = 100;

/// The least time between two ticks, in milliseconds.
pub const MIN_TICK_GAP_MS: u64 = 10;

/// `std::time::Instant`, carried by a tick message as an opaque value.
#[verifier::external_type_specification]
#[verifier::external_body]
pub struct ExInstant(Instant);

/// What a user interface reports.
#[derive(Debug, Clone, Copy)]
pub enum Message {
    /// The tick timer fired.
    Run(Instant),
    /// Start or pause.
    Toggle,
    /// Put every walker back at a fresh draw from the target.
    Reset,
    XMeanSliderChanged(u32),
    YMeanSliderChanged(u32),
    XStdDevSliderChanged(u32),
    YStdDevSliderChanged(u32),
}

/// What the interface must do after a message.
#[derive(Debug, Clone, Copy, PartialEq, Eq, Structural)]
pub enum Effect {
    /// Nothing beyond drawing again.
    Redraw,
    /// The target changed: use the new configuration from the next tick on.
    Reconfigure,
    /// Replace every walker by a fresh one.
    Reset,
    /// Advance every walker one step and restart the tick timer.
    Tick,
}

/// The controls: whether the simulation runs, and the target configuration
/// as slider positions.
#[derive(Debug, Clone, Copy, PartialEq, Eq, Structural)]
pub struct Controls {
    pub is_playing: bool,
    pub x_mean_slider: u32,
    pub y_mean_slider: u32,
    pub x_stddev_slider: u32,
    pub y_stddev_slider: u32,
}

/// The controls after `message`, when `elapsed_ms` milliseconds have passed
/// since the last tick, and the effect to carry out.
pub open spec fn update_spec(c: Controls, message: Message, elapsed_ms: u64) -> (
    Controls,
    Result<Effect, ConfigError>,
) {
    match message {
        Message::Run(_) => {
            if elapsed_ms >= MIN_TICK_GAP_MS {
                (c, Ok(Effect::Tick))
            } else {
                (c, Ok(Effect::Redraw))
            }
        },
        Message::Toggle => (Controls { is_playing: !c.is_playing, ..c }, Ok(Effect::Redraw)),
        Message::Reset => (c, Ok(Effect::Reset)),
        Message::XMeanSliderChanged(v) => (
            Controls { x_mean_slider: v, ..c },
            Ok(Effect::Reconfigure),
        ),
        Message::YMeanSliderChanged(v) => (
            Controls { y_mean_slider: v, ..c },
            Ok(Effect::Reconfigure),
        ),
        Message::XStdDevSliderChanged(v) => {
            if v == 0 {
                (c, Err(ConfigError::NonPositiveStdDev))
            } else {
                (Controls { x_stddev_slider: v, ..c }, Ok(Effect::Reconfigure))
            }
        },
        Message::YStdDevSliderChanged(v) => {
            if v == 0 {
                (c, Err(ConfigError::NonPositiveStdDev))
            } else {
                (Controls { y_stddev_slider: v, ..c }, Ok(Effect::Reconfigure))
            }
        },
    }
}

impl Controls {
    /// Paused, with both means at 1 and both standard deviations at 0.2.
    pub fn new() -> (r: Controls)
        ensures
            !r.is_playing,
            r.x_mean_slider == MEAN_STEPS,
            r.y_mean_slider == MEAN_STEPS,
            r.x_stddev_slider == 10,
            r.y_stddev_slider == 10,
    {
        Controls {
            is_playing: false,
            x_mean_slider: MEAN_STEPS,
            y_mean_slider: MEAN_STEPS,
            x_stddev_slider: 10,
            y_stddev_slider: 10,
        }
    }

    /// Applies `message`, when `elapsed_ms` milliseconds have passed since
    /// the last tick. A standard deviation of zero is refused and leaves the
    /// controls as they were.
    pub fn update(&mut self, message: Message, elapsed_ms: u64) -> (r: Result<Effect, ConfigError>)
        ensures
            (*final(self), r) == update_spec(*old(self), message, elapsed_ms),
    {
        match message {
            Message::Run(_) => {
                if elapsed_ms >= MIN_TICK_GAP_MS {
                    Ok(Effect::Tick)
                } else {
                    Ok(Effect::Redraw)
                }
            },
            Message::Toggle => {
                self.is_playing = !self.is_playing;
                Ok(Effect::Redraw)
            },
            Message::Reset => Ok(Effect::Reset),
            Message::XMeanSliderChanged(v) => {
                self.x_mean_slider = v;
                Ok(Effect::Reconfigure)
            },
            Message::YMeanSliderChanged(v) => {
                self.y_mean_slider = v;
                Ok(Effect::Reconfigure)
            },
            Message::XStdDevSliderChanged(v) => {
                if v == 0 {
                    Err(ConfigError::NonPositiveStdDev)
                } else {
                    self.x_stddev_slider = v;
                    Ok(Effect::Reconfigure)
                }
            },
            Message::YStdDevSliderChanged(v) => {
                if v == 0 {
                    Err(ConfigError::NonPositiveStdDev)
                } else {
                    self.y_stddev_slider = v;
                    Ok(Effect::Reconfigure)
                }
            },
        }
    }

    /// The period of the tick timer in milliseconds while the simulation
    /// runs; none while it is paused.
    pub fn tick_interval_ms(&self) -> (r: Option<u64>)
        ensures
            self.is_playing ==> r == Some(1000u64 / TICKS_PER_SECOND),
            !self.is_playing ==> r is None,
    {
        if self.is_playing {
            Some(1000u64 / TICKS_PER_SECOND)
        } else {
            None
        }
    }
}

} // verus!
