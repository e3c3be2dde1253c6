use mcmc::control::{Controls, Effect, Message, MEAN_STEPS, MIN_TICK_GAP_MS};
use mcmc::error::ConfigError;
use std::time::Instant;

#[test]
fn initial_controls_are_paused() {
    let c = Controls::new();
    assert!(!c.is_playing);
    assert_eq!(c.x_mean_slider, MEAN_STEPS);
    assert_eq!(c.y_stddev_slider, 10);
    assert_eq!(c.tick_interval_ms(), None);
}

#[test]
fn toggle_starts_and_pauses() {
    let mut c = Controls::new();
    assert_eq!(c.update(Message::Toggle, 0), Ok(Effect::Redraw));
    assert!(c.is_playing);
    assert_eq!(c.tick_interval_ms(), Some(10));
    assert_eq!(c.update(Message::Toggle, 0), Ok(Effect::Redraw));
    assert!(!c.is_playing);
}

#[test]
fn run_ticks_only_after_gap() {
    let mut c = Controls::new();
    let now = Instant::now();
    assert_eq!(c.update(Message::Run(now), MIN_TICK_GAP_MS - 1), Ok(Effect::Redraw));
    assert_eq!(c.update(Message::Run(now), MIN_TICK_GAP_MS), Ok(Effect::Tick));
    assert_eq!(c, Controls::new());
}

#[test]
fn reset_message_asks_for_reset() {
    let mut c = Controls::new();
    assert_eq!(c.update(Message::Reset, 0), Ok(Effect::Reset));
    assert_eq!(c, Controls::new());
}

#[test]
fn sliders_reconfigure() {
    let mut c = Controls::new();
    assert_eq!(c.update(Message::XMeanSliderChanged(25), 0), Ok(Effect::Reconfigure));
    assert_eq!(c.update(Message::YMeanSliderChanged(0), 0), Ok(Effect::Reconfigure));
    assert_eq!(c.update(Message::XStdDevSliderChanged(40), 0), Ok(Effect::Reconfigure));
    assert_eq!(c.update(Message::YStdDevSliderChanged(1), 0), Ok(Effect::Reconfigure));
    assert_eq!(
        (c.x_mean_slider, c.y_mean_slider, c.x_stddev_slider, c.y_stddev_slider),
        (25, 0, 40, 1)
    );
}

#[test]
fn zero_stddev_is_refused() {
    let mut c = Controls::new();
    assert_eq!(c.update(Message::XStdDevSliderChanged(0), 0), Err(ConfigError::NonPositiveStdDev));
    assert_eq!(c.update(Message::YStdDevSliderChanged(0), 0), Err(ConfigError::NonPositiveStdDev));
    assert_eq!(c, Controls::new());
}
