use thermo_alarm::alarm::{
    play_alarm, AlarmController, Latch, ALARM_DURATION, ALARM_FREQUENCY, ALARM_PAUSE,
    BOILING_POINT,
};
use thermo_alarm::error::BusError;
use thermo_alarm::tone::{Prescaler, Timing, Tone};

fn sixteenths(celsius: f32) -> i32 {
    (celsius * 16.0) as i32
}

#[test]
fn boiling_point_is_a_hundred_degrees() {
    assert_eq!(BOILING_POINT, sixteenths(100.0));
}

#[test]
fn controller_starts_idle() {
    let controller = AlarmController::new(BOILING_POINT);
    assert_eq!(controller.latch, Latch::Idle);
    assert_eq!(controller.threshold, 1600);
    assert!(!controller.is_hot());
}

#[test]
fn body_temperature_leaves_the_latch_idle() {
    let mut tone = Tone::new();
    let mut controller = AlarmController::new(BOILING_POINT);
    let pause = controller.poll(Ok(sixteenths(37.0)), &mut tone);
    assert_eq!(controller.latch, Latch::Idle);
    assert_eq!(pause, None);
    assert!(!tone.is_playing());
    assert_eq!(tone.timing(), None);
}

#[test]
fn boiling_water_latches_hot_and_sounds_the_alarm() {
    let mut tone = Tone::new();
    let mut controller = AlarmController::new(BOILING_POINT);
    let pause = controller.poll(Ok(sixteenths(100.0)), &mut tone);
    assert_eq!(controller.latch, Latch::Hot);
    assert!(controller.is_hot());
    assert_eq!(pause, Some(2000));
    assert!(tone.is_playing());
    assert_eq!(tone.remaining(), 1000);
    assert_eq!(tone.timing(), Some(Timing { prescaler: Prescaler::Div64, compare: 249 }));
}

#[test]
fn just_below_the_threshold_is_idle() {
    let mut tone = Tone::new();
    let mut controller = AlarmController::new(BOILING_POINT);
    assert_eq!(controller.poll(Ok(1599), &mut tone), None);
    assert_eq!(controller.latch, Latch::Idle);
    assert_eq!(controller.poll(Ok(1601), &mut tone), Some(ALARM_PAUSE));
    assert_eq!(controller.latch, Latch::Hot);
}

#[test]
fn failed_reading_keeps_the_latch() {
    let mut tone = Tone::new();
    let mut controller = AlarmController::new(BOILING_POINT);
    assert_eq!(controller.poll(Err(BusError::Timeout), &mut tone), None);
    assert_eq!(controller.latch, Latch::Idle);
    assert!(!tone.is_playing());
    controller.poll(Ok(1700), &mut tone);
    assert_eq!(controller.latch, Latch::Hot);
    tone.stop();
    let pause = controller.poll(Err(BusError::ChecksumMismatch), &mut tone);
    assert_eq!(controller.latch, Latch::Hot);
    assert_eq!(pause, Some(ALARM_PAUSE));
    assert!(tone.is_playing());
    assert_eq!(tone.remaining(), 1000);
}

#[test]
fn cooling_down_clears_the_latch_and_leaves_the_tone_alone() {
    let mut tone = Tone::new();
    let mut controller = AlarmController::new(BOILING_POINT);
    controller.poll(Ok(1600), &mut tone);
    tone.compare_match();
    let pause = controller.poll(Ok(1500), &mut tone);
    assert_eq!(controller.latch, Latch::Idle);
    assert_eq!(pause, None);
    assert!(tone.is_playing());
    assert_eq!(tone.remaining(), 999);
}

#[test]
fn alarm_does_not_restart_a_sounding_tone() {
    let mut tone = Tone::new();
    let mut controller = AlarmController::new(BOILING_POINT);
    controller.poll(Ok(1600), &mut tone);
    tone.compare_match();
    tone.compare_match();
    let pause = controller.poll(Ok(1600), &mut tone);
    assert_eq!(pause, Some(ALARM_PAUSE));
    assert_eq!(tone.remaining(), 998);
}

#[test]
fn threshold_is_a_setting() {
    let mut tone = Tone::new();
    let mut controller = AlarmController::new(sixteenths(60.0));
    assert_eq!(controller.poll(Ok(sixteenths(59.5)), &mut tone), None);
    assert_eq!(controller.poll(Ok(sixteenths(60.0)), &mut tone), Some(ALARM_PAUSE));
    assert_eq!(controller.threshold, 960);
}

#[test]
fn alarm_pattern_is_one_tone_and_a_pause() {
    assert_eq!(ALARM_FREQUENCY, 500);
    assert_eq!(ALARM_DURATION, 1000);
    assert_eq!(ALARM_PAUSE, 2000);
    let mut tone = Tone::new();
    tone.sync_led();
    assert_eq!(play_alarm(&mut tone), 2000);
    assert!(tone.is_playing());
    assert_eq!(tone.remaining(), 1000);
    assert_eq!(tone.indicator(), Some(true));
}
