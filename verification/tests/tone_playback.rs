use thermo_alarm::tone::{Prescaler, Timing, Tone};

#[test]
fn new_generator_is_at_rest() {
    let tone = Tone::new();
    assert!(!tone.is_playing());
    assert!(!tone.pin_high());
    assert_eq!(tone.indicator(), None);
    assert_eq!(tone.remaining(), 0);
    assert_eq!(tone.timing(), None);
}

#[test]
fn play_arms_the_timer_and_counts_the_half_periods() {
    let mut tone = Tone::new();
    tone.play(500, 1000);
    assert!(tone.is_playing());
    assert_eq!(tone.remaining(), 1000);
    assert_eq!(tone.timing(), Some(Timing { prescaler: Prescaler::Div64, compare: 249 }));
    assert!(!tone.pin_high());
    assert_eq!(tone.indicator(), None);
}

#[test]
fn half_period_count_rounds_down() {
    let mut tone = Tone::new();
    tone.play(261, 750);
    assert_eq!(tone.remaining(), 391);
}

#[test]
fn longest_tone_at_the_highest_pitch_is_counted_in_full() {
    let mut tone = Tone::new();
    tone.play(u16::MAX, u32::MAX);
    assert_eq!(tone.remaining(), 562_941_363_355);
}

#[test]
fn play_lights_a_bound_indicator() {
    let mut tone = Tone::new();
    tone.sync_led();
    assert_eq!(tone.indicator(), Some(false));
    tone.play(440, 100);
    assert_eq!(tone.indicator(), Some(true));
}

#[test]
fn indicator_bound_during_a_tone_is_lit() {
    let mut tone = Tone::new();
    tone.play(440, 100);
    tone.sync_led();
    assert_eq!(tone.indicator(), Some(true));
    assert!(tone.is_playing());
    assert_eq!(tone.remaining(), 88);
}

#[test]
fn play_while_playing_changes_nothing() {
    let mut tone = Tone::new();
    tone.sync_led();
    tone.play(261, 1000);
    tone.compare_match();
    tone.compare_match();
    tone.compare_match();
    let timing = tone.timing();
    let pin = tone.pin_high();
    let left = tone.remaining();
    tone.play(1200, 5000);
    assert!(tone.is_playing());
    assert_eq!(tone.timing(), timing);
    assert_eq!(tone.timing(), Some(Timing { prescaler: Prescaler::Div256, compare: 118 }));
    assert_eq!(tone.pin_high(), pin);
    assert_eq!(tone.remaining(), left);
    assert_eq!(tone.remaining(), 519);
    assert_eq!(tone.indicator(), Some(true));
}

#[test]
fn play_while_playing_accepts_any_frequency() {
    let mut tone = Tone::new();
    tone.play(500, 1000);
    tone.play(1, 1);
    assert_eq!(tone.remaining(), 1000);
}

#[test]
fn compare_match_toggles_the_pin_and_counts_down() {
    let mut tone = Tone::new();
    tone.play(500, 10);
    assert_eq!(tone.remaining(), 10);
    tone.compare_match();
    assert!(tone.pin_high());
    assert_eq!(tone.remaining(), 9);
    tone.compare_match();
    assert!(!tone.pin_high());
    assert_eq!(tone.remaining(), 8);
    assert!(tone.is_playing());
}

#[test]
fn last_half_period_silences_the_generator() {
    let mut tone = Tone::new();
    tone.sync_led();
    tone.play(500, 3);
    assert_eq!(tone.remaining(), 3);
    tone.compare_match();
    tone.compare_match();
    assert_eq!(tone.remaining(), 1);
    assert!(tone.is_playing());
    assert!(!tone.pin_high());
    tone.compare_match();
    assert_eq!(tone.remaining(), 0);
    assert!(!tone.is_playing());
    assert!(!tone.pin_high());
    assert_eq!(tone.indicator(), Some(false));
}

#[test]
fn last_half_period_never_leaves_the_pin_high() {
    let mut tone = Tone::new();
    tone.play(500, 2);
    assert_eq!(tone.remaining(), 2);
    tone.compare_match();
    assert!(tone.pin_high());
    tone.compare_match();
    assert!(!tone.pin_high());
    assert!(!tone.is_playing());
}

#[test]
fn tone_lasts_exactly_its_half_periods() {
    let mut tone = Tone::new();
    tone.play(500, 1000);
    for k in 1..1000u64 {
        tone.compare_match();
        assert!(tone.is_playing());
        assert_eq!(tone.remaining(), 1000 - k);
        assert_eq!(tone.pin_high(), k % 2 == 1);
    }
    tone.compare_match();
    assert!(!tone.is_playing());
    assert!(!tone.pin_high());
    assert_eq!(tone.remaining(), 0);
}

#[test]
fn tone_too_short_for_a_half_period_ends_at_the_first_match() {
    let mut tone = Tone::new();
    tone.sync_led();
    tone.play(440, 1);
    assert!(tone.is_playing());
    assert_eq!(tone.remaining(), 0);
    assert_eq!(tone.indicator(), Some(true));
    tone.compare_match();
    assert!(!tone.is_playing());
    assert!(!tone.pin_high());
    assert_eq!(tone.indicator(), Some(false));
}

#[test]
fn compare_match_at_rest_changes_nothing() {
    let mut tone = Tone::new();
    tone.sync_led();
    tone.compare_match();
    assert!(!tone.is_playing());
    assert!(!tone.pin_high());
    assert_eq!(tone.indicator(), Some(false));
    assert_eq!(tone.remaining(), 0);
    assert_eq!(tone.timing(), None);
}

#[test]
fn stop_silences_at_once() {
    let mut tone = Tone::new();
    tone.sync_led();
    tone.play(500, 1000);
    tone.compare_match();
    assert!(tone.pin_high());
    assert_eq!(tone.remaining(), 999);
    tone.stop();
    assert!(!tone.is_playing());
    assert!(!tone.pin_high());
    assert_eq!(tone.indicator(), Some(false));
    assert_eq!(tone.remaining(), 0);
    assert_eq!(tone.timing(), Some(Timing { prescaler: Prescaler::Div64, compare: 249 }));
}

#[test]
fn stop_at_rest_changes_nothing() {
    let mut tone = Tone::new();
    tone.stop();
    assert!(!tone.is_playing());
    assert!(!tone.pin_high());
    assert_eq!(tone.indicator(), None);
    assert_eq!(tone.remaining(), 0);
}

#[test]
fn play_after_stop_starts_anew() {
    let mut tone = Tone::new();
    tone.play(500, 1000);
    tone.stop();
    tone.play(1200, 10);
    assert!(tone.is_playing());
    assert_eq!(tone.remaining(), 24);
    assert_eq!(tone.timing(), Some(Timing { prescaler: Prescaler::Div64, compare: 103 }));
}

#[test]
fn release_leaves_nothing_behind() {
    let mut tone = Tone::new();
    tone.sync_led();
    tone.play(500, 1000);
    tone.compare_match();
    tone.release();
    assert!(!tone.is_playing());
    assert!(!tone.pin_high());
    assert_eq!(tone.indicator(), None);
    assert_eq!(tone.remaining(), 0);
    assert_eq!(tone.timing(), None);
}
