use aire::sound::{any_effect_finished, Level, Playback, State};

// The sound starts at 0 dB (unity gain) and centered.
fn fresh() -> Playback<f32> {
    Playback::new(1.0f32, 0.5f32)
}

#[test]
fn resume_mid_fade_restores_volume() {
    let mut s = fresh();
    let vol = s.volume_target;
    s.pause();
    // a hundred rendered samples: the source goes on, and the volume does
    // not fade below the threshold, so no silence is reported
    s.input_ended(false, false);
    s.resume();
    assert!(matches!(s.state, State::Playing));
    match (s.volume_target, vol) {
        (Level::Gain(a), Level::Gain(b)) => assert!((a - b).abs() < 0.001),
        _ => panic!("volume target lost"),
    }
}

#[test]
fn double_stop_does_not_panic() {
    let mut s = fresh();
    s.stop();
    // five thousand samples fade the volume below the audible threshold
    assert!(s.silence_reached());
    s.stop();
    assert!(s.is_finished());
}

#[test]
fn finished_when_source_exhausted() {
    let mut s = fresh();
    s.input_ended(true, false); // source exhausts, triggers FadingToStop
    assert!(!s.is_finished());
    assert!(s.silence_reached()); // wait for fade to complete
    assert!(s.is_finished());
}

#[test]
fn resume_after_completed_pause_restores_volume() {
    let mut s = fresh();
    s.set_volume(0.25);
    s.pause();
    assert!(s.is_paused());
    assert!(!s.is_muted());
    assert!(s.silence_reached());
    assert_eq!(s.state, State::Paused);
    assert!(s.is_muted());
    s.resume();
    assert_eq!(s.state, State::Playing);
    assert_eq!(s.volume_target, Level::Gain(0.25));
    assert!(!s.is_paused());
}

#[test]
fn pause_targets_silence_and_remembers_volume() {
    let mut s = fresh();
    s.pause();
    assert_eq!(s.state, State::FadingToPause);
    assert_eq!(s.volume_target, Level::Silent);
    assert_eq!(s.pause_volume, Level::Gain(1.0));
}

#[test]
fn stopping_sound_cannot_be_resumed() {
    let mut s = fresh();
    s.stop();
    s.resume();
    s.pause();
    assert_eq!(s.state, State::FadingToStop);
    assert_eq!(s.volume_target, Level::Silent);
}

#[test]
fn silence_while_playing_changes_nothing() {
    let mut s = fresh();
    assert!(!s.silence_reached());
    assert_eq!(s.state, State::Playing);
}

#[test]
fn finished_effect_ends_a_playing_sound() {
    let mut s = fresh();
    s.input_ended(false, any_effect_finished(&vec![false, true]));
    assert_eq!(s.state, State::FadingToStop);
    let mut t = fresh();
    t.input_ended(false, any_effect_finished(&Vec::new()));
    assert_eq!(t.state, State::Playing);
}

#[test]
fn pan_target_follows_set_pan() {
    let mut s = fresh();
    s.set_pan(1.0);
    assert_eq!(s.pan_target, 1.0);
    assert_eq!(s.state, State::Playing);
}

#[test]
fn stopped_sound_stays_stopped() {
    let mut s = fresh();
    s.stop();
    s.silence_reached();
    s.resume();
    s.pause();
    s.input_ended(true, true);
    s.set_volume(2.0);
    assert!(s.is_finished());
    assert!(s.is_muted());
}

#[test]
fn set_volume_after_stop_keeps_stopping() {
    let mut s = fresh();
    s.stop();
    s.set_volume(2.0);
    assert_eq!(s.state, State::FadingToStop);
    assert_eq!(s.volume_target, Level::Silent);
    assert!(s.silence_reached());
    assert!(s.is_finished());
}

#[test]
fn set_volume_while_paused_applies_on_resume() {
    let mut s = fresh();
    s.pause();
    s.set_volume(0.5);
    assert_eq!(s.volume_target, Level::Silent);
    assert_eq!(s.state, State::FadingToPause);
    s.resume();
    assert_eq!(s.volume_target, Level::Gain(0.5));
}
