use aire::oscillator::{SampleClock, Tick, Waveform};
use aire::utils::milliseconds_to_samples;

#[test]
fn milliseconds_round_down_to_samples() {
    assert_eq!(milliseconds_to_samples(1000, 44100), 44100);
    assert_eq!(milliseconds_to_samples(1, 44100), 44);
    assert_eq!(milliseconds_to_samples(0, 48000), 0);
}

#[test]
fn tone_with_duration_sounds_for_its_length() {
    let mut clock = SampleClock::new(1000).duration(3);
    assert_eq!(clock.tick(), Tick::Sounding { remaining: Some(2) });
    assert_eq!(clock.tick(), Tick::Sounding { remaining: Some(1) });
    assert_eq!(clock.tick(), Tick::Sounding { remaining: Some(0) });
    assert!(clock.is_finished());
    assert_eq!(clock.tick(), Tick::Silent);
    let mut endless = SampleClock::new(44100);
    assert_eq!(endless.tick(), Tick::Sounding { remaining: None });
    assert!(!endless.is_finished());
    assert_ne!(Waveform::Saw, Waveform::SawDown);
}
