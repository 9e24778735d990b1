use aire::adsr::{Adsr, AdsrStage, Curve, EnvelopeStep};

#[test]
fn envelope_walks_through_all_segments() {
    // at 1000 Hz one millisecond is one sample
    let mut env = Adsr::new(1000, 2, 1, 0, 2, -6.0f32).release_curve(Curve::Exponential);
    let mut steps = Vec::new();
    while !env.is_finished() {
        steps.push(env.advance());
    }
    assert_eq!(
        steps,
        vec![
            EnvelopeStep::Attack { position: 1, length: 2, curve: Curve::Linear },
            EnvelopeStep::Attack { position: 2, length: 2, curve: Curve::Linear },
            EnvelopeStep::Decay { position: 0, length: 1 },
            EnvelopeStep::Sustain,
            EnvelopeStep::Release { position: 1, length: 2, curve: Curve::Exponential },
            EnvelopeStep::Release { position: 2, length: 2, curve: Curve::Exponential },
        ]
    );
    assert_eq!(env.advance(), EnvelopeStep::Silent);
    assert_eq!(env.stage(), AdsrStage::Finished);
    assert_eq!(env.sustain_amp(), -6.0);
}

#[test]
fn zero_length_segments_last_one_sample() {
    let mut env = Adsr::new(44100, 0, 0, 0, 0, 0.0f32).attack_curve(Curve::Exponential);
    assert_eq!(env.advance(), EnvelopeStep::Attack { position: 1, length: 1, curve: Curve::Exponential });
    assert_eq!(env.advance(), EnvelopeStep::Decay { position: 0, length: 1 });
    assert_eq!(env.advance(), EnvelopeStep::Sustain);
    assert_eq!(env.advance(), EnvelopeStep::Release { position: 1, length: 1, curve: Curve::Linear });
    assert!(env.is_finished());
}

#[test]
fn envelope_duration_in_samples() {
    // 10 ms attack, 20 ms decay, 30 ms sustain, 40 ms release at 48 kHz
    let mut env = Adsr::new(48000, 10, 20, 30, 40, -3.0f32);
    let mut n = 0u32;
    while !env.is_finished() {
        env.advance();
        n += 1;
    }
    assert_eq!(n, 480 + 960 + 1440 + 1920);
}

#[test]
fn sustain_holds_for_its_time() {
    let mut env = Adsr::new(1000, 1, 1, 3, 1, 0.0f32);
    assert_eq!(env.stage(), AdsrStage::Attack);
    env.advance();
    env.advance();
    assert_eq!(env.stage(), AdsrStage::Sustain);
    assert_eq!(env.advance(), EnvelopeStep::Sustain);
    assert_eq!(env.advance(), EnvelopeStep::Sustain);
    assert_eq!(env.advance(), EnvelopeStep::Sustain);
    assert_eq!(env.stage(), AdsrStage::Release);
}
