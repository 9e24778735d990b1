//! The ADSR amplitude envelope as a sequence of segments over time.
//!
//! The envelope decides, sample by sample, which segment it is in and how far
//! into it; the renderer turns that into an amplitude with the sustain level
//! and the curve shapes.
use vstd::prelude::*;

use crate::utils::{milliseconds_to_samples, samples_for};

verus! {

/// Shape of the attack and release envelope segments.
#[derive(Clone, Copy, Debug, PartialEq, Eq, Structural)]
pub enum Curve {
    /// Volume changes at a constant rate.
    Linear,
    /// Volume changes along a squared curve. Sounds more natural for
    /// percussive sources.
    Exponential,
}

/// The segment an envelope is in.
#[derive(Clone, Copy, Debug, PartialEq, Eq, Structural)]
pub enum AdsrStage {
    Attack,
    Decay,
    Sustain,
    Release,
    Finished,
}

/// Where one sample falls in the envelope. With `t = position / length`,
/// the amplitude is
/// - `Attack`: `t` (linear) or `t * t` (exponential), rising to full peak;
/// - `Decay`: `1 - (1 - sustain) * t`, falling from peak towards sustain;
/// - `Sustain`: the sustain amplitude;
/// - `Release`: `sustain * (1 - t)` (linear) or `sustain * (1 - t)^2`
///   (exponential), falling to silence;
/// - `Silent`: the sample is replaced by silence.
#[derive(Clone, Copy, Debug, PartialEq, Eq, Structural)]
pub enum EnvelopeStep {
    Attack { position: u32, length: u32, curve: Curve },
    Decay { position: u32, length: u32 },
    Sustain,
    Release { position: u32, length: u32, curve: Curve },
    Silent,
}

/// An ADSR (Attack, Decay, Sustain, Release) amplitude envelope. Segment
/// lengths are counted in samples; the sustain level `G` is carried as the
/// decibel value it was given.
pub struct Adsr<G> {
    attack: u32,
    decay: u32,
    sustain_amp: G,
    sustain_time: u32,
    release: u32,
    current_sample: u32,
    stage: AdsrStage,
    attack_curve: Curve,
    release_curve: Curve,
}

/// The abstract state of an envelope: its configuration and how many
/// samples it has shaped so far.
pub struct AdsrView<G> {
    pub attack: int,
    pub decay: int,
    pub sustain_time: int,
    pub release: int,
    pub sustain_amp: G,
    pub attack_curve: Curve,
    pub release_curve: Curve,
    /// Samples shaped so far, up to the length of the envelope.
    pub elapsed: int,
}

/// The sustain segment lasts at least one sample.
pub open spec fn sustain_len<G>(v: AdsrView<G>) -> int {
    if v.sustain_time < 1 {
        1
    } else {
        v.sustain_time
    }
}

/// Number of samples the envelope shapes before it finishes.
pub open spec fn total_len<G>(v: AdsrView<G>) -> int {
    v.attack + v.decay + sustain_len(v) + v.release
}

/// What the envelope does to the sample with index `n` (counting from the
/// start of the sound).
pub open spec fn step_at<G>(v: AdsrView<G>, n: int) -> EnvelopeStep {
    let a = v.attack;
    let d = v.decay;
    let s = sustain_len(v);
    if n < a {
        EnvelopeStep::Attack { position: (n + 1) as u32, length: a as u32, curve: v.attack_curve }
    } else if n < a + d {
        EnvelopeStep::Decay { position: (n - a) as u32, length: d as u32 }
    } else if n < a + d + s {
        EnvelopeStep::Sustain
    } else if n < total_len(v) {
        EnvelopeStep::Release {
            position: (n - (a + d + s) + 1) as u32,
            length: v.release as u32,
            curve: v.release_curve,
        }
    } else {
        EnvelopeStep::Silent
    }
}

/// The segment that the sample with index `n` falls in.
pub open spec fn stage_at<G>(v: AdsrView<G>, n: int) -> AdsrStage {
    if n < v.attack {
        AdsrStage::Attack
    } else if n < v.attack + v.decay {
        AdsrStage::Decay
    } else if n < v.attack + v.decay + sustain_len(v) {
        AdsrStage::Sustain
    } else if n < total_len(v) {
        AdsrStage::Release
    } else {
        AdsrStage::Finished
    }
}

/// The envelope after shaping one more sample.
pub open spec fn advance_spec<G>(v: AdsrView<G>) -> AdsrView<G> {
    AdsrView {
        elapsed: if v.elapsed < total_len(v) {
            v.elapsed + 1
        } else {
            v.elapsed
        },
        ..v
    }
}

/// The envelope after shaping `k` more samples.
pub open spec fn advance_n<G>(v: AdsrView<G>, k: nat) -> AdsrView<G>
    decreases k,
{
    if k == 0 {
        v
    } else {
        advance_spec(advance_n(v, (k - 1) as nat))
    }
}

/// Segment length in samples for `milliseconds`, at least one sample.
pub open spec fn segment_len(milliseconds: int, rate: int) -> int {
    let n = samples_for(milliseconds, rate);
    if n < 1 {
        1
    } else {
        n
    }
}

impl<G> View for Adsr<G> {
    type V = AdsrView<G>;

    closed spec fn view(&self) -> AdsrView<G> {
        let a = self.attack as int;
        let d = self.decay as int;
        let s = if self.sustain_time < 1 {
            1
        } else {
            self.sustain_time as int
        };
        let r = self.release as int;
        let c = self.current_sample as int;
        AdsrView {
            attack: a,
            decay: d,
            sustain_time: self.sustain_time as int,
            release: r,
            sustain_amp: self.sustain_amp,
            attack_curve: self.attack_curve,
            release_curve: self.release_curve,
            elapsed: match self.stage {
                AdsrStage::Attack => c,
                AdsrStage::Decay => a + c,
                AdsrStage::Sustain => a + d + c,
                AdsrStage::Release => a + d + s + c,
                AdsrStage::Finished => a + d + s + r,
            },
        }
    }
}

impl<G: Copy> Adsr<G> {
    /// Segments are at least one sample long (sustain may be zero), and the
    /// position within the current segment is inside it.
    pub closed spec fn wf(&self) -> bool {
        &&& self.attack >= 1
        &&& self.decay >= 1
        &&& self.release >= 1
        &&& match self.stage {
            AdsrStage::Attack => self.current_sample < self.attack,
            AdsrStage::Decay => self.current_sample < self.decay,
            AdsrStage::Sustain => self.current_sample < self.sustain_time || self.current_sample
                == 0,
            AdsrStage::Release => self.current_sample < self.release,
            AdsrStage::Finished => true,
        }
    }

    /// Creates a new ADSR envelope.
    ///
    /// - `device_rate`: sample rate from the engine
    /// - `attack`: rise time in milliseconds
    /// - `decay`: fall time from peak to sustain level in milliseconds
    /// - `sustain_time`: time held at sustain level in milliseconds
    /// - `release`: fade-out time in milliseconds
    /// - `sustain_amp`: sustain amplitude in decibels
    ///
    /// Attack, decay and release last at least one sample. Both curves are
    /// [`Curve::Linear`].
    pub fn new(
        device_rate: u32,
        attack: u32,
        decay: u32,
        sustain_time: u32,
        release: u32,
        sustain_amp: G,
    ) -> (env: Self)
        requires
            attack * device_rate <= u32::MAX,
            decay * device_rate <= u32::MAX,
            sustain_time * device_rate <= u32::MAX,
            release * device_rate <= u32::MAX,
        ensures
            env.wf(),
            env@.attack == segment_len(attack as int, device_rate as int),
            env@.decay == segment_len(decay as int, device_rate as int),
            env@.sustain_time == samples_for(sustain_time as int, device_rate as int),
            env@.release == segment_len(release as int, device_rate as int),
            env@.sustain_amp == sustain_amp,
            env@.attack_curve == Curve::Linear,
            env@.release_curve == Curve::Linear,
            env@.elapsed == 0,
    {
        Adsr {
            attack: at_least_one(milliseconds_to_samples(attack, device_rate)),
            decay: at_least_one(milliseconds_to_samples(decay, device_rate)),
            sustain_time: milliseconds_to_samples(sustain_time, device_rate),
            release: at_least_one(milliseconds_to_samples(release, device_rate)),
            sustain_amp,
            current_sample: 0,
            stage: AdsrStage::Attack,
            attack_curve: Curve::Linear,
            release_curve: Curve::Linear,
        }
    }

    /// Sets the attack curve shape. Defaults to [`Curve::Linear`].
    pub fn attack_curve(self, curve: Curve) -> (env: Self)
        requires
            self.wf(),
        ensures
            env.wf(),
            env@ == (AdsrView { attack_curve: curve, ..self@ }),
    {
        Adsr { attack_curve: curve, ..self }
    }

    /// Sets the release curve shape. Defaults to [`Curve::Linear`].
    pub fn release_curve(self, curve: Curve) -> (env: Self)
        requires
            self.wf(),
        ensures
            env.wf(),
            env@ == (AdsrView { release_curve: curve, ..self@ }),
    {
        Adsr { release_curve: curve, ..self }
    }

    /// The sustain level, in decibels.
    pub fn sustain_amp(&self) -> (g: G)
        ensures
            g == self@.sustain_amp,
    {
        self.sustain_amp
    }

    /// The segment the envelope is in.
    pub fn stage(&self) -> (s: AdsrStage)
        requires
            self.wf(),
        ensures
            s == stage_at(self@, self@.elapsed),
    {
        self.stage
    }

    /// Returns `true` once the release segment has ended.
    pub fn is_finished(&self) -> (b: bool)
        requires
            self.wf(),
        ensures
            b == (self@.elapsed == total_len(self@)),
    {
        self.stage == AdsrStage::Finished
    }

    /// Shapes the next sample: returns where it falls in the envelope and
    /// moves on by one sample.
    pub fn advance(&mut self) -> (step: EnvelopeStep)
        requires
            old(self).wf(),
        ensures
            final(self).wf(),
            step == step_at(old(self)@, old(self)@.elapsed),
            final(self)@ == advance_spec(old(self)@),
    {
        match self.stage {
            AdsrStage::Attack => {
                // increment first so the final sample reaches full peak
                self.current_sample = self.current_sample + 1;
                let step = EnvelopeStep::Attack {
                    position: self.current_sample,
                    length: self.attack,
                    curve: self.attack_curve,
                };
                if self.current_sample >= self.attack {
                    self.stage = AdsrStage::Decay;
                    self.current_sample = 0;
                }
                step
            },
            AdsrStage::Decay => {
                let step = EnvelopeStep::Decay { position: self.current_sample, length: self.decay };
                self.current_sample = self.current_sample + 1;
                if self.current_sample >= self.decay {
                    self.stage = AdsrStage::Sustain;
                    self.current_sample = 0;
                }
                step
            },
            AdsrStage::Sustain => {
                self.current_sample = self.current_sample + 1;
                if self.current_sample >= self.sustain_time {
                    self.stage = AdsrStage::Release;
                    self.current_sample = 0;
                }
                EnvelopeStep::Sustain
            },
            AdsrStage::Release => {
                // increment first so the final sample reaches full silence
                self.current_sample = self.current_sample + 1;
                let step = EnvelopeStep::Release {
                    position: self.current_sample,
                    length: self.release,
                    curve: self.release_curve,
                };
                if self.current_sample >= self.release {
                    self.stage = AdsrStage::Finished;
                }
                step
            },
            AdsrStage::Finished => EnvelopeStep::Silent,
        }
    }
}

fn at_least_one(n: u32) -> (m: u32)
    ensures
        m == (if n < 1 {
            1
        } else {
            n
        }),
{
    if n < 1 {
        1
    } else {
        n
    }
}

// ---------------------------------------------------------------------------
// Laws
/// Shaping `k` samples moves the envelope `k` samples on, but never past its
/// end.
pub proof fn lemma_advance_n<G>(v: AdsrView<G>, k: nat)
    requires
        0 <= v.elapsed <= total_len(v),
    ensures
        advance_n(v, k).elapsed == if v.elapsed + k < total_len(v) {
            v.elapsed + k
        } else {
            total_len(v)
        },
        advance_n(v, k) == (AdsrView { elapsed: advance_n(v, k).elapsed, ..v }),
    decreases k,
{
    if k > 0 {
        lemma_advance_n(v, (k - 1) as nat);
    }
}

/// An envelope that has just started finishes after exactly
/// `attack + decay + max(sustain, 1) + release` samples, and not before.
pub proof fn law_envelope_duration<G>(v: AdsrView<G>, k: nat)
    requires
        v.elapsed == 0,
        v.attack >= 1,
        v.decay >= 1,
        v.release >= 1,
    ensures
        (advance_n(v, k).elapsed == total_len(advance_n(v, k))) <==> k >= total_len(v),
{
    lemma_advance_n(v, k);
}

/// The last attack sample is at full peak, decay starts from full peak, the
/// sustain segment follows the decay, and the last release sample is at
/// full silence; after that every sample is silent.
pub proof fn law_segment_boundaries<G>(v: AdsrView<G>)
    requires
        v.attack >= 1,
        v.decay >= 1,
        v.release >= 1,
        total_len(v) <= u32::MAX,
    ensures
        step_at(v, v.attack - 1) == (EnvelopeStep::Attack {
            position: v.attack as u32,
            length: v.attack as u32,
            curve: v.attack_curve,
        }),
        step_at(v, v.attack) == (EnvelopeStep::Decay { position: 0, length: v.decay as u32 }),
        step_at(v, v.attack + v.decay) == EnvelopeStep::Sustain,
        step_at(v, total_len(v) - 1) == (EnvelopeStep::Release {
            position: v.release as u32,
            length: v.release as u32,
            curve: v.release_curve,
        }),
        forall|n: int| n >= total_len(v) ==> step_at(v, n) == EnvelopeStep::Silent,
{
}

/// Within a segment, the position is the number of samples spent in it:
/// attack and release count the current sample (so they end at full peak
/// and full silence), decay counts the samples before it (so it starts at
/// full peak). From one sample to the next inside a segment the position
/// grows by one, and every step carries its own segment's length.
pub proof fn law_segment_positions<G>(v: AdsrView<G>)
    requires
        v.attack >= 1,
        v.decay >= 1,
        v.release >= 1,
        total_len(v) <= u32::MAX,
    ensures
        forall|n: int|
            0 <= n < v.attack ==> {
                &&& #[trigger] step_at(v, n) is Attack
                &&& step_at(v, n)->Attack_position == n + 1
                &&& step_at(v, n)->Attack_length == v.attack
            },
        forall|n: int|
            v.attack <= n < v.attack + v.decay ==> {
                &&& #[trigger] step_at(v, n) is Decay
                &&& step_at(v, n)->Decay_position == n - v.attack
                &&& step_at(v, n)->Decay_length == v.decay
            },
        forall|n: int|
            v.attack + v.decay <= n < v.attack + v.decay + sustain_len(v) ==> #[trigger] step_at(v, n)
                == EnvelopeStep::Sustain,
        forall|n: int|
            v.attack + v.decay + sustain_len(v) <= n < total_len(v) ==> {
                &&& #[trigger] step_at(v, n) is Release
                &&& step_at(v, n)->Release_position == n - (v.attack + v.decay + sustain_len(v)) + 1
                &&& step_at(v, n)->Release_length == v.release
            },
        forall|n: int|
            #![trigger step_at(v, n)]
            v.attack <= n && n + 1 < v.attack + v.decay ==> step_at(v, n + 1)->Decay_position
                == step_at(v, n)->Decay_position + 1,
        forall|n: int|
            #![trigger step_at(v, n)]
            0 <= n && n + 1 < v.attack ==> step_at(v, n + 1)->Attack_position == step_at(
                v,
                n,
            )->Attack_position + 1,
{
}

} // verus!
