//! Waveform shapes and the sample clock that decides how long a synthesized
//! tone sounds.
use vstd::prelude::*;

use crate::utils::{milliseconds_to_samples, samples_for};

verus! {

/// The waveform shape produced by an oscillator.
#[derive(Clone, Copy, Debug, PartialEq, Eq, Structural)]
pub enum Waveform {
    /// A smooth sine wave.
    Sine,
    /// A rising sawtooth wave.
    Saw,
    /// A falling sawtooth wave. Same harmonic content as [`Waveform::Saw`], mirrored.
    SawDown,
    /// A triangle wave.
    Triangle,
    /// A square wave with a fixed 50% duty cycle.
    Square,
    /// A pulse wave with a variable duty cycle. At a width of 0.5 it is
    /// identical to [`Waveform::Square`].
    Pulse,
}

/// What happens to the next sample of a tone.
#[derive(Clone, Copy, Debug, PartialEq, Eq, Structural)]
pub enum Tick {
    /// The tone is over: the sample is silent and the clock does not move.
    Silent,
    /// The sample sounds. `remaining` is how many samples of the duration
    /// are left after it (none given for a tone without a duration); the
    /// renderer fades the tone out over its last few samples.
    Sounding { remaining: Option<usize> },
}

/// Counts the samples of a synthesized tone. Without a duration the tone
/// runs indefinitely.
pub struct SampleClock {
    sample_rate: u32,
    duration_samples: Option<usize>,
    elapsed: usize,
}

/// The abstract state of a sample clock.
pub struct SampleClockView {
    pub sample_rate: int,
    pub duration: Option<int>,
    pub elapsed: int,
}

impl View for SampleClock {
    type V = SampleClockView;

    closed spec fn view(&self) -> SampleClockView {
        SampleClockView {
            sample_rate: self.sample_rate as int,
            duration: match self.duration_samples {
                Some(d) => Some(d as int),
                None => None,
            },
            elapsed: self.elapsed as int,
        }
    }
}

/// The tone has played its whole duration.
pub open spec fn clock_finished(v: SampleClockView) -> bool {
    match v.duration {
        Some(d) => v.elapsed >= d,
        None => false,
    }
}

/// What the next sample is, and the clock after it.
pub open spec fn tick_spec(v: SampleClockView) -> (Tick, SampleClockView) {
    if clock_finished(v) {
        (Tick::Silent, v)
    } else {
        let e = v.elapsed + 1;
        (
            Tick::Sounding {
                remaining: match v.duration {
                    Some(d) => Some((if d > e { d - e } else { 0 }) as usize),
                    None => None,
                },
            },
            SampleClockView { elapsed: e, ..v },
        )
    }
}

impl SampleClock {
    /// A clock at `sample_rate` Hz for a tone that runs indefinitely.
    pub fn new(sample_rate: u32) -> (c: Self)
        ensures
            c@ == (SampleClockView { sample_rate: sample_rate as int, duration: None, elapsed: 0 }),
    {
        SampleClock { sample_rate, duration_samples: None, elapsed: 0 }
    }

    /// Sets the playback duration in milliseconds.
    pub fn duration(self, ms: u32) -> (c: Self)
        requires
            ms * self@.sample_rate <= u32::MAX,
        ensures
            c@ == (SampleClockView {
                duration: Some(samples_for(ms as int, self@.sample_rate)),
                ..self@
            }),
    {
        let d = milliseconds_to_samples(ms, self.sample_rate) as usize;
        SampleClock { duration_samples: Some(d), ..self }
    }

    /// The sample rate the clock counts at.
    pub fn sample_rate(&self) -> (r: u32)
        ensures
            r == self@.sample_rate,
    {
        self.sample_rate
    }

    /// Returns `true` once the tone has played its whole duration.
    pub fn is_finished(&self) -> (b: bool)
        ensures
            b == clock_finished(self@),
    {
        match self.duration_samples {
            Some(d) => self.elapsed >= d,
            None => false,
        }
    }

    /// Decides the next sample and moves the clock on if it sounds.
    pub fn tick(&mut self) -> (t: Tick)
        requires
            old(self)@.duration is None ==> old(self)@.elapsed < usize::MAX,
        ensures
            (t, final(self)@) == tick_spec(old(self)@),
    {
        if self.is_finished() {
            return Tick::Silent;
        }
        self.elapsed = self.elapsed + 1;
        Tick::Sounding { remaining: match self.duration_samples {
            Some(d) => Some(d.saturating_sub(self.elapsed)),
            None => None,
        } }
    }
}

/// The clock after `k` ticks.
pub open spec fn tick_n(v: SampleClockView, k: nat) -> SampleClockView
    decreases k,
{
    if k == 0 {
        v
    } else {
        tick_spec(tick_n(v, (k - 1) as nat)).1
    }
}

/// A tone with a duration sounds for exactly that many samples: after `k`
/// ticks from the start it has finished if and only if `k` reaches the
/// duration.
pub proof fn law_tone_duration(v: SampleClockView, d: int, k: nat)
    requires
        v.duration == Some(d),
        d >= 0,
        v.elapsed == 0,
    ensures
        tick_n(v, k).elapsed == if k < d {
            k as int
        } else {
            d
        },
        tick_n(v, k).duration == v.duration,
        clock_finished(tick_n(v, k)) <==> k >= d,
    decreases k,
{
    if k > 0 {
        law_tone_duration(v, d, (k - 1) as nat);
    }
}

/// Each sounding sample moves the clock on by one; for a tone with a
/// duration, `remaining` counts the samples of it still to come after this
/// one, and a tone without a duration reports none. A finished tone stays
/// silent and its clock stands still.
pub proof fn law_remaining_counts_down(v: SampleClockView)
    requires
        v.elapsed >= 0,
        v.duration is Some ==> v.duration->0 <= usize::MAX,
    ensures
        clock_finished(v) ==> tick_spec(v) == (Tick::Silent, v),
        !clock_finished(v) ==> tick_spec(v).1 == (SampleClockView { elapsed: v.elapsed + 1, ..v }),
        v.duration is None ==> tick_spec(v).0 == (Tick::Sounding { remaining: None }),
        v.duration is Some && v.elapsed < v.duration->0 ==> tick_spec(v).0 == (Tick::Sounding {
            remaining: Some((v.duration->0 - (v.elapsed + 1)) as usize),
        }),
{
}

} // verus!
