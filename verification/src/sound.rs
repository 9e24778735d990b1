use vstd::prelude::*;

verus! {

/// Transport state of a playing sound.
///
/// Pausing and stopping do not cut the sound off: the volume first fades to
/// silence (`FadingToPause`, `FadingToStop`), and only when the smoothed
/// volume has become inaudible does the sound become `Paused` or `Stopped`.
#[derive(Clone, Copy, Debug, PartialEq, Eq, Structural)]
pub enum State {
    Playing,
    FadingToPause,
    Paused,
    FadingToStop,
    Stopped,
}

/// A volume target: either silence or a linear gain.
#[derive(Clone, Copy, Debug, PartialEq, Eq)]
pub enum Level<G> {
    Silent,
    Gain(G),
}

/// The control state of a sound: its transport state and the targets that
/// the audio thread smooths its volume and pan towards.
///
/// `G` is the type of gain and pan values. They are only stored and handed
/// back; the smoothing itself happens where the samples are rendered.
#[derive(Clone, Copy, Debug)]
pub struct Playback<G> {
    pub state: State,
    /// The volume the sound is fading towards.
    pub volume_target: Level<G>,
    /// The volume to return to when a paused sound is resumed.
    pub pause_volume: Level<G>,
    /// The stereo position the sound is moving towards.
    pub pan_target: G,
}

/// A fresh sound plays at `volume` and `pan`.
pub open spec fn new_spec<G>(volume: G, pan: G) -> Playback<G> {
    Playback {
        state: State::Playing,
        volume_target: Level::Gain(volume),
        pause_volume: Level::Gain(volume),
        pan_target: pan,
    }
}

/// Pausing a playing sound remembers its volume target and fades it out;
/// in any other state it has no effect.
pub open spec fn pause_spec<G>(p: Playback<G>) -> Playback<G> {
    if p.state == State::Playing {
        Playback {
            state: State::FadingToPause,
            volume_target: Level::Silent,
            pause_volume: p.volume_target,
            pan_target: p.pan_target,
        }
    } else {
        p
    }
}

/// Resuming a paused (or pausing) sound restores the remembered volume
/// target; in any other state it has no effect.
pub open spec fn resume_spec<G>(p: Playback<G>) -> Playback<G> {
    if p.state == State::Paused || p.state == State::FadingToPause {
        Playback { state: State::Playing, volume_target: p.pause_volume, ..p }
    } else {
        p
    }
}

/// Stopping fades the sound out for good, unless it is already stopping.
pub open spec fn stop_spec<G>(p: Playback<G>) -> Playback<G> {
    if p.state == State::Stopped || p.state == State::FadingToStop {
        p
    } else {
        Playback { state: State::FadingToStop, volume_target: Level::Silent, ..p }
    }
}

/// Setting the volume of a playing sound changes its target. A paused (or
/// pausing) sound keeps fading to silence and will resume at the new
/// volume. A stopping or stopped sound ignores the change, so the stop
/// still completes.
pub open spec fn set_volume_spec<G>(p: Playback<G>, gain: G) -> Playback<G> {
    if p.state == State::Playing {
        Playback { volume_target: Level::Gain(gain), ..p }
    } else if p.state == State::Paused || p.state == State::FadingToPause {
        Playback { pause_volume: Level::Gain(gain), ..p }
    } else {
        p
    }
}

pub open spec fn set_pan_spec<G>(p: Playback<G>, pan: G) -> Playback<G> {
    Playback { pan_target: pan, ..p }
}

/// When the source or an effect has run out while the sound is playing,
/// the sound starts fading out to stop.
pub open spec fn input_ended_spec<G>(p: Playback<G>, source_done: bool, effects_done: bool) -> Playback<G> {
    if (source_done || effects_done) && p.state == State::Playing {
        Playback { state: State::FadingToStop, volume_target: Level::Silent, ..p }
    } else {
        p
    }
}

/// When the smoothed volume has become inaudible, a fade to pause ends in
/// `Paused` and a fade to stop ends in `Stopped`.
pub open spec fn silence_reached_spec<G>(p: Playback<G>) -> Playback<G> {
    if p.state == State::FadingToPause {
        Playback { state: State::Paused, ..p }
    } else if p.state == State::FadingToStop {
        Playback { state: State::Stopped, ..p }
    } else {
        p
    }
}

pub open spec fn is_paused_spec<G>(p: Playback<G>) -> bool {
    p.state == State::Paused || p.state == State::FadingToPause
}

pub open spec fn is_finished_spec<G>(p: Playback<G>) -> bool {
    p.state == State::Stopped
}

/// A sound in these states renders silence.
pub open spec fn is_muted_spec<G>(p: Playback<G>) -> bool {
    p.state == State::Paused || p.state == State::Stopped
}

impl<G: Copy> Playback<G> {
    /// A sound that starts playing at linear gain `volume` and stereo
    /// position `pan` (already limited to `0.0..=1.0`).
    pub fn new(volume: G, pan: G) -> (p: Self)
        ensures
            p == new_spec(volume, pan),
            p.state == State::Playing,
            p.volume_target == Level::Gain(volume),
            p.pause_volume == Level::Gain(volume),
            p.pan_target == pan,
    {
        Playback {
            state: State::Playing,
            volume_target: Level::Gain(volume),
            pause_volume: Level::Gain(volume),
            pan_target: pan,
        }
    }

    /// Pauses playback.
    pub fn pause(&mut self)
        ensures
            *final(self) == pause_spec(*old(self)),
    {
        if self.state == State::Playing {
            self.pause_volume = self.volume_target;
            self.volume_target = Level::Silent;
            self.state = State::FadingToPause;
        }
    }

    /// Resumes playback.
    pub fn resume(&mut self)
        ensures
            *final(self) == resume_spec(*old(self)),
    {
        match self.state {
            State::Paused | State::FadingToPause => {
                self.volume_target = self.pause_volume;
                self.state = State::Playing;
            },
            _ => {},
        }
    }

    /// Stops playback; the mixer drops the sound once it has faded out.
    pub fn stop(&mut self)
        ensures
            *final(self) == stop_spec(*old(self)),
            final(self).state == State::FadingToStop || final(self).state == State::Stopped,
            old(self).state != State::Stopped && old(self).state != State::FadingToStop
                ==> final(self).state == State::FadingToStop
                && final(self).volume_target == Level::<G>::Silent,
            final(self).pan_target == old(self).pan_target,
    {
        if !(self.state == State::Stopped || self.state == State::FadingToStop) {
            self.volume_target = Level::Silent;
            self.state = State::FadingToStop;
        }
    }

    /// Returns `true` if the sound is paused or fading out to pause.
    pub fn is_paused(&self) -> (b: bool)
        ensures
            b == is_paused_spec(*self),
    {
        self.state == State::Paused || self.state == State::FadingToPause
    }

    /// Returns `true` once the sound has stopped.
    pub fn is_finished(&self) -> (b: bool)
        ensures
            b == is_finished_spec(*self),
    {
        self.state == State::Stopped
    }

    /// Returns `true` if the sound currently renders silence.
    pub fn is_muted(&self) -> (b: bool)
        ensures
            b == is_muted_spec(*self),
    {
        self.state == State::Paused || self.state == State::Stopped
    }

    /// Sets the volume to the linear gain `gain`: at once while playing, on
    /// resuming while paused, and not at all once stopping.
    pub fn set_volume(&mut self, gain: G)
        ensures
            *final(self) == set_volume_spec(*old(self), gain),
    {
        match self.state {
            State::Playing => {
                self.volume_target = Level::Gain(gain);
            },
            State::Paused | State::FadingToPause => {
                self.pause_volume = Level::Gain(gain);
            },
            _ => {},
        }
    }

    /// Sets the pan target (already limited to `0.0..=1.0`).
    pub fn set_pan(&mut self, pan: G)
        ensures
            *final(self) == set_pan_spec(*old(self), pan),
    {
        self.pan_target = pan;
    }

    /// Reports, once per rendered block, whether the source has run out and
    /// whether the effect chain holds an effect that has finished.
    pub fn input_ended(&mut self, source_done: bool, effects_done: bool)
        ensures
            *final(self) == input_ended_spec(*old(self), source_done, effects_done),
    {
        if (source_done || effects_done) && self.state == State::Playing {
            self.volume_target = Level::Silent;
            self.state = State::FadingToStop;
        }
    }

    /// Reports that the smoothed volume has dropped below the audible
    /// threshold. Returns `true` if this ended a fade, in which case the
    /// renderer snaps its volume to zero.
    pub fn silence_reached(&mut self) -> (ended_fade: bool)
        ensures
            *final(self) == silence_reached_spec(*old(self)),
            ended_fade == (old(self).state == State::FadingToPause || old(self).state
                == State::FadingToStop),
    {
        match self.state {
            State::FadingToPause => {
                self.state = State::Paused;
                true
            },
            State::FadingToStop => {
                self.state = State::Stopped;
                true
            },
            _ => false,
        }
    }
}

/// Whether any effect of a chain reports that it has finished. An empty
/// chain never ends the sound.
pub fn any_effect_finished(finished: &Vec<bool>) -> (b: bool)
    ensures
        b == exists|i: int| 0 <= i < finished@.len() && finished@[i],
{
    let mut i: usize = 0;
    while i < finished.len()
        invariant
            i <= finished@.len(),
            forall|j: int| 0 <= j < i ==> !finished@[j],
        decreases finished@.len() - i,
    {
        if finished[i] {
            return true;
        }
        i = i + 1;
    }
    false
}

// ---------------------------------------------------------------------------
// Laws
/// Pausing a playing sound and resuming it, whether or not the fade-out has
/// completed in between, brings it back to playing at the volume it had.
pub proof fn law_resume_restores_volume<G>(p: Playback<G>)
    requires
        p.state == State::Playing,
    ensures
        resume_spec(pause_spec(p)).state == State::Playing,
        resume_spec(pause_spec(p)).volume_target == p.volume_target,
        resume_spec(silence_reached_spec(pause_spec(p))).state == State::Playing,
        resume_spec(silence_reached_spec(pause_spec(p))).volume_target == p.volume_target,
{
}

/// A new sound plays, heading for the volume and the pan it was created
/// with, and resumes at that volume if it is paused before anything else
/// changes it.
pub proof fn law_new_plays_at_given_volume_and_pan<G>(volume: G, pan: G)
    ensures
        new_spec(volume, pan).state == State::Playing,
        new_spec(volume, pan).volume_target == Level::Gain(volume),
        new_spec(volume, pan).pan_target == pan,
        resume_spec(pause_spec(new_spec(volume, pan))).volume_target == Level::Gain(volume),
        resume_spec(pause_spec(new_spec(volume, pan))).pan_target == pan,
{
}

/// Stopping works in every state but a stopped or stopping one, a paused
/// sound included: the sound fades to silence, keeps its pan, and is
/// finished once silent.
pub proof fn law_stop_from_any_state<G>(p: Playback<G>)
    requires
        p.state != State::Stopped,
        p.state != State::FadingToStop,
    ensures
        stop_spec(p).state == State::FadingToStop,
        stop_spec(p).volume_target == Level::<G>::Silent,
        stop_spec(p).pan_target == p.pan_target,
        !is_finished_spec(stop_spec(p)),
        is_finished_spec(silence_reached_spec(stop_spec(p))),
        !is_paused_spec(stop_spec(p)),
{
}

/// What each control does to a playing sound: pausing fades it to silence
/// and, once silent, mutes it; setting the volume retargets it at once;
/// resuming and reaching silence change nothing; running out of input
/// (source or effect) fades it out to stop.
pub proof fn law_controls_on_a_playing_sound<G>(
    p: Playback<G>,
    gain: G,
    source_done: bool,
    effects_done: bool,
)
    requires
        p.state == State::Playing,
    ensures
        !is_paused_spec(p),
        !is_muted_spec(p),
        !is_finished_spec(p),
        pause_spec(p).state == State::FadingToPause,
        pause_spec(p).volume_target == Level::<G>::Silent,
        pause_spec(p).pan_target == p.pan_target,
        is_paused_spec(pause_spec(p)),
        !is_muted_spec(pause_spec(p)),
        silence_reached_spec(pause_spec(p)).state == State::Paused,
        is_paused_spec(silence_reached_spec(pause_spec(p))),
        is_muted_spec(silence_reached_spec(pause_spec(p))),
        set_volume_spec(p, gain).state == State::Playing,
        set_volume_spec(p, gain).volume_target == Level::Gain(gain),
        set_volume_spec(p, gain).pan_target == p.pan_target,
        resume_spec(p) == p,
        silence_reached_spec(p) == p,
        source_done || effects_done ==> input_ended_spec(p, source_done, effects_done).state
            == State::FadingToStop && input_ended_spec(p, source_done, effects_done).volume_target
            == Level::<G>::Silent,
        !(source_done || effects_done) ==> input_ended_spec(p, source_done, effects_done) == p,
{
}

/// Setting the pan moves the pan target and nothing else, in every state.
pub proof fn law_set_pan_moves_only_the_pan<G>(p: Playback<G>, pan: G)
    ensures
        set_pan_spec(p, pan).pan_target == pan,
        set_pan_spec(p, pan).state == p.state,
        set_pan_spec(p, pan).volume_target == p.volume_target,
        set_pan_spec(p, pan).pause_volume == p.pause_volume,
{
}

/// Stopping twice is the same as stopping once.
pub proof fn law_stop_idempotent<G>(p: Playback<G>)
    ensures
        stop_spec(stop_spec(p)) == stop_spec(p),
{
}

/// A stopped sound stays stopped, whatever it is told.
pub proof fn law_stopped_is_final<G>(p: Playback<G>, source_done: bool, effects_done: bool, gain: G)
    requires
        is_finished_spec(p),
    ensures
        is_finished_spec(pause_spec(p)),
        is_finished_spec(resume_spec(p)),
        is_finished_spec(stop_spec(p)),
        is_finished_spec(set_volume_spec(p, gain)),
        is_finished_spec(set_pan_spec(p, gain)),
        is_finished_spec(input_ended_spec(p, source_done, effects_done)),
        is_finished_spec(silence_reached_spec(p)),
{
}

/// A playing sound whose source runs out fades out and, once silent, is
/// finished.
pub proof fn law_finishes_when_source_runs_out<G>(p: Playback<G>, effects_done: bool)
    requires
        p.state == State::Playing,
    ensures
        !is_finished_spec(input_ended_spec(p, true, effects_done)),
        is_finished_spec(silence_reached_spec(input_ended_spec(p, true, effects_done))),
{
}

/// A stopping sound cannot be paused, resumed or turned back up: it keeps
/// fading to silence, and then it is finished.
pub proof fn law_stop_is_not_undone<G>(p: Playback<G>, gain: G, pan: G)
    requires
        p.state == State::FadingToStop,
    ensures
        pause_spec(p) == p,
        resume_spec(p) == p,
        stop_spec(p) == p,
        set_volume_spec(p, gain) == p,
        set_pan_spec(p, pan).state == State::FadingToStop,
        is_finished_spec(silence_reached_spec(p)),
{
}

/// Setting the volume after a stop changes nothing: the sound still fades
/// out and stops.
pub proof fn law_stop_then_set_volume<G>(p: Playback<G>, gain: G)
    ensures
        set_volume_spec(stop_spec(p), gain) == stop_spec(p),
{
}

/// Changing the volume of a paused sound keeps it silent and takes effect
/// when it resumes.
pub proof fn law_set_volume_while_paused<G>(p: Playback<G>, gain: G)
    requires
        is_paused_spec(p),
    ensures
        set_volume_spec(p, gain).volume_target == p.volume_target,
        set_volume_spec(p, gain).state == p.state,
        resume_spec(set_volume_spec(p, gain)).volume_target == Level::Gain(gain),
        resume_spec(set_volume_spec(p, gain)).state == State::Playing,
{
}

/// A call that a sound's control receives.
pub enum Call<G> {
    Pause,
    Resume,
    Stop,
    SetVolume(G),
    SetPan(G),
    InputEnded(bool, bool),
    SilenceReached,
}

/// The control after one call.
pub open spec fn step_spec<G>(p: Playback<G>, c: Call<G>) -> Playback<G> {
    match c {
        Call::Pause => pause_spec(p),
        Call::Resume => resume_spec(p),
        Call::Stop => stop_spec(p),
        Call::SetVolume(g) => set_volume_spec(p, g),
        Call::SetPan(g) => set_pan_spec(p, g),
        Call::InputEnded(source_done, effects_done) => input_ended_spec(p, source_done, effects_done),
        Call::SilenceReached => silence_reached_spec(p),
    }
}

/// The control after a sequence of calls.
pub open spec fn run_spec<G>(p: Playback<G>, calls: Seq<Call<G>>) -> Playback<G>
    decreases calls.len(),
{
    if calls.len() == 0 {
        p
    } else {
        step_spec(run_spec(p, calls.drop_last()), calls.last())
    }
}

/// Some call of the sequence paused the sound while it was playing, and no
/// resume or stop came after it.
pub open spec fn paused_by<G>(p: Playback<G>, calls: Seq<Call<G>>) -> bool {
    exists|k: int|
        0 <= k < calls.len() && #[trigger] calls[k] is Pause && run_spec(p, calls.take(k)).state
            == State::Playing && forall|j: int|
            k < j < calls.len() ==> !(calls[j] is Resume) && !(calls[j] is Stop)
}

/// Extending a sequence of calls by one call: it paused the sound if it is
/// a pause of a playing sound, or an earlier pause stands and the new call
/// is neither a resume nor a stop.
pub proof fn lemma_paused_by_push<G>(p: Playback<G>, t: Seq<Call<G>>, c: Call<G>)
    ensures
        paused_by(p, t.push(c)) <==> ((c is Pause && run_spec(p, t).state == State::Playing) || (
        paused_by(p, t) && !(c is Resume) && !(c is Stop))),
{
    let s = t.push(c);
    let n = t.len() as int;
    assert(s.take(n) =~= t);
    if paused_by(p, t) && !(c is Resume) && !(c is Stop) {
        let k = choose|k: int|
            0 <= k < t.len() && #[trigger] t[k] is Pause && run_spec(p, t.take(k)).state
                == State::Playing && forall|j: int|
                k < j < t.len() ==> !(t[j] is Resume) && !(t[j] is Stop);
        assert(s.take(k) =~= t.take(k));
        assert(s[k] == t[k]);
        assert forall|j: int| k < j < s.len() implies !(s[j] is Resume) && !(s[j] is Stop) by {
            if j < n {
                assert(s[j] == t[j]);
            }
        }
        assert(paused_by(p, s));
    }
    if c is Pause && run_spec(p, t).state == State::Playing {
        assert(s[n] is Pause);
        assert(paused_by(p, s));
    }
    if paused_by(p, s) {
        let k = choose|k: int|
            0 <= k < s.len() && #[trigger] s[k] is Pause && run_spec(p, s.take(k)).state
                == State::Playing && forall|j: int|
                k < j < s.len() ==> !(s[j] is Resume) && !(s[j] is Stop);
        if k < n {
            assert(s.take(k) =~= t.take(k));
            assert(t[k] == s[k]);
            assert forall|j: int| k < j < t.len() implies !(t[j] is Resume) && !(t[j] is Stop) by {
                assert(s[j] == t[j]);
            }
            assert(paused_by(p, t));
            assert(s[n] == c);
        }
    }
}

/// A sound that is not paused to begin with is paused after a sequence of
/// calls exactly when one of them paused it while it was playing and no
/// resume or stop came after that.
pub proof fn law_is_paused<G>(p: Playback<G>, calls: Seq<Call<G>>)
    requires
        !is_paused_spec(p),
    ensures
        is_paused_spec(run_spec(p, calls)) <==> paused_by(p, calls),
    decreases calls.len(),
{
    if calls.len() > 0 {
        let t = calls.drop_last();
        let c = calls.last();
        law_is_paused(p, t);
        lemma_paused_by_push(p, t, c);
        assert(t.push(c) =~= calls);
    }
}

} // verus!
