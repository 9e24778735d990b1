//! Playback of decoded audio held in memory.
use vstd::prelude::*;

verus! {

/// Plays interleaved samples from memory. Stereo data is read in
/// left/right pairs; data with any other channel count is read one sample
/// per frame and duplicated to both sides.
///
/// `S` is the sample type. Frames past the end are silence: the default
/// value of `S`.
pub struct FileSource<S> {
    samples: Vec<S>,
    current_pos: usize,
    channels: usize,
    looping: bool,
    silence: S,
}

/// The abstract state of a file source.
pub struct FileSourceView<S> {
    pub samples: Seq<S>,
    /// Index of the next sample to read.
    pub pos: int,
    pub channels: int,
    pub looping: bool,
    /// The value written for frames past the end.
    pub silence: S,
}

/// Samples consumed per frame.
pub open spec fn stride(channels: int) -> int {
    if channels == 2 {
        2
    } else {
        1
    }
}

/// The frame stored at `pos`.
pub open spec fn frame_at<S>(v: FileSourceView<S>, pos: int) -> (S, S) {
    if v.channels == 2 {
        (v.samples[pos], v.samples[pos + 1])
    } else {
        (v.samples[pos], v.samples[pos])
    }
}

/// Whether the source has played all its data and will not loop.
pub open spec fn finished_spec<S>(v: FileSourceView<S>) -> bool {
    !v.looping && v.pos >= v.samples.len()
}

/// The next frame and the source after producing it. A looping source
/// wraps to its start when it reaches the end.
pub open spec fn next_frame_spec<S>(v: FileSourceView<S>) -> ((S, S), FileSourceView<S>) {
    if v.pos >= v.samples.len() {
        ((v.silence, v.silence), v)
    } else {
        let next = v.pos + stride(v.channels);
        (
            frame_at(v, v.pos),
            FileSourceView {
                pos: if v.looping && next >= v.samples.len() {
                    0
                } else {
                    next
                },
                ..v
            },
        )
    }
}

/// The first `n` frames produced and the source after producing them.
pub open spec fn play<S>(v: FileSourceView<S>, n: nat) -> (Seq<(S, S)>, FileSourceView<S>)
    decreases n,
{
    if n == 0 {
        (Seq::empty(), v)
    } else {
        let (out, w) = play(v, (n - 1) as nat);
        let (f, w2) = next_frame_spec(w);
        (out.push(f), w2)
    }
}

/// Stereo data holds whole frames, and the read position is inside the
/// data, on a frame boundary.
pub open spec fn view_wf<S>(v: FileSourceView<S>) -> bool {
    &&& 0 <= v.pos <= v.samples.len()
    &&& v.channels == 2 ==> v.samples.len() % 2 == 0 && v.pos % 2 == 0
}

impl<S> View for FileSource<S> {
    type V = FileSourceView<S>;

    closed spec fn view(&self) -> FileSourceView<S> {
        FileSourceView {
            samples: self.samples@,
            pos: self.current_pos as int,
            channels: self.channels as int,
            looping: self.looping,
            silence: self.silence,
        }
    }
}

impl<S: Copy> FileSource<S> {
    pub closed spec fn wf(&self) -> bool {
        view_wf(self@)
    }

    /// A source that plays `samples`, interleaved over `channels` channels,
    /// from the start and without looping.
    pub fn from_samples(samples: Vec<S>, channels: usize) -> (src: Self) where S: Default
        requires
            channels == 2 ==> samples@.len() % 2 == 0,
        ensures
            src.wf(),
            src@.samples == samples@,
            src@.pos == 0,
            src@.channels == channels,
            !src@.looping,
    {
        FileSource { samples, current_pos: 0, channels, looping: false, silence: S::default() }
    }

    /// Enables looping. The source restarts from the beginning when it
    /// reaches the end and will never report as finished.
    pub fn looping(self) -> (src: Self)
        requires
            self.wf(),
        ensures
            src.wf(),
            src@ == (FileSourceView { looping: true, ..self@ }),
    {
        FileSource { looping: true, ..self }
    }

    /// Number of channels of the data.
    pub fn channels(&self) -> (c: usize)
        ensures
            c == self@.channels,
    {
        self.channels
    }

    /// Returns `true` when the source has played all its data and does not
    /// loop.
    pub fn is_finished(&self) -> (b: bool)
        ensures
            b == finished_spec(self@),
            self@.pos < self@.samples.len() ==> !b,
            self@.looping ==> !b,
            b ==> next_frame_spec(self@) == ((self@.silence, self@.silence), self@),
    {
        !self.looping && self.current_pos >= self.samples.len()
    }

    /// Produces the next frame.
    pub fn next_frame(&mut self) -> (frame: (S, S))
        requires
            old(self).wf(),
        ensures
            final(self).wf(),
            (frame, final(self)@) == next_frame_spec(old(self)@),
    {
        if self.current_pos >= self.samples.len() {
            return (self.silence, self.silence);
        }
        let frame = if self.channels == 2 {
            let left = self.samples[self.current_pos];
            let right = self.samples[self.current_pos + 1];
            self.current_pos = self.current_pos + 2;
            (left, right)
        } else {
            let s = self.samples[self.current_pos];
            self.current_pos = self.current_pos + 1;
            (s, s)
        };
        if self.looping && self.current_pos >= self.samples.len() {
            self.current_pos = 0;
        }
        frame
    }

    /// Fills `buffer` with the next frames as `(left, right)` pairs.
    pub fn fill_buffer(&mut self, buffer: &mut [(S, S)])
        requires
            old(self).wf(),
        ensures
            final(self).wf(),
            final(buffer)@.len() == old(buffer)@.len(),
            (final(buffer)@, final(self)@) == play(old(self)@, old(buffer)@.len()),
    {
        let n = buffer.len();
        let ghost start = self@;
        let mut i: usize = 0;
        while i < n
            invariant
                self.wf(),
                i <= n,
                n == buffer@.len(),
                buffer@.take(i as int) == play(start, i as nat).0,
                self@ == play(start, i as nat).1,
            decreases n - i,
        {
            let frame = self.next_frame();
            buffer[i] = frame;
            assert(buffer@.take(i + 1) =~= buffer@.take(i as int).push(frame));
            i = i + 1;
        }
        assert(buffer@.take(n as int) =~= buffer@);
    }
}

// ---------------------------------------------------------------------------
// Laws
/// Mono data is duplicated to both channels.
pub proof fn law_mono_duplicates<S>(v: FileSourceView<S>)
    requires
        view_wf(v),
        v.channels != 2,
        v.pos < v.samples.len(),
    ensures
        next_frame_spec(v).0 == (v.samples[v.pos], v.samples[v.pos]),
{
}

/// Stereo data is read as interleaved left/right pairs.
pub proof fn law_stereo_pairs<S>(v: FileSourceView<S>)
    requires
        view_wf(v),
        v.channels == 2,
        v.pos < v.samples.len(),
    ensures
        next_frame_spec(v).0 == (v.samples[v.pos], v.samples[v.pos + 1]),
{
}

/// A source with data left to read is not finished, and its next frame is
/// the one stored at its read position; a source is finished only when it
/// does not loop and everything it produces from then on is silence. So a
/// freshly built source with any data is not finished.
pub proof fn law_not_finished_while_data_remains<S>(v: FileSourceView<S>)
    requires
        view_wf(v),
    ensures
        v.pos < v.samples.len() ==> !finished_spec(v) && next_frame_spec(v).0 == frame_at(v, v.pos),
        finished_spec(v) ==> !v.looping && next_frame_spec(v) == ((v.silence, v.silence), v),
        v.pos == 0 && v.samples.len() > 0 ==> !finished_spec(v),
{
}

/// Producing frames keeps the source well formed and its data, channel
/// count, looping flag and silence unchanged.
pub proof fn lemma_play_wf<S>(v: FileSourceView<S>, n: nat)
    requires
        view_wf(v),
    ensures
        view_wf(play(v, n).1),
        play(v, n).1 == (FileSourceView { pos: play(v, n).1.pos, ..v }),
        play(v, n).0.len() == n,
    decreases n,
{
    if n > 0 {
        lemma_play_wf(v, (n - 1) as nat);
    }
}

/// A source that does not loop and has produced at least as many frames
/// as it had left is finished, and from then on produces silence.
pub proof fn law_finishes_when_exhausted<S>(v: FileSourceView<S>, n: nat)
    requires
        view_wf(v),
        !v.looping,
        v.pos + n * stride(v.channels) >= v.samples.len(),
    ensures
        finished_spec(play(v, n).1),
        next_frame_spec(play(v, n).1).0 == (v.silence, v.silence),
    decreases n,
{
    lemma_play_wf(v, n);
    if v.pos >= v.samples.len() {
        lemma_play_stays_at_end(v, n);
    } else {
        assert(n > 0) by (nonlinear_arith)
            requires
                v.pos + n * stride(v.channels) >= v.samples.len(),
                v.pos < v.samples.len(),
        ;
        let w = next_frame_spec(v).1;
        assert(w.pos == v.pos + stride(v.channels));
        assert(w.pos + (n - 1) * stride(v.channels) >= v.samples.len()) by (nonlinear_arith)
            requires
                w.pos == v.pos + stride(v.channels),
                v.pos + n * stride(v.channels) >= v.samples.len(),
                n > 0,
        ;
        law_finishes_when_exhausted(w, (n - 1) as nat);
        lemma_play_shift(v, (n - 1) as nat);
    }
}

/// Producing `n + 1` frames is producing one frame and then `n` more.
pub proof fn lemma_play_shift<S>(v: FileSourceView<S>, n: nat)
    ensures
        play(v, n + 1).1 == play(next_frame_spec(v).1, n).1,
        play(v, n + 1).0 == seq![next_frame_spec(v).0] + play(next_frame_spec(v).1, n).0,
    decreases n,
{
    let w = next_frame_spec(v).1;
    if n > 0 {
        lemma_play_shift(v, (n - 1) as nat);
        let prev = play(v, n);
        assert(play(v, n + 1) == (prev.0.push(next_frame_spec(prev.1).0), next_frame_spec(prev.1).1));
        let prev_w = play(w, (n - 1) as nat);
        assert(play(w, n) == (prev_w.0.push(next_frame_spec(prev_w.1).0), next_frame_spec(prev_w.1).1));
        assert(play(v, n + 1).0 =~= seq![next_frame_spec(v).0] + play(w, n).0);
    } else {
        assert(play(v, 0) == (Seq::<(S, S)>::empty(), v));
        assert(play(w, 0) == (Seq::<(S, S)>::empty(), w));
        assert(play(v, 1).0 =~= seq![next_frame_spec(v).0]);
    }
}

/// An exhausted source stays where it is.
pub proof fn lemma_play_stays_at_end<S>(v: FileSourceView<S>, n: nat)
    requires
        v.pos >= v.samples.len(),
    ensures
        play(v, n).1 == v,
    decreases n,
{
    if n > 0 {
        lemma_play_stays_at_end(v, (n - 1) as nat);
        let prev = play(v, (n - 1) as nat);
        assert(play(v, n) == (prev.0.push(next_frame_spec(prev.1).0), next_frame_spec(prev.1).1));
    }
}

/// A looping source never reports as finished.
pub proof fn law_looping_never_finishes<S>(v: FileSourceView<S>, n: nat)
    requires
        view_wf(v),
        v.looping,
    ensures
        !finished_spec(play(v, n).1),
{
    lemma_play_wf(v, n);
}

/// Within one pass over its data, a looping source that starts at the
/// beginning reads the frames in order.
pub proof fn lemma_loop_position<S>(v: FileSourceView<S>, k: nat)
    requires
        view_wf(v),
        v.looping,
        v.pos == 0,
        k * stride(v.channels) < v.samples.len(),
    ensures
        play(v, k).1.pos == k * stride(v.channels),
    decreases k,
{
    lemma_play_wf(v, k);
    if k > 0 {
        assert((k - 1) * stride(v.channels) < v.samples.len()) by (nonlinear_arith)
            requires
                k * stride(v.channels) < v.samples.len(),
                k > 0,
                stride(v.channels) >= 1,
        ;
        lemma_loop_position(v, (k - 1) as nat);
        lemma_play_wf(v, (k - 1) as nat);
        let prev = play(v, (k - 1) as nat);
        assert(play(v, k) == (prev.0.push(next_frame_spec(prev.1).0), next_frame_spec(prev.1).1));
        assert(k * stride(v.channels) == (k - 1) * stride(v.channels) + stride(v.channels))
            by (nonlinear_arith);
    } else {
        assert(play(v, 0).1 == v);
        assert(0 * stride(v.channels) == 0);
    }
}

/// A looping source is back at its first frame after one full pass over
/// its data, so it repeats the same frames forever.
pub proof fn law_loop_returns_to_start<S>(v: FileSourceView<S>)
    requires
        view_wf(v),
        v.looping,
        v.pos == 0,
        v.samples.len() > 0,
    ensures
        play(v, (v.samples.len() as int / stride(v.channels)) as nat).1 == v,
{
    let st = stride(v.channels);
    let m = v.samples.len() as int / st;
    assert(m >= 1 && m * st == v.samples.len()) by (nonlinear_arith)
        requires
            st == 1 || (st == 2 && v.samples.len() % 2 == 0),
            v.samples.len() > 0,
            m == v.samples.len() as int / st,
    ;
    assert((m - 1) * st < v.samples.len()) by (nonlinear_arith)
        requires
            m * st == v.samples.len(),
            st >= 1,
    ;
    lemma_loop_position(v, (m - 1) as nat);
    lemma_play_wf(v, (m - 1) as nat);
    assert((m - 1) * st + st == v.samples.len()) by (nonlinear_arith)
        requires
            m * st == v.samples.len(),
    ;
}

} // verus!
