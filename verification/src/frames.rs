//! Moving samples between layouts: planar decoder output to interleaved
//! buffers, stereo frames to a device's interleaved channels, and the
//! hand-off of decoded samples in chunks.
use vstd::prelude::*;

verus! {

/// Sample `c` of every frame `k < frames` of `data` is `frames_seq[k]`'s
/// left sample if `c == 0` and its right sample if `c == 1`.
pub open spec fn frames_written<T>(data: Seq<T>, channels: int, frames: Seq<(T, T)>) -> bool {
    forall|k: int|
        0 <= k < frames.len() ==> {
            &&& #[trigger] data[k * channels] == frames[k].0
            &&& channels >= 2 ==> data[k * channels + 1] == frames[k].1
        }
}

/// Position `i` is the left or right sample of one of the first `n` frames.
pub open spec fn is_written(i: int, channels: int, n: int) -> bool {
    exists|k: int|
        0 <= k < n && (i == #[trigger] (k * channels) || (channels >= 2 && i == k * channels + 1))
}

proof fn lemma_frame_positions_apart(k1: int, k2: int, channels: int)
    requires
        0 <= k1 < k2,
        channels >= 1,
    ensures
        k1 * channels + channels <= k2 * channels,
{
    assert(k1 * channels + channels <= k2 * channels) by (nonlinear_arith)
        requires
            k1 < k2,
            channels >= 1,
    ;
}

/// Writes stereo frames into an interleaved device buffer with `channels`
/// channels per frame: the left sample into the first channel and, if there
/// is one, the right sample into the second. Other channels are left as
/// they are.
pub fn write_interleaved<T: Copy>(data: &mut [T], channels: usize, frames: &[(T, T)])
    requires
        channels > 0,
        frames@.len() * channels <= old(data)@.len(),
    ensures
        final(data)@.len() == old(data)@.len(),
        frames_written(final(data)@, channels as int, frames@),
        forall|i: int|
            0 <= i < old(data)@.len() && !is_written(i, channels as int, frames@.len() as int)
                ==> final(data)@[i] == old(data)@[i],
{
    let n = frames.len();
    let ghost ch = channels as int;
    let ghost start = data@;
    let mut k: usize = 0;
    let mut base: usize = 0;
    while k < n
        invariant
            k <= n,
            n == frames@.len(),
            ch == channels as int,
            channels > 0,
            n * ch <= start.len(),
            data@.len() == start.len(),
            base == k * ch,
            frames_written(data@, ch, frames@.take(k as int)),
            forall|i: int|
                0 <= i < start.len() && !is_written(i, ch, k as int) ==> data@[i] == start[i],
        decreases n - k,
    {
        assert(base + ch <= n * ch) by (nonlinear_arith)
            requires
                base == k * ch,
                k < n,
                ch > 0,
        ;
        let ghost before = data@;
        let (left, right) = frames[k];
        data[base] = left;
        if channels >= 2 {
            data[base + 1] = right;
        }
        proof {
            let fk = frames@.take(k + 1);
            assert forall|j: int| 0 <= j < fk.len() implies {
                &&& #[trigger] data@[j * ch] == fk[j].0
                &&& ch >= 2 ==> data@[j * ch + 1] == fk[j].1
            } by {
                if j < k {
                    lemma_frame_positions_apart(j, k as int, ch);
                    assert(frames@.take(k as int)[j] == fk[j]);
                    assert(before[j * ch] == fk[j].0);
                } else {
                    assert(j == k);
                }
            }
            assert forall|i: int|
                0 <= i < start.len() && !is_written(i, ch, k + 1) implies data@[i] == start[i] by {
                if is_written(i, ch, k as int) {
                    let j = choose|j: int|
                        0 <= j < k && (i == #[trigger] (j * ch) || (ch >= 2 && i == j * ch + 1));
                    assert(is_written(i, ch, k + 1));
                }
                assert(i != k * ch);
                assert(ch >= 2 ==> i != k * ch + 1);
            }
        }
        k = k + 1;
        base = base + channels;
        assert(base == k * ch) by (nonlinear_arith)
            requires
                base == (k - 1) * ch + ch,
        ;
    }
    assert(frames@.take(n as int) =~= frames@);
}

/// Planar samples of the first `frames` frames, interleaved: frame by
/// frame, channel by channel.
pub open spec fn interleaved<T>(planes: Seq<Seq<T>>, channels: int, frames: int) -> Seq<T>
    decreases frames,
{
    if frames <= 0 {
        Seq::empty()
    } else {
        interleaved(planes, channels, frames - 1) + Seq::new(
            channels as nat,
            |c: int| planes[c][frames - 1],
        )
    }
}

/// Sample `c` of frame `k` lands at position `k * channels + c`.
pub proof fn law_interleaved_position<T>(planes: Seq<Seq<T>>, channels: int, frames: int, k: int, c: int)
    requires
        channels >= 0,
        0 <= k < frames,
        0 <= c < channels,
    ensures
        interleaved(planes, channels, frames).len() == frames * channels,
        interleaved(planes, channels, frames)[k * channels + c] == planes[c][k],
    decreases frames,
{
    lemma_interleaved_len(planes, channels, frames);
    lemma_interleaved_len(planes, channels, frames - 1);
    if k < frames - 1 {
        law_interleaved_position(planes, channels, frames - 1, k, c);
        assert(k * channels + c < (frames - 1) * channels) by (nonlinear_arith)
            requires
                0 <= k < frames - 1,
                0 <= c < channels,
        ;
    } else {
        assert(k * channels == (frames - 1) * channels);
    }
}

/// Interleaving `frames` frames gives `frames * channels` samples.
pub proof fn lemma_interleaved_len<T>(planes: Seq<Seq<T>>, channels: int, frames: int)
    requires
        channels >= 0,
    ensures
        frames >= 0 ==> interleaved(planes, channels, frames).len() == frames * channels,
    decreases frames,
{
    if frames > 0 {
        lemma_interleaved_len(planes, channels, frames - 1);
        assert((frames - 1) * channels + channels == frames * channels) by (nonlinear_arith);
    } else if frames == 0 {
        assert(frames * channels == 0);
    }
}

/// Appends a decoded packet of planar channels to `out` in interleaved
/// order. The packet's first channel sets the number of frames; the first
/// `channels` channels are used.
pub fn interleave_planar<T: Copy>(packet: &Vec<Vec<T>>, channels: usize, out: &mut Vec<T>)
    requires
        packet@.len() > 0,
        channels <= packet@.len(),
        forall|c: int| 0 <= c < channels ==> #[trigger] packet@[c]@.len() >= packet@[0]@.len(),
    ensures
        final(out)@ == old(out)@ + interleaved(
            packet@.map_values(|p: Vec<T>| p@),
            channels as int,
            packet@[0]@.len() as int,
        ),
{
    let ghost planes = packet@.map_values(|p: Vec<T>| p@);
    let frames = packet[0].len();
    let mut i: usize = 0;
    while i < frames
        invariant
            i <= frames,
            frames == packet@[0]@.len(),
            channels <= packet@.len(),
            planes == packet@.map_values(|p: Vec<T>| p@),
            forall|c: int| 0 <= c < channels ==> #[trigger] packet@[c]@.len() >= frames,
            out@ == old(out)@ + interleaved(planes, channels as int, i as int),
        decreases frames - i,
    {
        let ghost row_start = out@;
        let mut c: usize = 0;
        while c < channels
            invariant
                i < frames,
                c <= channels,
                frames == packet@[0]@.len(),
                channels <= packet@.len(),
                planes == packet@.map_values(|p: Vec<T>| p@),
                forall|c: int| 0 <= c < channels ==> #[trigger] packet@[c]@.len() >= frames,
                out@ == row_start + Seq::new(c as nat, |j: int| planes[j][i as int]),
            decreases channels - c,
        {
            assert(packet@[c as int]@.len() >= frames);
            out.push(packet[c][i]);
            assert(out@ =~= row_start + Seq::new((c + 1) as nat, |j: int| planes[j][i as int]));
            c = c + 1;
        }
        assert(interleaved(planes, channels as int, i + 1) == interleaved(planes, channels as int, i as int)
            + Seq::new(channels as nat, |j: int| planes[j][(i + 1) - 1]));
        assert(Seq::new(channels as nat, |j: int| planes[j][(i + 1) - 1]) =~= Seq::new(
            channels as nat,
            |j: int| planes[j][i as int],
        ));
        i = i + 1;
    }
}

/// Moves up to `target` samples from the front of `pending` to the end of
/// `out`, and returns how many it moved.
pub fn take_front<T: Copy>(pending: &mut Vec<T>, out: &mut Vec<T>, target: usize) -> (taken: usize)
    ensures
        taken == if old(pending)@.len() < target {
            old(pending)@.len() as int
        } else {
            target as int
        },
        final(out)@ == old(out)@ + old(pending)@.take(taken as int),
        final(pending)@ == old(pending)@.skip(taken as int),
{
    let len = pending.len();
    let take = if len < target {
        len
    } else {
        target
    };
    let ghost src = pending@;
    let ghost out0 = out@;
    let mut i: usize = 0;
    while i < take
        invariant
            i <= take,
            take <= len,
            len == src.len(),
            pending@ == src,
            out@ == out0 + src.take(i as int),
        decreases take - i,
    {
        out.push(pending[i]);
        assert(src.take(i + 1) =~= src.take(i as int).push(src[i as int]));
        i = i + 1;
    }
    let mut rest: Vec<T> = Vec::new();
    let mut j: usize = take;
    while j < len
        invariant
            take <= j <= len,
            len == src.len(),
            pending@ == src,
            rest@ == src.subrange(take as int, j as int),
        decreases len - j,
    {
        rest.push(pending[j]);
        assert(src.subrange(take as int, j + 1) =~= src.subrange(take as int, j as int).push(
            src[j as int],
        ));
        j = j + 1;
    }
    assert(src.subrange(take as int, len as int) =~= src.skip(take as int));
    *pending = rest;
    take
}

} // verus!
