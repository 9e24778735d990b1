//! Decisions of the streaming decoders and of the decode pool's workers.
//!
//! A streaming source reads from a ring buffer that a background worker
//! keeps filled: the decoder is first run until the buffer is half full,
//! then the worker decodes one chunk whenever a chunk fits, rewinding
//! looping streams at their end and retiring the others.
use vstd::prelude::*;

verus! {

/// Samples a stream's ring buffer holds.
pub const RING_BUF_SIZE: usize = 65_536;

/// Samples decoded per step.
pub const CHUNK_SIZE: usize = 2_048;

/// Whether registration should decode another chunk before handing the
/// stream to a worker: until the buffer is half full or the decoder ends.
pub fn should_prefill(occupied: usize, decoder_finished: bool) -> (b: bool)
    ensures
        b == (occupied < RING_BUF_SIZE / 2 && !decoder_finished),
{
    occupied < RING_BUF_SIZE / 2 && !decoder_finished
}

/// Whether a worker should decode a chunk for a stream in this pass: the
/// stream is still live and a whole chunk fits in its buffer.
pub fn wants_chunk(stream_finished: bool, vacant: usize) -> (b: bool)
    ensures
        b == (!stream_finished && vacant >= CHUNK_SIZE),
{
    !stream_finished && vacant >= CHUNK_SIZE
}

/// What a worker does after asking a stream's decoder for a chunk.
#[derive(Clone, Copy, Debug, PartialEq, Eq, Structural)]
pub enum ChunkOutcome {
    /// Decoding failed: nothing is queued and the stream is retired.
    Failed,
    /// Queue the chunk; the stream goes on.
    Continue,
    /// Queue the chunk and rewind the decoder to loop; if rewinding fails,
    /// the stream is retired.
    Rewind,
    /// Queue the chunk; the stream has ended and is retired.
    Finish,
}

/// What follows a decode attempt, given whether it succeeded, whether the
/// decoder has reached the end of its data, and whether the stream loops.
pub fn chunk_outcome(decoded: bool, decoder_finished: bool, looping: bool) -> (o: ChunkOutcome)
    ensures
        !decoded ==> o == ChunkOutcome::Failed,
        decoded && !decoder_finished ==> o == ChunkOutcome::Continue,
        decoded && decoder_finished && looping ==> o == ChunkOutcome::Rewind,
        decoded && decoder_finished && !looping ==> o == ChunkOutcome::Finish,
{
    if !decoded {
        ChunkOutcome::Failed
    } else if !decoder_finished {
        ChunkOutcome::Continue
    } else if looping {
        ChunkOutcome::Rewind
    } else {
        ChunkOutcome::Finish
    }
}

/// The worker that the `counter`-th registered stream goes to: streams are
/// dealt out to the workers in turn.
pub fn worker_for(counter: usize, workers: usize) -> (w: usize)
    requires
        workers > 0,
    ensures
        w == counter % workers,
        w < workers,
{
    counter % workers
}

/// A decoder that delivered fewer samples than asked for has reached the
/// end of its data.
pub fn chunk_reached_end(written: usize, target: usize) -> (b: bool)
    ensures
        b == (written < target),
{
    written < target
}

/// Dealing streams out in turn gives consecutive streams to different
/// workers, and every worker gets one stream in each round.
pub proof fn law_round_robin(counter: int, workers: int)
    requires
        counter >= 0,
        workers > 1,
    ensures
        (counter + 1) % workers != counter % workers,
        (counter + workers) % workers == counter % workers,
{
    vstd::arithmetic::div_mod::lemma_add_mod_noop(counter, 1, workers);
    vstd::arithmetic::div_mod::lemma_mod_add_multiples_vanish(counter, workers);
    vstd::arithmetic::div_mod::lemma_mod_bound(counter, workers);
    vstd::arithmetic::div_mod::lemma_small_mod(1, workers as nat);
    let r = counter % workers;
    if r + 1 < workers {
        vstd::arithmetic::div_mod::lemma_small_mod((r + 1) as nat, workers as nat);
    } else {
        vstd::arithmetic::div_mod::lemma_mod_self_0(workers);
    }
}

} // verus!
