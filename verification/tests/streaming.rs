use aire::streaming::{
    chunk_outcome, chunk_reached_end, should_prefill, wants_chunk, worker_for, ChunkOutcome,
    CHUNK_SIZE, RING_BUF_SIZE,
};

#[test]
fn prefill_until_half_full() {
    assert!(should_prefill(0, false));
    assert!(should_prefill(RING_BUF_SIZE / 2 - 1, false));
    assert!(!should_prefill(RING_BUF_SIZE / 2, false));
    assert!(!should_prefill(0, true));
}

#[test]
fn worker_waits_for_room() {
    assert!(wants_chunk(false, CHUNK_SIZE));
    assert!(!wants_chunk(false, CHUNK_SIZE - 1));
    assert!(!wants_chunk(true, RING_BUF_SIZE));
}

#[test]
fn outcomes_after_decoding() {
    assert_eq!(chunk_outcome(false, true, true), ChunkOutcome::Failed);
    assert_eq!(chunk_outcome(true, false, false), ChunkOutcome::Continue);
    assert_eq!(chunk_outcome(true, true, true), ChunkOutcome::Rewind);
    assert_eq!(chunk_outcome(true, true, false), ChunkOutcome::Finish);
}

#[test]
fn streams_are_dealt_round_robin() {
    let picks: Vec<usize> = (0..5).map(|c| worker_for(c, 2)).collect();
    assert_eq!(picks, vec![0, 1, 0, 1, 0]);
    assert_eq!(worker_for(7, 1), 0);
}

#[test]
fn short_chunk_means_end() {
    assert!(chunk_reached_end(10, CHUNK_SIZE));
    assert!(!chunk_reached_end(CHUNK_SIZE, CHUNK_SIZE));
}
