use aire::file::FileSource;

#[test]
fn mono_duplicates_to_both_channels() {
    let mut src = FileSource::from_samples(vec![0.5, 0.8], 1);
    let mut buf = [(0.0f32, 0.0f32); 2];
    src.fill_buffer(&mut buf);
    assert_eq!(buf[0], (0.5, 0.5));
    assert_eq!(buf[1], (0.8, 0.8));
}

#[test]
fn stereo_reads_interleaved_pairs() {
    let mut src = FileSource::from_samples(vec![0.1, 0.2, 0.3, 0.4], 2);
    let mut buf = [(0.0f32, 0.0f32); 2];
    src.fill_buffer(&mut buf);
    assert_eq!(buf[0], (0.1, 0.2));
    assert_eq!(buf[1], (0.3, 0.4));
}

#[test]
fn finishes_when_exhausted() {
    let mut src = FileSource::from_samples(vec![0.5], 1);
    let mut buf = [(0.0f32, 0.0f32); 1];
    src.fill_buffer(&mut buf);
    assert!(src.is_finished());
}

#[test]
fn looping_wraps_and_never_finishes() {
    let mut src = FileSource::from_samples(vec![0.1, 0.2], 1).looping();
    let mut buf = [(0.0f32, 0.0f32); 1];
    src.fill_buffer(&mut buf);
    src.fill_buffer(&mut buf);
    src.fill_buffer(&mut buf);
    let (l, _) = buf[0];
    assert!((l - 0.1).abs() < 0.001);
    assert!(!src.is_finished());
}

#[test]
fn frames_past_the_end_are_silent() {
    let mut src = FileSource::from_samples(vec![0.25f32, 0.75], 2);
    let mut buf = [(9.0f32, 9.0f32); 3];
    src.fill_buffer(&mut buf);
    assert_eq!(buf, [(0.25, 0.75), (0.0, 0.0), (0.0, 0.0)]);
    assert!(src.is_finished());
}

#[test]
fn looping_stereo_repeats_after_one_pass() {
    let mut src = FileSource::from_samples(vec![1i32, 2, 3, 4], 2).looping();
    let mut buf = [(0i32, 0i32); 5];
    src.fill_buffer(&mut buf);
    assert_eq!(buf, [(1, 2), (3, 4), (1, 2), (3, 4), (1, 2)]);
    assert!(!src.is_finished());
}

#[test]
fn more_than_two_channels_read_one_sample_per_frame() {
    let mut src = FileSource::from_samples(vec![1u8, 2, 3], 3);
    assert_eq!(src.channels(), 3);
    assert_eq!(src.next_frame(), (1, 1));
    assert_eq!(src.next_frame(), (2, 2));
    assert_eq!(src.next_frame(), (3, 3));
    assert_eq!(src.next_frame(), (0, 0));
}

#[test]
fn empty_looping_source_is_silent_and_never_finishes() {
    let mut src = FileSource::<f32>::from_samples(Vec::new(), 1).looping();
    let mut buf = [(1.0f32, 1.0f32); 2];
    src.fill_buffer(&mut buf);
    assert_eq!(buf, [(0.0, 0.0), (0.0, 0.0)]);
    assert!(!src.is_finished());
}
