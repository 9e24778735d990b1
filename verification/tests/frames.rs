use aire::frames::{interleave_planar, take_front, write_interleaved};

#[test]
fn stereo_frames_fill_first_two_device_channels() {
    let mut data = [0i32; 7];
    write_interleaved(&mut data, 3, &[(1, 2), (3, 4)]);
    assert_eq!(data, [1, 2, 0, 3, 4, 0, 0]);
}

#[test]
fn mono_device_takes_left_channel() {
    let mut data = [0.0f32; 3];
    write_interleaved(&mut data, 1, &[(0.5, 0.25), (0.75, 1.0)]);
    assert_eq!(data, [0.5, 0.75, 0.0]);
}

#[test]
fn planar_packets_are_interleaved() {
    let packet = vec![vec![1, 2, 3], vec![4, 5, 6]];
    let mut out = vec![0];
    interleave_planar(&packet, 2, &mut out);
    assert_eq!(out, vec![0, 1, 4, 2, 5, 3, 6]);
    let mut first_only = Vec::new();
    interleave_planar(&packet, 1, &mut first_only);
    assert_eq!(first_only, vec![1, 2, 3]);
}

#[test]
fn take_front_moves_at_most_target() {
    let mut pending = vec![1, 2, 3, 4, 5];
    let mut out = vec![9];
    assert_eq!(take_front(&mut pending, &mut out, 3), 3);
    assert_eq!(out, vec![9, 1, 2, 3]);
    assert_eq!(pending, vec![4, 5]);
    assert_eq!(take_front(&mut pending, &mut out, 10), 2);
    assert_eq!(out, vec![9, 1, 2, 3, 4, 5]);
    assert!(pending.is_empty());
}
