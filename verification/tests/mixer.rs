use aire::mixer::{Command, Mixer};
use aire::sound::{Level, Playback, State};

fn sound() -> Playback<f32> {
    Playback::new(1.0f32, 0.5f32)
}

#[test]
fn per_sound_commands_reach_the_right_sound() {
    let mut m: Mixer<&str, f32> = Mixer::new(1.0);
    m.apply(Command::AddSound(1, sound(), "a"));
    m.apply(Command::AddSound(2, sound(), "b"));
    m.apply(Command::Pause(1));
    m.apply(Command::SetVolume(2, 0.5));
    m.apply(Command::SetPan(2, 0.0));
    let s = m.sources();
    assert_eq!(s.len(), 2);
    assert_eq!((s[0].0, s[0].1.state, s[0].2), (1, State::FadingToPause, "a"));
    assert_eq!(s[1].1.volume_target, Level::Gain(0.5));
    assert_eq!(s[1].1.pan_target, 0.0);
    assert_eq!(s[1].1.state, State::Playing);
}

#[test]
fn commands_for_unknown_sounds_are_ignored() {
    let mut m: Mixer<&str, f32> = Mixer::new(1.0);
    m.apply(Command::AddSound(1, sound(), "a"));
    m.apply(Command::Stop(7));
    m.apply(Command::AddToGroup(7, String::from("sfx")));
    assert_eq!(m.sources()[0].1.state, State::Playing);
    assert!(m.group(&String::from("sfx")).is_some());
    assert!(m.group_states_for(7).is_none());
}

#[test]
fn groups_keep_volume_and_balance_apart() {
    let mut m: Mixer<u8, f32> = Mixer::new(1.0);
    m.apply(Command::AddSound(3, sound(), 0));
    m.apply(Command::AddToGroup(3, String::from("music")));
    let g = m.group(&String::from("music")).unwrap();
    assert_eq!((g.volume, g.pan), (None, None));
    m.apply(Command::SetGroupVolume(String::from("music"), 0.5));
    m.apply(Command::SetGroupPan(String::from("music"), 0.25));
    m.apply(Command::SetGroupVolume(String::from("music"), 0.75));
    let g = m.group(&String::from("music")).unwrap();
    assert_eq!((g.volume, g.pan), (Some(0.75), Some(0.25)));
    m.apply(Command::AddToGroup(3, String::from("sfx")));
    m.apply(Command::AddToGroup(3, String::from("music")));
    let states = m.group_states_for(3).unwrap();
    assert_eq!(states.len(), 2);
    assert_eq!(states[0].volume, Some(0.75));
    assert_eq!(states[0].pan, Some(0.25));
    assert_eq!(states[1].volume, None);
}

#[test]
fn finished_sounds_are_dropped_with_their_groups() {
    let mut m: Mixer<u8, f32> = Mixer::new(0.5);
    m.apply(Command::AddSound(1, sound(), 10));
    m.apply(Command::AddSound(2, sound(), 20));
    m.apply(Command::AddToGroup(1, String::from("music")));
    m.apply(Command::AddToGroup(2, String::from("music")));
    m.apply(Command::Stop(1));
    assert!(m.remove_finished().is_empty());
    m.sources_mut()[0].1.silence_reached();
    assert_eq!(m.remove_finished(), vec![1]);
    assert_eq!(m.sources().len(), 1);
    assert_eq!(m.sources()[0].0, 2);
    assert!(m.group_states_for(1).is_none());
    assert!(m.group_states_for(2).is_some());
    assert!(m.group(&String::from("music")).is_some());
}

#[test]
fn master_volume_follows_command() {
    let mut m: Mixer<u8, f32> = Mixer::new(1.0);
    assert_eq!(m.master_volume(), 1.0);
    m.apply(Command::SetMasterVolume(0.25));
    assert_eq!(m.master_volume(), 0.25);
}

#[test]
fn commands_act_on_first_sound_with_id() {
    let mut m: Mixer<u8, f32> = Mixer::new(1.0);
    m.apply(Command::AddSound(5, sound(), 1));
    m.apply(Command::AddSound(5, sound(), 2));
    m.apply(Command::Stop(5));
    assert_eq!(m.sources()[0].1.state, State::FadingToStop);
    assert_eq!(m.sources()[1].1.state, State::Playing);
}

#[test]
fn pause_and_resume_through_mixer_restore_volume() {
    let mut m: Mixer<u8, f32> = Mixer::new(1.0);
    m.apply(Command::AddSound(4, Playback::new(0.5f32, 0.5f32), 0));
    m.apply(Command::Pause(4));
    m.sources_mut()[0].1.silence_reached();
    assert_eq!(m.sources()[0].1.state, State::Paused);
    m.apply(Command::Resume(4));
    assert_eq!(m.sources()[0].1.state, State::Playing);
    assert_eq!(m.sources()[0].1.volume_target, Level::Gain(0.5));
}

#[test]
fn adding_to_a_group_twice_counts_once() {
    let mut m: Mixer<u8, f32> = Mixer::new(1.0);
    m.apply(Command::AddSound(1, sound(), 0));
    m.apply(Command::AddToGroup(1, String::from("music")));
    m.apply(Command::SetGroupVolume(String::from("music"), 0.5));
    m.apply(Command::AddToGroup(1, String::from("music")));
    let states = m.group_states_for(1).unwrap();
    assert_eq!(states.len(), 1);
    assert_eq!(states[0].volume, Some(0.5));
}

#[test]
fn volume_change_after_stop_does_not_undo_it() {
    let mut m: Mixer<u8, f32> = Mixer::new(1.0);
    m.apply(Command::AddSound(1, sound(), 0));
    m.apply(Command::Stop(1));
    m.apply(Command::SetVolume(1, 2.0));
    assert_eq!(m.sources()[0].1.state, State::FadingToStop);
    assert_eq!(m.sources()[0].1.volume_target, Level::Silent);
    m.sources_mut()[0].1.silence_reached();
    assert_eq!(m.remove_finished(), vec![1]);
    assert!(m.sources().is_empty());
}
