use aire::engine::{command_result, DispatchRequest, Dispatcher, EngineConfig, GroupRequest, SoundRequest};
use aire::error::AireError;
use aire::mixer::Command;
use aire::sound::Playback;

#[test]
fn default_command_buffer_holds_256() {
    assert_eq!(EngineConfig::default().command_buffer_size, 256);
}

#[test]
fn sounds_get_fresh_ids_and_full_queue_is_reported() {
    let (tx, rx) = crossbeam_channel::bounded::<Command<u8, f32>>(1);
    let d = Dispatcher::new(tx);
    let h = d.add_sound(Playback::new(1.0, 0.5), 7).unwrap();
    assert_eq!(h.id(), 0);
    assert!(matches!(d.add_sound(Playback::new(1.0, 0.5), 8), Err(AireError::CommandBufferFull)));
    assert!(matches!(rx.try_recv(), Ok(Command::AddSound(0, _, 7))));
    let h2 = d.add_sound(Playback::new(1.0, 0.5), 9).unwrap();
    assert_eq!(h2.id(), 2);
    assert!(matches!(rx.try_recv(), Ok(Command::AddSound(2, _, 9))));
}

#[test]
fn handles_send_their_commands() {
    let (tx, rx) = crossbeam_channel::bounded::<Command<u8, f32>>(8);
    let d = Dispatcher::new(tx);
    let h = d.add_sound(Playback::new(1.0, 0.5), 1).unwrap();
    let g = d.group("music");
    assert_eq!(g.name(), "music");
    h.pause().unwrap();
    h.set_volume(0.5).unwrap();
    g.add(&h).unwrap();
    g.set_pan(0.25).unwrap();
    d.set_master_volume(0.75).unwrap();
    assert!(matches!(rx.try_recv(), Ok(Command::AddSound(0, _, 1))));
    assert!(matches!(rx.try_recv(), Ok(Command::Pause(0))));
    assert!(matches!(rx.try_recv(), Ok(Command::SetVolume(0, v)) if v == 0.5));
    assert!(matches!(rx.try_recv(), Ok(Command::AddToGroup(0, ref n)) if n == "music"));
    assert!(matches!(rx.try_recv(), Ok(Command::SetGroupPan(ref n, p)) if n == "music" && p == 0.25));
    assert!(matches!(rx.try_recv(), Ok(Command::SetMasterVolume(v)) if v == 0.75));
}

#[test]
fn closed_queue_is_reported_as_full() {
    let (tx, rx) = crossbeam_channel::bounded::<Command<u8, f32>>(8);
    drop(rx);
    let d = Dispatcher::new(tx);
    assert!(matches!(d.set_master_volume(1.0), Err(AireError::CommandBufferFull)));
    assert!(command_result::<u8>(Ok(())).is_ok());
}

#[test]
fn handles_build_the_commands_they_queue() {
    let (tx, _rx) = crossbeam_channel::bounded::<Command<u8, f32>>(8);
    let d = Dispatcher::new(tx);
    let h = d.submit(41, Playback::new(1.0, 0.5), 3).unwrap();
    assert_eq!(h.id(), 41);
    assert!(matches!(h.command(SoundRequest::Pause), Command::Pause(41)));
    assert!(matches!(h.command(SoundRequest::Stop), Command::Stop(41)));
    assert!(matches!(h.command(SoundRequest::SetPan(0.25)), Command::SetPan(41, p) if p == 0.25));
    let g = d.group("sfx");
    assert!(matches!(g.command(GroupRequest::Add(41)), Command::AddToGroup(41, ref n) if n == "sfx"));
    assert!(matches!(g.command(GroupRequest::SetVolume(0.5)), Command::SetGroupVolume(ref n, v) if n == "sfx" && v == 0.5));
}

#[test]
fn dispatcher_builds_the_commands_it_queues() {
    let (tx, rx) = crossbeam_channel::bounded::<Command<u8, f32>>(8);
    let d = Dispatcher::new(tx);
    assert!(matches!(d.command(DispatchRequest::Add(9, Playback::new(1.0, 0.5), 4)), Command::AddSound(9, _, 4)));
    assert!(matches!(d.command(DispatchRequest::MasterVolume(0.5)), Command::SetMasterVolume(v) if v == 0.5));
    let h = d.submit(12, Playback::new(1.0, 0.5), 6).unwrap();
    assert_eq!(h.id(), 12);
    assert!(matches!(rx.try_recv(), Ok(Command::AddSound(12, _, 6))));
}
