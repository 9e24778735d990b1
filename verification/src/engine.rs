//! The control side of the engine: handing commands to the audio thread
//! over a bounded queue, and the handles that control sounds and groups.
use vstd::prelude::*;

use crossbeam_channel::{Sender, TrySendError};
use std::sync::atomic::{AtomicU64, Ordering};

use crate::error::AireError;
use crate::mixer::{Command, SoundId};
use crate::sound::Playback;

verus! {

#[verifier::external_type_specification]
#[verifier::external_body]
#[verifier::reject_recursive_types(T)]
pub struct ExSender<T>(Sender<T>);

#[verifier::external_type_specification]
#[verifier::external_body]
#[verifier::reject_recursive_types(T)]
pub struct ExTrySendError<T>(TrySendError<T>);

/// Calls `crossbeam_channel::Sender::try_send`. Whether the message is
/// queued depends on how full the queue is and on whether the receiver is
/// still there, so nothing is claimed about the outcome.
#[verifier::external_body]
fn try_send<T>(tx: &Sender<T>, msg: T) -> Result<(), TrySendError<T>> {
    tx.try_send(msg)
}

/// Calls `Sender::clone`: another sender on the same queue. Verus sees
/// nothing inside a sender, so nothing is claimed about it.
#[verifier::external_body]
fn clone_sender<T>(tx: &Sender<T>) -> Sender<T> {
    tx.clone()
}

/// Configuration for the audio engine.
pub struct EngineConfig {
    /// Size of the lock-free command queue between the main thread and the
    /// audio thread. Each call to `add_sound`, `set_volume`, etc. consumes
    /// one slot. Returns [`AireError::CommandBufferFull`] when the queue is
    /// full. Increase this if your game sends many commands in a single frame.
    /// Default: `256`.
    pub command_buffer_size: usize,
}

impl Default for EngineConfig {
    fn default() -> (c: Self)
        ensures
            c.command_buffer_size == 256,
    {
        EngineConfig { command_buffer_size: 256 }
    }
}

/// What a user learns from an attempt to queue a command: success, or that
/// the queue could not take it.
pub fn command_result<T>(sent: Result<(), TrySendError<T>>) -> (r: Result<(), AireError>)
    ensures
        r is Ok <==> sent is Ok,
        r is Err ==> r matches Err(AireError::CommandBufferFull),
{
    match sent {
        Ok(()) => Ok(()),
        Err(_) => Err(AireError::CommandBufferFull),
    }
}

/// Queues `cmd` for the audio thread.
fn send<V, G>(tx: &Sender<Command<V, G>>, cmd: Command<V, G>) -> (r: Result<(), AireError>)
    ensures
        r is Err ==> r matches Err(AireError::CommandBufferFull),
{
    command_result(try_send(tx, cmd))
}

/// A request about one sound, as its handle makes it.
pub enum SoundRequest<G> {
    Pause,
    Resume,
    Stop,
    SetVolume(G),
    SetPan(G),
}

/// The command that a request about sound `id` becomes.
pub open spec fn sound_command<V, G>(id: SoundId, request: SoundRequest<G>) -> Command<V, G> {
    match request {
        SoundRequest::Pause => Command::Pause(id),
        SoundRequest::Resume => Command::Resume(id),
        SoundRequest::Stop => Command::Stop(id),
        SoundRequest::SetVolume(g) => Command::SetVolume(id, g),
        SoundRequest::SetPan(g) => Command::SetPan(id, g),
    }
}

/// Each request about a sound becomes the command of the same name for that
/// sound, so different requests never become the same command.
pub proof fn law_sound_requests_keep_their_meaning<V, G>(id: SoundId, a: SoundRequest<G>, b: SoundRequest<G>)
    ensures
        sound_command::<V, G>(id, SoundRequest::Pause) == Command::<V, G>::Pause(id),
        sound_command::<V, G>(id, SoundRequest::Resume) == Command::<V, G>::Resume(id),
        sound_command::<V, G>(id, SoundRequest::Stop) == Command::<V, G>::Stop(id),
        a != b ==> sound_command::<V, G>(id, a) != sound_command::<V, G>(id, b),
{
}

/// A request about one group, as its handle makes it.
pub enum GroupRequest<G> {
    /// Add the sound with this id to the group.
    Add(SoundId),
    SetVolume(G),
    SetPan(G),
}

/// `c` is the command that a request about the group named `name` becomes.
pub open spec fn is_group_command<V, G>(c: Command<V, G>, name: Seq<char>, request: GroupRequest<G>) -> bool {
    match request {
        GroupRequest::Add(id) => c matches Command::AddToGroup(i, n) && i == id && n@ == name,
        GroupRequest::SetVolume(g) => c matches Command::SetGroupVolume(n, v) && n@ == name && v == g,
        GroupRequest::SetPan(g) => c matches Command::SetGroupPan(n, v) && n@ == name && v == g,
    }
}

/// A request that the engine makes of the audio thread.
pub enum DispatchRequest<V, G> {
    /// Start mixing sound `id` with this playback control and renderer.
    Add(SoundId, Playback<G>, V),
    /// Set the master volume to this linear gain.
    MasterVolume(G),
}

/// The command that an engine request becomes.
pub open spec fn dispatch_command<V, G>(request: DispatchRequest<V, G>) -> Command<V, G> {
    match request {
        DispatchRequest::Add(id, playback, renderer) => Command::AddSound(id, playback, renderer),
        DispatchRequest::MasterVolume(g) => Command::SetMasterVolume(g),
    }
}

/// Submits sounds and engine-wide settings to the audio thread. It is safe
/// to use from any thread.
#[verifier::reject_recursive_types(V)]
#[verifier::reject_recursive_types(G)]
pub struct Dispatcher<V, G> {
    tx: Sender<Command<V, G>>,
    next_id: AtomicU64,
}

impl<V, G> Dispatcher<V, G> {
    /// The queue that the dispatcher sends its commands over.
    pub closed spec fn sender(&self) -> Sender<Command<V, G>> {
        self.tx
    }

    /// A dispatcher that sends its commands over `tx`; sound ids start at 0.
    pub fn new(tx: Sender<Command<V, G>>) -> (d: Self)
        ensures
            d.sender() == tx,
    {
        Dispatcher { tx, next_id: AtomicU64::new(0) }
    }

    /// The command that `request` becomes.
    pub fn command(&self, request: DispatchRequest<V, G>) -> (c: Command<V, G>)
        ensures
            c == dispatch_command(request),
    {
        match request {
            DispatchRequest::Add(id, playback, renderer) => Command::AddSound(id, playback, renderer),
            DispatchRequest::MasterVolume(g) => Command::SetMasterVolume(g),
        }
    }

    /// Submits a sound for playback and returns a handle for controlling it.
    /// Returns [`AireError::CommandBufferFull`] if the command queue is full.
    pub fn add_sound(&self, playback: Playback<G>, renderer: V) -> (r: Result<SoundHandle<V, G>, AireError>)
        ensures
            r is Err ==> r matches Err(AireError::CommandBufferFull),
    {
        let id = self.next_id.fetch_add(1, Ordering::Relaxed);
        self.submit(id, playback, renderer)
    }

    /// Queues `AddSound(id, playback, renderer)`, built by
    /// [`Dispatcher::command`], and, if the queue takes it,
    /// returns a handle for sound `id`. Returns
    /// [`AireError::CommandBufferFull`] if the command queue is full.
    pub fn submit(&self, id: SoundId, playback: Playback<G>, renderer: V) -> (r: Result<SoundHandle<V, G>, AireError>)
        ensures
            r matches Ok(h) ==> h.id_spec() == id,
            r is Err ==> r matches Err(AireError::CommandBufferFull),
    {
        match send(&self.tx, self.command(DispatchRequest::Add(id, playback, renderer))) {
            Ok(()) => Ok(SoundHandle { id, tx: clone_sender(&self.tx) }),
            Err(e) => Err(e),
        }
    }

    /// Sets the master volume to the linear gain `gain`: queues
    /// `SetMasterVolume(gain)`, built by [`Dispatcher::command`]. Applied
    /// after all group and per-sound volumes.
    pub fn set_master_volume(&self, gain: G) -> (r: Result<(), AireError>)
        ensures
            r is Err ==> r matches Err(AireError::CommandBufferFull),
    {
        send(&self.tx, self.command(DispatchRequest::MasterVolume(gain)))
    }

    /// Returns a handle for the group named `name`; the group is created on
    /// the audio thread when it is first used.
    pub fn group(&self, name: &str) -> (g: GroupHandle<V, G>)
        ensures
            g.name_spec() == name@,
    {
        GroupHandle { name: String::from_str(name), tx: clone_sender(&self.tx) }
    }
}

/// A handle for controlling a sound after it has been added to the engine.
/// All methods return [`AireError::CommandBufferFull`] if the command queue
/// is full.
#[verifier::reject_recursive_types(V)]
#[verifier::reject_recursive_types(G)]
pub struct SoundHandle<V, G> {
    id: SoundId,
    tx: Sender<Command<V, G>>,
}

impl<V, G> SoundHandle<V, G> {
    pub closed spec fn id_spec(&self) -> SoundId {
        self.id
    }

    /// The id of the sound this handle controls.
    pub fn id(&self) -> (id: SoundId)
        ensures
            id == self.id_spec(),
    {
        self.id
    }

    /// The command that `request` becomes for this handle's sound.
    pub fn command(&self, request: SoundRequest<G>) -> (c: Command<V, G>)
        ensures
            c == sound_command::<V, G>(self.id_spec(), request),
    {
        match request {
            SoundRequest::Pause => Command::Pause(self.id),
            SoundRequest::Resume => Command::Resume(self.id),
            SoundRequest::Stop => Command::Stop(self.id),
            SoundRequest::SetVolume(g) => Command::SetVolume(self.id, g),
            SoundRequest::SetPan(g) => Command::SetPan(self.id, g),
        }
    }

    /// Pauses playback: queues `Pause(id)`.
    pub fn pause(&self) -> (r: Result<(), AireError>)
        ensures
            r is Err ==> r matches Err(AireError::CommandBufferFull),
    {
        send(&self.tx, self.command(SoundRequest::Pause))
    }

    /// Resumes playback: queues `Resume(id)`.
    pub fn resume(&self) -> (r: Result<(), AireError>)
        ensures
            r is Err ==> r matches Err(AireError::CommandBufferFull),
    {
        send(&self.tx, self.command(SoundRequest::Resume))
    }

    /// Stops playback and removes the sound from the mixer: queues
    /// `Stop(id)`.
    pub fn stop(&self) -> (r: Result<(), AireError>)
        ensures
            r is Err ==> r matches Err(AireError::CommandBufferFull),
    {
        send(&self.tx, self.command(SoundRequest::Stop))
    }

    /// Sets the volume to the linear gain `gain`: queues
    /// `SetVolume(id, gain)`.
    pub fn set_volume(&self, gain: G) -> (r: Result<(), AireError>)
        ensures
            r is Err ==> r matches Err(AireError::CommandBufferFull),
    {
        send(&self.tx, self.command(SoundRequest::SetVolume(gain)))
    }

    /// Sets the pan (already limited to `0.0..=1.0`): queues
    /// `SetPan(id, pan)`.
    pub fn set_pan(&self, pan: G) -> (r: Result<(), AireError>)
        ensures
            r is Err ==> r matches Err(AireError::CommandBufferFull),
    {
        send(&self.tx, self.command(SoundRequest::SetPan(pan)))
    }
}

/// A handle for controlling a group of sounds by category (e.g. `"music"`,
/// `"sfx"`). All methods return [`AireError::CommandBufferFull`] if the
/// command queue is full.
#[verifier::reject_recursive_types(V)]
#[verifier::reject_recursive_types(G)]
pub struct GroupHandle<V, G> {
    name: String,
    tx: Sender<Command<V, G>>,
}

impl<V, G> GroupHandle<V, G> {
    pub closed spec fn name_spec(&self) -> Seq<char> {
        self.name@
    }

    /// The name of the group.
    pub fn name(&self) -> (n: &String)
        ensures
            n@ == self.name_spec(),
    {
        &self.name
    }

    /// The command that `request` becomes for this group.
    pub fn command(&self, request: GroupRequest<G>) -> (c: Command<V, G>)
        ensures
            is_group_command(c, self.name_spec(), request),
    {
        match request {
            GroupRequest::Add(id) => Command::AddToGroup(id, self.name.clone()),
            GroupRequest::SetVolume(g) => Command::SetGroupVolume(self.name.clone(), g),
            GroupRequest::SetPan(g) => Command::SetGroupPan(self.name.clone(), g),
        }
    }

    /// Adds a sound to this group: queues `AddToGroup(sound id, name)`.
    /// Silently ignored if the sound has already finished.
    pub fn add(&self, sound: &SoundHandle<V, G>) -> (r: Result<(), AireError>)
        ensures
            r is Err ==> r matches Err(AireError::CommandBufferFull),
    {
        send(&self.tx, self.command(GroupRequest::Add(sound.id)))
    }

    /// Sets the group volume to the linear gain `gain`: queues
    /// `SetGroupVolume(name, gain)`.
    pub fn set_volume(&self, gain: G) -> (r: Result<(), AireError>)
        ensures
            r is Err ==> r matches Err(AireError::CommandBufferFull),
    {
        send(&self.tx, self.command(GroupRequest::SetVolume(gain)))
    }

    /// Sets the group stereo balance (already limited to `0.0..=1.0`):
    /// queues `SetGroupPan(name, pan)`.
    pub fn set_pan(&self, pan: G) -> (r: Result<(), AireError>)
        ensures
            r is Err ==> r matches Err(AireError::CommandBufferFull),
    {
        send(&self.tx, self.command(GroupRequest::SetPan(pan)))
    }

    /// Another handle for the same group.
    pub fn duplicate(&self) -> (g: Self)
        ensures
            g.name_spec() == self.name_spec(),
    {
        GroupHandle { name: self.name.clone(), tx: clone_sender(&self.tx) }
    }
}

} // verus!
