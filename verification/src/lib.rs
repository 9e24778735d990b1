//! Control plane of a real-time audio engine: envelope and playback state
//! machines, file-source playheads, the mixer's routing tables, the command
//! protocol between the control thread and the audio thread, and the
//! bookkeeping of streaming decoders.
//!
//! Sample and gain values are carried through this crate as type parameters;
//! the crate moves them around but never computes on them.

pub mod utils;
pub mod sound;
pub mod assoc;
pub mod mixer;
pub mod adsr;
pub mod file;
pub mod error;
pub mod format;
pub mod engine;
pub mod oscillator;
pub mod frames;
pub mod streaming;
