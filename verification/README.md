# aire

A real-time audio engine for games and interactive applications: sounds from
files or oscillators, smoothed volume and pan, pause/resume/stop with fades,
ADSR envelopes, named groups with their own volume and balance, and streaming
decode on background threads.

The repository has two parts.

- `src/` is the verified library, written in Verus. It holds the engine's
  control logic: the playback state machine of a sound, the ADSR envelope's
  segment timing, the playhead of in-memory file sources (mono/stereo,
  looping), the sample clock of synthesized tones, the mixer's routing tables
  and the commands that change them, the commands that the engine's
  handles build (whether the bounded queue accepts one is up to the queue
  and the audio thread, and is only reported), file-format selection,
  sample layout conversions, and the decisions of the streaming decoders
  and decode workers. Every public
  function has a contract, and the properties that span functions (pausing
  and resuming restores the volume, a sound is paused exactly when a pause
  has not been undone, stopped sounds stay stopped and are dropped with their
  group memberships, a group applies to a sound once, looping sources
  repeat, envelopes last exactly their configured length, ...) are proved
  as lemmas.
  Sample and gain values are type parameters there: the library carries them
  but never computes on them.
- `app/` is the runtime around it: the output device (cpal), file decoding
  (hound, lewton, claxon), resampling (rubato), waveform synthesis, the
  floating-point rendering of volume, pan, envelopes and group gains, and the
  decode worker threads with their ring buffers (ringbuf).

`tests/` exercises the library on concrete values.
