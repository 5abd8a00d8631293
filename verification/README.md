# frost-core

The engine core of Frost Studio, a digital audio workstation.

- `src/` is the verified library (Verus). It holds the decisions of the
  engine that do not compute on audio samples: the MIDI playlist and the
  sequencer that turns clock ticks into note-on / note-off events, the
  transport clock's tick position, the ADSR stage machine, the circular
  delay lines behind the delay and reverb effects, reading interleaved
  sample frames and placing clips on the timeline, the instrument and
  effect catalogues, the sample and VST3 browsers, the sample loader's
  packet policy and cache bound, and the audio-device supervisor.
- `app/` is the rest of the engine in ordinary Rust: the floating-point DSP
  (filters, oscillators, synthesizers, effects, mixer, limiter), decoding
  with symphonia, WAV export with hound, directory and VST3 scanning, the
  CPAL audio thread and the Tauri command layer.
- `tests/` exercises the library.
