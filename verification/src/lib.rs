//! Frost Studio's core engine logic: the MIDI sequencer and transport clock,
//! the ADSR stage machine, delay lines, interleaved sample access, the
//! instrument/plugin catalogues, the sample and VST3 browsers and the audio
//! device supervisor.

pub mod envelope;
pub mod channels;
pub mod sequencer;
pub mod transport;
pub mod delay_line;
pub mod frames;
pub mod instruments;
pub mod browser;
pub mod audio_engine;
pub mod sample_decoding;
pub mod presets;
