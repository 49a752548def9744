//! Synthesis of one second of 16-bit PCM audio and its encoding as a RIFF/WAVE file.
//!
//! A [`WaveGenerator`] holds the three chunks of a file. [`WaveGenerator::generate`] fills
//! the data chunk with a waveform, and [`WaveGenerator::encode`] lays the chunks out as the
//! bytes of the file, patching the header's length field once the whole stream is known.
pub mod bytes;
pub mod chunks;
pub mod encoder;
pub mod generator;

pub use chunks::{DataChunk, FormatChunk, HeaderChunk};
pub use generator::{WaveGenerator, WaveType, AMPLITUDE, FREQUENCY_HZ};
