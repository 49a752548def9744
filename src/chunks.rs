//! The three chunks of a PCM container: header, format descriptor and sample data.
use vstd::prelude::*;

verus! {

/// Largest `sample_rate × channels × channels` that a format may have: every size derived
/// from it then fits the container's 32-bit length fields.
pub const MAX_RATE_CHANNELS_SQUARED: u64 = 0x7fff_0000;

/// The `RIFF` header: its `file_length` is the total file length minus 8, unknown until
/// the data is written, and held at 0 in the model.
pub struct HeaderChunk {
    pub file_length: u32,
}

impl HeaderChunk {
    /// A header whose length field is still the placeholder 0.
    pub fn new() -> (r: HeaderChunk)
        ensures
            r.file_length == 0,
    {
        HeaderChunk { file_length: 0 }
    }
}

/// The `fmt ` chunk: a 16-byte descriptor of linear PCM.
pub struct FormatChunk {
    pub chunk_size: u32,
    pub tag: u16,
    pub channels: u16,
    pub samples_per_sec: u32,
    pub avg_bytes_per_sec: u32,
    pub block_align: u16,
    pub bits_per_sample: u16,
}

impl FormatChunk {
    /// Uncompressed 16-bit PCM with at least one channel and a positive sample rate, whose block alignment and byte
    /// rate are derived from the channel count, the bit depth and the sample rate.
    pub open spec fn wf(&self) -> bool {
        &&& self.chunk_size == 16
        &&& self.tag == 1
        &&& self.bits_per_sample == 16
        &&& self.channels >= 1
        &&& self.samples_per_sec >= 1
        &&& self.samples_per_sec * self.channels * self.channels <= MAX_RATE_CHANNELS_SQUARED
        &&& self.block_align == self.channels * (self.bits_per_sample / 8)
        &&& self.avg_bytes_per_sec == self.samples_per_sec * self.block_align
    }

    /// Number of samples in one second of audio: one per channel per frame.
    pub open spec fn sample_count(&self) -> nat {
        (self.samples_per_sec * self.channels) as nat
    }

    /// Two channels of 16-bit samples at 44100 Hz.
    pub fn new() -> (r: FormatChunk)
        ensures
            r.wf(),
            r.channels == 2,
            r.samples_per_sec == 44100,
            r.block_align == 4,
            r.avg_bytes_per_sec == 176400,
    {
        let channels: u16 = 2;
        let bits_per_sample: u16 = 16;
        let samples_per_sec: u32 = 44100;

        let block_align: u16 = channels * (bits_per_sample / 8);
        let avg_bytes_per_sec: u32 = samples_per_sec * block_align as u32;

        FormatChunk {
            chunk_size: 16,
            tag: 1,
            channels,
            samples_per_sec,
            avg_bytes_per_sec,
            block_align,
            bits_per_sample,
        }
    }
}

/// The `data` chunk: interleaved samples and their size in bytes.
pub struct DataChunk {
    pub chunk_size: usize,
    pub samples: Vec<i16>,
}

impl DataChunk {
    /// The size field is the byte length of the samples.
    pub open spec fn wf(&self) -> bool {
        self.chunk_size == self.samples@.len() * 2
    }

    /// An empty data chunk.
    pub fn new() -> (r: DataChunk)
        ensures
            r.wf(),
            r.samples@.len() == 0,
            r.chunk_size == 0,
    {
        DataChunk { chunk_size: 0, samples: Vec::new() }
    }
}

} // verus!
