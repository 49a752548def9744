//! Filling the data chunk with one second of a chosen waveform.
use crate::chunks::{DataChunk, FormatChunk, HeaderChunk, MAX_RATE_CHANNELS_SQUARED};
use rand::Rng;
use vstd::prelude::*;

verus! {

/// Peak sample value of every waveform, a little below the 16-bit limit.
pub const AMPLITUDE: i16 = 32760;

/// Frequency of the sine tone in Hz (concert A).
pub const FREQUENCY_HZ: u32 = 440;

/// The waveform kinds that can be asked for. Square, sawtooth and triangle are accepted
/// and produce no samples.
#[derive(PartialEq, Eq, Structural, Clone, Copy, Debug)]
pub enum WaveType {
    Sine,
    Square,
    Sawtooth,
    Triangle,
    White,
}

/// Every value of `s` lies within `[-AMPLITUDE, AMPLITUDE]`.
pub open spec fn within_amplitude(s: Seq<i16>) -> bool {
    forall|k: int| 0 <= k < s.len() ==> -AMPLITUDE <= #[trigger] s[k] <= AMPLITUDE
}

/// Number of sample indices that the sine generator visits: all but the last
/// `channels - 1` of the `sample_count` indices.
pub open spec fn sine_steps(format: FormatChunk) -> nat {
    (format.sample_count() - (format.channels - 1)) as nat
}

/// The sine output: for each visited index `i`, the level `tone[i]` once per channel.
pub open spec fn sine_samples(tone: Seq<i16>, channels: nat, steps: nat) -> Seq<i16> {
    Seq::new(steps * channels, |k: int| tone[k / channels as int])
}

/// In the sine output every channel slot of a frame carries the same value: the tone's
/// level at that frame's index.
pub proof fn lemma_sine_channels_agree(tone: Seq<i16>, channels: nat, steps: nat, i: int, ch: int)
    requires
        channels >= 1,
        0 <= i < steps,
        0 <= ch < channels,
    ensures
        i * channels + ch < sine_samples(tone, channels, steps).len(),
        sine_samples(tone, channels, steps)[i * channels + ch] == tone[i],
        sine_samples(tone, channels, steps)[i * channels + ch] == sine_samples(
            tone,
            channels,
            steps,
        )[i * channels],
{
    let c = channels as int;
    lemma_frame_index(i, c, ch);
    lemma_frame_index(i, c, 0);
    assert(i * c + ch < steps * c) by (nonlinear_arith)
        requires
            0 <= i < steps,
            0 <= ch < c,
    ;
}

/// A session: the three chunks of one file.
pub struct WaveGenerator {
    pub header: HeaderChunk,
    pub format: FormatChunk,
    pub data: DataChunk,
}

/// `(i * c + ch) / c == i` for a channel `ch` below `c`.
proof fn lemma_frame_index(i: int, c: int, ch: int)
    requires
        0 <= i,
        0 <= ch < c,
    ensures
        (i * c + ch) / c == i,
{
    assert((i * c + ch) / c == i) by (nonlinear_arith)
        requires
            0 <= i,
            0 <= ch < c,
    ;
}

/// Relies on rand's `thread_rng` and `Rng::gen_range`: a draw from the inclusive range
/// `[low, high]`, from a generator seeded with process entropy.
#[verifier::external_body]
fn uniform_sample(low: i16, high: i16) -> (r: i16)
    requires
        low <= high,
    ensures
        low <= r <= high,
{
    rand::thread_rng().gen_range(low..=high)
}

impl WaveGenerator {
    /// The format is well formed, the data size field matches the samples, the samples fit
    /// the container's length fields, and the header still holds its placeholder.
    pub open spec fn wf(&self) -> bool {
        &&& self.format.wf()
        &&& self.data.wf()
        &&& self.header.file_length == 0
        &&& self.data.samples@.len() <= MAX_RATE_CHANNELS_SQUARED
    }

    /// A session with the fixed format (two channels, 16 bits, 44100 Hz) and no samples.
    pub fn new() -> (r: WaveGenerator)
        ensures
            r.wf(),
            r.format.channels == 2,
            r.format.samples_per_sec == 44100,
            r.data.samples@.len() == 0,
    {
        let header = HeaderChunk::new();
        let format = FormatChunk::new();
        let data = DataChunk::new();

        WaveGenerator { header, format, data }
    }

    /// Number of samples in one second of audio in this session's format.
    pub fn sample_count(&self) -> (r: usize)
        requires
            self.wf(),
        ensures
            r == self.format.sample_count(),
    {
        proof {
            lemma_sample_count_bound(self.format);
        }
        (self.format.samples_per_sec as usize) * (self.format.channels as usize)
    }

    /// Fills the data chunk with the chosen waveform. For `Sine`, `tone[i]` is the level at
    /// sample index `i`, `AMPLITUDE × sin(2π × FREQUENCY_HZ × i / sample_count)` truncated
    /// toward zero; the other kinds ignore it.
    pub fn generate(&mut self, wave_type: WaveType, tone: &Vec<i16>)
        requires
            old(self).wf(),
            old(self).data.samples@.len() == 0,
            wave_type == WaveType::Sine ==> tone@.len() == old(self).format.sample_count(),
            wave_type == WaveType::Sine ==> within_amplitude(tone@),
        ensures
            final(self).wf(),
            final(self).header == old(self).header,
            final(self).format == old(self).format,
            final(self).data.chunk_size == final(self).data.samples@.len() * 2,
            wave_type == WaveType::Sine ==> final(self).data.samples@ == sine_samples(
                tone@,
                old(self).format.channels as nat,
                sine_steps(old(self).format),
            ),
            wave_type == WaveType::White ==> final(self).data.samples@.len()
                == old(self).format.sample_count(),
            within_amplitude(final(self).data.samples@),
            wave_type != WaveType::Sine && wave_type != WaveType::White
                ==> final(self).data.samples@.len() == 0,
    {
        match wave_type {
            WaveType::Sine => WaveGenerator::gen_sine_wave(&self.format, &mut self.data, tone),
            WaveType::White => WaveGenerator::gen_white_noise(&self.format, &mut self.data),
            _ => {},
        }
    }

    fn allocate_samples(format: &FormatChunk, data: &mut DataChunk) -> (r: usize)
        requires
            format.wf(),
        ensures
            r == format.sample_count(),
            final(data).samples@ == old(data).samples@,
            final(data).chunk_size == old(data).chunk_size,
    {
        proof {
            lemma_sample_count_bound(*format);
        }
        let sample_size: usize = (format.samples_per_sec as usize) * (format.channels as usize);
        data.samples.reserve(sample_size);
        sample_size
    }

    fn gen_sine_wave(format: &FormatChunk, data: &mut DataChunk, tone: &Vec<i16>)
        requires
            format.wf(),
            old(data).samples@.len() == 0,
            tone@.len() == format.sample_count(),
            within_amplitude(tone@),
        ensures
            final(data).wf(),
            final(data).samples@ == sine_samples(
                tone@,
                format.channels as nat,
                sine_steps(*format),
            ),
            final(data).samples@.len() <= MAX_RATE_CHANNELS_SQUARED,
            within_amplitude(final(data).samples@),
    {
        let sample_size = WaveGenerator::allocate_samples(format, data);
        let channels: usize = format.channels as usize;
        proof {
            lemma_sample_count_bound(*format);
        }
        let steps: usize = sample_size - (channels - 1);
        let ghost c = channels as int;
        proof {
            assert(steps * c <= sample_size * c) by (nonlinear_arith)
                requires
                    steps <= sample_size,
                    c >= 1,
            ;
        }
        let mut i: usize = 0;
        while i < steps
            invariant
                i <= steps,
                steps == sine_steps(*format),
                channels == format.channels,
                c == channels,
                c >= 1,
                steps * c <= MAX_RATE_CHANNELS_SQUARED,
                tone@.len() == format.sample_count(),
                steps <= tone@.len(),
                data.samples@ == sine_samples(tone@, c as nat, i as nat),
            decreases steps - i,
        {
            proof {
                assert(i * c + c <= steps * c) by (nonlinear_arith)
                    requires
                        i < steps,
                        c >= 1,
                ;
            }
            let level = tone[i];
            let mut ch: usize = 0;
            while ch < channels
                invariant
                    i < steps,
                    ch <= channels,
                    channels == c,
                    c >= 1,
                    i * c + c <= MAX_RATE_CHANNELS_SQUARED,
                    steps <= tone@.len(),
                    level == tone@[i as int],
                    data.samples@ =~= Seq::new(
                        (i * c + ch) as nat,
                        |k: int| tone@[k / c],
                    ),
                decreases channels - ch,
            {
                data.samples.push(level);
                proof {
                    lemma_frame_index(i as int, c, ch as int);
                }
                ch = ch + 1;
                assert(data.samples@ =~= Seq::new((i * c + ch) as nat, |k: int| tone@[k / c]));
            }
            i = i + 1;
            assert(i * c == (i - 1) * c + c) by (nonlinear_arith);
            assert(data.samples@ =~= sine_samples(tone@, c as nat, i as nat));
        }
        proof {
            assert forall|k: int| 0 <= k < data.samples@.len() implies -AMPLITUDE
                <= #[trigger] data.samples@[k] <= AMPLITUDE by {
                assert(0 <= k / c < steps) by (nonlinear_arith)
                    requires
                        0 <= k < steps * c,
                        c >= 1,
                ;
            }
        }
        data.chunk_size = WaveGenerator::data_size(&data.samples, format.bits_per_sample);
    }

    fn gen_white_noise(format: &FormatChunk, data: &mut DataChunk)
        requires
            format.wf(),
            old(data).samples@.len() == 0,
        ensures
            final(data).wf(),
            final(data).samples@.len() == format.sample_count(),
            final(data).samples@.len() <= MAX_RATE_CHANNELS_SQUARED,
            within_amplitude(final(data).samples@),
    {
        let sample_size = WaveGenerator::allocate_samples(format, data);
        proof {
            lemma_sample_count_bound(*format);
        }
        let mut i: usize = 0;
        while i < sample_size
            invariant
                i <= sample_size,
                sample_size == format.sample_count(),
                data.samples@.len() == i,
                within_amplitude(data.samples@),
            decreases sample_size - i,
        {
            let sample = uniform_sample(-AMPLITUDE, AMPLITUDE);
            data.samples.push(sample);
            i = i + 1;
        }
        data.chunk_size = WaveGenerator::data_size(&data.samples, format.bits_per_sample);
    }

    fn data_size(samples: &Vec<i16>, bits_per_sample: u16) -> (r: usize)
        requires
            bits_per_sample == 16,
            samples@.len() <= MAX_RATE_CHANNELS_SQUARED,
        ensures
            r == samples@.len() * 2,
    {
        let bytes_per_sample: usize = bits_per_sample as usize / 8;
        assert(bytes_per_sample == 2);
        samples.len() * bytes_per_sample
    }
}

/// One second of samples is at most `MAX_RATE_CHANNELS_SQUARED`.
proof fn lemma_sample_count_bound(format: FormatChunk)
    requires
        format.wf(),
    ensures
        format.sample_count() <= format.samples_per_sec * format.channels * format.channels,
        format.sample_count() <= MAX_RATE_CHANNELS_SQUARED,
        format.sample_count() >= format.channels,
{
    let r = format.samples_per_sec as int;
    let c = format.channels as int;
    assert(c <= r * c <= r * c * c) by (nonlinear_arith)
        requires
            r >= 1,
            c >= 1,
    ;
}

} // verus!
