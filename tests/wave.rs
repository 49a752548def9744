use audio::{DataChunk, FormatChunk, HeaderChunk, WaveGenerator, WaveType, AMPLITUDE, FREQUENCY_HZ};

/// Levels of the sine tone at every sample index, as a caller computes them.
fn sine_tone(sample_count: usize) -> Vec<i16> {
    let t = (std::f32::consts::PI * 2.0 * FREQUENCY_HZ as f32) / (sample_count as f32);
    (0..sample_count)
        .map(|i| (AMPLITUDE as f32 * (t * i as f32).sin()) as i16)
        .collect()
}

fn u32_le(b: &[u8], at: usize) -> u32 {
    u32::from_le_bytes([b[at], b[at + 1], b[at + 2], b[at + 3]])
}

fn u16_le(b: &[u8], at: usize) -> u16 {
    u16::from_le_bytes([b[at], b[at + 1]])
}

fn i16_le(b: &[u8], at: usize) -> i16 {
    i16::from_le_bytes([b[at], b[at + 1]])
}

fn sine_session() -> WaveGenerator {
    let mut g = WaveGenerator::new();
    let tone = sine_tone(g.sample_count());
    g.generate(WaveType::Sine, &tone);
    g
}

fn noise_session() -> WaveGenerator {
    let mut g = WaveGenerator::new();
    g.generate(WaveType::White, &Vec::new());
    g
}

#[test]
fn header_starts_with_placeholder_length() {
    assert_eq!(HeaderChunk::new().file_length, 0);
}

#[test]
fn format_fields_are_derived() {
    let f = FormatChunk::new();
    assert_eq!(f.chunk_size, 16);
    assert_eq!(f.tag, 1);
    assert_eq!(f.channels, 2);
    assert_eq!(f.samples_per_sec, 44100);
    assert_eq!(f.bits_per_sample, 16);
    assert_eq!(f.block_align, 4);
    assert_eq!(f.avg_bytes_per_sec, 176400);
}

#[test]
fn data_chunk_starts_empty() {
    let d = DataChunk::new();
    assert_eq!(d.chunk_size, 0);
    assert!(d.samples.is_empty());
}

#[test]
fn new_session_has_fixed_format_and_no_samples() {
    let g = WaveGenerator::new();
    assert_eq!(g.format.channels, 2);
    assert_eq!(g.format.samples_per_sec, 44100);
    assert_eq!(g.header.file_length, 0);
    assert!(g.data.samples.is_empty());
    assert_eq!(g.sample_count(), 88200);
}

#[test]
fn sine_skips_last_channel_slots() {
    let g = sine_session();
    assert_eq!(g.data.samples.len(), (88200 - 1) * 2);
    assert_eq!(g.data.chunk_size, g.data.samples.len() * 2);
    assert_eq!(g.data.chunk_size, 352796);
}

#[test]
fn sine_starts_at_zero() {
    let g = sine_session();
    assert_eq!(g.data.samples[0], 0);
    assert_eq!(g.data.samples[1], 0);
}

#[test]
fn sine_channels_carry_the_same_value() {
    let g = sine_session();
    let tone = sine_tone(88200);
    for (i, frame) in g.data.samples.chunks(2).enumerate() {
        assert_eq!(frame[0], frame[1]);
        assert_eq!(frame[0], tone[i]);
    }
}

#[test]
fn sine_stays_within_amplitude() {
    let g = sine_session();
    assert!(g.data.samples.iter().all(|&s| (-32760..=32760).contains(&s)));
    assert!(g.data.samples.iter().any(|&s| s != 0));
}

#[test]
fn noise_fills_one_second() {
    let g = noise_session();
    assert_eq!(g.data.samples.len(), 44100 * 2);
    assert_eq!(g.data.chunk_size, 176400);
    assert!(g.data.samples.iter().all(|&s| (-32760..=32760).contains(&s)));
}

#[test]
fn noise_differs_between_sessions() {
    let a = noise_session();
    let b = noise_session();
    assert_eq!(a.data.samples.len(), b.data.samples.len());
    assert_ne!(a.data.samples, b.data.samples);
    let ea = a.encode();
    let eb = b.encode();
    assert_eq!(ea.len(), eb.len());
    assert_ne!(ea[44..], eb[44..]);
}

#[test]
fn unimplemented_kinds_produce_no_samples() {
    for kind in [WaveType::Square, WaveType::Sawtooth, WaveType::Triangle] {
        let mut g = WaveGenerator::new();
        g.generate(kind, &Vec::new());
        assert!(g.data.samples.is_empty());
        assert_eq!(g.data.chunk_size, 0);
        let bytes = g.encode();
        assert_eq!(bytes.len(), 44);
        assert_eq!(u32_le(&bytes, 4), 36);
        assert_eq!(u32_le(&bytes, 40), 0);
    }
}

#[test]
fn silent_file_is_byte_exact() {
    let mut g = WaveGenerator::new();
    g.generate(WaveType::Square, &Vec::new());
    let expected: Vec<u8> = vec![
        b'R', b'I', b'F', b'F', 36, 0, 0, 0, b'W', b'A', b'V', b'E', //
        b'f', b'm', b't', b' ', 16, 0, 0, 0, 1, 0, 2, 0, //
        0x44, 0xac, 0, 0, 0x10, 0xb1, 0x02, 0, 4, 0, 16, 0, //
        b'd', b'a', b't', b'a', 0, 0, 0, 0,
    ];
    assert_eq!(g.encode(), expected);
}

#[test]
fn samples_are_written_little_endian() {
    let mut g = WaveGenerator::new();
    g.data.samples = vec![1, -1, 256, -32760];
    g.data.chunk_size = 8;
    let bytes = g.encode();
    assert_eq!(bytes.len(), 52);
    assert_eq!(&bytes[4..8], &[44, 0, 0, 0]);
    assert_eq!(&bytes[40..44], &[8, 0, 0, 0]);
    assert_eq!(&bytes[44..], &[1, 0, 0xff, 0xff, 0, 1, 0x08, 0x80]);
}

#[test]
fn sine_file_reads_back() {
    let g = sine_session();
    let bytes = g.encode();
    let n = g.data.samples.len();
    assert_eq!(bytes.len(), 44 + n * 2);
    assert_eq!(&bytes[0..4], b"RIFF");
    assert_eq!(u32_le(&bytes, 4) as usize, bytes.len() - 8);
    assert_eq!(&bytes[8..12], b"WAVE");
    assert_eq!(&bytes[12..16], b"fmt ");
    assert_eq!(u32_le(&bytes, 16), 16);
    assert_eq!(u16_le(&bytes, 20), 1);
    assert_eq!(u16_le(&bytes, 22), 2);
    assert_eq!(u32_le(&bytes, 24), 44100);
    assert_eq!(u32_le(&bytes, 28), 176400);
    assert_eq!(u16_le(&bytes, 32), 4);
    assert_eq!(u16_le(&bytes, 34), 16);
    assert_eq!(&bytes[36..40], b"data");
    assert_eq!(u32_le(&bytes, 40) as usize, n * 2);
    for (k, &s) in g.data.samples.iter().enumerate() {
        assert_eq!(i16_le(&bytes, 44 + 2 * k), s);
    }
}

#[test]
fn noise_file_reads_back() {
    let g = noise_session();
    let bytes = g.encode();
    assert_eq!(bytes.len(), 44 + 88200 * 2);
    assert_eq!(u32_le(&bytes, 4), 44 + 88200 * 2 - 8);
    for (k, &s) in g.data.samples.iter().enumerate() {
        assert_eq!(i16_le(&bytes, 44 + 2 * k), s);
    }
}
