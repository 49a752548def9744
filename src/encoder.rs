//! Serialisation of a session to the bytes of a RIFF/WAVE PCM file.
use crate::bytes::{
    i16_at, le16, le32, le_i16, le_u16, le_u32, lemma_le16_read, lemma_le32_read,
    lemma_sample_read, push_bytes, sample_word, u16_at, u32_at,
};
use crate::chunks::{DataChunk, FormatChunk};
use crate::generator::WaveGenerator;
use vstd::prelude::*;

verus! {

/// The ASCII tag `RIFF`.
pub open spec fn riff_tag() -> Seq<u8> {
    seq![0x52u8, 0x49u8, 0x46u8, 0x46u8]
}

/// The ASCII tag `WAVE`.
pub open spec fn wave_tag() -> Seq<u8> {
    seq![0x57u8, 0x41u8, 0x56u8, 0x45u8]
}

/// The ASCII tag `fmt ` (with a trailing space).
pub open spec fn fmt_tag() -> Seq<u8> {
    seq![0x66u8, 0x6du8, 0x74u8, 0x20u8]
}

/// The ASCII tag `data`.
pub open spec fn data_tag() -> Seq<u8> {
    seq![0x64u8, 0x61u8, 0x74u8, 0x61u8]
}

/// Every sample as two little-endian bytes, in order.
pub open spec fn samples_bytes(s: Seq<i16>) -> Seq<u8>
    decreases s.len(),
{
    if s.len() == 0 {
        Seq::empty()
    } else {
        samples_bytes(s.drop_last()) + le16(sample_word(s.last()))
    }
}

/// The `fmt ` chunk as it is stored.
pub open spec fn format_bytes(f: FormatChunk) -> Seq<u8> {
    fmt_tag() + le32(f.chunk_size) + le16(f.tag) + le16(f.channels) + le32(f.samples_per_sec)
        + le32(f.avg_bytes_per_sec) + le16(f.block_align) + le16(f.bits_per_sample)
}

/// The `data` chunk as it is stored.
pub open spec fn data_bytes(d: DataChunk) -> Seq<u8> {
    data_tag() + le32(d.chunk_size as u32) + samples_bytes(d.samples@)
}

/// Everything after the header's length field.
pub open spec fn wav_body(g: WaveGenerator) -> Seq<u8> {
    wave_tag() + format_bytes(g.format) + data_bytes(g.data)
}

/// The whole file: the `RIFF` tag, the length of what follows it, and the body.
pub open spec fn wav_file(g: WaveGenerator) -> Seq<u8> {
    riff_tag() + le32(wav_body(g).len() as u32) + wav_body(g)
}

/// Two bytes per sample.
pub proof fn lemma_samples_bytes_len(s: Seq<i16>)
    ensures
        samples_bytes(s).len() == 2 * s.len(),
    decreases s.len(),
{
    if s.len() > 0 {
        lemma_samples_bytes_len(s.drop_last());
    }
}

/// The body of a well-formed session is 36 bytes plus two per sample.
pub proof fn lemma_body_len(g: WaveGenerator)
    requires
        g.wf(),
    ensures
        wav_body(g).len() == 36 + 2 * g.data.samples@.len(),
        wav_file(g).len() == 44 + 2 * g.data.samples@.len(),
        wav_body(g).len() <= u32::MAX,
{
    lemma_samples_bytes_len(g.data.samples@);
}

/// The two bytes of sample `k` stand at offset `2k` of the encoded samples.
pub proof fn lemma_samples_bytes_at(s: Seq<i16>, k: int)
    requires
        0 <= k < s.len(),
    ensures
        samples_bytes(s).subrange(2 * k, 2 * k + 2) == le16(sample_word(s[k])),
    decreases s.len(),
{
    lemma_samples_bytes_len(s.drop_last());
    if k < s.len() - 1 {
        lemma_samples_bytes_at(s.drop_last(), k);
        assert(samples_bytes(s).subrange(2 * k, 2 * k + 2) =~= samples_bytes(
            s.drop_last(),
        ).subrange(2 * k, 2 * k + 2));
    } else {
        assert(samples_bytes(s).subrange(2 * k, 2 * k + 2) =~= le16(sample_word(s[k])));
    }
}

/// Reading an encoded file back as RIFF/WAVE PCM gives what the session holds: the
/// header's length field is the file length minus 8, the format fields are those of the
/// format chunk (PCM tag 1, 16 bits), the data size is two bytes per sample, and every
/// sample reads back as written.
pub proof fn lemma_round_trip(g: WaveGenerator)
    requires
        g.wf(),
    ensures
        wav_file(g).len() == 44 + 2 * g.data.samples@.len(),
        wav_file(g).subrange(0, 4) == riff_tag(),
        u32_at(wav_file(g), 4) == wav_file(g).len() - 8,
        wav_file(g).subrange(8, 12) == wave_tag(),
        wav_file(g).subrange(12, 16) == fmt_tag(),
        u32_at(wav_file(g), 16) == 16,
        u16_at(wav_file(g), 20) == 1,
        u16_at(wav_file(g), 22) == g.format.channels,
        u32_at(wav_file(g), 24) == g.format.samples_per_sec,
        u32_at(wav_file(g), 28) == g.format.avg_bytes_per_sec,
        u32_at(wav_file(g), 28) == u32_at(wav_file(g), 24) * u16_at(wav_file(g), 32),
        u16_at(wav_file(g), 32) == g.format.block_align,
        u16_at(wav_file(g), 32) == 2 * u16_at(wav_file(g), 22),
        u16_at(wav_file(g), 34) == 16,
        wav_file(g).subrange(36, 40) == data_tag(),
        u32_at(wav_file(g), 40) == 2 * g.data.samples@.len(),
        forall|k: int|
            0 <= k < g.data.samples@.len() ==> #[trigger] i16_at(wav_file(g), 44 + 2 * k)
                == g.data.samples@[k],
{
    lemma_body_len(g);
    let f = wav_file(g);
    let n = g.data.samples@.len();
    let fmt = g.format;
    let samples = samples_bytes(g.data.samples@);
    lemma_le32_read((f.len() - 8) as u32);
    assert(f.subrange(4, 8) =~= le32((f.len() - 8) as u32));
    lemma_le32_read(fmt.chunk_size);
    assert(f.subrange(16, 20) =~= le32(fmt.chunk_size));
    lemma_le16_read(fmt.tag);
    assert(f.subrange(20, 22) =~= le16(fmt.tag));
    lemma_le16_read(fmt.channels);
    assert(f.subrange(22, 24) =~= le16(fmt.channels));
    lemma_le32_read(fmt.samples_per_sec);
    assert(f.subrange(24, 28) =~= le32(fmt.samples_per_sec));
    lemma_le32_read(fmt.avg_bytes_per_sec);
    assert(f.subrange(28, 32) =~= le32(fmt.avg_bytes_per_sec));
    lemma_le16_read(fmt.block_align);
    assert(f.subrange(32, 34) =~= le16(fmt.block_align));
    lemma_le16_read(fmt.bits_per_sample);
    assert(f.subrange(34, 36) =~= le16(fmt.bits_per_sample));
    lemma_le32_read(g.data.chunk_size as u32);
    assert(f.subrange(40, 44) =~= le32(g.data.chunk_size as u32));
    assert(f.subrange(0, 4) =~= riff_tag());
    assert(f.subrange(8, 12) =~= wave_tag());
    assert(f.subrange(12, 16) =~= fmt_tag());
    assert(f.subrange(36, 40) =~= data_tag());
    assert(f.subrange(44, f.len() as int) =~= samples);
    assert forall|k: int| 0 <= k < n implies #[trigger] i16_at(f, 44 + 2 * k)
        == g.data.samples@[k] by {
        lemma_samples_bytes_at(g.data.samples@, k);
        lemma_sample_read(g.data.samples@[k]);
        assert(f.subrange(44 + 2 * k, 44 + 2 * k + 2) =~= samples.subrange(2 * k, 2 * k + 2));
    }
}

fn push_tag(out: &mut Vec<u8>, a: u8, b: u8, c: u8, d: u8)
    ensures
        final(out)@ == old(out)@ + seq![a, b, c, d],
{
    out.push(a);
    out.push(b);
    out.push(c);
    out.push(d);
    assert(out@ =~= old(out)@ + seq![a, b, c, d]);
}

fn push_u16(out: &mut Vec<u8>, v: u16)
    ensures
        final(out)@ == old(out)@ + le16(v),
{
    let b = le_u16(v);
    push_bytes(out, b.as_slice());
}

fn push_u32(out: &mut Vec<u8>, v: u32)
    ensures
        final(out)@ == old(out)@ + le32(v),
{
    let b = le_u32(v);
    push_bytes(out, b.as_slice());
}

/// Overwrites the header's length field (bytes 4 to 7) with the length of the stream
/// minus 8.
fn patch_length(out: &mut Vec<u8>)
    requires
        8 <= old(out)@.len() <= u32::MAX + 8,
    ensures
        final(out)@ == old(out)@.subrange(0, 4) + le32((old(out)@.len() - 8) as u32)
            + old(out)@.subrange(8, old(out)@.len() as int),
{
    let size: usize = out.len() - 8;
    let b = le_u32(size as u32);
    out[4] = b[0];
    out[5] = b[1];
    out[6] = b[2];
    out[7] = b[3];
    assert(out@ =~= old(out)@.subrange(0, 4) + le32((old(out)@.len() - 8) as u32)
        + old(out)@.subrange(8, old(out)@.len() as int));
}

impl WaveGenerator {
    /// The bytes of the RIFF/WAVE file for this session. The chunks are written in order
    /// with the header's placeholder length, then the length field is patched with the
    /// stream's length minus 8.
    pub fn encode(&self) -> (r: Vec<u8>)
        requires
            self.wf(),
        ensures
            r@ == wav_file(*self),
    {
        let mut out: Vec<u8> = Vec::new();

        push_tag(&mut out, 0x52, 0x49, 0x46, 0x46);
        push_u32(&mut out, self.header.file_length);
        let ghost head = out@;
        push_tag(&mut out, 0x57, 0x41, 0x56, 0x45);

        let format = &self.format;
        push_tag(&mut out, 0x66, 0x6d, 0x74, 0x20);
        push_u32(&mut out, format.chunk_size);
        push_u16(&mut out, format.tag);
        push_u16(&mut out, format.channels);
        push_u32(&mut out, format.samples_per_sec);
        push_u32(&mut out, format.avg_bytes_per_sec);
        push_u16(&mut out, format.block_align);
        push_u16(&mut out, format.bits_per_sample);
        assert(out@ =~= head + wave_tag() + format_bytes(*format));

        let data = &self.data;
        push_tag(&mut out, 0x64, 0x61, 0x74, 0x61);
        push_u32(&mut out, data.chunk_size as u32);
        let ghost prefix = out@;
        let mut i: usize = 0;
        while i < data.samples.len()
            invariant
                i <= data.samples@.len(),
                out@ == prefix + samples_bytes(data.samples@.subrange(0, i as int)),
            decreases data.samples@.len() - i,
        {
            let b = le_i16(data.samples[i]);
            push_bytes(&mut out, b.as_slice());
            proof {
                let s = data.samples@.subrange(0, i + 1);
                assert(s.drop_last() =~= data.samples@.subrange(0, i as int));
            }
            i = i + 1;
            assert(out@ =~= prefix + samples_bytes(data.samples@.subrange(0, i as int)));
        }
        assert(data.samples@.subrange(0, data.samples@.len() as int) =~= data.samples@);
        assert(out@ =~= head + wav_body(*self));
        proof {
            lemma_body_len(*self);
        }
        patch_length(&mut out);
        assert(out@ =~= wav_file(*self));
        out
    }
}

} // verus!
