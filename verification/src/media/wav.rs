//! 16-bit PCM WAV files, as handed to the local transcriber: a 44-byte RIFF header followed
//! by the little-endian samples.
use vstd::bytes::{
    lemma_auto_spec_u16_to_from_le_bytes, lemma_auto_spec_u32_to_from_le_bytes, spec_u16_to_le_bytes, spec_u32_to_le_bytes, u16_to_le_bytes, u32_to_le_bytes};
use vstd::prelude::*;
use vstd::string::*;

verus! {

pub const PCM_FORMAT_CODE: u16 = 1;

pub const PCM_I16_BITS_PER_SAMPLE: u16 = 16;

pub const PCM_I16_BYTES_PER_SAMPLE: u16 = 2;

/// Bytes before the samples.
pub const WAV_HEADER_LEN: usize = 44;

/// Why a WAV file cannot be written for these parameters, checked in this order; none when
/// it can.
pub open spec fn spec_wav_error(sample_rate: u32, channels: u16, sample_count: nat) -> Option<
    Seq<char>,
> {
    if sample_rate == 0 {
        Some("WAV sample rate must be greater than zero."@)
    } else if channels == 0 {
        Some("WAV channel count must be greater than zero."@)
    } else if sample_count % (channels as nat) != 0 {
        Some("WAV sample data is not aligned to the channel count."@)
    } else if sample_count * 2 > u32::MAX || 36 + sample_count * 2 > u32::MAX {
        Some("WAV sample data is too large."@)
    } else if channels * 2 > u16::MAX {
        Some("WAV block alignment is too large."@)
    } else if sample_rate * (channels * 2) > u32::MAX {
        Some("WAV byte rate is too large."@)
    } else {
        None
    }
}

/// The four ASCII bytes of a chunk tag.
pub open spec fn tag(a: u8, b: u8, c: u8, d: u8) -> Seq<u8> {
    seq![a, b, c, d]
}

/// The samples as consecutive little-endian 16-bit values.
pub open spec fn spec_samples_bytes(samples: Seq<i16>) -> Seq<u8>
    decreases samples.len(),
{
    if samples.len() == 0 {
        Seq::empty()
    } else {
        spec_samples_bytes(samples.drop_last()) + spec_u16_to_le_bytes(samples.last() as u16)
    }
}

/// The header of a PCM WAV file: "RIFF", the RIFF size, "WAVE", a 16-byte "fmt " chunk
/// (format 1, channels, sample rate, byte rate, block alignment, 16 bits), then "data" and
/// the data size.
pub open spec fn spec_wav_header(sample_rate: u32, channels: u16, sample_count: nat) -> Seq<u8> {
    let data_size = (sample_count * 2) as u32;
    let block_align = (channels * 2) as u16;
    let byte_rate = (sample_rate * block_align) as u32;
    tag(0x52, 0x49, 0x46, 0x46) + spec_u32_to_le_bytes((36 + data_size) as u32) + tag(
        0x57,
        0x41,
        0x56,
        0x45,
    ) + tag(0x66, 0x6d, 0x74, 0x20) + spec_u32_to_le_bytes(16) + spec_u16_to_le_bytes(
        PCM_FORMAT_CODE,
    ) + spec_u16_to_le_bytes(channels) + spec_u32_to_le_bytes(sample_rate) + spec_u32_to_le_bytes(
        byte_rate,
    ) + spec_u16_to_le_bytes(block_align) + spec_u16_to_le_bytes(PCM_I16_BITS_PER_SAMPLE) + tag(
        0x64,
        0x61,
        0x74,
        0x61,
    ) + spec_u32_to_le_bytes(data_size)
}

proof fn lemma_le_lengths(a: u16, b: u32)
    ensures
        spec_u16_to_le_bytes(a).len() == 2,
        spec_u32_to_le_bytes(b).len() == 4,
{
    lemma_auto_spec_u16_to_from_le_bytes();
    lemma_auto_spec_u32_to_from_le_bytes();
}

/// The samples' bytes are two per sample.
pub proof fn lemma_samples_bytes_len(samples: Seq<i16>)
    ensures
        spec_samples_bytes(samples).len() == 2 * samples.len(),
    decreases samples.len(),
{
    if samples.len() > 0 {
        lemma_samples_bytes_len(samples.drop_last());
        lemma_le_lengths(samples.last() as u16, 0);
    }
}

/// The header is 44 bytes long.
pub proof fn lemma_wav_header_len(sample_rate: u32, channels: u16, sample_count: nat)
    ensures
        spec_wav_header(sample_rate, channels, sample_count).len() == WAV_HEADER_LEN,
{
    lemma_auto_spec_u16_to_from_le_bytes();
    lemma_auto_spec_u32_to_from_le_bytes();
}

fn push_tag(out: &mut Vec<u8>, a: u8, b: u8, c: u8, d: u8)
    ensures
        final(out)@ == old(out)@ + tag(a, b, c, d),
{
    out.push(a);
    out.push(b);
    out.push(c);
    out.push(d);
    assert(final(out)@ =~= old(out)@ + tag(a, b, c, d));
}

fn push_u16(out: &mut Vec<u8>, value: u16)
    ensures
        final(out)@ == old(out)@ + spec_u16_to_le_bytes(value),
{
    let mut bytes = u16_to_le_bytes(value);
    out.append(&mut bytes);
}

fn push_u32(out: &mut Vec<u8>, value: u32)
    ensures
        final(out)@ == old(out)@ + spec_u32_to_le_bytes(value),
{
    let mut bytes = u32_to_le_bytes(value);
    out.append(&mut bytes);
}

/// A WAV file holding `samples`, interleaved over `channels`, at `sample_rate`: exactly the
/// header followed by the samples' bytes, or the first reason the parameters are refused.
pub fn pcm_i16_wav_bytes(sample_rate: u32, channels: u16, samples: &[i16]) -> (r: Result<
    Vec<u8>,
    String,
>)
    ensures
        match r {
            Ok(bytes) => {
                &&& spec_wav_error(sample_rate, channels, samples@.len()) is None
                &&& bytes@ == spec_wav_header(sample_rate, channels, samples@.len())
                    + spec_samples_bytes(samples@)
                &&& bytes@.len() == WAV_HEADER_LEN + 2 * samples@.len()
            },
            Err(e) => spec_wav_error(sample_rate, channels, samples@.len()) == Some(e@),
        },
{
    let sample_count = samples.len();
    if sample_rate == 0 {
        return Err(String::from_str("WAV sample rate must be greater than zero."));
    }
    if channels == 0 {
        return Err(String::from_str("WAV channel count must be greater than zero."));
    }
    if sample_count % (channels as usize) != 0 {
        return Err(String::from_str("WAV sample data is not aligned to the channel count."));
    }
    if sample_count > 2147483647 || sample_count * 2 > 4294967295 - 36 {
        return Err(String::from_str("WAV sample data is too large."));
    }
    let data_size = (sample_count * 2) as u32;
    let riff_size = 36 + data_size;
    if channels > 32767 {
        return Err(String::from_str("WAV block alignment is too large."));
    }
    let block_align = channels * 2;
    let wide_rate = sample_rate as u64;
    let wide_align = block_align as u64;
    assert(wide_rate * wide_align <= 4294967295 * 65535) by (nonlinear_arith)
        requires
            wide_rate <= 4294967295,
            wide_align <= 65535,
    ;
    if wide_rate * wide_align > 4294967295 {
        return Err(String::from_str("WAV byte rate is too large."));
    }
    let byte_rate = sample_rate * (block_align as u32);

    let mut out: Vec<u8> = Vec::new();
    push_tag(&mut out, 0x52, 0x49, 0x46, 0x46);
    push_u32(&mut out, riff_size);
    push_tag(&mut out, 0x57, 0x41, 0x56, 0x45);
    push_tag(&mut out, 0x66, 0x6d, 0x74, 0x20);
    push_u32(&mut out, 16);
    push_u16(&mut out, PCM_FORMAT_CODE);
    push_u16(&mut out, channels);
    push_u32(&mut out, sample_rate);
    push_u32(&mut out, byte_rate);
    push_u16(&mut out, block_align);
    push_u16(&mut out, PCM_I16_BITS_PER_SAMPLE);
    push_tag(&mut out, 0x64, 0x61, 0x74, 0x61);
    push_u32(&mut out, data_size);
    let ghost header = out@;
    assert(header =~= spec_wav_header(sample_rate, channels, samples@.len()));

    let mut i: usize = 0;
    while i < sample_count
        invariant
            sample_count == samples@.len(),
            i <= sample_count,
            out@ == header + spec_samples_bytes(samples@.subrange(0, i as int)),
        decreases sample_count - i,
    {
        let sample = samples[i];
        push_u16(&mut out, sample as u16);
        proof {
            let prefix = samples@.subrange(0, i as int + 1);
            assert(prefix.drop_last() =~= samples@.subrange(0, i as int));
            assert(prefix.last() == sample);
            assert(out@ =~= header + spec_samples_bytes(prefix));
        }
        i = i + 1;
    }
    proof {
        assert(samples@.subrange(0, sample_count as int) =~= samples@);
        lemma_samples_bytes_len(samples@);
        lemma_wav_header_len(sample_rate, channels, samples@.len());
    }
    Ok(out)
}

/// A mono WAV file holding `samples` at `sample_rate`.
pub fn mono_i16_wav_bytes(sample_rate: u32, samples: &[i16]) -> (r: Result<Vec<u8>, String>)
    ensures
        match r {
            Ok(bytes) => {
                &&& spec_wav_error(sample_rate, 1, samples@.len()) is None
                &&& bytes@ == spec_wav_header(sample_rate, 1, samples@.len()) + spec_samples_bytes(
                    samples@,
                )
            },
            Err(e) => spec_wav_error(sample_rate, 1, samples@.len()) == Some(e@),
        },
{
    pcm_i16_wav_bytes(sample_rate, 1, samples)
}

} // verus!
