//! Reading 16-bit PCM samples back out of a WAV-framed recording, for
//! the paths that feed a kept recording into a recognizer chunk by
//! chunk. The container is RIFF: a `RIFF` header declaring a `WAVE`
//! form, then chunks of four-byte tag, little-endian four-byte size and
//! body (bodies padded to even length); the samples are the `data`
//! chunk's body as little-endian 16-bit words.

use vstd::arithmetic::div_mod::lemma_div_denominator;
use vstd::arithmetic::div_mod::lemma_fundamental_div_mod;
use vstd::prelude::*;

verus! {

/// Why a buffer was rejected as a WAV recording.
#[derive(Clone, Copy, Debug, PartialEq, Eq, Structural)]
pub enum WavError {
    /// Shorter than the twelve-byte RIFF header.
    TooShort,
    /// The `RIFF` tag is missing.
    NotRiff,
    /// The form is not `WAVE`.
    NotWave,
    /// The `data` chunk's declared size runs past the buffer.
    BadDataChunk,
    /// No `data` chunk before the buffer ends.
    NoDataChunk,
}

/// The little-endian 32-bit value at offset `i`.
pub open spec fn spec_le_u32(b: Seq<u8>, i: int) -> int {
    b[i] + 256 * (b[i + 1] + 256 * (b[i + 2] + 256 * b[i + 3]))
}

/// The little-endian 16-bit sample made of the two bytes.
pub open spec fn spec_le_i16(lo: u8, hi: u8) -> i16 {
    (((hi as int) * 256 + (lo as int)) as u16) as i16
}

/// The offset and size of the `data` chunk's body, scanning chunks from
/// `pos`: a chunk whose tag is `data` wins if its body fits; any other
/// chunk is skipped over its padded body.
pub open spec fn spec_find_data(b: Seq<u8>, pos: int) -> Result<(int, int), WavError>
    decreases b.len() - pos,
{
    if pos < 0 || pos + 8 > b.len() {
        Err(WavError::NoDataChunk)
    } else {
        let size = spec_le_u32(b, pos + 4);
        let body = pos + 8;
        if b[pos] == 0x64 && b[pos + 1] == 0x61 && b[pos + 2] == 0x74 && b[pos + 3] == 0x61 {
            if body + size > b.len() {
                Err(WavError::BadDataChunk)
            } else {
                Ok((body, size))
            }
        } else {
            let advance = size + (if size % 2 == 1 {
                1int
            } else {
                0int
            });
            if body + advance > b.len() {
                Err(WavError::NoDataChunk)
            } else {
                spec_find_data(b, body + advance)
            }
        }
    }
}

/// The samples inside a body of `size` bytes at `off`: one 16-bit word
/// per byte pair, a trailing odd byte ignored.
pub open spec fn spec_pcm_samples(b: Seq<u8>, off: int, size: int) -> Seq<i16> {
    Seq::new((size / 2) as nat, |i: int| spec_le_i16(b[off + 2 * i], b[off + 2 * i + 1]))
}

/// The verdict on a whole buffer: the RIFF header and WAVE form are
/// required, then the `data` chunk's body is read as samples.
pub open spec fn spec_extract_pcm(b: Seq<u8>) -> Result<Seq<i16>, WavError> {
    if b.len() < 12 {
        Err(WavError::TooShort)
    } else if !(b[0] == 0x52 && b[1] == 0x49 && b[2] == 0x46 && b[3] == 0x46) {
        Err(WavError::NotRiff)
    } else if !(b[8] == 0x57 && b[9] == 0x41 && b[10] == 0x56 && b[11] == 0x45) {
        Err(WavError::NotWave)
    } else {
        match spec_find_data(b, 12) {
            Ok(chunk) => Ok(spec_pcm_samples(b, chunk.0, chunk.1)),
            Err(e) => Err(e),
        }
    }
}

/// The little-endian 32-bit value at offset `i`.
fn read_le_u32(b: &Vec<u8>, i: usize) -> (r: u32)
    requires
        i + 4 <= b@.len(),
    ensures
        r == spec_le_u32(b@, i as int),
{
    let n = b.len();
    let b0 = b[i];
    let b1 = b[i + 1];
    let b2 = b[i + 2];
    let b3 = b[i + 3];
    (b0 as u32) + 256 * (b1 as u32) + 65536 * (b2 as u32) + 16777216 * (b3 as u32)
}

/// The little-endian 16-bit sample made of the two bytes.
fn read_le_i16(lo: u8, hi: u8) -> (r: i16)
    ensures
        r == spec_le_i16(lo, hi),
{
    let word: u16 = (hi as u16) * 256 + (lo as u16);
    word as i16
}

/// Reads the 16-bit PCM samples out of a WAV-framed buffer: the header
/// and form are checked, the `data` chunk found, and its body decoded
/// as little-endian 16-bit words; each malformed shape is reported as
/// its own error.
pub fn extract_pcm_from_wav(wav: &Vec<u8>) -> (r: Result<Vec<i16>, WavError>)
    ensures
        match r {
            Ok(samples) => spec_extract_pcm(wav@) matches Ok(s) && samples@ == s,
            Err(e) => spec_extract_pcm(wav@) == Err::<Seq<i16>, WavError>(e),
        },
{
    if wav.len() < 12 {
        return Err(WavError::TooShort);
    }
    if !(wav[0] == 0x52 && wav[1] == 0x49 && wav[2] == 0x46 && wav[3] == 0x46) {
        return Err(WavError::NotRiff);
    }
    if !(wav[8] == 0x57 && wav[9] == 0x41 && wav[10] == 0x56 && wav[11] == 0x45) {
        return Err(WavError::NotWave);
    }

    let mut pos: usize = 12;
    loop
        invariant
            12 <= pos <= wav@.len(),
            wav@.len() >= 12,
            wav@.len() <= usize::MAX,
            wav@[0] == 0x52 && wav@[1] == 0x49 && wav@[2] == 0x46 && wav@[3] == 0x46,
            wav@[8] == 0x57 && wav@[9] == 0x41 && wav@[10] == 0x56 && wav@[11] == 0x45,
            spec_find_data(wav@, 12) == spec_find_data(wav@, pos as int),
        decreases wav@.len() - pos,
    {
        if wav.len() - pos < 8 {
            return Err(WavError::NoDataChunk);
        }
        let size32 = read_le_u32(wav, pos + 4);
        let size = size32 as usize;
        let body = pos + 8;
        let remaining = wav.len() - body;
        // the chunk tag `data`
        if wav[pos] == 0x64 && wav[pos + 1] == 0x61 && wav[pos + 2] == 0x74 && wav[pos + 3] == 0x61 {
            if size > remaining {
                return Err(WavError::BadDataChunk);
            }
            let count = size / 2;
            let mut samples: Vec<i16> = Vec::new();
            let mut i: usize = 0;
            while i < count
                invariant
                    0 <= i <= count,
                    count == size / 2,
                    body + size <= wav@.len(),
                    wav@.len() <= usize::MAX,
                    samples@.len() == i,
                    forall|j: int|
                        0 <= j < i ==> samples@[j] == spec_le_i16(
                            wav@[body + 2 * j],
                            wav@[body + 2 * j + 1],
                        ),
                decreases count - i,
            {
                let sample = read_le_i16(wav[body + 2 * i], wav[body + 2 * i + 1]);
                samples.push(sample);
                i = i + 1;
            }
            proof {
                assert(samples@ =~= spec_pcm_samples(wav@, body as int, size as int));
            }
            return Ok(samples);
        }
        let pad: usize = size % 2;
        if size > remaining || pad > remaining - size {
            return Err(WavError::NoDataChunk);
        }
        pos = body + size + pad;
    }
}


/// A 32-bit value is its four little-endian bytes.
proof fn lemma_le_u32_decompose(x: u32)
    ensures
        x == (x % 256) + 256 * ((x / 256) % 256) + 65536 * ((x / 65536) % 256) + 16777216 * ((
        x / 16777216) % 256),
{
    lemma_fundamental_div_mod(x as int, 256);
    lemma_fundamental_div_mod((x as int) / 256, 256);
    lemma_fundamental_div_mod((x as int) / 65536, 256);
    lemma_div_denominator(x as int, 256, 256);
    lemma_div_denominator(x as int, 65536, 256);
    assert((x as int) / 16777216 < 256) by (nonlinear_arith);
}

/// Appends a 32-bit value as its four little-endian bytes.
fn push_le_u32(out: &mut Vec<u8>, x: u32)
    ensures
        final(out)@ == old(out)@ + seq![
            (x % 256) as u8,
            ((x / 256) % 256) as u8,
            ((x / 65536) % 256) as u8,
            ((x / 16777216) % 256) as u8,
        ],
        spec_le_u32(final(out)@, old(out)@.len() as int) == x,
{
    out.push((x % 256) as u8);
    out.push(((x / 256) % 256) as u8);
    out.push(((x / 65536) % 256) as u8);
    out.push(((x / 16777216) % 256) as u8);
    proof {
        lemma_le_u32_decompose(x);
        assert(out@ =~= old(out)@ + seq![
            (x % 256) as u8,
            ((x / 256) % 256) as u8,
            ((x / 65536) % 256) as u8,
            ((x / 16777216) % 256) as u8,
        ]);
    }
}

/// Appends a 16-bit sample as its two little-endian bytes.
fn push_le_i16(out: &mut Vec<u8>, sample: i16)
    ensures
        final(out)@ == old(out)@ + seq![
            ((sample as u16) % 256) as u8,
            ((sample as u16) / 256) as u8,
        ],
        spec_le_i16(final(out)@[old(out)@.len() as int], final(out)@[old(out)@.len() as int + 1])
            == sample,
{
    let word = sample as u16;
    let lo = (word % 256) as u8;
    let hi = (word / 256) as u8;
    out.push(lo);
    out.push(hi);
    proof {
        lemma_fundamental_div_mod(word as int, 256);
        assert(word / 256 < 256);
        assert((hi as int) * 256 + (lo as int) == word as int);
        assert((((hi as int) * 256 + (lo as int)) as u16) == word);
        assert((sample as u16) as i16 == sample) by (bit_vector);
        assert(out@ =~= old(out)@ + seq![lo, hi]);
    }
}

/// Frames samples as one WAV buffer in the capture format: the RIFF
/// header declaring a WAVE form, a PCM format chunk for 16 kHz mono
/// 16-bit audio, and the samples as the data chunk in little-endian
/// order. Reading the buffer back yields exactly the samples.
pub fn wav_from_samples(samples: &Vec<i16>) -> (r: Vec<u8>)
    requires
        36 + 2 * samples@.len() <= u32::MAX,
    ensures
        r@.len() == 44 + 2 * samples@.len(),
        spec_extract_pcm(r@) == Ok::<Seq<i16>, WavError>(samples@),
{
    let n = samples.len();
    let data_len: u32 = 2 * (n as u32);
    let mut out: Vec<u8> = Vec::new();
    // the RIFF header: tag, remaining length, WAVE form
    out.push(0x52);
    out.push(0x49);
    out.push(0x46);
    out.push(0x46);
    push_le_u32(&mut out, 36 + data_len);
    out.push(0x57);
    out.push(0x41);
    out.push(0x56);
    out.push(0x45);
    // the format chunk: PCM, mono, 16 kHz, 16 bits per sample
    out.push(0x66);
    out.push(0x6d);
    out.push(0x74);
    out.push(0x20);
    push_le_u32(&mut out, 16);
    push_le_u32(&mut out, 65537);  // format 1 (PCM), 1 channel
    push_le_u32(&mut out, 16000);
    push_le_u32(&mut out, 32000);
    push_le_u32(&mut out, 1048578);  // block align 2, 16 bits per sample
    // the data chunk
    out.push(0x64);
    out.push(0x61);
    out.push(0x74);
    out.push(0x61);
    push_le_u32(&mut out, data_len);
    let ghost header = out@;
    assert(header.len() == 44);

    let mut i: usize = 0;
    while i < n
        invariant
            0 <= i <= n,
            n == samples@.len(),
            header.len() == 44,
            out@.len() == 44 + 2 * i,
            out@.subrange(0, 44) == header,
            forall|j: int|
                0 <= j < i ==> spec_le_i16(out@[44 + 2 * j], out@[44 + 2 * j + 1]) == samples@[j],
        decreases n - i,
    {
        let ghost before = out@;
        push_le_i16(&mut out, samples[i]);
        proof {
            assert(out@.subrange(0, 44) =~= before.subrange(0, 44));
            assert forall|j: int|
                0 <= j < i + 1 implies spec_le_i16(out@[44 + 2 * j], out@[44 + 2 * j + 1])
                == samples@[j] by {
                if j < i {
                    assert(out@[44 + 2 * j] == before[44 + 2 * j]);
                    assert(out@[44 + 2 * j + 1] == before[44 + 2 * j + 1]);
                }
            }
        }
        i = i + 1;
    }

    proof {
        let b = out@;
        assert(b.len() == 44 + 2 * samples@.len());
        assert forall|k: int| 0 <= k < 44 implies b[k] == header[k] by {
            assert(b.subrange(0, 44)[k] == b[k]);
        }
        // the scan skips the format chunk and lands on the data chunk
        assert(spec_le_u32(b, 16) == 16);
        assert(spec_le_u32(b, 40) == data_len);
        assert(spec_find_data(b, 12) == spec_find_data(b, 36));
        assert(spec_find_data(b, 36) == Ok::<(int, int), WavError>((44, data_len as int)));
        assert(spec_pcm_samples(b, 44, data_len as int) =~= samples@);
    }
    out
}

} // verus!
