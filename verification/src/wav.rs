use vstd::prelude::*;

use crate::errors::DictationError;
use crate::Sample;

verus! {

// ---------------------------------------------------------------------------
// Little-endian byte views
// ---------------------------------------------------------------------------

/// The two little-endian bytes of a 16-bit value.
pub open spec fn u16_le(x: u16) -> Seq<u8> {
    seq![(x & 0xff) as u8, ((x >> 8) & 0xff) as u8]
}

/// The four little-endian bytes of a 32-bit value.
pub open spec fn u32_le(x: u32) -> Seq<u8> {
    seq![
        (x & 0xff) as u8,
        ((x >> 8) & 0xff) as u8,
        ((x >> 16) & 0xff) as u8,
        ((x >> 24) & 0xff) as u8,
    ]
}

/// A quantized sample as its two little-endian PCM bytes.
pub open spec fn sample_le(s: Sample) -> Seq<u8> {
    u16_le(s as u16)
}

/// The PCM payload: every sample as two little-endian bytes, in order.
pub open spec fn pcm_bytes(samples: Seq<Sample>) -> Seq<u8> {
    Seq::new(2 * samples.len(), |j: int| sample_le(samples[j / 2])[j % 2])
}

/// The 16-bit value read little-endian at byte offset `i`.
pub open spec fn le16_at(b: Seq<u8>, i: int) -> u16 {
    (b[i] as u16) | ((b[i + 1] as u16) << 8)
}

/// The 32-bit value read little-endian at byte offset `i`.
pub open spec fn le32_at(b: Seq<u8>, i: int) -> u32 {
    (b[i] as u32) | ((b[i + 1] as u32) << 8) | ((b[i + 2] as u32) << 16) | ((b[i + 3] as u32)
        << 24)
}

// ---------------------------------------------------------------------------
// The container layout
// ---------------------------------------------------------------------------

/// Size of the fixed RIFF/WAVE/fmt/data header.
pub const WAV_HEADER_LEN: usize = 44;

/// The fixed 44-byte header for a single-channel 16-bit PCM stream of
/// `n_samples` samples at `rate` Hz: RIFF chunk, WAVE tag, fmt chunk
/// (PCM, mono, 16 bits), data chunk header.
pub open spec fn wav_header(rate: u32, n_samples: nat) -> Seq<u8> {
    seq![0x52u8, 0x49u8, 0x46u8, 0x46u8]  // "RIFF"
        + u32_le((36 + 2 * n_samples) as u32)
        + seq![0x57u8, 0x41u8, 0x56u8, 0x45u8]  // "WAVE"
        + seq![0x66u8, 0x6du8, 0x74u8, 0x20u8]  // "fmt "
        + u32_le(16)  // fmt chunk size
        + u16_le(1)  // PCM
        + u16_le(1)  // channels
        + u32_le(rate)
        + u32_le((2 * rate) as u32)  // byte rate
        + u16_le(2)  // block align
        + u16_le(16)  // bits per sample
        + seq![0x64u8, 0x61u8, 0x74u8, 0x61u8]  // "data"
        + u32_le((2 * n_samples) as u32)
}

/// The chunk sizes of the container are 32-bit fields, so a buffer is
/// encodable only while its PCM payload and the byte rate fit in them.
pub open spec fn wav_encodable(n_samples: nat, rate: u32) -> bool {
    &&& 36 + 2 * n_samples <= u32::MAX
    &&& 2 * rate <= u32::MAX
}

/// The complete container: header followed by the PCM payload.
pub open spec fn wav_bytes(samples: Seq<Sample>, rate: u32) -> Seq<u8> {
    wav_header(rate, samples.len()) + pcm_bytes(samples)
}

// ---------------------------------------------------------------------------
// Facts about the payload
// ---------------------------------------------------------------------------

pub proof fn lemma_pcm_bytes_len(samples: Seq<Sample>)
    ensures
        pcm_bytes(samples).len() == 2 * samples.len(),
{
}

pub proof fn lemma_pcm_bytes_snoc(samples: Seq<Sample>, x: Sample)
    ensures
        pcm_bytes(samples.push(x)) == pcm_bytes(samples) + sample_le(x),
{
    assert forall|j: int| 0 <= j < 2 * samples.len() + 2 implies pcm_bytes(samples.push(x))[j]
        == (pcm_bytes(samples) + sample_le(x))[j] by {
        if j < 2 * samples.len() {
            assert(j / 2 < samples.len());
            assert(samples.push(x)[j / 2] == samples[j / 2]);
        } else {
            assert(j / 2 == samples.len());
            assert(samples.push(x)[j / 2] == x);
        }
    }
    assert(pcm_bytes(samples.push(x)) =~= pcm_bytes(samples) + sample_le(x));
}

pub proof fn lemma_pcm_bytes_index(samples: Seq<Sample>, i: int)
    requires
        0 <= i < samples.len(),
    ensures
        pcm_bytes(samples)[2 * i] == sample_le(samples[i])[0],
        pcm_bytes(samples)[2 * i + 1] == sample_le(samples[i])[1],
{
    assert((2 * i) / 2 == i);
    assert((2 * i) % 2 == 0);
    assert((2 * i + 1) / 2 == i);
    assert((2 * i + 1) % 2 == 1);
}

// ---------------------------------------------------------------------------
// Encoding
// ---------------------------------------------------------------------------

fn push_u16_le(out: &mut Vec<u8>, x: u16)
    ensures
        final(out)@ == old(out)@ + u16_le(x),
{
    out.push((x & 0xff) as u8);
    out.push(((x >> 8) & 0xff) as u8);
    proof {
        assert(out@ =~= old(out)@ + u16_le(x));
    }
}

fn push_u32_le(out: &mut Vec<u8>, x: u32)
    ensures
        final(out)@ == old(out)@ + u32_le(x),
{
    out.push((x & 0xff) as u8);
    out.push(((x >> 8) & 0xff) as u8);
    out.push(((x >> 16) & 0xff) as u8);
    out.push(((x >> 24) & 0xff) as u8);
    proof {
        assert(out@ =~= old(out)@ + u32_le(x));
    }
}

/// Encodes the recorded quantized samples as a single-channel 16-bit PCM
/// WAV container, byte-exact per the canonical 44-byte header layout.
/// Fails only on the defensive path: a payload or byte rate too large for
/// the container's 32-bit size fields.
pub fn create_wav(audio_data: &Vec<Sample>, sample_rate: u32) -> (r: Result<
    Vec<u8>,
    DictationError,
>)
    ensures
        wav_encodable(audio_data@.len(), sample_rate) ==> (r matches Ok(b) && b@ == wav_bytes(
            audio_data@,
            sample_rate,
        )),
        !wav_encodable(audio_data@.len(), sample_rate) ==> (r matches Err(e)
            && e matches DictationError::EncodingError),
{
    if audio_data.len() as u64 > (0xffff_ffffu64 - 36) / 2 || sample_rate as u64
        > 0xffff_ffffu64 / 2 {
        return Err(DictationError::EncodingError);
    }
    let data_size: u32 = (audio_data.len() as u32) * 2;

    let mut out: Vec<u8> = Vec::new();
    out.push(0x52);  // "RIFF"
    out.push(0x49);
    out.push(0x46);
    out.push(0x46);
    push_u32_le(&mut out, 36 + data_size);
    out.push(0x57);  // "WAVE"
    out.push(0x41);
    out.push(0x56);
    out.push(0x45);
    out.push(0x66);  // "fmt "
    out.push(0x6d);
    out.push(0x74);
    out.push(0x20);
    push_u32_le(&mut out, 16);
    push_u16_le(&mut out, 1);
    push_u16_le(&mut out, 1);
    push_u32_le(&mut out, sample_rate);
    push_u32_le(&mut out, sample_rate * 2);
    push_u16_le(&mut out, 2);
    push_u16_le(&mut out, 16);
    out.push(0x64);  // "data"
    out.push(0x61);
    out.push(0x74);
    out.push(0x61);
    push_u32_le(&mut out, data_size);
    proof {
        assert(out@ =~= wav_header(sample_rate, audio_data@.len()));
    }

    let ghost header: Seq<u8> = out@;
    let mut i: usize = 0;
    while i < audio_data.len()
        invariant
            i <= audio_data.len(),
            out@ == header + pcm_bytes(audio_data@.take(i as int)),
        decreases audio_data.len() - i,
    {
        let b: u16 = audio_data[i] as u16;
        out.push((b & 0xff) as u8);
        out.push(((b >> 8) & 0xff) as u8);
        proof {
            lemma_pcm_bytes_snoc(audio_data@.take(i as int), audio_data@[i as int]);
            assert(audio_data@.take(i as int + 1) =~= audio_data@.take(i as int).push(
                audio_data@[i as int],
            ));
            assert(out@ =~= header + pcm_bytes(audio_data@.take(i as int + 1)));
        }
        i = i + 1;
    }
    proof {
        assert(audio_data@.take(audio_data@.len() as int) =~= audio_data@);
    }
    Ok(out)
}

// ---------------------------------------------------------------------------
// Parsing
// ---------------------------------------------------------------------------

/// Metadata and payload read back out of a WAV container.
pub struct WavContents {
    pub channels: u16,
    pub bits_per_sample: u16,
    pub sample_rate: u32,
    pub samples: Vec<Sample>,
}

/// Whether `b` is a container in exactly the layout this encoder emits:
/// RIFF/WAVE tags, a 16-byte PCM fmt chunk for mono 16-bit audio with a
/// consistent byte rate, and chunk sizes that match the buffer.
pub open spec fn wav_well_formed(b: Seq<u8>) -> bool {
    &&& b.len() >= 44
    &&& b.len() % 2 == 0
    &&& b[0] == 0x52u8
    &&& b[1] == 0x49u8
    &&& b[2] == 0x46u8
    &&& b[3] == 0x46u8
    &&& le32_at(b, 4) == b.len() - 8
    &&& b[8] == 0x57u8
    &&& b[9] == 0x41u8
    &&& b[10] == 0x56u8
    &&& b[11] == 0x45u8
    &&& b[12] == 0x66u8
    &&& b[13] == 0x6du8
    &&& b[14] == 0x74u8
    &&& b[15] == 0x20u8
    &&& le32_at(b, 16) == 16
    &&& le16_at(b, 20) == 1
    &&& le16_at(b, 22) == 1
    &&& le32_at(b, 28) as int == 2 * (le32_at(b, 24) as int)
    &&& le16_at(b, 32) == 2
    &&& le16_at(b, 34) == 16
    &&& b[36] == 0x64u8
    &&& b[37] == 0x61u8
    &&& b[38] == 0x74u8
    &&& b[39] == 0x61u8
    &&& le32_at(b, 40) == b.len() - 44
}

/// The samples encoded in the data section of a well-formed container.
pub open spec fn decoded_pcm(b: Seq<u8>) -> Seq<Sample> {
    Seq::new(((b.len() - 44) / 2) as nat, |i: int| le16_at(b, 44 + 2 * i) as i16)
}

fn read_u16_le(bytes: &Vec<u8>, i: usize) -> (r: u16)
    requires
        bytes@.len() <= usize::MAX,
        i + 1 < bytes@.len(),
    ensures
        r == le16_at(bytes@, i as int),
{
    (bytes[i] as u16) | ((bytes[i + 1] as u16) << 8)
}

fn read_u32_le(bytes: &Vec<u8>, i: usize) -> (r: u32)
    requires
        bytes@.len() <= usize::MAX,
        i + 3 < bytes@.len(),
    ensures
        r == le32_at(bytes@, i as int),
{
    (bytes[i] as u32) | ((bytes[i + 1] as u32) << 8) | ((bytes[i + 2] as u32) << 16) | ((bytes[i
        + 3] as u32) << 24)
}

/// Reads a container in the layout `create_wav` emits back into its
/// metadata and samples; anything else is rejected.
pub fn parse_wav(bytes: &Vec<u8>) -> (r: Option<WavContents>)
    ensures
        wav_well_formed(bytes@) ==> (r matches Some(w) && w.channels == 1 && w.bits_per_sample
            == 16 && w.sample_rate == le32_at(bytes@, 24) && w.samples@ == decoded_pcm(bytes@)),
        !wav_well_formed(bytes@) ==> r is None,
{
    if bytes.len() < 44 || bytes.len() % 2 != 0 {
        return None;
    }
    if bytes[0] != 0x52 || bytes[1] != 0x49 || bytes[2] != 0x46 || bytes[3] != 0x46 {
        return None;
    }
    if read_u32_le(bytes, 4) as u64 != bytes.len() as u64 - 8 {
        return None;
    }
    if bytes[8] != 0x57 || bytes[9] != 0x41 || bytes[10] != 0x56 || bytes[11] != 0x45 {
        return None;
    }
    if bytes[12] != 0x66 || bytes[13] != 0x6d || bytes[14] != 0x74 || bytes[15] != 0x20 {
        return None;
    }
    if read_u32_le(bytes, 16) != 16 || read_u16_le(bytes, 20) != 1 || read_u16_le(bytes, 22)
        != 1 {
        return None;
    }
    let sample_rate: u32 = read_u32_le(bytes, 24);
    if read_u32_le(bytes, 28) as u64 != 2 * (sample_rate as u64) {
        return None;
    }
    if read_u16_le(bytes, 32) != 2 || read_u16_le(bytes, 34) != 16 {
        return None;
    }
    if bytes[36] != 0x64 || bytes[37] != 0x61 || bytes[38] != 0x74 || bytes[39] != 0x61 {
        return None;
    }
    if read_u32_le(bytes, 40) as u64 != bytes.len() as u64 - 44 {
        return None;
    }

    let n: usize = (bytes.len() - 44) / 2;
    let mut samples: Vec<Sample> = Vec::new();
    let mut i: usize = 0;
    while i < n
        invariant
            i <= n,
            n == (bytes@.len() - 44) / 2,
            44 <= bytes@.len() <= usize::MAX,
            samples@.len() == i,
            forall|k: int| 0 <= k < i ==> #[trigger] samples@[k] == le16_at(bytes@, 44 + 2 * k)
                as i16,
        decreases n - i,
    {
        let v: u16 = read_u16_le(bytes, 44 + 2 * i);
        samples.push(v as i16);
        i = i + 1;
    }
    proof {
        assert(samples@ =~= decoded_pcm(bytes@));
    }
    Some(
        WavContents {
            channels: read_u16_le(bytes, 22),
            bits_per_sample: read_u16_le(bytes, 34),
            sample_rate,
            samples,
        },
    )
}

// ---------------------------------------------------------------------------
// The round trip
// ---------------------------------------------------------------------------

proof fn lemma_u16_le_recompose(x: u16)
    ensures
        (((x & 0xff) as u8) as u16) | ((((x >> 8) & 0xff) as u8) as u16) << 8 == x,
{
    assert((((x & 0xff) as u8) as u16) | ((((x >> 8) & 0xff) as u8) as u16) << 8 == x)
        by (bit_vector);
}

proof fn lemma_u32_le_recompose(x: u32)
    ensures
        (((x & 0xff) as u8) as u32) | ((((x >> 8) & 0xff) as u8) as u32) << 8 | ((((x >> 16)
            & 0xff) as u8) as u32) << 16 | ((((x >> 24) & 0xff) as u8) as u32) << 24 == x,
{
    assert((((x & 0xff) as u8) as u32) | ((((x >> 8) & 0xff) as u8) as u32) << 8 | ((((x >> 16)
        & 0xff) as u8) as u32) << 16 | ((((x >> 24) & 0xff) as u8) as u32) << 24 == x)
        by (bit_vector);
}

proof fn lemma_sample_recompose(s: i16)
    ensures
        (((s as u16) & 0xff) as u8 as u16 | ((((s as u16) >> 8) & 0xff) as u8 as u16) << 8)
            as i16 == s,
{
    assert((((s as u16) & 0xff) as u8 as u16 | ((((s as u16) >> 8) & 0xff) as u8 as u16) << 8)
        as i16 == s) by (bit_vector);
}

proof fn lemma_le32_of_u32_le(b: Seq<u8>, i: int, x: u32)
    requires
        0 <= i,
        i + 3 < b.len(),
        b[i] == u32_le(x)[0],
        b[i + 1] == u32_le(x)[1],
        b[i + 2] == u32_le(x)[2],
        b[i + 3] == u32_le(x)[3],
    ensures
        le32_at(b, i) == x,
{
    lemma_u32_le_recompose(x);
}

proof fn lemma_le16_of_u16_le(b: Seq<u8>, i: int, x: u16)
    requires
        0 <= i,
        i + 1 < b.len(),
        b[i] == u16_le(x)[0],
        b[i + 1] == u16_le(x)[1],
    ensures
        le16_at(b, i) == x,
{
    lemma_u16_le_recompose(x);
}

/// The round trip: a buffer that fits the container encodes to bytes that
/// parse back to the same sample rate, channel count 1, bit depth 16, and
/// exactly the original samples.
pub proof fn lemma_wav_round_trip(samples: Seq<Sample>, rate: u32)
    requires
        wav_encodable(samples.len(), rate),
    ensures
        wav_well_formed(wav_bytes(samples, rate)),
        le16_at(wav_bytes(samples, rate), 22) == 1,
        le16_at(wav_bytes(samples, rate), 34) == 16,
        le32_at(wav_bytes(samples, rate), 24) == rate,
        decoded_pcm(wav_bytes(samples, rate)) == samples,
{
    let b = wav_bytes(samples, rate);
    let h = wav_header(rate, samples.len());
    let n = samples.len();
    lemma_pcm_bytes_len(samples);
    assert(h.len() == 44);
    assert(b.len() == 44 + 2 * n);
    assert forall|i: int| 0 <= i < 44 implies b[i] == h[i] by {}

    lemma_le32_of_u32_le(b, 4, (36 + 2 * n) as u32);
    lemma_le32_of_u32_le(b, 16, 16);
    lemma_le16_of_u16_le(b, 20, 1);
    lemma_le16_of_u16_le(b, 22, 1);
    lemma_le32_of_u32_le(b, 24, rate);
    lemma_le32_of_u32_le(b, 28, (2 * rate) as u32);
    lemma_le16_of_u16_le(b, 32, 2);
    lemma_le16_of_u16_le(b, 34, 16);
    lemma_le32_of_u32_le(b, 40, (2 * n) as u32);

    assert(wav_well_formed(b));

    assert forall|i: int| 0 <= i < n implies decoded_pcm(b)[i] == samples[i] by {
        lemma_pcm_bytes_index(samples, i);
        assert(b[44 + 2 * i] == pcm_bytes(samples)[2 * i]);
        assert(b[44 + 2 * i + 1] == pcm_bytes(samples)[2 * i + 1]);
        lemma_le16_of_u16_le(b, 44 + 2 * i, samples[i] as u16);
        lemma_sample_recompose(samples[i]);
    }
    assert(decoded_pcm(b) =~= samples);
}

} // verus!
