//! Mono 16-bit PCM WAV files: the 44-byte RIFF header and the sample data
//! that follows it.
use vstd::prelude::*;

verus! {

/// The two bytes of `v` in little-endian order (`v < 2^16`).
pub open spec fn le16(v: nat) -> Seq<u8> {
    seq![(v % 256) as u8, ((v / 256) % 256) as u8]
}

/// The four bytes of `v` in little-endian order (`v < 2^32`).
pub open spec fn le32(v: nat) -> Seq<u8> {
    seq![
        (v % 256) as u8,
        ((v / 256) % 256) as u8,
        ((v / 256 / 256) % 256) as u8,
        ((v / 256 / 256 / 256) % 256) as u8,
    ]
}

/// A four-character ASCII chunk tag.
pub open spec fn tag(a: u8, b: u8, c: u8, d: u8) -> Seq<u8> {
    seq![a, b, c, d]
}

/// The header of a mono 16-bit PCM WAV file whose sample data is
/// `data_size` bytes long and is played at `sample_rate` samples a second:
/// "RIFF", the size of the rest of the file, "WAVE", the "fmt " chunk
/// (16 bytes: format 1 = PCM, 1 channel, the sample rate, the byte rate,
/// block alignment 2, 16 bits a sample) and the "data" chunk's header.
pub open spec fn wav_header(data_size: nat, sample_rate: nat) -> Seq<u8> {
    tag(82, 73, 70, 70) + le32(data_size + 36) + tag(87, 65, 86, 69)
        + tag(102, 109, 116, 32) + le32(16) + le16(1) + le16(1) + le32(sample_rate)
        + le32(sample_rate * 2) + le16(2) + le16(16) + tag(100, 97, 116, 97) + le32(data_size)
}

/// Appends the little-endian bytes of `x`.
fn push_le32(out: &mut Vec<u8>, x: u32)
    ensures
        final(out)@ == old(out)@ + le32(x as nat),
{
    out.push((x % 256) as u8);
    out.push(((x / 256) % 256) as u8);
    out.push(((x / 256 / 256) % 256) as u8);
    out.push(((x / 256 / 256 / 256) % 256) as u8);
    assert(final(out)@ =~= old(out)@ + le32(x as nat));
}

/// Appends the little-endian bytes of `x`.
fn push_le16(out: &mut Vec<u8>, x: u16)
    ensures
        final(out)@ == old(out)@ + le16(x as nat),
{
    out.push((x % 256) as u8);
    out.push(((x / 256) % 256) as u8);
    assert(final(out)@ =~= old(out)@ + le16(x as nat));
}

/// Appends a four-character tag.
fn push_tag(out: &mut Vec<u8>, a: u8, b: u8, c: u8, d: u8)
    ensures
        final(out)@ == old(out)@ + tag(a, b, c, d),
{
    out.push(a);
    out.push(b);
    out.push(c);
    out.push(d);
    assert(final(out)@ =~= old(out)@ + tag(a, b, c, d));
}

/// The 44-byte header of a mono 16-bit PCM WAV file with `data_size` bytes
/// of samples at `sample_rate` Hz.
pub fn create_wav_header(data_size: u32, sample_rate: u32) -> (header: Vec<u8>)
    requires
        data_size + 36 <= u32::MAX,
        sample_rate * 2 <= u32::MAX,
    ensures
        header@ == wav_header(data_size as nat, sample_rate as nat),
        header@.len() == 44,
{
    let mut header: Vec<u8> = Vec::with_capacity(44);
    push_tag(&mut header, 82, 73, 70, 70);
    push_le32(&mut header, data_size + 36);
    push_tag(&mut header, 87, 65, 86, 69);
    push_tag(&mut header, 102, 109, 116, 32);
    push_le32(&mut header, 16);
    push_le16(&mut header, 1);
    push_le16(&mut header, 1);
    push_le32(&mut header, sample_rate);
    push_le32(&mut header, sample_rate * 2);
    push_le16(&mut header, 2);
    push_le16(&mut header, 16);
    push_tag(&mut header, 100, 97, 116, 97);
    push_le32(&mut header, data_size);
    assert(header@ =~= wav_header(data_size as nat, sample_rate as nat));
    header
}


/// The rate at which every sound of the game is sampled, in Hz.
pub const SAMPLE_RATE: u32 = 44100;

/// The number of samples of the click sound: 0.05 s at `SAMPLE_RATE`.
pub const CLICK_SAMPLE_COUNT: usize = 2205;

/// The number of samples of the meow sound: 0.4 s at `SAMPLE_RATE`.
pub const MEOW_SAMPLE_COUNT: usize = 17640;

/// The number of samples of the purr sound: 1.5 s at `SAMPLE_RATE`.
pub const PURR_SAMPLE_COUNT: usize = 66150;

/// The 16 bits of a sample, read as an unsigned number (two's complement).
pub open spec fn sample_bits(s: i16) -> nat {
    if s >= 0 {
        s as nat
    } else {
        (s + 65536) as nat
    }
}

/// The sample data: each sample's two bytes, little-endian, in order.
pub open spec fn samples_le(samples: Seq<i16>) -> Seq<u8>
    decreases samples.len(),
{
    if samples.len() == 0 {
        Seq::empty()
    } else {
        samples_le(samples.drop_last()) + le16(sample_bits(samples.last()))
    }
}

/// The whole WAV file that holds `samples` at `sample_rate` Hz.
pub open spec fn wav_file(samples: Seq<i16>, sample_rate: nat) -> Seq<u8> {
    wav_header(2 * samples.len(), sample_rate) + samples_le(samples)
}

/// Whether a WAV file of `n` samples at `sample_rate` Hz has sizes that fit
/// the header's 32-bit fields.
pub open spec fn wav_fits(n: nat, sample_rate: nat) -> bool {
    &&& 2 * n + 36 <= u32::MAX
    &&& sample_rate * 2 <= u32::MAX
}

/// The bits of a sample as a `u16`.
fn sample_to_bits(s: i16) -> (u: u16)
    ensures
        u as nat == sample_bits(s),
{
    if s >= 0 {
        s as u16
    } else {
        (s as i32 + 65536) as u16
    }
}

/// The WAV file that holds `samples`, played at `sample_rate` Hz: the
/// header, then each sample's two bytes, little-endian.
pub fn encode_wav(samples: &[i16], sample_rate: u32) -> (wav: Vec<u8>)
    requires
        wav_fits(samples@.len(), sample_rate as nat),
    ensures
        wav@ == wav_file(samples@, sample_rate as nat),
{
    let n: usize = samples.len();
    let mut wav = create_wav_header((n * 2) as u32, sample_rate);
    let mut i: usize = 0;
    while i < n
        invariant
            n == samples@.len(),
            i <= n,
            wav@ == wav_header(2 * samples@.len(), sample_rate as nat) + samples_le(
                samples@.take(i as int),
            ),
        decreases n - i,
    {
        let bits: u16 = sample_to_bits(samples[i]);
        push_le16(&mut wav, bits);
        assert(samples@.take(i + 1).drop_last() =~= samples@.take(i as int));
        i = i + 1;
    }
    assert(samples@.take(n as int) =~= samples@);
    wav
}

/// The click sound's WAV file, from its `CLICK_SAMPLE_COUNT` samples.
pub fn generate_click_wav(samples: &[i16]) -> (wav: Vec<u8>)
    requires
        samples@.len() == CLICK_SAMPLE_COUNT,
    ensures
        wav@ == wav_file(samples@, SAMPLE_RATE as nat),
{
    encode_wav(samples, SAMPLE_RATE)
}

/// The meow sound's WAV file, from its `MEOW_SAMPLE_COUNT` samples.
pub fn generate_meow_wav(samples: &[i16]) -> (wav: Vec<u8>)
    requires
        samples@.len() == MEOW_SAMPLE_COUNT,
    ensures
        wav@ == wav_file(samples@, SAMPLE_RATE as nat),
{
    encode_wav(samples, SAMPLE_RATE)
}

/// The purr sound's WAV file, from its `PURR_SAMPLE_COUNT` samples.
pub fn generate_purr_wav(samples: &[i16]) -> (wav: Vec<u8>)
    requires
        samples@.len() == PURR_SAMPLE_COUNT,
    ensures
        wav@ == wav_file(samples@, SAMPLE_RATE as nat),
{
    encode_wav(samples, SAMPLE_RATE)
}

/// The unsigned number stored little-endian in the two bytes at `off`.
pub open spec fn read_le16(bytes: Seq<u8>, off: int) -> int {
    bytes[off] + 256 * bytes[off + 1]
}

/// The unsigned number stored little-endian in the four bytes at `off`.
pub open spec fn read_le32(bytes: Seq<u8>, off: int) -> int {
    bytes[off] + 256 * bytes[off + 1] + 65536 * bytes[off + 2] + 16777216 * bytes[off + 3]
}

/// The signed sample whose two's-complement bits are `u`.
pub open spec fn sample_from_bits(u: int) -> int {
    if u >= 32768 {
        u - 65536
    } else {
        u
    }
}

proof fn lemma_le16_read(v: nat)
    requires
        v < 65536,
    ensures
        read_le16(le16(v), 0) == v,
{
}

proof fn lemma_le32_read(v: nat)
    requires
        v <= u32::MAX,
    ensures
        read_le32(le32(v), 0) == v,
{
    let q1: nat = v / 256;
    let q2: nat = q1 / 256;
    let q3: nat = q2 / 256;
    assert(v == 256 * q1 + v % 256);
    assert(q1 == 256 * q2 + q1 % 256);
    assert(q2 == 256 * q3 + q2 % 256);
    assert(q3 < 256);
}

/// Byte `2 i` and `2 i + 1` of the sample data hold sample `i`.
proof fn lemma_samples_le(samples: Seq<i16>)
    ensures
        samples_le(samples).len() == 2 * samples.len(),
        forall|i: int|
            0 <= i < samples.len() ==> {
                &&& #[trigger] samples_le(samples)[2 * i] == le16(sample_bits(samples[i]))[0]
                &&& samples_le(samples)[2 * i + 1] == le16(sample_bits(samples[i]))[1]
            },
    decreases samples.len(),
{
    if samples.len() > 0 {
        let init = samples.drop_last();
        lemma_samples_le(init);
        assert forall|i: int| 0 <= i < samples.len() implies {
            &&& #[trigger] samples_le(samples)[2 * i] == le16(sample_bits(samples[i]))[0]
            &&& samples_le(samples)[2 * i + 1] == le16(sample_bits(samples[i]))[1]
        } by {
            if i < init.len() {
                assert(init[i] == samples[i]);
            }
        }
    }
}

/// What a WAV reader finds in the header of the file that `encode_wav`
/// writes: the file is 44 bytes plus two a sample; it starts with "RIFF"
/// and the RIFF size field holds the file's length less 8; the format is
/// PCM (1), with 1 channel, `sample_rate` samples and `2 * sample_rate`
/// bytes a second, blocks of 2 bytes and 16 bits a sample; and the "data"
/// size field holds the number of sample bytes.
pub proof fn wav_header_fields(samples: Seq<i16>, sample_rate: nat)
    requires
        wav_fits(samples.len(), sample_rate),
    ensures
        ({
            let f = wav_file(samples, sample_rate);
            &&& f.len() == 44 + 2 * samples.len()
            &&& f.subrange(0, 4) == tag(82, 73, 70, 70)
            &&& read_le32(f, 4) == f.len() - 8
            &&& f.subrange(8, 16) == tag(87, 65, 86, 69) + tag(102, 109, 116, 32)
            &&& read_le32(f, 16) == 16
            &&& read_le16(f, 20) == 1
            &&& read_le16(f, 22) == 1
            &&& read_le32(f, 24) == sample_rate
            &&& read_le32(f, 28) == 2 * sample_rate
            &&& read_le16(f, 32) == 2
            &&& read_le16(f, 34) == 16
            &&& f.subrange(36, 40) == tag(100, 97, 116, 97)
            &&& read_le32(f, 40) == 2 * samples.len()
        }),
{
    let n: nat = samples.len();
    let f = wav_file(samples, sample_rate);
    let h = wav_header(2 * n, sample_rate);
    lemma_samples_le(samples);
    lemma_le32_read(2 * n + 36);
    lemma_le32_read(16);
    lemma_le16_read(1);
    lemma_le32_read(sample_rate);
    lemma_le32_read(sample_rate * 2);
    lemma_le16_read(2);
    lemma_le16_read(16);
    lemma_le32_read(2 * n);
    let a = le32(2 * n + 36);
    let b = le32(sample_rate);
    let c = le32(sample_rate * 2);
    let d = le32(2 * n);
    assert(h =~= seq![
        82u8, 73, 70, 70, a[0], a[1], a[2], a[3], 87, 65, 86, 69, 102, 109, 116, 32,
        16, 0, 0, 0, 1, 0, 1, 0, b[0], b[1], b[2], b[3], c[0], c[1], c[2], c[3],
        2, 0, 16, 0, 100, 97, 116, 97, d[0], d[1], d[2], d[3],
    ]);
    assert(f.subrange(0, 44) =~= h);
    assert(f.subrange(0, 4) =~= tag(82, 73, 70, 70));
    assert(f.subrange(8, 16) =~= tag(87, 65, 86, 69) + tag(102, 109, 116, 32));
    assert(f.subrange(36, 40) =~= tag(100, 97, 116, 97));
}

/// Each sample that `encode_wav` writes reads back unchanged: sample `i`
/// is the signed 16-bit number stored little-endian at byte `44 + 2 i`.
pub proof fn wav_sample_round_trip(samples: Seq<i16>, sample_rate: nat, i: int)
    requires
        wav_fits(samples.len(), sample_rate),
        0 <= i < samples.len(),
    ensures
        sample_from_bits(read_le16(wav_file(samples, sample_rate), 44 + 2 * i)) == samples[i],
{
    let f = wav_file(samples, sample_rate);
    let h = wav_header(2 * samples.len(), sample_rate);
    let d = samples_le(samples);
    lemma_samples_le(samples);
    assert(h.len() == 44);
    assert(f[44 + 2 * i] == d[2 * i]);
    assert(f[44 + 2 * i + 1] == d[2 * i + 1]);
    lemma_le16_read(sample_bits(samples[i]));
}

} // verus!
