//! The on-disk container format: 16-bit PCM WAV. The sample data is a
//! little-endian byte stream, and the 44-byte header carries the audio
//! format and the total data size.

use vstd::prelude::*;

verus! {

/// Milliseconds of audio delivered by one tick of the voice transport.
pub const TICK_MILLIS: u64 = 20;

/// The most samples one container can hold: the header stores the data
/// size (two bytes per sample) plus 36 in an unsigned 32-bit field.
pub const MAX_SAMPLES: u64 = 2147483629;

/// The fixed audio format of one recording: interleaved 16-bit signed
/// PCM.
#[derive(Clone, Copy, PartialEq, Eq, Structural)]
pub struct AudioFormat {
    pub channels: u16,
    pub sample_rate: u32,
    pub bits_per_sample: u16,
}

impl AudioFormat {
    /// Bounds under which the header's derived fields (byte rate, block
    /// align) fit their 16- and 32-bit slots.
    pub open spec fn wf(self) -> bool {
        &&& 1 <= self.channels <= 8
        &&& 8000 <= self.sample_rate <= 192000
        &&& self.bits_per_sample == 16
    }

    /// The format every session records with: stereo, 48 kHz, 16-bit.
    pub fn standard() -> (fmt: AudioFormat)
        ensures
            fmt == standard_format(),
            fmt.wf(),
    {
        AudioFormat { channels: 2, sample_rate: 48000, bits_per_sample: 16 }
    }
}

/// The format every session records with: stereo, 48 kHz, 16-bit.
pub open spec fn standard_format() -> AudioFormat {
    AudioFormat { channels: 2, sample_rate: 48000, bits_per_sample: 16 }
}

/// Samples in one tick-interval of silence: enough zero samples to
/// cover `TICK_MILLIS` at the format's rate, over all channels.
pub open spec fn spec_silence_len(fmt: AudioFormat) -> int {
    fmt.sample_rate as int * TICK_MILLIS as int / 1000 * fmt.channels as int
}

/// One tick-interval of silence is this many samples.
pub fn silence_len(fmt: AudioFormat) -> (n: u64)
    requires
        fmt.wf(),
    ensures
        n == spec_silence_len(fmt),
        0 < n <= 30720,
{
    let per_channel: u64 = fmt.sample_rate as u64 * TICK_MILLIS / 1000;
    assert(160 <= per_channel <= 3840);
    assert(160 <= per_channel * fmt.channels as u64 <= 30720) by (nonlinear_arith)
        requires
            160 <= per_channel <= 3840,
            1 <= fmt.channels <= 8,
    ;
    per_channel * fmt.channels as u64
}

/// A well-formed format's tick-interval of silence is short but never
/// empty, so silent ticks keep the output gap-free.
pub proof fn lemma_silence_len_bounds(fmt: AudioFormat)
    requires
        fmt.wf(),
    ensures
        160 <= spec_silence_len(fmt) <= 30720,
{
    let per = fmt.sample_rate as int * TICK_MILLIS as int / 1000;
    assert(160 <= per <= 3840) by (nonlinear_arith)
        requires
            8000 <= fmt.sample_rate as int <= 192000,
            per == fmt.sample_rate as int * 20 / 1000,
    ;
    assert(160 <= per * fmt.channels as int <= 30720) by (nonlinear_arith)
        requires
            160 <= per <= 3840,
            1 <= fmt.channels as int <= 8,
    ;
}

/// A run of zero samples.
pub open spec fn zeros(n: int) -> Seq<i16> {
    Seq::new(n as nat, |i: int| 0i16)
}

/// One tick-interval of silence, ready to append to a container.
pub fn silence_frame(fmt: AudioFormat) -> (v: Vec<i16>)
    requires
        fmt.wf(),
    ensures
        v@ == zeros(spec_silence_len(fmt)),
        v@.len() <= 30720,
{
    let n = silence_len(fmt);
    let mut v: Vec<i16> = Vec::new();
    proof {
        assert(v@ =~= zeros(0));
    }
    let mut k: u64 = 0;
    while k < n
        invariant
            0 <= k <= n,
            v@ == zeros(k as int),
        decreases n - k,
    {
        v.push(0i16);
        proof {
            assert(v@ =~= zeros(k as int + 1));
        }
        k = k + 1;
    }
    v
}

/// The two little-endian bytes of a 16-bit value.
pub open spec fn le16(x: u16) -> Seq<u8> {
    seq![(x % 256) as u8, (x / 256) as u8]
}

/// The four little-endian bytes of a 32-bit value.
pub open spec fn le32(x: u32) -> Seq<u8> {
    seq![
        (x % 256) as u8,
        (x / 256 % 256) as u8,
        (x / 65536 % 256) as u8,
        (x / 16777216) as u8,
    ]
}

/// A sample's two bytes in the data stream: its two's-complement
/// 16-bit pattern, little-endian.
pub open spec fn sample_le(s: i16) -> Seq<u8> {
    le16(s as u16)
}

/// The byte stream a run of samples adds to the container's data
/// chunk.
pub open spec fn le_data(samples: Seq<i16>) -> Seq<u8>
    decreases samples.len(),
{
    if samples.len() == 0 {
        Seq::empty()
    } else {
        le_data(samples.drop_last()) + sample_le(samples.last())
    }
}

pub proof fn lemma_le_data_len(samples: Seq<i16>)
    ensures
        le_data(samples).len() == 2 * samples.len(),
    decreases samples.len(),
{
    if samples.len() > 0 {
        lemma_le_data_len(samples.drop_last());
    }
}

/// The 44-byte PCM WAV header for a container of `total` samples in
/// format `fmt`: the RIFF chunk, the format chunk, and the data chunk
/// tag with the data size.
pub open spec fn header_bytes(fmt: AudioFormat, total: int) -> Seq<u8> {
    seq![0x52u8, 0x49u8, 0x46u8, 0x46u8]  // "RIFF"
     + le32((36 + 2 * total) as u32) + seq![0x57u8, 0x41u8, 0x56u8, 0x45u8]  // "WAVE"
     + seq![0x66u8, 0x6du8, 0x74u8, 0x20u8]  // "fmt "
     + le32(16) + le16(1)  // PCM
     + le16(fmt.channels) + le32(fmt.sample_rate) + le32(
        (fmt.sample_rate * fmt.channels * 2) as u32,
    ) + le16((fmt.channels * 2) as u16) + le16(fmt.bits_per_sample) + seq![
        0x64u8,
        0x61u8,
        0x74u8,
        0x61u8,
    ]  // "data"
     + le32((2 * total) as u32)
}

fn push4(v: &mut Vec<u8>, a: u8, b: u8, c: u8, d: u8)
    ensures
        final(v)@ == old(v)@ + seq![a, b, c, d],
{
    v.push(a);
    v.push(b);
    v.push(c);
    v.push(d);
    assert(v@ =~= old(v)@ + seq![a, b, c, d]);
}

fn push_le16(v: &mut Vec<u8>, x: u16)
    ensures
        final(v)@ == old(v)@ + le16(x),
{
    v.push((x % 256) as u8);
    v.push((x / 256) as u8);
    assert(v@ =~= old(v)@ + le16(x));
}

fn push_le32(v: &mut Vec<u8>, x: u32)
    ensures
        final(v)@ == old(v)@ + le32(x),
{
    v.push((x % 256) as u8);
    v.push((x / 256 % 256) as u8);
    v.push((x / 65536 % 256) as u8);
    v.push((x / 16777216) as u8);
    assert(v@ =~= old(v)@ + le32(x));
}

/// Build the header for a container of `total` samples: finalization
/// writes this over the placeholder at the file's start, and opening a
/// container writes it with a total of zero.
pub fn make_header(fmt: AudioFormat, total: u64) -> (h: Vec<u8>)
    requires
        fmt.wf(),
        total <= MAX_SAMPLES,
    ensures
        h@ == header_bytes(fmt, total as int),
        h@.len() == 44,
{
    let mut h: Vec<u8> = Vec::new();
    push4(&mut h, 0x52, 0x49, 0x46, 0x46);
    push_le32(&mut h, 36 + 2 * total as u32);
    push4(&mut h, 0x57, 0x41, 0x56, 0x45);
    push4(&mut h, 0x66, 0x6d, 0x74, 0x20);
    push_le32(&mut h, 16);
    push_le16(&mut h, 1);
    push_le16(&mut h, fmt.channels);
    push_le32(&mut h, fmt.sample_rate);
    assert(fmt.sample_rate * fmt.channels as u32 * 2 <= 3072000) by (nonlinear_arith)
        requires
            8000 <= fmt.sample_rate <= 192000,
            1 <= fmt.channels <= 8,
    ;
    push_le32(&mut h, fmt.sample_rate * fmt.channels as u32 * 2);
    push_le16(&mut h, fmt.channels * 2);
    push_le16(&mut h, fmt.bits_per_sample);
    push4(&mut h, 0x64, 0x61, 0x74, 0x61);
    push_le32(&mut h, 2 * total as u32);
    assert(h@ =~= header_bytes(fmt, total as int));
    h
}

} // verus!
