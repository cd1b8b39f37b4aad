//! Parsing of RIFF WAVE byte streams holding 16-bit PCM samples.

use vstd::prelude::*;

verus! {

/// Little-endian unsigned 16-bit value at `i`.
pub open spec fn le_u16(b: Seq<u8>, i: int) -> int {
    b[i] as int + 256 * b[i + 1] as int
}

/// Little-endian unsigned 32-bit value at `i`.
pub open spec fn le_u32(b: Seq<u8>, i: int) -> int {
    le_u16(b, i) + 65536 * le_u16(b, i + 2)
}

/// Little-endian two's complement 16-bit value at `i`.
pub open spec fn le_i16(b: Seq<u8>, i: int) -> int {
    if le_u16(b, i) >= 32768 {
        le_u16(b, i) - 65536
    } else {
        le_u16(b, i)
    }
}

/// The four bytes at `i` spell the given tag.
pub open spec fn has_tag(b: Seq<u8>, i: int, t0: u8, t1: u8, t2: u8, t3: u8) -> bool {
    b[i] == t0 && b[i + 1] == t1 && b[i + 2] == t2 && b[i + 3] == t3
}

/// The four bytes at `i` spell "fmt ".
pub open spec fn is_fmt_tag(b: Seq<u8>, i: int) -> bool {
    has_tag(b, i, 0x66, 0x6d, 0x74, 0x20)
}

/// The four bytes at `i` spell "data".
pub open spec fn is_data_tag(b: Seq<u8>, i: int) -> bool {
    has_tag(b, i, 0x64, 0x61, 0x74, 0x61)
}

/// The `n` samples of a data chunk whose body starts at `body`.
pub open spec fn data_samples(b: Seq<u8>, body: int, n: int) -> Seq<i16> {
    Seq::new(n as nat, |k: int| le_i16(b, body + 2 * k) as i16)
}

/// Offset of the chunk that follows the chunk whose body starts at `body` and has `size`
/// bytes: chunks of odd size are followed by one pad byte.
pub open spec fn next_chunk(body: int, size: int) -> int {
    body + size + size % 2
}

/// The result of scanning the sub-chunks from offset `idx` on, given the channel count,
/// sample rate and bits per sample of the last format chunk seen (0 when none was seen):
/// the channel count, the sample rate and the samples of the first data chunk, or `None`.
pub open spec fn scan_chunks(b: Seq<u8>, idx: int, nch: int, rate: int, bits: int) -> Option<(int, int, Seq<i16>)>
    decreases b.len() + 1 - idx,
{
    if idx < 0 || idx + 8 > b.len() {
        None
    } else {
        let size = le_u32(b, idx + 4);
        let body = idx + 8;
        if body + size > b.len() {
            None
        } else if is_fmt_tag(b, idx) {
            if size < 16 {
                None
            } else {
                let tag = le_u16(b, body);
                let nch2 = le_u16(b, body + 2);
                let rate2 = le_u32(b, body + 4);
                let bits2 = le_u16(b, body + 14);
                if tag != 1 && tag != 0xFFFE {
                    None
                } else if bits2 != 16 || nch2 == 0 || rate2 == 0 || rate2 >= 0x8000_0000 {
                    None
                } else {
                    scan_chunks(b, next_chunk(body, size), nch2, rate2, bits2)
                }
            }
        } else if is_data_tag(b, idx) {
            if nch == 0 || bits != 16 {
                None
            } else {
                Some((nch, rate, data_samples(b, body, size / 2)))
            }
        } else {
            scan_chunks(b, next_chunk(body, size), nch, rate, bits)
        }
    }
}

/// The content of a WAVE byte stream: channel count, sample rate and interleaved samples,
/// or `None` when the stream is not a well-formed 16-bit PCM WAVE stream.
pub open spec fn spec_parse_wav(b: Seq<u8>) -> Option<(int, int, Seq<i16>)> {
    if b.len() < 44 || !has_tag(b, 0, 0x52, 0x49, 0x46, 0x46) || !has_tag(b, 8, 0x57, 0x41, 0x56, 0x45) {
        None
    } else {
        scan_chunks(b, 12, 0, 0, 0)
    }
}

/// A decoded 16-bit PCM WAVE file.
#[derive(Debug, Clone, PartialEq, Eq)]
pub struct Wav {
    pub num_channels: usize,
    pub sample_rate: i32,
    pub interleaved_samples: Vec<i16>,
}

/// Reads the little-endian unsigned 16-bit value at `i`.
fn read_u16(bytes: &[u8], i: usize) -> (v: u32)
    requires
        i + 2 <= bytes@.len(),
    ensures
        v == le_u16(bytes@, i as int),
        v < 65536,
{
    bytes[i] as u32 + 256 * bytes[i + 1] as u32
}

/// Reads the little-endian unsigned 32-bit value at `i`.
fn read_u32(bytes: &[u8], i: usize) -> (v: u32)
    requires
        i + 4 <= bytes@.len(),
    ensures
        v == le_u32(bytes@, i as int),
{
    proof { assert(bytes@.len() == bytes.len()); }
    let lo = read_u16(bytes, i);
    let hi = read_u16(bytes, i + 2);
    lo + 65536 * hi
}

/// Reads the little-endian two's complement 16-bit value at `i`.
fn read_i16(bytes: &[u8], i: usize) -> (v: i16)
    requires
        i + 2 <= bytes@.len(),
    ensures
        v == le_i16(bytes@, i as int),
{
    let u = read_u16(bytes, i);
    if u >= 32768 {
        (u as i32 - 65536) as i16
    } else {
        u as i16
    }
}

/// Whether the four bytes at `i` spell the given tag.
fn tag_at(bytes: &[u8], i: usize, t0: u8, t1: u8, t2: u8, t3: u8) -> (r: bool)
    requires
        i + 4 <= bytes@.len(),
    ensures
        r == has_tag(bytes@, i as int, t0, t1, t2, t3),
{
    bytes[i] == t0 && bytes[i + 1] == t1 && bytes[i + 2] == t2 && bytes[i + 3] == t3
}

impl Wav {
    /// Parses a RIFF WAVE byte stream holding 16-bit PCM samples.
    ///
    /// Sub-chunks are scanned in order; the last "fmt " chunk seen before the first
    /// "data" chunk gives the channel count and the sample rate.
    pub fn from_bytes(bytes: &[u8]) -> (r: Option<Wav>)
        ensures
            r matches Some(w) ==> spec_parse_wav(bytes@) == Some(
                (w.num_channels as int, w.sample_rate as int, w.interleaved_samples@),
            ),
            r is None ==> spec_parse_wav(bytes@) is None,
    {
        let len = bytes.len();
        if len < 44 || !tag_at(bytes, 0, 0x52, 0x49, 0x46, 0x46) || !tag_at(bytes, 8, 0x57, 0x41, 0x56, 0x45) {
            return None;
        }
        let mut idx: usize = 12;
        let mut num_channels: u32 = 0;
        let mut sample_rate: u32 = 0;
        let mut bits_per_sample: u32 = 0;
        while len - idx >= 8
            invariant
                len == bytes@.len(),
                12 <= idx <= len,
                num_channels < 65536,
                bits_per_sample < 65536,
                sample_rate < 0x8000_0000,
                spec_parse_wav(bytes@) == scan_chunks(bytes@, idx as int, num_channels as int, sample_rate as int, bits_per_sample as int),
            decreases len - idx,
        {
            let chunk_size = read_u32(bytes, idx + 4) as usize;
            let body = idx + 8;
            if chunk_size > len - body {
                return None;
            }
            if tag_at(bytes, idx, 0x66, 0x6d, 0x74, 0x20) {
                if chunk_size < 16 {
                    return None;
                }
                let format_tag = read_u16(bytes, body);
                if format_tag != 1 && format_tag != 0xFFFE {
                    return None;
                }
                let nch = read_u16(bytes, body + 2);
                let rate = read_u32(bytes, body + 4);
                let bits = read_u16(bytes, body + 14);
                if bits != 16 || nch == 0 || rate == 0 || rate >= 0x8000_0000 {
                    return None;
                }
                num_channels = nch;
                sample_rate = rate;
                bits_per_sample = bits;
            } else if tag_at(bytes, idx, 0x64, 0x61, 0x74, 0x61) {
                if num_channels == 0 || bits_per_sample != 16 {
                    return None;
                }
                let num_samples = chunk_size / 2;
                let mut data_vec: Vec<i16> = Vec::with_capacity(num_samples);
                let mut i: usize = 0;
                while i < num_samples
                    invariant
                        len == bytes@.len(),
                        body + chunk_size <= len,
                        num_samples == chunk_size / 2,
                        i <= num_samples,
                        data_vec@ == data_samples(bytes@, body as int, i as int),
                    decreases num_samples - i,
                {
                    let sample = read_i16(bytes, body + 2 * i);
                    data_vec.push(sample);
                    i = i + 1;
                }
                return Some(Wav { num_channels: num_channels as usize, sample_rate: sample_rate as i32, interleaved_samples: data_vec });
            }
            idx = body + chunk_size;
            if chunk_size % 2 == 1 {
                if idx == len {
                    assert(scan_chunks(bytes@, (idx + 1) as int, num_channels as int, sample_rate as int, bits_per_sample as int) is None);
                    return None;
                }
                idx = idx + 1;
            }
        }
        None
    }

    /// Returns the number of channels.
    pub fn num_channels(&self) -> (n: usize)
        ensures
            n == self.num_channels,
    {
        self.num_channels
    }

    /// Returns the sampling rate in Hz.
    pub fn sample_rate(&self) -> (r: i32)
        ensures
            r == self.sample_rate,
    {
        self.sample_rate
    }

    /// Returns the raw interleaved 16-bit PCM samples.
    pub fn interleaved_samples(&self) -> (s: &[i16])
        ensures
            s@ == self.interleaved_samples@,
    {
        self.interleaved_samples.as_slice()
    }
}

} // verus!

verus! {

/// Byte `k` (0 to 3, least significant first) of `v`.
pub open spec fn byte_of(v: int, k: int) -> u8 {
    let scale: int = if k == 0 {
        1
    } else if k == 1 {
        256
    } else if k == 2 {
        65536
    } else {
        16777216
    };
    ((v / scale) % 256) as u8
}

/// The canonical 44-byte header of a 16-bit PCM WAVE stream with the given format tag,
/// channel count and sample rate, whose data chunk holds `n` bytes.
pub open spec fn canonical_wav_header(format_tag: int, channels: int, rate: int, n: int) -> Seq<u8> {
    let riff = 36 + n;
    let byte_rate = rate * channels * 2;
    let align = channels * 2;
    seq![
        0x52u8, 0x49, 0x46, 0x46,
        byte_of(riff, 0), byte_of(riff, 1), byte_of(riff, 2), byte_of(riff, 3),
        0x57, 0x41, 0x56, 0x45,
        0x66, 0x6d, 0x74, 0x20,
        16, 0, 0, 0,
        byte_of(format_tag, 0), byte_of(format_tag, 1),
        byte_of(channels, 0), byte_of(channels, 1),
        byte_of(rate, 0), byte_of(rate, 1), byte_of(rate, 2), byte_of(rate, 3),
        byte_of(byte_rate, 0), byte_of(byte_rate, 1), byte_of(byte_rate, 2), byte_of(byte_rate, 3),
        byte_of(align, 0), byte_of(align, 1),
        16, 0,
        0x64, 0x61, 0x74, 0x61,
        byte_of(n, 0), byte_of(n, 1), byte_of(n, 2), byte_of(n, 3),
    ]
}

/// A canonical 16-bit PCM WAVE stream: the canonical header followed by the data bytes.
pub open spec fn canonical_wav(format_tag: int, channels: int, rate: int, data: Seq<u8>) -> Seq<u8> {
    canonical_wav_header(format_tag, channels, rate, data.len() as int) + data
}

/// The two low bytes of a 16-bit value give it back.
proof fn lemma_bytes_u16(v: int)
    requires
        0 <= v < 65536,
    ensures
        byte_of(v, 0) as int + 256 * byte_of(v, 1) as int == v,
{
}

/// The four bytes of a 32-bit value give it back.
proof fn lemma_bytes_u32(v: int)
    requires
        0 <= v < 0x1_0000_0000,
    ensures
        (byte_of(v, 0) as int + 256 * byte_of(v, 1) as int)
            + 65536 * (byte_of(v, 2) as int + 256 * byte_of(v, 3) as int) == v,
{
}

/// The fields of a canonical header, read back.
proof fn lemma_canonical_header_fields(tag: int, channels: int, rate: int, n: int)
    requires
        tag == 1 || tag == 0xFFFE,
        0 < channels < 65536,
        0 < rate < 0x8000_0000,
        0 <= n,
        n + 36 < 0x1_0000_0000,
    ensures
        ({
            let h = canonical_wav_header(tag, channels, rate, n);
            &&& h.len() == 44
            &&& has_tag(h, 0, 0x52, 0x49, 0x46, 0x46)
            &&& has_tag(h, 8, 0x57, 0x41, 0x56, 0x45)
            &&& is_fmt_tag(h, 12)
            &&& le_u32(h, 16) == 16
            &&& le_u16(h, 20) == tag
            &&& le_u16(h, 22) == channels
            &&& le_u32(h, 24) == rate
            &&& le_u16(h, 34) == 16
            &&& !is_fmt_tag(h, 36)
            &&& is_data_tag(h, 36)
            &&& le_u32(h, 40) == n
        }),
{
    lemma_bytes_u16(tag);
    lemma_bytes_u16(channels);
    lemma_bytes_u32(rate);
    lemma_bytes_u32(n);
}

/// What a canonical stream with a PCM or extensible format tag parses to.
proof fn lemma_canonical_parse_with_tag(tag: int, channels: int, rate: int, data: Seq<u8>)
    requires
        tag == 1 || tag == 0xFFFE,
        0 < channels < 65536,
        0 < rate < 0x8000_0000,
        data.len() + 36 < 0x1_0000_0000,
    ensures
        spec_parse_wav(canonical_wav(tag, channels, rate, data)) == Some((channels, rate,
            Seq::new((data.len() / 2) as nat, |k: int| le_i16(data, 2 * k) as i16))),
{
    let n = data.len() as int;
    let h = canonical_wav_header(tag, channels, rate, n);
    let b = canonical_wav(tag, channels, rate, data);
    lemma_canonical_header_fields(tag, channels, rate, n);
    assert(b.len() == 44 + n);
    assert forall|i: int| 0 <= i < 44 implies #[trigger] b[i] == h[i] by {}
    assert forall|i: int| 0 <= i < n implies #[trigger] b[44 + i] == data[i] by {}
    assert(has_tag(b, 0, 0x52, 0x49, 0x46, 0x46));
    assert(has_tag(b, 8, 0x57, 0x41, 0x56, 0x45));
    assert(is_fmt_tag(b, 12));
    assert(le_u32(b, 16) == le_u32(h, 16));
    assert(le_u16(b, 20) == le_u16(h, 20));
    assert(le_u16(b, 22) == le_u16(h, 22));
    assert(le_u32(b, 24) == le_u32(h, 24));
    assert(le_u16(b, 34) == le_u16(h, 34));
    assert(!is_fmt_tag(b, 36));
    assert(is_data_tag(b, 36));
    assert(le_u32(b, 40) == le_u32(h, 40));
    assert(scan_chunks(b, 36, channels, rate, 16) == Some((channels, rate, data_samples(b, 44, n / 2))));
    assert(scan_chunks(b, 12, 0, 0, 0) == scan_chunks(b, 36, channels, rate, 16));
    assert forall|k: int| 0 <= k < n / 2 implies #[trigger] data_samples(b, 44, n / 2)[k] == le_i16(data, 2 * k) as i16 by {
        assert(b[44 + 2 * k] == data[2 * k]);
        assert(b[44 + (2 * k + 1)] == data[2 * k + 1]);
    }
    assert(data_samples(b, 44, n / 2) =~= Seq::new((n / 2) as nat, |k: int| le_i16(data, 2 * k) as i16));
}

/// A canonical 16-bit PCM stream parses to its channel count, its sample rate and the
/// little-endian samples of its data, and it parses the same with the extensible format tag
/// (0xFFFE) as with the plain PCM tag (1).
pub proof fn lemma_canonical_wav_parses(channels: int, rate: int, data: Seq<u8>)
    requires
        0 < channels < 65536,
        0 < rate < 0x8000_0000,
        data.len() + 36 < 0x1_0000_0000,
    ensures
        ({
            let pcm = spec_parse_wav(canonical_wav(1, channels, rate, data));
            let ext = spec_parse_wav(canonical_wav(0xFFFE, channels, rate, data));
            &&& pcm matches Some((n, r, s)) && n == channels && r == rate && s.len() == data.len() / 2
                && forall|k: int| 0 <= k < s.len() ==> (#[trigger] s[k]) as int == le_i16(data, 2 * k)
            &&& ext == pcm
        }),
{
    lemma_canonical_parse_with_tag(1, channels, rate, data);
    lemma_canonical_parse_with_tag(0xFFFE, channels, rate, data);
}

} // verus!
