//! Channel layout of planar audio buffers: each channel occupies an aligned region of
//! one contiguous sample array.

use vstd::prelude::*;

verus! {

/// Memory alignment of every channel of an audio buffer, in bytes.
pub const MEMORY_ALIGNMENT_BYTES: usize = 64;

/// Size in bytes of one sample.
pub const SAMPLE_SIZE_BYTES: usize = 4;

/// Smallest multiple of `align` that is at least `n`.
pub open spec fn round_up(n: int, align: int) -> int {
    if n % align == 0 {
        n
    } else {
        n + align - n % align
    }
}

/// Returns the number of elements, at least `length`, whose byte size is the smallest
/// multiple of `memory_alignment_bytes` that can hold `length` elements.
pub fn find_next_aligned_array_index(
    length: usize,
    type_size_bytes: usize,
    memory_alignment_bytes: usize,
) -> (r: usize)
    requires
        type_size_bytes > 0,
        memory_alignment_bytes > 0,
        type_size_bytes * length + memory_alignment_bytes <= usize::MAX,
    ensures
        r == round_up(type_size_bytes * length, memory_alignment_bytes as int) / type_size_bytes as int,
        r >= length,
{
    let byte_length = type_size_bytes * length;
    let unaligned_bytes = byte_length % memory_alignment_bytes;
    let bytes_to_next_aligned = if unaligned_bytes == 0 {
        0
    } else {
        memory_alignment_bytes - unaligned_bytes
    };
    assert((byte_length + bytes_to_next_aligned) / type_size_bytes as int >= length) by (nonlinear_arith)
        requires
            type_size_bytes > 0,
            byte_length == type_size_bytes * length,
            bytes_to_next_aligned >= 0,
    ;
    (byte_length + bytes_to_next_aligned) / type_size_bytes
}

/// Location of one channel inside a buffer's sample array.
#[derive(Debug, Clone, Copy, PartialEq, Eq, Structural)]
pub struct ChannelSpec {
    pub offset: usize,
    pub size: usize,
    pub enabled: bool,
}

impl ChannelSpec {
    /// Creates an enabled channel of `size` samples starting at `offset`.
    pub fn new(offset: usize, size: usize) -> (c: Self)
        ensures
            c == (ChannelSpec { offset, size, enabled: true }),
    {
        Self { offset, size, enabled: true }
    }
}

/// Number of samples between the starts of two consecutive channels holding `num_frames`
/// samples each: the aligned size of one channel.
pub open spec fn spec_channel_stride(num_frames: int) -> int {
    round_up(4 * num_frames, 64) / 4
}

/// The channel layout of an audio buffer of `num_channels` channels of `num_frames`
/// samples each. Channel `i` starts at `i * stride`.
#[derive(Debug, Clone, PartialEq, Eq)]
pub struct AudioBufferLayout {
    num_frames: usize,
    data_size: usize,
    channel_specs: Vec<ChannelSpec>,
}

impl AudioBufferLayout {
    /// Number of samples per channel.
    pub closed spec fn spec_num_frames(&self) -> int {
        self.num_frames as int
    }

    /// Size of the sample array holding all channels.
    pub closed spec fn spec_data_size(&self) -> int {
        self.data_size as int
    }

    /// The channels, in order.
    pub closed spec fn spec_channels(&self) -> Seq<ChannelSpec> {
        self.channel_specs@
    }

    /// The layout is the aligned layout of its channel count and frame count.
    pub open spec fn wf(&self) -> bool {
        let stride = spec_channel_stride(self.spec_num_frames());
        &&& self.spec_data_size() == self.spec_channels().len() * stride
        &&& forall|i: int|
            0 <= i < self.spec_channels().len() ==> {
                &&& (#[trigger] self.spec_channels()[i]).offset == i * stride
                &&& self.spec_channels()[i].size == self.spec_num_frames()
            }
    }

    /// Creates the layout of `num_channels` enabled channels of `num_frames` samples each.
    pub fn new(num_channels: usize, num_frames: usize) -> (l: Self)
        requires
            4 * num_frames + 64 <= usize::MAX,
            num_channels * spec_channel_stride(num_frames as int) <= usize::MAX,
        ensures
            l.wf(),
            l.spec_num_frames() == num_frames,
            l.spec_channels().len() == num_channels,
            forall|i: int| 0 <= i < num_channels ==> (#[trigger] l.spec_channels()[i]).enabled,
    {
        let mut layout = Self { num_frames, data_size: 0, channel_specs: Vec::new() };
        layout.init_channel_views(num_channels);
        layout
    }

    /// Lays out `num_channels` enabled channels for the current frame count.
    fn init_channel_views(&mut self, num_channels: usize)
        requires
            4 * old(self).num_frames + 64 <= usize::MAX,
            num_channels * spec_channel_stride(old(self).num_frames as int) <= usize::MAX,
        ensures
            final(self).wf(),
            final(self).num_frames == old(self).num_frames,
            final(self).channel_specs@.len() == num_channels,
            forall|i: int| 0 <= i < num_channels ==> (#[trigger] final(self).channel_specs@[i]).enabled,
    {
        let stride = find_next_aligned_array_index(self.num_frames, SAMPLE_SIZE_BYTES, MEMORY_ALIGNMENT_BYTES);
        let data_size = num_channels * stride;
        self.data_size = data_size;
        self.channel_specs.clear();
        let mut i: usize = 0;
        while i < num_channels
            invariant
                i <= num_channels,
                stride == spec_channel_stride(self.num_frames as int),
                self.num_frames == old(self).num_frames,
                num_channels * stride <= usize::MAX,
                self.data_size == num_channels * stride,
                self.channel_specs@.len() == i,
                forall|j: int|
                    0 <= j < i ==> {
                        &&& (#[trigger] self.channel_specs@[j]).offset == j * stride
                        &&& self.channel_specs@[j].size == self.num_frames
                        &&& self.channel_specs@[j].enabled
                    },
            decreases num_channels - i,
        {
            assert(i * stride <= num_channels * stride) by (nonlinear_arith)
                requires
                    i <= num_channels,
                    stride >= 0,
            ;
            self.channel_specs.push(ChannelSpec::new(i * stride, self.num_frames));
            i = i + 1;
        }
    }

    /// Returns the number of channels.
    pub fn num_channels(&self) -> (n: usize)
        ensures
            n == self.spec_channels().len(),
    {
        self.channel_specs.len()
    }

    /// Returns the number of samples per channel.
    pub fn num_frames(&self) -> (n: usize)
        ensures
            n == self.spec_num_frames(),
    {
        self.num_frames
    }

    /// Returns the size of the sample array holding all channels.
    pub fn data_size(&self) -> (n: usize)
        ensures
            n == self.spec_data_size(),
    {
        self.data_size
    }

    /// Returns the distance in samples between the starts of consecutive channels.
    pub fn get_channel_stride(&self) -> (s: usize)
        requires
            4 * self.spec_num_frames() + 64 <= usize::MAX,
        ensures
            s == spec_channel_stride(self.spec_num_frames()),
    {
        find_next_aligned_array_index(self.num_frames, SAMPLE_SIZE_BYTES, MEMORY_ALIGNMENT_BYTES)
    }

    /// Returns the location of a channel.
    pub fn channel(&self, channel: usize) -> (c: ChannelSpec)
        requires
            channel < self.spec_channels().len(),
        ensures
            c == self.spec_channels()[channel as int],
    {
        self.channel_specs[channel]
    }

    /// Enables every channel.
    pub fn enable_all(&mut self)
        ensures
            final(self).spec_num_frames() == old(self).spec_num_frames(),
            final(self).spec_data_size() == old(self).spec_data_size(),
            final(self).spec_channels().len() == old(self).spec_channels().len(),
            forall|i: int|
                0 <= i < final(self).spec_channels().len() ==> #[trigger] final(self).spec_channels()[i]
                    == (ChannelSpec { enabled: true, ..old(self).spec_channels()[i] }),
    {
        let n = self.channel_specs.len();
        let mut i: usize = 0;
        while i < n
            invariant
                i <= n,
                n == self.channel_specs@.len(),
                self.num_frames == old(self).num_frames,
                self.data_size == old(self).data_size,
                self.channel_specs@.len() == old(self).channel_specs@.len(),
                forall|j: int|
                    0 <= j < n ==> #[trigger] self.channel_specs@[j] == (if j < i {
                        ChannelSpec { enabled: true, ..old(self).channel_specs@[j] }
                    } else {
                        old(self).channel_specs@[j]
                    }),
            decreases n - i,
        {
            let spec = self.channel_specs[i];
            self.channel_specs.set(i, ChannelSpec { enabled: true, ..spec });
            i = i + 1;
        }
    }

    /// Enables or disables one channel.
    pub fn set_channel_enabled(&mut self, channel: usize, enabled: bool)
        requires
            channel < old(self).spec_channels().len(),
        ensures
            final(self).spec_num_frames() == old(self).spec_num_frames(),
            final(self).spec_data_size() == old(self).spec_data_size(),
            final(self).spec_channels() == old(self).spec_channels().update(
                channel as int,
                ChannelSpec { enabled, ..old(self).spec_channels()[channel as int] },
            ),
    {
        let spec = self.channel_specs[channel];
        self.channel_specs.set(channel, ChannelSpec { enabled, ..spec });
    }

    /// Whether a channel is enabled.
    pub fn is_channel_enabled(&self, channel: usize) -> (b: bool)
        requires
            channel < self.spec_channels().len(),
        ensures
            b == self.spec_channels()[channel as int].enabled,
    {
        self.channel_specs[channel].enabled
    }

    /// Changes the channel count and frame count; when either changes, all channels are
    /// laid out anew and enabled, otherwise nothing changes.
    pub fn resize(&mut self, num_channels: usize, num_frames: usize)
        requires
            4 * num_frames + 64 <= usize::MAX,
            num_channels * spec_channel_stride(num_frames as int) <= usize::MAX,
        ensures
            (old(self).spec_channels().len() == num_channels && old(self).spec_num_frames() == num_frames)
                ==> *final(self) == *old(self),
            !(old(self).spec_channels().len() == num_channels && old(self).spec_num_frames() == num_frames)
                ==> {
                &&& final(self).wf()
                &&& final(self).spec_num_frames() == num_frames
                &&& final(self).spec_channels().len() == num_channels
                &&& forall|i: int| 0 <= i < num_channels ==> (#[trigger] final(self).spec_channels()[i]).enabled
            },
    {
        if self.channel_specs.len() != num_channels || self.num_frames != num_frames {
            self.num_frames = num_frames;
            self.init_channel_views(num_channels);
        }
    }
}

/// In a well-formed layout the channels lie inside the sample array, in order and
/// without overlap, each starting at a multiple of the memory alignment.
pub proof fn lemma_channels_disjoint_and_aligned(l: AudioBufferLayout, i: int, j: int)
    requires
        l.wf(),
        0 <= i < j < l.spec_channels().len(),
    ensures
        l.spec_channels()[i].offset + l.spec_channels()[i].size <= l.spec_channels()[j].offset,
        l.spec_channels()[j].offset + l.spec_channels()[j].size <= l.spec_data_size(),
        (4 * l.spec_channels()[i].offset) % 64 == 0,
{
    let n = l.spec_num_frames();
    let stride = spec_channel_stride(n);
    let bytes = round_up(4 * n, 64);
    assert(bytes % 64 == 0 && bytes >= 4 * n && bytes % 4 == 0) by (nonlinear_arith)
        requires
            n >= 0,
            bytes == (if (4 * n) % 64 == 0 { 4 * n } else { 4 * n + 64 - (4 * n) % 64 }),
    ;
    assert(stride * 4 == bytes && stride >= n) by (nonlinear_arith)
        requires
            stride == bytes / 4,
            bytes % 4 == 0,
            bytes >= 4 * n,
    ;
    assert(i * stride + n <= j * stride) by (nonlinear_arith)
        requires
            i < j,
            stride >= n,
            n >= 0,
    ;
    let len = l.spec_channels().len() as int;
    assert(j * stride + stride <= len * stride) by (nonlinear_arith)
        requires
            j + 1 <= len,
            stride >= 0,
    ;
    let k = bytes / 64;
    assert(4 * (i * stride) == (i * k) * 64) by (nonlinear_arith)
        requires
            stride * 4 == bytes,
            bytes % 64 == 0,
            k == bytes / 64,
    ;
    vstd::arithmetic::div_mod::lemma_mod_multiples_basic(i * k, 64);
}

} // verus!
