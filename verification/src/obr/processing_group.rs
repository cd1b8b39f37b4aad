//! Processing groups: the audio elements that share an ambisonic order and a filter profile.

use vstd::prelude::*;
use crate::config::SampleRate;
use crate::definitions::OarError;
use crate::units::Samples;
use super::audio_element_config::{AudioElementConfig, BinauralFilterProfile, spec_profile_rank};
use super::audio_element_type::{spec_is_loudspeaker_layout, spec_is_object};
use super::binaural_filters::{BinauralFilterAsset, Ear, asset_file_name, spec_asset_name};

verus! {

/// The attributes that the elements of one processing group share.
#[derive(Debug, Clone, Copy, PartialEq, Eq, Structural, PartialOrd, Ord, Hash)]
pub struct ProcessingGroupKey {
    /// The ambisonic order of the group's input elements.
    pub ambisonic_order: i32,
    /// The binaural filter profile of the group.
    pub filter_profile: BinauralFilterProfile,
}

/// Keys are ordered by ambisonic order, then by filter profile.
pub open spec fn spec_key_less(a: ProcessingGroupKey, b: ProcessingGroupKey) -> bool {
    a.ambisonic_order < b.ambisonic_order || (a.ambisonic_order == b.ambisonic_order
        && spec_profile_rank(a.filter_profile) < spec_profile_rank(b.filter_profile))
}

impl ProcessingGroupKey {
    /// Whether this key comes before `other` in the key order.
    pub fn precedes(&self, other: &Self) -> (r: bool)
        ensures
            r == spec_key_less(*self, *other),
    {
        self.ambisonic_order < other.ambisonic_order || (self.ambisonic_order == other.ambisonic_order
            && self.filter_profile.rank() < other.filter_profile.rank())
    }
}

/// The key of the processing group an element belongs to.
pub open spec fn spec_element_key(e: AudioElementConfig) -> ProcessingGroupKey {
    ProcessingGroupKey { ambisonic_order: e.spec_filter_order() as i32, filter_profile: e.spec_filter_profile() }
}

/// Whether an element's channels go through the ambisonic encoder: loudspeaker layouts
/// and objects.
pub open spec fn spec_is_encoded(e: AudioElementConfig) -> bool {
    spec_is_loudspeaker_layout(e.spec_element_type()) || spec_is_object(e.spec_element_type())
}

/// Whether an element passes a head-locking filter (`None` lets every element pass).
pub open spec fn spec_passes_filter(e: AudioElementConfig, filter: Option<bool>) -> bool {
    match filter {
        Some(locked) => e.spec_head_locked() == locked,
        None => true,
    }
}

/// The input channels of one element, in order.
pub open spec fn spec_element_channels(e: AudioElementConfig) -> Seq<usize> {
    Seq::new(e.spec_number_of_input_channels() as nat, |i: int| (e.spec_first_channel_index() + i) as usize)
}

/// The input channels that feed the ambisonic encoder, for the elements at `indices` that
/// pass the head-locking filter, in order.
pub open spec fn spec_encoder_sources(indices: Seq<usize>, elements: Seq<AudioElementConfig>, filter: Option<bool>) -> Seq<usize>
    decreases indices.len(),
{
    if indices.len() == 0 {
        Seq::empty()
    } else {
        let e = elements[indices.last() as int];
        spec_encoder_sources(indices.drop_last(), elements, filter) + if spec_is_encoded(e) && spec_passes_filter(e, filter) {
            spec_element_channels(e)
        } else {
            Seq::empty()
        }
    }
}

/// The number of encoder inputs for the elements at `indices`.
pub open spec fn spec_encoder_channel_count(indices: Seq<usize>, elements: Seq<AudioElementConfig>) -> int
    decreases indices.len(),
{
    if indices.len() == 0 {
        0
    } else {
        let e = elements[indices.last() as int];
        spec_encoder_channel_count(indices.drop_last(), elements) + if spec_is_encoded(e) {
            e.spec_number_of_input_channels()
        } else {
            0
        }
    }
}

/// Every index is that of an element, and every element is well formed.
pub open spec fn spec_indices_valid(indices: Seq<usize>, elements: Seq<AudioElementConfig>) -> bool {
    &&& forall|i: int| 0 <= i < indices.len() ==> #[trigger] indices[i] < elements.len()
    &&& forall|j: int| 0 <= j < elements.len() ==> (#[trigger] elements[j]).wf()
}

/// The encoder gets one input for each channel it encodes, whichever elements are head locked.
pub proof fn lemma_encoder_count_is_source_count(indices: Seq<usize>, elements: Seq<AudioElementConfig>)
    ensures
        spec_encoder_channel_count(indices, elements) == spec_encoder_sources(indices, elements, None).len(),
        spec_encoder_sources(indices, elements, Some(true)).len() + spec_encoder_sources(indices, elements, Some(false)).len()
            == spec_encoder_channel_count(indices, elements),
    decreases indices.len(),
{
    if indices.len() > 0 {
        lemma_encoder_count_is_source_count(indices.drop_last(), elements);
    }
}

/// DSP bookkeeping of one processing group.
#[derive(Debug, Clone, PartialEq, Eq)]
pub struct ProcessingGroup {
    key: ProcessingGroupKey,
    audio_element_indices: Vec<usize>,
    buffer_size_per_channel: Samples,
    sampling_rate: SampleRate,
}

impl ProcessingGroup {
    pub closed spec fn spec_key(&self) -> ProcessingGroupKey {
        self.key
    }

    pub closed spec fn spec_indices(&self) -> Seq<usize> {
        self.audio_element_indices@
    }

    pub closed spec fn spec_buffer_size(&self) -> Samples {
        self.buffer_size_per_channel
    }

    pub closed spec fn spec_sampling_rate(&self) -> SampleRate {
        self.sampling_rate
    }

    /// Creates a group for the elements at `audio_element_indices`.
    pub fn new(
        key: ProcessingGroupKey,
        audio_element_indices: Vec<usize>,
        buffer_size_per_channel: Samples,
        sampling_rate: SampleRate,
    ) -> (g: Self)
        ensures
            g.spec_key() == key,
            g.spec_indices() == audio_element_indices@,
            g.spec_buffer_size() == buffer_size_per_channel,
            g.spec_sampling_rate() == sampling_rate,
    {
        ProcessingGroup { key, audio_element_indices, buffer_size_per_channel, sampling_rate }
    }

    /// Appends an element index to the group.
    pub fn push_index(&mut self, index: usize)
        ensures
            final(self).spec_indices() == old(self).spec_indices().push(index),
            final(self).spec_key() == old(self).spec_key(),
            final(self).spec_buffer_size() == old(self).spec_buffer_size(),
            final(self).spec_sampling_rate() == old(self).spec_sampling_rate(),
    {
        self.audio_element_indices.push(index);
    }

    /// Returns the group's key.
    pub fn get_key(&self) -> (k: ProcessingGroupKey)
        ensures
            k == self.spec_key(),
    {
        self.key
    }

    /// Returns the indices of the group's elements.
    pub fn get_audio_element_indices(&self) -> (s: &[usize])
        ensures
            s@ == self.spec_indices(),
    {
        self.audio_element_indices.as_slice()
    }

    /// Returns the ambisonic order of the group.
    pub fn get_ambisonic_order(&self) -> (o: i32)
        ensures
            o == self.spec_key().ambisonic_order,
    {
        self.key.ambisonic_order
    }

    /// Returns the filter profile of the group.
    pub fn get_filter_profile(&self) -> (p: BinauralFilterProfile)
        ensures
            p == self.spec_key().filter_profile,
    {
        self.key.filter_profile
    }

    /// Returns the buffer size of the group.
    pub fn get_buffer_size_per_channel(&self) -> (s: Samples)
        ensures
            s == self.spec_buffer_size(),
    {
        self.buffer_size_per_channel
    }

    /// Returns the sampling rate of the group.
    pub fn get_sampling_rate(&self) -> (r: SampleRate)
        ensures
            r == self.spec_sampling_rate(),
    {
        self.sampling_rate
    }

    /// Returns the file names of the left and right filter sets of the group, or
    /// `InvalidParameter` when no filter sets exist for its ambisonic order (outside 1 to 4).
    pub fn hrir_file_names(&self) -> (r: Result<(String, String), OarError>)
        ensures
            match r {
                Ok((l, rr)) => {
                    &&& 1 <= self.spec_key().ambisonic_order <= 4
                    &&& l@ == spec_asset_name(BinauralFilterAsset {
                        order: self.spec_key().ambisonic_order,
                        profile: self.spec_key().filter_profile,
                        ear: Ear::Left,
                    })
                    &&& rr@ == spec_asset_name(BinauralFilterAsset {
                        order: self.spec_key().ambisonic_order,
                        profile: self.spec_key().filter_profile,
                        ear: Ear::Right,
                    })
                },
                Err(e) => e == OarError::InvalidParameter && !(1 <= self.spec_key().ambisonic_order <= 4),
            },
    {
        let order = self.key.ambisonic_order;
        if order < 1 || order > 4 {
            return Err(OarError::InvalidParameter);
        }
        let left = asset_file_name(BinauralFilterAsset { order, profile: self.key.filter_profile, ear: Ear::Left });
        let right = asset_file_name(BinauralFilterAsset { order, profile: self.key.filter_profile, ear: Ear::Right });
        Ok((left, right))
    }

    /// Returns the number of encoder inputs: the channels of the group's loudspeaker-layout
    /// and object elements.
    pub fn get_encoder_channels_count(&self, audio_elements: &[AudioElementConfig]) -> (n: usize)
        requires
            spec_indices_valid(self.spec_indices(), audio_elements@),
            spec_encoder_channel_count(self.spec_indices(), audio_elements@) <= usize::MAX,
        ensures
            n == spec_encoder_channel_count(self.spec_indices(), audio_elements@),
    {
        let ghost idx = self.audio_element_indices@;
        let mut count: usize = 0;
        let mut k: usize = 0;
        while k < self.audio_element_indices.len()
            invariant
                idx == self.audio_element_indices@,
                k <= idx.len(),
                spec_indices_valid(idx, audio_elements@),
                spec_encoder_channel_count(idx, audio_elements@) <= usize::MAX,
                count == spec_encoder_channel_count(idx.take(k as int), audio_elements@),
            decreases idx.len() - k,
        {
            let ae = &audio_elements[self.audio_element_indices[k]];
            proof {
                assert(idx.take(k as int + 1).drop_last() =~= idx.take(k as int));
                lemma_count_prefix_monotone(idx, audio_elements@, k as int + 1);
            }
            if ae.element_type().is_loudspeaker_layout() || ae.element_type().is_object() {
                count = count + ae.get_number_of_input_channels();
            }
            k = k + 1;
        }
        assert(idx.take(idx.len() as int) =~= idx);
        count
    }

    /// Appends to `out_indices` the input channels that feed the ambisonic encoder, for the
    /// elements at `audio_element_indices` that pass the head-locking filter.
    pub fn populate_encoder_source_channel_indices(
        audio_element_indices: &[usize],
        audio_elements: &[AudioElementConfig],
        filter_head_locked: Option<bool>,
        out_indices: &mut Vec<usize>,
    )
        requires
            spec_indices_valid(audio_element_indices@, audio_elements@),
        ensures
            final(out_indices)@ == old(out_indices)@ + spec_encoder_sources(audio_element_indices@, audio_elements@, filter_head_locked),
    {
        let ghost idx = audio_element_indices@;
        let mut k: usize = 0;
        while k < audio_element_indices.len()
            invariant
                idx == audio_element_indices@,
                k <= idx.len(),
                spec_indices_valid(idx, audio_elements@),
                out_indices@ == old(out_indices)@ + spec_encoder_sources(idx.take(k as int), audio_elements@, filter_head_locked),
            decreases idx.len() - k,
        {
            let ae = &audio_elements[audio_element_indices[k]];
            let ghost before = out_indices@;
            proof {
                assert(idx.take(k as int + 1).drop_last() =~= idx.take(k as int));
            }
            let passes = match filter_head_locked {
                Some(target) => ae.is_head_locked() == target,
                None => true,
            };
            if passes && (ae.element_type().is_loudspeaker_layout() || ae.element_type().is_object()) {
                let n = ae.get_number_of_input_channels();
                let first = ae.get_first_channel_index();
                let mut i: usize = 0;
                while i < n
                    invariant
                        i <= n,
                        first + n <= usize::MAX,
                        out_indices@ == before + Seq::new(i as nat, |j: int| (first + j) as usize),
                    decreases n - i,
                {
                    out_indices.push(first + i);
                    i = i + 1;
                }
            } else {
            }
            k = k + 1;
        }
        assert(idx.take(idx.len() as int) =~= idx);
    }
}

/// The encoder count of a prefix never exceeds that of the whole.
proof fn lemma_count_prefix_monotone(indices: Seq<usize>, elements: Seq<AudioElementConfig>, k: int)
    requires
        0 <= k <= indices.len(),
    ensures
        spec_encoder_channel_count(indices.take(k), elements) <= spec_encoder_channel_count(indices, elements),
    decreases indices.len() - k,
{
    if k < indices.len() {
        lemma_count_prefix_monotone(indices, elements, k + 1);
        assert(indices.take(k + 1).drop_last() =~= indices.take(k));
    } else {
        assert(indices.take(k) =~= indices);
    }
}

} // verus!
