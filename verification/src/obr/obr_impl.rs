//! The binaural renderer's bookkeeping: its audio elements, their input channels and the
//! processing groups that render them.

use vstd::prelude::*;
use crate::config::SampleRate;
use crate::definitions::OarError;
use crate::units::Samples;
use super::audio_element_config::{
    AudioElementConfig, BinauralFilterProfile, spec_kind_channel_count, spec_kind_filter_order,
};
use super::audio_element_type::{AudioElementType, spec_ambisonic_order, spec_is_ambisonics, spec_is_passthrough};
use super::constants::{MAX_SUPPORTED_NUM_INPUT_CHANNELS, NUM_BINAURAL_CHANNELS};
use crate::config::{
    AudioElementConfig as OarAudioElementConfig, BinauralFilterProfile as OarBinauralFilterProfile,
    HeadphonesRenderingMode, spec_element_channels, spec_element_rendering_config,
};
use crate::hoa::HighOrderAmbisonics;
use crate::layout::{Layout, spec_height_and_surround, spec_layout_channels};
use super::loudspeaker_layouts::{spec_count_ear_level, spec_count_height, spec_count_lfe, spec_layout_speakers};
use super::processing_group::{ProcessingGroup, ProcessingGroupKey, spec_element_key, spec_key_less};

verus! {

/// The number of input channels of a sequence of elements.
pub open spec fn spec_total_channels(els: Seq<AudioElementConfig>) -> int
    decreases els.len(),
{
    if els.len() == 0 {
        0
    } else {
        spec_total_channels(els.drop_last()) + els.last().spec_number_of_input_channels()
    }
}

/// Every element is well formed, and its channels follow those of the elements before it.
pub open spec fn spec_elements_contiguous(els: Seq<AudioElementConfig>) -> bool {
    forall|i: int| 0 <= i < els.len() ==> {
        &&& (#[trigger] els[i]).wf()
        &&& els[i].spec_first_channel_index() == spec_total_channels(els.take(i))
    }
}

/// Whether an element is rendered by the processing group with the given key.
pub open spec fn spec_in_group(e: AudioElementConfig, key: ProcessingGroupKey) -> bool {
    !spec_is_passthrough(e.spec_element_type()) && spec_element_key(e) == key
}

/// The indices of the elements rendered by the group with the given key, ascending.
pub open spec fn spec_group_indices(els: Seq<AudioElementConfig>, key: ProcessingGroupKey) -> Seq<usize>
    decreases els.len(),
{
    if els.len() == 0 {
        Seq::empty()
    } else {
        spec_group_indices(els.drop_last(), key) + if spec_in_group(els.last(), key) {
            seq![(els.len() - 1) as usize]
        } else {
            Seq::empty()
        }
    }
}

/// The group keys are ascending, each is the key of some element, and each element that is
/// not passed through has its key among them.
pub open spec fn spec_group_keys_ok(groups: Seq<ProcessingGroup>, els: Seq<AudioElementConfig>) -> bool {
    &&& forall|a: int, b: int| 0 <= a < b < groups.len()
        ==> spec_key_less(#[trigger] groups[a].spec_key(), #[trigger] groups[b].spec_key())
    &&& forall|a: int| 0 <= a < groups.len() ==> spec_key_used((#[trigger] groups[a]).spec_key(), els)
    &&& forall|i: int| 0 <= i < els.len() && !spec_is_passthrough((#[trigger] els[i]).spec_element_type())
        ==> exists|a: int| 0 <= a < groups.len() && (#[trigger] groups[a]).spec_key() == spec_element_key(els[i])
}

/// The groups are those of the elements: one per key, in key order, each with the indices
/// of its elements and the renderer's buffer size and sampling rate.
pub open spec fn spec_groups_match(
    groups: Seq<ProcessingGroup>,
    els: Seq<AudioElementConfig>,
    buffer_size: Samples,
    sampling_rate: SampleRate,
) -> bool {
    &&& spec_group_keys_ok(groups, els)
    &&& forall|g: int| 0 <= g < groups.len() ==> {
        &&& (#[trigger] groups[g]).spec_indices() == spec_group_indices(els, groups[g].spec_key())
        &&& groups[g].spec_buffer_size() == buffer_size
        &&& groups[g].spec_sampling_rate() == sampling_rate
    }
}

/// An index is in the group of a key exactly when its element is rendered by that group;
/// the indices are ascending.
pub proof fn lemma_group_indices_members(els: Seq<AudioElementConfig>, key: ProcessingGroupKey)
    requires
        els.len() <= usize::MAX,
    ensures
        forall|k: int| 0 <= k < spec_group_indices(els, key).len() ==> {
            &&& (#[trigger] spec_group_indices(els, key)[k]) < els.len()
            &&& spec_in_group(els[spec_group_indices(els, key)[k] as int], key)
        },
        forall|k1: int, k2: int| 0 <= k1 < k2 < spec_group_indices(els, key).len()
            ==> spec_group_indices(els, key)[k1] < spec_group_indices(els, key)[k2],
    decreases els.len(),
{
    if els.len() > 0 {
        let prev = els.drop_last();
        lemma_group_indices_members(prev, key);
        let s = spec_group_indices(els, key);
        let sp = spec_group_indices(prev, key);
        assert forall|k: int| 0 <= k < s.len() implies {
            &&& (#[trigger] s[k]) < els.len()
            &&& spec_in_group(els[s[k] as int], key)
        } by {
            if k < sp.len() {
            } else {
            }
        }
        assert forall|k1: int, k2: int| 0 <= k1 < k2 < s.len() implies s[k1] < s[k2] by {
            if k2 < sp.len() {
            } else {
            }
        }
    }
}

/// An element's index is in the group of a key exactly when the element is rendered by
/// that group.
pub proof fn lemma_in_group_iff(els: Seq<AudioElementConfig>, key: ProcessingGroupKey, i: int)
    requires
        els.len() <= usize::MAX,
        0 <= i < els.len(),
    ensures
        spec_group_indices(els, key).contains(i as usize) <==> spec_in_group(els[i], key),
    decreases els.len(),
{
    let prev = els.drop_last();
    let s = spec_group_indices(els, key);
    let sp = spec_group_indices(prev, key);
    lemma_group_indices_members(els, key);
    if spec_in_group(els[i], key) {
        if i < els.len() - 1 {
            lemma_in_group_iff(prev, key, i);
            let k = choose|k: int| 0 <= k < sp.len() && sp[k] == i as usize;
            assert(s[k] == i as usize);
        } else {
            assert(s[s.len() - 1] == i as usize);
        }
    }
    if s.contains(i as usize) {
    }
}

/// Each element that is not passed through is rendered by exactly one processing group, and
/// no element that is passed through is rendered by any.
pub proof fn lemma_groups_partition_elements(
    groups: Seq<ProcessingGroup>,
    els: Seq<AudioElementConfig>,
    buffer_size: Samples,
    sampling_rate: SampleRate,
    i: int,
)
    requires
        spec_groups_match(groups, els, buffer_size, sampling_rate),
        els.len() <= usize::MAX,
        0 <= i < els.len(),
    ensures
        spec_is_passthrough(els[i].spec_element_type()) ==> forall|g: int| 0 <= g < groups.len()
            ==> !(#[trigger] groups[g]).spec_indices().contains(i as usize),
        !spec_is_passthrough(els[i].spec_element_type()) ==> exists|g: int| 0 <= g < groups.len()
            && (#[trigger] groups[g]).spec_indices().contains(i as usize),
        forall|g1: int, g2: int| 0 <= g1 < groups.len() && 0 <= g2 < groups.len()
            && (#[trigger] groups[g1]).spec_indices().contains(i as usize)
            && (#[trigger] groups[g2]).spec_indices().contains(i as usize) ==> g1 == g2,
{
    assert forall|g: int| 0 <= g < groups.len() implies
        ((#[trigger] groups[g]).spec_indices().contains(i as usize) <==> spec_in_group(els[i], groups[g].spec_key())) by {
        lemma_in_group_iff(els, groups[g].spec_key(), i);
    }
    if !spec_is_passthrough(els[i].spec_element_type()) {
    }
    assert forall|g1: int, g2: int| 0 <= g1 < groups.len() && 0 <= g2 < groups.len()
        && (#[trigger] groups[g1]).spec_indices().contains(i as usize)
        && (#[trigger] groups[g2]).spec_indices().contains(i as usize) implies g1 == g2 by {
        if g1 < g2 {
        } else if g2 < g1 {
        }
    }
}

/// An element kind has at most 25 input channels.
pub proof fn lemma_kind_channel_count_bounded(t: AudioElementType)
    ensures
        0 <= spec_kind_channel_count(t) <= 25,
{
    if spec_is_ambisonics(t) {
        let o = spec_ambisonic_order(t)->0;
        assert((o + 1) * (o + 1) <= 25) by (nonlinear_arith)
            requires
                1 <= o <= 4,
        ;
    }
}

/// Elements rendered by a processing group use filters of an order from 1 to 4.
pub proof fn lemma_grouped_filter_order_supported(e: AudioElementConfig)
    requires
        e.wf(),
        !spec_is_passthrough(e.spec_element_type()),
    ensures
        1 <= e.spec_filter_order() <= 4,
{
}

/// The keys are strictly ascending.
pub open spec fn spec_keys_ascending(keys: Seq<ProcessingGroupKey>) -> bool {
    forall|a: int, b: int| 0 <= a < b < keys.len() ==> spec_key_less(#[trigger] keys[a], #[trigger] keys[b])
}

/// Some element is rendered by the group with this key.
pub open spec fn spec_key_used(key: ProcessingGroupKey, els: Seq<AudioElementConfig>) -> bool {
    exists|i: int| 0 <= i < els.len() && spec_in_group(#[trigger] els[i], key)
}

/// Each key is that of some element rendered by a group.
pub open spec fn spec_keys_used(keys: Seq<ProcessingGroupKey>, els: Seq<AudioElementConfig>) -> bool {
    forall|a: int| 0 <= a < keys.len() ==> spec_key_used(#[trigger] keys[a], els)
}

/// The key of each element that is not passed through is among the keys.
pub open spec fn spec_keys_complete(keys: Seq<ProcessingGroupKey>, els: Seq<AudioElementConfig>) -> bool {
    forall|i: int| 0 <= i < els.len() && !spec_is_passthrough((#[trigger] els[i]).spec_element_type())
        ==> exists|a: int| 0 <= a < keys.len() && #[trigger] keys[a] == spec_element_key(els[i])
}

/// The keys are ascending, each is the key of some element, and each element that is not
/// passed through has its key among them.
pub open spec fn spec_keys_ok(keys: Seq<ProcessingGroupKey>, els: Seq<AudioElementConfig>) -> bool {
    &&& spec_keys_ascending(keys)
    &&& spec_keys_used(keys, els)
    &&& spec_keys_complete(keys, els)
}

fn element_key(e: &AudioElementConfig) -> (k: ProcessingGroupKey)
    ensures
        k == spec_element_key(*e),
{
    ProcessingGroupKey { ambisonic_order: e.get_binaural_filters_ambisonic_order(), filter_profile: e.get_binaural_filter_profile() }
}

proof fn lemma_keys_step_keep(keys: Seq<ProcessingGroupKey>, prefix: Seq<AudioElementConfig>, e: AudioElementConfig)
    requires
        spec_keys_ok(keys, prefix),
        spec_is_passthrough(e.spec_element_type()) || keys.contains(spec_element_key(e)),
    ensures
        spec_keys_ok(keys, prefix.push(e)),
{
    let next = prefix.push(e);
    assert forall|a: int| 0 <= a < keys.len() implies spec_key_used(#[trigger] keys[a], next) by {
        let j = choose|j: int| 0 <= j < prefix.len() && spec_in_group(#[trigger] prefix[j], keys[a]);
        assert(next[j] == prefix[j]);
    }
    assert forall|j: int| 0 <= j < next.len() && !spec_is_passthrough((#[trigger] next[j]).spec_element_type())
        implies exists|a: int| 0 <= a < keys.len() && #[trigger] keys[a] == spec_element_key(next[j]) by {
        if j < prefix.len() {
        } else {
        }
    }
}

proof fn lemma_insert_keeps_keys_ascending(keys: Seq<ProcessingGroupKey>, key: ProcessingGroupKey, p: int)
    requires
        spec_keys_ascending(keys),
        0 <= p <= keys.len(),
        forall|q: int| 0 <= q < p ==> spec_key_less(#[trigger] keys[q], key),
        p < keys.len() ==> !spec_key_less(keys[p], key) && keys[p] != key,
    ensures
        spec_keys_ascending(keys.insert(p, key)),
{
    let nk = keys.insert(p, key);
    if p < keys.len() {
    }
    assert forall|a: int, b: int| 0 <= a < b < nk.len() implies spec_key_less(#[trigger] nk[a], #[trigger] nk[b]) by {
        if b < p {
        } else if b == p {
        } else if a < p {
            if b - 1 > p {
            }
        } else if a == p {
            if b - 1 > p {
            }
        } else {
        }
    }
}

proof fn lemma_insert_keeps_keys_used(keys: Seq<ProcessingGroupKey>, prefix: Seq<AudioElementConfig>, e: AudioElementConfig, p: int)
    requires
        spec_keys_used(keys, prefix),
        !spec_is_passthrough(e.spec_element_type()),
        0 <= p <= keys.len(),
    ensures
        spec_keys_used(keys.insert(p, spec_element_key(e)), prefix.push(e)),
{
    let nk = keys.insert(p, spec_element_key(e));
    let next = prefix.push(e);
    assert forall|a: int| 0 <= a < nk.len() implies spec_key_used(#[trigger] nk[a], next) by {
        if a == p {
            assert(spec_in_group(next[prefix.len() as int], nk[a]));
        } else {
            let oa = if a < p { a } else { a - 1 };
            let j = choose|j: int| 0 <= j < prefix.len() && spec_in_group(#[trigger] prefix[j], keys[oa]);
            assert(spec_in_group(next[j], nk[a]));
        }
    }
}

proof fn lemma_insert_keeps_keys_complete(keys: Seq<ProcessingGroupKey>, prefix: Seq<AudioElementConfig>, e: AudioElementConfig, p: int)
    requires
        spec_keys_complete(keys, prefix),
        0 <= p <= keys.len(),
    ensures
        spec_keys_complete(keys.insert(p, spec_element_key(e)), prefix.push(e)),
{
    let nk = keys.insert(p, spec_element_key(e));
    let next = prefix.push(e);
    assert forall|j: int| 0 <= j < next.len() && !spec_is_passthrough((#[trigger] next[j]).spec_element_type())
        implies exists|a: int| 0 <= a < nk.len() && #[trigger] nk[a] == spec_element_key(next[j]) by {
        if j < prefix.len() {
            let a = choose|a: int| 0 <= a < keys.len() && #[trigger] keys[a] == spec_element_key(prefix[j]);
            if a < p {
                assert(nk[a] == keys[a]);
            } else {
                assert(nk[a + 1] == keys[a]);
            }
        } else {
            assert(nk[p] == spec_element_key(next[j]));
        }
    }
}

proof fn lemma_keys_step_insert(
    keys: Seq<ProcessingGroupKey>,
    prefix: Seq<AudioElementConfig>,
    e: AudioElementConfig,
    p: int,
)
    requires
        spec_keys_ok(keys, prefix),
        !spec_is_passthrough(e.spec_element_type()),
        0 <= p <= keys.len(),
        forall|q: int| 0 <= q < p ==> spec_key_less(#[trigger] keys[q], spec_element_key(e)),
        p < keys.len() ==> !spec_key_less(keys[p], spec_element_key(e)) && keys[p] != spec_element_key(e),
    ensures
        spec_keys_ok(keys.insert(p, spec_element_key(e)), prefix.push(e)),
{
    lemma_insert_keeps_keys_ascending(keys, spec_element_key(e), p);
    lemma_insert_keeps_keys_used(keys, prefix, e, p);
    lemma_insert_keeps_keys_complete(keys, prefix, e, p);
}

/// The keys of the groups of the elements, ascending.
fn collect_group_keys(els: &[AudioElementConfig]) -> (keys: Vec<ProcessingGroupKey>)
    ensures
        spec_keys_ok(keys@, els@),
{
    let mut keys: Vec<ProcessingGroupKey> = Vec::new();
    let mut i: usize = 0;
    while i < els.len()
        invariant
            i <= els@.len(),
            spec_keys_ok(keys@, els@.take(i as int)),
        decreases els@.len() - i,
    {
        let ghost old_keys = keys@;
        proof {
            assert(els@.take(i as int + 1) =~= els@.take(i as int).push(els@[i as int]));
        }
        let e = &els[i];
        if !e.element_type().is_passthrough() {
            let key = element_key(e);
            let mut p: usize = 0;
            while p < keys.len() && keys[p].precedes(&key)
                invariant
                    p <= keys@.len(),
                    keys@ == old_keys,
                    forall|q: int| 0 <= q < p ==> spec_key_less(#[trigger] keys@[q], key),
                decreases keys@.len() - p,
            {
                p = p + 1;
            }
            if p < keys.len() && keys[p] == key {
                proof {
                    lemma_keys_step_keep(old_keys, els@.take(i as int), *e);
                }
            } else {
                keys.insert(p, key);
                proof {
                    lemma_keys_step_insert(old_keys, els@.take(i as int), *e, p as int);
                }
            }
        } else {
            proof {
                lemma_keys_step_keep(old_keys, els@.take(i as int), *e);
            }
        }
        i = i + 1;
    }
    assert(els@.take(els@.len() as int) =~= els@);
    keys
}

/// The indices of the elements rendered by the group with the given key, ascending.
fn group_indices(els: &[AudioElementConfig], key: ProcessingGroupKey) -> (v: Vec<usize>)
    ensures
        v@ == spec_group_indices(els@, key),
{
    let mut v: Vec<usize> = Vec::new();
    let mut i: usize = 0;
    while i < els.len()
        invariant
            i <= els@.len(),
            v@ == spec_group_indices(els@.take(i as int), key),
        decreases els@.len() - i,
    {
        proof {
            assert(els@.take(i as int + 1).drop_last() =~= els@.take(i as int));
        }
        let e = &els[i];
        if !e.element_type().is_passthrough() && element_key(e) == key {
            v.push(i);
        }
        i = i + 1;
    }
    assert(els@.take(els@.len() as int) =~= els@);
    v
}

/// The processing groups of the elements: one per key, in key order.
fn processing_groups_for(els: &[AudioElementConfig], buffer_size: Samples, sampling_rate: SampleRate) -> (groups: Vec<ProcessingGroup>)
    ensures
        spec_groups_match(groups@, els@, buffer_size, sampling_rate),
{
    let keys = collect_group_keys(els);
    let mut groups: Vec<ProcessingGroup> = Vec::new();
    let mut g: usize = 0;
    while g < keys.len()
        invariant
            g <= keys@.len(),
            spec_keys_ok(keys@, els@),
            groups@.len() == g,
            forall|q: int| 0 <= q < g ==> {
                &&& (#[trigger] groups@[q]).spec_key() == keys@[q]
                &&& groups@[q].spec_indices() == spec_group_indices(els@, keys@[q])
                &&& groups@[q].spec_buffer_size() == buffer_size
                &&& groups@[q].spec_sampling_rate() == sampling_rate
            },
        decreases keys@.len() - g,
    {
        let key = keys[g];
        let indices = group_indices(els, key);
        groups.push(ProcessingGroup::new(key, indices, buffer_size, sampling_rate));
        g = g + 1;
    }
    proof {
        let gs = groups@;
        assert forall|a: int, b: int| 0 <= a < b < gs.len() implies spec_key_less(#[trigger] gs[a].spec_key(), #[trigger] gs[b].spec_key()) by {}
        assert forall|a: int| 0 <= a < gs.len() implies spec_key_used((#[trigger] gs[a]).spec_key(), els@) by {}
        assert forall|i: int| 0 <= i < els@.len() && !spec_is_passthrough((#[trigger] els@[i]).spec_element_type())
            implies exists|a: int| 0 <= a < gs.len() && (#[trigger] gs[a]).spec_key() == spec_element_key(els@[i]) by {
            let a = choose|a: int| 0 <= a < keys@.len() && #[trigger] keys@[a] == spec_element_key(els@[i]);
            assert(gs[a].spec_key() == keys@[a]);
        }
    }
    groups
}

/// Sequences of elements that differ at most in head locking have the same groups.
proof fn lemma_group_indices_same_keys(a: Seq<AudioElementConfig>, b: Seq<AudioElementConfig>, key: ProcessingGroupKey)
    requires
        a.len() == b.len(),
        forall|i: int| 0 <= i < a.len() ==> spec_in_group(#[trigger] a[i], key) == spec_in_group(b[i], key),
    ensures
        spec_group_indices(a, key) == spec_group_indices(b, key),
    decreases a.len(),
{
    if a.len() > 0 {
        let pa = a.drop_last();
        let pb = b.drop_last();
        assert forall|i: int| 0 <= i < pa.len() implies spec_in_group(#[trigger] pa[i], key) == spec_in_group(pb[i], key) by {}
        lemma_group_indices_same_keys(pa, pb, key);
    }
}

/// Sequences with the same channel counts have the same total.
proof fn lemma_total_same_counts(a: Seq<AudioElementConfig>, b: Seq<AudioElementConfig>)
    requires
        a.len() == b.len(),
        forall|i: int| 0 <= i < a.len() ==> (#[trigger] a[i]).spec_number_of_input_channels() == b[i].spec_number_of_input_channels(),
    ensures
        spec_total_channels(a) == spec_total_channels(b),
    decreases a.len(),
{
    if a.len() > 0 {
        let pa = a.drop_last();
        let pb = b.drop_last();
        assert forall|i: int| 0 <= i < pa.len() implies (#[trigger] pa[i]).spec_number_of_input_channels() == pb[i].spec_number_of_input_channels() by {}
        lemma_total_same_counts(pa, pb);
    }
}

/// The total of a prefix never exceeds the total of the whole.
proof fn lemma_total_prefix(els: Seq<AudioElementConfig>, k: int)
    requires
        0 <= k <= els.len(),
    ensures
        spec_total_channels(els.take(k)) + els[k].spec_number_of_input_channels() <= spec_total_channels(els) || k == els.len(),
        spec_total_channels(els.take(k)) <= spec_total_channels(els),
    decreases els.len() - k,
{
    if k < els.len() {
        lemma_total_prefix(els, k + 1);
        assert(els.take(k + 1).drop_last() =~= els.take(k));
    } else {
        assert(els.take(k) =~= els);
    }
}

/// Appending an element whose channels follow the others keeps the elements contiguous.
proof fn lemma_push_contiguous(els: Seq<AudioElementConfig>, e: AudioElementConfig)
    requires
        spec_elements_contiguous(els),
        e.wf(),
        e.spec_first_channel_index() == spec_total_channels(els),
    ensures
        spec_elements_contiguous(els.push(e)),
        spec_total_channels(els.push(e)) == spec_total_channels(els) + e.spec_number_of_input_channels(),
{
    let n = els.push(e);
    assert forall|i: int| 0 <= i < n.len() implies {
        &&& (#[trigger] n[i]).wf()
        &&& n[i].spec_first_channel_index() == spec_total_channels(n.take(i))
    } by {
        if i < els.len() {
            assert(n.take(i) =~= els.take(i));
        } else {
            assert(n.take(i) =~= els);
        }
    }
}

/// Removing the last element keeps the elements contiguous.
proof fn lemma_pop_contiguous(els: Seq<AudioElementConfig>)
    requires
        spec_elements_contiguous(els),
        els.len() > 0,
    ensures
        spec_elements_contiguous(els.drop_last()),
        spec_total_channels(els.drop_last()) <= spec_total_channels(els),
{
    let p = els.drop_last();
    assert forall|i: int| 0 <= i < p.len() implies {
        &&& (#[trigger] p[i]).wf()
        &&& p[i].spec_first_channel_index() == spec_total_channels(p.take(i))
    } by {
        assert(p.take(i) =~= els.take(i));
    }
}

/// Changing one element without changing its channels keeps the elements contiguous.
proof fn lemma_relabel_keeps_contiguous(old_els: Seq<AudioElementConfig>, new_els: Seq<AudioElementConfig>, idx: int)
    requires
        spec_elements_contiguous(old_els),
        new_els.len() == old_els.len(),
        0 <= idx < old_els.len(),
        forall|i: int| 0 <= i < new_els.len() && i != idx ==> #[trigger] new_els[i] == old_els[i],
        new_els[idx].wf(),
        new_els[idx].spec_first_channel_index() == old_els[idx].spec_first_channel_index(),
        new_els[idx].spec_number_of_input_channels() == old_els[idx].spec_number_of_input_channels(),
    ensures
        spec_elements_contiguous(new_els),
        spec_total_channels(new_els) == spec_total_channels(old_els),
{
    assert forall|k: int| 0 <= k <= new_els.len() implies spec_total_channels(#[trigger] new_els.take(k)) == spec_total_channels(old_els.take(k)) by {
        let a = new_els.take(k);
        let b = old_els.take(k);
        assert forall|i: int| 0 <= i < a.len() implies (#[trigger] a[i]).spec_number_of_input_channels() == b[i].spec_number_of_input_channels() by {}
        lemma_total_same_counts(a, b);
    }
    assert forall|i: int| 0 <= i < new_els.len() implies {
        &&& (#[trigger] new_els[i]).wf()
        &&& new_els[i].spec_first_channel_index() == spec_total_channels(new_els.take(i))
    } by {}
}

/// Changing one element without changing its kind or group key keeps the groups those of
/// the elements.
proof fn lemma_relabel_keeps_groups(
    groups: Seq<ProcessingGroup>,
    old_els: Seq<AudioElementConfig>,
    new_els: Seq<AudioElementConfig>,
    idx: int,
    buffer_size: Samples,
    sampling_rate: SampleRate,
)
    requires
        spec_groups_match(groups, old_els, buffer_size, sampling_rate),
        new_els.len() == old_els.len(),
        0 <= idx < old_els.len(),
        forall|i: int| 0 <= i < new_els.len() && i != idx ==> #[trigger] new_els[i] == old_els[i],
        new_els[idx].spec_element_type() == old_els[idx].spec_element_type(),
        spec_element_key(new_els[idx]) == spec_element_key(old_els[idx]),
    ensures
        spec_groups_match(groups, new_els, buffer_size, sampling_rate),
{
    assert forall|g: int| 0 <= g < groups.len() implies
        (#[trigger] groups[g]).spec_indices() == spec_group_indices(new_els, groups[g].spec_key()) by {
        let key = groups[g].spec_key();
        assert forall|i: int| 0 <= i < new_els.len() implies spec_in_group(#[trigger] new_els[i], key) == spec_in_group(old_els[i], key) by {}
        lemma_group_indices_same_keys(new_els, old_els, key);
    }
    assert forall|a: int| 0 <= a < groups.len() implies spec_key_used((#[trigger] groups[a]).spec_key(), new_els) by {
        let key = groups[a].spec_key();
        let i = choose|i: int| 0 <= i < old_els.len() && spec_in_group(#[trigger] old_els[i], key);
        assert(spec_in_group(new_els[i], key));
    }
    assert forall|i: int| 0 <= i < new_els.len() && !spec_is_passthrough((#[trigger] new_els[i]).spec_element_type())
        implies exists|a: int| 0 <= a < groups.len() && (#[trigger] groups[a]).spec_key() == spec_element_key(new_els[i]) by {}
}

/// Where the binaural output of each passed-through element comes from: the input channels
/// of its left and right output, in element order.
pub open spec fn spec_passthrough_sources(els: Seq<AudioElementConfig>) -> Seq<(usize, usize)>
    decreases els.len(),
{
    if els.len() == 0 {
        Seq::empty()
    } else {
        let e = els.last();
        let first = e.spec_first_channel_index();
        spec_passthrough_sources(els.drop_last()) + if e.spec_element_type() == AudioElementType::PassthroughMono {
            seq![(first, first)]
        } else if e.spec_element_type() == AudioElementType::PassthroughStereo {
            seq![(first, (first + 1) as usize)]
        } else {
            Seq::empty()
        }
    }
}

/// The binaural renderer's elements and processing groups.
#[derive(Debug, Clone)]
pub struct ObrImpl {
    buffer_size_per_channel: Samples,
    sampling_rate: SampleRate,
    head_tracking_enabled: bool,
    limiter_enabled: bool,
    peak_limiter_ready: bool,
    audio_elements: Vec<AudioElementConfig>,
    processing_groups: Vec<ProcessingGroup>,
}

impl ObrImpl {
    pub closed spec fn spec_elements(&self) -> Seq<AudioElementConfig> {
        self.audio_elements@
    }

    pub closed spec fn spec_groups(&self) -> Seq<ProcessingGroup> {
        self.processing_groups@
    }

    pub closed spec fn spec_buffer_size(&self) -> Samples {
        self.buffer_size_per_channel
    }

    pub closed spec fn spec_sampling_rate(&self) -> SampleRate {
        self.sampling_rate
    }

    pub closed spec fn spec_head_tracking_enabled(&self) -> bool {
        self.head_tracking_enabled
    }

    pub closed spec fn spec_limiter_enabled(&self) -> bool {
        self.limiter_enabled
    }

    /// Whether the peak limiter has been set up (it is dropped when the DSP is reset).
    pub closed spec fn spec_limiter_ready(&self) -> bool {
        self.peak_limiter_ready
    }

    /// The elements' channels are contiguous and within the supported number, and the
    /// processing groups, when set up, are those of the elements.
    pub open spec fn wf(&self) -> bool {
        &&& spec_elements_contiguous(self.spec_elements())
        &&& spec_total_channels(self.spec_elements()) <= MAX_SUPPORTED_NUM_INPUT_CHANNELS
        &&& (self.spec_groups().len() == 0 || spec_groups_match(
            self.spec_groups(),
            self.spec_elements(),
            self.spec_buffer_size(),
            self.spec_sampling_rate(),
        ))
    }

    /// The settings of `self` equal those of `other`.
    pub open spec fn same_settings(&self, other: &Self) -> bool {
        &&& self.spec_buffer_size() == other.spec_buffer_size()
        &&& self.spec_sampling_rate() == other.spec_sampling_rate()
        &&& self.spec_head_tracking_enabled() == other.spec_head_tracking_enabled()
        &&& self.spec_limiter_enabled() == other.spec_limiter_enabled()
    }

    /// Creates a renderer with no elements, the limiter enabled and head tracking disabled.
    pub fn new(buffer_size_per_channel: Samples, sampling_rate: SampleRate) -> (r: Self)
        ensures
            r.wf(),
            r.spec_elements().len() == 0,
            r.spec_groups().len() == 0,
            r.spec_buffer_size() == buffer_size_per_channel,
            r.spec_sampling_rate() == sampling_rate,
            !r.spec_head_tracking_enabled(),
            r.spec_limiter_enabled(),
            r.spec_limiter_ready(),
    {
        ObrImpl {
            buffer_size_per_channel,
            sampling_rate,
            head_tracking_enabled: false,
            limiter_enabled: true,
            peak_limiter_ready: true,
            audio_elements: Vec::new(),
            processing_groups: Vec::new(),
        }
    }

    /// Drops the processing groups and the peak limiter.
    pub fn reset_dsp(&mut self)
        requires
            old(self).wf(),
        ensures
            final(self).wf(),
            final(self).same_settings(old(self)),
            final(self).spec_elements() == old(self).spec_elements(),
            final(self).spec_groups().len() == 0,
            !final(self).spec_limiter_ready(),
    {
        self.processing_groups.clear();
        self.peak_limiter_ready = false;
    }

    /// Sets up the processing groups and the peak limiter again for the current elements.
    /// Fails with `InvalidParameter` when there are no elements or no input channels.
    pub fn initialize_dsp(&mut self) -> (r: Result<(), OarError>)
        requires
            old(self).wf(),
        ensures
            final(self).wf(),
            final(self).same_settings(old(self)),
            final(self).spec_elements() == old(self).spec_elements(),
            match r {
                Ok(()) => {
                    &&& old(self).spec_elements().len() > 0
                    &&& spec_total_channels(old(self).spec_elements()) > 0
                    &&& spec_groups_match(final(self).spec_groups(), final(self).spec_elements(),
                        final(self).spec_buffer_size(), final(self).spec_sampling_rate())
                    &&& final(self).spec_limiter_ready()
                },
                Err(e) => {
                    &&& e == OarError::InvalidParameter
                    &&& (old(self).spec_elements().len() == 0 || spec_total_channels(old(self).spec_elements()) == 0)
                    &&& final(self).spec_groups().len() == 0
                    &&& !final(self).spec_limiter_ready()
                },
            },
    {
        self.reset_dsp();
        if self.audio_elements.len() == 0 {
            return Err(OarError::InvalidParameter);
        }
        let input_channels = self.get_number_of_input_channels();
        if input_channels == 0 {
            return Err(OarError::InvalidParameter);
        }
        self.processing_groups = processing_groups_for(self.audio_elements.as_slice(), self.buffer_size_per_channel, self.sampling_rate);
        self.peak_limiter_ready = true;
        Ok(())
    }

    /// Adds an element of the given kind and profile after the existing ones and sets up the
    /// DSP again. Fails with `InvalidParameter`, adding nothing, when the renderer would then
    /// have more than `MAX_SUPPORTED_NUM_INPUT_CHANNELS` input channels.
    pub fn add_audio_element(&mut self, element_type: AudioElementType, filter_profile: BinauralFilterProfile) -> (r: Result<(), OarError>)
        requires
            old(self).wf(),
        ensures
            final(self).wf(),
            final(self).same_settings(old(self)),
            spec_total_channels(old(self).spec_elements()) + spec_kind_channel_count(element_type) > MAX_SUPPORTED_NUM_INPUT_CHANNELS ==> {
                &&& r == Err::<(), OarError>(OarError::InvalidParameter)
                &&& final(self).spec_elements() == old(self).spec_elements()
                &&& final(self).spec_groups() == old(self).spec_groups()
                &&& final(self).spec_limiter_ready() == old(self).spec_limiter_ready()
            },
            spec_total_channels(old(self).spec_elements()) + spec_kind_channel_count(element_type) <= MAX_SUPPORTED_NUM_INPUT_CHANNELS ==> {
                let els = final(self).spec_elements();
                let e = els.last();
                &&& els.len() == old(self).spec_elements().len() + 1
                &&& els.drop_last() == old(self).spec_elements()
                &&& e.spec_element_type() == element_type
                &&& e.spec_filter_profile() == filter_profile
                &&& e.spec_first_channel_index() == spec_total_channels(old(self).spec_elements())
                &&& e.spec_number_of_input_channels() == spec_kind_channel_count(element_type)
                &&& !e.spec_head_locked()
                &&& spec_total_channels(els) == spec_total_channels(old(self).spec_elements()) + spec_kind_channel_count(element_type)
                &&& match r {
                    Ok(()) => spec_total_channels(els) > 0
                        && spec_groups_match(final(self).spec_groups(), els, final(self).spec_buffer_size(), final(self).spec_sampling_rate())
                        && final(self).spec_limiter_ready(),
                    Err(err) => err == OarError::InvalidParameter && spec_total_channels(els) == 0
                        && final(self).spec_groups().len() == 0 && !final(self).spec_limiter_ready(),
                }
            },
    {
        let mut cfg = AudioElementConfig::new(element_type, filter_profile);
        proof {
            lemma_kind_channel_count_bounded(element_type);
            lemma_total_prefix(self.audio_elements@, self.audio_elements@.len() as int);
        }
        let count = self.audio_elements.len();
        if count > 0 {
            let last = &self.audio_elements[count - 1];
            let first_idx = last.get_first_channel_index() + last.get_number_of_input_channels();
            cfg.set_first_channel_index(first_idx);
        }
        let total_inputs = self.get_number_of_input_channels() + cfg.get_number_of_input_channels();
        if total_inputs > MAX_SUPPORTED_NUM_INPUT_CHANNELS {
            return Err(OarError::InvalidParameter);
        }
        proof {
            lemma_push_contiguous(self.audio_elements@, cfg);
        }
        self.audio_elements.push(cfg);
        self.processing_groups.clear();
        self.initialize_dsp()
    }

    /// Removes the last element and sets up the DSP again (or drops it when no element is
    /// left). Fails with `InvalidParameter` when there is no element.
    pub fn remove_last_audio_element(&mut self) -> (r: Result<(), OarError>)
        requires
            old(self).wf(),
        ensures
            final(self).wf(),
            final(self).same_settings(old(self)),
            old(self).spec_elements().len() == 0 ==> {
                &&& r == Err::<(), OarError>(OarError::InvalidParameter)
                &&& final(self).spec_elements() == old(self).spec_elements()
                &&& final(self).spec_groups() == old(self).spec_groups()
                &&& final(self).spec_limiter_ready() == old(self).spec_limiter_ready()
            },
            old(self).spec_elements().len() > 0 ==> {
                let els = final(self).spec_elements();
                &&& els == old(self).spec_elements().drop_last()
                &&& spec_total_channels(els) == spec_total_channels(old(self).spec_elements())
                    - old(self).spec_elements().last().spec_number_of_input_channels()
                &&& match r {
                    Ok(()) => (els.len() == 0 && final(self).spec_groups().len() == 0 && !final(self).spec_limiter_ready())
                        || (els.len() > 0 && spec_total_channels(els) > 0 && final(self).spec_limiter_ready()
                            && spec_groups_match(final(self).spec_groups(), els, final(self).spec_buffer_size(), final(self).spec_sampling_rate())),
                    Err(err) => err == OarError::InvalidParameter && els.len() > 0 && spec_total_channels(els) == 0
                        && final(self).spec_groups().len() == 0 && !final(self).spec_limiter_ready(),
                }
            },
    {
        if self.audio_elements.len() == 0 {
            return Err(OarError::InvalidParameter);
        }
        proof {
            lemma_pop_contiguous(self.audio_elements@);
        }
        self.audio_elements.pop();
        self.processing_groups.clear();
        if self.audio_elements.len() == 0 {
            self.reset_dsp();
            Ok(())
        } else {
            self.initialize_dsp()
        }
    }

    /// Enables or disables head tracking.
    pub fn enable_head_tracking(&mut self, enable: bool)
        requires
            old(self).wf(),
        ensures
            final(self).wf(),
            final(self).spec_head_tracking_enabled() == enable,
            final(self).spec_limiter_enabled() == old(self).spec_limiter_enabled(),
            final(self).spec_buffer_size() == old(self).spec_buffer_size(),
            final(self).spec_sampling_rate() == old(self).spec_sampling_rate(),
            final(self).spec_elements() == old(self).spec_elements(),
            final(self).spec_groups() == old(self).spec_groups(),
            final(self).spec_limiter_ready() == old(self).spec_limiter_ready(),
    {
        self.head_tracking_enabled = enable;
    }

    /// Enables or disables the output peak limiter.
    pub fn enable_limiter(&mut self, enable: bool)
        requires
            old(self).wf(),
        ensures
            final(self).wf(),
            final(self).spec_limiter_enabled() == enable,
            final(self).spec_head_tracking_enabled() == old(self).spec_head_tracking_enabled(),
            final(self).spec_buffer_size() == old(self).spec_buffer_size(),
            final(self).spec_sampling_rate() == old(self).spec_sampling_rate(),
            final(self).spec_elements() == old(self).spec_elements(),
            final(self).spec_groups() == old(self).spec_groups(),
            final(self).spec_limiter_ready() == old(self).spec_limiter_ready(),
    {
        self.limiter_enabled = enable;
    }

    /// Whether the output goes through the peak limiter: it is enabled and set up.
    pub fn is_limiter_active(&self) -> (b: bool)
        ensures
            b == (self.spec_limiter_enabled() && self.spec_limiter_ready()),
    {
        self.limiter_enabled && self.peak_limiter_ready
    }

    /// Whether head tracking is enabled.
    pub fn is_head_tracking_enabled(&self) -> (b: bool)
        ensures
            b == self.spec_head_tracking_enabled(),
    {
        self.head_tracking_enabled
    }

    /// Sets whether an element is rendered locked to the listener's head. Passed-through
    /// elements are left as they are. Fails with `InvalidParameter` when there is no element
    /// at `audio_element_index`.
    pub fn set_element_head_locked(&mut self, audio_element_index: usize, head_locked: bool) -> (r: Result<(), OarError>)
        requires
            old(self).wf(),
        ensures
            final(self).wf(),
            final(self).same_settings(old(self)),
            final(self).spec_groups() == old(self).spec_groups(),
            final(self).spec_limiter_ready() == old(self).spec_limiter_ready(),
            final(self).spec_elements().len() == old(self).spec_elements().len(),
            audio_element_index >= old(self).spec_elements().len() ==> r == Err::<(), OarError>(OarError::InvalidParameter)
                && final(self).spec_elements() == old(self).spec_elements(),
            audio_element_index < old(self).spec_elements().len() ==> {
                let e = old(self).spec_elements()[audio_element_index as int];
                let f = final(self).spec_elements()[audio_element_index as int];
                &&& r == Ok::<(), OarError>(())
                &&& forall|i: int| 0 <= i < final(self).spec_elements().len() && i != audio_element_index
                    ==> #[trigger] final(self).spec_elements()[i] == old(self).spec_elements()[i]
                &&& spec_is_passthrough(e.spec_element_type()) ==> f == e
                &&& !spec_is_passthrough(e.spec_element_type()) ==> {
                    &&& f.spec_head_locked() == head_locked
                    &&& f.spec_element_type() == e.spec_element_type()
                    &&& f.spec_first_channel_index() == e.spec_first_channel_index()
                    &&& f.spec_number_of_input_channels() == e.spec_number_of_input_channels()
                    &&& f.spec_filter_order() == e.spec_filter_order()
                    &&& f.spec_filter_profile() == e.spec_filter_profile()
                    &&& f.spec_ambisonic_channels() == e.spec_ambisonic_channels()
                    &&& f.spec_loudspeaker_channels() == e.spec_loudspeaker_channels()
                    &&& f.spec_object_channels() == e.spec_object_channels()
                    &&& f.spec_passthrough_channels() == e.spec_passthrough_channels()
                }
            },
    {
        if audio_element_index >= self.audio_elements.len() {
            return Err(OarError::InvalidParameter);
        }
        if self.audio_elements[audio_element_index].element_type().is_passthrough() {
            return Ok(());
        }
        let ghost old_els = self.audio_elements@;
        let mut e = self.audio_elements.remove(audio_element_index);
        e.set_head_locked(head_locked);
        self.audio_elements.insert(audio_element_index, e);
        proof {
            let new_els = self.audio_elements@;
            assert forall|i: int| 0 <= i < new_els.len() && i != audio_element_index implies #[trigger] new_els[i] == old_els[i] by {}
            lemma_relabel_keeps_contiguous(old_els, new_els, audio_element_index as int);
            if self.processing_groups@.len() > 0 {
                lemma_relabel_keeps_groups(self.processing_groups@, old_els, new_els, audio_element_index as int,
                    self.buffer_size_per_channel, self.sampling_rate);
            }
        }
        Ok(())
    }

    /// Returns the buffer size of the renderer.
    pub fn get_buffer_size_per_channel(&self) -> (s: Samples)
        ensures
            s == self.spec_buffer_size(),
    {
        self.buffer_size_per_channel
    }

    /// Returns the sampling rate of the renderer.
    pub fn get_sampling_rate(&self) -> (r: SampleRate)
        ensures
            r == self.spec_sampling_rate(),
    {
        self.sampling_rate
    }

    /// Returns the number of input channels of all elements.
    pub fn get_number_of_input_channels(&self) -> (n: usize)
        requires
            self.wf(),
        ensures
            n == spec_total_channels(self.spec_elements()),
    {
        let ghost els = self.audio_elements@;
        let mut sum: usize = 0;
        let mut k: usize = 0;
        while k < self.audio_elements.len()
            invariant
                els == self.audio_elements@,
                k <= els.len(),
                spec_total_channels(els) <= MAX_SUPPORTED_NUM_INPUT_CHANNELS,
                sum == spec_total_channels(els.take(k as int)),
            decreases els.len() - k,
        {
            proof {
                lemma_total_prefix(els, k as int + 1);
                assert(els.take(k as int + 1).drop_last() =~= els.take(k as int));
            }
            sum = sum + self.audio_elements[k].get_number_of_input_channels();
            k = k + 1;
        }
        assert(els.take(els.len() as int) =~= els);
        sum
    }

    /// Returns the number of binaural output channels (two).
    pub fn get_number_of_output_channels(&self) -> (n: usize)
        ensures
            n == NUM_BINAURAL_CHANNELS,
    {
        NUM_BINAURAL_CHANNELS
    }

    /// Returns the number of elements.
    pub fn get_number_of_audio_elements(&self) -> (n: usize)
        ensures
            n == self.spec_elements().len(),
    {
        self.audio_elements.len()
    }

    /// Returns the elements.
    pub fn get_audio_elements(&self) -> (s: &[AudioElementConfig])
        ensures
            s@ == self.spec_elements(),
    {
        self.audio_elements.as_slice()
    }

    /// Returns the processing groups.
    pub fn get_processing_groups(&self) -> (s: &[ProcessingGroup])
        ensures
            s@ == self.spec_groups(),
    {
        self.processing_groups.as_slice()
    }

    /// Checks that the element at `audio_element_index` has an object channel at
    /// `channel_index`; fails with `InvalidParameter` otherwise.
    pub fn check_object_channel(&self, audio_element_index: usize, channel_index: usize) -> (r: Result<(), OarError>)
        ensures
            r is Ok <==> (audio_element_index < self.spec_elements().len()
                && channel_index < self.spec_elements()[audio_element_index as int].spec_object_channels().len()),
            r is Err ==> r == Err::<(), OarError>(OarError::InvalidParameter),
    {
        if audio_element_index >= self.audio_elements.len() {
            return Err(OarError::InvalidParameter);
        }
        let obj_chans = self.audio_elements[audio_element_index].get_object_channels();
        if obj_chans.len() == 0 || channel_index >= obj_chans.len() {
            return Err(OarError::InvalidParameter);
        }
        Ok(())
    }

    /// Returns, for each passed-through element in order, the input channels that go to the
    /// left and the right output: a mono element's channel goes to both.
    pub fn passthrough_sources(&self) -> (v: Vec<(usize, usize)>)
        requires
            self.wf(),
        ensures
            v@ == spec_passthrough_sources(self.spec_elements()),
    {
        let ghost els = self.audio_elements@;
        let mut v: Vec<(usize, usize)> = Vec::new();
        let mut k: usize = 0;
        while k < self.audio_elements.len()
            invariant
                els == self.audio_elements@,
                k <= els.len(),
                spec_elements_contiguous(els),
                v@ == spec_passthrough_sources(els.take(k as int)),
            decreases els.len() - k,
        {
            proof {
                assert(els.take(k as int + 1).drop_last() =~= els.take(k as int));
            }
            let e = &self.audio_elements[k];
            let first = e.get_first_channel_index();
            if e.element_type() == AudioElementType::PassthroughMono {
                v.push((first, first));
            } else if e.element_type() == AudioElementType::PassthroughStereo {
                v.push((first, first + 1));
            }
            k = k + 1;
        }
        assert(els.take(els.len() as int) =~= els);
        v
    }
}

/// The element kind the binaural renderer uses for an element configuration, or `None` when
/// it does not render such elements.
pub open spec fn spec_adapter_element_type(c: OarAudioElementConfig) -> Option<AudioElementType> {
    match c {
        OarAudioElementConfig::ChannelBased(cbc) => match cbc.layout {
            Layout::Mono => Some(AudioElementType::LayoutMono),
            Layout::Stereo => Some(AudioElementType::LayoutStereo),
            Layout::Layout51 => Some(AudioElementType::Layout5_1_0),
            Layout::Layout512 => Some(AudioElementType::Layout5_1_2),
            Layout::Layout514 => Some(AudioElementType::Layout5_1_4),
            Layout::Layout71 => Some(AudioElementType::Layout7_1_0),
            Layout::Layout712 => Some(AudioElementType::Layout7_1_2),
            Layout::Layout714 => Some(AudioElementType::Layout7_1_4),
            Layout::Layout312 => Some(AudioElementType::Layout3_1_2),
            Layout::Layout916 => Some(AudioElementType::Layout9_1_6),
            Layout::Layout7154 => Some(AudioElementType::Layout7_1_5_4),
            Layout::LayoutA293 => Some(AudioElementType::Layout10_2_9_3),
            _ => None,
        },
        OarAudioElementConfig::SceneBased(sbc) => match sbc.order {
            HighOrderAmbisonics::Zoa => Some(AudioElementType::PassthroughMono),
            HighOrderAmbisonics::Order1 => Some(AudioElementType::Oa1),
            HighOrderAmbisonics::Order2 => Some(AudioElementType::Oa2),
            HighOrderAmbisonics::Order3 => Some(AudioElementType::Oa3),
            HighOrderAmbisonics::Order4 => Some(AudioElementType::Oa4),
        },
        OarAudioElementConfig::ObjectBased(obc) => if obc.num_objects == 1 {
            Some(AudioElementType::ObjectMono)
        } else if obc.num_objects == 2 {
            Some(AudioElementType::ObjectDual)
        } else {
            None
        },
    }
}

/// The filter profile the binaural renderer uses for an element configuration (ambient
/// when the configuration names none).
pub open spec fn spec_adapter_profile(c: OarAudioElementConfig) -> BinauralFilterProfile {
    match spec_element_rendering_config(c) {
        Some(rc) => match rc.binaural_filter_profile {
            OarBinauralFilterProfile::Ambient => BinauralFilterProfile::Ambient,
            OarBinauralFilterProfile::Direct => BinauralFilterProfile::Direct,
            OarBinauralFilterProfile::Reverberant => BinauralFilterProfile::Reverberant,
        },
        None => BinauralFilterProfile::Ambient,
    }
}

/// Whether an element configuration asks for head-locked rendering.
pub open spec fn spec_adapter_head_locked(c: OarAudioElementConfig) -> bool {
    match spec_element_rendering_config(c) {
        Some(rc) => rc.headphones_rendering_mode == HeadphonesRenderingMode::HeadLocked,
        None => false,
    }
}

/// The element kinds of the renderable configurations have the configuration's channels,
/// at least one.
pub proof fn lemma_adapter_channels(c: OarAudioElementConfig)
    requires
        spec_adapter_element_type(c) is Some,
    ensures
        spec_kind_channel_count(spec_adapter_element_type(c)->0) == spec_element_channels(c),
        spec_element_channels(c) >= 1,
{
    match c {
        OarAudioElementConfig::SceneBased(sbc) => {
            assert(1 * 1 == 1 && 2 * 2 == 4 && 3 * 3 == 9 && 4 * 4 == 16 && 5 * 5 == 25) by (nonlinear_arith);
        },
        _ => {},
    }
}

fn adapter_element_type(c: &OarAudioElementConfig) -> (t: Option<AudioElementType>)
    ensures
        t == spec_adapter_element_type(*c),
{
    match c {
        OarAudioElementConfig::ChannelBased(cbc) => match cbc.layout {
            Layout::Mono => Some(AudioElementType::LayoutMono),
            Layout::Stereo => Some(AudioElementType::LayoutStereo),
            Layout::Layout51 => Some(AudioElementType::Layout5_1_0),
            Layout::Layout512 => Some(AudioElementType::Layout5_1_2),
            Layout::Layout514 => Some(AudioElementType::Layout5_1_4),
            Layout::Layout71 => Some(AudioElementType::Layout7_1_0),
            Layout::Layout712 => Some(AudioElementType::Layout7_1_2),
            Layout::Layout714 => Some(AudioElementType::Layout7_1_4),
            Layout::Layout312 => Some(AudioElementType::Layout3_1_2),
            Layout::Layout916 => Some(AudioElementType::Layout9_1_6),
            Layout::Layout7154 => Some(AudioElementType::Layout7_1_5_4),
            Layout::LayoutA293 => Some(AudioElementType::Layout10_2_9_3),
            _ => None,
        },
        OarAudioElementConfig::SceneBased(sbc) => match sbc.order {
            HighOrderAmbisonics::Zoa => Some(AudioElementType::PassthroughMono),
            HighOrderAmbisonics::Order1 => Some(AudioElementType::Oa1),
            HighOrderAmbisonics::Order2 => Some(AudioElementType::Oa2),
            HighOrderAmbisonics::Order3 => Some(AudioElementType::Oa3),
            HighOrderAmbisonics::Order4 => Some(AudioElementType::Oa4),
        },
        OarAudioElementConfig::ObjectBased(obc) => if obc.num_objects == 1 {
            Some(AudioElementType::ObjectMono)
        } else if obc.num_objects == 2 {
            Some(AudioElementType::ObjectDual)
        } else {
            None
        },
    }
}

fn adapter_profile(c: &OarAudioElementConfig) -> (p: BinauralFilterProfile)
    ensures
        p == spec_adapter_profile(*c),
{
    match c.rendering_config() {
        Some(rc) => match rc.binaural_filter_profile {
            OarBinauralFilterProfile::Ambient => BinauralFilterProfile::Ambient,
            OarBinauralFilterProfile::Direct => BinauralFilterProfile::Direct,
            OarBinauralFilterProfile::Reverberant => BinauralFilterProfile::Reverberant,
        },
        None => BinauralFilterProfile::Ambient,
    }
}

fn adapter_head_locked(c: &OarAudioElementConfig) -> (b: bool)
    ensures
        b == spec_adapter_head_locked(*c),
{
    match c.rendering_config() {
        Some(rc) => rc.headphones_rendering_mode == HeadphonesRenderingMode::HeadLocked,
        None => false,
    }
}

/// The sum of a sequence of channel counts.
pub open spec fn spec_sum(s: Seq<usize>) -> int
    decreases s.len(),
{
    if s.len() == 0 {
        0
    } else {
        spec_sum(s.drop_last()) + s.last()
    }
}

/// The channel counts of the elements.
pub open spec fn spec_element_counts(els: Seq<AudioElementConfig>) -> Seq<usize> {
    Seq::new(els.len(), |i: int| els[i].spec_number_of_input_channels())
}

proof fn lemma_sum_of_counts_is_total(els: Seq<AudioElementConfig>, k: int)
    requires
        0 <= k <= els.len(),
    ensures
        spec_sum(spec_element_counts(els).take(k)) == spec_total_channels(els.take(k)),
    decreases k,
{
    if k > 0 {
        lemma_sum_of_counts_is_total(els, k - 1);
        assert(spec_element_counts(els).take(k).drop_last() =~= spec_element_counts(els).take(k - 1));
        assert(els.take(k).drop_last() =~= els.take(k - 1));
    }
}

/// The binaural renderer behind the common renderer interface: elements are known by id.
#[derive(Debug, Clone)]
pub struct ObrAudioRendererAdapter {
    /// The binaural renderer.
    pub obr: ObrImpl,
    element_ids: Vec<u32>,
    element_channels: Vec<usize>,
}

impl ObrAudioRendererAdapter {
    /// The binaural renderer.
    pub closed spec fn spec_obr(&self) -> ObrImpl {
        self.obr
    }

    /// The id of each element, in element order.
    pub closed spec fn spec_ids(&self) -> Seq<u32> {
        self.element_ids@
    }

    /// The number of channels of each element, in element order.
    pub closed spec fn spec_channels(&self) -> Seq<usize> {
        self.element_channels@
    }

    /// The element index of each id.
    pub open spec fn spec_id_map(&self) -> Map<u32, usize> {
        Map::new(
            |id: u32| self.spec_ids().contains(id),
            |id: u32| choose|i: usize| i < self.spec_ids().len() && self.spec_ids()[i as int] == id,
        )
    }

    /// The renderer is well formed, each of its elements has one id, the ids are distinct and
    /// the channel counts are those of the elements.
    pub open spec fn wf(&self) -> bool {
        &&& self.spec_obr().wf()
        &&& self.spec_ids().len() == self.spec_obr().spec_elements().len()
        &&& self.spec_channels() == spec_element_counts(self.spec_obr().spec_elements())
        &&& forall|i: int, j: int| 0 <= i < j < self.spec_ids().len() ==> self.spec_ids()[i] != self.spec_ids()[j]
    }

    /// Creates an adapter around a binaural renderer with no elements and the limiter off.
    pub fn new(samples_per_channel: Samples, sampling_rate: SampleRate) -> (a: Self)
        ensures
            a.wf(),
            a.spec_ids().len() == 0,
            a.spec_obr().spec_buffer_size() == samples_per_channel,
            a.spec_obr().spec_sampling_rate() == sampling_rate,
            !a.spec_obr().spec_limiter_enabled(),
            !a.spec_obr().spec_head_tracking_enabled(),
    {
        let mut obr = ObrImpl::new(samples_per_channel, sampling_rate);
        obr.enable_limiter(false);
        let a = ObrAudioRendererAdapter { obr, element_ids: Vec::new(), element_channels: Vec::new() };
        assert(a.element_channels@ =~= spec_element_counts(a.obr.spec_elements()));
        a
    }

    /// Returns the index of the element with the given id, if any.
    pub fn element_index(&self, id: u32) -> (r: Option<usize>)
        requires
            self.wf(),
        ensures
            match r {
                Some(i) => i < self.spec_ids().len() && self.spec_ids()[i as int] == id,
                None => !self.spec_ids().contains(id),
            },
    {
        let mut i: usize = 0;
        while i < self.element_ids.len()
            invariant
                i <= self.spec_ids().len(),
                forall|j: int| 0 <= j < i ==> self.spec_ids()[j] != id,
            decreases self.spec_ids().len() - i,
        {
            if self.element_ids[i] == id {
                return Some(i);
            }
            i = i + 1;
        }
        None
    }

    /// Adds the element `id` with the given configuration: the renderer gets an element of
    /// the matching kind and profile, head locked when the configuration asks for it.
    /// Fails with `InvalidParameter`, changing nothing, when `id` is already known, when the
    /// configuration has no binaural element kind, or when the renderer would have more than
    /// `MAX_SUPPORTED_NUM_INPUT_CHANNELS` input channels.
    pub fn add_element(&mut self, id: u32, config: &OarAudioElementConfig) -> (r: Result<(), OarError>)
        requires
            old(self).wf(),
        ensures
            final(self).wf(),
            final(self).spec_obr().same_settings(&old(self).spec_obr()),
            r is Ok <==> (!old(self).spec_ids().contains(id) && spec_adapter_element_type(*config) is Some
                && spec_total_channels(old(self).spec_obr().spec_elements()) + spec_element_channels(*config) <= MAX_SUPPORTED_NUM_INPUT_CHANNELS),
            r is Err ==> r == Err::<(), OarError>(OarError::InvalidParameter) && final(self).spec_ids() == old(self).spec_ids()
                && final(self).spec_obr().spec_elements() == old(self).spec_obr().spec_elements(),
            r is Ok ==> {
                let els = final(self).spec_obr().spec_elements();
                let e = els.last();
                let t = spec_adapter_element_type(*config)->0;
                &&& final(self).spec_ids() == old(self).spec_ids().push(id)
                &&& els.drop_last() == old(self).spec_obr().spec_elements()
                &&& e.spec_element_type() == t
                &&& e.spec_filter_profile() == spec_adapter_profile(*config)
                &&& e.spec_first_channel_index() == spec_total_channels(old(self).spec_obr().spec_elements())
                &&& e.spec_number_of_input_channels() == spec_element_channels(*config)
                &&& e.spec_head_locked() == (spec_adapter_head_locked(*config) && !spec_is_passthrough(t))
                &&& spec_groups_match(final(self).spec_obr().spec_groups(), els, final(self).spec_obr().spec_buffer_size(),
                    final(self).spec_obr().spec_sampling_rate())
            },
    {
        if self.element_index(id).is_some() {
            return Err(OarError::InvalidParameter);
        }
        let elem_type = match adapter_element_type(config) {
            Some(t) => t,
            None => {
                return Err(OarError::InvalidParameter);
            },
        };
        let profile = adapter_profile(config);
        proof {
            lemma_adapter_channels(*config);
        }
        let ghost old_obr = self.obr;
        match self.obr.add_audio_element(elem_type, profile) {
            Ok(()) => {},
            Err(e) => {
                return Err(e);
            },
        }
        let idx = self.obr.get_number_of_audio_elements() - 1;
        let ghost old_ids = self.element_ids@;
        self.element_ids.push(id);
        self.element_channels.push(config.channels());
        let head_locked = adapter_head_locked(config);
        let res = self.obr.set_element_head_locked(idx, head_locked);
        proof {
            let els = self.obr.spec_elements();
            assert forall|i: int| 0 <= i < els.len() - 1 implies #[trigger] els[i] == old_obr.spec_elements()[i] by {}
            assert(self.element_channels@ =~= spec_element_counts(els));
            assert forall|i: int, j: int| 0 <= i < j < self.element_ids@.len() implies self.element_ids@[i] != self.element_ids@[j] by {
                if j == old_ids.len() {
                } else {
                }
            }
        }
        res
    }

    /// Returns the first input channel of the element `id` (that of the first element when
    /// `id` is unknown): the channels of the elements before it.
    pub fn get_element_channel_offset(&self, id: u32) -> (offset: usize)
        requires
            self.wf(),
        ensures
            self.spec_ids().contains(id) ==> offset == self.spec_obr().spec_elements()[self.spec_id_map()[id] as int].spec_first_channel_index(),
            !self.spec_ids().contains(id) ==> offset == 0,
    {
        let target_idx = match self.element_index(id) {
            Some(i) => i,
            None => 0,
        };
        let ghost counts = self.element_channels@;
        let ghost els = self.obr.spec_elements();
        let mut offset: usize = 0;
        let mut k: usize = 0;
        proof {
            lemma_total_prefix(els, els.len() as int);
        }
        while k < target_idx
            invariant
                counts == self.element_channels@,
                counts == spec_element_counts(els),
                els == self.obr.spec_elements(),
                target_idx <= counts.len(),
                k <= target_idx,
                spec_total_channels(els) <= MAX_SUPPORTED_NUM_INPUT_CHANNELS,
                offset == spec_sum(counts.take(k as int)),
            decreases target_idx - k,
        {
            proof {
                lemma_sum_of_counts_is_total(els, k as int + 1);
                lemma_total_prefix(els, k as int + 1);
                assert(counts.take(k as int + 1).drop_last() =~= counts.take(k as int));
            }
            offset = offset + self.element_channels[k];
            k = k + 1;
        }
        proof {
            lemma_sum_of_counts_is_total(els, target_idx as int);
            if self.spec_ids().contains(id) {
                let j = choose|j: usize| j < self.spec_ids().len() && self.spec_ids()[j as int] == id;
                if j != target_idx {
                    if j < target_idx {
                    } else {
                    }
                }
            }
        }
        offset
    }

    /// Returns the number of channels of the element `id` (0 when `id` is unknown).
    pub fn get_element_channels(&self, id: u32) -> (n: usize)
        requires
            self.wf(),
        ensures
            self.spec_ids().contains(id) ==> n == self.spec_channels()[self.spec_id_map()[id] as int],
            !self.spec_ids().contains(id) ==> n == 0,
    {
        match self.element_index(id) {
            Some(i) => {
                proof {
                    let j = choose|j: usize| j < self.spec_ids().len() && self.spec_ids()[j as int] == id;
                    if j != i {
                        if j < i {
                        } else {
                        }
                    }
                }
                self.element_channels[i]
            },
            None => 0,
        }
    }

    /// Returns the ids of the elements, in element order.
    pub fn element_ids(&self) -> (s: &[u32])
        ensures
            s@ == self.spec_ids(),
    {
        self.element_ids.as_slice()
    }
}

/// The element kind chosen for a channel-based configuration has the loudspeakers of the
/// configuration's layout: as many channels, as many above the listener (height channels) and
/// as many at ear level (surround channels) as the layout has, and one low-frequency
/// loudspeaker unless the layout is mono or stereo.
pub proof fn lemma_adapter_kind_matches_layout(c: OarAudioElementConfig)
    ensures
        c matches OarAudioElementConfig::ChannelBased(cbc) ==> match (spec_height_and_surround(cbc.layout), spec_adapter_element_type(c)) {
            (Some((h, sr)), Some(t)) => {
                let sp = spec_layout_speakers(t);
                let n = sp.len() as int;
                &&& n == spec_layout_channels(cbc.layout)
                &&& spec_count_height(sp, n) == h
                &&& spec_count_ear_level(sp, n) == sr
                &&& spec_count_lfe(sp, n) == if cbc.layout == Layout::Mono || cbc.layout == Layout::Stereo { 0int } else { 1int }
            },
            _ => true,
        },
{
    reveal_with_fuel(spec_count_height, 13);
    reveal_with_fuel(spec_count_ear_level, 13);
    reveal_with_fuel(spec_count_lfe, 13);
}

} // verus!
