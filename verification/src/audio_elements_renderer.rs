//! Routing of audio elements to a rendering backend: the elements known by id, their queues of
//! timed position metadata, and the slicing of each block into sub-frames.

use vstd::prelude::*;
use std::collections::VecDeque;
use crate::config::AudioElementConfig;
use crate::definitions::{MAX_OUTPUT_CHANNEL_COUNT, OarError};
use crate::units::Samples;

verus! {

/// Largest number of input channels a block may have.
pub const MAX_STACK_CHANNELS: usize = 256;

/// One entry of an element's position metadata queue: positions valid for `duration` samples.
#[derive(Debug, Clone, PartialEq)]
pub struct PositionsMetadataItem<P> {
    /// The positions.
    pub positions: P,
    /// How many samples the positions are valid for.
    pub duration: Samples,
}

/// The sum of the durations of queued metadata, front to back.
pub open spec fn spec_durations<P>(items: Seq<PositionsMetadataItem<P>>) -> int
    decreases items.len(),
{
    if items.len() == 0 {
        0
    } else {
        items[0].duration.0 + spec_durations(items.drop_first())
    }
}

/// The sum of the durations of the first `k` items, capped at `u32::MAX` as a saturating
/// counter would hold it.
pub open spec fn spec_capped_prefix<P>(items: Seq<PositionsMetadataItem<P>>, k: int) -> int {
    let s = spec_durations(items.take(k));
    if s > u32::MAX {
        u32::MAX as int
    } else {
        s
    }
}

/// The durations of a queue with one more item at its back.
pub proof fn lemma_durations_push<P>(items: Seq<PositionsMetadataItem<P>>, x: PositionsMetadataItem<P>)
    ensures
        spec_durations(items.push(x)) == spec_durations(items) + x.duration.0,
    decreases items.len(),
{
    if items.len() > 0 {
        assert(items.push(x).drop_first() =~= items.drop_first().push(x));
        lemma_durations_push(items.drop_first(), x);
    } else {
        assert(items.push(x).drop_first() =~= Seq::<PositionsMetadataItem<P>>::empty());
        assert(spec_durations(Seq::<PositionsMetadataItem<P>>::empty()) == 0);
    }
}

/// The durations of the first `k + 1` items.
pub proof fn lemma_durations_take_step<P>(items: Seq<PositionsMetadataItem<P>>, k: int)
    requires
        0 <= k < items.len(),
    ensures
        spec_durations(items.take(k + 1)) == spec_durations(items.take(k)) + items[k].duration.0,
{
    assert(items.take(k + 1) =~= items.take(k).push(items[k]));
    lemma_durations_push(items.take(k), items[k]);
}

/// Durations never decrease along the queue.
pub proof fn lemma_durations_take_monotone<P>(items: Seq<PositionsMetadataItem<P>>, j: int, k: int)
    requires
        0 <= j <= k <= items.len(),
    ensures
        spec_durations(items.take(j)) <= spec_durations(items.take(k)),
    decreases k - j,
{
    if j < k {
        lemma_durations_take_step(items, k - 1);
        lemma_durations_take_monotone(items, j, k - 1);
    }
}

/// Queued durations add up to a non-negative number.
pub proof fn lemma_durations_nonneg<P>(items: Seq<PositionsMetadataItem<P>>)
    ensures
        spec_durations(items) >= 0,
    decreases items.len(),
{
    if items.len() > 0 {
        lemma_durations_nonneg(items.drop_first());
    }
}

/// `f` is `o` advanced by `samples`: the items that fully elapsed are dropped from the front,
/// the first one left (if any) has not, and the timeline position moved by `samples`.
pub open spec fn spec_elapsed<P>(o: ElementPositionsContext<P>, f: ElementPositionsContext<P>, samples: u32) -> bool {
    let popped = o.positions@.len() - f.positions@.len();
    let now = o.start + samples;
    &&& 0 <= popped <= o.positions@.len()
    &&& f.positions@ == o.positions@.skip(popped)
    &&& f.start + spec_durations(o.positions@.take(popped)) == now
    &&& spec_durations(o.positions@.take(popped)) <= now
    &&& popped < o.positions@.len() ==> spec_durations(o.positions@.take(popped + 1)) > now
}

/// An element's queue of timed positions and its place on the timeline.
#[derive(Debug, Clone, PartialEq)]
pub struct ElementPositionsContext<P> {
    /// Samples elapsed since the start of the front item.
    pub start: u32,
    /// Sum of the durations of the queued items.
    pub duration: u32,
    /// The queued items, oldest first.
    pub positions: VecDeque<PositionsMetadataItem<P>>,
}

impl<P> ElementPositionsContext<P> {
    /// `duration` is the sum of the queued durations.
    pub open spec fn wf(&self) -> bool {
        self.duration == spec_durations(self.positions@)
    }

    /// Creates an empty queue at the start of the timeline.
    pub fn new() -> (c: Self)
        ensures
            c.wf(),
            c.start == 0,
            c.positions@.len() == 0,
    {
        ElementPositionsContext { start: 0, duration: 0, positions: VecDeque::new() }
    }

    /// Queues positions valid for `duration` samples; an empty queue restarts its timeline.
    pub fn push_positions(&mut self, positions: P, duration: Samples)
        requires
            old(self).wf(),
            old(self).duration + duration.0 <= u32::MAX,
        ensures
            final(self).wf(),
            final(self).positions@ == old(self).positions@.push(PositionsMetadataItem { positions, duration }),
            final(self).start == if old(self).positions@.len() == 0 { 0 } else { old(self).start },
            final(self).duration == old(self).duration + duration.0,
    {
        if self.positions.len() == 0 {
            self.start = 0;
        }
        let item = PositionsMetadataItem { positions, duration };
        proof {
            lemma_durations_push(self.positions@, item);
        }
        self.positions.push_back(item);
        self.duration = self.duration + u32::from(duration);
    }

    /// Advances the timeline by `samples` and drops the items that have fully elapsed: those
    /// whose end lies at or before the new position.
    pub fn elapse(&mut self, samples: u32)
        requires
            old(self).wf(),
            old(self).start + samples <= u32::MAX,
        ensures
            final(self).wf(),
            spec_elapsed(*old(self), *final(self), samples),
    {
        self.start = self.start + samples;
        let ghost orig = self.positions@;
        let ghost now = self.start as int;
        let mut done = false;
        while !done && self.positions.len() > 0
            invariant
                0 <= orig.len() - self.positions@.len() <= orig.len(),
                self.positions@ == orig.skip(orig.len() - self.positions@.len()),
                self.start + spec_durations(orig.take(orig.len() - self.positions@.len())) == now,
                self.duration == spec_durations(self.positions@),
                done && self.positions@.len() > 0 ==> self.positions@[0].duration.0 > self.start,
            decreases self.positions@.len() + if done { 0int } else { 1int },
        {
            let d = self.positions[0].duration.0;
            if d <= self.start {
                let ghost k = orig.len() - self.positions@.len();
                proof {
                    lemma_durations_take_step(orig, k);
                    lemma_durations_nonneg(orig.skip(k + 1));
                }
                self.start = self.start - d;
                self.duration = self.duration.saturating_sub(d);
                self.positions.pop_front();
            } else {
                done = true;
            }
        }
        proof {
            let k = orig.len() - self.positions@.len();
            if k < orig.len() {
                lemma_durations_take_step(orig, k);
            }
        }
    }

    /// Finds the item that covers `sample_position` on the timeline, counting durations with a
    /// saturating counter: returns its index and the position relative to its start, or
    /// `None` when the position lies past the queued items.
    pub fn locate(&self, sample_position: u32) -> (r: Option<(usize, u32)>)
        ensures
            match r {
                Some((i, rel)) => {
                    &&& i < self.positions@.len()
                    &&& spec_capped_prefix(self.positions@, i as int) <= sample_position
                    &&& sample_position < spec_capped_prefix(self.positions@, i as int + 1)
                    &&& rel == sample_position - spec_capped_prefix(self.positions@, i as int)
                },
                None => sample_position >= spec_capped_prefix(self.positions@, self.positions@.len() as int),
            },
    {
        let ghost items = self.positions@;
        let mut acc: u32 = 0;
        let mut idx: usize = 0;
        while idx < self.positions.len()
            invariant
                items == self.positions@,
                idx <= items.len(),
                acc == spec_capped_prefix(items, idx as int),
                sample_position >= acc,
            decreases items.len() - idx,
        {
            let d = self.positions[idx].duration.0;
            proof {
                lemma_durations_take_step(items, idx as int);
            }
            let end = acc.saturating_add(d);
            if sample_position >= acc && sample_position < end {
                return Some((idx, sample_position - acc));
            }
            acc = end;
            idx = idx + 1;
        }
        None
    }
}

/// The sub-frames of a block of `total` samples cut into pieces of `sub` samples: each piece
/// starts where the previous one ended, and the last may be shorter.
pub open spec fn spec_sub_frames(total: nat, sub: nat, offset: nat) -> Seq<(usize, usize)>
    decreases total - offset,
{
    if sub == 0 || offset >= total {
        Seq::empty()
    } else {
        let len = if total - offset < sub { (total - offset) as nat } else { sub };
        seq![(offset as usize, len as usize)] + spec_sub_frames(total, sub, offset + len)
    }
}

/// The sub-frames cover the block exactly: they are consecutive, non-empty, at most `sub`
/// samples long, and end at the end of the block.
pub proof fn lemma_sub_frames_partition(total: nat, sub: nat, offset: nat)
    requires
        sub > 0,
        offset <= total,
        total <= usize::MAX,
    ensures
        ({
            let s = spec_sub_frames(total, sub, offset);
            &&& forall|k: int| 0 <= k < s.len() ==> 0 < (#[trigger] s[k]).1 <= sub && s[k].0 + s[k].1 <= total
            &&& s.len() > 0 ==> s[0].0 == offset
            &&& forall|k: int| 0 <= k < s.len() - 1 ==> (#[trigger] s[k]).0 + s[k].1 == s[k + 1].0
            &&& s.len() > 0 ==> s[s.len() - 1].0 + s[s.len() - 1].1 == total
            &&& s.len() == 0 <==> offset == total
        }),
    decreases total - offset,
{
    if offset < total {
        let len = if total - offset < sub { (total - offset) as nat } else { sub };
        lemma_sub_frames_partition(total, sub, offset + len);
        let s = spec_sub_frames(total, sub, offset);
        let rest = spec_sub_frames(total, sub, offset + len);
        assert forall|k: int| 0 <= k < s.len() - 1 implies (#[trigger] s[k]).0 + s[k].1 == s[k + 1].0 by {
            if k > 0 {
            } else {
            }
        }
        assert forall|k: int| 0 <= k < s.len() implies 0 < (#[trigger] s[k]).1 <= sub && s[k].0 + s[k].1 <= total by {
            if k > 0 {
            }
        }
        if rest.len() > 0 {
        }
    }
}

/// The elements routed to a rendering backend, sorted by id, with their position queues.
#[derive(Debug, Clone)]
pub struct AudioElementsRenderer<P> {
    sorted_ids: Vec<u32>,
    active_elements: Vec<AudioElementConfig>,
    positions_queues: Vec<ElementPositionsContext<P>>,
    sub_frame_samples: Option<Samples>,
    num_out_channels: usize,
}

impl<P> AudioElementsRenderer<P> {
    /// The ids of the elements, ascending.
    pub closed spec fn spec_ids(&self) -> Seq<u32> {
        self.sorted_ids@
    }

    /// The configuration of each element, in id order.
    pub closed spec fn spec_configs(&self) -> Seq<AudioElementConfig> {
        self.active_elements@
    }

    /// The position queue of each element, in id order.
    pub closed spec fn spec_queues(&self) -> Seq<ElementPositionsContext<P>> {
        self.positions_queues@
    }

    pub closed spec fn spec_sub_frame_samples(&self) -> Option<Samples> {
        self.sub_frame_samples
    }

    pub closed spec fn spec_num_out_channels(&self) -> usize {
        self.num_out_channels
    }

    /// The ids are strictly ascending, each has a configuration and a well-formed queue.
    pub open spec fn wf(&self) -> bool {
        &&& forall|a: int, b: int| 0 <= a < b < self.spec_ids().len() ==> self.spec_ids()[a] < self.spec_ids()[b]
        &&& self.spec_configs().len() == self.spec_ids().len()
        &&& self.spec_queues().len() == self.spec_ids().len()
        &&& forall|i: int| 0 <= i < self.spec_queues().len() ==> (#[trigger] self.spec_queues()[i]).wf()
    }

    /// Creates a router with no elements for `num_out_channels` output channels (at most
    /// `MAX_OUTPUT_CHANNEL_COUNT`), cutting blocks into sub-frames of `sub_frame_samples`
    /// samples when given.
    pub fn new(num_out_channels: usize, sub_frame_samples: Option<Samples>) -> (r: Self)
        requires
            num_out_channels <= MAX_OUTPUT_CHANNEL_COUNT,
        ensures
            r.wf(),
            r.spec_ids().len() == 0,
            r.spec_sub_frame_samples() == sub_frame_samples,
            r.spec_num_out_channels() == num_out_channels,
    {
        AudioElementsRenderer {
            sorted_ids: Vec::new(),
            active_elements: Vec::new(),
            positions_queues: Vec::new(),
            sub_frame_samples,
            num_out_channels,
        }
    }

    /// Returns the number of output channels.
    pub fn num_out_channels(&self) -> (n: usize)
        ensures
            n == self.spec_num_out_channels(),
    {
        self.num_out_channels
    }

    /// Returns the sub-frame size, if blocks are cut into sub-frames.
    pub fn sub_frame_samples(&self) -> (s: Option<Samples>)
        ensures
            s == self.spec_sub_frame_samples(),
    {
        self.sub_frame_samples
    }

    /// Sets or clears the sub-frame size.
    pub fn set_sub_frame_samples(&mut self, samples: Option<Samples>)
        ensures
            final(self).spec_sub_frame_samples() == samples,
            final(self).spec_ids() == old(self).spec_ids(),
            final(self).spec_configs() == old(self).spec_configs(),
            final(self).spec_queues() == old(self).spec_queues(),
            final(self).spec_num_out_channels() == old(self).spec_num_out_channels(),
    {
        self.sub_frame_samples = samples;
    }

    /// Sets the metadata unit: 0 turns sub-frames off, any other count up to `i32::MAX`
    /// becomes the sub-frame size; a larger count fails with `InvalidParameter` and changes
    /// nothing.
    pub fn set_metadata_unit_to_process(&mut self, samples: u32) -> (r: Result<(), OarError>)
        ensures
            samples == 0 ==> r is Ok && final(self).spec_sub_frame_samples() == None::<Samples>,
            0 < samples <= i32::MAX ==> r is Ok && final(self).spec_sub_frame_samples() == Some(Samples(samples)),
            samples > i32::MAX ==> r == Err::<(), OarError>(OarError::InvalidParameter)
                && final(self).spec_sub_frame_samples() == old(self).spec_sub_frame_samples(),
            final(self).spec_ids() == old(self).spec_ids(),
            final(self).spec_configs() == old(self).spec_configs(),
            final(self).spec_queues() == old(self).spec_queues(),
            final(self).spec_num_out_channels() == old(self).spec_num_out_channels(),
    {
        let sub = if samples == 0 {
            None
        } else {
            match Samples::new(samples) {
                Ok(s) => Some(s),
                Err(e) => {
                    return Err(e);
                },
            }
        };
        self.set_sub_frame_samples(sub);
        Ok(())
    }

    /// Returns the position of `id` among the elements, if it is one of them.
    pub fn find(&self, id: u32) -> (r: Option<usize>)
        ensures
            match r {
                Some(i) => i < self.spec_ids().len() && self.spec_ids()[i as int] == id,
                None => !self.spec_ids().contains(id),
            },
    {
        let mut i: usize = 0;
        while i < self.sorted_ids.len()
            invariant
                i <= self.spec_ids().len(),
                forall|j: int| 0 <= j < i ==> self.spec_ids()[j] != id,
            decreases self.spec_ids().len() - i,
        {
            if self.sorted_ids[i] == id {
                return Some(i);
            }
            i = i + 1;
        }
        None
    }

    /// Returns the ids of the elements, ascending.
    pub fn sorted_ids(&self) -> (s: &[u32])
        ensures
            s@ == self.spec_ids(),
    {
        self.sorted_ids.as_slice()
    }

    /// Returns the position queue of the element at position `index`.
    pub fn positions_queue(&self, index: usize) -> (q: &ElementPositionsContext<P>)
        requires
            index < self.spec_queues().len(),
        ensures
            *q == self.spec_queues()[index as int],
    {
        &self.positions_queues[index]
    }

    /// Adds the element `id` with an empty position queue, keeping the ids ascending. Fails
    /// with `InvalidParameter`, changing nothing, when `id` is already known.
    pub fn add_element(&mut self, id: u32, config: &AudioElementConfig) -> (r: Result<(), OarError>)
        requires
            old(self).wf(),
        ensures
            final(self).wf(),
            final(self).spec_sub_frame_samples() == old(self).spec_sub_frame_samples(),
            final(self).spec_num_out_channels() == old(self).spec_num_out_channels(),
            old(self).spec_ids().contains(id) ==> r == Err::<(), OarError>(OarError::InvalidParameter)
                && final(self).spec_ids() == old(self).spec_ids()
                && final(self).spec_configs() == old(self).spec_configs()
                && final(self).spec_queues() == old(self).spec_queues(),
            !old(self).spec_ids().contains(id) ==> {
                &&& r == Ok::<(), OarError>(())
                &&& final(self).spec_ids().to_set() == old(self).spec_ids().to_set().insert(id)
                &&& final(self).spec_ids().len() == old(self).spec_ids().len() + 1
                &&& exists|p: int| 0 <= p <= old(self).spec_ids().len()
                    && final(self).spec_ids() == old(self).spec_ids().insert(p, id)
                    && final(self).spec_configs() == old(self).spec_configs().insert(p, *config)
                    && final(self).spec_queues()[p].positions@.len() == 0
                    && final(self).spec_queues()[p].start == 0
                    && final(self).spec_queues() == old(self).spec_queues().insert(p, final(self).spec_queues()[p])
            },
    {
        if self.find(id).is_some() {
            return Err(OarError::InvalidParameter);
        }
        let ghost old_ids = self.sorted_ids@;
        let mut p: usize = 0;
        while p < self.sorted_ids.len() && self.sorted_ids[p] < id
            invariant
                p <= self.spec_ids().len(),
                self.sorted_ids@ == old_ids,
                forall|q: int| 0 <= q < p ==> old_ids[q] < id,
            decreases self.spec_ids().len() - p,
        {
            p = p + 1;
        }
        self.sorted_ids.insert(p, id);
        self.active_elements.insert(p, *config);
        let q = ElementPositionsContext::new();
        self.positions_queues.insert(p, q);
        proof {
            let ids = self.sorted_ids@;
            assert forall|a: int, b: int| 0 <= a < b < ids.len() implies ids[a] < ids[b] by {
                if b < p {
                } else if b == p {
                } else if a < p {
                    if b - 1 > p as int {
                    }
                } else if a == p {
                    if b - 1 > p as int {
                    }
                } else {
                }
            }
            assert forall|i: int| 0 <= i < self.positions_queues@.len() implies (#[trigger] self.positions_queues@[i]).wf() by {
                if i < p {
                } else if i > p {
                }
            }
            assert(ids.to_set() =~= old_ids.to_set().insert(id)) by {
                assert forall|x: u32| ids.to_set().contains(x) implies old_ids.to_set().insert(id).contains(x) by {
                    let k = choose|k: int| 0 <= k < ids.len() && ids[k] == x;
                    if k < p {
                    } else if k > p {
                    }
                }
                assert forall|x: u32| old_ids.to_set().insert(id).contains(x) implies ids.to_set().contains(x) by {
                    if x == id {
                        assert(ids[p as int] == id);
                    } else {
                        let k = choose|k: int| 0 <= k < old_ids.len() && old_ids[k] == x;
                        if k < p {
                            assert(ids[k] == x);
                        } else {
                            assert(ids[k + 1] == x);
                        }
                    }
                }
            }
        }
        Ok(())
    }

    /// Queues positions for the element `id`, valid for `duration` samples. Fails with
    /// `InvalidParameter`, changing nothing, when `id` is unknown.
    pub fn update_element_positions(&mut self, id: u32, positions: P, duration: Samples) -> (r: Result<(), OarError>)
        requires
            old(self).wf(),
            forall|i: int| 0 <= i < old(self).spec_ids().len() && old(self).spec_ids()[i] == id
                ==> old(self).spec_queues()[i].duration + duration.0 <= u32::MAX,
        ensures
            final(self).wf(),
            final(self).spec_ids() == old(self).spec_ids(),
            final(self).spec_configs() == old(self).spec_configs(),
            final(self).spec_sub_frame_samples() == old(self).spec_sub_frame_samples(),
            final(self).spec_num_out_channels() == old(self).spec_num_out_channels(),
            !old(self).spec_ids().contains(id) ==> r == Err::<(), OarError>(OarError::InvalidParameter)
                && final(self).spec_queues() == old(self).spec_queues(),
            old(self).spec_ids().contains(id) ==> r == Ok::<(), OarError>(()) && exists|i: int| {
                &&& 0 <= i < old(self).spec_ids().len()
                &&& old(self).spec_ids()[i] == id
                &&& final(self).spec_queues()[i].positions@ == old(self).spec_queues()[i].positions@.push(
                    PositionsMetadataItem { positions, duration })
                &&& final(self).spec_queues()[i].start == if old(self).spec_queues()[i].positions@.len() == 0 {
                    0
                } else {
                    old(self).spec_queues()[i].start
                }
                &&& final(self).spec_queues()[i].duration == old(self).spec_queues()[i].duration + duration.0
                &&& final(self).spec_queues() == old(self).spec_queues().update(i, final(self).spec_queues()[i])
            },
    {
        let i = match self.find(id) {
            Some(i) => i,
            None => {
                return Err(OarError::InvalidParameter);
            },
        };
        let mut q = self.positions_queues.remove(i);
        q.push_positions(positions, duration);
        self.positions_queues.insert(i, q);
        proof {
            assert forall|j: int| 0 <= j < self.positions_queues@.len() implies (#[trigger] self.positions_queues@[j]).wf() by {
                if j != i {
                }
            }
        }
        Ok(())
    }

    /// Advances every element's timeline by `samples`, dropping the metadata that has fully
    /// elapsed.
    pub fn elapser_tick(&mut self, samples: u32)
        requires
            old(self).wf(),
            forall|i: int| 0 <= i < old(self).spec_queues().len() ==> #[trigger] old(self).spec_queues()[i].start + samples <= u32::MAX,
        ensures
            final(self).wf(),
            final(self).spec_ids() == old(self).spec_ids(),
            final(self).spec_configs() == old(self).spec_configs(),
            final(self).spec_sub_frame_samples() == old(self).spec_sub_frame_samples(),
            final(self).spec_num_out_channels() == old(self).spec_num_out_channels(),
            final(self).spec_queues().len() == old(self).spec_queues().len(),
            forall|i: int| 0 <= i < final(self).spec_queues().len()
                ==> spec_elapsed(#[trigger] old(self).spec_queues()[i], final(self).spec_queues()[i], samples),
    {
        let ghost old_queues = self.positions_queues@;
        let mut i: usize = 0;
        while i < self.positions_queues.len()
            invariant
                i <= self.positions_queues@.len(),
                self.positions_queues@.len() == old_queues.len(),
                self.sorted_ids == old(self).sorted_ids,
                self.active_elements == old(self).active_elements,
                self.sub_frame_samples == old(self).sub_frame_samples,
                self.num_out_channels == old(self).num_out_channels,
                forall|j: int| i <= j < old_queues.len() ==> #[trigger] self.positions_queues@[j] == old_queues[j],
                forall|j: int| 0 <= j < old_queues.len() ==> (#[trigger] old_queues[j]).wf() && old_queues[j].start + samples <= u32::MAX,
                forall|j: int| 0 <= j < i ==> (#[trigger] self.positions_queues@[j]).wf()
                    && spec_elapsed(old_queues[j], self.positions_queues@[j], samples),
            decreases old_queues.len() - i,
        {
            let ghost before = self.positions_queues@;
            let mut q = self.positions_queues.remove(i);
            q.elapse(samples);
            self.positions_queues.insert(i, q);
            proof {
                assert forall|j: int| i < j < old_queues.len() implies #[trigger] self.positions_queues@[j] == old_queues[j] by {}
                assert forall|j: int| 0 <= j < i implies #[trigger] self.positions_queues@[j] == before[j] by {}
            }
            i = i + 1;
        }
        proof {
            assert forall|j: int| 0 <= j < self.positions_queues@.len() implies (#[trigger] self.positions_queues@[j]).wf() by {}
            assert forall|j: int| 0 <= j < self.positions_queues@.len()
                implies spec_elapsed(#[trigger] old_queues[j], self.positions_queues@[j], samples) by {}
        }
    }

    /// Checks a block before rendering: both buffers need channels, the block needs samples,
    /// the output as many samples as the input, and the input at most `MAX_STACK_CHANNELS`
    /// channels; fails with `InvalidParameter` otherwise.
    pub fn check_render_buffers(
        &self,
        input_channels: usize,
        output_channels: usize,
        input_samples: usize,
        output_samples: usize,
    ) -> (r: Result<(), OarError>)
        ensures
            r is Ok <==> (input_channels > 0 && output_channels > 0 && input_samples > 0
                && output_samples == input_samples && input_channels <= MAX_STACK_CHANNELS),
            r is Err ==> r == Err::<(), OarError>(OarError::InvalidParameter),
    {
        if input_channels == 0 || output_channels == 0 {
            return Err(OarError::InvalidParameter);
        }
        if input_samples == 0 {
            return Err(OarError::InvalidParameter);
        }
        if output_samples != input_samples {
            return Err(OarError::InvalidParameter);
        }
        if input_channels > MAX_STACK_CHANNELS {
            return Err(OarError::InvalidParameter);
        }
        Ok(())
    }

    /// Cuts a block of `total_samples` samples into sub-frames: (offset, length) pairs of the
    /// sub-frame size, the whole block when sub-frames are off.
    pub fn sub_frames(&self, total_samples: usize) -> (v: Vec<(usize, usize)>)
        requires
            self.spec_sub_frame_samples() matches Some(s) ==> s.0 > 0,
        ensures
            v@ == spec_sub_frames(
                total_samples as nat,
                match self.spec_sub_frame_samples() {
                    Some(s) => s.0 as nat,
                    None => total_samples as nat,
                },
                0,
            ),
    {
        let sub: usize = match self.sub_frame_samples {
            Some(s) => s.to_usize(),
            None => total_samples,
        };
        let mut v: Vec<(usize, usize)> = Vec::new();
        if sub == 0 {
            return v;
        }
        let mut processed: usize = 0;
        while processed < total_samples
            invariant
                processed <= total_samples,
                sub > 0,
                v@ + spec_sub_frames(total_samples as nat, sub as nat, processed as nat)
                    == spec_sub_frames(total_samples as nat, sub as nat, 0),
            decreases total_samples - processed,
        {
            let remaining = total_samples - processed;
            let current = if remaining < sub { remaining } else { sub };
            let ghost rest = spec_sub_frames(total_samples as nat, sub as nat, (processed + current) as nat);
            assert(spec_sub_frames(total_samples as nat, sub as nat, processed as nat)
                == seq![(processed, current)] + rest);
            v.push((processed, current));
            processed = processed + current;
        }
        v
    }
}

} // verus!
