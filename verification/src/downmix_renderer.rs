//! The control side of the IAMF downmix renderer: which layouts it supports, how demixing
//! metadata updates the mode and weight index, and how a block is cut at metadata boundaries.

use vstd::prelude::*;
use std::collections::VecDeque;
use crate::config::AudioElementConfig;
use crate::definitions::OarError;
use crate::downmix::{DownmixMode, WeightIndex, WeightIndexShift, spec_mode_shift};
use crate::layout::{Layout, spec_is_valid_downmix, spec_layout_channels};
use crate::units::Samples;

verus! {

/// The value of an optional weight index.
pub open spec fn spec_weight(w: Option<WeightIndex>) -> Option<int> {
    match w {
        Some(x) => Some(x.spec_value()),
        None => None,
    }
}

/// The weight index after a metadata update in a mode with the given shift: the smallest index
/// when there was none, otherwise one step in the shift's direction, kept within `[0, 10]`.
pub open spec fn spec_next_weight_index(shift: WeightIndexShift, prev: Option<int>) -> int {
    match prev {
        None => 0,
        Some(w) => match shift {
            WeightIndexShift::Positive => if w < 10 { w + 1 } else { 10 },
            WeightIndexShift::Negative => if w > 0 { w - 1 } else { 0 },
        },
    }
}

/// Computes the weight index after a metadata update in a mode with the given shift.
fn calculate_next_weight_index(weight_index_shift: WeightIndexShift, w_idx_prev: Option<WeightIndex>) -> (w: WeightIndex)
    ensures
        w.spec_value() == spec_next_weight_index(weight_index_shift, spec_weight(w_idx_prev)),
{
    match w_idx_prev {
        None => WeightIndex::min(),
        Some(w) => match weight_index_shift {
            WeightIndexShift::Positive => w.increment(),
            WeightIndexShift::Negative => w.decrement(),
        },
    }
}

/// The state the metadata timeline of a downmix renderer moves through: the mode, the weight
/// index, the remaining duration of the current metadata (`None`: until the next update) and
/// the queued updates.
pub type DownmixTimeline = (DownmixMode, Option<int>, Option<u32>, Seq<(DownmixMode, Option<Samples>)>);

/// One piece of a block, from `offset` for `len` samples, rendered with the given mode and
/// weight index.
#[derive(Debug, Clone, Copy, PartialEq, Eq)]
pub struct DownmixChunk {
    /// The first sample of the piece.
    pub offset: usize,
    /// The number of samples of the piece.
    pub len: usize,
    /// The demixing mode of the piece.
    pub mode: DownmixMode,
    /// The weight index of the piece.
    pub weight_index: Option<WeightIndex>,
}

/// Whether the next queued update is due: the current metadata has run out, or it lasts until
/// the next update and one is queued.
pub open spec fn spec_update_due(duration: Option<u32>, queued: nat) -> bool {
    match duration {
        Some(d) => d == 0,
        None => queued > 0,
    }
}

/// The timeline after taking the next queued update, when one is due.
pub open spec fn spec_take_update(s: DownmixTimeline) -> DownmixTimeline {
    let (mode, w, dur, q) = s;
    if spec_update_due(dur, q.len()) && q.len() > 0 {
        (
            q[0].0,
            Some(spec_next_weight_index(spec_mode_shift(q[0].0), w)),
            match q[0].1 {
                Some(d) => Some(d.0),
                None => None,
            },
            q.drop_first(),
        )
    } else {
        s
    }
}

/// The length of the next piece of a block with `remaining` samples left: up to the end of the
/// current metadata when it has a duration left.
pub open spec fn spec_chunk_len(dur: Option<u32>, remaining: int) -> int {
    match dur {
        Some(d) => if d > 0 && d < remaining { d as int } else { remaining },
        None => remaining,
    }
}

/// The pieces of a block of `total` samples from `offset` on, and the timeline after them.
pub open spec fn spec_plan(s: DownmixTimeline, offset: int, total: int) -> (Seq<(int, int, DownmixMode, Option<int>)>, DownmixTimeline)
    decreases total - offset,
{
    if offset >= total {
        (Seq::empty(), s)
    } else {
        let t = spec_take_update(s);
        let (mode, w, dur, q) = t;
        let len = spec_chunk_len(dur, total - offset);
        let dur2 = match dur {
            Some(d) => if d > 0 { Some((d - len) as u32) } else { Some(d) },
            None => None,
        };
        if len <= 0 {
            (Seq::empty(), s)
        } else {
            let rest = spec_plan((mode, w, dur2, q), offset + len, total);
            (seq![(offset, len, mode, w)] + rest.0, rest.1)
        }
    }
}

/// The pieces cover the block: they are consecutive, non-empty, and end at its end.
pub proof fn lemma_plan_covers_block(s: DownmixTimeline, offset: int, total: int)
    requires
        0 <= offset <= total,
    ensures
        ({
            let p = spec_plan(s, offset, total).0;
            &&& p.len() > 0 ==> p[0].0 == offset
            &&& forall|k: int| 0 <= k < p.len() ==> (#[trigger] p[k]).1 > 0
            &&& forall|k: int| 0 <= k < p.len() - 1 ==> (#[trigger] p[k]).0 + p[k].1 == p[k + 1].0
            &&& p.len() > 0 ==> p[p.len() - 1].0 + p[p.len() - 1].1 == total
            &&& p.len() == 0 <==> offset == total
        }),
    decreases total - offset,
{
    if offset < total {
        let t = spec_take_update(s);
        let (mode, w, dur, q) = t;
        let len = spec_chunk_len(dur, total - offset);
        let dur2 = match dur {
            Some(d) => if d > 0 { Some((d - len) as u32) } else { Some(d) },
            None => None,
        };
        lemma_plan_covers_block((mode, w, dur2, q), offset + len, total);
        let p = spec_plan(s, offset, total).0;
        let rest = spec_plan((mode, w, dur2, q), offset + len, total).0;
        assert forall|k: int| 0 <= k < p.len() - 1 implies (#[trigger] p[k]).0 + p[k].1 == p[k + 1].0 by {
            if k > 0 {
            } else {
            }
        }
        assert forall|k: int| 0 <= k < p.len() implies (#[trigger] p[k]).1 > 0 by {
            if k > 0 {
            }
        }
        if rest.len() > 0 {
        }
    }
}

/// Whether a demixing mode steps the weight index up: the positive-offset modes.
pub open spec fn spec_raises_weight(m: DownmixMode) -> bool {
    m == DownmixMode::Mode1PosOffset || m == DownmixMode::Mode2PosOffset || m == DownmixMode::Mode3PosOffset
}

/// The weight index that an update to mode `m` leaves after the index `w`: the smallest one (0)
/// when there was none, else one step up for a positive-offset mode (staying at 10) and one step
/// down for a negative-offset mode (staying at 0).
pub open spec fn spec_weight_after(m: DownmixMode, w: Option<int>) -> int {
    match w {
        None => 0,
        Some(x) => if spec_raises_weight(m) {
            if x < 10 { x + 1 } else { 10 }
        } else {
            if x > 0 { x - 1 } else { 0 }
        },
    }
}

/// A piece that starts with a queued update takes that update's mode, and its weight index is
/// the one the update's mode leaves after the previous index. A piece that starts while the
/// current metadata lasts keeps the mode and the weight index.
pub proof fn lemma_piece_mode_and_weight(s: DownmixTimeline, offset: int, total: int)
    requires
        0 <= offset < total,
    ensures
        ({
            let (mode, w, dur, q) = s;
            let p = spec_plan(s, offset, total).0;
            let due = match dur {
                Some(d) => d == 0,
                None => q.len() > 0,
            };
            &&& p.len() > 0
            &&& due && q.len() > 0 ==> {
                &&& p[0].2 == q[0].0
                &&& p[0].3 == Some(spec_weight_after(q[0].0, w))
            }
            &&& !(due && q.len() > 0) ==> p[0].2 == mode && p[0].3 == w
        }),
{
    lemma_plan_covers_block(s, offset, total);
    let (mode, w, dur, q) = s;
    if q.len() > 0 {
        let m = q[0].0;
        assert(spec_raises_weight(m) <==> spec_mode_shift(m) == WeightIndexShift::Positive);
    }
}

/// Every piece after the first starts where the metadata before it ran out, and takes the
/// queued updates in order: the `j`-th of them gives the piece its mode and moves the weight
/// index on from the previous piece's index in that mode's direction. Once the queue is used
/// up, one last piece keeps the previous mode and weight index to the end of the block.
pub proof fn lemma_pieces_follow_queue(s: DownmixTimeline, offset: int, total: int)
    requires
        0 <= offset <= total,
    ensures
        ({
            let (mode, w, dur, q) = s;
            let p = spec_plan(s, offset, total).0;
            let first: int = if spec_update_due(dur, q.len()) && q.len() > 0 { 1 } else { 0 };
            forall|k: int| 1 <= k < p.len() ==> if first + k - 1 < q.len() {
                &&& (#[trigger] p[k]).2 == q[first + k - 1].0
                &&& p[k].3 == Some(spec_weight_after(q[first + k - 1].0, p[k - 1].3))
            } else {
                &&& k == p.len() - 1
                &&& p[k].2 == p[k - 1].2
                &&& p[k].3 == p[k - 1].3
            }
        }),
    decreases total - offset,
{
    if offset < total {
        let (mode, w, dur, q) = s;
        let first: int = if spec_update_due(dur, q.len()) && q.len() > 0 { 1 } else { 0 };
        let t = spec_take_update(s);
        let (mode_t, w_t, dur_t, q_t) = t;
        let len = spec_chunk_len(dur_t, total - offset);
        let dur2 = match dur_t {
            Some(d) => if d > 0 { Some((d - len) as u32) } else { Some(d) },
            None => None,
        };
        let s1 = (mode_t, w_t, dur2, q_t);
        assert(q_t =~= q.subrange(first, q.len() as int));
        lemma_pieces_follow_queue(s1, offset + len, total);
        let p = spec_plan(s, offset, total).0;
        let r = spec_plan(s1, offset + len, total).0;
        assert(p =~= seq![(offset, len, mode_t, w_t)] + r);
        lemma_plan_covers_block(s1, offset + len, total);
        if offset + len < total {
            assert(dur2 == Some(0u32));
            lemma_piece_mode_and_weight(s1, offset + len, total);
            if q_t.len() == 0 {
                let s2 = spec_take_update(s1);
                assert(s2 == s1);
                assert(spec_plan((mode_t, w_t, dur2, q_t), total, total).0.len() == 0);
                assert(r.len() == 1);
            }
            assert forall|k: int| 1 <= k < p.len() implies if first + k - 1 < q.len() {
                &&& (#[trigger] p[k]).2 == q[first + k - 1].0
                &&& p[k].3 == Some(spec_weight_after(q[first + k - 1].0, p[k - 1].3))
            } else {
                &&& k == p.len() - 1
                &&& p[k].2 == p[k - 1].2
                &&& p[k].3 == p[k - 1].3
            } by {
                assert(p[k] == r[k - 1]);
                assert(p[k - 1] == if k == 1 { (offset, len, mode_t, w_t) } else { r[k - 2] });
                if k >= 2 && first + k - 1 < q.len() {
                    assert(q_t[k - 1] == q[first + k - 1]);
                }
            }
        }
    }
}

/// The control state of a downmix renderer from one layout to another.
#[derive(Debug, Clone)]
pub struct DownmixRenderer {
    input_layout: Layout,
    output_layout: Layout,
    input_channels: usize,
    output_channels: usize,
    supported: bool,
    mode: DownmixMode,
    weight_index: Option<WeightIndex>,
    metadata_duration: Option<u32>,
    metadata_queue: VecDeque<(DownmixMode, Option<Samples>)>,
}

impl DownmixRenderer {
    pub closed spec fn spec_input_layout(&self) -> Layout {
        self.input_layout
    }

    pub closed spec fn spec_output_layout(&self) -> Layout {
        self.output_layout
    }

    pub closed spec fn spec_input_channels(&self) -> usize {
        self.input_channels
    }

    pub closed spec fn spec_output_channels(&self) -> usize {
        self.output_channels
    }

    pub closed spec fn spec_supported(&self) -> bool {
        self.supported
    }

    /// The renderer's metadata timeline.
    pub closed spec fn spec_timeline(&self) -> DownmixTimeline {
        (self.mode, spec_weight(self.weight_index), self.metadata_duration, self.metadata_queue@)
    }

    /// Creates a renderer from `input_layout` to `output_layout`. It is supported when both
    /// layouts have channels and the input can be downmixed to the output; it starts in the
    /// first mode with no weight index and its first metadata already run out.
    pub fn new(input_layout: Layout, output_layout: Layout) -> (r: Self)
        ensures
            r.spec_input_layout() == input_layout,
            r.spec_output_layout() == output_layout,
            r.spec_input_channels() == spec_layout_channels(input_layout),
            r.spec_output_channels() == spec_layout_channels(output_layout),
            r.spec_supported() == (spec_layout_channels(input_layout) > 0 && spec_layout_channels(output_layout) > 0
                && spec_is_valid_downmix(input_layout, output_layout)),
            r.spec_timeline() == (DownmixMode::Mode1NegOffset, None::<int>, Some(0u32), Seq::<(DownmixMode, Option<Samples>)>::empty()),
    {
        let input_channels = input_layout.channels();
        let output_channels = output_layout.channels();
        let supported = input_channels > 0 && output_channels > 0 && input_layout.is_valid_downmix_to(output_layout);
        DownmixRenderer {
            input_layout,
            output_layout,
            input_channels,
            output_channels,
            supported,
            mode: DownmixMode::Mode1NegOffset,
            weight_index: None,
            metadata_duration: Some(0),
            metadata_queue: VecDeque::new(),
        }
    }

    /// Returns the input layout.
    pub fn input_layout(&self) -> (l: Layout)
        ensures
            l == self.spec_input_layout(),
    {
        self.input_layout
    }

    /// Returns the output layout.
    pub fn output_layout(&self) -> (l: Layout)
        ensures
            l == self.spec_output_layout(),
    {
        self.output_layout
    }

    /// Returns the number of input channels.
    pub fn input_channels(&self) -> (n: usize)
        ensures
            n == self.spec_input_channels(),
    {
        self.input_channels
    }

    /// Returns the number of output channels.
    pub fn output_channels(&self) -> (n: usize)
        ensures
            n == self.spec_output_channels(),
    {
        self.output_channels
    }

    /// Whether the renderer supports its layouts.
    pub fn is_supported(&self) -> (b: bool)
        ensures
            b == self.spec_supported(),
    {
        self.supported
    }

    /// Returns the current mode and weight index.
    pub fn mode_weight(&self) -> (r: (DownmixMode, Option<WeightIndex>))
        ensures
            r.0 == self.spec_timeline().0,
            spec_weight(r.1) == self.spec_timeline().1,
    {
        (self.mode, self.weight_index)
    }

    /// Sets the demixing mode and the weight index: the given one, or else the next one in the
    /// mode's shift direction. Fails with `NotSupported`, changing nothing, when the renderer
    /// does not support its layouts.
    pub fn set_mode_weight(&mut self, mode: DownmixMode, w_idx: Option<WeightIndex>) -> (r: Result<(), OarError>)
        ensures
            final(self).spec_input_layout() == old(self).spec_input_layout(),
            final(self).spec_output_layout() == old(self).spec_output_layout(),
            final(self).spec_input_channels() == old(self).spec_input_channels(),
            final(self).spec_output_channels() == old(self).spec_output_channels(),
            final(self).spec_supported() == old(self).spec_supported(),
            !old(self).spec_supported() ==> r == Err::<(), OarError>(OarError::NotSupported)
                && final(self).spec_timeline() == old(self).spec_timeline(),
            old(self).spec_supported() ==> r is Ok && final(self).spec_timeline() == (
                mode,
                match w_idx {
                    Some(w) => Some(w.spec_value()),
                    None => Some(spec_next_weight_index(spec_mode_shift(mode), old(self).spec_timeline().1)),
                },
                old(self).spec_timeline().2,
                old(self).spec_timeline().3,
            ),
    {
        if !self.supported {
            return Err(OarError::NotSupported);
        }
        self.mode = mode;
        self.weight_index = match w_idx {
            Some(w) => Some(w),
            None => Some(calculate_next_weight_index(mode.weight_index_shift(), self.weight_index)),
        };
        Ok(())
    }

    /// Accepts a channel-based element in the input layout. Fails with `NotSupported` when
    /// the renderer does not support its layouts or the element is not channel based, and
    /// with `InvalidParameter` for a channel-based element in another layout.
    pub fn add_element(&self, _id: u32, config: &AudioElementConfig) -> (r: Result<(), OarError>)
        ensures
            !self.spec_supported() ==> r == Err::<(), OarError>(OarError::NotSupported),
            self.spec_supported() ==> match *config {
                AudioElementConfig::ChannelBased(cbc) => if cbc.layout == self.spec_input_layout() {
                    r is Ok
                } else {
                    r == Err::<(), OarError>(OarError::InvalidParameter)
                },
                _ => r == Err::<(), OarError>(OarError::NotSupported),
            },
    {
        if !self.supported {
            return Err(OarError::NotSupported);
        }
        match config {
            AudioElementConfig::ChannelBased(cfg) => {
                if cfg.layout == self.input_layout {
                    Ok(())
                } else {
                    Err(OarError::InvalidParameter)
                }
            },
            _ => Err(OarError::NotSupported),
        }
    }

    /// Queues a demixing mode update lasting `duration` samples (until the next update when
    /// `None`). Fails with `NotSupported`, changing nothing, when the renderer does not support
    /// its layouts.
    pub fn update_element_downmix_mode(&mut self, _id: u32, mode: DownmixMode, duration: Option<Samples>) -> (r: Result<(), OarError>)
        ensures
            final(self).spec_input_layout() == old(self).spec_input_layout(),
            final(self).spec_output_layout() == old(self).spec_output_layout(),
            final(self).spec_input_channels() == old(self).spec_input_channels(),
            final(self).spec_output_channels() == old(self).spec_output_channels(),
            final(self).spec_supported() == old(self).spec_supported(),
            !old(self).spec_supported() ==> r == Err::<(), OarError>(OarError::NotSupported)
                && final(self).spec_timeline() == old(self).spec_timeline(),
            old(self).spec_supported() ==> r is Ok && final(self).spec_timeline() == (
                old(self).spec_timeline().0,
                old(self).spec_timeline().1,
                old(self).spec_timeline().2,
                old(self).spec_timeline().3.push((mode, duration)),
            ),
    {
        if !self.supported {
            return Err(OarError::NotSupported);
        }
        self.metadata_queue.push_back((mode, duration));
        Ok(())
    }

    /// Plans the rendering of a block: cuts it at the points where queued metadata takes
    /// effect, moving the timeline past the block. Fails with `InvalidParameter` when the
    /// renderer does not support its layouts, or when the buffers do not have the renderer's
    /// channel counts, their lengths differ or they are empty; on failure nothing changes.
    /// Otherwise it succeeds.
    pub fn render_plan(
        &mut self,
        input_channels: usize,
        output_channels: usize,
        input_samples: usize,
        output_samples: usize,
    ) -> (r: Result<Vec<DownmixChunk>, OarError>)
        ensures
            final(self).spec_input_layout() == old(self).spec_input_layout(),
            final(self).spec_output_layout() == old(self).spec_output_layout(),
            final(self).spec_input_channels() == old(self).spec_input_channels(),
            final(self).spec_output_channels() == old(self).spec_output_channels(),
            final(self).spec_supported() == old(self).spec_supported(),
            !old(self).spec_supported() ==> r == Err::<Vec<DownmixChunk>, OarError>(OarError::InvalidParameter),
            old(self).spec_supported() && (input_channels != old(self).spec_input_channels()
                || output_channels != old(self).spec_output_channels() || output_samples != input_samples
                || input_samples == 0) ==> r == Err::<Vec<DownmixChunk>, OarError>(OarError::InvalidParameter),
            old(self).spec_supported() && input_channels == old(self).spec_input_channels()
                && output_channels == old(self).spec_output_channels() && output_samples == input_samples
                && input_samples > 0 ==> r is Ok,
            r is Err ==> final(self).spec_timeline() == old(self).spec_timeline(),
            r is Ok ==> {
                let plan = spec_plan(old(self).spec_timeline(), 0, input_samples as int);
                let v = r->Ok_0;
                &&& old(self).spec_supported()
                &&& input_channels == old(self).spec_input_channels()
                &&& output_channels == old(self).spec_output_channels()
                &&& output_samples == input_samples
                &&& input_samples > 0
                &&& v@.len() == plan.0.len()
                &&& forall|k: int| 0 <= k < v@.len() ==> {
                    &&& (#[trigger] v@[k]).offset == plan.0[k].0
                    &&& v@[k].len == plan.0[k].1
                    &&& v@[k].mode == plan.0[k].2
                    &&& spec_weight(v@[k].weight_index) == plan.0[k].3
                }
                &&& final(self).spec_timeline() == plan.1
            },
    {
        if !self.supported {
            return Err(OarError::InvalidParameter);
        }
        if input_channels != self.input_channels || output_channels != self.output_channels || output_samples != input_samples {
            return Err(OarError::InvalidParameter);
        }
        let samples_per_channel = input_samples;
        if samples_per_channel == 0 {
            return Err(OarError::InvalidParameter);
        }
        let ghost start = self.spec_timeline();
        let mut chunks: Vec<DownmixChunk> = Vec::new();
        let mut offset: usize = 0;
        while offset < samples_per_channel
            invariant
                offset <= samples_per_channel,
                self.supported,
                self.input_layout == old(self).input_layout,
                self.output_layout == old(self).output_layout,
                self.input_channels == old(self).input_channels,
                self.output_channels == old(self).output_channels,
                spec_plan(start, 0, samples_per_channel as int).1 == spec_plan(self.spec_timeline(), offset as int, samples_per_channel as int).1,
                spec_plan(start, 0, samples_per_channel as int).0.len() == chunks@.len() + spec_plan(self.spec_timeline(), offset as int, samples_per_channel as int).0.len(),
                forall|k: int| 0 <= k < chunks@.len() ==> {
                    let p = spec_plan(start, 0, samples_per_channel as int).0[k];
                    &&& (#[trigger] chunks@[k]).offset == p.0
                    &&& chunks@[k].len == p.1
                    &&& chunks@[k].mode == p.2
                    &&& spec_weight(chunks@[k].weight_index) == p.3
                },
                forall|j: int| chunks@.len() <= j < spec_plan(start, 0, samples_per_channel as int).0.len()
                    ==> #[trigger] spec_plan(start, 0, samples_per_channel as int).0[j]
                        == spec_plan(self.spec_timeline(), offset as int, samples_per_channel as int).0[j - chunks@.len()],
            decreases samples_per_channel - offset,
        {
            let mut chunk_samples = samples_per_channel - offset;
            let need_pop = match self.metadata_duration {
                Some(d) => d == 0,
                None => self.metadata_queue.len() > 0,
            };
            if need_pop && self.metadata_queue.len() > 0 {
                let (mode, dur) = self.metadata_queue[0];
                self.metadata_queue.pop_front();
                match self.set_mode_weight(mode, None) {
                    Ok(()) => {},
                    Err(e) => {
                        return Err(e);
                    },
                }
                self.metadata_duration = match dur {
                    Some(s) => Some(s.value()),
                    None => None,
                };
            }
            match self.metadata_duration {
                Some(rem) => {
                    if rem > 0 && (rem as usize) < chunk_samples {
                        chunk_samples = rem as usize;
                    }
                },
                None => {},
            }
            chunks.push(DownmixChunk { offset, len: chunk_samples, mode: self.mode, weight_index: self.weight_index });
            match self.metadata_duration {
                Some(rem) => {
                    if rem > 0 {
                        self.metadata_duration = Some(rem - chunk_samples as u32);
                    }
                },
                None => {},
            }
            proof {
                let total = samples_per_channel as int;
                let full = spec_plan(start, 0, total).0;
                let rest = spec_plan(self.spec_timeline(), offset + chunk_samples, total);
                assert forall|j: int| chunks@.len() <= j < full.len() implies #[trigger] full[j] == rest.0[j - chunks@.len()] by {}
            }
            offset = offset + chunk_samples;
        }
        Ok(chunks)
    }
}

} // verus!
