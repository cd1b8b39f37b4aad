//! The timeline of a gain parameter: queued gain updates, each lasting a number of samples,
//! and how a block of samples is cut into the pieces each update covers.

use vstd::prelude::*;
use std::collections::VecDeque;
use crate::units::Samples;

verus! {

/// A queued gain change: the gain, how many samples it lasts and how many have elapsed.
#[derive(Debug, Clone, PartialEq)]
pub struct GainUpdate<G> {
    /// The gain.
    pub gain: G,
    /// How many samples the update lasts.
    pub duration: Samples,
    /// How many of them have been rendered.
    pub elapsed: u32,
}

/// Where the gains of a piece of a block come from.
#[derive(Debug, Clone, PartialEq)]
pub enum GainSource<G> {
    /// An update that this piece finished; it has left the queue.
    Finished(G),
    /// The update still at the front of the queue.
    Front,
    /// No update: the last gain is held.
    Hold,
}

/// A piece of a block: `count` samples from `offset`, covering samples `elapsed..` of an
/// update lasting `duration` samples (both 0 for a held gain).
#[derive(Debug, Clone, PartialEq)]
pub struct GainSegment<G> {
    /// Where the gains come from.
    pub source: GainSource<G>,
    /// The piece's first sample in the block.
    pub offset: usize,
    /// The piece's number of samples.
    pub count: usize,
    /// The samples of the update elapsed before the piece.
    pub elapsed: u32,
    /// The update's duration.
    pub duration: u32,
}

/// No update has run past its duration.
pub open spec fn spec_updates_valid<G>(q: Seq<GainUpdate<G>>) -> bool {
    forall|k: int| 0 <= k < q.len() ==> (#[trigger] q[k]).elapsed <= q[k].duration.0
}

/// The pieces of a block of `samples` samples from `idx` on, and the queue after them.
pub open spec fn spec_gain_plan<G>(q: Seq<GainUpdate<G>>, idx: int, samples: int) -> (Seq<GainSegment<G>>, Seq<GainUpdate<G>>)
    decreases q.len(), samples - idx,
{
    if idx >= samples {
        (Seq::empty(), q)
    } else if q.len() == 0 {
        (seq![GainSegment { source: GainSource::Hold, offset: idx as usize, count: (samples - idx) as usize, elapsed: 0, duration: 0 }], q)
    } else {
        let u = q[0];
        let dur = u.duration.0 as int;
        let rem = dur - u.elapsed;
        let count = if rem < samples - idx { rem } else { samples - idx };
        let new_elapsed = u.elapsed + count;
        if new_elapsed >= dur {
            let rest = spec_gain_plan(q.drop_first(), idx + count, samples);
            (
                seq![GainSegment { source: GainSource::Finished(u.gain), offset: idx as usize, count: count as usize, elapsed: u.elapsed, duration: dur as u32 }] + rest.0,
                rest.1,
            )
        } else {
            (
                seq![GainSegment { source: GainSource::Front, offset: idx as usize, count: count as usize, elapsed: u.elapsed, duration: dur as u32 }],
                q.update(0, GainUpdate { gain: u.gain, duration: u.duration, elapsed: new_elapsed as u32 }),
            )
        }
    }
}

/// The pieces cover the block: consecutive from `idx`, ending at its end.
pub proof fn lemma_gain_plan_covers_block<G>(q: Seq<GainUpdate<G>>, idx: int, samples: int)
    requires
        spec_updates_valid(q),
        0 <= idx <= samples <= usize::MAX,
    ensures
        ({
            let p = spec_gain_plan(q, idx, samples).0;
            &&& p.len() > 0 ==> p[0].offset == idx
            &&& forall|k: int| 0 <= k < p.len() - 1 ==> (#[trigger] p[k]).offset + p[k].count == p[k + 1].offset
            &&& p.len() > 0 ==> p[p.len() - 1].offset + p[p.len() - 1].count == samples
            &&& p.len() == 0 <==> idx == samples
        }),
    decreases q.len(), samples - idx,
{
    if idx < samples && q.len() > 0 {
        let u = q[0];
        let dur = u.duration.0 as int;
        let rem = dur - u.elapsed;
        let count = if rem < samples - idx { rem } else { samples - idx };
        if u.elapsed + count >= dur {
            assert(spec_updates_valid(q.drop_first())) by {
                assert forall|k: int| 0 <= k < q.drop_first().len() implies (#[trigger] q.drop_first()[k]).elapsed <= q.drop_first()[k].duration.0 by {}
            }
            lemma_gain_plan_covers_block(q.drop_first(), idx + count, samples);
            let p = spec_gain_plan(q, idx, samples).0;
            let rest = spec_gain_plan(q.drop_first(), idx + count, samples).0;
            assert forall|k: int| 0 <= k < p.len() - 1 implies (#[trigger] p[k]).offset + p[k].count == p[k + 1].offset by {
                if k > 0 {
                } else {
                }
            }
            if rest.len() > 0 {
            }
        }
    }
}

/// The pieces of a block take the queued updates in order: piece `k` (unless it holds the last
/// gain) covers update `k` from the samples of it already elapsed, with that update's duration.
/// A piece that finishes its update runs to the update's end and carries its gain. A piece
/// from the front update ends the block: afterwards that update leads the queue with its
/// elapsed count moved on by the piece's length, followed by the updates after it.
pub proof fn lemma_gain_pieces_follow_updates<G>(q: Seq<GainUpdate<G>>, idx: int, samples: int)
    requires
        spec_updates_valid(q),
        0 <= idx <= samples <= usize::MAX,
    ensures
        ({
            let (p, r) = spec_gain_plan(q, idx, samples);
            &&& forall|k: int| 0 <= k < p.len() && (#[trigger] p[k]).source !is Hold ==> {
                &&& k < q.len()
                &&& p[k].elapsed == q[k].elapsed
                &&& p[k].duration == q[k].duration.0
            }
            &&& forall|k: int| 0 <= k < p.len() ==> match (#[trigger] p[k]).source {
                GainSource::Finished(g) => g == q[k].gain && p[k].elapsed + p[k].count == q[k].duration.0,
                GainSource::Front => {
                    &&& k == p.len() - 1
                    &&& r.len() == q.len() - k
                    &&& r[0].gain == q[k].gain
                    &&& r[0].duration == q[k].duration
                    &&& r[0].elapsed == p[k].elapsed + p[k].count
                    &&& forall|j: int| 1 <= j < r.len() ==> #[trigger] r[j] == q[k + j]
                },
                GainSource::Hold => true,
            }
        }),
    decreases q.len(), samples - idx,
{
    if idx < samples && q.len() > 0 {
        let u = q[0];
        let dur = u.duration.0 as int;
        let rem = dur - u.elapsed;
        let count = if rem < samples - idx { rem } else { samples - idx };
        if u.elapsed + count >= dur {
            let q2 = q.drop_first();
            assert(spec_updates_valid(q2)) by {
                assert forall|k: int| 0 <= k < q2.len() implies (#[trigger] q2[k]).elapsed <= q2[k].duration.0 by {
                    assert(q2[k] == q[k + 1]);
                }
            }
            lemma_gain_pieces_follow_updates(q2, idx + count, samples);
            let (p, r) = spec_gain_plan(q, idx, samples);
            let rest = spec_gain_plan(q2, idx + count, samples);
            assert(r == rest.1);
            assert forall|k: int| 1 <= k < p.len() implies #[trigger] p[k] == rest.0[k - 1] by {}
            assert forall|k: int| 1 <= k < q.len() implies #[trigger] q[k] == q2[k - 1] by {}
            assert forall|k: int| 0 <= k < p.len() && (#[trigger] p[k]).source !is Hold implies {
                &&& k < q.len()
                &&& p[k].elapsed == q[k].elapsed
                &&& p[k].duration == q[k].duration.0
            } by {
                if k > 0 {
                    assert(p[k] == rest.0[k - 1]);
                }
            }
            assert forall|k: int| 0 <= k < p.len() implies match (#[trigger] p[k]).source {
                GainSource::Finished(g) => g == q[k].gain && p[k].elapsed + p[k].count == q[k].duration.0,
                GainSource::Front => {
                    &&& k == p.len() - 1
                    &&& r.len() == q.len() - k
                    &&& r[0].gain == q[k].gain
                    &&& r[0].duration == q[k].duration
                    &&& r[0].elapsed == p[k].elapsed + p[k].count
                    &&& forall|j: int| 1 <= j < r.len() ==> #[trigger] r[j] == q[k + j]
                },
                GainSource::Hold => true,
            } by {
                if k > 0 {
                    assert(p[k] == rest.0[k - 1]);
                    if p[k].source is Front {
                        assert forall|j: int| 1 <= j < r.len() implies #[trigger] r[j] == q[k + j] by {
                            assert(r[j] == q2[k - 1 + j]);
                        }
                    }
                }
            }
        } else {
            let (p, r) = spec_gain_plan(q, idx, samples);
            assert forall|j: int| 1 <= j < r.len() implies #[trigger] r[j] == q[0 + j] by {}
        }
    }
}

/// A gain parameter: its id and its queue of updates.
#[derive(Debug, Clone, PartialEq)]
pub struct GainParameter<G> {
    /// The parameter's id.
    pub id: u32,
    /// The queued updates, oldest first.
    pub updates: VecDeque<GainUpdate<G>>,
}

impl<G> GainParameter<G> {
    /// Creates a parameter with no queued update.
    pub fn new(id: u32) -> (p: Self)
        ensures
            p.id == id,
            p.updates@.len() == 0,
    {
        GainParameter { id, updates: VecDeque::new() }
    }

    /// Cuts a block of `samples` samples into the pieces the queued updates cover, taking the
    /// updates it finishes off the queue and moving the front update on. What is left after
    /// the queue runs out holds the last gain.
    pub fn generate_gain_segments(&mut self, samples: usize) -> (v: Vec<GainSegment<G>>)
        requires
            spec_updates_valid(old(self).updates@),
        ensures
            v@ == spec_gain_plan(old(self).updates@, 0, samples as int).0,
            final(self).updates@ == spec_gain_plan(old(self).updates@, 0, samples as int).1,
            final(self).id == old(self).id,
            spec_updates_valid(final(self).updates@),
    {
        let ghost q0 = self.updates@;
        let mut v: Vec<GainSegment<G>> = Vec::new();
        let mut idx: usize = 0;
        let mut done = false;
        while !done && idx < samples
            invariant
                idx <= samples,
                spec_updates_valid(self.updates@),
                self.id == old(self).id,
                !done ==> v@ + spec_gain_plan(self.updates@, idx as int, samples as int).0 == spec_gain_plan(q0, 0, samples as int).0,
                !done ==> spec_gain_plan(self.updates@, idx as int, samples as int).1 == spec_gain_plan(q0, 0, samples as int).1,
                done ==> v@ == spec_gain_plan(q0, 0, samples as int).0,
                done ==> self.updates@ == spec_gain_plan(q0, 0, samples as int).1,
            decreases self.updates@.len(), samples - idx, if done { 0int } else { 1int },
        {
            let ghost q = self.updates@;
            if self.updates.len() > 0 {
                let dur = self.updates[0].duration.0;
                let elapsed = self.updates[0].elapsed;
                let remaining_in_update = (dur - elapsed) as usize;
                let count = if remaining_in_update < samples - idx { remaining_in_update } else { samples - idx };
                let new_elapsed = elapsed + count as u32;
                if new_elapsed >= dur {
                    let u = self.updates.pop_front();
                    match u {
                        Some(u) => {
                            v.push(GainSegment { source: GainSource::Finished(u.gain), offset: idx, count, elapsed, duration: dur });
                        },
                        None => {},
                    }
                    proof {
                        assert forall|k: int| 0 <= k < self.updates@.len() implies (#[trigger] self.updates@[k]).elapsed <= self.updates@[k].duration.0 by {}
                        assert(v@ + spec_gain_plan(self.updates@, idx + count, samples as int).0
                            =~= v@.drop_last() + spec_gain_plan(q, idx as int, samples as int).0);
                    }
                    idx = idx + count;
                } else {
                    let front = self.updates.pop_front();
                    match front {
                        Some(u) => {
                            self.updates.push_front(GainUpdate { gain: u.gain, duration: u.duration, elapsed: new_elapsed });
                        },
                        None => {},
                    }
                    v.push(GainSegment { source: GainSource::Front, offset: idx, count, elapsed, duration: dur });
                    proof {
                        assert forall|k: int| 0 <= k < self.updates@.len() implies (#[trigger] self.updates@[k]).elapsed <= self.updates@[k].duration.0 by {
                            if k > 0 {
                            }
                        }
                    }
                    idx = idx + count;
                    done = true;
                }
            } else {
                v.push(GainSegment { source: GainSource::Hold, offset: idx, count: samples - idx, elapsed: 0, duration: 0 });
                done = true;
            }
        }
        proof {
            if !done {
            }
        }
        v
    }
}

} // verus!
