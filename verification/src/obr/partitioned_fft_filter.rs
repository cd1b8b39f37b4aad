//! The partition bookkeeping of the partitioned FFT convolution filter: how a kernel is cut
//! into partitions, and the ring of past input blocks each partition is convolved with.

use vstd::prelude::*;
use super::dsp_utils::ceil_to_multiple_of_frames_per_buffer;

verus! {

/// `size` rounded up to a positive multiple of `frames_per_buffer`.
pub open spec fn spec_ceil_to_multiple(size: int, frames_per_buffer: int) -> int {
    if size % frames_per_buffer == 0 {
        if size > frames_per_buffer { size } else { frames_per_buffer }
    } else {
        size + frames_per_buffer - size % frames_per_buffer
    }
}

/// What a change of filter length asks of the frequency-domain history: the slots to move to
/// the front, in order, and the range of slots to clear.
#[derive(Debug, Clone, PartialEq, Eq)]
pub struct PartitionResize {
    /// Slot `copy_order[i]` of the old history becomes slot `i`.
    pub copy_order: Vec<usize>,
    /// The first slot to clear.
    pub clear_from: usize,
    /// One past the last slot to clear.
    pub clear_to: usize,
}

/// One partition of a time-domain kernel: its first sample and how many samples it takes
/// from the kernel (the rest of the partition is zero).
#[derive(Debug, Clone, Copy, PartialEq, Eq)]
pub struct KernelPartition {
    /// The partition's first kernel sample.
    pub offset: usize,
    /// The number of kernel samples in the partition.
    pub num_frames: usize,
}

/// The geometry and ring position of a partitioned FFT filter.
#[derive(Debug, Clone, PartialEq, Eq)]
pub struct PartitionedFftFilter {
    fft_size: usize,
    frames_per_buffer: usize,
    max_filter_size: usize,
    max_num_partitions: usize,
    filter_size: usize,
    num_partitions: usize,
    curr_front_buffer: usize,
}

impl PartitionedFftFilter {
    pub closed spec fn spec_fft_size(&self) -> usize {
        self.fft_size
    }

    pub closed spec fn spec_frames_per_buffer(&self) -> usize {
        self.frames_per_buffer
    }

    pub closed spec fn spec_max_filter_size(&self) -> usize {
        self.max_filter_size
    }

    pub closed spec fn spec_max_num_partitions(&self) -> usize {
        self.max_num_partitions
    }

    pub closed spec fn spec_filter_size(&self) -> usize {
        self.filter_size
    }

    pub closed spec fn spec_num_partitions(&self) -> usize {
        self.num_partitions
    }

    pub closed spec fn spec_front(&self) -> usize {
        self.curr_front_buffer
    }

    /// Filter lengths are whole numbers of blocks, the filter fits its maximum, and the ring
    /// position is one of its partitions.
    pub open spec fn wf(&self) -> bool {
        let fpb = self.spec_frames_per_buffer() as int;
        &&& fpb > 0
        &&& fpb <= self.spec_fft_size() / 2
        &&& self.spec_max_filter_size() + fpb <= usize::MAX
        &&& self.spec_num_partitions() * fpb == self.spec_filter_size()
        &&& self.spec_max_num_partitions() * fpb == self.spec_max_filter_size()
        &&& 0 < self.spec_num_partitions() <= self.spec_max_num_partitions()
        &&& self.spec_front() < self.spec_num_partitions()
        &&& 2 * self.spec_max_num_partitions() <= usize::MAX
    }

    /// Creates the bookkeeping of a filter of `filter_size` samples (growing up to
    /// `max_filter_size`) for blocks of `frames_per_buffer` samples and FFTs of `fft_size`
    /// points; both sizes are rounded up to whole blocks.
    pub fn new(filter_size: usize, frames_per_buffer: usize, max_filter_size: usize, fft_size: usize) -> (f: Self)
        requires
            0 < frames_per_buffer <= fft_size / 2,
            filter_size <= max_filter_size,
            2 * (max_filter_size + 2 * frames_per_buffer) <= usize::MAX,
        ensures
            f.wf(),
            f.spec_fft_size() == fft_size,
            f.spec_frames_per_buffer() == frames_per_buffer,
            f.spec_max_filter_size() == spec_ceil_to_multiple(max_filter_size as int, frames_per_buffer as int),
            f.spec_filter_size() == spec_ceil_to_multiple(filter_size as int, frames_per_buffer as int),
            f.spec_front() == 0,
    {
        let ghost old_filter_size = filter_size;
        let ghost old_max = max_filter_size;
        let max_filter_size = ceil_to_multiple_of_frames_per_buffer(max_filter_size, frames_per_buffer);
        let max_num_partitions = max_filter_size / frames_per_buffer;
        let filter_size = ceil_to_multiple_of_frames_per_buffer(filter_size, frames_per_buffer);
        let num_partitions = filter_size / frames_per_buffer;
        proof {
            assert(filter_size <= max_filter_size) by (nonlinear_arith)
                requires
                    filter_size % frames_per_buffer == 0,
                    max_filter_size % frames_per_buffer == 0,
                    filter_size == frames_per_buffer || filter_size - frames_per_buffer < old_filter_size,
                    max_filter_size >= old_max,
                    max_filter_size >= frames_per_buffer,
                    old_filter_size <= old_max,
                    frames_per_buffer > 0,
            ;
            assert(max_num_partitions * frames_per_buffer == max_filter_size) by (nonlinear_arith)
                requires
                    max_filter_size % frames_per_buffer == 0,
                    max_num_partitions == max_filter_size / frames_per_buffer,
                    frames_per_buffer > 0,
            ;
            assert(num_partitions * frames_per_buffer == filter_size) by (nonlinear_arith)
                requires
                    filter_size % frames_per_buffer == 0,
                    num_partitions == filter_size / frames_per_buffer,
                    frames_per_buffer > 0,
            ;
            assert(0 < num_partitions <= max_num_partitions) by (nonlinear_arith)
                requires
                    num_partitions * frames_per_buffer == filter_size,
                    max_num_partitions * frames_per_buffer == max_filter_size,
                    frames_per_buffer <= filter_size <= max_filter_size,
                    frames_per_buffer > 0,
            ;
            assert(max_num_partitions <= max_filter_size) by (nonlinear_arith)
                requires
                    max_num_partitions * frames_per_buffer == max_filter_size,
                    frames_per_buffer > 0,
            ;
        }
        PartitionedFftFilter {
            fft_size,
            frames_per_buffer,
            max_filter_size,
            max_num_partitions,
            filter_size,
            num_partitions,
            curr_front_buffer: 0,
        }
    }

    /// Returns the number of active partitions.
    pub fn num_partitions(&self) -> (n: usize)
        ensures
            n == self.spec_num_partitions(),
    {
        self.num_partitions
    }

    /// Returns the number of partitions the buffers hold at most.
    pub fn max_num_partitions(&self) -> (n: usize)
        ensures
            n == self.spec_max_num_partitions(),
    {
        self.max_num_partitions
    }

    /// Returns the number of FFT points.
    pub fn fft_size(&self) -> (n: usize)
        ensures
            n == self.spec_fft_size(),
    {
        self.fft_size
    }

    /// Returns the number of samples of a block.
    pub fn frames_per_buffer(&self) -> (n: usize)
        ensures
            n == self.spec_frames_per_buffer(),
    {
        self.frames_per_buffer
    }

    /// Returns the active filter length in samples.
    pub fn filter_size(&self) -> (n: usize)
        ensures
            n == self.spec_filter_size(),
    {
        self.filter_size
    }

    /// Changes the filter length to `new_filter_size` samples rounded up to whole blocks.
    /// When the ring is not at its start, the surviving history is moved to the front in
    /// age order; the slots the filter gains are cleared.
    pub fn reset_freq_domain_buffers(&mut self, new_filter_size: usize) -> (r: PartitionResize)
        requires
            old(self).wf(),
            new_filter_size > 0,
            new_filter_size + old(self).spec_frames_per_buffer() <= usize::MAX,
            spec_ceil_to_multiple(new_filter_size as int, old(self).spec_frames_per_buffer() as int) <= old(self).spec_max_filter_size(),
        ensures
            final(self).wf(),
            final(self).spec_fft_size() == old(self).spec_fft_size(),
            final(self).spec_frames_per_buffer() == old(self).spec_frames_per_buffer(),
            final(self).spec_max_filter_size() == old(self).spec_max_filter_size(),
            final(self).spec_max_num_partitions() == old(self).spec_max_num_partitions(),
            final(self).spec_filter_size() == spec_ceil_to_multiple(new_filter_size as int, old(self).spec_frames_per_buffer() as int),
            ({
                let old_n = old(self).spec_num_partitions() as int;
                let new_n = final(self).spec_num_partitions() as int;
                let kept = if old_n < new_n { old_n } else { new_n };
                &&& r.clear_from == old_n
                &&& r.clear_to == new_n
                &&& old(self).spec_front() > 0 ==> {
                    &&& final(self).spec_front() == 0
                    &&& r.copy_order@.len() == kept
                    &&& forall|i: int| 0 <= i < kept ==> #[trigger] r.copy_order@[i] == (old(self).spec_front() + i) % old_n
                }
                &&& old(self).spec_front() == 0 ==> final(self).spec_front() == 0 && r.copy_order@.len() == 0
            }),
    {
        let fpb = self.frames_per_buffer;
        let filter_size = ceil_to_multiple_of_frames_per_buffer(new_filter_size, fpb);
        let old_num_partitions = self.num_partitions;
        let num_partitions = filter_size / fpb;
        proof {
            assert(num_partitions * fpb == filter_size) by (nonlinear_arith)
                requires
                    filter_size % fpb == 0,
                    num_partitions == filter_size / fpb,
                    fpb > 0,
            ;
            assert(0 < num_partitions <= self.max_num_partitions) by (nonlinear_arith)
                requires
                    num_partitions * fpb == filter_size,
                    self.max_num_partitions * fpb == self.max_filter_size,
                    fpb <= filter_size <= self.max_filter_size,
                    fpb > 0,
            ;
        }
        self.filter_size = filter_size;
        self.num_partitions = num_partitions;
        let min_num_partitions = if old_num_partitions < num_partitions { old_num_partitions } else { num_partitions };
        let mut copy_order: Vec<usize> = Vec::new();
        if self.curr_front_buffer > 0 {
            let mut i: usize = 0;
            while i < min_num_partitions
                invariant
                    i <= min_num_partitions,
                    min_num_partitions <= old_num_partitions,
                    old_num_partitions > 0,
                    2 * old_num_partitions <= usize::MAX,
                    self.curr_front_buffer < old_num_partitions,
                    copy_order@.len() == i,
                    forall|j: int| 0 <= j < i ==> #[trigger] copy_order@[j] == (self.curr_front_buffer + j) % (old_num_partitions as int),
                decreases min_num_partitions - i,
            {
                copy_order.push((self.curr_front_buffer + i) % old_num_partitions);
                i = i + 1;
            }
            self.curr_front_buffer = 0;
        }
        PartitionResize { copy_order, clear_from: old_num_partitions, clear_to: num_partitions }
    }

    /// Cuts a kernel of `kernel_size` samples into block-sized partitions (at least one).
    pub fn kernel_partitions(&self, kernel_size: usize) -> (v: Vec<KernelPartition>)
        requires
            self.wf(),
            kernel_size + self.spec_frames_per_buffer() <= usize::MAX,
            spec_ceil_to_multiple(kernel_size as int, self.spec_frames_per_buffer() as int) <= self.spec_max_filter_size(),
        ensures
            v@.len() * self.spec_frames_per_buffer() == spec_ceil_to_multiple(kernel_size as int, self.spec_frames_per_buffer() as int),
            v@.len() <= self.spec_max_num_partitions(),
            forall|p: int| 0 <= p < v@.len() ==> {
                &&& (#[trigger] v@[p]).offset == p * self.spec_frames_per_buffer()
                &&& v@[p].offset <= kernel_size
                &&& v@[p].num_frames == if kernel_size - v@[p].offset < self.spec_frames_per_buffer() {
                    kernel_size - v@[p].offset
                } else {
                    self.spec_frames_per_buffer() as int
                }
            },
    {
        let fpb = self.frames_per_buffer;
        let padded = ceil_to_multiple_of_frames_per_buffer(kernel_size, fpb);
        let count = padded / fpb;
        proof {
            assert(count * fpb == padded) by (nonlinear_arith)
                requires
                    padded % fpb == 0,
                    count == padded / fpb,
                    fpb > 0,
            ;
            assert(count <= self.max_num_partitions) by (nonlinear_arith)
                requires
                    count * fpb == padded,
                    self.max_num_partitions * fpb == self.max_filter_size,
                    padded <= self.max_filter_size,
                    fpb > 0,
            ;
        }
        let mut v: Vec<KernelPartition> = Vec::new();
        let mut partition: usize = 0;
        let mut offset: usize = 0;
        while partition < count
            invariant
                fpb == self.frames_per_buffer,
                fpb > 0,
                count * fpb == padded,
                padded == spec_ceil_to_multiple(kernel_size as int, fpb as int),
                padded == fpb || padded - fpb < kernel_size,
                partition <= count,
                offset == partition * fpb,
                v@.len() == partition,
                forall|p: int| 0 <= p < partition ==> {
                    &&& (#[trigger] v@[p]).offset == p * fpb
                    &&& v@[p].offset <= kernel_size
                    &&& v@[p].num_frames == if kernel_size - v@[p].offset < fpb { kernel_size - v@[p].offset } else { fpb as int }
                },
            decreases count - partition,
        {
            proof {
                assert(offset <= kernel_size) by (nonlinear_arith)
                    requires
                        offset == partition * fpb,
                        partition < count,
                        count * fpb == padded,
                        padded == fpb || padded - fpb < kernel_size,
                        fpb > 0,
                ;
            }
            let remaining = kernel_size - offset;
            let num_frames = if remaining < fpb { remaining } else { fpb };
            v.push(KernelPartition { offset, num_frames });
            partition = partition + 1;
            proof {
                assert(partition * fpb == offset + fpb) by (nonlinear_arith)
                    requires
                        offset == (partition - 1) * fpb,
                ;
                assert(offset + fpb <= padded) by (nonlinear_arith)
                    requires
                        offset == (partition - 1) * fpb,
                        partition <= count,
                        count * fpb == padded,
                        fpb > 0,
                ;
            }
            offset = offset + fpb;
        }
        v
    }

    /// Steps the ring for one input block: returns the slot the new block goes to and, for
    /// each kernel partition in order, the slot of the block it is convolved with; then moves
    /// the front back by one slot.
    pub fn advance_ring(&mut self) -> (r: (usize, Vec<usize>))
        requires
            old(self).wf(),
        ensures
            final(self).wf(),
            final(self).spec_fft_size() == old(self).spec_fft_size(),
            final(self).spec_frames_per_buffer() == old(self).spec_frames_per_buffer(),
            final(self).spec_max_filter_size() == old(self).spec_max_filter_size(),
            final(self).spec_max_num_partitions() == old(self).spec_max_num_partitions(),
            final(self).spec_filter_size() == old(self).spec_filter_size(),
            final(self).spec_num_partitions() == old(self).spec_num_partitions(),
            r.0 == old(self).spec_front(),
            r.1@.len() == old(self).spec_num_partitions(),
            forall|i: int| 0 <= i < r.1@.len() ==> #[trigger] r.1@[i] == (old(self).spec_front() + i) % (old(self).spec_num_partitions() as int),
            final(self).spec_front() == (old(self).spec_front() + old(self).spec_num_partitions() - 1) % (old(self).spec_num_partitions() as int),
    {
        let front = self.curr_front_buffer;
        let n = self.num_partitions;
        let mut order: Vec<usize> = Vec::new();
        let mut i: usize = 0;
        while i < n
            invariant
                n == self.num_partitions,
                front == self.curr_front_buffer,
                front < n,
                i <= n,
                order@.len() == i,
                2 * n <= usize::MAX,
                forall|j: int| 0 <= j < i ==> #[trigger] order@[j] == (front + j) % (n as int),
            decreases n - i,
        {
            order.push((front + i) % n);
            i = i + 1;
        }
        let next = (front + n - 1) % n;
        self.curr_front_buffer = next;
        proof {
            assert(next < n) by (nonlinear_arith)
                requires
                    next == (front + n - 1) % (n as int),
                    n > 0,
            ;
        }
        (front, order)
    }
}

/// After one step of the ring, kernel partition `i` (for `i >= 1`) is convolved with the
/// block that partition `i - 1` was convolved with one step before: each block moves on by
/// one partition per step.
pub proof fn lemma_ring_ages_blocks(front: int, n: int, i: int)
    requires
        0 <= front < n,
        1 <= i < n,
    ensures
        ((front + n - 1) % n + i) % n == (front + (i - 1)) % n,
{
    if front >= 1 {
        assert((front + n - 1) % n == front - 1) by (nonlinear_arith)
            requires
                1 <= front < n,
        ;
    } else {
        assert((front + n - 1) % n == n - 1) by (nonlinear_arith)
            requires
                front == 0,
                n > 0,
        ;
        assert((n - 1 + i) % n == i - 1) by (nonlinear_arith)
            requires
                1 <= i < n,
        ;
        assert((front + (i - 1)) % n == i - 1) by (nonlinear_arith)
            requires
                front == 0,
                1 <= i < n,
        ;
    }
}

} // verus!
