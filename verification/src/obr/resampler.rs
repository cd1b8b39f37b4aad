//! The clock of the rational resampler: reduced rates, filter sizes, and which input sample
//! and filter phase each output sample uses.

use vstd::prelude::*;
use super::constants::MAX_SUPPORTED_NUM_FRAMES;
use super::misc_math::{abs_int, find_gcd, gcd, lemma_gcd_positive_bounded};

verus! {

/// Ratio of the interpolating filter's length to the larger reduced rate.
pub const TRANSITION_BANDWIDTH_RATIO: usize = 13;

/// The length of the interpolating filter for a larger reduced rate: thirteen times the rate,
/// rounded up to an even number.
pub open spec fn spec_filter_length(max_rate: int) -> int {
    let f = max_rate * 13;
    f + f % 2
}

/// The larger of two integers.
pub open spec fn spec_max(a: int, b: int) -> int {
    if a >= b {
        a
    } else {
        b
    }
}

/// Converting from `source` to `destination` Hz needs a filter that fits the buffers.
pub open spec fn spec_rates_supported(source: int, destination: int) -> bool {
    spec_filter_length(spec_max(source, destination) / gcd(abs_int(source), abs_int(destination)) as int)
        <= MAX_SUPPORTED_NUM_FRAMES
}

/// The number of coefficients of each polyphase branch for a larger reduced rate.
pub open spec fn spec_coeffs_per_phase(max_rate: int) -> int {
    let f = spec_filter_length(max_rate);
    (f + max_rate - f % max_rate) / max_rate
}

/// The old and new numbers of state samples per channel.
#[derive(Debug, Clone, Copy, PartialEq, Eq, Structural)]
pub struct StateResize {
    /// The number of state samples before the change.
    pub old_size: usize,
    /// The number of state samples after the change.
    pub new_size: usize,
}

/// What the caller has to redo after a rate change: design the interpolating filter (of the
/// given length), and clear the state samples between the old and the new state size.
#[derive(Debug, Clone, Copy, PartialEq, Eq, Structural)]
pub struct ResamplerUpdate {
    /// The length of the interpolating filter to design, when the rates changed and differ.
    pub filter_length: Option<usize>,
    /// The old and new state sizes, when the channel count changed.
    pub state_sizes: Option<StateResize>,
}

/// The resampler's clock: the reduced rates, the phase within the up-sampled grid, and how far
/// past the end of the last block the next output sample lies.
#[derive(Debug, Clone, PartialEq, Eq)]
pub struct Resampler {
    up_rate: usize,
    down_rate: usize,
    time_modulo_up_rate: usize,
    last_processed_sample: usize,
    num_channels: usize,
    coeffs_per_phase: usize,
}

/// Position of an output sample on the up-sampled grid.
pub open spec fn spec_grid(up: int, sample: int, phase: int) -> int {
    up * sample + phase
}

/// With an output count `n` whose positions `a + k * down` are exactly those below `total`,
/// `n` is `total / down + 1`, less one when `a` is at least `total % down`.
proof fn lemma_output_count(a: int, down: int, total: int, n: int)
    requires
        down > 0,
        0 <= a < down,
        total >= 0,
        n >= 0,
        n > 0 ==> a + (n - 1) * down < total,
        total <= a + n * down,
    ensures
        n == total / down + 1 - (if a >= total % down { 1int } else { 0int }),
{
    let q = total / down;
    let r = total % down;
    assert(total == q * down + r && 0 <= r < down) by (nonlinear_arith)
        requires
            down > 0,
            total >= 0,
            q == total / down,
            r == total % down,
    ;
    if a >= r {
        assert(n == q) by (nonlinear_arith)
            requires
                total == q * down + r,
                0 <= r <= a < down,
                n > 0 ==> a + (n - 1) * down < total,
                total <= a + n * down,
                n >= 0,
                q >= 0,
        ;
    } else {
        assert(n == q + 1) by (nonlinear_arith)
            requires
                total == q * down + r,
                0 <= a < r < down,
                n > 0 ==> a + (n - 1) * down < total,
                total <= a + n * down,
                n >= 0,
                q >= 0,
        ;
    }
}

impl Resampler {
    pub closed spec fn spec_up(&self) -> usize {
        self.up_rate
    }

    pub closed spec fn spec_down(&self) -> usize {
        self.down_rate
    }

    pub closed spec fn spec_time(&self) -> usize {
        self.time_modulo_up_rate
    }

    pub closed spec fn spec_last(&self) -> usize {
        self.last_processed_sample
    }

    pub closed spec fn spec_num_channels(&self) -> usize {
        self.num_channels
    }

    pub closed spec fn spec_coeffs(&self) -> usize {
        self.coeffs_per_phase
    }

    /// The rates fit in `i32`, and when they differ the next output sample lies less than one
    /// input step past the end of the last block.
    pub open spec fn wf(&self) -> bool {
        &&& self.spec_up() <= i32::MAX
        &&& self.spec_down() <= i32::MAX
        &&& self.spec_up() != self.spec_down() ==> {
            &&& self.spec_up() > 0
            &&& self.spec_down() > 0
            &&& self.spec_time() < self.spec_up()
            &&& spec_grid(self.spec_up() as int, self.spec_last() as int, self.spec_time() as int) < self.spec_down()
        }
    }

    /// The length of the block that `input_length` input samples give at most.
    pub open spec fn spec_max_output_length(&self, input_length: int) -> int {
        if self.spec_up() == self.spec_down() {
            input_length
        } else {
            input_length * self.spec_up() / self.spec_down() as int + 1
        }
    }

    /// The length of the block that the next `input_length` input samples give.
    pub open spec fn spec_next_output_length(&self, input_length: int) -> int {
        if self.spec_up() == self.spec_down() {
            input_length
        } else {
            self.spec_max_output_length(input_length) - if spec_grid(
                self.spec_up() as int,
                self.spec_last() as int,
                self.spec_time() as int,
            ) >= (input_length * self.spec_up()) % (self.spec_down() as int) {
                1int
            } else {
                0int
            }
        }
    }

    /// Creates a resampler with no rates set.
    pub fn new() -> (r: Self)
        ensures
            r.wf(),
            r.spec_up() == 0 && r.spec_down() == 0,
            r.spec_time() == 0 && r.spec_last() == 0,
            r.spec_num_channels() == 0 && r.spec_coeffs() == 0,
    {
        Resampler {
            up_rate: 0,
            down_rate: 0,
            time_modulo_up_rate: 0,
            last_processed_sample: 0,
            num_channels: 0,
            coeffs_per_phase: 0,
        }
    }

    /// Returns the number of input channels.
    pub fn num_channels(&self) -> (n: usize)
        ensures
            n == self.spec_num_channels(),
    {
        self.num_channels
    }

    /// Returns the number of coefficients of each polyphase branch.
    pub fn coeffs_per_phase(&self) -> (n: usize)
        ensures
            n == self.spec_coeffs(),
    {
        self.coeffs_per_phase
    }

    /// Returns the reduced up-sampling and down-sampling rates.
    pub fn rates(&self) -> (r: (usize, usize))
        ensures
            r == (self.spec_up(), self.spec_down()),
    {
        (self.up_rate, self.down_rate)
    }

    /// Returns the longest block `input_length` input samples can give.
    pub fn get_max_output_length(&self, input_length: usize) -> (n: usize)
        requires
            self.wf(),
            input_length * self.spec_up() < usize::MAX,
        ensures
            n == self.spec_max_output_length(input_length as int),
    {
        if self.up_rate == self.down_rate {
            return input_length;
        }
        assert((input_length as int * self.up_rate as int) / (self.down_rate as int) <= input_length as int * self.up_rate as int) by (nonlinear_arith)
            requires
                self.down_rate > 0,
                input_length * self.up_rate >= 0,
        ;
        (input_length * self.up_rate) / self.down_rate + 1
    }

    /// Returns the exact length of the block the next `input_length` input samples give.
    pub fn get_next_output_length(&self, input_length: usize) -> (n: usize)
        requires
            self.wf(),
            input_length * self.spec_up() < usize::MAX,
        ensures
            n == self.spec_next_output_length(input_length as int),
    {
        if self.up_rate == self.down_rate {
            return input_length;
        }
        let max_len = self.get_max_output_length(input_length);
        if (self.time_modulo_up_rate + self.up_rate * self.last_processed_sample) >= ((input_length * self.up_rate) % self.down_rate) {
            if max_len > 0 {
                max_len - 1
            } else {
                0
            }
        } else {
            max_len
        }
    }

    /// Whether converting from `source` to `destination` Hz needs a filter that fits the
    /// buffers.
    pub fn are_sample_rates_supported(source: i32, destination: i32) -> (b: bool)
        requires
            source > 0,
            destination > 0,
        ensures
            b == spec_rates_supported(source as int, destination as int),
    {
        let g = find_gcd(source, destination);
        proof {
            lemma_gcd_positive_bounded(source as nat, destination as nat);
        }
        let larger = if source >= destination { source } else { destination };
        let max_rate = larger / g;
        let mut filter_length: u64 = (max_rate as u64) * 13;
        filter_length = filter_length + filter_length % 2;
        filter_length <= MAX_SUPPORTED_NUM_FRAMES as u64
    }

    /// Sets the rates and the channel count. Returns what the caller has to redo: the
    /// interpolating filter when the reduced rates changed and differ, and the state samples
    /// when the channel count changed.
    pub fn set_rate_and_num_channels(&mut self, source_frequency: i32, destination_frequency: i32, num_channels: usize) -> (u: ResamplerUpdate)
        requires
            old(self).wf(),
            source_frequency > 0,
            destination_frequency > 0,
            num_channels > 0,
            source_frequency != destination_frequency ==> spec_rates_supported(source_frequency as int, destination_frequency as int),
        ensures
            ({
                let g = gcd(abs_int(destination_frequency as int), abs_int(source_frequency as int)) as int;
                let up = (destination_frequency as int) / g;
                let down = (source_frequency as int) / g;
                let changed = up != old(self).spec_up() || down != old(self).spec_down();
                &&& final(self).spec_up() == up
                &&& final(self).spec_down() == down
                &&& final(self).spec_num_channels() == num_channels
                &&& final(self).spec_last() == old(self).spec_last()
                &&& final(self).spec_time() == if changed { 0 } else { old(self).spec_time() }
                &&& final(self).spec_coeffs() == if changed && up != down {
                    spec_coeffs_per_phase(spec_max(up, down))
                } else {
                    old(self).spec_coeffs() as int
                }
                &&& u.filter_length == if changed && up != down {
                    Some(spec_filter_length(spec_max(up, down)) as usize)
                } else {
                    None::<usize>
                }
                &&& u.state_sizes == if num_channels != old(self).spec_num_channels() {
                    Some(StateResize {
                        old_size: if old(self).spec_coeffs() > 0 { (old(self).spec_coeffs() - 1) as usize } else { 0usize },
                        new_size: if final(self).spec_coeffs() > 0 { (final(self).spec_coeffs() - 1) as usize } else { 0usize },
                    })
                } else {
                    None::<StateResize>
                }
                &&& (!changed || final(self).spec_last() == 0) ==> final(self).wf()
                &&& final(self).wf() <==> (up == down
                    || spec_grid(up, final(self).spec_last() as int, final(self).spec_time() as int) < down)
            }),
    {
        let g = find_gcd(destination_frequency, source_frequency);
        proof {
            lemma_gcd_positive_bounded(destination_frequency as nat, source_frequency as nat);
        }
        let dest = (destination_frequency / g) as usize;
        let src = (source_frequency / g) as usize;
        proof {
            assert(dest >= 1 && src >= 1) by (nonlinear_arith)
                requires
                    dest == destination_frequency / g,
                    src == source_frequency / g,
                    0 < g <= destination_frequency,
                    g <= source_frequency,
            ;
            assert(dest <= destination_frequency && src <= source_frequency) by (nonlinear_arith)
                requires
                    dest == destination_frequency / g,
                    src == source_frequency / g,
                    0 < g,
                    destination_frequency > 0,
                    source_frequency > 0,
            ;
        }
        let old_state_size = if self.coeffs_per_phase > 0 { self.coeffs_per_phase - 1 } else { 0 };
        let mut filter_length: Option<usize> = None;
        if dest != self.up_rate || src != self.down_rate {
            self.up_rate = dest;
            self.down_rate = src;
            if self.up_rate != self.down_rate {
                let max_rate = if dest >= src { dest } else { src };
                proof {
                    if source_frequency == destination_frequency {
                        assert(dest == src) by (nonlinear_arith)
                            requires
                                dest == destination_frequency / g,
                                src == source_frequency / g,
                                source_frequency == destination_frequency,
                        ;
                    }
                    let larger = spec_max(source_frequency as int, destination_frequency as int);
                    assert(max_rate <= larger / (g as int)) by (nonlinear_arith)
                        requires
                            dest == destination_frequency / g,
                            src == source_frequency / g,
                            max_rate == spec_max(dest as int, src as int),
                            larger == spec_max(source_frequency as int, destination_frequency as int),
                            g > 0,
                    ;
                    assert(gcd(abs_int(source_frequency as int), abs_int(destination_frequency as int))
                        == gcd(abs_int(destination_frequency as int), abs_int(source_frequency as int))) by {
                        lemma_gcd_symmetric(source_frequency as nat, destination_frequency as nat);
                    }
                }
                let mut fl = max_rate * TRANSITION_BANDWIDTH_RATIO;
                fl = fl + fl % 2;
                let transposed_length = fl + max_rate - (fl % max_rate);
                self.coeffs_per_phase = transposed_length / max_rate;
                filter_length = Some(fl);
            }
            self.time_modulo_up_rate = 0;
        }
        let mut state_sizes: Option<StateResize> = None;
        if self.num_channels != num_channels {
            self.num_channels = num_channels;
            let new_state_size = if self.coeffs_per_phase > 0 { self.coeffs_per_phase - 1 } else { 0 };
            state_sizes = Some(StateResize { old_size: old_state_size, new_size: new_state_size });
        }
        ResamplerUpdate { filter_length, state_sizes }
    }

    /// Puts the clock back at the start of a stream.
    pub fn reset_state(&mut self)
        requires
            old(self).wf(),
        ensures
            final(self).wf(),
            final(self).spec_time() == 0,
            final(self).spec_last() == 0,
            final(self).spec_up() == old(self).spec_up(),
            final(self).spec_down() == old(self).spec_down(),
            final(self).spec_num_channels() == old(self).spec_num_channels(),
            final(self).spec_coeffs() == old(self).spec_coeffs(),
    {
        self.time_modulo_up_rate = 0;
        self.last_processed_sample = 0;
    }

    /// Runs the clock over a block of `input_length` input samples. Returns, for each output
    /// sample of the block, the input sample it ends at and its filter phase, and moves the
    /// clock past the block. The block has exactly the length `get_next_output_length` gave.
    pub fn advance_clock(&mut self, input_length: usize) -> (v: Vec<(usize, usize)>)
        requires
            old(self).wf(),
            input_length * old(self).spec_up() + old(self).spec_down() < usize::MAX,
        ensures
            final(self).wf(),
            final(self).spec_up() == old(self).spec_up(),
            final(self).spec_down() == old(self).spec_down(),
            final(self).spec_num_channels() == old(self).spec_num_channels(),
            final(self).spec_coeffs() == old(self).spec_coeffs(),
            v@.len() == old(self).spec_next_output_length(input_length as int),
            old(self).spec_up() == old(self).spec_down() ==> {
                &&& *final(self) == *old(self)
                &&& forall|k: int| 0 <= k < v@.len() ==> #[trigger] v@[k] == (k as usize, 0usize)
            },
            old(self).spec_up() != old(self).spec_down() ==> {
                let up = old(self).spec_up() as int;
                let down = old(self).spec_down() as int;
                let start = spec_grid(up, old(self).spec_last() as int, old(self).spec_time() as int);
                &&& forall|k: int| 0 <= k < v@.len() ==> {
                    &&& (#[trigger] v@[k]).0 < input_length
                    &&& v@[k].1 < up
                    &&& spec_grid(up, v@[k].0 as int, v@[k].1 as int) == start + k * down
                }
                &&& spec_grid(up, final(self).spec_last() as int, final(self).spec_time() as int) + input_length * up
                    == start + v@.len() * down
            },
    {
        let mut v: Vec<(usize, usize)> = Vec::new();
        if self.up_rate == self.down_rate {
            let mut k: usize = 0;
            while k < input_length
                invariant
                    k <= input_length,
                    v@.len() == k,
                    forall|j: int| 0 <= j < k ==> #[trigger] v@[j] == (j as usize, 0usize),
                decreases input_length - k,
            {
                v.push((k, 0));
                k = k + 1;
            }
            return v;
        }
        let up = self.up_rate;
        let down = self.down_rate;
        let ghost total = input_length * up;
        let ghost start = spec_grid(up as int, self.last_processed_sample as int, self.time_modulo_up_rate as int);
        let mut input_sample = self.last_processed_sample;
        let mut t = self.time_modulo_up_rate;
        proof {
            assert(input_sample >= input_length <==> spec_grid(up as int, input_sample as int, t as int) >= total) by (nonlinear_arith)
                requires
                    t < up,
                    total == input_length * up,
            ;
            assert(v@.len() * down == 0) by (nonlinear_arith)
                requires
                    v@.len() == 0,
            ;
        }
        while input_sample < input_length
            invariant
                up == self.up_rate,
                down == self.down_rate,
                0 < up <= i32::MAX,
                0 < down <= i32::MAX,
                up != down,
                total == input_length * up,
                total + down < usize::MAX,
                t < up,
                spec_grid(up as int, input_sample as int, t as int) == start + v@.len() * down,
                start < down,
                input_sample >= input_length <==> spec_grid(up as int, input_sample as int, t as int) >= total,
                v@.len() > 0 ==> start + (v@.len() - 1) * down < total,
                forall|k: int| 0 <= k < v@.len() ==> {
                    &&& (#[trigger] v@[k]).0 < input_length
                    &&& v@[k].1 < up
                    &&& spec_grid(up as int, v@[k].0 as int, v@[k].1 as int) == start + k * down
                },
            decreases total + down - spec_grid(up as int, input_sample as int, t as int),
        {
            let ghost pos = spec_grid(up as int, input_sample as int, t as int);
            v.push((input_sample, t));
            let x = t + down;
            let step = x / up;
            let next_t = x % up;
            proof {
                assert(up * step + next_t == x && next_t < up) by (nonlinear_arith)
                    requires
                        up > 0,
                        step == x / up,
                        next_t == x % up,
                ;
                assert(spec_grid(up as int, input_sample + step, next_t as int) == pos + down) by (nonlinear_arith)
                    requires
                        up * step + next_t == x,
                        x == t + down,
                        pos == up * input_sample + t,
                ;
                assert(input_sample + step <= usize::MAX) by (nonlinear_arith)
                    requires
                        up * (input_sample + step) + next_t == pos + down,
                        pos < total,
                        total + down < usize::MAX,
                        up > 0,
                        next_t >= 0,
                ;
                assert(input_sample + step >= input_length <==> spec_grid(up as int, input_sample + step, next_t as int) >= total) by (nonlinear_arith)
                    requires
                        next_t < up,
                        total == input_length * up,
                ;
            }
            input_sample = input_sample + step;
            t = next_t;
            proof {
                let n = v@.len() as int;
                assert(n * down == (n - 1) * down + down) by (nonlinear_arith);
            }
        }
        proof {
            let n = v@.len() as int;
            lemma_output_count(start, down as int, total as int, n);
            assert(spec_grid(up as int, (input_sample - input_length) as int, t as int) + total == start + n * down) by (nonlinear_arith)
                requires
                    spec_grid(up as int, input_sample as int, t as int) == start + n * down,
                    total == input_length * up,
            ;
            if n > 0 {
                assert(n * down == (n - 1) * down + down) by (nonlinear_arith);
            } else {
            }
        }
        self.last_processed_sample = input_sample - input_length;
        self.time_modulo_up_rate = t;
        v
    }
}

/// The greatest common divisor does not depend on the order of its arguments.
pub proof fn lemma_gcd_symmetric(a: nat, b: nat)
    ensures
        gcd(a, b) == gcd(b, a),
{
    super::misc_math::lemma_gcd_is_greatest_common_divisor(a, b);
    super::misc_math::lemma_gcd_is_greatest_common_divisor(b, a);
    super::misc_math::lemma_divides_antisymmetric(gcd(a, b), gcd(b, a));
}

} // verus!
