//! Buffer size helpers for block-based filtering.

use vstd::prelude::*;

verus! {

/// Rounds `size` up to a positive multiple of `frames_per_buffer`: the result is the
/// smallest multiple of `frames_per_buffer` that is at least `size` and at least
/// `frames_per_buffer`.
pub fn ceil_to_multiple_of_frames_per_buffer(size: usize, frames_per_buffer: usize) -> (r: usize)
    requires
        frames_per_buffer > 0,
        size + frames_per_buffer <= usize::MAX,
    ensures
        r % frames_per_buffer == 0,
        r >= size,
        r >= frames_per_buffer,
        r == frames_per_buffer || r - frames_per_buffer < size,
        r == (if size % frames_per_buffer == 0 {
            if size > frames_per_buffer { size } else { frames_per_buffer }
        } else {
            (size + frames_per_buffer - size % frames_per_buffer) as usize
        }),
{
    let remainder = size % frames_per_buffer;
    assert(frames_per_buffer % frames_per_buffer == 0 && remainder <= size) by (nonlinear_arith)
        requires
            frames_per_buffer > 0,
            remainder == size % frames_per_buffer,
    ;
    if remainder == 0 {
        if size > frames_per_buffer {
            size
        } else {
            frames_per_buffer
        }
    } else {
        let r = size + frames_per_buffer - remainder;
        assert(r % frames_per_buffer == 0) by (nonlinear_arith)
            requires
                frames_per_buffer > 0,
                remainder == size % frames_per_buffer,
                r == size + frames_per_buffer - remainder,
        ;
        r
    }
}

} // verus!
