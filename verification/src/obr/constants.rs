//! Limits and channel counts of the binaural renderer.

use vstd::prelude::*;

verus! {

/// Lowest ambisonic order the binaural renderer supports.
pub const MIN_SUPPORTED_AMBISONIC_ORDER: i32 = 1;

/// Highest ambisonic order the binaural renderer supports (the highest order with filter sets).
pub const MAX_SUPPORTED_AMBISONIC_ORDER: i32 = 4;

/// Largest number of input channels the binaural renderer accepts.
pub const MAX_SUPPORTED_NUM_INPUT_CHANNELS: usize = 128;

/// Largest size of the internal buffers.
pub const MAX_SUPPORTED_NUM_FRAMES: usize = 16384;

/// Number of binaural output channels.
pub const NUM_BINAURAL_CHANNELS: usize = 2;

/// Number of channels of a mono signal.
pub const NUM_MONO_CHANNELS: usize = 1;

/// Number of channels of a stereo signal.
pub const NUM_STEREO_CHANNELS: usize = 2;

} // verus!
