//! Physical IAMF loudspeaker channels.

use vstd::prelude::*;

verus! {

/// Physical IAMF channels.
#[derive(Debug, Clone, Copy, PartialEq, Eq, Structural)]
pub enum IAChannel {
    /// Left channel (7.x loudspeaker configuration).
    L7,
    /// Right channel (7.x loudspeaker configuration).
    R7,
    /// Center channel.
    C,
    /// Low-frequency effects channel.
    Lfe,
    /// Surround left channel (7.x).
    Sl7,
    /// Surround right channel (7.x).
    Sr7,
    /// Back left channel (7.x).
    Bl7,
    /// Back right channel (7.x).
    Br7,
    /// Height front left channel.
    Hfl,
    /// Height front right channel.
    Hfr,
    /// Height back left channel.
    Hbl,
    /// Height back right channel.
    Hbr,
    /// Mono channel.
    Mono,
    /// Left channel (stereo).
    L2,
    /// Right channel (stereo).
    R2,
    /// Top left channel.
    Tl,
    /// Top right channel.
    Tr,
    /// Left channel (3.x).
    L3,
    /// Right channel (3.x).
    R3,
    /// Surround left channel (5.x).
    Sl5,
    /// Surround right channel (5.x).
    Sr5,
    /// Height left channel.
    Hl,
    /// Height right channel.
    Hr,
}

impl IAChannel {
    /// Left channel of the 5.x configuration (the same loudspeaker as the 7.x left channel).
    pub const L5: IAChannel = IAChannel::L7;
    /// Right channel of the 5.x configuration (the same loudspeaker as the 7.x right channel).
    pub const R5: IAChannel = IAChannel::R7;

    /// The channel's numeric code.
    pub open spec fn spec_value(self) -> int {
        match self {
            IAChannel::L7 => 1,
            IAChannel::R7 => 2,
            IAChannel::C => 3,
            IAChannel::Lfe => 4,
            IAChannel::Sl7 => 5,
            IAChannel::Sr7 => 6,
            IAChannel::Bl7 => 7,
            IAChannel::Br7 => 8,
            IAChannel::Hfl => 9,
            IAChannel::Hfr => 10,
            IAChannel::Hbl => 11,
            IAChannel::Hbr => 12,
            IAChannel::Mono => 13,
            IAChannel::L2 => 14,
            IAChannel::R2 => 15,
            IAChannel::Tl => 16,
            IAChannel::Tr => 17,
            IAChannel::L3 => 18,
            IAChannel::R3 => 19,
            IAChannel::Sl5 => 20,
            IAChannel::Sr5 => 21,
            IAChannel::Hl => 22,
            IAChannel::Hr => 23,
        }
    }

    /// Returns the channel's numeric code.
    pub fn value(&self) -> (v: u8)
        ensures
            v == self.spec_value(),
    {
        match self {
            IAChannel::L7 => 1,
            IAChannel::R7 => 2,
            IAChannel::C => 3,
            IAChannel::Lfe => 4,
            IAChannel::Sl7 => 5,
            IAChannel::Sr7 => 6,
            IAChannel::Bl7 => 7,
            IAChannel::Br7 => 8,
            IAChannel::Hfl => 9,
            IAChannel::Hfr => 10,
            IAChannel::Hbl => 11,
            IAChannel::Hbr => 12,
            IAChannel::Mono => 13,
            IAChannel::L2 => 14,
            IAChannel::R2 => 15,
            IAChannel::Tl => 16,
            IAChannel::Tr => 17,
            IAChannel::L3 => 18,
            IAChannel::R3 => 19,
            IAChannel::Sl5 => 20,
            IAChannel::Sr5 => 21,
            IAChannel::Hl => 22,
            IAChannel::Hr => 23,
        }
    }
}

} // verus!
