//! Input channel descriptions of audio elements.

use vstd::prelude::*;

verus! {

/// Identification of one input channel: a name and its index among all input channels.
#[derive(Debug, Clone, PartialEq, Eq)]
pub struct InputChannelConfigBase {
    pub id: String,
    pub input_channel_index: usize,
}

impl InputChannelConfigBase {
    /// Creates a channel named `id` at input index 0.
    pub fn new(id: String) -> (b: Self)
        ensures
            b.id == id,
            b.input_channel_index == 0,
    {
        Self { id, input_channel_index: 0 }
    }
}

/// An input channel of an ambisonic scene.
#[derive(Debug, Clone, PartialEq, Eq)]
pub struct AmbisonicSceneInputChannel {
    pub base: InputChannelConfigBase,
}

impl AmbisonicSceneInputChannel {
    /// Creates an ambisonic channel named `id` at input index 0.
    pub fn new(id: String) -> (c: Self)
        ensures
            c.base.id == id,
            c.base.input_channel_index == 0,
    {
        Self { base: InputChannelConfigBase::new(id) }
    }
}

/// An input channel feeding a virtual loudspeaker at a fixed position, given in whole
/// degrees (azimuth counter-clockwise from the front, elevation upwards) and whole metres.
#[derive(Debug, Clone, PartialEq, Eq)]
pub struct LoudspeakerLayoutInputChannel {
    pub base: InputChannelConfigBase,
    /// Azimuth of the virtual loudspeaker in degrees.
    pub azimuth: i32,
    /// Elevation of the virtual loudspeaker in degrees.
    pub elevation: i32,
    /// Distance of the virtual loudspeaker from the listener in metres.
    pub distance: u32,
    /// Whether this channel is a low-frequency effects channel.
    pub is_lfe: bool,
}

impl LoudspeakerLayoutInputChannel {
    /// Creates a loudspeaker channel named `id` at input index 0.
    pub fn new(id: String, azimuth: i32, elevation: i32, distance: u32, is_lfe: bool) -> (c: Self)
        ensures
            c.base.id == id,
            c.base.input_channel_index == 0,
            c.azimuth == azimuth,
            c.elevation == elevation,
            c.distance == distance,
            c.is_lfe == is_lfe,
    {
        Self { base: InputChannelConfigBase::new(id), azimuth, elevation, distance, is_lfe }
    }
}

/// An input channel passed through to the output unprocessed.
#[derive(Debug, Clone, PartialEq, Eq)]
pub struct PassthroughInputChannel {
    pub base: InputChannelConfigBase,
}

impl PassthroughInputChannel {
    /// Creates a passthrough channel named `id` at input index 0.
    pub fn new(id: String) -> (c: Self)
        ensures
            c.base.id == id,
            c.base.input_channel_index == 0,
    {
        Self { base: InputChannelConfigBase::new(id) }
    }
}

/// An input channel carrying an audio object. Its position and gain change while
/// rendering and are kept by the signal processing beside this description.
#[derive(Debug, Clone, PartialEq, Eq)]
pub struct AudioObjectInputChannel {
    pub base: InputChannelConfigBase,
}

impl AudioObjectInputChannel {
    /// Creates an object channel named `id` at input index 0.
    pub fn new(id: String) -> (c: Self)
        ensures
            c.base.id == id,
            c.base.input_channel_index == 0,
    {
        Self { base: InputChannelConfigBase::new(id) }
    }
}

} // verus!
