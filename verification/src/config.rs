//! Renderer and audio element configuration.

use vstd::prelude::*;
use crate::definitions::{OarError, MAX_SAMPLES_PER_CHANNEL};
use crate::downmix::DownmixInfo;
use crate::hoa::HighOrderAmbisonics;
use crate::layout::{Layout, spec_layout_channels};
use crate::units::Samples;

verus! {

/// A positive sample rate in Hz.
#[derive(Debug, Clone, Copy, PartialEq, Eq, Structural)]
pub struct SampleRate(u32);

impl SampleRate {
    /// The rate in Hz.
    pub closed spec fn spec_value(self) -> u32 {
        self.0
    }

    /// Creates a sample rate if `val` is positive.
    pub fn new(val: u32) -> (r: Result<SampleRate, OarError>)
        ensures
            val > 0 ==> (r matches Ok(s) && s.spec_value() == val),
            val == 0 ==> r == Err::<SampleRate, OarError>(OarError::InvalidParameter),
    {
        if val > 0 {
            Ok(SampleRate(val))
        } else {
            Err(OarError::InvalidParameter)
        }
    }

    /// Returns the rate in Hz.
    pub fn value(&self) -> (v: u32)
        ensures
            v == self.spec_value(),
    {
        self.0
    }
}

/// Configuration of a renderer instance, equivalent of the C API `oar_config_t`.
#[derive(Debug, Clone, Copy, PartialEq, Eq, Structural)]
pub struct Config {
    target_layout: Layout,
    samples_per_channel: Samples,
    sample_rate: SampleRate,
}

impl Config {
    /// The output (target) layout.
    pub closed spec fn spec_output_layout(self) -> Layout {
        self.target_layout
    }

    /// The number of samples per channel per render call.
    pub closed spec fn spec_samples_per_channel(self) -> Samples {
        self.samples_per_channel
    }

    /// The sample rate.
    pub closed spec fn spec_sample_rate(self) -> SampleRate {
        self.sample_rate
    }

    /// Creates a configuration; fails when more than `MAX_SAMPLES_PER_CHANNEL` samples
    /// per channel are asked for.
    pub fn new(target_layout: Layout, samples_per_channel: Samples, sample_rate: SampleRate) -> (r: Result<Config, OarError>)
        ensures
            samples_per_channel.0 <= MAX_SAMPLES_PER_CHANNEL ==> (r matches Ok(c) && c.spec_output_layout()
                == target_layout && c.spec_samples_per_channel() == samples_per_channel
                && c.spec_sample_rate() == sample_rate),
            samples_per_channel.0 > MAX_SAMPLES_PER_CHANNEL ==> r == Err::<Config, OarError>(OarError::InvalidParameter),
    {
        if samples_per_channel.value() > MAX_SAMPLES_PER_CHANNEL {
            return Err(OarError::InvalidParameter);
        }
        Ok(Config { target_layout, samples_per_channel, sample_rate })
    }

    /// Returns the output (target) layout.
    pub fn output_layout(&self) -> (l: Layout)
        ensures
            l == self.spec_output_layout(),
    {
        self.target_layout
    }

    /// Returns the number of samples per channel per render call.
    pub fn samples_per_channel(&self) -> (s: Samples)
        ensures
            s == self.spec_samples_per_channel(),
    {
        self.samples_per_channel
    }

    /// Returns the sample rate.
    pub fn sample_rate(&self) -> (s: SampleRate)
        ensures
            s == self.spec_sample_rate(),
    {
        self.sample_rate
    }
}

/// Headphones rendering mode as specified by IAMF.
#[derive(Debug, Clone, Copy, PartialEq, Eq, Structural)]
pub enum HeadphonesRenderingMode {
    /// Stereo rendering for this element (no binaural rendering).
    WorldLockedRestricted,
    /// Binaural rendering with full head tracking (world-locked).
    WorldLocked,
    /// Binaural rendering locked to the listener's head.
    HeadLocked,
    /// Reserved mode.
    Reserved,
}

impl Default for HeadphonesRenderingMode {
    fn default() -> (m: Self)
        ensures
            m == HeadphonesRenderingMode::WorldLockedRestricted,
    {
        HeadphonesRenderingMode::WorldLockedRestricted
    }
}

/// Selected binaural filter profile.
#[derive(Debug, Clone, Copy, PartialEq, Eq, Structural)]
pub enum BinauralFilterProfile {
    /// Ambient binaural filter profile.
    Ambient,
    /// Direct binaural filter profile.
    Direct,
    /// Reverberant binaural filter profile.
    Reverberant,
}

impl Default for BinauralFilterProfile {
    fn default() -> (p: Self)
        ensures
            p == BinauralFilterProfile::Ambient,
    {
        BinauralFilterProfile::Ambient
    }
}

/// How an audio element is rendered on headphones.
#[derive(Debug, Clone, Copy, PartialEq, Eq, Structural)]
pub struct ElementRenderingConfig {
    /// The headphones rendering mode to use.
    pub headphones_rendering_mode: HeadphonesRenderingMode,
    /// The binaural filter profile to apply.
    pub binaural_filter_profile: BinauralFilterProfile,
}

impl Default for ElementRenderingConfig {
    fn default() -> (c: Self)
        ensures
            c.headphones_rendering_mode == HeadphonesRenderingMode::WorldLockedRestricted,
            c.binaural_filter_profile == BinauralFilterProfile::Ambient,
    {
        ElementRenderingConfig {
            headphones_rendering_mode: HeadphonesRenderingMode::WorldLockedRestricted,
            binaural_filter_profile: BinauralFilterProfile::Ambient,
        }
    }
}

/// Configuration of a channel-based audio element.
#[derive(Debug, Clone, Copy, PartialEq, Eq, Structural)]
pub struct ChannelBasedConfig {
    /// The loudspeaker layout.
    pub layout: Layout,
    /// Optional initial downmix parameters.
    pub downmix_info: Option<DownmixInfo>,
    /// Optional headphones rendering configuration.
    pub rendering_config: Option<ElementRenderingConfig>,
}

/// Configuration of a scene-based (HOA) audio element.
#[derive(Debug, Clone, Copy, PartialEq, Eq, Structural)]
pub struct SceneBasedConfig {
    /// The ambisonics order.
    pub order: HighOrderAmbisonics,
    /// Optional headphones rendering configuration.
    pub rendering_config: Option<ElementRenderingConfig>,
}

/// Configuration of an object-based audio element.
#[derive(Debug, Clone, Copy, PartialEq, Eq, Structural)]
pub struct ObjectBasedConfig {
    /// The number of objects.
    pub num_objects: u32,
    /// Optional headphones rendering configuration.
    pub rendering_config: Option<ElementRenderingConfig>,
}

/// Configuration of an audio element, equivalent of the C API `oar_audio_element_config_t`.
#[derive(Debug, Clone, Copy, PartialEq, Eq, Structural)]
pub enum AudioElementConfig {
    /// Channel-based layout configuration.
    ChannelBased(ChannelBasedConfig),
    /// Scene-based (ambisonics) configuration.
    SceneBased(SceneBasedConfig),
    /// Object-based configuration.
    ObjectBased(ObjectBasedConfig),
}

/// The channel count of an audio element configuration.
pub open spec fn spec_element_channels(c: AudioElementConfig) -> int {
    match c {
        AudioElementConfig::ChannelBased(cbc) => spec_layout_channels(cbc.layout),
        AudioElementConfig::SceneBased(sbc) => sbc.order.spec_channels(),
        AudioElementConfig::ObjectBased(obc) => obc.num_objects as int,
    }
}

/// The headphones rendering configuration of an audio element configuration.
pub open spec fn spec_element_rendering_config(c: AudioElementConfig) -> Option<ElementRenderingConfig> {
    match c {
        AudioElementConfig::ChannelBased(cbc) => cbc.rendering_config,
        AudioElementConfig::SceneBased(sbc) => sbc.rendering_config,
        AudioElementConfig::ObjectBased(obc) => obc.rendering_config,
    }
}

impl AudioElementConfig {
    /// Returns the number of channels of this element configuration.
    pub fn channels(&self) -> (n: usize)
        ensures
            n == spec_element_channels(*self),
    {
        match self {
            AudioElementConfig::ChannelBased(cbc) => cbc.layout.channels(),
            AudioElementConfig::SceneBased(sbc) => sbc.order.channels(),
            AudioElementConfig::ObjectBased(obc) => obc.num_objects as usize,
        }
    }

    /// Returns the headphones rendering configuration if present.
    pub fn rendering_config(&self) -> (r: Option<ElementRenderingConfig>)
        ensures
            r == spec_element_rendering_config(*self),
    {
        match self {
            AudioElementConfig::ChannelBased(cbc) => cbc.rendering_config,
            AudioElementConfig::SceneBased(sbc) => sbc.rendering_config,
            AudioElementConfig::ObjectBased(obc) => obc.rendering_config,
        }
    }
}

} // verus!
