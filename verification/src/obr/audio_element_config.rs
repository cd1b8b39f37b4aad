//! Audio elements of the binaural renderer: their kind, input channels and filters.

use vstd::prelude::*;
use vstd::string::StringExecFns;
use super::ambisonic_utils::get_num_periphonic_components;
use super::audio_element_type::{
    AudioElementType, spec_ambisonic_order, spec_is_ambisonics, spec_is_loudspeaker_layout, spec_is_object,
    spec_is_passthrough,
};
use super::input_channel_config::{
    InputChannelConfigBase, AmbisonicSceneInputChannel, AudioObjectInputChannel, LoudspeakerLayoutInputChannel, PassthroughInputChannel,
};
use super::loudspeaker_layouts::{LoudspeakerLayouts, spec_is_speaker_channel, spec_layout_speakers};

verus! {

/// Binaural filter profiles of the binaural renderer, ordered Direct < Ambient < Reverberant.
#[derive(Debug, Clone, Copy, PartialEq, Eq, Structural, Hash, PartialOrd, Ord)]
pub enum BinauralFilterProfile {
    Direct,
    Ambient,
    Reverberant,
}

/// The rank of each profile in the profile order.
pub open spec fn spec_profile_rank(p: BinauralFilterProfile) -> int {
    match p {
        BinauralFilterProfile::Direct => 0,
        BinauralFilterProfile::Ambient => 1,
        BinauralFilterProfile::Reverberant => 2,
    }
}

impl BinauralFilterProfile {
    /// Returns the rank of this profile in the profile order.
    pub fn rank(&self) -> (r: u8)
        ensures
            r == spec_profile_rank(*self),
    {
        match self {
            BinauralFilterProfile::Direct => 0,
            BinauralFilterProfile::Ambient => 1,
            BinauralFilterProfile::Reverberant => 2,
        }
    }
}

impl Default for BinauralFilterProfile {
    fn default() -> (p: Self)
        ensures
            p == BinauralFilterProfile::Ambient,
    {
        BinauralFilterProfile::Ambient
    }
}

/// The decimal text of a single digit.
pub open spec fn spec_digit(d: nat) -> Seq<char> {
    if d == 0 {
        "0"@
    } else if d == 1 {
        "1"@
    } else if d == 2 {
        "2"@
    } else if d == 3 {
        "3"@
    } else if d == 4 {
        "4"@
    } else if d == 5 {
        "5"@
    } else if d == 6 {
        "6"@
    } else if d == 7 {
        "7"@
    } else if d == 8 {
        "8"@
    } else {
        "9"@
    }
}

/// The decimal text of a natural number.
pub open spec fn spec_decimal(n: nat) -> Seq<char>
    decreases n,
{
    if n < 10 {
        spec_digit(n)
    } else {
        spec_decimal(n / 10) + spec_digit(n % 10)
    }
}

pub(crate) fn digit_str(d: usize) -> (s: &'static str)
    requires
        d < 10,
    ensures
        s@ == spec_digit(d as nat),
{
    if d == 0 {
        "0"
    } else if d == 1 {
        "1"
    } else if d == 2 {
        "2"
    } else if d == 3 {
        "3"
    } else if d == 4 {
        "4"
    } else if d == 5 {
        "5"
    } else if d == 6 {
        "6"
    } else if d == 7 {
        "7"
    } else if d == 8 {
        "8"
    } else {
        "9"
    }
}

/// Returns `prefix` followed by the decimal text of `n`.
pub fn numbered_name(prefix: &str, n: usize) -> (s: String)
    ensures
        s@ == prefix@ + spec_decimal(n as nat),
    decreases n,
{
    if n < 10 {
        let mut s = String::from_str(prefix);
        s.append(digit_str(n));
        s
    } else {
        let mut s = numbered_name(prefix, n / 10);
        s.append(digit_str(n % 10));
        s
    }
}

/// Number of input channels of an element kind.
pub open spec fn spec_kind_channel_count(t: AudioElementType) -> int {
    if spec_is_ambisonics(t) {
        (spec_ambisonic_order(t)->0 + 1) * (spec_ambisonic_order(t)->0 + 1)
    } else if spec_is_loudspeaker_layout(t) {
        spec_layout_speakers(t).len() as int
    } else if t == AudioElementType::ObjectMono || t == AudioElementType::PassthroughMono {
        1
    } else if t == AudioElementType::ObjectDual || t == AudioElementType::PassthroughStereo {
        2
    } else {
        0
    }
}

/// Ambisonic order of the binaural filters used for an element kind.
pub open spec fn spec_kind_filter_order(t: AudioElementType) -> int {
    if spec_is_ambisonics(t) {
        spec_ambisonic_order(t)->0
    } else if spec_is_passthrough(t) {
        0
    } else {
        3
    }
}

/// An audio element of the binaural renderer.
#[derive(Debug, Clone, PartialEq, Eq)]
pub struct AudioElementConfig {
    element_type: AudioElementType,
    first_channel_index: usize,
    number_of_input_channels: usize,
    ambisonic_channels: Vec<AmbisonicSceneInputChannel>,
    loudspeaker_channels: Vec<LoudspeakerLayoutInputChannel>,
    object_channels: Vec<AudioObjectInputChannel>,
    passthrough_channels: Vec<PassthroughInputChannel>,
    binaural_filters_ambisonic_order: i32,
    binaural_filter_profile: BinauralFilterProfile,
    head_locked: bool,
}

impl AudioElementConfig {
    pub closed spec fn spec_element_type(&self) -> AudioElementType {
        self.element_type
    }

    pub closed spec fn spec_first_channel_index(&self) -> usize {
        self.first_channel_index
    }

    pub closed spec fn spec_number_of_input_channels(&self) -> usize {
        self.number_of_input_channels
    }

    pub closed spec fn spec_ambisonic_channels(&self) -> Seq<AmbisonicSceneInputChannel> {
        self.ambisonic_channels@
    }

    pub closed spec fn spec_loudspeaker_channels(&self) -> Seq<LoudspeakerLayoutInputChannel> {
        self.loudspeaker_channels@
    }

    pub closed spec fn spec_object_channels(&self) -> Seq<AudioObjectInputChannel> {
        self.object_channels@
    }

    pub closed spec fn spec_passthrough_channels(&self) -> Seq<PassthroughInputChannel> {
        self.passthrough_channels@
    }

    pub closed spec fn spec_filter_order(&self) -> int {
        self.binaural_filters_ambisonic_order as int
    }

    pub closed spec fn spec_filter_profile(&self) -> BinauralFilterProfile {
        self.binaural_filter_profile
    }

    pub closed spec fn spec_head_locked(&self) -> bool {
        self.head_locked
    }

    /// The input channels are numbered consecutively from the first channel index.
    pub open spec fn channels_numbered_from(&self, first: int) -> bool {
        &&& forall|i: int| 0 <= i < self.spec_ambisonic_channels().len()
            ==> (#[trigger] self.spec_ambisonic_channels()[i]).base.input_channel_index == first + i
        &&& forall|i: int| 0 <= i < self.spec_loudspeaker_channels().len()
            ==> (#[trigger] self.spec_loudspeaker_channels()[i]).base.input_channel_index == first + i
        &&& forall|i: int| 0 <= i < self.spec_object_channels().len()
            ==> (#[trigger] self.spec_object_channels()[i]).base.input_channel_index == first + i
        &&& forall|i: int| 0 <= i < self.spec_passthrough_channels().len()
            ==> (#[trigger] self.spec_passthrough_channels()[i]).base.input_channel_index == first + i
    }

    /// The element's channels are numbered from its first channel index and are those of
    /// its kind.
    pub open spec fn wf(&self) -> bool {
        &&& self.shape_ok()
        &&& self.spec_first_channel_index() + self.spec_number_of_input_channels() <= usize::MAX
        &&& self.channels_numbered_from(self.spec_first_channel_index() as int)
    }

    /// The element's channels are those of its kind: named, positioned and counted as
    /// its kind prescribes.
    pub open spec fn shape_ok(&self) -> bool {
        let t = self.spec_element_type();
        &&& self.spec_number_of_input_channels() == spec_kind_channel_count(t)
        &&& self.spec_filter_order() == spec_kind_filter_order(t)
        &&& self.spec_ambisonic_channels().len() == (if spec_is_ambisonics(t) { spec_kind_channel_count(t) } else { 0 })
        &&& forall|i: int| 0 <= i < self.spec_ambisonic_channels().len()
            ==> (#[trigger] self.spec_ambisonic_channels()[i]).base.id@ == "acn_"@ + spec_decimal(i as nat)
        &&& self.spec_loudspeaker_channels().len() == (if spec_is_loudspeaker_layout(t) { spec_kind_channel_count(t) } else { 0 })
        &&& forall|i: int| 0 <= i < self.spec_loudspeaker_channels().len()
            ==> spec_is_speaker_channel(
                #[trigger] self.spec_loudspeaker_channels()[i].with_index(0),
                spec_layout_speakers(t)[i],
            )
        &&& self.spec_object_channels().len() == (if spec_is_object(t) { spec_kind_channel_count(t) } else { 0 })
        &&& forall|i: int| 0 <= i < self.spec_object_channels().len()
            ==> (#[trigger] self.spec_object_channels()[i]).base.id@ == "obj_"@ + spec_decimal(i as nat)
        &&& self.spec_passthrough_channels().len() == (if spec_is_passthrough(t) { spec_kind_channel_count(t) } else { 0 })
        &&& forall|i: int| 0 <= i < self.spec_passthrough_channels().len()
            ==> (#[trigger] self.spec_passthrough_channels()[i]).base.id@ == "pt_"@ + spec_decimal(i as nat)
    }
}

impl LoudspeakerLayoutInputChannel {
    /// The same channel at another input index.
    pub open spec fn with_index(self, index: usize) -> LoudspeakerLayoutInputChannel {
        LoudspeakerLayoutInputChannel { base: InputChannelConfigBase { input_channel_index: index, ..self.base }, ..self }
    }

    /// Returns a copy of this channel at another input index.
    pub fn renumbered(&self, index: usize) -> (c: Self)
        ensures
            c == self.with_index(index),
    {
        LoudspeakerLayoutInputChannel {
            base: InputChannelConfigBase { id: self.base.id.clone(), input_channel_index: index },
            azimuth: self.azimuth,
            elevation: self.elevation,
            distance: self.distance,
            is_lfe: self.is_lfe,
        }
    }
}

impl AmbisonicSceneInputChannel {
    /// Returns a copy of this channel at another input index.
    pub fn renumbered(&self, index: usize) -> (c: Self)
        ensures
            c.base.id == self.base.id,
            c.base.input_channel_index == index,
    {
        AmbisonicSceneInputChannel { base: InputChannelConfigBase { id: self.base.id.clone(), input_channel_index: index } }
    }
}

impl AudioObjectInputChannel {
    /// Returns a copy of this channel at another input index.
    pub fn renumbered(&self, index: usize) -> (c: Self)
        ensures
            c.base.id == self.base.id,
            c.base.input_channel_index == index,
    {
        AudioObjectInputChannel { base: InputChannelConfigBase { id: self.base.id.clone(), input_channel_index: index } }
    }
}

impl PassthroughInputChannel {
    /// Returns a copy of this channel at another input index.
    pub fn renumbered(&self, index: usize) -> (c: Self)
        ensures
            c.base.id == self.base.id,
            c.base.input_channel_index == index,
    {
        PassthroughInputChannel { base: InputChannelConfigBase { id: self.base.id.clone(), input_channel_index: index } }
    }
}

/// The settings of `new` equal those of `old` but for the first channel index and the
/// numbering of the channels.
pub open spec fn same_but_numbering(new: AudioElementConfig, old: AudioElementConfig) -> bool {
    &&& new.spec_element_type() == old.spec_element_type()
    &&& new.spec_number_of_input_channels() == old.spec_number_of_input_channels()
    &&& new.spec_filter_order() == old.spec_filter_order()
    &&& new.spec_filter_profile() == old.spec_filter_profile()
    &&& new.spec_head_locked() == old.spec_head_locked()
    &&& new.spec_ambisonic_channels().len() == old.spec_ambisonic_channels().len()
    &&& forall|i: int| 0 <= i < new.spec_ambisonic_channels().len()
        ==> (#[trigger] new.spec_ambisonic_channels()[i]).base.id == old.spec_ambisonic_channels()[i].base.id
    &&& new.spec_loudspeaker_channels().len() == old.spec_loudspeaker_channels().len()
    &&& forall|i: int| 0 <= i < new.spec_loudspeaker_channels().len()
        ==> (#[trigger] new.spec_loudspeaker_channels()[i]).with_index(0) == old.spec_loudspeaker_channels()[i].with_index(0)
    &&& new.spec_object_channels().len() == old.spec_object_channels().len()
    &&& forall|i: int| 0 <= i < new.spec_object_channels().len()
        ==> (#[trigger] new.spec_object_channels()[i]).base.id == old.spec_object_channels()[i].base.id
    &&& new.spec_passthrough_channels().len() == old.spec_passthrough_channels().len()
    &&& forall|i: int| 0 <= i < new.spec_passthrough_channels().len()
        ==> (#[trigger] new.spec_passthrough_channels()[i]).base.id == old.spec_passthrough_channels()[i].base.id
}

/// Numbers the channels consecutively from `first`, keeping their names.
fn renumber_ambisonic(v: &mut Vec<AmbisonicSceneInputChannel>, first: usize)
    requires
        first + old(v)@.len() <= usize::MAX,
    ensures
        final(v)@.len() == old(v)@.len(),
        forall|j: int| 0 <= j < final(v)@.len() ==> (#[trigger] final(v)@[j]).base.id == old(v)@[j].base.id,
        forall|j: int| 0 <= j < final(v)@.len() ==> (#[trigger] final(v)@[j]).base.input_channel_index == first + j,
{
    let n = v.len();
    let mut i: usize = 0;
    while i < n
        invariant
            i <= n,
            n == v@.len(),
            n == old(v)@.len(),
            first + n <= usize::MAX,
            forall|j: int| 0 <= j < n ==> (#[trigger] v@[j]).base.id == old(v)@[j].base.id,
            forall|j: int| 0 <= j < i ==> (#[trigger] v@[j]).base.input_channel_index == first + j,
        decreases n - i,
    {
        let ch = v[i].renumbered(first + i);
        v.set(i, ch);
        i = i + 1;
    }
}

/// Numbers the channels consecutively from `first`, keeping their speakers.
fn renumber_loudspeakers(v: &mut Vec<LoudspeakerLayoutInputChannel>, first: usize)
    requires
        first + old(v)@.len() <= usize::MAX,
    ensures
        final(v)@.len() == old(v)@.len(),
        forall|j: int| 0 <= j < final(v)@.len() ==> (#[trigger] final(v)@[j]) == old(v)@[j].with_index((first + j) as usize),
{
    let n = v.len();
    let mut i: usize = 0;
    while i < n
        invariant
            i <= n,
            n == v@.len(),
            n == old(v)@.len(),
            first + n <= usize::MAX,
            forall|j: int| i <= j < n ==> (#[trigger] v@[j]) == old(v)@[j],
            forall|j: int| 0 <= j < i ==> (#[trigger] v@[j]) == old(v)@[j].with_index((first + j) as usize),
        decreases n - i,
    {
        let ch = v[i].renumbered(first + i);
        v.set(i, ch);
        i = i + 1;
    }
}

/// Numbers the channels consecutively from `first`, keeping their names.
fn renumber_objects(v: &mut Vec<AudioObjectInputChannel>, first: usize)
    requires
        first + old(v)@.len() <= usize::MAX,
    ensures
        final(v)@.len() == old(v)@.len(),
        forall|j: int| 0 <= j < final(v)@.len() ==> (#[trigger] final(v)@[j]).base.id == old(v)@[j].base.id,
        forall|j: int| 0 <= j < final(v)@.len() ==> (#[trigger] final(v)@[j]).base.input_channel_index == first + j,
{
    let n = v.len();
    let mut i: usize = 0;
    while i < n
        invariant
            i <= n,
            n == v@.len(),
            n == old(v)@.len(),
            first + n <= usize::MAX,
            forall|j: int| 0 <= j < n ==> (#[trigger] v@[j]).base.id == old(v)@[j].base.id,
            forall|j: int| 0 <= j < i ==> (#[trigger] v@[j]).base.input_channel_index == first + j,
        decreases n - i,
    {
        let ch = v[i].renumbered(first + i);
        v.set(i, ch);
        i = i + 1;
    }
}

/// Numbers the channels consecutively from `first`, keeping their names.
fn renumber_passthrough(v: &mut Vec<PassthroughInputChannel>, first: usize)
    requires
        first + old(v)@.len() <= usize::MAX,
    ensures
        final(v)@.len() == old(v)@.len(),
        forall|j: int| 0 <= j < final(v)@.len() ==> (#[trigger] final(v)@[j]).base.id == old(v)@[j].base.id,
        forall|j: int| 0 <= j < final(v)@.len() ==> (#[trigger] final(v)@[j]).base.input_channel_index == first + j,
{
    let n = v.len();
    let mut i: usize = 0;
    while i < n
        invariant
            i <= n,
            n == v@.len(),
            n == old(v)@.len(),
            first + n <= usize::MAX,
            forall|j: int| 0 <= j < n ==> (#[trigger] v@[j]).base.id == old(v)@[j].base.id,
            forall|j: int| 0 <= j < i ==> (#[trigger] v@[j]).base.input_channel_index == first + j,
        decreases n - i,
    {
        let ch = v[i].renumbered(first + i);
        v.set(i, ch);
        i = i + 1;
    }
}

impl AudioElementConfig {
    /// Creates an element of the given kind with its channels numbered from 0.
    pub fn new(element_type: AudioElementType, filter_profile: BinauralFilterProfile) -> (c: Self)
        ensures
            c.wf(),
            c.spec_element_type() == element_type,
            c.spec_first_channel_index() == 0,
            c.spec_filter_profile() == filter_profile,
            !c.spec_head_locked(),
    {
        let mut cfg = Self {
            element_type,
            first_channel_index: 0,
            number_of_input_channels: 0,
            ambisonic_channels: Vec::new(),
            loudspeaker_channels: Vec::new(),
            object_channels: Vec::new(),
            passthrough_channels: Vec::new(),
            binaural_filters_ambisonic_order: 3,
            binaural_filter_profile: filter_profile,
            head_locked: false,
        };
        cfg.init_channels();
        cfg
    }

    /// Creates the channels of the element's kind and numbers them from 0.
    fn init_channels(&mut self)
        requires
            old(self).number_of_input_channels == 0,
            old(self).binaural_filters_ambisonic_order == 3,
            old(self).ambisonic_channels@.len() == 0,
            old(self).loudspeaker_channels@.len() == 0,
            old(self).object_channels@.len() == 0,
            old(self).passthrough_channels@.len() == 0,
        ensures
            final(self).wf(),
            final(self).element_type == old(self).element_type,
            final(self).first_channel_index == 0,
            final(self).binaural_filter_profile == old(self).binaural_filter_profile,
            final(self).head_locked == old(self).head_locked,
    {
        let t = self.element_type;
        if t.is_ambisonics() {
            let order = match t.get_ambisonic_order() {
                Some(o) => o,
                None => 1,
            };
            let count = get_num_periphonic_components(order);
            let mut i: usize = 0;
            while i < count
                invariant
                    i <= count,
                    self.ambisonic_channels@.len() == i,
                    forall|j: int| 0 <= j < i ==> (#[trigger] self.ambisonic_channels@[j]).base.id@ == "acn_"@ + spec_decimal(j as nat),
                    self.element_type == t,
                    self.number_of_input_channels == old(self).number_of_input_channels,
                    self.binaural_filters_ambisonic_order == old(self).binaural_filters_ambisonic_order,
                    self.binaural_filter_profile == old(self).binaural_filter_profile,
                    self.head_locked == old(self).head_locked,
                    self.loudspeaker_channels@.len() == 0,
                    self.object_channels@.len() == 0,
                    self.passthrough_channels@.len() == 0,
                decreases count - i,
            {
                self.ambisonic_channels.push(AmbisonicSceneInputChannel::new(numbered_name("acn_", i)));
                i = i + 1;
            }
            self.number_of_input_channels = count;
            self.binaural_filters_ambisonic_order = order;
        } else if t.is_loudspeaker_layout() {
            let layouts = LoudspeakerLayouts::new();
            self.loudspeaker_channels = layouts.get_loudspeaker_layout(t);
            self.number_of_input_channels = self.loudspeaker_channels.len();
            self.binaural_filters_ambisonic_order = 3;
            proof {
                assert forall|i: int| 0 <= i < self.loudspeaker_channels@.len() implies spec_is_speaker_channel(
                    #[trigger] self.loudspeaker_channels@[i].with_index(0),
                    spec_layout_speakers(t)[i],
                ) by {}
            }
        } else if t.is_object() || t.is_passthrough() {
            let count: usize = if t == AudioElementType::ObjectMono || t == AudioElementType::PassthroughMono { 1 } else { 2 };
            let is_object = t.is_object();
            let mut i: usize = 0;
            while i < count
                invariant
                    i <= count,
                    count <= 2,
                    is_object == spec_is_object(t),
                    is_object ==> self.object_channels@.len() == i && self.passthrough_channels@.len() == 0,
                    !is_object ==> self.passthrough_channels@.len() == i && self.object_channels@.len() == 0,
                    forall|j: int| 0 <= j < self.object_channels@.len() ==> (#[trigger] self.object_channels@[j]).base.id@ == "obj_"@ + spec_decimal(j as nat),
                    forall|j: int| 0 <= j < self.passthrough_channels@.len() ==> (#[trigger] self.passthrough_channels@[j]).base.id@ == "pt_"@ + spec_decimal(j as nat),
                    self.element_type == t,
                    self.binaural_filters_ambisonic_order == old(self).binaural_filters_ambisonic_order,
                    self.binaural_filter_profile == old(self).binaural_filter_profile,
                    self.head_locked == old(self).head_locked,
                    self.ambisonic_channels@.len() == 0,
                    self.loudspeaker_channels@.len() == 0,
                decreases count - i,
            {
                if is_object {
                    self.object_channels.push(AudioObjectInputChannel::new(numbered_name("obj_", i)));
                } else {
                    self.passthrough_channels.push(PassthroughInputChannel::new(numbered_name("pt_", i)));
                }
                i = i + 1;
            }
            self.number_of_input_channels = count;
            self.binaural_filters_ambisonic_order = if is_object { 3 } else { 0 };
        }
        self.set_first_channel_index(0);
    }

    /// Returns the element's kind.
    pub fn element_type(&self) -> (t: AudioElementType)
        ensures
            t == self.spec_element_type(),
    {
        self.element_type
    }

    /// Numbers the element's input channels consecutively from `first_channel`.
    pub fn set_first_channel_index(&mut self, first_channel: usize)
        requires
            old(self).shape_ok(),
            first_channel + old(self).spec_number_of_input_channels() <= usize::MAX,
        ensures
            final(self).wf(),
            final(self).spec_first_channel_index() == first_channel,
            same_but_numbering(*final(self), *old(self)),
    {
        self.first_channel_index = first_channel;
        renumber_ambisonic(&mut self.ambisonic_channels, first_channel);
        renumber_loudspeakers(&mut self.loudspeaker_channels, first_channel);
        renumber_objects(&mut self.object_channels, first_channel);
        renumber_passthrough(&mut self.passthrough_channels, first_channel);
        proof {
            let t = self.element_type;
            assert forall|i: int| 0 <= i < self.loudspeaker_channels@.len() implies spec_is_speaker_channel(
                #[trigger] self.loudspeaker_channels@[i].with_index(0),
                spec_layout_speakers(t)[i],
            ) by {
                assert(self.loudspeaker_channels@[i].with_index(0) == old(self).loudspeaker_channels@[i].with_index(0));
            }
            assert forall|i: int| 0 <= i < self.loudspeaker_channels@.len() implies
                (#[trigger] self.loudspeaker_channels@[i]).with_index(0) == old(self).loudspeaker_channels@[i].with_index(0) by {}
        }
    }

    /// Returns the index of the element's first input channel.
    pub fn get_first_channel_index(&self) -> (i: usize)
        ensures
            i == self.spec_first_channel_index(),
    {
        self.first_channel_index
    }

    /// Returns the number of input channels of the element.
    pub fn get_number_of_input_channels(&self) -> (n: usize)
        ensures
            n == self.spec_number_of_input_channels(),
    {
        self.number_of_input_channels
    }

    /// Returns the element's virtual loudspeaker channels.
    pub fn get_loudspeaker_channels(&self) -> (s: &[LoudspeakerLayoutInputChannel])
        ensures
            s@ == self.spec_loudspeaker_channels(),
    {
        self.loudspeaker_channels.as_slice()
    }

    /// Returns the element's object channels.
    pub fn get_object_channels(&self) -> (s: &[AudioObjectInputChannel])
        ensures
            s@ == self.spec_object_channels(),
    {
        self.object_channels.as_slice()
    }

    /// Returns the ambisonic order of the binaural filters used for the element.
    pub fn get_binaural_filters_ambisonic_order(&self) -> (o: i32)
        ensures
            o == self.spec_filter_order(),
    {
        self.binaural_filters_ambisonic_order
    }

    /// Returns the binaural filter profile used for the element.
    pub fn get_binaural_filter_profile(&self) -> (p: BinauralFilterProfile)
        ensures
            p == self.spec_filter_profile(),
    {
        self.binaural_filter_profile
    }

    /// Whether the element is rendered locked to the listener's head.
    pub fn is_head_locked(&self) -> (b: bool)
        ensures
            b == self.spec_head_locked(),
    {
        self.head_locked
    }

    /// Sets whether the element is rendered locked to the listener's head.
    pub fn set_head_locked(&mut self, head_locked: bool)
        ensures
            final(self).spec_head_locked() == head_locked,
            final(self).spec_element_type() == old(self).spec_element_type(),
            final(self).spec_first_channel_index() == old(self).spec_first_channel_index(),
            final(self).spec_number_of_input_channels() == old(self).spec_number_of_input_channels(),
            final(self).spec_filter_order() == old(self).spec_filter_order(),
            final(self).spec_filter_profile() == old(self).spec_filter_profile(),
            final(self).spec_ambisonic_channels() == old(self).spec_ambisonic_channels(),
            final(self).spec_loudspeaker_channels() == old(self).spec_loudspeaker_channels(),
            final(self).spec_object_channels() == old(self).spec_object_channels(),
            final(self).spec_passthrough_channels() == old(self).spec_passthrough_channels(),
    {
        self.head_locked = head_locked;
    }
}

} // verus!
