//! Loudspeaker layouts and target layouts.

use vstd::prelude::*;
use crate::definitions::OarError;
use crate::ia_channel::IAChannel;

verus! {

/// Loudspeaker layouts and target layouts, equivalent of the C API `oar_layout_t`.
#[derive(Debug, Clone, Copy, PartialEq, Eq, Structural, Hash)]
pub enum Layout {
    /// Mono layout (1.0).
    Mono,
    /// Stereo layout (2.0).
    Stereo,
    /// 5.1 surround layout.
    Layout51,
    /// 5.1.2 surround layout.
    Layout512,
    /// 5.1.4 surround layout.
    Layout514,
    /// 7.1 surround layout.
    Layout71,
    /// 7.1.2 surround layout.
    Layout712,
    /// 7.1.4 surround layout.
    Layout714,
    /// 3.1.2 surround layout.
    Layout312,
    /// 9.1.6 surround layout.
    Layout916,
    /// 22.2 surround layout (A293).
    LayoutA293,
    /// 7.1.5.4 surround layout.
    Layout7154,
    /// Target layout: sound system E (4.5.1).
    SoundSystemE451,
    /// Target layout: sound system F (3.7.0).
    SoundSystemF370,
    /// Target layout: sound system G (4.9.0).
    SoundSystemG490,
    /// Binaural headphones layout.
    Binaural,
    /// Low-frequency effects subset of 7.1.4.
    Lfe,
    /// Surround subset (Ls/Rs) of 5.1.4.
    StereoS,
    /// Side surround subset (Lss/Rss) of 7.1.4.
    StereoSs,
    /// Rear surround subset (Lrs/Rrs) of 7.1.4.
    StereoRs,
    /// Top front subset (Ltf/Rtf) of 7.1.4.
    StereoTf,
    /// Top back subset (Ltb/Rtb) of 7.1.4.
    StereoTb,
    /// Top four channels (Ltf/Rtf/Ltb/Rtb) of 7.1.4.
    Top4ch,
    /// Front three channels (L/C/R) of 7.1.4.
    ThreeCh,
    /// Front subset (FL/FR) of 9.1.6.
    StereoF,
    /// Side subset (SiL/SiR) of 9.1.6.
    StereoSi,
    /// Top side subset (TpSiL/TpSiR) of 9.1.6.
    StereoTpsi,
    /// Top six channels of 9.1.6.
    Top6ch,
    /// LFE pair (LFE1/LFE2) of 10.2.9.3.
    LfePair,
    /// Bottom three channels (BtFC/BtFL/BtFR) of 10.2.9.3.
    Bottom3ch,
    /// Bottom four channels (BtFL/BtFR/BtBL/BtBR) of 7.1.5.4.
    Bottom4ch,
    /// Top subset (TpC) of 7.1.5.4.
    Top1ch,
    /// Top five channels (Ltf/Rtf/TpC/Ltb/Rtb) of 7.1.5.4.
    Top5ch,
}

/// The C code of each layout.
pub open spec fn spec_layout_value(l: Layout) -> int {
    match l {
        Layout::Mono => 1,
        Layout::Stereo => 2,
        Layout::Layout51 => 3,
        Layout::Layout512 => 4,
        Layout::Layout514 => 5,
        Layout::Layout71 => 6,
        Layout::Layout712 => 7,
        Layout::Layout714 => 8,
        Layout::Layout312 => 9,
        Layout::Layout916 => 10,
        Layout::LayoutA293 => 11,
        Layout::Layout7154 => 12,
        Layout::SoundSystemE451 => 129,
        Layout::SoundSystemF370 => 130,
        Layout::SoundSystemG490 => 131,
        Layout::Binaural => 255,
        Layout::Lfe => 257,
        Layout::StereoS => 258,
        Layout::StereoSs => 259,
        Layout::StereoRs => 260,
        Layout::StereoTf => 261,
        Layout::StereoTb => 262,
        Layout::Top4ch => 263,
        Layout::ThreeCh => 264,
        Layout::StereoF => 265,
        Layout::StereoSi => 266,
        Layout::StereoTpsi => 267,
        Layout::Top6ch => 268,
        Layout::LfePair => 269,
        Layout::Bottom3ch => 270,
        Layout::Bottom4ch => 271,
        Layout::Top1ch => 272,
        Layout::Top5ch => 273,
    }
}

/// The channel count of each layout.
pub open spec fn spec_layout_channels(l: Layout) -> int {
    match l {
        Layout::Mono => 1,
        Layout::Stereo => 2,
        Layout::Layout51 => 6,
        Layout::Layout512 => 8,
        Layout::Layout514 => 10,
        Layout::Layout71 => 8,
        Layout::Layout712 => 10,
        Layout::Layout714 => 12,
        Layout::Layout312 => 6,
        Layout::Layout916 => 16,
        Layout::LayoutA293 => 24,
        Layout::Layout7154 => 17,
        Layout::SoundSystemE451 => 11,
        Layout::SoundSystemF370 => 12,
        Layout::SoundSystemG490 => 14,
        Layout::Binaural => 2,
        Layout::Lfe => 1,
        Layout::StereoS => 2,
        Layout::StereoSs => 2,
        Layout::StereoRs => 2,
        Layout::StereoTf => 2,
        Layout::StereoTb => 2,
        Layout::Top4ch => 4,
        Layout::ThreeCh => 3,
        Layout::StereoF => 2,
        Layout::StereoSi => 2,
        Layout::StereoTpsi => 2,
        Layout::Top6ch => 6,
        Layout::LfePair => 2,
        Layout::Bottom3ch => 3,
        Layout::Bottom4ch => 4,
        Layout::Top1ch => 1,
        Layout::Top5ch => 5,
    }
}

/// The (height, surround) channel counts of the layouts that take part in downmixing.
pub open spec fn spec_height_and_surround(l: Layout) -> Option<(int, int)> {
    match l {
        Layout::Mono => Some((0, 1)),
        Layout::Stereo => Some((0, 2)),
        Layout::Layout51 => Some((0, 5)),
        Layout::Layout512 => Some((2, 5)),
        Layout::Layout514 => Some((4, 5)),
        Layout::Layout71 => Some((0, 7)),
        Layout::Layout712 => Some((2, 7)),
        Layout::Layout714 => Some((4, 7)),
        Layout::Layout312 => Some((2, 3)),
        _ => None,
    }
}

/// Downmix from `src` to `dst` is valid when both take part in downmixing, `dst` has
/// no more surround and no more height channels than `src`, and height channels are
/// not mixed into a layout without height channels.
pub open spec fn spec_is_valid_downmix(src: Layout, dst: Layout) -> bool {
    match (spec_height_and_surround(src), spec_height_and_surround(dst)) {
        (Some((hi, si)), Some((ho, so))) => !(hi > 0 && ho == 0) && si >= so && hi >= ho,
        _ => false,
    }
}

/// The physical channels of the layouts that take part in downmixing, in channel order.
pub open spec fn spec_physical_channels(l: Layout) -> Option<Seq<IAChannel>> {
    match l {
        Layout::Mono => Some(seq![IAChannel::Mono]),
        Layout::Stereo => Some(seq![IAChannel::L2, IAChannel::R2]),
        Layout::Layout51 => Some(seq![IAChannel::L7, IAChannel::R7, IAChannel::C, IAChannel::Lfe, IAChannel::Sl5, IAChannel::Sr5]),
        Layout::Layout512 => Some(seq![IAChannel::L7, IAChannel::R7, IAChannel::C, IAChannel::Lfe, IAChannel::Sl5, IAChannel::Sr5, IAChannel::Hl, IAChannel::Hr]),
        Layout::Layout514 => Some(seq![IAChannel::L7, IAChannel::R7, IAChannel::C, IAChannel::Lfe, IAChannel::Sl5, IAChannel::Sr5, IAChannel::Hfl, IAChannel::Hfr, IAChannel::Hbl, IAChannel::Hbr]),
        Layout::Layout71 => Some(seq![IAChannel::L7, IAChannel::R7, IAChannel::C, IAChannel::Lfe, IAChannel::Sl7, IAChannel::Sr7, IAChannel::Bl7, IAChannel::Br7]),
        Layout::Layout712 => Some(seq![IAChannel::L7, IAChannel::R7, IAChannel::C, IAChannel::Lfe, IAChannel::Sl7, IAChannel::Sr7, IAChannel::Bl7, IAChannel::Br7, IAChannel::Hl, IAChannel::Hr]),
        Layout::Layout714 => Some(seq![IAChannel::L7, IAChannel::R7, IAChannel::C, IAChannel::Lfe, IAChannel::Sl7, IAChannel::Sr7, IAChannel::Bl7, IAChannel::Br7, IAChannel::Hfl, IAChannel::Hfr, IAChannel::Hbl, IAChannel::Hbr]),
        Layout::Layout312 => Some(seq![IAChannel::L3, IAChannel::R3, IAChannel::C, IAChannel::Lfe, IAChannel::Tl, IAChannel::Tr]),
        _ => None,
    }
}

impl Layout {
    /// Sound system A (0.2.0), mapping to stereo.
    pub const SOUND_SYSTEM_A_020: Layout = Layout::Stereo;
    /// Sound system B (0.5.0), mapping to 5.1.
    pub const SOUND_SYSTEM_B_050: Layout = Layout::Layout51;
    /// Sound system C (2.5.0), mapping to 5.1.2.
    pub const SOUND_SYSTEM_C_250: Layout = Layout::Layout512;
    /// Sound system D (4.5.0), mapping to 5.1.4.
    pub const SOUND_SYSTEM_D_450: Layout = Layout::Layout514;
    /// Sound system I (0.7.0), mapping to 7.1.
    pub const SOUND_SYSTEM_I_070: Layout = Layout::Layout71;
    /// Sound system J (4.7.0), mapping to 7.1.4.
    pub const SOUND_SYSTEM_J_470: Layout = Layout::Layout714;
    /// Sound system H (9.a.3), mapping to 22.2.
    pub const SOUND_SYSTEM_H_9A3: Layout = Layout::LayoutA293;

    /// Returns the C code of this layout.
    pub fn value(&self) -> (v: i32)
        ensures
            v == spec_layout_value(*self),
    {
        match self {
            Layout::Mono => 1,
            Layout::Stereo => 2,
            Layout::Layout51 => 3,
            Layout::Layout512 => 4,
            Layout::Layout514 => 5,
            Layout::Layout71 => 6,
            Layout::Layout712 => 7,
            Layout::Layout714 => 8,
            Layout::Layout312 => 9,
            Layout::Layout916 => 10,
            Layout::LayoutA293 => 11,
            Layout::Layout7154 => 12,
            Layout::SoundSystemE451 => 129,
            Layout::SoundSystemF370 => 130,
            Layout::SoundSystemG490 => 131,
            Layout::Binaural => 255,
            Layout::Lfe => 257,
            Layout::StereoS => 258,
            Layout::StereoSs => 259,
            Layout::StereoRs => 260,
            Layout::StereoTf => 261,
            Layout::StereoTb => 262,
            Layout::Top4ch => 263,
            Layout::ThreeCh => 264,
            Layout::StereoF => 265,
            Layout::StereoSi => 266,
            Layout::StereoTpsi => 267,
            Layout::Top6ch => 268,
            Layout::LfePair => 269,
            Layout::Bottom3ch => 270,
            Layout::Bottom4ch => 271,
            Layout::Top1ch => 272,
            Layout::Top5ch => 273,
        }
    }

    /// Converts a C layout code into a layout.
    pub fn try_from(layout: i32) -> (r: Result<Layout, OarError>)
        ensures
            r matches Ok(l) ==> spec_layout_value(l) == layout,
            r is Err ==> r == Err::<Layout, OarError>(OarError::InvalidParameter)
                && forall|l: Layout| spec_layout_value(l) != layout,
    {
        match layout {
            1 => Ok(Layout::Mono),
            2 => Ok(Layout::Stereo),
            3 => Ok(Layout::Layout51),
            4 => Ok(Layout::Layout512),
            5 => Ok(Layout::Layout514),
            6 => Ok(Layout::Layout71),
            7 => Ok(Layout::Layout712),
            8 => Ok(Layout::Layout714),
            9 => Ok(Layout::Layout312),
            10 => Ok(Layout::Layout916),
            11 => Ok(Layout::LayoutA293),
            12 => Ok(Layout::Layout7154),
            129 => Ok(Layout::SoundSystemE451),
            130 => Ok(Layout::SoundSystemF370),
            131 => Ok(Layout::SoundSystemG490),
            255 => Ok(Layout::Binaural),
            257 => Ok(Layout::Lfe),
            258 => Ok(Layout::StereoS),
            259 => Ok(Layout::StereoSs),
            260 => Ok(Layout::StereoRs),
            261 => Ok(Layout::StereoTf),
            262 => Ok(Layout::StereoTb),
            263 => Ok(Layout::Top4ch),
            264 => Ok(Layout::ThreeCh),
            265 => Ok(Layout::StereoF),
            266 => Ok(Layout::StereoSi),
            267 => Ok(Layout::StereoTpsi),
            268 => Ok(Layout::Top6ch),
            269 => Ok(Layout::LfePair),
            270 => Ok(Layout::Bottom3ch),
            271 => Ok(Layout::Bottom4ch),
            272 => Ok(Layout::Top1ch),
            273 => Ok(Layout::Top5ch),
            _ => Err(OarError::InvalidParameter),
        }
    }

    /// Returns the number of channels of this layout.
    pub fn channels(&self) -> (n: usize)
        ensures
            n == spec_layout_channels(*self),
    {
        match self {
            Layout::Mono => 1,
            Layout::Stereo => 2,
            Layout::Layout51 => 6,
            Layout::Layout512 => 8,
            Layout::Layout514 => 10,
            Layout::Layout71 => 8,
            Layout::Layout712 => 10,
            Layout::Layout714 => 12,
            Layout::Layout312 => 6,
            Layout::Layout916 => 16,
            Layout::LayoutA293 => 24,
            Layout::Layout7154 => 17,
            Layout::SoundSystemE451 => 11,
            Layout::SoundSystemF370 => 12,
            Layout::SoundSystemG490 => 14,
            Layout::Binaural => 2,
            Layout::Lfe => 1,
            Layout::StereoS => 2,
            Layout::StereoSs => 2,
            Layout::StereoRs => 2,
            Layout::StereoTf => 2,
            Layout::StereoTb => 2,
            Layout::Top4ch => 4,
            Layout::ThreeCh => 3,
            Layout::StereoF => 2,
            Layout::StereoSi => 2,
            Layout::StereoTpsi => 2,
            Layout::Top6ch => 6,
            Layout::LfePair => 2,
            Layout::Bottom3ch => 3,
            Layout::Bottom4ch => 4,
            Layout::Top1ch => 1,
            Layout::Top5ch => 5,
        }
    }

    /// Returns the height and surround channel counts of the layouts that take part in
    /// downmixing.
    pub fn height_and_surround(&self) -> (r: Option<(usize, usize)>)
        ensures
            r matches Some((h, s)) ==> spec_height_and_surround(*self) == Some((h as int, s as int)),
            r is None ==> spec_height_and_surround(*self) is None,
    {
        match self {
            Layout::Mono => Some((0, 1)),
            Layout::Stereo => Some((0, 2)),
            Layout::Layout51 => Some((0, 5)),
            Layout::Layout512 => Some((2, 5)),
            Layout::Layout514 => Some((4, 5)),
            Layout::Layout71 => Some((0, 7)),
            Layout::Layout712 => Some((2, 7)),
            Layout::Layout714 => Some((4, 7)),
            Layout::Layout312 => Some((2, 3)),
            _ => None,
        }
    }

    /// Checks whether downmix from this layout to `target` is valid.
    pub fn is_valid_downmix_to(&self, target: Layout) -> (b: bool)
        ensures
            b == spec_is_valid_downmix(*self, target),
    {
        match (self.height_and_surround(), target.height_and_surround()) {
            (Some((hi, si)), Some((ho, so))) => {
                if hi > 0 && ho == 0 {
                    return false;
                }
                si >= so && hi >= ho
            },
            _ => false,
        }
    }

    /// Returns the physical channels of the layouts that take part in downmixing.
    pub fn physical_channels(&self) -> (r: Option<Vec<IAChannel>>)
        ensures
            r matches Some(v) ==> spec_physical_channels(*self) == Some(v@),
            r is None ==> spec_physical_channels(*self) is None,
    {
        match self {
            Layout::Mono => Some(vec![IAChannel::Mono]),
            Layout::Stereo => Some(vec![IAChannel::L2, IAChannel::R2]),
            Layout::Layout51 => Some(vec![IAChannel::L7, IAChannel::R7, IAChannel::C, IAChannel::Lfe, IAChannel::Sl5, IAChannel::Sr5]),
            Layout::Layout512 => Some(vec![IAChannel::L7, IAChannel::R7, IAChannel::C, IAChannel::Lfe, IAChannel::Sl5, IAChannel::Sr5, IAChannel::Hl, IAChannel::Hr]),
            Layout::Layout514 => Some(vec![IAChannel::L7, IAChannel::R7, IAChannel::C, IAChannel::Lfe, IAChannel::Sl5, IAChannel::Sr5, IAChannel::Hfl, IAChannel::Hfr, IAChannel::Hbl, IAChannel::Hbr]),
            Layout::Layout71 => Some(vec![IAChannel::L7, IAChannel::R7, IAChannel::C, IAChannel::Lfe, IAChannel::Sl7, IAChannel::Sr7, IAChannel::Bl7, IAChannel::Br7]),
            Layout::Layout712 => Some(vec![IAChannel::L7, IAChannel::R7, IAChannel::C, IAChannel::Lfe, IAChannel::Sl7, IAChannel::Sr7, IAChannel::Bl7, IAChannel::Br7, IAChannel::Hl, IAChannel::Hr]),
            Layout::Layout714 => Some(vec![IAChannel::L7, IAChannel::R7, IAChannel::C, IAChannel::Lfe, IAChannel::Sl7, IAChannel::Sr7, IAChannel::Bl7, IAChannel::Br7, IAChannel::Hfl, IAChannel::Hfr, IAChannel::Hbl, IAChannel::Hbr]),
            Layout::Layout312 => Some(vec![IAChannel::L3, IAChannel::R3, IAChannel::C, IAChannel::Lfe, IAChannel::Tl, IAChannel::Tr]),
            _ => None,
        }
    }
}

/// Converting a layout to its C code and back gives the layout again, and distinct
/// layouts have distinct codes.
pub proof fn lemma_layout_code_round_trip(l: Layout, m: Layout)
    ensures
        spec_layout_value(l) == spec_layout_value(m) ==> l == m,
        1 <= spec_layout_value(l) <= 273,
{
}

/// The layouts that take part in downmixing are exactly those with physical channels,
/// and each lists as many physical channels as the layout has channels.
pub proof fn lemma_physical_channels_match_channel_count(l: Layout)
    ensures
        spec_physical_channels(l) is Some <==> spec_height_and_surround(l) is Some,
        spec_physical_channels(l) matches Some(s) ==> s.len() == spec_layout_channels(l),
        spec_height_and_surround(l) matches Some((h, s)) ==> spec_layout_channels(l) == h + s + (if s >= 5 || (s == 3) { 1int } else { 0int }),
{
}

/// Downmix validity is reflexive on the layouts that take part in downmixing and
/// transitive: downmixing in two valid steps is itself a valid downmix.
pub proof fn lemma_downmix_reflexive_transitive(a: Layout, b: Layout, c: Layout)
    ensures
        spec_height_and_surround(a) is Some ==> spec_is_valid_downmix(a, a),
        spec_is_valid_downmix(a, b) && spec_is_valid_downmix(b, c) ==> spec_is_valid_downmix(a, c),
{
}

} // verus!
