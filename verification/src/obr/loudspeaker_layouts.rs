//! Virtual loudspeaker positions of the standard loudspeaker layouts.

use vstd::prelude::*;
use vstd::string::StringExecFns;
use super::audio_element_type::AudioElementType;
use super::input_channel_config::LoudspeakerLayoutInputChannel;

verus! {

/// Virtual loudspeakers used by the standard layouts.
#[derive(Debug, Clone, Copy, PartialEq, Eq, Structural, Hash)]
pub enum VirtualLoudspeaker {
    C,
    L30,
    R30,
    L45,
    R45,
    L60,
    R60,
    L90,
    R90,
    L110,
    R110,
    L135,
    R135,
    Deg180,
    Uc,
    Ul30,
    Ur30,
    Ul45,
    Ur45,
    Ul90,
    Ur90,
    Ul135,
    Ur135,
    U180,
    Bc,
    Bl45,
    Br45,
    Bl135,
    Br135,
    T,
    Lfe,
    Lfe1,
    Lfe2,
}

/// The name of each virtual loudspeaker.
pub open spec fn spec_speaker_id(v: VirtualLoudspeaker) -> Seq<char> {
    match v {
        VirtualLoudspeaker::C => "kC"@,
        VirtualLoudspeaker::L30 => "kL30"@,
        VirtualLoudspeaker::R30 => "kR30"@,
        VirtualLoudspeaker::L45 => "kL45"@,
        VirtualLoudspeaker::R45 => "kR45"@,
        VirtualLoudspeaker::L60 => "kL60"@,
        VirtualLoudspeaker::R60 => "kR60"@,
        VirtualLoudspeaker::L90 => "kL90"@,
        VirtualLoudspeaker::R90 => "kR90"@,
        VirtualLoudspeaker::L110 => "kL110"@,
        VirtualLoudspeaker::R110 => "kR110"@,
        VirtualLoudspeaker::L135 => "kL135"@,
        VirtualLoudspeaker::R135 => "kR135"@,
        VirtualLoudspeaker::Deg180 => "k180"@,
        VirtualLoudspeaker::Uc => "kUC"@,
        VirtualLoudspeaker::Ul30 => "kUL30"@,
        VirtualLoudspeaker::Ur30 => "kUR30"@,
        VirtualLoudspeaker::Ul45 => "kUL45"@,
        VirtualLoudspeaker::Ur45 => "kUR45"@,
        VirtualLoudspeaker::Ul90 => "kUL90"@,
        VirtualLoudspeaker::Ur90 => "kUR90"@,
        VirtualLoudspeaker::Ul135 => "kUL135"@,
        VirtualLoudspeaker::Ur135 => "kUR135"@,
        VirtualLoudspeaker::U180 => "kU180"@,
        VirtualLoudspeaker::Bc => "kBC"@,
        VirtualLoudspeaker::Bl45 => "kBL45"@,
        VirtualLoudspeaker::Br45 => "kBR45"@,
        VirtualLoudspeaker::Bl135 => "kBL135"@,
        VirtualLoudspeaker::Br135 => "kBR135"@,
        VirtualLoudspeaker::T => "kT"@,
        VirtualLoudspeaker::Lfe => "kLFE"@,
        VirtualLoudspeaker::Lfe1 => "kLFE1"@,
        VirtualLoudspeaker::Lfe2 => "kLFE2"@,
    }
}

/// The azimuth of each virtual loudspeaker in degrees.
pub open spec fn spec_speaker_azimuth(v: VirtualLoudspeaker) -> int {
    match v {
        VirtualLoudspeaker::C => 0,
        VirtualLoudspeaker::L30 => 30,
        VirtualLoudspeaker::R30 => -30,
        VirtualLoudspeaker::L45 => 45,
        VirtualLoudspeaker::R45 => -45,
        VirtualLoudspeaker::L60 => 60,
        VirtualLoudspeaker::R60 => -60,
        VirtualLoudspeaker::L90 => 90,
        VirtualLoudspeaker::R90 => -90,
        VirtualLoudspeaker::L110 => 110,
        VirtualLoudspeaker::R110 => -110,
        VirtualLoudspeaker::L135 => 135,
        VirtualLoudspeaker::R135 => -135,
        VirtualLoudspeaker::Deg180 => 180,
        VirtualLoudspeaker::Uc => 0,
        VirtualLoudspeaker::Ul30 => 30,
        VirtualLoudspeaker::Ur30 => -30,
        VirtualLoudspeaker::Ul45 => 45,
        VirtualLoudspeaker::Ur45 => -45,
        VirtualLoudspeaker::Ul90 => 90,
        VirtualLoudspeaker::Ur90 => -90,
        VirtualLoudspeaker::Ul135 => 135,
        VirtualLoudspeaker::Ur135 => -135,
        VirtualLoudspeaker::U180 => 180,
        VirtualLoudspeaker::Bc => 0,
        VirtualLoudspeaker::Bl45 => 45,
        VirtualLoudspeaker::Br45 => -45,
        VirtualLoudspeaker::Bl135 => 135,
        VirtualLoudspeaker::Br135 => -135,
        VirtualLoudspeaker::T => 0,
        VirtualLoudspeaker::Lfe => 0,
        VirtualLoudspeaker::Lfe1 => 45,
        VirtualLoudspeaker::Lfe2 => -45,
    }
}

/// The elevation of each virtual loudspeaker in degrees.
pub open spec fn spec_speaker_elevation(v: VirtualLoudspeaker) -> int {
    match v {
        VirtualLoudspeaker::C => 0,
        VirtualLoudspeaker::L30 => 0,
        VirtualLoudspeaker::R30 => 0,
        VirtualLoudspeaker::L45 => 0,
        VirtualLoudspeaker::R45 => 0,
        VirtualLoudspeaker::L60 => 0,
        VirtualLoudspeaker::R60 => 0,
        VirtualLoudspeaker::L90 => 0,
        VirtualLoudspeaker::R90 => 0,
        VirtualLoudspeaker::L110 => 0,
        VirtualLoudspeaker::R110 => 0,
        VirtualLoudspeaker::L135 => 0,
        VirtualLoudspeaker::R135 => 0,
        VirtualLoudspeaker::Deg180 => 0,
        VirtualLoudspeaker::Uc => 45,
        VirtualLoudspeaker::Ul30 => 45,
        VirtualLoudspeaker::Ur30 => 45,
        VirtualLoudspeaker::Ul45 => 45,
        VirtualLoudspeaker::Ur45 => 45,
        VirtualLoudspeaker::Ul90 => 45,
        VirtualLoudspeaker::Ur90 => 45,
        VirtualLoudspeaker::Ul135 => 45,
        VirtualLoudspeaker::Ur135 => 45,
        VirtualLoudspeaker::U180 => 45,
        VirtualLoudspeaker::Bc => -30,
        VirtualLoudspeaker::Bl45 => -30,
        VirtualLoudspeaker::Br45 => -30,
        VirtualLoudspeaker::Bl135 => -30,
        VirtualLoudspeaker::Br135 => -30,
        VirtualLoudspeaker::T => 90,
        VirtualLoudspeaker::Lfe => -30,
        VirtualLoudspeaker::Lfe1 => -30,
        VirtualLoudspeaker::Lfe2 => -30,
    }
}

/// The low-frequency effects loudspeakers.
pub open spec fn spec_speaker_is_lfe(v: VirtualLoudspeaker) -> bool {
    v == VirtualLoudspeaker::Lfe || v == VirtualLoudspeaker::Lfe1 || v == VirtualLoudspeaker::Lfe2
}

/// `c` describes virtual loudspeaker `v` at input index 0, one metre from the listener.
pub open spec fn spec_is_speaker_channel(c: LoudspeakerLayoutInputChannel, v: VirtualLoudspeaker) -> bool {
    &&& c.base.id@ == spec_speaker_id(v)
    &&& c.base.input_channel_index == 0
    &&& c.azimuth == spec_speaker_azimuth(v)
    &&& c.elevation == spec_speaker_elevation(v)
    &&& c.distance == 1
    &&& c.is_lfe == spec_speaker_is_lfe(v)
}

/// The virtual loudspeakers of each loudspeaker layout kind, in channel order (none for
/// other kinds).
pub open spec fn spec_layout_speakers(t: AudioElementType) -> Seq<VirtualLoudspeaker> {
    match t {
        AudioElementType::LayoutMono => seq![VirtualLoudspeaker::C],
        AudioElementType::LayoutStereo => seq![VirtualLoudspeaker::L30, VirtualLoudspeaker::R30],
        AudioElementType::Layout5_1_0 => seq![VirtualLoudspeaker::L30, VirtualLoudspeaker::R30, VirtualLoudspeaker::C, VirtualLoudspeaker::Lfe, VirtualLoudspeaker::L110, VirtualLoudspeaker::R110],
        AudioElementType::Layout5_1_2 => seq![VirtualLoudspeaker::L30, VirtualLoudspeaker::R30, VirtualLoudspeaker::C, VirtualLoudspeaker::Lfe, VirtualLoudspeaker::L110, VirtualLoudspeaker::R110, VirtualLoudspeaker::Ul30, VirtualLoudspeaker::Ur30],
        AudioElementType::Layout5_1_4 => seq![VirtualLoudspeaker::L30, VirtualLoudspeaker::R30, VirtualLoudspeaker::C, VirtualLoudspeaker::Lfe, VirtualLoudspeaker::L110, VirtualLoudspeaker::R110, VirtualLoudspeaker::Ul45, VirtualLoudspeaker::Ur45, VirtualLoudspeaker::Ul135, VirtualLoudspeaker::Ur135],
        AudioElementType::Layout7_1_0 => seq![VirtualLoudspeaker::L30, VirtualLoudspeaker::R30, VirtualLoudspeaker::C, VirtualLoudspeaker::Lfe, VirtualLoudspeaker::L90, VirtualLoudspeaker::R90, VirtualLoudspeaker::L135, VirtualLoudspeaker::R135],
        AudioElementType::Layout7_1_2 => seq![VirtualLoudspeaker::L30, VirtualLoudspeaker::R30, VirtualLoudspeaker::C, VirtualLoudspeaker::Lfe, VirtualLoudspeaker::L90, VirtualLoudspeaker::R90, VirtualLoudspeaker::L135, VirtualLoudspeaker::R135, VirtualLoudspeaker::Ul45, VirtualLoudspeaker::Ur45],
        AudioElementType::Layout7_1_4 => seq![VirtualLoudspeaker::L30, VirtualLoudspeaker::R30, VirtualLoudspeaker::C, VirtualLoudspeaker::Lfe, VirtualLoudspeaker::L90, VirtualLoudspeaker::R90, VirtualLoudspeaker::L135, VirtualLoudspeaker::R135, VirtualLoudspeaker::Ul45, VirtualLoudspeaker::Ur45, VirtualLoudspeaker::Ul135, VirtualLoudspeaker::Ur135],
        AudioElementType::Layout3_1_2 => seq![VirtualLoudspeaker::L30, VirtualLoudspeaker::R30, VirtualLoudspeaker::C, VirtualLoudspeaker::Lfe, VirtualLoudspeaker::Ul45, VirtualLoudspeaker::Ur45],
        AudioElementType::Layout9_1_6 => seq![VirtualLoudspeaker::L60, VirtualLoudspeaker::R60, VirtualLoudspeaker::C, VirtualLoudspeaker::Lfe1, VirtualLoudspeaker::L135, VirtualLoudspeaker::R135, VirtualLoudspeaker::L30, VirtualLoudspeaker::R30, VirtualLoudspeaker::L90, VirtualLoudspeaker::R90, VirtualLoudspeaker::Ul45, VirtualLoudspeaker::Ur45, VirtualLoudspeaker::Ul135, VirtualLoudspeaker::Ur135, VirtualLoudspeaker::Ul90, VirtualLoudspeaker::Ur90],
        AudioElementType::Layout7_1_5_4 => seq![VirtualLoudspeaker::L30, VirtualLoudspeaker::R30, VirtualLoudspeaker::C, VirtualLoudspeaker::Lfe, VirtualLoudspeaker::L90, VirtualLoudspeaker::R90, VirtualLoudspeaker::L135, VirtualLoudspeaker::R135, VirtualLoudspeaker::Ul45, VirtualLoudspeaker::Ur45, VirtualLoudspeaker::T, VirtualLoudspeaker::Ul135, VirtualLoudspeaker::Ur135, VirtualLoudspeaker::Bl45, VirtualLoudspeaker::Br45, VirtualLoudspeaker::Bl135, VirtualLoudspeaker::Br135],
        AudioElementType::Layout10_2_9_3 => seq![VirtualLoudspeaker::L60, VirtualLoudspeaker::R60, VirtualLoudspeaker::C, VirtualLoudspeaker::Lfe1, VirtualLoudspeaker::L135, VirtualLoudspeaker::R135, VirtualLoudspeaker::L30, VirtualLoudspeaker::R30, VirtualLoudspeaker::Deg180, VirtualLoudspeaker::Lfe2, VirtualLoudspeaker::L90, VirtualLoudspeaker::R90, VirtualLoudspeaker::Ul45, VirtualLoudspeaker::Ur45, VirtualLoudspeaker::Uc, VirtualLoudspeaker::T, VirtualLoudspeaker::Ul135, VirtualLoudspeaker::Ur135, VirtualLoudspeaker::Ul90, VirtualLoudspeaker::Ur90, VirtualLoudspeaker::U180, VirtualLoudspeaker::Bc, VirtualLoudspeaker::Bl45, VirtualLoudspeaker::Br45],
        _ => seq![],
    }
}


/// The character of an id at position `i`, or a space past its end.
spec fn id_char(s: Seq<char>, i: int) -> char {
    if 0 <= i < s.len() {
        s[i]
    } else {
        ' '
    }
}

/// The length of an id and its characters after the leading `k`.
spec fn id_signature(s: Seq<char>) -> (nat, char, char, char, char, char) {
    (s.len(), id_char(s, 1), id_char(s, 2), id_char(s, 3), id_char(s, 4), id_char(s, 5))
}

/// The virtual loudspeaker whose id has the given signature.
spec fn speaker_of_signature(t: (nat, char, char, char, char, char)) -> Option<VirtualLoudspeaker> {
    if t == (2nat, 'C', ' ', ' ', ' ', ' ') {
        Some(VirtualLoudspeaker::C)
    }     else if t == (4nat, 'L', '3', '0', ' ', ' ') {
        Some(VirtualLoudspeaker::L30)
    }     else if t == (4nat, 'R', '3', '0', ' ', ' ') {
        Some(VirtualLoudspeaker::R30)
    }     else if t == (4nat, 'L', '4', '5', ' ', ' ') {
        Some(VirtualLoudspeaker::L45)
    }     else if t == (4nat, 'R', '4', '5', ' ', ' ') {
        Some(VirtualLoudspeaker::R45)
    }     else if t == (4nat, 'L', '6', '0', ' ', ' ') {
        Some(VirtualLoudspeaker::L60)
    }     else if t == (4nat, 'R', '6', '0', ' ', ' ') {
        Some(VirtualLoudspeaker::R60)
    }     else if t == (4nat, 'L', '9', '0', ' ', ' ') {
        Some(VirtualLoudspeaker::L90)
    }     else if t == (4nat, 'R', '9', '0', ' ', ' ') {
        Some(VirtualLoudspeaker::R90)
    }     else if t == (5nat, 'L', '1', '1', '0', ' ') {
        Some(VirtualLoudspeaker::L110)
    }     else if t == (5nat, 'R', '1', '1', '0', ' ') {
        Some(VirtualLoudspeaker::R110)
    }     else if t == (5nat, 'L', '1', '3', '5', ' ') {
        Some(VirtualLoudspeaker::L135)
    }     else if t == (5nat, 'R', '1', '3', '5', ' ') {
        Some(VirtualLoudspeaker::R135)
    }     else if t == (4nat, '1', '8', '0', ' ', ' ') {
        Some(VirtualLoudspeaker::Deg180)
    }     else if t == (3nat, 'U', 'C', ' ', ' ', ' ') {
        Some(VirtualLoudspeaker::Uc)
    }     else if t == (5nat, 'U', 'L', '3', '0', ' ') {
        Some(VirtualLoudspeaker::Ul30)
    }     else if t == (5nat, 'U', 'R', '3', '0', ' ') {
        Some(VirtualLoudspeaker::Ur30)
    }     else if t == (5nat, 'U', 'L', '4', '5', ' ') {
        Some(VirtualLoudspeaker::Ul45)
    }     else if t == (5nat, 'U', 'R', '4', '5', ' ') {
        Some(VirtualLoudspeaker::Ur45)
    }     else if t == (5nat, 'U', 'L', '9', '0', ' ') {
        Some(VirtualLoudspeaker::Ul90)
    }     else if t == (5nat, 'U', 'R', '9', '0', ' ') {
        Some(VirtualLoudspeaker::Ur90)
    }     else if t == (6nat, 'U', 'L', '1', '3', '5') {
        Some(VirtualLoudspeaker::Ul135)
    }     else if t == (6nat, 'U', 'R', '1', '3', '5') {
        Some(VirtualLoudspeaker::Ur135)
    }     else if t == (5nat, 'U', '1', '8', '0', ' ') {
        Some(VirtualLoudspeaker::U180)
    }     else if t == (3nat, 'B', 'C', ' ', ' ', ' ') {
        Some(VirtualLoudspeaker::Bc)
    }     else if t == (5nat, 'B', 'L', '4', '5', ' ') {
        Some(VirtualLoudspeaker::Bl45)
    }     else if t == (5nat, 'B', 'R', '4', '5', ' ') {
        Some(VirtualLoudspeaker::Br45)
    }     else if t == (6nat, 'B', 'L', '1', '3', '5') {
        Some(VirtualLoudspeaker::Bl135)
    }     else if t == (6nat, 'B', 'R', '1', '3', '5') {
        Some(VirtualLoudspeaker::Br135)
    }     else if t == (2nat, 'T', ' ', ' ', ' ', ' ') {
        Some(VirtualLoudspeaker::T)
    }     else if t == (4nat, 'L', 'F', 'E', ' ', ' ') {
        Some(VirtualLoudspeaker::Lfe)
    }     else if t == (5nat, 'L', 'F', 'E', '1', ' ') {
        Some(VirtualLoudspeaker::Lfe1)
    }     else if t == (5nat, 'L', 'F', 'E', '2', ' ') {
        Some(VirtualLoudspeaker::Lfe2)
    } else {
        None
    }
}

/// Each id's signature names its own loudspeaker.
proof fn lemma_signature_names_speaker(v: VirtualLoudspeaker)
    ensures
        speaker_of_signature(id_signature(spec_speaker_id(v))) == Some(v),
{
    match v {
        VirtualLoudspeaker::C => {
            reveal_strlit("kC");
        },
        VirtualLoudspeaker::L30 => {
            reveal_strlit("kL30");
        },
        VirtualLoudspeaker::R30 => {
            reveal_strlit("kR30");
        },
        VirtualLoudspeaker::L45 => {
            reveal_strlit("kL45");
        },
        VirtualLoudspeaker::R45 => {
            reveal_strlit("kR45");
        },
        VirtualLoudspeaker::L60 => {
            reveal_strlit("kL60");
        },
        VirtualLoudspeaker::R60 => {
            reveal_strlit("kR60");
        },
        VirtualLoudspeaker::L90 => {
            reveal_strlit("kL90");
        },
        VirtualLoudspeaker::R90 => {
            reveal_strlit("kR90");
        },
        VirtualLoudspeaker::L110 => {
            reveal_strlit("kL110");
        },
        VirtualLoudspeaker::R110 => {
            reveal_strlit("kR110");
        },
        VirtualLoudspeaker::L135 => {
            reveal_strlit("kL135");
        },
        VirtualLoudspeaker::R135 => {
            reveal_strlit("kR135");
        },
        VirtualLoudspeaker::Deg180 => {
            reveal_strlit("k180");
        },
        VirtualLoudspeaker::Uc => {
            reveal_strlit("kUC");
        },
        VirtualLoudspeaker::Ul30 => {
            reveal_strlit("kUL30");
        },
        VirtualLoudspeaker::Ur30 => {
            reveal_strlit("kUR30");
        },
        VirtualLoudspeaker::Ul45 => {
            reveal_strlit("kUL45");
        },
        VirtualLoudspeaker::Ur45 => {
            reveal_strlit("kUR45");
        },
        VirtualLoudspeaker::Ul90 => {
            reveal_strlit("kUL90");
        },
        VirtualLoudspeaker::Ur90 => {
            reveal_strlit("kUR90");
        },
        VirtualLoudspeaker::Ul135 => {
            reveal_strlit("kUL135");
        },
        VirtualLoudspeaker::Ur135 => {
            reveal_strlit("kUR135");
        },
        VirtualLoudspeaker::U180 => {
            reveal_strlit("kU180");
        },
        VirtualLoudspeaker::Bc => {
            reveal_strlit("kBC");
        },
        VirtualLoudspeaker::Bl45 => {
            reveal_strlit("kBL45");
        },
        VirtualLoudspeaker::Br45 => {
            reveal_strlit("kBR45");
        },
        VirtualLoudspeaker::Bl135 => {
            reveal_strlit("kBL135");
        },
        VirtualLoudspeaker::Br135 => {
            reveal_strlit("kBR135");
        },
        VirtualLoudspeaker::T => {
            reveal_strlit("kT");
        },
        VirtualLoudspeaker::Lfe => {
            reveal_strlit("kLFE");
        },
        VirtualLoudspeaker::Lfe1 => {
            reveal_strlit("kLFE1");
        },
        VirtualLoudspeaker::Lfe2 => {
            reveal_strlit("kLFE2");
        },
    }
}

/// Distinct virtual loudspeakers have distinct ids.
pub proof fn lemma_speaker_ids_distinct(v: VirtualLoudspeaker, w: VirtualLoudspeaker)
    ensures
        spec_speaker_id(v) == spec_speaker_id(w) ==> v == w,
{
    lemma_signature_names_speaker(v);
    lemma_signature_names_speaker(w);
}

/// The loudspeaker at the mirror position across the median plane (itself on the plane).
pub open spec fn spec_speaker_mirror(v: VirtualLoudspeaker) -> VirtualLoudspeaker {
    match v {
        VirtualLoudspeaker::C => VirtualLoudspeaker::C,
        VirtualLoudspeaker::L30 => VirtualLoudspeaker::R30,
        VirtualLoudspeaker::R30 => VirtualLoudspeaker::L30,
        VirtualLoudspeaker::L45 => VirtualLoudspeaker::R45,
        VirtualLoudspeaker::R45 => VirtualLoudspeaker::L45,
        VirtualLoudspeaker::L60 => VirtualLoudspeaker::R60,
        VirtualLoudspeaker::R60 => VirtualLoudspeaker::L60,
        VirtualLoudspeaker::L90 => VirtualLoudspeaker::R90,
        VirtualLoudspeaker::R90 => VirtualLoudspeaker::L90,
        VirtualLoudspeaker::L110 => VirtualLoudspeaker::R110,
        VirtualLoudspeaker::R110 => VirtualLoudspeaker::L110,
        VirtualLoudspeaker::L135 => VirtualLoudspeaker::R135,
        VirtualLoudspeaker::R135 => VirtualLoudspeaker::L135,
        VirtualLoudspeaker::Deg180 => VirtualLoudspeaker::Deg180,
        VirtualLoudspeaker::Uc => VirtualLoudspeaker::Uc,
        VirtualLoudspeaker::Ul30 => VirtualLoudspeaker::Ur30,
        VirtualLoudspeaker::Ur30 => VirtualLoudspeaker::Ul30,
        VirtualLoudspeaker::Ul45 => VirtualLoudspeaker::Ur45,
        VirtualLoudspeaker::Ur45 => VirtualLoudspeaker::Ul45,
        VirtualLoudspeaker::Ul90 => VirtualLoudspeaker::Ur90,
        VirtualLoudspeaker::Ur90 => VirtualLoudspeaker::Ul90,
        VirtualLoudspeaker::Ul135 => VirtualLoudspeaker::Ur135,
        VirtualLoudspeaker::Ur135 => VirtualLoudspeaker::Ul135,
        VirtualLoudspeaker::U180 => VirtualLoudspeaker::U180,
        VirtualLoudspeaker::Bc => VirtualLoudspeaker::Bc,
        VirtualLoudspeaker::Bl45 => VirtualLoudspeaker::Br45,
        VirtualLoudspeaker::Br45 => VirtualLoudspeaker::Bl45,
        VirtualLoudspeaker::Bl135 => VirtualLoudspeaker::Br135,
        VirtualLoudspeaker::Br135 => VirtualLoudspeaker::Bl135,
        VirtualLoudspeaker::T => VirtualLoudspeaker::T,
        VirtualLoudspeaker::Lfe => VirtualLoudspeaker::Lfe,
        VirtualLoudspeaker::Lfe1 => VirtualLoudspeaker::Lfe2,
        VirtualLoudspeaker::Lfe2 => VirtualLoudspeaker::Lfe1,
    }
}

/// Every virtual loudspeaker lies at an elevation in [-90, 90] and an azimuth in (-180, 180];
/// its mirror has the opposite azimuth (180 stays 180), the same elevation and the same
/// low-frequency role, and mirroring twice gives the loudspeaker back. The loudspeakers on
/// the left (azimuth in (0, 180)) are the mirrors of those on the right.
pub proof fn lemma_speaker_geometry(v: VirtualLoudspeaker)
    ensures
        -90 <= spec_speaker_elevation(v) <= 90,
        -180 < spec_speaker_azimuth(v) <= 180,
        spec_speaker_azimuth(v) == 180 ==> spec_speaker_mirror(v) == v,
        spec_speaker_azimuth(v) != 180 ==> spec_speaker_azimuth(spec_speaker_mirror(v)) == -spec_speaker_azimuth(v),
        spec_speaker_elevation(spec_speaker_mirror(v)) == spec_speaker_elevation(v),
        spec_speaker_is_lfe(spec_speaker_mirror(v)) == spec_speaker_is_lfe(v),
        spec_speaker_mirror(spec_speaker_mirror(v)) == v,
        spec_speaker_azimuth(v) == 0 || spec_speaker_azimuth(v) == 180 <==> spec_speaker_mirror(v) == v,
{
}

/// How many of the first `n` loudspeakers are above the listener.
pub open spec fn spec_count_height(s: Seq<VirtualLoudspeaker>, n: int) -> int
    decreases n,
{
    if n <= 0 {
        0
    } else {
        spec_count_height(s, n - 1) + if spec_speaker_elevation(s[n - 1]) > 0 { 1int } else { 0int }
    }
}

/// How many of the first `n` loudspeakers are at ear level and not low-frequency ones.
pub open spec fn spec_count_ear_level(s: Seq<VirtualLoudspeaker>, n: int) -> int
    decreases n,
{
    if n <= 0 {
        0
    } else {
        spec_count_ear_level(s, n - 1) + if spec_speaker_elevation(s[n - 1]) == 0 && !spec_speaker_is_lfe(s[n - 1]) {
            1int
        } else {
            0int
        }
    }
}

/// How many of the first `n` loudspeakers are low-frequency ones.
pub open spec fn spec_count_lfe(s: Seq<VirtualLoudspeaker>, n: int) -> int
    decreases n,
{
    if n <= 0 {
        0
    } else {
        spec_count_lfe(s, n - 1) + if spec_speaker_is_lfe(s[n - 1]) { 1int } else { 0int }
    }
}

/// In every layout the left and right loudspeakers come in pairs, left first: a loudspeaker
/// on the left (azimuth strictly between 0 and 180, not a low-frequency one) is followed by
/// one at the opposite azimuth and the same elevation, and a loudspeaker on the right is
/// preceded by one at the opposite azimuth and the same elevation.
pub proof fn lemma_layout_pairs_left_then_right(t: AudioElementType)
    ensures
        ({
            let sp = spec_layout_speakers(t);
            forall|i: int| 0 <= i < sp.len() && !spec_speaker_is_lfe(#[trigger] sp[i]) ==> {
                &&& 0 < spec_speaker_azimuth(sp[i]) < 180 ==> {
                    &&& i + 1 < sp.len()
                    &&& !spec_speaker_is_lfe(sp[i + 1])
                    &&& spec_speaker_azimuth(sp[i + 1]) == -spec_speaker_azimuth(sp[i])
                    &&& spec_speaker_elevation(sp[i + 1]) == spec_speaker_elevation(sp[i])
                }
                &&& spec_speaker_azimuth(sp[i]) < 0 ==> {
                    &&& i >= 1
                    &&& !spec_speaker_is_lfe(sp[i - 1])
                    &&& spec_speaker_azimuth(sp[i - 1]) == -spec_speaker_azimuth(sp[i])
                    &&& spec_speaker_elevation(sp[i - 1]) == spec_speaker_elevation(sp[i])
                }
            }
        }),
{
}

impl VirtualLoudspeaker {
    /// Returns the input channel description of this virtual loudspeaker.
    pub fn to_channel(self) -> (c: LoudspeakerLayoutInputChannel)
        ensures
            spec_is_speaker_channel(c, self),
    {
        match self {
            VirtualLoudspeaker::C => LoudspeakerLayoutInputChannel::new(String::from_str("kC"), 0, 0, 1, false),
            VirtualLoudspeaker::L30 => LoudspeakerLayoutInputChannel::new(String::from_str("kL30"), 30, 0, 1, false),
            VirtualLoudspeaker::R30 => LoudspeakerLayoutInputChannel::new(String::from_str("kR30"), -30, 0, 1, false),
            VirtualLoudspeaker::L45 => LoudspeakerLayoutInputChannel::new(String::from_str("kL45"), 45, 0, 1, false),
            VirtualLoudspeaker::R45 => LoudspeakerLayoutInputChannel::new(String::from_str("kR45"), -45, 0, 1, false),
            VirtualLoudspeaker::L60 => LoudspeakerLayoutInputChannel::new(String::from_str("kL60"), 60, 0, 1, false),
            VirtualLoudspeaker::R60 => LoudspeakerLayoutInputChannel::new(String::from_str("kR60"), -60, 0, 1, false),
            VirtualLoudspeaker::L90 => LoudspeakerLayoutInputChannel::new(String::from_str("kL90"), 90, 0, 1, false),
            VirtualLoudspeaker::R90 => LoudspeakerLayoutInputChannel::new(String::from_str("kR90"), -90, 0, 1, false),
            VirtualLoudspeaker::L110 => LoudspeakerLayoutInputChannel::new(String::from_str("kL110"), 110, 0, 1, false),
            VirtualLoudspeaker::R110 => LoudspeakerLayoutInputChannel::new(String::from_str("kR110"), -110, 0, 1, false),
            VirtualLoudspeaker::L135 => LoudspeakerLayoutInputChannel::new(String::from_str("kL135"), 135, 0, 1, false),
            VirtualLoudspeaker::R135 => LoudspeakerLayoutInputChannel::new(String::from_str("kR135"), -135, 0, 1, false),
            VirtualLoudspeaker::Deg180 => LoudspeakerLayoutInputChannel::new(String::from_str("k180"), 180, 0, 1, false),
            VirtualLoudspeaker::Uc => LoudspeakerLayoutInputChannel::new(String::from_str("kUC"), 0, 45, 1, false),
            VirtualLoudspeaker::Ul30 => LoudspeakerLayoutInputChannel::new(String::from_str("kUL30"), 30, 45, 1, false),
            VirtualLoudspeaker::Ur30 => LoudspeakerLayoutInputChannel::new(String::from_str("kUR30"), -30, 45, 1, false),
            VirtualLoudspeaker::Ul45 => LoudspeakerLayoutInputChannel::new(String::from_str("kUL45"), 45, 45, 1, false),
            VirtualLoudspeaker::Ur45 => LoudspeakerLayoutInputChannel::new(String::from_str("kUR45"), -45, 45, 1, false),
            VirtualLoudspeaker::Ul90 => LoudspeakerLayoutInputChannel::new(String::from_str("kUL90"), 90, 45, 1, false),
            VirtualLoudspeaker::Ur90 => LoudspeakerLayoutInputChannel::new(String::from_str("kUR90"), -90, 45, 1, false),
            VirtualLoudspeaker::Ul135 => LoudspeakerLayoutInputChannel::new(String::from_str("kUL135"), 135, 45, 1, false),
            VirtualLoudspeaker::Ur135 => LoudspeakerLayoutInputChannel::new(String::from_str("kUR135"), -135, 45, 1, false),
            VirtualLoudspeaker::U180 => LoudspeakerLayoutInputChannel::new(String::from_str("kU180"), 180, 45, 1, false),
            VirtualLoudspeaker::Bc => LoudspeakerLayoutInputChannel::new(String::from_str("kBC"), 0, -30, 1, false),
            VirtualLoudspeaker::Bl45 => LoudspeakerLayoutInputChannel::new(String::from_str("kBL45"), 45, -30, 1, false),
            VirtualLoudspeaker::Br45 => LoudspeakerLayoutInputChannel::new(String::from_str("kBR45"), -45, -30, 1, false),
            VirtualLoudspeaker::Bl135 => LoudspeakerLayoutInputChannel::new(String::from_str("kBL135"), 135, -30, 1, false),
            VirtualLoudspeaker::Br135 => LoudspeakerLayoutInputChannel::new(String::from_str("kBR135"), -135, -30, 1, false),
            VirtualLoudspeaker::T => LoudspeakerLayoutInputChannel::new(String::from_str("kT"), 0, 90, 1, false),
            VirtualLoudspeaker::Lfe => LoudspeakerLayoutInputChannel::new(String::from_str("kLFE"), 0, -30, 1, true),
            VirtualLoudspeaker::Lfe1 => LoudspeakerLayoutInputChannel::new(String::from_str("kLFE1"), 45, -30, 1, true),
            VirtualLoudspeaker::Lfe2 => LoudspeakerLayoutInputChannel::new(String::from_str("kLFE2"), -45, -30, 1, true),
        }
    }
}

/// Registry of the virtual loudspeaker positions of the standard layouts.
#[derive(Debug, Clone, Copy, PartialEq, Eq, Structural)]
pub struct LoudspeakerLayouts;

impl LoudspeakerLayouts {
    /// Constructs the registry.
    pub fn new() -> (l: Self)
        ensures
            l == LoudspeakerLayouts,
    {
        LoudspeakerLayouts
    }

    /// Returns the virtual loudspeaker channels of a loudspeaker layout kind, in channel
    /// order; other kinds have none.
    pub fn get_loudspeaker_layout(&self, layout_type: AudioElementType) -> (v: Vec<LoudspeakerLayoutInputChannel>)
        ensures
            v@.len() == spec_layout_speakers(layout_type).len(),
            forall|i: int| 0 <= i < v@.len() ==> spec_is_speaker_channel(#[trigger] v@[i], spec_layout_speakers(layout_type)[i]),
    {
        let spks: Vec<VirtualLoudspeaker> = match layout_type {
            AudioElementType::LayoutMono => vec![VirtualLoudspeaker::C],
            AudioElementType::LayoutStereo => vec![VirtualLoudspeaker::L30, VirtualLoudspeaker::R30],
            AudioElementType::Layout5_1_0 => vec![VirtualLoudspeaker::L30, VirtualLoudspeaker::R30, VirtualLoudspeaker::C, VirtualLoudspeaker::Lfe, VirtualLoudspeaker::L110, VirtualLoudspeaker::R110],
            AudioElementType::Layout5_1_2 => vec![VirtualLoudspeaker::L30, VirtualLoudspeaker::R30, VirtualLoudspeaker::C, VirtualLoudspeaker::Lfe, VirtualLoudspeaker::L110, VirtualLoudspeaker::R110, VirtualLoudspeaker::Ul30, VirtualLoudspeaker::Ur30],
            AudioElementType::Layout5_1_4 => vec![VirtualLoudspeaker::L30, VirtualLoudspeaker::R30, VirtualLoudspeaker::C, VirtualLoudspeaker::Lfe, VirtualLoudspeaker::L110, VirtualLoudspeaker::R110, VirtualLoudspeaker::Ul45, VirtualLoudspeaker::Ur45, VirtualLoudspeaker::Ul135, VirtualLoudspeaker::Ur135],
            AudioElementType::Layout7_1_0 => vec![VirtualLoudspeaker::L30, VirtualLoudspeaker::R30, VirtualLoudspeaker::C, VirtualLoudspeaker::Lfe, VirtualLoudspeaker::L90, VirtualLoudspeaker::R90, VirtualLoudspeaker::L135, VirtualLoudspeaker::R135],
            AudioElementType::Layout7_1_2 => vec![VirtualLoudspeaker::L30, VirtualLoudspeaker::R30, VirtualLoudspeaker::C, VirtualLoudspeaker::Lfe, VirtualLoudspeaker::L90, VirtualLoudspeaker::R90, VirtualLoudspeaker::L135, VirtualLoudspeaker::R135, VirtualLoudspeaker::Ul45, VirtualLoudspeaker::Ur45],
            AudioElementType::Layout7_1_4 => vec![VirtualLoudspeaker::L30, VirtualLoudspeaker::R30, VirtualLoudspeaker::C, VirtualLoudspeaker::Lfe, VirtualLoudspeaker::L90, VirtualLoudspeaker::R90, VirtualLoudspeaker::L135, VirtualLoudspeaker::R135, VirtualLoudspeaker::Ul45, VirtualLoudspeaker::Ur45, VirtualLoudspeaker::Ul135, VirtualLoudspeaker::Ur135],
            AudioElementType::Layout3_1_2 => vec![VirtualLoudspeaker::L30, VirtualLoudspeaker::R30, VirtualLoudspeaker::C, VirtualLoudspeaker::Lfe, VirtualLoudspeaker::Ul45, VirtualLoudspeaker::Ur45],
            AudioElementType::Layout9_1_6 => vec![VirtualLoudspeaker::L60, VirtualLoudspeaker::R60, VirtualLoudspeaker::C, VirtualLoudspeaker::Lfe1, VirtualLoudspeaker::L135, VirtualLoudspeaker::R135, VirtualLoudspeaker::L30, VirtualLoudspeaker::R30, VirtualLoudspeaker::L90, VirtualLoudspeaker::R90, VirtualLoudspeaker::Ul45, VirtualLoudspeaker::Ur45, VirtualLoudspeaker::Ul135, VirtualLoudspeaker::Ur135, VirtualLoudspeaker::Ul90, VirtualLoudspeaker::Ur90],
            AudioElementType::Layout7_1_5_4 => vec![VirtualLoudspeaker::L30, VirtualLoudspeaker::R30, VirtualLoudspeaker::C, VirtualLoudspeaker::Lfe, VirtualLoudspeaker::L90, VirtualLoudspeaker::R90, VirtualLoudspeaker::L135, VirtualLoudspeaker::R135, VirtualLoudspeaker::Ul45, VirtualLoudspeaker::Ur45, VirtualLoudspeaker::T, VirtualLoudspeaker::Ul135, VirtualLoudspeaker::Ur135, VirtualLoudspeaker::Bl45, VirtualLoudspeaker::Br45, VirtualLoudspeaker::Bl135, VirtualLoudspeaker::Br135],
            AudioElementType::Layout10_2_9_3 => vec![VirtualLoudspeaker::L60, VirtualLoudspeaker::R60, VirtualLoudspeaker::C, VirtualLoudspeaker::Lfe1, VirtualLoudspeaker::L135, VirtualLoudspeaker::R135, VirtualLoudspeaker::L30, VirtualLoudspeaker::R30, VirtualLoudspeaker::Deg180, VirtualLoudspeaker::Lfe2, VirtualLoudspeaker::L90, VirtualLoudspeaker::R90, VirtualLoudspeaker::Ul45, VirtualLoudspeaker::Ur45, VirtualLoudspeaker::Uc, VirtualLoudspeaker::T, VirtualLoudspeaker::Ul135, VirtualLoudspeaker::Ur135, VirtualLoudspeaker::Ul90, VirtualLoudspeaker::Ur90, VirtualLoudspeaker::U180, VirtualLoudspeaker::Bc, VirtualLoudspeaker::Bl45, VirtualLoudspeaker::Br45],
            _ => vec![],
        };
        let mut out: Vec<LoudspeakerLayoutInputChannel> = Vec::with_capacity(spks.len());
        let mut i: usize = 0;
        while i < spks.len()
            invariant
                spks@ == spec_layout_speakers(layout_type),
                i <= spks@.len(),
                out@.len() == i,
                forall|j: int| 0 <= j < i ==> spec_is_speaker_channel(#[trigger] out@[j], spks@[j]),
            decreases spks@.len() - i,
        {
            out.push(spks[i].to_channel());
            i = i + 1;
        }
        out
    }
}

} // verus!
