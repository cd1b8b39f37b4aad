//! The spherical-harmonic HRIR filter assets, looked up by file name.

use vstd::prelude::*;
use vstd::string::StrSliceExecFns;
use vstd::string::StringExecFns;
use super::audio_element_config::{BinauralFilterProfile, digit_str, spec_decimal, spec_digit};

verus! {

/// The ear a filter set is for.
#[derive(Debug, Clone, Copy, PartialEq, Eq, Structural, Hash)]
pub enum Ear {
    Left,
    Right,
}

/// One embedded filter set: an ambisonic order, a profile and an ear.
#[derive(Debug, Clone, Copy, PartialEq, Eq, Structural, Hash)]
pub struct BinauralFilterAsset {
    pub order: i32,
    pub profile: BinauralFilterProfile,
    pub ear: Ear,
}

/// Filter sets exist for the ambisonic orders 1 to 4.
pub open spec fn spec_asset_valid(a: BinauralFilterAsset) -> bool {
    1 <= a.order <= 4
}

/// The profile's word in a file name.
pub open spec fn spec_profile_word(p: BinauralFilterProfile) -> Seq<char> {
    match p {
        BinauralFilterProfile::Direct => "Direct"@,
        BinauralFilterProfile::Ambient => "Ambient"@,
        BinauralFilterProfile::Reverberant => "Reverberant"@,
    }
}

/// The ear's letter in a file name.
pub open spec fn spec_ear_letter(e: Ear) -> Seq<char> {
    match e {
        Ear::Left => "L"@,
        Ear::Right => "R"@,
    }
}

/// The file name of a filter set: order, `OA`, profile, ear (such as `3OADirectL`).
pub open spec fn spec_asset_name(a: BinauralFilterAsset) -> Seq<char> {
    spec_decimal(a.order as nat) + "OA"@ + spec_profile_word(a.profile) + spec_ear_letter(a.ear)
}

/// The filter set a file name stands for, if any.
pub open spec fn spec_lookup(name: Seq<char>) -> Option<BinauralFilterAsset> {
    if exists|a: BinauralFilterAsset| spec_asset_valid(a) && #[trigger] spec_asset_name(a) == name {
        Some(choose|a: BinauralFilterAsset| spec_asset_valid(a) && #[trigger] spec_asset_name(a) == name)
    } else {
        None
    }
}

fn profile_word(p: BinauralFilterProfile) -> (s: &'static str)
    ensures
        s@ == spec_profile_word(p),
{
    match p {
        BinauralFilterProfile::Direct => "Direct",
        BinauralFilterProfile::Ambient => "Ambient",
        BinauralFilterProfile::Reverberant => "Reverberant",
    }
}

fn ear_letter(e: Ear) -> (s: &'static str)
    ensures
        s@ == spec_ear_letter(e),
{
    match e {
        Ear::Left => "L",
        Ear::Right => "R",
    }
}

/// Returns the file name of a filter set.
pub fn asset_file_name(a: BinauralFilterAsset) -> (s: String)
    requires
        spec_asset_valid(a),
    ensures
        s@ == spec_asset_name(a),
{
    let mut s = String::from_str(digit_str(a.order as usize));
    s.append("OA");
    s.append(profile_word(a.profile));
    s.append(ear_letter(a.ear));
    s
}

/// Whether two strings hold the same characters.
fn same_text(a: &str, b: &str) -> (r: bool)
    ensures
        r == (a@ == b@),
{
    let n = a.unicode_len();
    if n != b.unicode_len() {
        return false;
    }
    let mut i: usize = 0;
    while i < n
        invariant
            i <= n,
            n == a@.len(),
            n == b@.len(),
            forall|j: int| 0 <= j < i ==> a@[j] == b@[j],
        decreases n - i,
    {
        if a.get_char(i) != b.get_char(i) {
            return false;
        }
        i = i + 1;
    }
    assert(a@ =~= b@);
    true
}

/// Distinct filter sets have distinct file names.
pub proof fn lemma_asset_names_distinct(a: BinauralFilterAsset, b: BinauralFilterAsset)
    requires
        spec_asset_valid(a),
        spec_asset_valid(b),
        spec_asset_name(a) == spec_asset_name(b),
    ensures
        a == b,
{
    reveal_strlit("OA");
    reveal_strlit("Direct");
    reveal_strlit("Ambient");
    reveal_strlit("Reverberant");
    reveal_strlit("L");
    reveal_strlit("R");
    reveal_strlit("1");
    reveal_strlit("2");
    reveal_strlit("3");
    reveal_strlit("4");
    let nb = spec_asset_name(b);
    assert(nb[0] == spec_digit(b.order as nat)[0]);
    assert(nb[nb.len() - 1] == spec_ear_letter(b.ear)[0]);
}

/// Looking up the file name of a filter set finds that filter set.
pub proof fn lemma_lookup_of_asset_name(a: BinauralFilterAsset)
    requires
        spec_asset_valid(a),
    ensures
        spec_lookup(spec_asset_name(a)) == Some(a),
{
    let name = spec_asset_name(a);
    let b = choose|b: BinauralFilterAsset| spec_asset_valid(b) && #[trigger] spec_asset_name(b) == name;
    lemma_asset_names_distinct(a, b);
}

/// Position of a profile in the lookup order.
pub open spec fn spec_profile_index(p: BinauralFilterProfile) -> int {
    match p {
        BinauralFilterProfile::Ambient => 0,
        BinauralFilterProfile::Direct => 1,
        BinauralFilterProfile::Reverberant => 2,
    }
}

/// Position of an ear in the lookup order.
pub open spec fn spec_ear_index(e: Ear) -> int {
    match e {
        Ear::Left => 0,
        Ear::Right => 1,
    }
}

fn profile_at(i: u8) -> (p: BinauralFilterProfile)
    requires
        i < 3,
    ensures
        spec_profile_index(p) == i,
{
    if i == 0 {
        BinauralFilterProfile::Ambient
    } else if i == 1 {
        BinauralFilterProfile::Direct
    } else {
        BinauralFilterProfile::Reverberant
    }
}

/// Access to the embedded binaural filter sets.
#[derive(Debug, Default, Clone, Copy)]
pub struct BinauralFiltersWrapper;

impl BinauralFiltersWrapper {
    /// Creates the wrapper.
    pub fn new() -> (w: Self) {
        BinauralFiltersWrapper
    }

    /// Returns the filter set with the given file name, or `None` if no filter set has
    /// that name.
    pub fn get_file(&self, filename: &str) -> (r: Option<BinauralFilterAsset>)
        ensures
            r == spec_lookup(filename@),
    {
        let mut order: i32 = 1;
        while order <= 4
            invariant
                1 <= order <= 5,
                forall|a: BinauralFilterAsset| #![trigger spec_asset_name(a)]
                    spec_asset_valid(a) && a.order < order ==> spec_asset_name(a) != filename@,
            decreases 5 - order,
        {
            let mut p: u8 = 0;
            while p < 3
                invariant
                    1 <= order <= 4,
                    p <= 3,
                    forall|a: BinauralFilterAsset| #![trigger spec_asset_name(a)]
                        spec_asset_valid(a) && (a.order < order || (a.order == order
                            && spec_profile_index(a.profile) < p)) ==> spec_asset_name(a) != filename@,
                decreases 3 - p,
            {
                let profile = profile_at(p);
                let mut e: u8 = 0;
                while e < 2
                    invariant
                        1 <= order <= 4,
                        p < 3,
                        e <= 2,
                        spec_profile_index(profile) == p,
                        forall|a: BinauralFilterAsset| #![trigger spec_asset_name(a)]
                            spec_asset_valid(a) && (a.order < order || (a.order == order
                                && spec_profile_index(a.profile) < p) || (a.order == order
                                && a.profile == profile && spec_ear_index(a.ear) < e))
                                ==> spec_asset_name(a) != filename@,
                    decreases 2 - e,
                {
                    let ear = if e == 0 { Ear::Left } else { Ear::Right };
                    let asset = BinauralFilterAsset { order, profile, ear };
                    let name = asset_file_name(asset);
                    if same_text(name.as_str(), filename) {
                        proof {
                            lemma_lookup_of_asset_name(asset);
                        }
                        return Some(asset);
                    }
                    e = e + 1;
                }
                p = p + 1;
            }
            order = order + 1;
        }
        None
    }
}

} // verus!
