//! Which curve turns a volume percentage into an amplitude.
//!
//! The curve applies to software volume only: with a hardware mixer the card
//! owns the mapping.

use vstd::prelude::*;

use crate::text::{lowered_is, trim};

verus! {

#[derive(Debug, Clone, Copy, PartialEq, Eq, Structural)]
pub enum VolumeCurve {
    /// MPD's exponential mapping: one slider position means the same loudness
    /// here as it does for everything else on the box.
    Perceptual,
    /// The fraction scales amplitude directly, for a host that applies its own
    /// curve before.
    Linear,
}

/// The curve that a key names: in any case, with any white space around it.
pub open spec fn named_curve(key: Seq<char>) -> Option<VolumeCurve> {
    let name = crate::text::lowered(crate::text::trimmed(key));
    if name == "perceptual"@ || name == "mpd"@ || name == "exponential"@ {
        Some(VolumeCurve::Perceptual)
    } else if name == "linear"@ || name == "amplitude"@ {
        Some(VolumeCurve::Linear)
    } else {
        None
    }
}

impl VolumeCurve {
    /// The key of a curve.
    pub open spec fn key(self) -> Seq<char> {
        match self {
            VolumeCurve::Perceptual => "perceptual"@,
            VolumeCurve::Linear => "linear"@,
        }
    }

    pub fn from_key(key: &str) -> (r: Option<Self>)
        ensures
            r == named_curve(key@),
    {
        let name = trim(key);
        if lowered_is(name, "perceptual") || lowered_is(name, "mpd") || lowered_is(
            name,
            "exponential",
        ) {
            Some(VolumeCurve::Perceptual)
        } else if lowered_is(name, "linear") || lowered_is(name, "amplitude") {
            Some(VolumeCurve::Linear)
        } else {
            None
        }
    }

    pub fn as_key(self) -> (r: &'static str)
        ensures
            r@ == self.key(),
    {
        match self {
            VolumeCurve::Perceptual => "perceptual",
            VolumeCurve::Linear => "linear",
        }
    }
}

impl Default for VolumeCurve {
    fn default() -> (r: Self)
        ensures
            r == VolumeCurve::Perceptual,
    {
        VolumeCurve::Perceptual
    }
}

/// The curve that a key gives, read back from its own key, is that curve.
pub proof fn law_a_key_names_its_curve(curve: VolumeCurve)
    ensures
        named_curve(curve.key()) == Some(curve),
{
    reveal_strlit("perceptual");
    reveal_strlit("mpd");
    reveal_strlit("exponential");
    reveal_strlit("linear");
    reveal_strlit("amplitude");
    let key = curve.key();
    assert(crate::text::trimmed(key) == key);
    assert(crate::text::lowered(key) =~= key);
    if curve == VolumeCurve::Linear {
        assert("linear"@[0] == 'l');
        assert("perceptual"@[0] == 'p');
        assert("mpd"@[0] == 'm');
        assert("exponential"@[0] == 'e');
    }
}

/// The curve in force.
#[derive(Debug)]
pub struct VolumeCurveSetting {
    pub curve: VolumeCurve,
}

impl Default for VolumeCurveSetting {
    fn default() -> (r: Self)
        ensures
            r.curve == VolumeCurve::Perceptual,
    {
        VolumeCurveSetting { curve: VolumeCurve::Perceptual }
    }
}

pub fn set_volume_curve(setting: &mut VolumeCurveSetting, curve: VolumeCurve)
    ensures
        final(setting).curve == curve,
{
    setting.curve = curve;
}

pub fn volume_curve(setting: &VolumeCurveSetting) -> (r: VolumeCurve)
    ensures
        r == setting.curve,
{
    setting.curve
}

} // verus!
