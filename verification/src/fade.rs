//! Fade vocabulary: curves, animated parameters, and the identities of fade
//! targets and of the scene that owns them.
use vstd::prelude::*;

verus! {

/// Fade curve: how the fader position moves over time.
///
/// `Linear` is linear in fader position (using the console fader law), not in dB.
#[derive(Debug, Clone, Copy, PartialEq, Eq, Structural)]
pub enum FadeCurve {
    Linear,
}

/// A parameter of a console channel that a fade can animate.
#[derive(Debug, Clone, Copy, PartialEq, Eq, Hash, Structural)]
pub enum FadeParameter {
    FaderDb,
    Pan,
    Balance,
    Width,
}

impl FadeParameter {
    /// The pan family groups the three parameters that a manual pan move hands back.
    pub open spec fn spec_is_pan_family(self) -> bool {
        self is Pan || self is Balance || self is Width
    }

    pub fn is_pan_family(self) -> (r: bool)
        ensures
            r == self.spec_is_pan_family(),
            r <==> !(self is FaderDb),
    {
        match self {
            FadeParameter::FaderDb => false,
            FadeParameter::Pan | FadeParameter::Balance | FadeParameter::Width => true,
        }
    }
}

/// The channel parameter that one fade target animates.
#[derive(Debug, Clone, Copy, PartialEq, Eq, Hash, Structural)]
pub struct FadeTargetKey {
    pub group: i32,
    pub channel: i32,
    pub parameter: FadeParameter,
}

/// The scene whose recall started a fade: its console index and name.
#[derive(Debug, Clone, PartialEq, Eq, Hash)]
pub struct FadeSceneIdentity {
    pub index: i32,
    pub name: String,
}

} // verus!
