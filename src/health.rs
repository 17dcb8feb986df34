use vstd::prelude::*;
use vstd::string::StringExecFns;

verus! {

/// The qualitative band of a health score.
#[derive(Debug, Clone, Copy, PartialEq, Eq, Structural)]
pub enum HealthLabel {
    /// The score lies strictly above the stable threshold.
    Stable,
    /// The score lies strictly above the drifting threshold, and not above the stable one.
    Drifting,
    /// The score lies at or below the drifting threshold.
    Volatile,
}

/// The band of a score, given whether it exceeds the stable threshold and whether
/// it exceeds the drifting threshold. A score equal to a threshold falls in the
/// lower band, so both tests are strict.
pub open spec fn band(above_stable: bool, above_drifting: bool) -> HealthLabel {
    if above_stable {
        HealthLabel::Stable
    } else if above_drifting {
        HealthLabel::Drifting
    } else {
        HealthLabel::Volatile
    }
}

impl HealthLabel {
    /// The band of a score from its two strict comparisons with the thresholds.
    pub fn classify(above_stable: bool, above_drifting: bool) -> (r: HealthLabel)
        ensures
            r == band(above_stable, above_drifting),
    {
        if above_stable {
            HealthLabel::Stable
        } else if above_drifting {
            HealthLabel::Drifting
        } else {
            HealthLabel::Volatile
        }
    }

    /// The word that names the band.
    pub open spec fn word(self) -> Seq<char> {
        match self {
            HealthLabel::Stable => "stable"@,
            HealthLabel::Drifting => "drifting"@,
            HealthLabel::Volatile => "volatile"@,
        }
    }

    /// The word that names the band, as a new string.
    pub fn label(&self) -> (r: String)
        ensures
            r@ == self.word(),
    {
        match self {
            HealthLabel::Stable => String::from_str("stable"),
            HealthLabel::Drifting => String::from_str("drifting"),
            HealthLabel::Volatile => String::from_str("volatile"),
        }
    }
}

} // verus!
