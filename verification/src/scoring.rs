//! Hit points awarded per destroyed entity.

use crate::asteroid::AsteroidSize;
use crate::config::{
    ASTEROID_SCORE_HIT_POINTS_BIG, ASTEROID_SCORE_HIT_POINTS_MEDIUM,
    ASTEROID_SCORE_HIT_POINTS_SMALL, GUARDIAN_SCORE_HIT_POINTS_BIG,
    GUARDIAN_SCORE_HIT_POINTS_MEDIUM, GUARDIAN_SCORE_HIT_POINTS_SMALL,
};
use crate::guardian::GuardianSize;
use vstd::prelude::*;

verus! {

/// What was destroyed.
pub enum Score {
    Guardian(GuardianSize),
    Asteroid(AsteroidSize),
}

impl Score {
    /// The hit points of the table: the smaller the target, the more points.
    pub open spec fn spec_score(self) -> u32 {
        match self {
            Score::Guardian(GuardianSize::Big) => GUARDIAN_SCORE_HIT_POINTS_BIG,
            Score::Guardian(GuardianSize::Medium) => GUARDIAN_SCORE_HIT_POINTS_MEDIUM,
            Score::Guardian(GuardianSize::Small) => GUARDIAN_SCORE_HIT_POINTS_SMALL,
            Score::Asteroid(AsteroidSize::Big) => ASTEROID_SCORE_HIT_POINTS_BIG,
            Score::Asteroid(AsteroidSize::Medium) => ASTEROID_SCORE_HIT_POINTS_MEDIUM,
            Score::Asteroid(AsteroidSize::Small) => ASTEROID_SCORE_HIT_POINTS_SMALL,
        }
    }

    #[verifier::when_used_as_spec(spec_score)]
    pub fn score(self) -> (points: u32)
        ensures
            points == self.spec_score(),
    {
        match self {
            Self::Guardian(size) => match size {
                GuardianSize::Big => GUARDIAN_SCORE_HIT_POINTS_BIG,
                GuardianSize::Medium => GUARDIAN_SCORE_HIT_POINTS_MEDIUM,
                GuardianSize::Small => GUARDIAN_SCORE_HIT_POINTS_SMALL,
            },
            Self::Asteroid(size) => match size {
                AsteroidSize::Big => ASTEROID_SCORE_HIT_POINTS_BIG,
                AsteroidSize::Medium => ASTEROID_SCORE_HIT_POINTS_MEDIUM,
                AsteroidSize::Small => ASTEROID_SCORE_HIT_POINTS_SMALL,
            },
        }
    }
}

} // verus!
