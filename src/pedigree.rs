//! The pedigree matrix: five ordinal ratings of a datum's quality, from 1
//! (best) to 5 (worst), and the quality score they give.
//!
//! The score is `1 - (sum - 5) / 20` where `sum` adds the five ratings. It is
//! held here exactly, in twentieths: `25 - sum`. Each rating also maps to
//! an uncertainty factor per axis, held in hundredths.
use vstd::prelude::*;

verus! {

#[derive(Debug, Clone, Copy, PartialEq, Eq, Structural)]
pub struct PedigreeScore {
    pub reliability: u8,
    pub completeness: u8,
    pub temporal_correlation: u8,
    pub geographical_correlation: u8,
    pub technological_correlation: u8,
}

pub open spec fn axis_in_range(a: u8) -> bool {
    1 <= a <= 5
}

impl PedigreeScore {
    /// Every rating lies between 1 and 5.
    pub open spec fn is_valid(self) -> bool {
        &&& axis_in_range(self.reliability)
        &&& axis_in_range(self.completeness)
        &&& axis_in_range(self.temporal_correlation)
        &&& axis_in_range(self.geographical_correlation)
        &&& axis_in_range(self.technological_correlation)
    }

    pub open spec fn spec_axis_sum(self) -> int {
        self.reliability as int + self.completeness as int + self.temporal_correlation as int
            + self.geographical_correlation as int + self.technological_correlation as int
    }

    /// The quality score in twentieths.
    pub open spec fn spec_quality_twentieths(self) -> int {
        25 - self.spec_axis_sum()
    }

    /// Every rating of `self` is at least as good as that of `other`.
    pub open spec fn no_worse_than(self, other: PedigreeScore) -> bool {
        &&& self.reliability <= other.reliability
        &&& self.completeness <= other.completeness
        &&& self.temporal_correlation <= other.temporal_correlation
        &&& self.geographical_correlation <= other.geographical_correlation
        &&& self.technological_correlation <= other.technological_correlation
    }

    /// The pedigree given to a default estimate: the worst rating on every
    /// axis.
    pub fn worst() -> (r: PedigreeScore)
        ensures
            r.reliability == 5,
            r.completeness == 5,
            r.temporal_correlation == 5,
            r.geographical_correlation == 5,
            r.technological_correlation == 5,
            r.is_valid(),
    {
        PedigreeScore {
            reliability: 5,
            completeness: 5,
            temporal_correlation: 5,
            geographical_correlation: 5,
            technological_correlation: 5,
        }
    }

    /// Whether every rating lies between 1 and 5.
    pub fn check_valid(&self) -> (r: bool)
        ensures
            r == self.is_valid(),
    {
        1 <= self.reliability && self.reliability <= 5
            && 1 <= self.completeness && self.completeness <= 5
            && 1 <= self.temporal_correlation && self.temporal_correlation <= 5
            && 1 <= self.geographical_correlation && self.geographical_correlation <= 5
            && 1 <= self.technological_correlation && self.technological_correlation <= 5
    }

    /// The sum of the five ratings.
    pub fn axis_sum(&self) -> (r: u16)
        ensures
            r == self.spec_axis_sum(),
    {
        self.reliability as u16 + self.completeness as u16 + self.temporal_correlation as u16
            + self.geographical_correlation as u16 + self.technological_correlation as u16
    }

    /// The overall quality score in twentieths, `25 - sum`: 20 (a score of
    /// 1.0) when every rating is 1, 0 when every rating is 5.
    pub fn quality_twentieths(&self) -> (r: i32)
        ensures
            r == self.spec_quality_twentieths(),
            self.is_valid() ==> 0 <= r <= 20,
    {
        25 - self.axis_sum() as i32
    }

    /// The uncertainty factor of each axis at its rating, in hundredths, in
    /// field order.
    pub fn uncertainty_factors_e2(&self) -> (r: [u32; 5])
        requires
            self.is_valid(),
        ensures
            r@[0] == spec_axis_factor_e2(0, self.reliability as int),
            r@[1] == spec_axis_factor_e2(1, self.completeness as int),
            r@[2] == spec_axis_factor_e2(2, self.temporal_correlation as int),
            r@[3] == spec_axis_factor_e2(3, self.geographical_correlation as int),
            r@[4] == spec_axis_factor_e2(4, self.technological_correlation as int),
    {
        [
            axis_factor_e2(0, self.reliability),
            axis_factor_e2(1, self.completeness),
            axis_factor_e2(2, self.temporal_correlation),
            axis_factor_e2(3, self.geographical_correlation),
            axis_factor_e2(4, self.technological_correlation),
        ]
    }
}

/// The uncertainty factor of one pedigree axis at one rating, in
/// hundredths. Axes are numbered in field order (reliability,
/// completeness, temporal, geographical, technological correlation); a
/// rating of 1 gives 100, a factor of 1.
pub open spec fn spec_axis_factor_e2(axis: int, rating: int) -> u32 {
    if axis == 0 {
        if rating == 1 {
            100
        } else if rating == 2 {
            105
        } else if rating == 3 {
            110
        } else if rating == 4 {
            120
        } else {
            150
        }
    } else if axis == 1 {
        if rating == 1 {
            100
        } else if rating == 2 {
            102
        } else if rating == 3 {
            105
        } else if rating == 4 {
            110
        } else {
            120
        }
    } else if axis == 2 {
        if rating == 1 {
            100
        } else if rating == 2 {
            103
        } else if rating == 3 {
            110
        } else if rating == 4 {
            120
        } else {
            150
        }
    } else if axis == 3 {
        if rating == 1 {
            100
        } else if rating == 2 {
            101
        } else if rating == 3 {
            102
        } else if rating == 4 {
            110
        } else {
            150
        }
    } else if axis == 4 {
        if rating == 1 {
            100
        } else if rating == 2 {
            105
        } else if rating == 3 {
            120
        } else if rating == 4 {
            150
        } else {
            200
        }
    } else {
        100
    }
}

fn axis_factor_e2(axis: usize, rating: u8) -> (r: u32)
    requires
        axis < 5,
        1 <= rating <= 5,
    ensures
        r == spec_axis_factor_e2(axis as int, rating as int),
{
    if axis == 0 {
        if rating == 1 {
            100
        } else if rating == 2 {
            105
        } else if rating == 3 {
            110
        } else if rating == 4 {
            120
        } else {
            150
        }
    } else if axis == 1 {
        if rating == 1 {
            100
        } else if rating == 2 {
            102
        } else if rating == 3 {
            105
        } else if rating == 4 {
            110
        } else {
            120
        }
    } else if axis == 2 {
        if rating == 1 {
            100
        } else if rating == 2 {
            103
        } else if rating == 3 {
            110
        } else if rating == 4 {
            120
        } else {
            150
        }
    } else if axis == 3 {
        if rating == 1 {
            100
        } else if rating == 2 {
            101
        } else if rating == 3 {
            102
        } else if rating == 4 {
            110
        } else {
            150
        }
    } else if axis == 4 {
        if rating == 1 {
            100
        } else if rating == 2 {
            105
        } else if rating == 3 {
            120
        } else if rating == 4 {
            150
        } else {
            200
        }
    } else {
        100
    }
}

/// Every axis's factor grows, or stays, as its rating worsens, and the best
/// rating adds no uncertainty: so the combined factor, a monotone function
/// of the five, never falls as a rating rises.
pub proof fn uncertainty_factors_grow_with_rating(axis: int, r1: int, r2: int)
    requires
        0 <= axis < 5,
        1 <= r1 <= r2 <= 5,
    ensures
        spec_axis_factor_e2(axis, r1) <= spec_axis_factor_e2(axis, r2),
        spec_axis_factor_e2(axis, 1) == 100,
{
}

/// With every rating at 1 the quality score is 1 (twenty twentieths); with
/// every rating at 5 it is 0.
pub proof fn quality_bounds(p: PedigreeScore)
    ensures
        p.reliability == 1 && p.completeness == 1 && p.temporal_correlation == 1
            && p.geographical_correlation == 1 && p.technological_correlation == 1
            ==> p.spec_quality_twentieths() == 20,
        p.reliability == 5 && p.completeness == 5 && p.temporal_correlation == 5
            && p.geographical_correlation == 5 && p.technological_correlation == 5
            ==> p.spec_quality_twentieths() == 0,
        p.is_valid() ==> 0 <= p.spec_quality_twentieths() <= 20,
{
}

/// The quality score falls strictly as ratings worsen: if no rating of `q`
/// is better than that of `p` and `q` differs from `p`, `q` scores lower.
/// In particular, raising any single rating lowers the score.
pub proof fn quality_decreases_as_ratings_worsen(p: PedigreeScore, q: PedigreeScore)
    requires
        p.no_worse_than(q),
        p != q,
    ensures
        q.spec_quality_twentieths() < p.spec_quality_twentieths(),
{
}

} // verus!
