//! Data-quality scoring: which kind of source a factor came from, whether it
//! is a default estimate, the confidence band of an assessment, and the
//! weighting sets of the single score.
use vstd::prelude::*;
use crate::models::{ConfidenceLevel, WeightingMethod};
use crate::pedigree::PedigreeScore;
use crate::text::{contains, spec_contains};

verus! {

/// The kind of source a factor's source text names.
#[derive(Debug, Clone, Copy, PartialEq, Eq, Structural)]
pub enum SourceKind {
    CountrySpecific,
    Regional,
    Estimated,
    Global,
}

pub open spec fn spec_source_kind(source: Seq<char>) -> SourceKind {
    if spec_contains(source, "Ghana"@) || spec_contains(source, "Nigeria"@) {
        SourceKind::CountrySpecific
    } else if spec_contains(source, "Africa"@) {
        SourceKind::Regional
    } else if spec_contains(source, "Default"@) {
        SourceKind::Estimated
    } else {
        SourceKind::Global
    }
}

/// The kind of a source: country-specific where it names Ghana or Nigeria,
/// regional where it names Africa, estimated where it says `Default`, and
/// global otherwise.
pub fn classify_source(source: &str) -> (r: SourceKind)
    ensures
        r == spec_source_kind(source@),
{
    if contains(source, "Ghana") || contains(source, "Nigeria") {
        SourceKind::CountrySpecific
    } else if contains(source, "Africa") {
        SourceKind::Regional
    } else if contains(source, "Default") {
        SourceKind::Estimated
    } else {
        SourceKind::Global
    }
}

/// Whether a factor's source marks it as a default estimate. Such factors
/// are left out of the quality average and listed as data gaps by
/// `summarize_quality`.
pub fn is_default_estimate(source: &str) -> (r: bool)
    ensures
        r == spec_contains(source@, "Default estimate"@),
{
    contains(source, "Default estimate")
}

pub open spec fn spec_confidence_level(total_twentieths: int, count: int) -> ConfidenceLevel {
    if count <= 0 {
        ConfidenceLevel::VeryLow
    } else if total_twentieths > 14 * count {
        ConfidenceLevel::High
    } else if total_twentieths > 10 * count {
        ConfidenceLevel::Medium
    } else if total_twentieths > 6 * count {
        ConfidenceLevel::Low
    } else {
        ConfidenceLevel::VeryLow
    }
}

/// The confidence band of an assessment whose `count` quality scores add up
/// to `total_twentieths` twentieths. The average score `q` is
/// `total_twentieths / (20 * count)`, or 0 for no scores: above 0.7 is
/// `High`, above 0.5 `Medium`, above 0.3 `Low`, anything else `VeryLow`.
pub fn confidence_level(total_twentieths: i128, count: usize) -> (r: ConfidenceLevel)
    ensures
        r == spec_confidence_level(total_twentieths as int, count as int),
        count == 0 ==> r == ConfidenceLevel::VeryLow,
{
    let t = total_twentieths;
    let c = count as i128;
    if c == 0 {
        ConfidenceLevel::VeryLow
    } else if t > 14 * c {
        ConfidenceLevel::High
    } else if t > 10 * c {
        ConfidenceLevel::Medium
    } else if t > 6 * c {
        ConfidenceLevel::Low
    } else {
        ConfidenceLevel::VeryLow
    }
}

/// The rank of a band: `VeryLow` < `Low` < `Medium` < `High`.
pub open spec fn band_rank(c: ConfidenceLevel) -> int {
    match c {
        ConfidenceLevel::VeryLow => 0,
        ConfidenceLevel::Low => 1,
        ConfidenceLevel::Medium => 2,
        ConfidenceLevel::High => 3,
    }
}

/// The bands follow the average: of two sets of scores, the one with the
/// higher average is in a band at least as high.
pub proof fn confidence_follows_average(t1: int, c1: int, t2: int, c2: int)
    requires
        c1 > 0,
        c2 > 0,
        t1 * c2 <= t2 * c1,
    ensures
        band_rank(spec_confidence_level(t1, c1)) <= band_rank(spec_confidence_level(t2, c2)),
{
    assert(t1 > 14 * c1 ==> t2 > 14 * c2) by (nonlinear_arith)
        requires c1 > 0, c2 > 0, t1 * c2 <= t2 * c1;
    assert(t1 > 10 * c1 ==> t2 > 10 * c2) by (nonlinear_arith)
        requires c1 > 0, c2 > 0, t1 * c2 <= t2 * c1;
    assert(t1 > 6 * c1 ==> t2 > 6 * c2) by (nonlinear_arith)
        requires c1 > 0, c2 > 0, t1 * c2 <= t2 * c1;
}

/// The weights of the three endpoint categories (human health, ecosystem
/// quality, resource scarcity) in the single score, in thousandths; they
/// add up to 1000. African priorities weigh 400, 350, 250; equal weights,
/// and any other method, 333, 333, 334.
pub fn weights_permille(method: Option<WeightingMethod>) -> (r: [u32; 3])
    ensures
        r@[0] + r@[1] + r@[2] == 1000,
        method == Some(WeightingMethod::AfricanPriorities) ==> r@ == seq![400u32, 350, 250],
        method != Some(WeightingMethod::AfricanPriorities) ==> r@ == seq![333u32, 333, 334],
{
    let r = match method {
        Some(WeightingMethod::AfricanPriorities) => [400, 350, 250],
        _ => [333, 333, 334],
    };
    assert(r@ =~= seq![r@[0], r@[1], r@[2]]);
    r
}

/// The factor used for one item and impact category: its source and
/// pedigree.
#[derive(Debug, Clone)]
pub struct FactorUse {
    pub source: String,
    pub pedigree: PedigreeScore,
}

/// A factor use counts toward the quality average unless it is a default
/// estimate.
pub open spec fn spec_counted(u: FactorUse) -> bool {
    !spec_contains(u.source@, "Default estimate"@)
}

/// A counted factor use of quality under 0.5 (ten twentieths).
pub open spec fn spec_low_quality(u: FactorUse) -> bool {
    spec_counted(u) && u.pedigree.spec_quality_twentieths() < 10
}

/// The quality, in twentieths, of the counted uses.
pub open spec fn spec_total_twentieths(uses: Seq<FactorUse>) -> int
    decreases uses.len(),
{
    if uses.len() == 0 {
        0
    } else {
        spec_total_twentieths(uses.drop_last()) + if spec_counted(uses.last()) {
            uses.last().pedigree.spec_quality_twentieths()
        } else {
            0
        }
    }
}

/// The number of counted uses.
pub open spec fn spec_counted_uses(uses: Seq<FactorUse>) -> int
    decreases uses.len(),
{
    if uses.len() == 0 {
        0
    } else {
        spec_counted_uses(uses.drop_last()) + if spec_counted(uses.last()) { 1int } else { 0 }
    }
}

/// The positions, in order, of the default estimates among the uses.
pub open spec fn spec_gap_positions(uses: Seq<FactorUse>) -> Seq<usize>
    decreases uses.len(),
{
    if uses.len() == 0 {
        Seq::empty()
    } else if !spec_counted(uses.last()) {
        spec_gap_positions(uses.drop_last()).push((uses.len() - 1) as usize)
    } else {
        spec_gap_positions(uses.drop_last())
    }
}

/// The positions, in order, of the low-quality uses.
pub open spec fn spec_low_positions(uses: Seq<FactorUse>) -> Seq<usize>
    decreases uses.len(),
{
    if uses.len() == 0 {
        Seq::empty()
    } else if spec_low_quality(uses.last()) {
        spec_low_positions(uses.drop_last()).push((uses.len() - 1) as usize)
    } else {
        spec_low_positions(uses.drop_last())
    }
}

/// The data quality of a set of factor uses.
#[derive(Debug, Clone)]
pub struct QualitySummary {
    /// The quality of the counted uses, in twentieths, added up.
    pub total_twentieths: i128,
    /// How many uses are counted: every one but the default estimates.
    pub counted: usize,
    /// The positions of the default estimates: the data gaps.
    pub data_gaps: Vec<usize>,
    /// The positions of the counted uses whose quality is under 0.5.
    pub low_quality: Vec<usize>,
}

/// Sums the quality of the factor uses that are not default estimates,
/// counts them, and lists the data gaps and the low-quality uses by
/// position.
pub fn summarize_quality(uses: &Vec<FactorUse>) -> (r: QualitySummary)
    ensures
        r.total_twentieths == spec_total_twentieths(uses@),
        r.counted == spec_counted_uses(uses@),
        r.data_gaps@ == spec_gap_positions(uses@),
        r.low_quality@ == spec_low_positions(uses@),
{
    let mut total: i128 = 0;
    let mut counted: usize = 0;
    let mut data_gaps: Vec<usize> = Vec::new();
    let mut low_quality: Vec<usize> = Vec::new();
    let mut i: usize = 0;
    while i < uses.len()
        invariant
            0 <= i <= uses@.len(),
            total == spec_total_twentieths(uses@.subrange(0, i as int)),
            counted == spec_counted_uses(uses@.subrange(0, i as int)),
            -1250 * (i as int) <= total <= 25 * (i as int),
            counted <= i,
            data_gaps@ == spec_gap_positions(uses@.subrange(0, i as int)),
            low_quality@ == spec_low_positions(uses@.subrange(0, i as int)),
        decreases uses@.len() - i,
    {
        let ghost prefix = uses@.subrange(0, i as int);
        let ghost next = uses@.subrange(0, i + 1);
        proof {
            assert(next.drop_last() =~= prefix);
            assert(next.last() == uses@[i as int]);
        }
        let u = &uses[i];
        if !is_default_estimate(u.source.as_str()) {
            let q = u.pedigree.quality_twentieths();
            total = total + q as i128;
            counted = counted + 1;
            if q < 10 {
                low_quality.push(i);
            }
        } else {
            data_gaps.push(i);
        }
        i = i + 1;
    }
    proof {
        assert(uses@.subrange(0, uses@.len() as int) =~= uses@);
    }
    QualitySummary { total_twentieths: total, counted, data_gaps, low_quality }
}

} // verus!
