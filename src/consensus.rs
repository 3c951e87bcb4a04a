use vstd::prelude::*;

use vstd::relations::{sorted_by, total_ordering};

use crate::admin::MasterInsuranceContract;
use crate::constants::CONSENSUS_MAX_AGE;
use crate::error::InsuranceError;
use crate::oracle::Oracle;

verus! {

/// What a set of oracle readings agrees on.
#[derive(Debug, Clone, Copy, PartialEq, Eq, Structural)]
pub struct ConsensusData {
    /// Mean of the contributing readings.
    pub aggregated_value: u64,
    /// Agreement between the readings, 0 to 100.
    pub confidence_score: u8,
    /// Number of contributing readings (saturating at 255).
    pub oracle_count: u8,
    /// When the consensus was computed.
    pub consensus_timestamp: i64,
    /// Median of the contributing readings.
    pub median_value: u64,
    /// Population standard deviation of the contributing readings.
    pub standard_deviation: u64,
}

/// Sum of a sequence of readings, as a mathematical integer.
pub open spec fn seq_sum(s: Seq<u64>) -> int
    decreases s.len(),
{
    if s.len() == 0 {
        0
    } else {
        seq_sum(s.drop_last()) + s.last()
    }
}

/// Integer (truncated) mean; zero for the empty sequence.
pub open spec fn mean_of(s: Seq<u64>) -> int {
    if s.len() == 0 {
        0
    } else {
        seq_sum(s) / (s.len() as int)
    }
}

/// Sum of squared deviations of the readings from `m`.
pub open spec fn sq_dev_sum(s: Seq<u64>, m: int) -> int
    decreases s.len(),
{
    if s.len() == 0 {
        0
    } else {
        sq_dev_sum(s.drop_last(), m) + (s.last() - m) * (s.last() - m)
    }
}

/// Population variance (integer): mean of squared deviations from the integer mean.
pub open spec fn variance_of(s: Seq<u64>) -> int {
    if s.len() == 0 {
        0
    } else {
        sq_dev_sum(s, mean_of(s)) / (s.len() as int)
    }
}

/// `r` is the integer square root of `n`: the largest integer whose square is at most `n`.
pub open spec fn is_isqrt(n: int, r: int) -> bool {
    0 <= r && r * r <= n && n < (r + 1) * (r + 1)
}

/// The integer square root of `n` (well defined for `n >= 0`, see `lemma_isqrt_unique`).
pub open spec fn isqrt(n: int) -> int {
    choose|r: int| is_isqrt(n, r)
}

/// Population standard deviation, as the integer square root of the integer variance.
pub open spec fn std_dev_of(s: Seq<u64>) -> int {
    isqrt(variance_of(s))
}

/// The integer square root is unique.
pub proof fn lemma_isqrt_unique(n: int, r1: int, r2: int)
    requires
        is_isqrt(n, r1),
        is_isqrt(n, r2),
    ensures
        r1 == r2,
{
    if r1 < r2 {
        assert((r1 + 1) * (r1 + 1) <= r2 * r2) by (nonlinear_arith)
            requires
                0 <= r1,
                r1 + 1 <= r2,
        ;
    } else if r2 < r1 {
        assert((r2 + 1) * (r2 + 1) <= r1 * r1) by (nonlinear_arith)
            requires
                0 <= r2,
                r2 + 1 <= r1,
        ;
    }
}

/// Any witness of `is_isqrt` is the value of `isqrt`.
pub proof fn lemma_isqrt_is(n: int, r: int)
    requires
        is_isqrt(n, r),
    ensures
        isqrt(n) == r,
{
    lemma_isqrt_unique(n, r, isqrt(n));
}

/// Every non-negative integer has an integer square root.
pub proof fn lemma_isqrt_exists(n: int)
    requires
        n >= 0,
    ensures
        exists|r: int| is_isqrt(n, r),
    decreases n,
{
    if n == 0 {
        assert(is_isqrt(0, 0));
    } else {
        let m = n - 1;
        lemma_isqrt_exists(m);
        let r = choose|r: int| is_isqrt(m, r);
        if (r + 1) * (r + 1) <= n {
            assert((r + 2) * (r + 2) > (r + 1) * (r + 1)) by (nonlinear_arith)
                requires
                    r >= 0,
            ;
            assert(is_isqrt(n, r + 1));
        } else {
            assert(is_isqrt(n, r));
        }
    }
}

proof fn lemma_seq_sum_nonneg(s: Seq<u64>)
    ensures
        seq_sum(s) >= 0,
    decreases s.len(),
{
    if s.len() > 0 {
        lemma_seq_sum_nonneg(s.drop_last());
    }
}

proof fn lemma_seq_sum_prefix_le(s: Seq<u64>, i: int)
    requires
        0 <= i <= s.len(),
    ensures
        seq_sum(s.take(i)) <= seq_sum(s),
    decreases s.len() - i,
{
    if i < s.len() {
        lemma_seq_sum_prefix_le(s, i + 1);
        assert(s.take(i + 1).drop_last() =~= s.take(i));
    } else {
        assert(s.take(i) =~= s);
    }
}

proof fn lemma_sq_dev_sum_nonneg(s: Seq<u64>, m: int)
    ensures
        sq_dev_sum(s, m) >= 0,
    decreases s.len(),
{
    if s.len() > 0 {
        lemma_sq_dev_sum_nonneg(s.drop_last(), m);
        let d = s.last() - m;
        assert(d * d >= 0) by (nonlinear_arith);
    }
}

proof fn lemma_sq_dev_sum_prefix_le(s: Seq<u64>, m: int, i: int)
    requires
        0 <= i <= s.len(),
    ensures
        sq_dev_sum(s.take(i), m) <= sq_dev_sum(s, m),
    decreases s.len() - i,
{
    if i < s.len() {
        lemma_sq_dev_sum_prefix_le(s, m, i + 1);
        assert(s.take(i + 1).drop_last() =~= s.take(i));
        let d = s[i] - m;
        assert(d * d >= 0) by (nonlinear_arith);
    } else {
        assert(s.take(i) =~= s);
    }
}

/// The mean of readings lies between zero and the largest representable reading.
proof fn lemma_mean_bounds(s: Seq<u64>)
    ensures
        0 <= mean_of(s) <= u64::MAX,
    decreases s.len(),
{
    lemma_seq_sum_nonneg(s);
    if s.len() > 0 {
        lemma_seq_sum_le_len_max(s);
        let n = s.len() as int;
        let t = seq_sum(s);
        assert(t / n <= u64::MAX) by (nonlinear_arith)
            requires
                0 <= t <= n * (u64::MAX as int),
                n > 0,
        ;
        assert(t / n >= 0) by (nonlinear_arith)
            requires
                0 <= t,
                n > 0,
        ;
    }
}

proof fn lemma_seq_sum_le_len_max(s: Seq<u64>)
    ensures
        seq_sum(s) <= s.len() * (u64::MAX as int),
    decreases s.len(),
{
    if s.len() > 0 {
        lemma_seq_sum_le_len_max(s.drop_last());
        assert(s.len() * (u64::MAX as int) == (s.len() - 1) * (u64::MAX as int) + (u64::MAX as int))
            by (nonlinear_arith);
    }
}

/// Sum of the readings, or `None` when it does not fit in a `u64`.
fn checked_sum(values: &[u64]) -> (r: Option<u64>)
    ensures
        r is Some <==> seq_sum(values@) <= u64::MAX,
        r is Some ==> r->Some_0 == seq_sum(values@),
{
    let mut acc: u64 = 0;
    let mut i: usize = 0;
    while i < values.len()
        invariant
            0 <= i <= values@.len(),
            acc == seq_sum(values@.take(i as int)),
        decreases values@.len() - i,
    {
        assert(values@.take(i as int + 1).drop_last() =~= values@.take(i as int));
        match acc.checked_add(values[i]) {
            Some(a) => {
                acc = a;
            },
            None => {
                proof {
                    lemma_seq_sum_prefix_le(values@, i as int + 1);
                }
                return None;
            },
        }
        i = i + 1;
    }
    assert(values@.take(i as int) =~= values@);
    Some(acc)
}

/// Sum of squared deviations from `mean`, or `None` when it does not fit in a `u64`.
fn checked_sq_dev_sum(values: &[u64], mean: u64) -> (r: Option<u64>)
    ensures
        r is Some <==> sq_dev_sum(values@, mean as int) <= u64::MAX,
        r is Some ==> r->Some_0 == sq_dev_sum(values@, mean as int),
{
    let mut acc: u64 = 0;
    let mut i: usize = 0;
    while i < values.len()
        invariant
            0 <= i <= values@.len(),
            acc == sq_dev_sum(values@.take(i as int), mean as int),
        decreases values@.len() - i,
    {
        assert(values@.take(i as int + 1).drop_last() =~= values@.take(i as int));
        let value = values[i];
        let diff: u64 = if value > mean {
            value - mean
        } else {
            mean - value
        };
        assert((diff as int) * (diff as int) == (value - mean) * (value - mean)) by (nonlinear_arith)
            requires
                diff as int == value - mean || diff as int == mean - value,
        ;
        assert((diff as int) * (diff as int) <= u128::MAX) by (nonlinear_arith)
            requires
                diff as int <= u64::MAX,
        ;
        let sq = (diff as u128) * (diff as u128);
        proof {
            lemma_sq_dev_sum_prefix_le(values@, mean as int, i as int + 1);
            lemma_sq_dev_sum_nonneg(values@.take(i as int), mean as int);
        }
        if sq > u64::MAX as u128 {
            return None;
        }
        match acc.checked_add(sq as u64) {
            Some(a) => {
                acc = a;
            },
            None => {
                return None;
            },
        }
        i = i + 1;
    }
    assert(values@.take(i as int) =~= values@);
    Some(acc)
}

/// The natural order on readings.
pub open spec fn u64_leq() -> spec_fn(u64, u64) -> bool {
    |a: u64, b: u64| a <= b
}

/// Median of an already sorted sequence: the middle element, or the truncated average of the
/// two middle elements for an even count; zero for the empty sequence.
pub open spec fn median_of_sorted(t: Seq<u64>) -> int {
    let n = t.len() as int;
    if n == 0 {
        0
    } else if n % 2 == 0 {
        (t[n / 2 - 1] + t[n / 2]) / 2
    } else {
        t[n / 2] as int
    }
}

/// Median of the readings, taken over their sorted order.
pub open spec fn median_of(s: Seq<u64>) -> int {
    median_of_sorted(s.sort_by(u64_leq()))
}

proof fn lemma_u64_leq_total()
    ensures
        total_ordering(u64_leq()),
{
}

/// A sorted permutation of the readings is their sorted order.
proof fn lemma_sorted_is_sort_by(s: Seq<u64>, t: Seq<u64>)
    requires
        sorted_by(t, u64_leq()),
        t.to_multiset() == s.to_multiset(),
    ensures
        t == s.sort_by(u64_leq()),
{
    lemma_u64_leq_total();
    s.lemma_sort_by_ensures(u64_leq());
    vstd::seq_lib::lemma_sorted_unique(t, s.sort_by(u64_leq()), u64_leq());
}

/// The readings in ascending order.
fn sorted_copy(values: &[u64]) -> (r: Vec<u64>)
    ensures
        sorted_by(r@, u64_leq()),
        r@.to_multiset() == values@.to_multiset(),
{
    let mut out: Vec<u64> = Vec::new();
    let mut i: usize = 0;
    assert(values@.take(0) =~= out@);
    while i < values.len()
        invariant
            0 <= i <= values@.len(),
            sorted_by(out@, u64_leq()),
            out@.to_multiset() == values@.take(i as int).to_multiset(),
        decreases values@.len() - i,
    {
        let x = values[i];
        let mut j: usize = 0;
        while j < out.len() && out[j] <= x
            invariant
                0 <= j <= out@.len(),
                forall|k: int| 0 <= k < j ==> out@[k] <= x,
            decreases out@.len() - j,
        {
            j = j + 1;
        }
        let ghost before = out@;
        out.insert(j, x);
        proof {
            assert(forall|k: int| j <= k < before.len() ==> x < before[k]) by {
                assert forall|k: int| j <= k < before.len() implies x < before[k] by {
                    assert(u64_leq()(before[j as int], before[k]));
                }
            }
            assert forall|a: int, b: int| 0 <= a < b < out@.len() implies #[trigger] u64_leq()(
                out@[a],
                out@[b],
            ) by {
                if b < j {
                    assert(u64_leq()(before[a], before[b]));
                } else if a < j && b == j {
                } else if a < j {
                    assert(u64_leq()(before[a], before[b - 1]));
                } else if a == j {
                } else {
                    assert(u64_leq()(before[a - 1], before[b - 1]));
                }
            }
            vstd::seq_lib::to_multiset_insert(before, j as int, x);
            assert(values@.take(i as int + 1) =~= values@.take(i as int).push(x));
            vstd::seq_lib::to_multiset_build(values@.take(i as int), x);
        }
        i = i + 1;
    }
    assert(values@.take(i as int) =~= values@);
    out
}

impl ConsensusData {
    /// Integer square root by binary search: the largest `r` with `r * r <= n`.
    pub fn integer_sqrt(n: u64) -> (r: u64)
        ensures
            is_isqrt(n as int, r as int),
            r == isqrt(n as int),
    {
        if n == 0 {
            proof {
                lemma_isqrt_is(0, 0);
            }
            return 0;
        }
        let mut left: u64 = 1;
        let mut right: u64 = n;
        let mut result: u64 = 0;
        assert((n as int + 1) * (n as int + 1) > n) by (nonlinear_arith);
        while left <= right
            invariant
                1 <= left <= right as int + 1,
                right <= n,
                result == left - 1,
                (result as int) * (result as int) <= n,
                (right as int + 1) * (right as int + 1) > n,
            decreases right as int + 1 - left,
        {
            let mid = left + (right - left) / 2;
            assert((mid as int) * (mid as int) <= u128::MAX) by (nonlinear_arith)
                requires
                    mid as int <= u64::MAX,
            ;
            if (mid as u128) * (mid as u128) <= n as u128 {
                assert(mid < u64::MAX) by (nonlinear_arith)
                    requires
                        (mid as int) * (mid as int) <= n,
                        n <= u64::MAX,
                        mid >= 1,
                ;
                result = mid;
                left = mid + 1;
            } else {
                right = mid - 1;
            }
        }
        proof {
            lemma_isqrt_is(n as int, result as int);
        }
        result
    }

    /// Median of the readings (see `median_of`).
    fn calculate_median(values: &[u64]) -> (r: u64)
        ensures
            r == median_of(values@),
    {
        if values.len() == 0 {
            proof {
                values@.lemma_sort_by_ensures(u64_leq());
                vstd::seq_lib::to_multiset_len(values@);
                vstd::seq_lib::to_multiset_len(values@.sort_by(u64_leq()));
            }
            return 0;
        }
        let sorted = sorted_copy(values);
        proof {
            lemma_sorted_is_sort_by(values@, sorted@);
            vstd::seq_lib::to_multiset_len(values@);
            vstd::seq_lib::to_multiset_len(sorted@);
        }
        let len = sorted.len();
        if len % 2 == 0 {
            let sum = sorted[len / 2 - 1] as u128 + sorted[len / 2] as u128;
            (sum / 2) as u64
        } else {
            sorted[len / 2]
        }
    }
}

/// The sums behind the mean and the variance of the readings fit in a `u64`.
pub open spec fn stats_fit_u64(s: Seq<u64>) -> bool {
    seq_sum(s) <= u64::MAX && sq_dev_sum(s, mean_of(s)) <= u64::MAX
}

/// The readings that lie in `[lo, hi]`, in their given order.
pub open spec fn within(s: Seq<u64>, lo: int, hi: int) -> Seq<u64>
    decreases s.len(),
{
    if s.len() == 0 {
        Seq::empty()
    } else {
        let r = within(s.drop_last(), lo, hi);
        if lo <= s.last() <= hi {
            r.push(s.last())
        } else {
            r
        }
    }
}

/// The readings after the two-sigma outlier filter: those within two standard deviations of
/// the mean are kept.
pub open spec fn outliers_removed(s: Seq<u64>) -> Seq<u64> {
    let m = mean_of(s);
    let d = 2 * std_dev_of(s);
    within(s, m - d, m + d)
}

/// Confidence score: `100 - min(100, stddev * 100 / mean)`, or 0 when there is no reading or the
/// mean is 0.
pub open spec fn confidence_of(s: Seq<u64>) -> int {
    let m = mean_of(s);
    if s.len() == 0 || m == 0 {
        0
    } else {
        let cv = std_dev_of(s) * 100 / m;
        if cv > 100 {
            0
        } else {
            100 - cv
        }
    }
}

/// The consensus record computed over the readings `s` at time `ts`.
pub open spec fn consensus_of(s: Seq<u64>, ts: i64) -> ConsensusData {
    ConsensusData {
        aggregated_value: mean_of(s) as u64,
        confidence_score: confidence_of(s) as u8,
        oracle_count: (if s.len() > 255 {
            255
        } else {
            s.len()
        }) as u8,
        consensus_timestamp: ts,
        median_value: median_of(s) as u64,
        standard_deviation: std_dev_of(s) as u64,
    }
}

/// Outcome of the consensus computation over fresh readings `s` with a minimum count `thr`.
pub open spec fn consensus_outcome(s: Seq<u64>, thr: int, ts: i64) -> Result<
    ConsensusData,
    InsuranceError,
> {
    if s.len() < thr {
        Err(InsuranceError::InsufficientOracles)
    } else if !stats_fit_u64(s) {
        Err(InsuranceError::MathOverflow)
    } else {
        let f = outliers_removed(s);
        if f.len() < thr {
            Err(InsuranceError::InsufficientOracles)
        } else if !stats_fit_u64(f) {
            Err(InsuranceError::MathOverflow)
        } else {
            Ok(consensus_of(f, ts))
        }
    }
}

proof fn lemma_variance_fits(s: Seq<u64>)
    requires
        stats_fit_u64(s),
    ensures
        0 <= variance_of(s) <= u64::MAX,
{
    lemma_sq_dev_sum_nonneg(s, mean_of(s));
    if s.len() > 0 {
        let n = s.len() as int;
        let t = sq_dev_sum(s, mean_of(s));
        assert(0 <= t / n <= t) by (nonlinear_arith)
            requires
                0 <= t,
                n > 0,
        ;
    }
}

proof fn lemma_std_dev_bounds(s: Seq<u64>)
    requires
        stats_fit_u64(s),
    ensures
        0 <= std_dev_of(s) < 0x1_0000_0000,
        is_isqrt(variance_of(s), std_dev_of(s)),
{
    lemma_variance_fits(s);
    let v = variance_of(s);
    let r = isqrt(v);
    lemma_isqrt_exists(v);
    assert(is_isqrt(v, r));
    assert(r < 0x1_0000_0000) by (nonlinear_arith)
        requires
            r * r <= v,
            v <= u64::MAX,
            0 <= r,
    ;
}

impl ConsensusData {
    /// Mean of the readings (zero for none).
    fn calculate_weighted_average(values: &[u64]) -> (r: u64)
        requires
            seq_sum(values@) <= u64::MAX,
        ensures
            r == mean_of(values@),
    {
        if values.len() == 0 {
            return 0;
        }
        proof {
            lemma_mean_bounds(values@);
        }
        match checked_sum(values) {
            Some(sum) => sum / values.len() as u64,
            None => 0,
        }
    }

    /// Standard deviation of the readings around their mean `mean`.
    fn calculate_standard_deviation(values: &[u64], mean: u64) -> (r: u64)
        requires
            stats_fit_u64(values@),
            mean == mean_of(values@),
        ensures
            r == std_dev_of(values@),
    {
        proof {
            lemma_std_dev_bounds(values@);
        }
        if values.len() <= 1 {
            proof {
                if values@.len() == 1 {
                    let s = values@;
                    assert(s.drop_last() =~= Seq::<u64>::empty());
                    assert(seq_sum(s.drop_last()) == 0);
                    assert(seq_sum(s) == s[0]);
                    assert(mean_of(s) == s[0]);
                    assert(s.last() == s[0]);
                    let m = mean_of(s);
                    assert(sq_dev_sum(s.drop_last(), m) == 0);
                    let d = s.last() - m;
                    assert(d == 0);
                    assert(d * d == 0) by (nonlinear_arith)
                        requires
                            d == 0,
                    ;
                    assert(sq_dev_sum(s, m) == sq_dev_sum(s.drop_last(), m) + (s.last() - m) * (
                    s.last() - m));
                }
                lemma_isqrt_is(0, 0);
            }
            return 0;
        }
        let variance = match checked_sq_dev_sum(values, mean) {
            Some(t) => t / values.len() as u64,
            None => 0,
        };
        Self::integer_sqrt(variance)
    }

    /// Confidence score of the readings, given their standard deviation `std_dev`.
    fn calculate_confidence_score(values: &[u64], std_dev: u64) -> (r: u8)
        requires
            stats_fit_u64(values@),
            std_dev == std_dev_of(values@),
        ensures
            r == confidence_of(values@),
    {
        if values.len() == 0 {
            return 0;
        }
        let mean = Self::calculate_weighted_average(values);
        if mean == 0 {
            return 0;
        }
        proof {
            lemma_std_dev_bounds(values@);
        }
        let coefficient_of_variation = (std_dev as u128 * 100) / mean as u128;
        if coefficient_of_variation > 100 {
            0
        } else {
            (100 - coefficient_of_variation) as u8
        }
    }

    /// Consensus record over the given readings, stamped with `timestamp`.
    pub fn from_oracle_values(values: &[u64], timestamp: i64) -> (r: Self)
        requires
            stats_fit_u64(values@),
        ensures
            r == consensus_of(values@, timestamp),
    {
        let oracle_count: u8 = if values.len() > 255 {
            255
        } else {
            values.len() as u8
        };
        let aggregated_value = Self::calculate_weighted_average(values);
        let median_value = Self::calculate_median(values);
        let standard_deviation = Self::calculate_standard_deviation(values, aggregated_value);
        let confidence_score = Self::calculate_confidence_score(values, standard_deviation);
        ConsensusData {
            aggregated_value,
            confidence_score,
            oracle_count,
            consensus_timestamp: timestamp,
            median_value,
            standard_deviation,
        }
    }
}

/// Drops readings that lie more than two standard deviations from the mean. Fails with
/// `MathOverflow` when the sums behind the mean and variance do not fit in a `u64`.
pub fn remove_outliers(values: &[u64]) -> (r: Result<Vec<u64>, InsuranceError>)
    ensures
        !stats_fit_u64(values@) ==> r == Err::<Vec<u64>, InsuranceError>(
            InsuranceError::MathOverflow,
        ),
        stats_fit_u64(values@) ==> r is Ok && r->Ok_0@ == outliers_removed(values@),
{
    if values.len() == 0 {
        assert(outliers_removed(values@) =~= Seq::<u64>::empty());
        return Ok(Vec::new());
    }
    let sum = match checked_sum(values) {
        Some(t) => t,
        None => {
            return Err(InsuranceError::MathOverflow);
        },
    };
    proof {
        lemma_mean_bounds(values@);
    }
    let mean = sum / values.len() as u64;
    let sq = match checked_sq_dev_sum(values, mean) {
        Some(t) => t,
        None => {
            return Err(InsuranceError::MathOverflow);
        },
    };
    let variance = sq / values.len() as u64;
    let std_dev = ConsensusData::integer_sqrt(variance);
    let threshold = 2 * (std_dev as u128);
    let ghost lo = mean - 2 * std_dev;
    let ghost hi = mean + 2 * std_dev;
    let mut filtered: Vec<u64> = Vec::new();
    let mut i: usize = 0;
    while i < values.len()
        invariant
            0 <= i <= values@.len(),
            threshold == 2 * std_dev,
            lo == mean - 2 * std_dev,
            hi == mean + 2 * std_dev,
            filtered@ == within(values@.take(i as int), lo, hi),
        decreases values@.len() - i,
    {
        let value = values[i];
        assert(values@.take(i as int + 1).drop_last() =~= values@.take(i as int));
        if value as u128 + threshold >= mean as u128 && value as u128 <= mean as u128 + threshold {
            filtered.push(value);
        }
        i = i + 1;
    }
    assert(values@.take(i as int) =~= values@);
    Ok(filtered)
}

/// Consensus over fresh readings: requires at least `min_threshold` readings before and after
/// the outlier filter.
pub fn compute_consensus(values: &[u64], min_threshold: u64, timestamp: i64) -> (r: Result<
    ConsensusData,
    InsuranceError,
>)
    ensures
        r == consensus_outcome(values@, min_threshold as int, timestamp),
        r matches Ok(c) ==> values@.len() >= min_threshold && outliers_removed(values@).len()
            >= min_threshold,
{
    if (values.len() as u128) < (min_threshold as u128) {
        return Err(InsuranceError::InsufficientOracles);
    }
    let filtered = match remove_outliers(values) {
        Ok(f) => f,
        Err(e) => {
            return Err(e);
        },
    };
    if (filtered.len() as u128) < (min_threshold as u128) {
        return Err(InsuranceError::InsufficientOracles);
    }
    let sum = match checked_sum(filtered.as_slice()) {
        Some(t) => t,
        None => {
            return Err(InsuranceError::MathOverflow);
        },
    };
    proof {
        lemma_mean_bounds(filtered@);
    }
    let mean = if filtered.len() == 0 {
        0
    } else {
        sum / filtered.len() as u64
    };
    if checked_sq_dev_sum(filtered.as_slice(), mean).is_none() {
        return Err(InsuranceError::MathOverflow);
    }
    Ok(ConsensusData::from_oracle_values(filtered.as_slice(), timestamp))
}

/// The oracle is active and holds a reading.
pub open spec fn is_reporting(o: Oracle) -> bool {
    o.is_active && o.latest_data is Some
}

/// Number of reporting oracles.
pub open spec fn reporting_count(s: Seq<Oracle>) -> int
    decreases s.len(),
{
    if s.len() == 0 {
        0
    } else {
        reporting_count(s.drop_last()) + if is_reporting(s.last()) {
            1int
        } else {
            0int
        }
    }
}

/// Values of the reporting oracles whose reading is at most ten minutes old at `now`, in order.
pub open spec fn fresh_values(s: Seq<Oracle>, now: i64) -> Seq<u64>
    decreases s.len(),
{
    if s.len() == 0 {
        Seq::empty()
    } else {
        let r = fresh_values(s.drop_last(), now);
        let o = s.last();
        if is_reporting(o) && now - o.latest_data->Some_0.timestamp <= CONSENSUS_MAX_AGE {
            r.push(o.latest_data->Some_0.value)
        } else {
            r
        }
    }
}

proof fn lemma_reporting_count_bound(s: Seq<Oracle>)
    ensures
        0 <= reporting_count(s) <= s.len(),
    decreases s.len(),
{
    if s.len() > 0 {
        lemma_reporting_count_bound(s.drop_last());
    }
}

/// Consensus over the registry's oracles at time `now`: at least the master contract's
/// threshold of oracles must be active with a reading; then the readings at most ten minutes
/// old go through `compute_consensus`.
pub fn get_consensus_data(
    master_contract: &MasterInsuranceContract,
    oracle_accounts: &[Oracle],
    now: i64,
) -> (r: Result<Option<ConsensusData>, InsuranceError>)
    ensures
        reporting_count(oracle_accounts@) < master_contract.min_consensus_threshold ==> r == Err::<
            Option<ConsensusData>,
            InsuranceError,
        >(InsuranceError::InsufficientOracles),
        reporting_count(oracle_accounts@) >= master_contract.min_consensus_threshold ==> r == match consensus_outcome(
            fresh_values(oracle_accounts@, now),
            master_contract.min_consensus_threshold as int,
            now,
        ) {
            Ok(c) => Ok::<Option<ConsensusData>, InsuranceError>(Some(c)),
            Err(e) => Err(e),
        },
{
    let mut active: usize = 0;
    let mut valid_values: Vec<u64> = Vec::new();
    let mut i: usize = 0;
    while i < oracle_accounts.len()
        invariant
            0 <= i <= oracle_accounts@.len(),
            active == reporting_count(oracle_accounts@.take(i as int)),
            valid_values@ == fresh_values(oracle_accounts@.take(i as int), now),
        decreases oracle_accounts@.len() - i,
    {
        proof {
            assert(oracle_accounts@.take(i as int + 1).drop_last() =~= oracle_accounts@.take(
                i as int,
            ));
            lemma_reporting_count_bound(oracle_accounts@.take(i as int));
        }
        let oracle = &oracle_accounts[i];
        if oracle.is_active {
            match &oracle.latest_data {
                Some(data) => {
                    active = active + 1;
                    if (now as i128) - (data.timestamp as i128) <= CONSENSUS_MAX_AGE as i128 {
                        valid_values.push(data.value);
                    }
                },
                None => {},
            }
        }
        i = i + 1;
    }
    assert(oracle_accounts@.take(i as int) =~= oracle_accounts@);
    if active < master_contract.min_consensus_threshold as usize {
        return Err(InsuranceError::InsufficientOracles);
    }
    match compute_consensus(valid_values.as_slice(), master_contract.min_consensus_threshold as u64, now) {
        Ok(c) => Ok(Some(c)),
        Err(e) => Err(e),
    }
}

/// Some active oracle has not updated for more than `timeout_seconds` at `now`.
pub open spec fn timed_out(s: Seq<Oracle>, timeout_seconds: i64, now: i64) -> bool {
    exists|i: int|
        0 <= i < s.len() && #[trigger] s[i].is_active && now - s[i].last_update_timestamp
            > timeout_seconds
}

/// True when some active oracle has been silent for more than `timeout_seconds` at `now`.
pub fn check_consensus_timeout(oracle_accounts: &[Oracle], timeout_seconds: i64, now: i64) -> (r:
    bool)
    ensures
        r == timed_out(oracle_accounts@, timeout_seconds, now),
{
    let mut i: usize = 0;
    while i < oracle_accounts.len()
        invariant
            0 <= i <= oracle_accounts@.len(),
            forall|k: int|
                0 <= k < i ==> !(#[trigger] oracle_accounts@[k].is_active && now
                    - oracle_accounts@[k].last_update_timestamp > timeout_seconds),
        decreases oracle_accounts@.len() - i,
    {
        let oracle = &oracle_accounts[i];
        if oracle.is_active && (now as i128) - (oracle.last_update_timestamp as i128)
            > timeout_seconds as i128 {
            assert(oracle_accounts@[i as int].is_active);
            return true;
        }
        i = i + 1;
    }
    false
}

/// Fails unless the consensus has at least `min_confidence` confidence
/// (`OracleConsensusFailure`) and at least `min_oracles` contributors (`InsufficientOracles`).
pub fn validate_consensus_requirements(
    consensus: &ConsensusData,
    min_confidence: u8,
    min_oracles: u8,
) -> (r: Result<bool, InsuranceError>)
    ensures
        r == if consensus.confidence_score < min_confidence {
            Err(InsuranceError::OracleConsensusFailure)
        } else if consensus.oracle_count < min_oracles {
            Err(InsuranceError::InsufficientOracles)
        } else {
            Ok::<bool, InsuranceError>(true)
        },
{
    if consensus.confidence_score < min_confidence {
        return Err(InsuranceError::OracleConsensusFailure);
    }
    if consensus.oracle_count < min_oracles {
        return Err(InsuranceError::InsufficientOracles);
    }
    Ok(true)
}

} // verus!
