//! Configuration of the adaptive ARIMA trading strategy and its presets,
//! and the candidate model orders it tries. The number of concurrent
//! forecasts follows the number of CPUs of the machine; each preset is
//! also offered for a given CPU count.

use vstd::prelude::*;
use crate::float_bits::{
    f64_le, le, F0_001, F0_002, F0_005, F0_01, F0_02, F0_03, F0_05, F0_85, F0_9, F0_95, F0_99, F1_5, F2_0, F2_5, F3_0,
};
use crate::outside::cpu_count;

verus! {

/// Configuration for ARIMA strategy; thresholds, factors and levels are
/// doubles held as bit patterns.
#[derive(Debug, Clone)]
pub struct ArimaStrategyConfig {
    /// AR order (autoregressive)
    pub p: usize,
    /// Integration order (differencing)
    pub d: usize,
    /// MA order (moving average)
    pub q: usize,
    /// Base signal threshold for trading decisions
    pub threshold: u64,
    /// Minimum number of data points required
    pub min_data_points: usize,
    /// Number of steps to forecast ahead
    pub forecast_horizon: usize,
    /// Confidence threshold for signal generation
    pub forecast_confidence: u64,
    /// Enable volatility-adjusted thresholds
    pub dynamic_threshold: bool,
    /// Periods for volatility calculation (20-50)
    pub volatility_lookback: usize,
    /// Volatility adjustment factor (1.5-3.0)
    pub volatility_multiplier: u64,
    /// Minimum threshold bound (0.002-0.005)
    pub min_threshold: u64,
    /// Maximum threshold bound (0.02-0.05)
    pub max_threshold: u64,
    /// Enable automatic ARIMA order selection
    pub model_selection: bool,
    /// Maximum AR order to test (3-5)
    pub max_p: usize,
    /// Maximum MA order to test (3-5)
    pub max_q: usize,
    /// Enable outlier handling
    pub outlier_detection: bool,
    /// IQR multiplier for outliers (2.0-3.0)
    pub outlier_threshold: u64,
    /// Generate prediction intervals
    pub confidence_intervals: bool,
    /// Confidence level (0.95)
    pub confidence_level: u64,
    /// Number of models to ensemble (3-7)
    pub ensemble_models: usize,
    /// Require trend confirmation
    pub trend_confirmation: bool,
    /// Apply momentum-based filters
    pub momentum_filter: bool,
    /// Enable regime detection
    pub regime_detection: bool,
    /// Enable adaptive refitting
    pub adaptive_refit: bool,
    /// Base refit frequency
    pub refit_frequency: usize,
    /// Enable async/parallel forecasting
    pub enable_parallel_processing: bool,
    /// Maximum concurrent forecast tasks
    pub max_concurrent_forecasts: usize,
    /// Enable parallel ensemble processing
    pub parallel_ensemble: bool,
    /// Timeout for individual forecasts, in seconds
    pub forecast_timeout_secs: u64,
}

/// The default configuration on a machine with `cpus` CPUs: at least four
/// concurrent forecasts.
pub open spec fn spec_default_config(cpus: usize) -> ArimaStrategyConfig {
    ArimaStrategyConfig {
        p: 2,
        d: 1,
        q: 2,
        threshold: F0_01,
        min_data_points: 120,
        forecast_horizon: 1,
        forecast_confidence: F0_85,
        dynamic_threshold: true,
        volatility_lookback: 30,
        volatility_multiplier: F2_0,
        min_threshold: F0_005,
        max_threshold: F0_03,
        model_selection: true,
        max_p: 5,
        max_q: 5,
        outlier_detection: true,
        outlier_threshold: F2_5,
        confidence_intervals: true,
        confidence_level: F0_95,
        ensemble_models: 3,
        trend_confirmation: true,
        momentum_filter: true,
        regime_detection: true,
        adaptive_refit: true,
        refit_frequency: 50,
        enable_parallel_processing: true,
        max_concurrent_forecasts: if cpus >= 4 { cpus } else { 4 },
        parallel_ensemble: true,
        forecast_timeout_secs: 30,
    }
}

/// The high-frequency configuration on a machine with `cpus` CPUs: twice
/// as many concurrent forecasts as CPUs (wrapping around on overflow).
pub open spec fn spec_high_frequency_config(cpus: usize) -> ArimaStrategyConfig {
    ArimaStrategyConfig {
        p: 1,
        d: 0,
        q: 1,
        threshold: F0_002,
        min_data_points: 50,
        forecast_horizon: 1,
        forecast_confidence: F0_9,
        dynamic_threshold: true,
        volatility_lookback: 20,
        volatility_multiplier: F3_0,
        min_threshold: F0_001,
        max_threshold: F0_01,
        model_selection: false,
        max_p: 2,
        max_q: 2,
        outlier_detection: true,
        outlier_threshold: F2_0,
        confidence_intervals: false,
        confidence_level: F0_95,
        ensemble_models: 1,
        trend_confirmation: false,
        momentum_filter: false,
        regime_detection: false,
        adaptive_refit: true,
        refit_frequency: 20,
        enable_parallel_processing: true,
        max_concurrent_forecasts: cpus.wrapping_mul(2),
        parallel_ensemble: false,
        forecast_timeout_secs: 5,
    }
}

/// The conservative configuration on a machine with `cpus` CPUs: at most
/// four concurrent forecasts.
pub open spec fn spec_conservative_config(cpus: usize) -> ArimaStrategyConfig {
    ArimaStrategyConfig {
        p: 3,
        d: 1,
        q: 3,
        threshold: F0_02,
        min_data_points: 200,
        forecast_horizon: 1,
        forecast_confidence: F0_9,
        dynamic_threshold: true,
        volatility_lookback: 60,
        volatility_multiplier: F1_5,
        min_threshold: F0_01,
        max_threshold: F0_05,
        model_selection: true,
        max_p: 5,
        max_q: 5,
        outlier_detection: true,
        outlier_threshold: F3_0,
        confidence_intervals: true,
        confidence_level: F0_99,
        ensemble_models: 5,
        trend_confirmation: true,
        momentum_filter: true,
        regime_detection: true,
        adaptive_refit: true,
        refit_frequency: 100,
        enable_parallel_processing: true,
        max_concurrent_forecasts: if cpus <= 4 { cpus } else { 4 },
        parallel_ensemble: true,
        forecast_timeout_secs: 60,
    }
}

impl ArimaStrategyConfig {
    /// Default configuration for a machine with `cpus` CPUs
    pub fn default_for_cpus(cpus: usize) -> (r: Self)
        ensures
            r == spec_default_config(cpus),
    {
        Self {
            p: 2,
            d: 1,
            q: 2,
            threshold: F0_01,
            min_data_points: 120,
            forecast_horizon: 1,
            forecast_confidence: F0_85,
            dynamic_threshold: true,
            volatility_lookback: 30,
            volatility_multiplier: F2_0,
            min_threshold: F0_005,
            max_threshold: F0_03,
            model_selection: true,
            max_p: 5,
            max_q: 5,
            outlier_detection: true,
            outlier_threshold: F2_5,
            confidence_intervals: true,
            confidence_level: F0_95,
            ensemble_models: 3,
            trend_confirmation: true,
            momentum_filter: true,
            regime_detection: true,
            adaptive_refit: true,
            refit_frequency: 50,
            enable_parallel_processing: true,
            max_concurrent_forecasts: if cpus >= 4 { cpus } else { 4 },
            parallel_ensemble: true,
            forecast_timeout_secs: 30,
        }
    }

    /// Configuration optimized for high-frequency trading on a machine with
    /// `cpus` CPUs
    pub fn high_frequency_for_cpus(cpus: usize) -> (r: Self)
        ensures
            r == spec_high_frequency_config(cpus),
    {
        Self {
            p: 1,
            d: 0,
            q: 1,
            threshold: F0_002,
            min_data_points: 50,
            forecast_horizon: 1,
            forecast_confidence: F0_9,
            dynamic_threshold: true,
            volatility_lookback: 20,
            volatility_multiplier: F3_0,
            min_threshold: F0_001,
            max_threshold: F0_01,
            model_selection: false,
            max_p: 2,
            max_q: 2,
            outlier_detection: true,
            outlier_threshold: F2_0,
            confidence_intervals: false,
            confidence_level: F0_95,
            ensemble_models: 1,
            trend_confirmation: false,
            momentum_filter: false,
            regime_detection: false,
            adaptive_refit: true,
            refit_frequency: 20,
            enable_parallel_processing: true,
            max_concurrent_forecasts: cpus.wrapping_mul(2),
            parallel_ensemble: false,
            forecast_timeout_secs: 5,
        }
    }

    /// Conservative configuration for stable long-term trading on a machine
    /// with `cpus` CPUs
    pub fn conservative_for_cpus(cpus: usize) -> (r: Self)
        ensures
            r == spec_conservative_config(cpus),
    {
        Self {
            p: 3,
            d: 1,
            q: 3,
            threshold: F0_02,
            min_data_points: 200,
            forecast_horizon: 1,
            forecast_confidence: F0_9,
            dynamic_threshold: true,
            volatility_lookback: 60,
            volatility_multiplier: F1_5,
            min_threshold: F0_01,
            max_threshold: F0_05,
            model_selection: true,
            max_p: 5,
            max_q: 5,
            outlier_detection: true,
            outlier_threshold: F3_0,
            confidence_intervals: true,
            confidence_level: F0_99,
            ensemble_models: 5,
            trend_confirmation: true,
            momentum_filter: true,
            regime_detection: true,
            adaptive_refit: true,
            refit_frequency: 100,
            enable_parallel_processing: true,
            max_concurrent_forecasts: if cpus <= 4 { cpus } else { 4 },
            parallel_ensemble: true,
            forecast_timeout_secs: 60,
        }
    }

    /// Create configuration optimized for high-frequency trading: twice as
    /// many concurrent forecasts as the machine has CPUs
    pub fn high_frequency() -> (r: Self)
        ensures
            exists|cpus: usize| cpus >= 1 && r == spec_high_frequency_config(cpus),
    {
        let cpus = cpu_count();
        Self::high_frequency_for_cpus(cpus)
    }

    /// Create conservative configuration for stable long-term trading: as
    /// many concurrent forecasts as the machine has CPUs, four at most
    pub fn conservative() -> (r: Self)
        ensures
            exists|cpus: usize| cpus >= 1 && r == spec_conservative_config(cpus),
    {
        let cpus = cpu_count();
        Self::conservative_for_cpus(cpus)
    }
}

impl Default for ArimaStrategyConfig {
    /// The default configuration: as many concurrent forecasts as the
    /// machine has CPUs, four at least
    fn default() -> (r: Self)
        ensures
            exists|cpus: usize| cpus >= 1 && r == spec_default_config(cpus),
    {
        let cpus = cpu_count();
        Self::default_for_cpus(cpus)
    }
}

/// An ARIMA model order: (p, d, q).
pub type ArimaOrder = (usize, usize, usize);

/// Lexicographic order on model orders.
pub open spec fn order_lt(a: ArimaOrder, b: ArimaOrder) -> bool {
    ||| a.0 < b.0
    ||| a.0 == b.0 && a.1 < b.1
    ||| a.0 == b.0 && a.1 == b.1 && a.2 < b.2
}

/// Orders listed in strictly increasing order, hence each at most once.
pub open spec fn strictly_increasing(s: Seq<ArimaOrder>) -> bool {
    forall|i: int, j: int| 0 <= i < j < s.len() ==> order_lt(#[trigger] s[i], #[trigger] s[j])
}

/// The orders worth trying around `base`: the base itself, its neighbours
/// one step down or up in p and in q (within 0..=max_p and 0..=max_q), and
/// a few common orders.
pub open spec fn candidate_list(base: ArimaOrder, max_p: usize, max_q: usize) -> Seq<ArimaOrder> {
    let (p, d, q) = base;
    let s0 = seq![base];
    let s1 = if p > 0 { s0.push(((p - 1) as usize, d, q)) } else { s0 };
    let s2 = if q > 0 { s1.push((p, d, (q - 1) as usize)) } else { s1 };
    let s3 = if p < max_p { s2.push(((p + 1) as usize, d, q)) } else { s2 };
    let s4 = if q < max_q { s3.push((p, d, (q + 1) as usize)) } else { s3 };
    s4 + common_orders()
}

/// Common orders always worth trying: ARIMA(1,1,1), AR(2) with MA(1), AR(1)
/// with MA(2), AR(2) with MA(2), MA(1) alone and AR(1) alone.
pub open spec fn common_orders() -> Seq<ArimaOrder> {
    seq![(1usize, 1usize, 1usize), (2, 1, 1), (1, 1, 2), (2, 1, 2), (0, 1, 1), (1, 1, 0)]
}

/// The orders worth trying around `base = (p, d, q)` are exactly: the base
/// itself; `(p - 1, d, q)` when `p > 0`; `(p, d, q - 1)` when `q > 0`;
/// `(p + 1, d, q)` when `p < max_p`; `(p, d, q + 1)` when `q < max_q`; and
/// the six common orders (1,1,1), (2,1,1), (1,1,2), (2,1,2), (0,1,1),
/// (1,1,0). There are at most eleven of them.
pub proof fn lemma_candidate_list_members(base: ArimaOrder, max_p: usize, max_q: usize)
    ensures
        candidate_list(base, max_p, max_q).len() <= 11,
        forall|x: ArimaOrder| #[trigger] candidate_list(base, max_p, max_q).contains(x) <==> {
            let (p, d, q) = base;
            ||| x == base
            ||| p > 0 && x == ((p - 1) as usize, d, q)
            ||| q > 0 && x == (p, d, (q - 1) as usize)
            ||| p < max_p && x == ((p + 1) as usize, d, q)
            ||| q < max_q && x == (p, d, (q + 1) as usize)
            ||| x == (1usize, 1usize, 1usize) || x == (2usize, 1usize, 1usize) || x == (1usize, 1usize, 2usize)
            ||| x == (2usize, 1usize, 2usize) || x == (0usize, 1usize, 1usize) || x == (1usize, 1usize, 0usize)
        },
{
    let (p, d, q) = base;
    let all = candidate_list(base, max_p, max_q);
    let c = common_orders();
    assert(c[0] == (1usize, 1usize, 1usize) && c[1] == (2usize, 1usize, 1usize) && c[2] == (1usize, 1usize, 2usize));
    assert(c[3] == (2usize, 1usize, 2usize) && c[4] == (0usize, 1usize, 1usize) && c[5] == (1usize, 1usize, 0usize));
    let s0 = seq![base];
    let s1 = if p > 0 { s0.push(((p - 1) as usize, d, q)) } else { s0 };
    let s2 = if q > 0 { s1.push((p, d, (q - 1) as usize)) } else { s1 };
    let s3 = if p < max_p { s2.push(((p + 1) as usize, d, q)) } else { s2 };
    let s4 = if q < max_q { s3.push((p, d, (q + 1) as usize)) } else { s3 };
    assert(all == s4 + c);
    assert forall|x: ArimaOrder| #[trigger] all.contains(x) <==> {
        ||| x == base
        ||| p > 0 && x == ((p - 1) as usize, d, q)
        ||| q > 0 && x == (p, d, (q - 1) as usize)
        ||| p < max_p && x == ((p + 1) as usize, d, q)
        ||| q < max_q && x == (p, d, (q + 1) as usize)
        ||| x == (1usize, 1usize, 1usize) || x == (2usize, 1usize, 1usize) || x == (1usize, 1usize, 2usize)
        ||| x == (2usize, 1usize, 2usize) || x == (0usize, 1usize, 1usize) || x == (1usize, 1usize, 0usize)
    } by {
        if all.contains(x) {
            let k = choose|k: int| 0 <= k < all.len() && all[k] == x;
            if k >= s4.len() {
                assert(all[k] == c[k - s4.len()]);
            } else {
                assert(all[k] == s4[k]);
            }
        } else {
            assert(all[0] == base);
            if p > 0 && x == ((p - 1) as usize, d, q) {
                assert(all[1] == x);
            }
            if q > 0 && x == (p, d, (q - 1) as usize) {
                assert(all[s2.len() - 1] == x);
            }
            if p < max_p && x == ((p + 1) as usize, d, q) {
                assert(all[s3.len() - 1] == x);
            }
            if q < max_q && x == (p, d, (q + 1) as usize) {
                assert(all[s4.len() - 1] == x);
            }
            assert(all[s4.len() as int + 0] == c[0]);
            assert(all[s4.len() as int + 1] == c[1]);
            assert(all[s4.len() as int + 2] == c[2]);
            assert(all[s4.len() as int + 3] == c[3]);
            assert(all[s4.len() as int + 4] == c[4]);
            assert(all[s4.len() as int + 5] == c[5]);
        }
    }
}

/// `a` comes before `b` in lexicographic order.
fn order_less(a: ArimaOrder, b: ArimaOrder) -> (r: bool)
    ensures
        r == order_lt(a, b),
{
    a.0 < b.0 || (a.0 == b.0 && a.1 < b.1) || (a.0 == b.0 && a.1 == b.1 && a.2 < b.2)
}

/// Adds `x` to a strictly increasing list unless it is there already.
fn insert_ordered(v: &mut Vec<ArimaOrder>, x: ArimaOrder)
    requires
        strictly_increasing(old(v)@),
    ensures
        strictly_increasing(final(v)@),
        forall|y: ArimaOrder| final(v)@.contains(y) <==> (old(v)@.contains(y) || y == x),
{
    let n = v.len();
    let mut j: usize = 0;
    while j < n && order_less(v[j], x)
        invariant
            n == v@.len(),
            j <= n,
            v@ == old(v)@,
            strictly_increasing(v@),
            forall|i: int| 0 <= i < j ==> order_lt(#[trigger] v@[i], x),
        decreases n - j,
    {
        j = j + 1;
    }
    if j < n {
        let (a, b, c) = v[j];
        if a == x.0 && b == x.1 && c == x.2 {
            return;
        }
    }
    let ghost before = v@;
    v.insert(j, x);
    proof {
        let after = v@;
        assert(after == before.insert(j as int, x));
        assert forall|a: int, b: int| 0 <= a < b < after.len() implies order_lt(#[trigger] after[a], #[trigger] after[b]) by {
            if b < j {
            } else if b == j {
            } else if a < j {
                assert(after[b] == before[b - 1]);
            } else if a == j {
                assert(after[b] == before[b - 1]);
                assert(!order_lt(before[j as int], x));
                if b - 1 > j {
                    assert(order_lt(before[j as int], before[b - 1]));
                }
            } else {
                assert(after[a] == before[a - 1]);
                assert(after[b] == before[b - 1]);
            }
        }
        assert forall|y: ArimaOrder| after.contains(y) <==> (before.contains(y) || y == x) by {
            if after.contains(y) {
                let k = choose|k: int| 0 <= k < after.len() && after[k] == y;
                if k < j {
                    assert(before[k] == y);
                } else if k > j {
                    assert(before[k - 1] == y);
                }
            }
            if before.contains(y) {
                let k = choose|k: int| 0 <= k < before.len() && before[k] == y;
                if k < j {
                    assert(after[k] == y);
                } else {
                    assert(after[k + 1] == y);
                }
            }
            if y == x {
                assert(after[j as int] == x);
            }
        }
    }
}

/// The distinct orders of `items`, in increasing order.
fn sorted_distinct(items: &Vec<ArimaOrder>) -> (r: Vec<ArimaOrder>)
    ensures
        strictly_increasing(r@),
        forall|y: ArimaOrder| r@.contains(y) <==> items@.contains(y),
{
    let mut sorted: Vec<ArimaOrder> = Vec::new();
    let n = items.len();
    let mut i: usize = 0;
    while i < n
        invariant
            n == items@.len(),
            i <= n,
            strictly_increasing(sorted@),
            forall|y: ArimaOrder| sorted@.contains(y) <==> items@.take(i as int).contains(y),
        decreases n - i,
    {
        insert_ordered(&mut sorted, items[i]);
        proof {
            let next = items@.take(i + 1);
            assert(next =~= items@.take(i as int).push(items@[i as int]));
            assert forall|y: ArimaOrder| sorted@.contains(y) <==> next.contains(y) by {
                if y == items@[i as int] {
                    assert(next[i as int] == y);
                }
                if next.contains(y) {
                    let k = choose|k: int| 0 <= k < next.len() && next[k] == y;
                    if k < i {
                        assert(items@.take(i as int)[k] == y);
                    }
                }
            }
        }
        i = i + 1;
    }
    assert(items@.take(n as int) =~= items@);
    sorted
}

/// An element of an increasing list that its first `k` elements leave out
/// lies beyond all `k` of them, and the list is longer than `k`.
proof fn lemma_prefix_of_increasing(full: Seq<ArimaOrder>, k: nat, x: ArimaOrder)
    requires
        strictly_increasing(full),
        full.contains(x),
        !full.subrange(0, if k <= full.len() { k as int } else { full.len() as int }).contains(x),
    ensures
        k < full.len(),
        forall|i: int| 0 <= i < k ==> order_lt(#[trigger] full[i], x),
{
    let m = choose|m: int| 0 <= m < full.len() && full[m] == x;
    let kept = full.subrange(0, if k <= full.len() { k as int } else { full.len() as int });
    if m < kept.len() {
        assert(kept[m] == x);
    }
    assert forall|i: int| 0 <= i < k implies order_lt(#[trigger] full[i], x) by {
        assert(i < m);
    }
}

/// A list without repeats, drawn from `all` and missing `x` of it, is
/// shorter than `all`.
proof fn lemma_room_for_all(r: Seq<ArimaOrder>, all: Seq<ArimaOrder>, x: ArimaOrder)
    requires
        strictly_increasing(r),
        forall|y: ArimaOrder| #[trigger] r.contains(y) ==> all.contains(y),
        all.contains(x),
        !r.contains(x),
    ensures
        r.len() < all.len(),
{
    broadcast use vstd::set::group_set_axioms;
    assert(r.no_duplicates()) by {
        assert forall|i: int, j: int| 0 <= i < r.len() && 0 <= j < r.len() && i != j implies r[i] != r[j] by {
            if i < j {
                assert(order_lt(r[i], r[j]));
            } else {
                assert(order_lt(r[j], r[i]));
            }
        }
    }
    r.unique_seq_to_set();
    let sa = all.to_set();
    all.lemma_cardinality_of_set();
    assert(sa.contains(x));
    assert(r.to_set().subset_of(sa.remove(x))) by {
        assert forall|y: ArimaOrder| r.to_set().contains(y) implies sa.remove(x).contains(y) by {
            assert(r.contains(y));
            assert(all.contains(y));
        }
    }
    vstd::set_lib::lemma_len_subset(r.to_set(), sa.remove(x));
}

impl ArimaStrategyConfig {
    /// The orders of `candidate_list`, as a vector.
    fn candidates_around(&self, base_order: ArimaOrder) -> (r: Vec<ArimaOrder>)
        ensures
            r@ == candidate_list(base_order, self.max_p, self.max_q),
    {
        let (p, d, q) = base_order;
        let mut candidates: Vec<ArimaOrder> = Vec::new();
        candidates.push(base_order);
        let ghost s0 = candidates@;
        assert(s0 =~= seq![base_order]);
        if p > 0 {
            candidates.push((p - 1, d, q));
        }
        let ghost s1 = candidates@;
        assert(s1 == if p > 0 { s0.push(((p - 1) as usize, d, q)) } else { s0 });
        if q > 0 {
            candidates.push((p, d, q - 1));
        }
        let ghost s2 = candidates@;
        assert(s2 == if q > 0 { s1.push((p, d, (q - 1) as usize)) } else { s1 });
        if p < self.max_p {
            candidates.push((p + 1, d, q));
        }
        let ghost s3 = candidates@;
        assert(s3 == if p < self.max_p { s2.push(((p + 1) as usize, d, q)) } else { s2 });
        if q < self.max_q {
            candidates.push((p, d, q + 1));
        }
        let ghost s4 = candidates@;
        assert(s4 == if q < self.max_q { s3.push((p, d, (q + 1) as usize)) } else { s3 });
        let mut common: Vec<ArimaOrder> = Vec::new();
        common.push((1, 1, 1));
        common.push((2, 1, 1));
        common.push((1, 1, 2));
        common.push((2, 1, 2));
        common.push((0, 1, 1));
        common.push((1, 1, 0));
        assert(common@ =~= common_orders());
        candidates.append(&mut common);
        candidates
    }

    /// The candidate model orders around `base_order`, without duplicates,
    /// in increasing (lexicographic) order, limited to the first
    /// `ensemble_models` of them.
    pub fn generate_candidate_orders(&self, base_order: ArimaOrder) -> (r: Vec<ArimaOrder>)
        ensures
            strictly_increasing(r@),
            r@.len() <= self.ensemble_models,
            forall|x: ArimaOrder| #[trigger] r@.contains(x) ==> candidate_list(base_order, self.max_p, self.max_q).contains(x),
            forall|x: ArimaOrder| candidate_list(base_order, self.max_p, self.max_q).contains(x) && !r@.contains(x)
                ==> r@.len() == self.ensemble_models && forall|i: int| 0 <= i < r@.len() ==> order_lt(#[trigger] r@[i], x),
            candidate_list(base_order, self.max_p, self.max_q).len() <= self.ensemble_models ==> forall|x: ArimaOrder|
                r@.contains(x) <==> #[trigger] candidate_list(base_order, self.max_p, self.max_q).contains(x),
    {
        let candidates = self.candidates_around(base_order);
        let mut sorted = sorted_distinct(&candidates);
        let ghost full = sorted@;
        let k = self.ensemble_models;
        sorted.truncate(k);
        proof {
            let all = candidate_list(base_order, self.max_p, self.max_q);
            assert(sorted@ == full.subrange(0, if k <= full.len() { k as int } else { full.len() as int }));
            assert forall|i: int, j: int| 0 <= i < j < sorted@.len() implies order_lt(#[trigger] sorted@[i], #[trigger] sorted@[j]) by {
                assert(sorted@[i] == full[i] && sorted@[j] == full[j]);
            }
            assert forall|x: ArimaOrder| #[trigger] sorted@.contains(x) implies all.contains(x) by {
                let m = choose|m: int| 0 <= m < sorted@.len() && sorted@[m] == x;
                assert(full[m] == x);
                assert(full.contains(x));
            }
            assert forall|x: ArimaOrder| all.contains(x) && !sorted@.contains(x)
                implies sorted@.len() == k && forall|i: int| 0 <= i < sorted@.len() ==> order_lt(#[trigger] sorted@[i], x) by {
                assert(full.contains(x));
                lemma_prefix_of_increasing(full, k as nat, x);
                assert forall|i: int| 0 <= i < sorted@.len() implies order_lt(#[trigger] sorted@[i], x) by {
                    assert(sorted@[i] == full[i]);
                }
            }
            if all.len() <= k {
                assert forall|x: ArimaOrder| #[trigger] all.contains(x) implies sorted@.contains(x) by {
                    if !sorted@.contains(x) {
                        lemma_room_for_all(sorted@, all, x);
                    }
                }
            }
        }
        sorted
    }
}

/// The bit pattern of `2.576`, the two-sided z-score of a 99% interval.
pub const Z_99: u64 = 0x4004_9ba5_e353_f7cf;

/// The bit pattern of `1.96`, the two-sided z-score of a 95% interval.
pub const Z_95: u64 = 0x3fff_5c28_f5c2_8f5c;

/// The bit pattern of `1.645`, the two-sided z-score of a 90% interval.
pub const Z_90: u64 = 0x3ffa_51eb_851e_b852;

/// The z-score of the confidence level's prediction interval: that of the
/// highest of 99%, 95% and 90% that the level reaches, 95% otherwise.
pub open spec fn z_score_for(confidence_level: u64) -> u64 {
    if f64_le(F0_99, confidence_level) {
        Z_99
    } else if f64_le(F0_95, confidence_level) {
        Z_95
    } else if f64_le(F0_9, confidence_level) {
        Z_90
    } else {
        Z_95
    }
}

/// Which z-score a confidence level gets: that of 99% exactly when the
/// level is at least 0.99; that of 90% exactly when it is at least 0.9 but
/// reaches neither 0.95 nor 0.99; that of 95% otherwise (levels from 0.95 to below 0.99,
/// levels below 0.9, and NaN). The three are different values.
pub proof fn lemma_z_score_ranges(level: u64)
    ensures
        z_score_for(level) == Z_99 <==> f64_le(F0_99, level),
        z_score_for(level) == Z_90 <==> f64_le(F0_9, level) && !f64_le(F0_95, level) && !f64_le(F0_99, level),
        z_score_for(level) == Z_95 <==> !f64_le(F0_99, level) && (f64_le(F0_95, level) || !f64_le(F0_9, level)),
        Z_99 != Z_95 && Z_95 != Z_90 && Z_99 != Z_90,
{
}

impl ArimaStrategyConfig {
    /// The z-score for the prediction intervals at the configured
    /// confidence level (bits of a double).
    pub fn get_confidence_z_score(&self) -> (r: u64)
        ensures
            r == z_score_for(self.confidence_level),
    {
        if le(F0_99, self.confidence_level) {
            Z_99
        } else if le(F0_95, self.confidence_level) {
            Z_95
        } else if le(F0_9, self.confidence_level) {
            Z_90
        } else {
            Z_95
        }
    }
}

} // verus!
