//! Selection of the member models of the ensemble strategy and their
//! configurations, and the combination of the models' signal series by
//! majority vote.

use vstd::prelude::*;
use crate::arima_config::{spec_default_config, ArimaStrategyConfig};
use crate::float_bits::{F0_01, F0_02, F0_1, F0_3, F2_0, ONE};
use crate::kalman::KalmanStrategyConfig;
use crate::smoothing::ExponentialSmoothingConfig;
use crate::types::{NyxsOwlError, Signal};

verus! {

/// Configuration for individual models in the ensemble
#[derive(Debug, Clone)]
pub struct EnsembleModelConfig {
    /// Include ARIMA model in ensemble
    pub use_arima: bool,
    /// ARIMA configuration
    pub arima_config: ArimaStrategyConfig,
    /// Include Exponential Smoothing model in ensemble
    pub use_exponential_smoothing: bool,
    /// Exponential Smoothing configuration
    pub exponential_smoothing_config: ExponentialSmoothingConfig,
    /// Include Kalman Filter model in ensemble
    pub use_kalman: bool,
    /// Kalman Filter configuration
    pub kalman_config: KalmanStrategyConfig,
}

impl Default for EnsembleModelConfig {
    /// All three models, each with its default configuration
    fn default() -> (r: Self)
        ensures
            r.use_arima && r.use_exponential_smoothing && r.use_kalman,
            exists|cpus: usize| cpus >= 1 && r.arima_config == spec_default_config(cpus),
            r.exponential_smoothing_config == (ExponentialSmoothingConfig {
                alpha: F0_3,
                beta: Some(F0_1),
                gamma: None,
                seasonal_periods: None,
                forecast_horizon: 1,
                threshold: F0_02,
                min_data_points: 20,
                window_size: 50,
            }),
            r.kalman_config == (KalmanStrategyConfig {
                process_noise: F0_01,
                observation_noise: F0_1,
                initial_uncertainty: ONE,
                signal_threshold: F0_01,
                min_data_points: 50,
                use_trend_detection: true,
                trend_lookback: 10,
                innovation_threshold: F2_0,
            }),
    {
        Self {
            use_arima: true,
            arima_config: ArimaStrategyConfig::default(),
            use_exponential_smoothing: true,
            exponential_smoothing_config: ExponentialSmoothingConfig::default(),
            use_kalman: true,
            kalman_config: KalmanStrategyConfig::default(),
        }
    }
}

/// The number of series whose signal at position `i` is `s`.
pub open spec fn votes(series: Seq<Vec<Signal>>, i: int, s: Signal) -> nat
    decreases series.len(),
{
    if series.len() == 0 {
        0
    } else {
        votes(series.drop_last(), i, s) + (if series.last()@[i] == s { 1nat } else { 0nat })
    }
}

/// The signal that wins the vote at position `i`: Buy or Sell when it has
/// strictly more votes than each of the two others, Hold otherwise.
pub open spec fn majority_at(series: Seq<Vec<Signal>>, i: int) -> Signal {
    let buy = votes(series, i, Signal::Buy);
    let sell = votes(series, i, Signal::Sell);
    let hold = votes(series, i, Signal::Hold);
    if buy > sell && buy > hold {
        Signal::Buy
    } else if sell > buy && sell > hold {
        Signal::Sell
    } else {
        Signal::Hold
    }
}

/// Every series votes once at each position: the three counts add up to
/// the number of series.
pub proof fn lemma_votes_add_up(series: Seq<Vec<Signal>>, i: int)
    ensures
        votes(series, i, Signal::Buy) + votes(series, i, Signal::Sell) + votes(series, i, Signal::Hold)
            == series.len(),
    decreases series.len(),
{
    if series.len() > 0 {
        lemma_votes_add_up(series.drop_last(), i);
    }
}

/// Taking one series out removes its vote.
proof fn lemma_votes_remove(series: Seq<Vec<Signal>>, j: int, i: int, s: Signal)
    requires
        0 <= j < series.len(),
    ensures
        votes(series, i, s) == votes(series.remove(j), i, s) + (if series[j]@[i] == s { 1nat } else { 0nat }),
    decreases series.len(),
{
    if j < series.len() - 1 {
        let rest = series.drop_last();
        lemma_votes_remove(rest, j, i, s);
        assert(series.remove(j).drop_last() =~= rest.remove(j));
        assert(series.remove(j).last() == series.last());
    } else {
        assert(series.remove(j) =~= series.drop_last());
    }
}

/// The vote does not depend on the order in which the series are visited:
/// two collections holding the same series as often give the same counts.
pub proof fn lemma_votes_order_free(a: Seq<Vec<Signal>>, b: Seq<Vec<Signal>>, i: int, s: Signal)
    requires
        a.to_multiset() =~= b.to_multiset(),
    ensures
        votes(a, i, s) == votes(b, i, s),
    decreases a.len(),
{
    broadcast use vstd::seq_lib::group_to_multiset_ensures;
    if a.len() == 0 {
        assert(b.to_multiset().len() == 0);
        assert(b.len() == 0);
    } else {
        let x = a.last();
        assert(a.drop_last().push(x) =~= a);
        assert(a.to_multiset().count(x) > 0);
        assert(b.contains(x));
        let j = choose|j: int| 0 <= j < b.len() && b[j] == x;
        assert(a.drop_last().to_multiset() =~= a.to_multiset().remove(x));
        assert(b.remove(j).to_multiset() =~= b.to_multiset().remove(x));
        lemma_votes_order_free(a.drop_last(), b.remove(j), i, s);
        lemma_votes_remove(b, j, i, s);
    }
}

/// The winner of the vote does not depend on the order in which the series
/// are visited.
pub proof fn lemma_majority_order_free(a: Seq<Vec<Signal>>, b: Seq<Vec<Signal>>, i: int)
    requires
        a.to_multiset() =~= b.to_multiset(),
    ensures
        majority_at(a, i) == majority_at(b, i),
{
    lemma_votes_order_free(a, b, i, Signal::Buy);
    lemma_votes_order_free(a, b, i, Signal::Sell);
    lemma_votes_order_free(a, b, i, Signal::Hold);
}

/// The votes for `s` at position `i` are the number of series whose
/// signal there is `s`.
pub proof fn lemma_votes_count(series: Seq<Vec<Signal>>, i: int, s: Signal)
    ensures
        votes(series, i, s) == series.filter(|v: Vec<Signal>| v@[i] == s).len(),
    decreases series.len(),
{
    reveal_with_fuel(Seq::filter, 1);
    if series.len() > 0 {
        lemma_votes_count(series.drop_last(), i, s);
    }
}

/// The outcome of the vote at a position: a signal wins only with strictly
/// more votes than each of the two others, and Buy or Sell wins whenever it
/// has them; otherwise the result is Hold, in particular whenever Hold has
/// at least as many votes as each other signal. The counts are the numbers
/// of series giving each signal there.
pub proof fn lemma_majority_winner(series: Seq<Vec<Signal>>, i: int)
    ensures
        ({
            let buy = series.filter(|v: Vec<Signal>| v@[i] == Signal::Buy).len();
            let sell = series.filter(|v: Vec<Signal>| v@[i] == Signal::Sell).len();
            let hold = series.filter(|v: Vec<Signal>| v@[i] == Signal::Hold).len();
            &&& majority_at(series, i) == Signal::Buy <==> buy > sell && buy > hold
            &&& majority_at(series, i) == Signal::Sell <==> sell > buy && sell > hold
            &&& majority_at(series, i) == Signal::Hold <==> !(buy > sell && buy > hold) && !(sell > buy
                && sell > hold)
            &&& hold >= buy && hold >= sell ==> majority_at(series, i) == Signal::Hold
        }),
{
    lemma_votes_count(series, i, Signal::Buy);
    lemma_votes_count(series, i, Signal::Sell);
    lemma_votes_count(series, i, Signal::Hold);
}

/// Checks the models' signal series before they are combined: there is at
/// least one, and all have the same length, which is returned.
pub fn common_signal_length(series: &Vec<Vec<Signal>>) -> (r: Result<usize, NyxsOwlError>)
    ensures
        series@.len() == 0 ==> (r matches Err(NyxsOwlError::DataError(m)) && m@ == "No signals to aggregate"@),
        series@.len() > 0 && (forall|k: int| 0 <= k < series@.len() ==> #[trigger] series@[k]@.len() == series@[0]@.len())
            ==> r == Ok::<usize, NyxsOwlError>(series@[0]@.len() as usize),
        series@.len() > 0 && (exists|k: int| 0 <= k < series@.len() && #[trigger] series@[k]@.len() != series@[0]@.len())
            ==> (r matches Err(NyxsOwlError::DataError(m)) && m@ == "All model signals must have the same length"@),
{
    if series.len() == 0 {
        return Err(NyxsOwlError::DataError(String::from_str("No signals to aggregate")));
    }
    let len = series[0].len();
    let n = series.len();
    let mut k: usize = 0;
    while k < n
        invariant
            n == series@.len(),
            n > 0,
            k <= n,
            len == series@[0]@.len(),
            forall|j: int| 0 <= j < k ==> #[trigger] series@[j]@.len() == len,
        decreases n - k,
    {
        if series[k].len() != len {
            return Err(NyxsOwlError::DataError(String::from_str("All model signals must have the same length")));
        }
        k = k + 1;
    }
    Ok(len)
}

/// The votes at position `i`, counted over all series.
fn count_votes(series: &Vec<Vec<Signal>>, i: usize) -> (r: (usize, usize, usize))
    requires
        forall|k: int| 0 <= k < series@.len() ==> i < (#[trigger] series@[k])@.len(),
    ensures
        r.0 == votes(series@, i as int, Signal::Buy),
        r.1 == votes(series@, i as int, Signal::Sell),
        r.2 == votes(series@, i as int, Signal::Hold),
{
    let n = series.len();
    let mut buy: usize = 0;
    let mut sell: usize = 0;
    let mut hold: usize = 0;
    let mut k: usize = 0;
    while k < n
        invariant
            n == series@.len(),
            k <= n,
            forall|j: int| 0 <= j < series@.len() ==> i < (#[trigger] series@[j])@.len(),
            buy == votes(series@.take(k as int), i as int, Signal::Buy),
            sell == votes(series@.take(k as int), i as int, Signal::Sell),
            hold == votes(series@.take(k as int), i as int, Signal::Hold),
        decreases n - k,
    {
        proof {
            let next = series@.take(k + 1);
            assert(next.drop_last() =~= series@.take(k as int));
            assert(next.last() == series@[k as int]);
            lemma_votes_add_up(series@.take(k as int), i as int);
            assert(series@.take(k as int).len() == k);
        }
        match series[k][i] {
            Signal::Buy => {
                buy = buy + 1;
            },
            Signal::Sell => {
                sell = sell + 1;
            },
            Signal::Hold => {
                hold = hold + 1;
            },
        }
        k = k + 1;
    }
    assert(series@.take(n as int) =~= series@);
    (buy, sell, hold)
}

/// Majority vote aggregation: at each position the signal that more series
/// give than each of the two others, Hold when none does.
pub fn majority_vote_aggregation(series: &Vec<Vec<Signal>>, final_signals: &mut Vec<Signal>)
    requires
        forall|k: int| 0 <= k < series@.len() ==> old(final_signals)@.len() <= (#[trigger] series@[k])@.len(),
    ensures
        final(final_signals)@.len() == old(final_signals)@.len(),
        forall|i: int| 0 <= i < final(final_signals)@.len() ==> #[trigger] final(final_signals)@[i] == majority_at(series@, i),
{
    let len = final_signals.len();
    let mut i: usize = 0;
    while i < len
        invariant
            len == final_signals@.len(),
            i <= len,
            forall|k: int| 0 <= k < series@.len() ==> len <= (#[trigger] series@[k])@.len(),
            forall|j: int| 0 <= j < i ==> #[trigger] final_signals@[j] == majority_at(series@, j),
        decreases len - i,
    {
        let (buy_votes, sell_votes, hold_votes) = count_votes(series, i);
        let winner = if buy_votes > sell_votes && buy_votes > hold_votes {
            Signal::Buy
        } else if sell_votes > buy_votes && sell_votes > hold_votes {
            Signal::Sell
        } else {
            Signal::Hold
        };
        final_signals.set(i, winner);
        i = i + 1;
    }
}

/// Best model aggregation, rotating through the models: position `i`
/// takes the signal of series `i mod n`, the series taken in the order
/// given.
pub fn best_model_aggregation(series: &Vec<Vec<Signal>>, final_signals: &mut Vec<Signal>)
    requires
        series@.len() > 0 || old(final_signals)@.len() == 0,
        forall|k: int| 0 <= k < series@.len() ==> old(final_signals)@.len() <= (#[trigger] series@[k])@.len(),
    ensures
        final(final_signals)@.len() == old(final_signals)@.len(),
        forall|i: int| 0 <= i < final(final_signals)@.len() ==> #[trigger] final(final_signals)@[i]
            == series@[i % (series@.len() as int)]@[i],
{
    let len = final_signals.len();
    let models = series.len();
    let mut i: usize = 0;
    while i < len
        invariant
            len == final_signals@.len(),
            models == series@.len(),
            models > 0 || len == 0,
            i <= len,
            forall|k: int| 0 <= k < series@.len() ==> len <= (#[trigger] series@[k])@.len(),
            forall|j: int| 0 <= j < i ==> #[trigger] final_signals@[j] == series@[j % (models as int)]@[j],
        decreases len - i,
    {
        let best = i % models;
        final_signals.set(i, series[best][i]);
        i = i + 1;
    }
}

} // verus!
