//! Configuration of the regime-switching strategy: regimes, model types,
//! per-regime strategies, checked construction and the presets; and the
//! smoothing of a detected regime sequence by majority over a window.

use vstd::prelude::*;
use crate::float_bits::{
    f64_le, le, F0_001, F0_002, F0_003, F0_005, F0_01, F0_015, F0_02, F0_025, F0_04, F0_05, F0_1,
    F0_2, F0_3, F0_5, F0_6, F0_7, F0_75, F0_8, F0_85, F1_2, F1_3, F1_5, F1_8, F2_0, F3_0, ONE, ZERO,
};
use crate::types::NyxsOwlError;

verus! {

/// Market regime types
#[derive(Debug, Clone, Copy, PartialEq, Eq, Hash, Structural)]
pub enum MarketRegime {
    /// Bull market - upward trending with low volatility
    Bull,
    /// Bear market - downward trending with high volatility
    Bear,
    /// Sideways market - range-bound with moderate volatility
    Sideways,
    /// High volatility regime regardless of direction
    HighVolatility,
    /// Low volatility regime regardless of direction
    LowVolatility,
    /// Crisis regime - extreme volatility and negative returns
    Crisis,
}

impl MarketRegime {
    /// The display name of a regime.
    pub open spec fn spec_as_str(self) -> Seq<char> {
        match self {
            MarketRegime::Bull => "Bull"@,
            MarketRegime::Bear => "Bear"@,
            MarketRegime::Sideways => "Sideways"@,
            MarketRegime::HighVolatility => "HighVolatility"@,
            MarketRegime::LowVolatility => "LowVolatility"@,
            MarketRegime::Crisis => "Crisis"@,
        }
    }

    /// Convert regime to string for display
    pub fn as_str(&self) -> (r: &'static str)
        ensures
            r@ == self.spec_as_str(),
    {
        match self {
            MarketRegime::Bull => "Bull",
            MarketRegime::Bear => "Bear",
            MarketRegime::Sideways => "Sideways",
            MarketRegime::HighVolatility => "HighVolatility",
            MarketRegime::LowVolatility => "LowVolatility",
            MarketRegime::Crisis => "Crisis",
        }
    }
}

/// Types of regime-switching models
#[derive(Debug, Clone, Copy, PartialEq, Eq, Structural)]
pub enum RegimeSwitchingType {
    /// Basic Markov Switching model (2-state)
    MarkovSwitching,
    /// Higher-order Markov model considering sequence of past regimes
    HigherOrder(usize),
    /// Duration-dependent model considering regime persistence
    DurationDependent,
    /// Multivariate regime-switching for multiple assets
    Multivariate,
    /// Threshold-based regime switching
    Threshold,
}

/// Strategy adaptation per regime; thresholds and factors are doubles held
/// as bit patterns.
#[derive(Debug, Clone)]
pub struct RegimeStrategy {
    /// Regime this strategy applies to
    pub regime: MarketRegime,
    /// Signal threshold for this regime
    pub signal_threshold: u64,
    /// Position sizing multiplier for this regime
    pub position_multiplier: u64,
    /// Risk adjustment factor
    pub risk_factor: u64,
    /// Use trend following in this regime
    pub use_trend_following: bool,
    /// Use mean reversion in this regime
    pub use_mean_reversion: bool,
}

impl Default for RegimeStrategy {
    fn default() -> (r: Self)
        ensures
            r == (RegimeStrategy {
                regime: MarketRegime::Sideways,
                signal_threshold: F0_02,
                position_multiplier: ONE,
                risk_factor: ONE,
                use_trend_following: true,
                use_mean_reversion: false,
            }),
    {
        Self {
            regime: MarketRegime::Sideways,
            signal_threshold: F0_02,
            position_multiplier: ONE,
            risk_factor: ONE,
            use_trend_following: true,
            use_mean_reversion: false,
        }
    }
}

/// Configuration for Regime-Switching strategy; thresholds, the confidence
/// and the smoothing factor are doubles held as bit patterns.
#[derive(Debug, Clone)]
pub struct RegimeSwitchingConfig {
    /// Type of regime-switching model
    pub model_type: RegimeSwitchingType,
    /// Number of regimes to identify
    pub num_regimes: usize,
    /// Lookback window for regime identification
    pub regime_window: usize,
    /// Minimum regime duration (to avoid excessive switching)
    pub min_regime_duration: usize,
    /// Volatility threshold for regime classification
    pub volatility_threshold: u64,
    /// Return threshold for regime classification
    pub return_threshold: u64,
    /// Minimum number of data points required
    pub min_data_points: usize,
    /// Regime-specific strategies
    pub regime_strategies: Vec<RegimeStrategy>,
    /// Confidence threshold for regime detection
    pub regime_confidence: u64,
    /// Smoothing factor for regime probabilities
    pub smoothing_factor: u64,
}

/// The first parameter rule that the arguments of
/// `RegimeSwitchingConfig::new` break, as its message, or none.
pub open spec fn regime_problem(
    model_type: RegimeSwitchingType,
    num_regimes: usize,
    regime_window: usize,
    volatility_threshold: u64,
    return_threshold: u64,
) -> Option<Seq<char>> {
    if num_regimes < 2 || num_regimes > 6 {
        Some("Number of regimes must be between 2 and 6"@)
    } else if regime_window < 20 {
        Some("Regime window must be at least 20"@)
    } else if f64_le(volatility_threshold, ZERO) {
        Some("Volatility threshold must be positive"@)
    } else if f64_le(return_threshold, ZERO) {
        Some("Return threshold must be positive"@)
    } else if model_type matches RegimeSwitchingType::HigherOrder(order) && (order == 0 || order > 5) {
        Some("Higher-order must be between 1 and 5"@)
    } else {
        None
    }
}

/// A regime strategy built from its parts.
pub open spec fn regime_strategy(
    regime: MarketRegime,
    signal_threshold: u64,
    position_multiplier: u64,
    risk_factor: u64,
    use_trend_following: bool,
    use_mean_reversion: bool,
) -> RegimeStrategy {
    RegimeStrategy { regime, signal_threshold, position_multiplier, risk_factor, use_trend_following, use_mean_reversion }
}

impl RegimeSwitchingConfig {
    /// Create a new regime-switching configuration: 2 to 6 regimes, a
    /// window of at least 20, positive thresholds and, for a higher-order
    /// model, an order in 1..=5. No regime strategies are set; the minimum
    /// regime duration is 5, 100 data points are required, the confidence
    /// is 0.7 and the smoothing factor 0.1.
    pub fn new(
        model_type: RegimeSwitchingType,
        num_regimes: usize,
        regime_window: usize,
        volatility_threshold: u64,
        return_threshold: u64,
    ) -> (r: Result<Self, NyxsOwlError>)
        ensures
            regime_problem(model_type, num_regimes, regime_window, volatility_threshold, return_threshold)
                is None ==> (r matches Ok(c) && c.model_type == model_type && c.num_regimes == num_regimes
                && c.regime_window == regime_window && c.min_regime_duration == 5
                && c.volatility_threshold == volatility_threshold && c.return_threshold == return_threshold
                && c.min_data_points == 100 && c.regime_strategies@.len() == 0 && c.regime_confidence == F0_7
                && c.smoothing_factor == F0_1),
            regime_problem(model_type, num_regimes, regime_window, volatility_threshold, return_threshold)
                matches Some(m) ==> (r matches Err(NyxsOwlError::InvalidParameter(e)) && e@ == m),
    {
        if num_regimes < 2 || num_regimes > 6 {
            return Err(NyxsOwlError::InvalidParameter(String::from_str("Number of regimes must be between 2 and 6")));
        }
        if regime_window < 20 {
            return Err(NyxsOwlError::InvalidParameter(String::from_str("Regime window must be at least 20")));
        }
        if le(volatility_threshold, ZERO) {
            return Err(NyxsOwlError::InvalidParameter(String::from_str("Volatility threshold must be positive")));
        }
        if le(return_threshold, ZERO) {
            return Err(NyxsOwlError::InvalidParameter(String::from_str("Return threshold must be positive")));
        }
        if let RegimeSwitchingType::HigherOrder(order) = model_type {
            if order == 0 || order > 5 {
                return Err(NyxsOwlError::InvalidParameter(String::from_str("Higher-order must be between 1 and 5")));
            }
        }
        Ok(Self {
            model_type,
            num_regimes,
            regime_window,
            min_regime_duration: 5,
            volatility_threshold,
            return_threshold,
            min_data_points: 100,
            regime_strategies: Vec::new(),
            regime_confidence: F0_7,
            smoothing_factor: F0_1,
        })
    }

    /// Create bull/bear market configuration
    pub fn bull_bear_market() -> (r: Self)
        ensures
            r.model_type == RegimeSwitchingType::MarkovSwitching,
            r.num_regimes == 2,
            r.regime_window == 90,
            r.min_regime_duration == 10,
            r.volatility_threshold == F0_025,
            r.return_threshold == F0_002,
            r.min_data_points == 120,
            r.regime_strategies@ == seq![
                regime_strategy(MarketRegime::Bull, F0_01, F1_5, F0_7, true, false),
                regime_strategy(MarketRegime::Bear, F0_005, F0_3, F2_0, false, true),
            ],
            r.regime_confidence == F0_8,
            r.smoothing_factor == F0_05,
    {
        let regime_strategies = vec![
            RegimeStrategy {
                regime: MarketRegime::Bull,
                signal_threshold: F0_01,
                position_multiplier: F1_5,
                risk_factor: F0_7,
                use_trend_following: true,
                use_mean_reversion: false,
            },
            RegimeStrategy {
                regime: MarketRegime::Bear,
                signal_threshold: F0_005,
                position_multiplier: F0_3,
                risk_factor: F2_0,
                use_trend_following: false,
                use_mean_reversion: true,
            },
        ];
        Self {
            model_type: RegimeSwitchingType::MarkovSwitching,
            num_regimes: 2,
            regime_window: 90,
            min_regime_duration: 10,
            volatility_threshold: F0_025,
            return_threshold: F0_002,
            min_data_points: 120,
            regime_strategies,
            regime_confidence: F0_8,
            smoothing_factor: F0_05,
        }
    }

    /// Create volatility regime configuration
    pub fn volatility_regimes() -> (r: Self)
        ensures
            r.model_type == RegimeSwitchingType::Threshold,
            r.num_regimes == 2,
            r.regime_window == 45,
            r.min_regime_duration == 3,
            r.volatility_threshold == F0_015,
            r.return_threshold == F0_001,
            r.min_data_points == 100,
            r.regime_strategies@ == seq![
                regime_strategy(MarketRegime::LowVolatility, F0_02, F1_3, F0_8, true, false),
                regime_strategy(MarketRegime::HighVolatility, F0_005, F0_5, F1_8, false, true),
            ],
            r.regime_confidence == F0_75,
            r.smoothing_factor == F0_2,
    {
        let regime_strategies = vec![
            RegimeStrategy {
                regime: MarketRegime::LowVolatility,
                signal_threshold: F0_02,
                position_multiplier: F1_3,
                risk_factor: F0_8,
                use_trend_following: true,
                use_mean_reversion: false,
            },
            RegimeStrategy {
                regime: MarketRegime::HighVolatility,
                signal_threshold: F0_005,
                position_multiplier: F0_5,
                risk_factor: F1_8,
                use_trend_following: false,
                use_mean_reversion: true,
            },
        ];
        Self {
            model_type: RegimeSwitchingType::Threshold,
            num_regimes: 2,
            regime_window: 45,
            min_regime_duration: 3,
            volatility_threshold: F0_015,
            return_threshold: F0_001,
            min_data_points: 100,
            regime_strategies,
            regime_confidence: F0_75,
            smoothing_factor: F0_2,
        }
    }

    /// Create crisis detection configuration
    pub fn crisis_detection() -> (r: Self)
        ensures
            r.model_type == RegimeSwitchingType::DurationDependent,
            r.num_regimes == 3,
            r.regime_window == 120,
            r.min_regime_duration == 7,
            r.volatility_threshold == F0_04,
            r.return_threshold == F0_003,
            r.min_data_points == 150,
            r.regime_strategies@ == seq![
                regime_strategy(MarketRegime::Bull, F0_015, ONE, ONE, true, false),
                regime_strategy(MarketRegime::Sideways, F0_02, F0_8, F1_2, false, true),
                regime_strategy(MarketRegime::Crisis, F0_001, F0_2, F3_0, false, false),
            ],
            r.regime_confidence == F0_85,
            r.smoothing_factor == F0_05,
    {
        let regime_strategies = vec![
            RegimeStrategy {
                regime: MarketRegime::Bull,
                signal_threshold: F0_015,
                position_multiplier: ONE,
                risk_factor: ONE,
                use_trend_following: true,
                use_mean_reversion: false,
            },
            RegimeStrategy {
                regime: MarketRegime::Sideways,
                signal_threshold: F0_02,
                position_multiplier: F0_8,
                risk_factor: F1_2,
                use_trend_following: false,
                use_mean_reversion: true,
            },
            RegimeStrategy {
                regime: MarketRegime::Crisis,
                signal_threshold: F0_001,
                position_multiplier: F0_2,
                risk_factor: F3_0,
                use_trend_following: false,
                use_mean_reversion: false,
            },
        ];
        Self {
            model_type: RegimeSwitchingType::DurationDependent,
            num_regimes: 3,
            regime_window: 120,
            min_regime_duration: 7,
            volatility_threshold: F0_04,
            return_threshold: F0_003,
            min_data_points: 150,
            regime_strategies,
            regime_confidence: F0_85,
            smoothing_factor: F0_05,
        }
    }
}

impl Default for RegimeSwitchingConfig {
    fn default() -> (r: Self)
        ensures
            r.model_type == RegimeSwitchingType::MarkovSwitching,
            r.num_regimes == 3,
            r.regime_window == 60,
            r.min_regime_duration == 5,
            r.volatility_threshold == F0_02,
            r.return_threshold == F0_001,
            r.min_data_points == 100,
            r.regime_strategies@ == seq![
                regime_strategy(MarketRegime::Bull, F0_015, F1_2, F0_8, true, false),
                regime_strategy(MarketRegime::Bear, F0_01, F0_6, F1_5, false, true),
                regime_strategy(MarketRegime::Sideways, F0_025, ONE, ONE, false, true),
            ],
            r.regime_confidence == F0_7,
            r.smoothing_factor == F0_1,
    {
        let regime_strategies = vec![
            RegimeStrategy {
                regime: MarketRegime::Bull,
                signal_threshold: F0_015,
                position_multiplier: F1_2,
                risk_factor: F0_8,
                use_trend_following: true,
                use_mean_reversion: false,
            },
            RegimeStrategy {
                regime: MarketRegime::Bear,
                signal_threshold: F0_01,
                position_multiplier: F0_6,
                risk_factor: F1_5,
                use_trend_following: false,
                use_mean_reversion: true,
            },
            RegimeStrategy {
                regime: MarketRegime::Sideways,
                signal_threshold: F0_025,
                position_multiplier: ONE,
                risk_factor: ONE,
                use_trend_following: false,
                use_mean_reversion: true,
            },
        ];
        Self {
            model_type: RegimeSwitchingType::MarkovSwitching,
            num_regimes: 3,
            regime_window: 60,
            min_regime_duration: 5,
            volatility_threshold: F0_02,
            return_threshold: F0_001,
            min_data_points: 100,
            regime_strategies,
            regime_confidence: F0_7,
            smoothing_factor: F0_1,
        }
    }
}

/// The number of entries of `s` that are `r`.
pub open spec fn regime_count(s: Seq<MarketRegime>, r: MarketRegime) -> nat
    decreases s.len(),
{
    if s.len() == 0 {
        0
    } else {
        regime_count(s.drop_last(), r) + (if s.last() == r { 1nat } else { 0nat })
    }
}

/// The regime a window votes for: Bull or Bear when it holds strictly more
/// of that regime than of the other and than of all remaining regimes
/// together (which count as sideways), Sideways otherwise.
pub open spec fn window_majority(window: Seq<MarketRegime>) -> MarketRegime {
    let bull = regime_count(window, MarketRegime::Bull);
    let bear = regime_count(window, MarketRegime::Bear);
    let sideways = window.len() - bull - bear;
    if bull > bear && bull > sideways {
        MarketRegime::Bull
    } else if bear > bull && bear > sideways {
        MarketRegime::Bear
    } else {
        MarketRegime::Sideways
    }
}

/// The regime sequence smoothed with windows of `order` regimes: each
/// position from the `order`-th on takes the vote of the `order` regimes
/// ending there; a sequence shorter than `order`, or an order of zero,
/// is kept as it is.
pub open spec fn smoothed_regimes(regimes: Seq<MarketRegime>, order: nat) -> Seq<MarketRegime> {
    if order == 0 || regimes.len() < order {
        regimes
    } else {
        Seq::new(regimes.len(), |i: int|
            if i + 1 >= order { window_majority(regimes.subrange(i + 1 - order, i + 1)) } else { regimes[i] })
    }
}

/// The count of `r` in `s` is the number of entries of `s` equal to `r`.
pub proof fn lemma_regime_count_filter(s: Seq<MarketRegime>, r: MarketRegime)
    ensures
        regime_count(s, r) == s.filter(|x: MarketRegime| x == r).len(),
    decreases s.len(),
{
    reveal_with_fuel(Seq::filter, 1);
    if s.len() > 0 {
        lemma_regime_count_filter(s.drop_last(), r);
    }
}

/// What smoothing does to a regime sequence. Its length is kept. With an
/// order of zero, or a sequence shorter than the order, it is unchanged;
/// otherwise the first `order - 1` regimes are kept, and each later
/// position takes the vote of the `order` regimes ending there: Bull when
/// Bull occurs there strictly more often than Bear and than all the other
/// regimes together, Bear likewise, Sideways otherwise.
pub proof fn lemma_smoothing_votes(regimes: Seq<MarketRegime>, order: nat)
    ensures
        smoothed_regimes(regimes, order).len() == regimes.len(),
        order == 0 || regimes.len() < order ==> smoothed_regimes(regimes, order) == regimes,
        forall|i: int| 0 <= i < regimes.len() && i + 1 < order ==> #[trigger] smoothed_regimes(regimes, order)[i]
            == regimes[i],
        forall|i: int| 0 < order <= regimes.len() && 0 <= i < regimes.len() && i + 1 >= order ==> {
            let w = regimes.subrange(i + 1 - order, i + 1);
            let bull = w.filter(|x: MarketRegime| x == MarketRegime::Bull).len();
            let bear = w.filter(|x: MarketRegime| x == MarketRegime::Bear).len();
            let others = order - bull - bear;
            let out = #[trigger] smoothed_regimes(regimes, order)[i];
            &&& out == MarketRegime::Bull <==> bull > bear && bull > others
            &&& out == MarketRegime::Bear <==> bear > bull && bear > others
            &&& out == MarketRegime::Sideways <==> !(bull > bear && bull > others) && !(bear > bull && bear > others)
        },
{
    assert forall|i: int| 0 < order <= regimes.len() && 0 <= i < regimes.len() && i + 1 >= order implies {
        let w = regimes.subrange(i + 1 - order, i + 1);
        let bull = w.filter(|x: MarketRegime| x == MarketRegime::Bull).len();
        let bear = w.filter(|x: MarketRegime| x == MarketRegime::Bear).len();
        let others = order - bull - bear;
        let out = #[trigger] smoothed_regimes(regimes, order)[i];
        &&& out == MarketRegime::Bull <==> bull > bear && bull > others
        &&& out == MarketRegime::Bear <==> bear > bull && bear > others
        &&& out == MarketRegime::Sideways <==> !(bull > bear && bull > others) && !(bear > bull && bear > others)
    } by {
        let w = regimes.subrange(i + 1 - order, i + 1);
        lemma_regime_count_filter(w, MarketRegime::Bull);
        lemma_regime_count_filter(w, MarketRegime::Bear);
        assert(w.len() == order);
    }
}

/// Bull and Bear entries never outnumber the window.
proof fn lemma_counts_bounded(s: Seq<MarketRegime>)
    ensures
        regime_count(s, MarketRegime::Bull) + regime_count(s, MarketRegime::Bear) <= s.len(),
    decreases s.len(),
{
    if s.len() > 0 {
        lemma_counts_bounded(s.drop_last());
    }
}

/// The majority of the window of `order` regimes ending at `i`.
fn window_vote(regimes: &Vec<MarketRegime>, order: usize, i: usize) -> (r: MarketRegime)
    requires
        0 < order <= i + 1,
        i < regimes@.len(),
    ensures
        r == window_majority(regimes@.subrange(i + 1 - order, i + 1)),
{
    let n = regimes.len();
    let start: usize = i - (order - 1);
    let ghost window = regimes@.subrange(start as int, i + 1);
    let mut bull: usize = 0;
    let mut bear: usize = 0;
    let mut j: usize = start;
    while j <= i
        invariant
            start <= j <= i + 1,
            i < n,
            n == regimes@.len(),
            window == regimes@.subrange(start as int, i + 1),
            bull == regime_count(regimes@.subrange(start as int, j as int), MarketRegime::Bull),
            bear == regime_count(regimes@.subrange(start as int, j as int), MarketRegime::Bear),
        decreases i + 1 - j,
    {
        proof {
            let seen = regimes@.subrange(start as int, j as int);
            let next = regimes@.subrange(start as int, j + 1);
            assert(next.drop_last() =~= seen);
            lemma_counts_bounded(seen);
        }
        match regimes[j] {
            MarketRegime::Bull => {
                bull = bull + 1;
            },
            MarketRegime::Bear => {
                bear = bear + 1;
            },
            _ => {},
        }
        j = j + 1;
    }
    proof {
        lemma_counts_bounded(window);
    }
    let sideways: usize = order - bull - bear;
    if bull > bear && bull > sideways {
        MarketRegime::Bull
    } else if bear > bull && bear > sideways {
        MarketRegime::Bear
    } else {
        MarketRegime::Sideways
    }
}

/// Apply higher-order smoothing to a regime sequence: from the `order`-th
/// regime on, each regime is replaced by the majority of the `order`
/// regimes ending at it (regimes other than Bull and Bear count as
/// sideways, and a tie gives Sideways).
pub fn apply_higher_order_smoothing(regimes: &Vec<MarketRegime>, order: usize) -> (r: Vec<MarketRegime>)
    ensures
        r@ == smoothed_regimes(regimes@, order as nat),
{
    if order == 0 || regimes.len() < order {
        return regimes.clone();
    }
    let n = regimes.len();
    let mut smoothed: Vec<MarketRegime> = Vec::new();
    let mut i: usize = 0;
    while i < n
        invariant
            n == regimes@.len(),
            0 < order <= n,
            i <= n,
            smoothed@.len() == i,
            forall|k: int| 0 <= k < i ==> #[trigger] smoothed@[k] == (if k + 1 >= order {
                window_majority(regimes@.subrange(k + 1 - order, k + 1))
            } else {
                regimes@[k]
            }),
        decreases n - i,
    {
        if i + 1 >= order {
            let v = window_vote(regimes, order, i);
            smoothed.push(v);
        } else {
            smoothed.push(regimes[i]);
        }
        i = i + 1;
    }
    assert(smoothed@ =~= smoothed_regimes(regimes@, order as nat));
    smoothed
}

/// Which regime-switching parameters are accepted: 2 to 6 regimes, a
/// window of at least 20, thresholds not at or below zero, and for a
/// higher-order model an order between 1 and 5.
pub proof fn lemma_regime_accepted(
    model_type: RegimeSwitchingType,
    num_regimes: usize,
    regime_window: usize,
    volatility_threshold: u64,
    return_threshold: u64,
)
    ensures
        regime_problem(model_type, num_regimes, regime_window, volatility_threshold, return_threshold) is None
            <==> 2 <= num_regimes <= 6 && regime_window >= 20 && !f64_le(volatility_threshold, ZERO) && !f64_le(
            return_threshold, ZERO) && (model_type matches RegimeSwitchingType::HigherOrder(order) ==> 1 <= order
            <= 5),
{
}

} // verus!
