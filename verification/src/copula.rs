//! Configuration of the copula strategy: copula families, checked
//! construction and the presets, among them the pairing of every asset of a
//! portfolio with each later one.

use vstd::prelude::*;
use crate::float_bits::{
    f64_le, f64_lt, in_unit_interval, is_in_unit_interval, le, lt, F0_005, F0_01, F0_015, F0_02,
    F0_5, F0_6, F0_7, F0_8, F0_9, F0_95, F0_99, F1_2, F2_0, F5_0, ONE, ZERO,
};
use crate::types::NyxsOwlError;

verus! {

/// Types of copula models supported; parameters are doubles held as bit
/// patterns.
#[derive(Debug, Clone, Copy, PartialEq, Eq, Structural)]
pub enum CopulaType {
    /// Gaussian copula with correlation matrix
    Gaussian,
    /// Student-t copula with degrees of freedom
    StudentT(u64),
    /// Clayton copula (lower tail dependence)
    Clayton(u64),
    /// Gumbel copula (upper tail dependence)
    Gumbel(u64),
    /// Frank copula (symmetric dependence)
    Frank(u64),
}

/// Strategy types for copula-based trading
#[derive(Debug, Clone, Copy, PartialEq, Eq, Structural)]
pub enum CopulaStrategyType {
    /// Pairs trading based on correlation deviations
    PairsTrading,
    /// Statistical arbitrage across multiple assets
    StatisticalArbitrage,
    /// Portfolio optimization using dependency structure
    PortfolioOptimization,
    /// Risk management based on tail dependencies
    RiskManagement,
}

/// Configuration for Copula strategy. Thresholds, the confidence level and
/// the risk factor are doubles held as bit patterns.
#[derive(Debug, Clone)]
pub struct CopulaStrategyConfig {
    /// Type of copula model to use
    pub copula_type: CopulaType,
    /// Strategy type
    pub strategy_type: CopulaStrategyType,
    /// Asset pairs or groups to analyze
    pub asset_pairs: Vec<(String, String)>,
    /// Lookback window for correlation estimation
    pub lookback_window: usize,
    /// Threshold for correlation deviation signals
    pub correlation_threshold: u64,
    /// Signal threshold for trading decisions
    pub signal_threshold: u64,
    /// Minimum number of data points required
    pub min_data_points: usize,
    /// Rolling window for dynamic correlation
    pub rolling_window: usize,
    /// Confidence level for tail dependence
    pub confidence_level: u64,
    /// Risk adjustment factor
    pub risk_adjustment: u64,
}

/// The names of a sequence of asset pairs.
pub open spec fn pair_names(pairs: Seq<(String, String)>) -> Seq<(Seq<char>, Seq<char>)> {
    pairs.map_values(|p: (String, String)| (p.0@, p.1@))
}

/// The first parameter rule that the arguments of
/// `CopulaStrategyConfig::new` break, as its message, or none.
pub open spec fn copula_problem(
    copula_type: CopulaType,
    asset_pair_count: nat,
    correlation_threshold: u64,
    signal_threshold: u64,
) -> Option<Seq<char>> {
    if asset_pair_count == 0 {
        Some("At least one asset pair must be specified"@)
    } else if !in_unit_interval(correlation_threshold) {
        Some("Correlation threshold must be between 0 and 1"@)
    } else if f64_le(signal_threshold, ZERO) || f64_lt(ONE, signal_threshold) {
        Some("Signal threshold must be between 0 and 1"@)
    } else {
        match copula_type {
            CopulaType::StudentT(df) => if f64_le(df, ZERO) {
                Some("Student-t degrees of freedom must be positive"@)
            } else {
                None
            },
            CopulaType::Clayton(alpha) => if f64_le(alpha, ZERO) {
                Some("Clayton alpha parameter must be positive"@)
            } else {
                None
            },
            CopulaType::Gumbel(alpha) => if f64_lt(alpha, ONE) {
                Some("Gumbel alpha parameter must be >= 1"@)
            } else {
                None
            },
            _ => None,
        }
    }
}

/// The pairs of `names[i]` with each later name, in order.
pub open spec fn pairs_with_later(names: Seq<Seq<char>>, i: int) -> Seq<(Seq<char>, Seq<char>)> {
    Seq::new((names.len() - i - 1) as nat, |k: int| (names[i], names[i + 1 + k]))
}

/// The pairs of each of the first `n` names with every name after it,
/// grouped by the first name, in order.
pub open spec fn pairs_of_first(names: Seq<Seq<char>>, n: int) -> Seq<(Seq<char>, Seq<char>)>
    decreases n,
{
    if n <= 0 {
        Seq::empty()
    } else {
        pairs_of_first(names, n - 1) + pairs_with_later(names, n - 1)
    }
}

/// Every pair of distinct positions `i < j` of `names`, as
/// `(names[i], names[j])`, ordered by `i` and then by `j`.
pub open spec fn all_pairs(names: Seq<Seq<char>>) -> Seq<(Seq<char>, Seq<char>)> {
    pairs_of_first(names, names.len() as int)
}

/// The names of a sequence of strings.
pub open spec fn names_of(assets: Seq<String>) -> Seq<Seq<char>> {
    assets.map_values(|a: String| a@)
}

/// The pairs of the first `n` names with every later name number
/// `n (2 len - n - 1) / 2`; with all `len` names taken, a portfolio of
/// `len` assets gives `len (len - 1) / 2` pairs.
pub proof fn lemma_all_pairs_count(names: Seq<Seq<char>>, n: int)
    requires
        0 <= n <= names.len(),
    ensures
        2 * pairs_of_first(names, n).len() == n * (2 * names.len() - n - 1),
    decreases n,
{
    if n > 0 {
        lemma_all_pairs_count(names, n - 1);
        assert(pairs_with_later(names, n - 1).len() == names.len() - n);
        assert(pairs_of_first(names, n).len() == pairs_of_first(names, n - 1).len() + pairs_with_later(names, n - 1).len());
        assert((n - 1) * (2 * names.len() - (n - 1) - 1) + 2 * (names.len() - n) == n * (2 * names.len() - n - 1))
            by (nonlinear_arith);
    } else {
        assert(n * (2 * names.len() - n - 1) == 0) by (nonlinear_arith)
            requires
                n == 0,
        ;
    }
}

/// Every asset is paired with each later one: for positions `i < j`, the
/// pair of names `(names[i], names[j])` is among the pairs.
pub proof fn lemma_all_pairs_contains(names: Seq<Seq<char>>, i: int, j: int)
    requires
        0 <= i < j < names.len(),
    ensures
        all_pairs(names).contains((names[i], names[j])),
{
    lemma_pairs_of_first_contains(names, names.len() as int, i, j);
}

proof fn lemma_pairs_of_first_contains(names: Seq<Seq<char>>, n: int, i: int, j: int)
    requires
        0 <= i < j < names.len(),
        i < n <= names.len(),
    ensures
        pairs_of_first(names, n).contains((names[i], names[j])),
    decreases n,
{
    let before = pairs_of_first(names, n - 1);
    let row = pairs_with_later(names, n - 1);
    assert(pairs_of_first(names, n) == before + row);
    if i < n - 1 {
        lemma_pairs_of_first_contains(names, n - 1, i, j);
        let k = choose|k: int| 0 <= k < before.len() && before[k] == (names[i], names[j]);
        assert((before + row)[k] == (names[i], names[j]));
    } else {
        let k = j - i - 1;
        assert(row[k] == (names[i], names[j]));
        assert((before + row)[before.len() + k] == (names[i], names[j]));
    }
}

impl CopulaStrategyConfig {
    /// Create a new copula strategy configuration: at least one asset pair,
    /// a correlation threshold in [0, 1], a signal threshold in (0, 1], and
    /// a positive Student-t or Clayton parameter, a Gumbel parameter of at
    /// least 1. Windows are 60 (lookback) and 30 (rolling), 100 data points
    /// are required, the confidence level is 0.95 and the risk adjustment 1.
    pub fn new(
        copula_type: CopulaType,
        strategy_type: CopulaStrategyType,
        asset_pairs: Vec<(String, String)>,
        correlation_threshold: u64,
        signal_threshold: u64,
    ) -> (r: Result<Self, NyxsOwlError>)
        ensures
            copula_problem(copula_type, asset_pairs@.len(), correlation_threshold, signal_threshold) is None
                ==> r == Ok::<Self, NyxsOwlError>((CopulaStrategyConfig {
                copula_type,
                strategy_type,
                asset_pairs,
                correlation_threshold,
                signal_threshold,
                lookback_window: 60,
                min_data_points: 100,
                rolling_window: 30,
                confidence_level: F0_95,
                risk_adjustment: ONE,
            })),
            copula_problem(copula_type, asset_pairs@.len(), correlation_threshold, signal_threshold)
                matches Some(m) ==> (r matches Err(NyxsOwlError::InvalidParameter(e)) && e@ == m),
    {
        if asset_pairs.len() == 0 {
            return Err(NyxsOwlError::InvalidParameter(String::from_str("At least one asset pair must be specified")));
        }
        if !is_in_unit_interval(correlation_threshold) {
            return Err(NyxsOwlError::InvalidParameter(String::from_str("Correlation threshold must be between 0 and 1")));
        }
        if le(signal_threshold, ZERO) || lt(ONE, signal_threshold) {
            return Err(NyxsOwlError::InvalidParameter(String::from_str("Signal threshold must be between 0 and 1")));
        }
        match copula_type {
            CopulaType::StudentT(df) => {
                if le(df, ZERO) {
                    return Err(NyxsOwlError::InvalidParameter(
                        String::from_str("Student-t degrees of freedom must be positive"),
                    ));
                }
            },
            CopulaType::Clayton(alpha) => {
                if le(alpha, ZERO) {
                    return Err(NyxsOwlError::InvalidParameter(
                        String::from_str("Clayton alpha parameter must be positive"),
                    ));
                }
            },
            CopulaType::Gumbel(alpha) => {
                if lt(alpha, ONE) {
                    return Err(NyxsOwlError::InvalidParameter(String::from_str("Gumbel alpha parameter must be >= 1")));
                }
            },
            _ => {},
        }
        Ok(Self {
            copula_type,
            strategy_type,
            asset_pairs,
            correlation_threshold,
            signal_threshold,
            lookback_window: 60,
            min_data_points: 100,
            rolling_window: 30,
            confidence_level: F0_95,
            risk_adjustment: ONE,
        })
    }

    /// Create pairs trading configuration for one pair of assets
    pub fn pairs_trading(asset1: &str, asset2: &str) -> (r: Self)
        ensures
            pair_names(r.asset_pairs@) == seq![(asset1@, asset2@)],
            r.copula_type == CopulaType::Gaussian,
            r.strategy_type == CopulaStrategyType::PairsTrading,
            r.correlation_threshold == F0_8,
            r.signal_threshold == F0_015,
            r.lookback_window == 90,
            r.min_data_points == 120,
            r.rolling_window == 45,
            r.confidence_level == F0_95,
            r.risk_adjustment == ONE,
    {
        let mut asset_pairs: Vec<(String, String)> = Vec::new();
        asset_pairs.push((String::from_str(asset1), String::from_str(asset2)));
        proof {
            assert(pair_names(asset_pairs@) =~= seq![(asset1@, asset2@)]);
        }
        Self {
            copula_type: CopulaType::Gaussian,
            strategy_type: CopulaStrategyType::PairsTrading,
            asset_pairs,
            correlation_threshold: F0_8,
            signal_threshold: F0_015,
            lookback_window: 90,
            min_data_points: 120,
            rolling_window: 45,
            confidence_level: F0_95,
            risk_adjustment: ONE,
        }
    }

    /// Create statistical arbitrage configuration
    pub fn statistical_arbitrage(asset_pairs: Vec<(String, String)>) -> (r: Self)
        ensures
            r == (CopulaStrategyConfig {
                copula_type: CopulaType::StudentT(F5_0),
                strategy_type: CopulaStrategyType::StatisticalArbitrage,
                asset_pairs,
                correlation_threshold: F0_6,
                signal_threshold: F0_01,
                lookback_window: 120,
                min_data_points: 150,
                rolling_window: 60,
                confidence_level: F0_99,
                risk_adjustment: F0_8,
            }),
    {
        Self {
            copula_type: CopulaType::StudentT(F5_0),
            strategy_type: CopulaStrategyType::StatisticalArbitrage,
            asset_pairs,
            correlation_threshold: F0_6,
            signal_threshold: F0_01,
            lookback_window: 120,
            min_data_points: 150,
            rolling_window: 60,
            confidence_level: F0_99,
            risk_adjustment: F0_8,
        }
    }

    /// Create portfolio optimization configuration: every asset is paired
    /// with each asset after it.
    pub fn portfolio_optimization(assets: Vec<String>) -> (r: Self)
        ensures
            pair_names(r.asset_pairs@) == all_pairs(names_of(assets@)),
            r.copula_type == CopulaType::Gaussian,
            r.strategy_type == CopulaStrategyType::PortfolioOptimization,
            r.correlation_threshold == F0_5,
            r.signal_threshold == F0_02,
            r.lookback_window == 150,
            r.min_data_points == 200,
            r.rolling_window == 75,
            r.confidence_level == F0_95,
            r.risk_adjustment == F1_2,
    {
        let ghost names = names_of(assets@);
        let n = assets.len();
        let mut asset_pairs: Vec<(String, String)> = Vec::new();
        let mut i: usize = 0;
        while i < n
            invariant
                n == assets@.len(),
                names == names_of(assets@),
                i <= n,
                pair_names(asset_pairs@) == pairs_of_first(names, i as int),
            decreases n - i,
        {
            let mut j: usize = i + 1;
            while j < n
                invariant
                    n == assets@.len(),
                    names == names_of(assets@),
                    i < n,
                    i + 1 <= j <= n,
                    pair_names(asset_pairs@) == pairs_of_first(names, i as int)
                        + pairs_with_later(names, i as int).take(j - i - 1),
                decreases n - j,
            {
                let ghost before = asset_pairs@;
                asset_pairs.push((assets[i].clone(), assets[j].clone()));
                proof {
                    let row = pairs_with_later(names, i as int);
                    assert(row.take(j - i) =~= row.take(j - i - 1).push(row[j - i - 1]));
                    assert(pair_names(asset_pairs@) =~= pair_names(before).push((names[i as int], names[j as int])));
                }
                j = j + 1;
            }
            proof {
                let row = pairs_with_later(names, i as int);
                assert(row.take(n - i - 1) =~= row);
            }
            i = i + 1;
        }
        Self {
            copula_type: CopulaType::Gaussian,
            strategy_type: CopulaStrategyType::PortfolioOptimization,
            asset_pairs,
            correlation_threshold: F0_5,
            signal_threshold: F0_02,
            lookback_window: 150,
            min_data_points: 200,
            rolling_window: 75,
            confidence_level: F0_95,
            risk_adjustment: F1_2,
        }
    }

    /// Create risk management configuration
    pub fn risk_management(asset_pairs: Vec<(String, String)>) -> (r: Self)
        ensures
            r == (CopulaStrategyConfig {
                copula_type: CopulaType::Clayton(F2_0),
                strategy_type: CopulaStrategyType::RiskManagement,
                asset_pairs,
                correlation_threshold: F0_9,
                signal_threshold: F0_005,
                lookback_window: 200,
                min_data_points: 250,
                rolling_window: 100,
                confidence_level: F0_99,
                risk_adjustment: F0_5,
            }),
    {
        Self {
            copula_type: CopulaType::Clayton(F2_0),
            strategy_type: CopulaStrategyType::RiskManagement,
            asset_pairs,
            correlation_threshold: F0_9,
            signal_threshold: F0_005,
            lookback_window: 200,
            min_data_points: 250,
            rolling_window: 100,
            confidence_level: F0_99,
            risk_adjustment: F0_5,
        }
    }
}

impl Default for CopulaStrategyConfig {
    fn default() -> (r: Self)
        ensures
            pair_names(r.asset_pairs@) == seq![("ASSET1"@, "ASSET2"@)],
            r.copula_type == CopulaType::Gaussian,
            r.strategy_type == CopulaStrategyType::PairsTrading,
            r.lookback_window == 60,
            r.correlation_threshold == F0_7,
            r.signal_threshold == F0_02,
            r.min_data_points == 100,
            r.rolling_window == 30,
            r.confidence_level == F0_95,
            r.risk_adjustment == ONE,
    {
        let mut asset_pairs: Vec<(String, String)> = Vec::new();
        asset_pairs.push((String::from_str("ASSET1"), String::from_str("ASSET2")));
        proof {
            assert(pair_names(asset_pairs@) =~= seq![("ASSET1"@, "ASSET2"@)]);
        }
        Self {
            copula_type: CopulaType::Gaussian,
            strategy_type: CopulaStrategyType::PairsTrading,
            asset_pairs,
            lookback_window: 60,
            correlation_threshold: F0_7,
            signal_threshold: F0_02,
            min_data_points: 100,
            rolling_window: 30,
            confidence_level: F0_95,
            risk_adjustment: ONE,
        }
    }
}

/// Which copula parameters are accepted: at least one asset pair, a
/// correlation threshold in [0, 1], a signal threshold not at or below zero
/// nor above one, and the copula's own parameter: positive degrees of
/// freedom for Student-t, a positive alpha for Clayton, an alpha not below
/// one for Gumbel (comparisons with NaN are false, as for doubles).
pub proof fn lemma_copula_accepted(
    copula_type: CopulaType,
    asset_pair_count: nat,
    correlation_threshold: u64,
    signal_threshold: u64,
)
    ensures
        copula_problem(copula_type, asset_pair_count, correlation_threshold, signal_threshold) is None <==> {
            &&& asset_pair_count > 0
            &&& in_unit_interval(correlation_threshold)
            &&& !f64_le(signal_threshold, ZERO) && !f64_lt(ONE, signal_threshold)
            &&& copula_type matches CopulaType::StudentT(df) ==> !f64_le(df, ZERO)
            &&& copula_type matches CopulaType::Clayton(alpha) ==> !f64_le(alpha, ZERO)
            &&& copula_type matches CopulaType::Gumbel(alpha) ==> !f64_lt(alpha, ONE)
        },
{
}

} // verus!
