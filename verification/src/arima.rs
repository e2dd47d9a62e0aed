//! Parameters of the ARIMA trading strategy: strategy type parsing and
//! extraction of the (p, d, q) orders and threshold from a configuration.

use vstd::prelude::*;
use crate::outside::{lowercase, millis_in_range, millis_representable, to_lowercase};
use crate::strategy_config::{ConfigValue, FloatParameter, StrategyConfig};
use crate::types::NyxsOwlError;

verus! {

/// Enum to define the type of ARIMA strategy application.
#[derive(Debug, Clone, Copy, PartialEq, Eq, Structural)]
pub enum ArimaStrategyType {
    /// Strategy that follows the trend indicated by ARIMA forecasts.
    TrendFollowing,
}

/// The texts, in lowercase, that name the trend following strategy.
pub open spec fn names_trend_following(lower: Seq<char>) -> bool {
    lower == "trend_following"@ || lower == "trendfollowing"@
}

/// The outcome of parsing a strategy type whose lowercase form is `lower`
/// and whose text as given is `text`.
pub open spec fn parse_outcome(lower: Seq<char>, text: Seq<char>) -> Result<ArimaStrategyType, Seq<char>> {
    if names_trend_following(lower) {
        Ok(ArimaStrategyType::TrendFollowing)
    } else {
        Err("Unknown ArimaStrategyType: "@ + text)
    }
}

impl ArimaStrategyType {
    /// Parses a strategy type given its lowercase form `lower` and the text
    /// `text` it came from.
    pub fn from_lowercase(lower: &str, text: &str) -> (r: Result<Self, NyxsOwlError>)
        ensures
            parse_outcome(lower@, text@) matches Ok(t) ==> r == Ok::<Self, NyxsOwlError>(t),
            parse_outcome(lower@, text@) matches Err(m) ==> (r matches Err(NyxsOwlError::InvalidParameter(e)) && e@ == m),
    {
        let l = lower.to_owned();
        if l == String::from_str("trend_following") || l == String::from_str("trendfollowing") {
            Ok(ArimaStrategyType::TrendFollowing)
        } else {
            let mut m = String::from_str("Unknown ArimaStrategyType: ");
            m.append(text);
            Err(NyxsOwlError::InvalidParameter(m))
        }
    }

    /// Parses a string to an `ArimaStrategyType`, ignoring case.
    pub fn from_string(s: &str) -> (r: Result<Self, NyxsOwlError>)
        ensures
            parse_outcome(lowercase(s@), s@) matches Ok(t) ==> r == Ok::<Self, NyxsOwlError>(t),
            parse_outcome(lowercase(s@), s@) matches Err(m) ==> (r matches Err(NyxsOwlError::InvalidParameter(e)) && e@ == m),
    {
        let lower = to_lowercase(s);
        Self::from_lowercase(lower.as_str(), s)
    }
}

/// The keys an ARIMA configuration must hold.
pub open spec fn arima_keys() -> Seq<Seq<char>> {
    seq!["p"@, "d"@, "q"@, "threshold"@, "strategy_type"@]
}

/// A configuration from which an ARIMA strategy can be built: integer
/// orders, a numeric threshold and a recognised strategy type.
pub open spec fn arima_config_ok(params: Map<Seq<char>, ConfigValue>) -> bool {
    &&& params.contains_key("p"@) && params["p"@] is Int
    &&& params.contains_key("d"@) && params["d"@] is Int
    &&& params.contains_key("q"@) && params["q"@] is Int
    &&& params.contains_key("threshold"@) && (params["threshold"@] is Int || params["threshold"@] is Float)
    &&& params.contains_key("strategy_type"@) && params["strategy_type"@] is String
    &&& names_trend_following(lowercase(params["strategy_type"@]->String_0@))
}

/// An ARIMA based trading strategy: its configuration and the parameters
/// read from it.
#[derive(Debug, Clone)]
pub struct ArimaStrategy {
    config: StrategyConfig,
    arima_p: usize,
    arima_d: usize,
    arima_q: usize,
    threshold: FloatParameter,
    strategy_type: ArimaStrategyType,
}

impl ArimaStrategy {
    /// The configuration the strategy was built from.
    pub closed spec fn spec_config(&self) -> StrategyConfig {
        self.config
    }

    /// The autoregressive order.
    pub closed spec fn spec_p(&self) -> usize {
        self.arima_p
    }

    /// The degree of differencing.
    pub closed spec fn spec_d(&self) -> usize {
        self.arima_d
    }

    /// The moving-average order.
    pub closed spec fn spec_q(&self) -> usize {
        self.arima_q
    }

    /// The signal threshold.
    pub closed spec fn spec_threshold(&self) -> FloatParameter {
        self.threshold
    }

    /// Creates a strategy from a configuration holding integer `p`, `d`,
    /// `q`, a numeric `threshold` and a `strategy_type` naming trend following.
    /// The orders are taken as `usize` (a negative order wraps around).
    pub fn new(config: StrategyConfig) -> (r: Self)
        requires
            arima_config_ok(config.params()),
        ensures
            r.spec_config().params() == config.params(),
            r.spec_p() == config.params()["p"@]->Int_0 as usize,
            r.spec_d() == config.params()["d"@]->Int_0 as usize,
            r.spec_q() == config.params()["q"@]->Int_0 as usize,
            r.spec_threshold() == match config.params()["threshold"@] {
                ConfigValue::Float(b) => FloatParameter::Bits(b),
                ConfigValue::Int(v) => FloatParameter::Int(v),
                _ => FloatParameter::Int(0),
            },
    {
        let p = match config.get_int("p") { Ok(v) => v, Err(_) => 0 };
        let d = match config.get_int("d") { Ok(v) => v, Err(_) => 0 };
        let q = match config.get_int("q") { Ok(v) => v, Err(_) => 0 };
        let threshold = match config.get_float("threshold") { Ok(t) => t, Err(_) => FloatParameter::Int(0) };
        let strategy_type = match config.get_string("strategy_type") {
            Ok(s) => match ArimaStrategyType::from_string(s) {
                Ok(t) => t,
                Err(_) => ArimaStrategyType::TrendFollowing,
            },
            Err(_) => ArimaStrategyType::TrendFollowing,
        };
        let copy = config.clone();
        ArimaStrategy {
            config: copy,
            arima_p: p as usize,
            arima_d: d as usize,
            arima_q: q as usize,
            threshold,
            strategy_type,
        }
    }

    /// Creates a strategy when the configuration allows one, as `new`
    /// describes; `None` otherwise.
    pub fn try_new(config: StrategyConfig) -> (r: Option<Self>)
        ensures
            r is Some <==> arima_config_ok(config.params()),
            r matches Some(s) ==> s.spec_config().params() == config.params()
                && s.spec_p() == config.params()["p"@]->Int_0 as usize
                && s.spec_d() == config.params()["d"@]->Int_0 as usize
                && s.spec_q() == config.params()["q"@]->Int_0 as usize
                && s.spec_threshold() == match config.params()["threshold"@] {
                    ConfigValue::Float(b) => FloatParameter::Bits(b),
                    ConfigValue::Int(v) => FloatParameter::Int(v),
                    _ => FloatParameter::Int(0),
                },
    {
        let ok_p = config.get_int("p").is_ok();
        let ok_d = config.get_int("d").is_ok();
        let ok_q = config.get_int("q").is_ok();
        let ok_t = config.get_float("threshold").is_ok();
        let ok_s = match config.get_string("strategy_type") {
            Ok(s) => ArimaStrategyType::from_string(s).is_ok(),
            Err(_) => false,
        };
        if ok_p && ok_d && ok_q && ok_t && ok_s {
            Some(Self::new(config))
        } else {
            None
        }
    }

    /// Returns the name of the strategy.
    pub fn name(&self) -> (r: &'static str)
        ensures
            r@ == "ARIMA Strategy"@,
    {
        "ARIMA Strategy"
    }

    /// Provides a brief description of the strategy.
    pub fn description(&self) -> (r: &'static str)
        ensures
            r@ == "A strategy based on ARIMA model forecasts (walk-forward). Supports Trend Following."@,
    {
        "A strategy based on ARIMA model forecasts (walk-forward). Supports Trend Following."
    }

    /// Lists the names of data columns required by the strategy.
    pub fn required_columns(&self) -> (r: Vec<&'static str>)
        ensures
            r@.len() == 2,
            r@[0]@ == "timestamp"@,
            r@[1]@ == "close"@,
    {
        let mut v: Vec<&'static str> = Vec::new();
        v.push("timestamp");
        v.push("close");
        v
    }

    /// Returns a reference to the strategy's configuration.
    pub fn config(&self) -> (r: &StrategyConfig)
        ensures
            *r == self.spec_config(),
    {
        &self.config
    }

    /// The autoregressive order.
    pub fn p(&self) -> (r: usize)
        ensures
            r == self.spec_p(),
    {
        self.arima_p
    }

    /// The degree of differencing.
    pub fn d(&self) -> (r: usize)
        ensures
            r == self.spec_d(),
    {
        self.arima_d
    }

    /// The moving-average order.
    pub fn q(&self) -> (r: usize)
        ensures
            r == self.spec_q(),
    {
        self.arima_q
    }

    /// The signal threshold.
    pub fn threshold(&self) -> (r: FloatParameter)
        ensures
            r == self.spec_threshold(),
    {
        self.threshold
    }

    /// The strategy type.
    pub fn strategy_type(&self) -> (r: ArimaStrategyType)
        ensures
            r == ArimaStrategyType::TrendFollowing,
    {
        self.strategy_type
    }

    /// The number of rows needed before signals are produced:
    /// `p + d + q + 20`, and at least 60.
    pub open spec fn spec_min_data_points(&self) -> int {
        let n = self.spec_p() + self.spec_d() + self.spec_q() + 20;
        if n >= 60 { n } else { 60 }
    }

    /// Specifies the minimum number of data points (rows) required.
    pub fn min_data_points(&self) -> (r: usize)
        requires
            self.spec_p() + self.spec_d() + self.spec_q() + 20 <= usize::MAX,
        ensures
            r == self.spec_min_data_points(),
    {
        let n = self.arima_p + self.arima_d + self.arima_q + 20;
        if n >= 60 { n } else { 60 }
    }

    /// The fewest non-missing observations the forecaster is fitted on:
    /// `max(p, 1) + max(q, 1) + d + 5`, and at least 10.
    pub fn min_dense_values(&self) -> (r: usize)
        requires
            self.spec_p() + self.spec_d() + self.spec_q() + 7 <= usize::MAX,
        ensures
            r == ({
                let n = (if self.spec_p() >= 1 { self.spec_p() as int } else { 1 }) + (if self.spec_q() >= 1 {
                    self.spec_q() as int
                } else {
                    1
                }) + self.spec_d() + 5;
                if n >= 10 { n } else { 10 }
            }),
    {
        let p = if self.arima_p >= 1 { self.arima_p } else { 1 };
        let q = if self.arima_q >= 1 { self.arima_q } else { 1 };
        let n = p + q + self.arima_d + 5;
        if n >= 10 { n } else { 10 }
    }
}

/// The rows before `end` that a fit can use, oldest first: a row is
/// usable when its timestamp and close are present and its timestamp is a
/// valid instant.
pub open spec fn usable_rows(usable: Seq<bool>, end: int) -> Seq<usize>
    decreases end,
{
    if end <= 0 {
        Seq::empty()
    } else if usable[end - 1] {
        usable_rows(usable, end - 1).push((end - 1) as usize)
    } else {
        usable_rows(usable, end - 1)
    }
}

/// Only earlier rows feed a walk-forward forecast: the rows a forecast at
/// `end` is fitted on are exactly the usable rows before `end`, each once,
/// in increasing order.
pub proof fn lemma_usable_rows(usable: Seq<bool>, end: int)
    requires
        0 <= end <= usable.len(),
        usable.len() <= usize::MAX,
    ensures
        usable_rows(usable, end).len() <= end,
        forall|j: int| 0 <= j < usable_rows(usable, end).len() ==> {
            let k = #[trigger] usable_rows(usable, end)[j];
            k < end && usable[k as int]
        },
        forall|j1: int, j2: int| 0 <= j1 < j2 < usable_rows(usable, end).len() ==>
            usable_rows(usable, end)[j1] < usable_rows(usable, end)[j2],
        forall|k: int| 0 <= k < end && usable[k] ==> usable_rows(usable, end).contains(k as usize),
    decreases end,
{
    if end > 0 {
        lemma_usable_rows(usable, end - 1);
        let prev = usable_rows(usable, end - 1);
        let cur = usable_rows(usable, end);
        if usable[end - 1] {
            assert(cur == prev.push((end - 1) as usize));
            assert forall|j: int| 0 <= j < cur.len() implies {
                let k = #[trigger] cur[j];
                k < end && usable[k as int]
            } by {
                if j < prev.len() {
                    assert(cur[j] == prev[j]);
                }
            }
            assert forall|j1: int, j2: int| 0 <= j1 < j2 < cur.len() implies cur[j1] < cur[j2] by {
                assert(cur[j1] == prev[j1]);
                if j2 < prev.len() {
                    assert(cur[j2] == prev[j2]);
                } else {
                    assert(prev[j1] < end - 1);
                }
            }
        } else {
            assert(cur == prev);
        }
        assert forall|k: int| 0 <= k < end && usable[k] implies cur.contains(k as usize) by {
            if k < end - 1 {
                assert(prev.contains(k as usize));
                let j = choose|j: int| 0 <= j < prev.len() && prev[j] == k as usize;
                assert(cur[j] == k as usize);
            } else {
                assert(cur[cur.len() - 1] == k as usize);
            }
        }
    }
}

/// Whether a row can feed a walk-forward fit: its close is present, and
/// its timestamp (milliseconds since the Unix epoch) is present and names a
/// representable instant.
pub open spec fn row_usable(timestamp: Option<i64>, close_present: bool) -> bool {
    close_present && match timestamp {
        Some(ms) => millis_in_range(ms),
        None => false,
    }
}

/// For each row, whether it can feed a walk-forward fit, as `row_usable`
/// says.
pub fn row_usability(timestamps: &Vec<Option<i64>>, closes_present: &Vec<bool>) -> (r: Vec<bool>)
    requires
        timestamps@.len() == closes_present@.len(),
    ensures
        r@.len() == timestamps@.len(),
        forall|k: int| 0 <= k < r@.len() ==> #[trigger] r@[k] == row_usable(timestamps@[k], closes_present@[k]),
{
    let n = timestamps.len();
    let mut flags: Vec<bool> = Vec::with_capacity(n);
    let mut k: usize = 0;
    while k < n
        invariant
            n == timestamps@.len(),
            n == closes_present@.len(),
            k <= n,
            flags@.len() == k,
            forall|j: int| 0 <= j < k ==> #[trigger] flags@[j] == row_usable(timestamps@[j], closes_present@[j]),
        decreases n - k,
    {
        let usable = if closes_present[k] {
            match timestamps[k] {
                Some(ms) => millis_representable(ms),
                None => false,
            }
        } else {
            false
        };
        flags.push(usable);
        k = k + 1;
    }
    flags
}

/// The rows that the walk-forward forecast at row `i` is fitted on: every
/// usable row before `i`, oldest first. `None` when fewer than `min_dense`
/// rows are usable, and the forecast at `i` is skipped.
pub fn walk_forward_fit_rows(usable: &Vec<bool>, i: usize, min_dense: usize) -> (r: Option<Vec<usize>>)
    requires
        i <= usable@.len(),
    ensures
        r is Some <==> usable_rows(usable@, i as int).len() >= min_dense,
        r matches Some(rows) ==> rows@ == usable_rows(usable@, i as int),
{
    let mut rows: Vec<usize> = Vec::new();
    let mut k: usize = 0;
    while k < i
        invariant
            k <= i,
            i <= usable@.len(),
            rows@ == usable_rows(usable@, k as int),
        decreases i - k,
    {
        if usable[k] {
            rows.push(k);
        }
        k = k + 1;
    }
    if rows.len() >= min_dense {
        Some(rows)
    } else {
        None
    }
}

impl ArimaStrategy {
    /// The fewest usable rows a fit needs: `max(p, 1) + max(q, 1) + d + 5`,
    /// and at least 10.
    pub open spec fn spec_min_dense_values(&self) -> int {
        let n = (if self.spec_p() >= 1 { self.spec_p() as int } else { 1 }) + (if self.spec_q() >= 1 {
            self.spec_q() as int
        } else {
            1
        }) + self.spec_d() + 5;
        if n >= 10 { n } else { 10 }
    }

    /// The rows the forecast at row `i` is fitted on, or `None` where no
    /// forecast is made: before row `min_data_points`, and where fewer
    /// than `min_dense_values` earlier rows are usable.
    pub open spec fn forecast_fit_plan(&self, usable: Seq<bool>, i: int) -> Option<Seq<usize>> {
        if i < self.spec_min_data_points() || usable_rows(usable, i).len() < self.spec_min_dense_values() {
            None
        } else {
            Some(usable_rows(usable, i))
        }
    }

    /// The rows the walk-forward forecast at row `i` is fitted on, as
    /// `forecast_fit_plan` says.
    pub fn forecast_fit_rows(&self, usable: &Vec<bool>, i: usize) -> (r: Option<Vec<usize>>)
        requires
            self.spec_p() + self.spec_d() + self.spec_q() + 20 <= usize::MAX,
            i <= usable@.len(),
        ensures
            r is None <==> self.forecast_fit_plan(usable@, i as int) is None,
            r matches Some(rows) ==> self.forecast_fit_plan(usable@, i as int) == Some(rows@),
    {
        let start = self.min_data_points();
        if i < start {
            return None;
        }
        let min_dense = self.min_dense_values();
        walk_forward_fit_rows(usable, i, min_dense)
    }
}

/// The data thresholds of a strategy: the rows needed before signals are
/// the larger of 60 and `p + d + q + 20`; the usable rows a fit needs are
/// the larger of 10 and `max(p, 1) + max(q, 1) + d + 5`.
pub proof fn lemma_data_thresholds(s: ArimaStrategy)
    ensures
        s.spec_min_data_points() >= 60,
        s.spec_min_data_points() >= s.spec_p() + s.spec_d() + s.spec_q() + 20,
        s.spec_min_data_points() == 60 || s.spec_min_data_points() == s.spec_p() + s.spec_d() + s.spec_q() + 20,
        s.spec_min_dense_values() >= 10,
        s.spec_min_dense_values() >= s.spec_p() + s.spec_q() + s.spec_d() + 5,
        s.spec_min_dense_values() >= 1 + 1 + s.spec_d() + 5,
        s.spec_min_dense_values() == 10 || s.spec_min_dense_values() == (if s.spec_p() >= 1 { s.spec_p() as int }
            else { 1 }) + (if s.spec_q() >= 1 { s.spec_q() as int } else { 1 }) + s.spec_d() + 5,
{
}

/// The usable rows before `end` depend on the rows before `end` alone.
proof fn lemma_usable_rows_prefix(u1: Seq<bool>, u2: Seq<bool>, end: int)
    requires
        0 <= end <= u1.len(),
        end <= u2.len(),
        forall|k: int| 0 <= k < end ==> u1[k] == u2[k],
    ensures
        usable_rows(u1, end) == usable_rows(u2, end),
    decreases end,
{
    if end > 0 {
        lemma_usable_rows_prefix(u1, u2, end - 1);
    }
}

/// No look-ahead: whether a forecast is made at row `i`, and the rows it
/// is fitted on, depend only on the rows before `i`. Two series whose
/// timestamps and closes agree on the rows before `i` get the same plan
/// at `i`, and that plan uses no row from `i` on.
pub proof fn lemma_no_look_ahead(
    s: ArimaStrategy,
    timestamps1: Seq<Option<i64>>,
    closes1: Seq<bool>,
    timestamps2: Seq<Option<i64>>,
    closes2: Seq<bool>,
    i: int,
)
    requires
        0 <= i <= timestamps1.len(),
        i <= timestamps2.len(),
        timestamps1.len() == closes1.len(),
        timestamps2.len() == closes2.len(),
        timestamps1.len() <= usize::MAX,
        forall|k: int| 0 <= k < i ==> timestamps1[k] == timestamps2[k] && closes1[k] == closes2[k],
    ensures
        ({
            let u1 = Seq::new(timestamps1.len(), |k: int| row_usable(timestamps1[k], closes1[k]));
            let u2 = Seq::new(timestamps2.len(), |k: int| row_usable(timestamps2[k], closes2[k]));
            &&& s.forecast_fit_plan(u1, i) == s.forecast_fit_plan(u2, i)
            &&& s.forecast_fit_plan(u1, i) matches Some(rows) ==> forall|j: int| 0 <= j < rows.len() ==> #[trigger] rows[j] < i
        }),
{
    let u1 = Seq::new(timestamps1.len(), |k: int| row_usable(timestamps1[k], closes1[k]));
    let u2 = Seq::new(timestamps2.len(), |k: int| row_usable(timestamps2[k], closes2[k]));
    lemma_usable_rows_prefix(u1, u2, i);
    lemma_usable_rows(u1, i);
}

} // verus!
