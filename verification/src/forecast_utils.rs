//! Checks of tabular input against a strategy's requirements, rolling
//! windows over a series, and the signal a forecast change gives. A table
//! is described by its column names and its number of rows.

use vstd::prelude::*;
use crate::text::{decimal, join, usize_to_decimal};
use crate::float_bits::{f64_le, f64_lt, f64_neg, is_nan_bits, lemma_neg_mirrors, lt, neg, ZERO};
use crate::types::{NyxsOwlError, Signal};

verus! {

/// The position of the first name of `required` absent from `available`.
pub open spec fn first_missing(required: Seq<Seq<char>>, available: Seq<Seq<char>>) -> Option<int>
    decreases required.len(),
{
    if required.len() == 0 {
        None
    } else {
        match first_missing(required.drop_last(), available) {
            Some(i) => Some(i),
            None => if available.contains(required.last()) {
                None
            } else {
                Some(required.len() - 1)
            },
        }
    }
}

/// The first missing name: none exactly when every required name is
/// available; otherwise the earliest required name that is not, all names
/// before it being available.
pub proof fn lemma_first_missing(required: Seq<Seq<char>>, available: Seq<Seq<char>>)
    ensures
        first_missing(required, available) is None <==> forall|k: int| 0 <= k < required.len()
            ==> available.contains(#[trigger] required[k]),
        first_missing(required, available) matches Some(i) ==> 0 <= i < required.len() && !available.contains(
            required[i]) && forall|k: int| 0 <= k < i ==> available.contains(#[trigger] required[k]),
    decreases required.len(),
{
    if required.len() > 0 {
        let pre = required.drop_last();
        lemma_first_missing(pre, available);
        assert forall|k: int| 0 <= k < pre.len() implies #[trigger] pre[k] == required[k] by {}
        match first_missing(pre, available) {
            Some(i) => {
                assert(pre[i] == required[i]);
                assert forall|k: int| 0 <= k < i implies available.contains(#[trigger] required[k]) by {
                    assert(pre[k] == required[k]);
                    assert(available.contains(pre[k]));
                }
            },
            None => {
                assert forall|k: int| 0 <= k < pre.len() implies available.contains(#[trigger] required[k]) by {
                    assert(pre[k] == required[k]);
                    assert(available.contains(pre[k]));
                }
                if available.contains(required.last()) {
                    assert forall|k: int| 0 <= k < required.len() implies available.contains(#[trigger] required[k]) by {
                        if k == required.len() - 1 {
                            assert(required[k] == required.last());
                        }
                    }
                }
            },
        }
    }
}

/// The texts of a sequence of string slices.
pub open spec fn str_texts(names: Seq<&str>) -> Seq<Seq<char>> {
    names.map_values(|k: &str| k@)
}

/// The texts of a sequence of strings.
pub open spec fn string_texts(names: Seq<String>) -> Seq<Seq<char>> {
    names.map_values(|k: String| k@)
}

/// A list of names rendered as `["a", "b"]`.
pub open spec fn quoted_list(names: Seq<Seq<char>>) -> Seq<char> {
    "["@ + join(names.map_values(|n: Seq<char>| "\""@ + n + "\""@), ", "@) + "]"@
}

proof fn lemma_first_missing_prefix(required: Seq<Seq<char>>, available: Seq<Seq<char>>, i: int)
    requires
        0 <= i < required.len(),
        first_missing(required.subrange(0, i), available) is None,
    ensures
        available.contains(required[i]) ==> first_missing(required.subrange(0, i + 1), available) is None,
        !available.contains(required[i]) ==> first_missing(required.subrange(0, i + 1), available) == Some(i),
{
    let pre = required.subrange(0, i + 1);
    assert(pre.drop_last() =~= required.subrange(0, i));
}

/// Whether `name` is among `available`.
fn has_column(available: &[String], name: &str) -> (r: bool)
    ensures
        r == string_texts(available@).contains(name@),
{
    let target = name.to_owned();
    let n = available.len();
    let mut i: usize = 0;
    while i < n
        invariant
            n == available@.len(),
            i <= n,
            target@ == name@,
            forall|j: int| 0 <= j < i ==> available@[j]@ != name@,
        decreases n - i,
    {
        if available[i] == target {
            proof {
                assert(string_texts(available@)[i as int] == name@);
            }
            return true;
        }
        i = i + 1;
    }
    proof {
        if string_texts(available@).contains(name@) {
            let j = choose|j: int| 0 <= j < string_texts(available@).len() && string_texts(available@)[j] == name@;
            assert(available@[j]@ == name@);
        }
    }
    false
}

/// The first required column absent from `available`, if any.
fn find_missing<'a>(required: &[&'a str], available: &[String]) -> (r: Option<&'a str>)
    ensures
        first_missing(str_texts(required@), string_texts(available@)) is None <==> r is None,
        first_missing(str_texts(required@), string_texts(available@)) matches Some(i) ==> (r matches Some(c)
            && c@ == required@[i]@),
{
    let n = required.len();
    let mut i: usize = 0;
    while i < n
        invariant
            n == required@.len(),
            i <= n,
            first_missing(str_texts(required@).subrange(0, i as int), string_texts(available@)) is None,
        decreases n - i,
    {
        let present = has_column(available, required[i]);
        proof {
            lemma_first_missing_prefix(str_texts(required@), string_texts(available@), i as int);
            assert(str_texts(required@).subrange(0, i + 1) =~= str_texts(required@.subrange(0, i + 1)));
        }
        if !present {
            proof {
                lemma_first_missing_extends(str_texts(required@), string_texts(available@), i + 1);
            }
            return Some(required[i]);
        }
        i = i + 1;
    }
    assert(str_texts(required@).subrange(0, n as int) =~= str_texts(required@));
    None
}

proof fn lemma_first_missing_extends(required: Seq<Seq<char>>, available: Seq<Seq<char>>, k: int)
    requires
        0 <= k <= required.len(),
        first_missing(required.subrange(0, k), available) is Some,
    ensures
        first_missing(required, available) == first_missing(required.subrange(0, k), available),
    decreases required.len() - k,
{
    if k < required.len() {
        let pre = required.subrange(0, k + 1);
        assert(pre.drop_last() =~= required.subrange(0, k));
        lemma_first_missing_extends(required, available, k + 1);
    } else {
        assert(required.subrange(0, k) =~= required);
    }
}

/// Validates input data against a strategy's requirements: every required
/// column is present (the first missing one is reported), and there are
/// at least `min_data_points` rows.
pub fn validate_data(
    strategy_name: &str,
    required_columns: &[&str],
    available_columns: &[String],
    height: usize,
    min_data_points: usize,
) -> (r: Result<(), NyxsOwlError>)
    ensures
        first_missing(str_texts(required_columns@), string_texts(available_columns@)) matches Some(i) ==> (
            r matches Err(NyxsOwlError::MissingData(m)) && m@ == "Column '"@ + required_columns@[i]@ + "' not found"@),
        first_missing(str_texts(required_columns@), string_texts(available_columns@)) is None
            && height < min_data_points ==> (r matches Err(NyxsOwlError::StrategyError(m)) && m@ == "Insufficient data: "@
            + strategy_name@ + " requires at least "@ + decimal(min_data_points as nat) + " data points, but got "@
            + decimal(height as nat)),
        first_missing(str_texts(required_columns@), string_texts(available_columns@)) is None
            && height >= min_data_points ==> r is Ok,
{
    match find_missing(required_columns, available_columns) {
        Some(col) => {
            let mut m = String::from_str("Column '");
            m.append(col);
            m.append("' not found");
            Err(NyxsOwlError::MissingData(m))
        },
        None => {
            if height < min_data_points {
                let mut m = String::from_str("Insufficient data: ");
                m.append(strategy_name);
                m.append(" requires at least ");
                let a = usize_to_decimal(min_data_points);
                m.append(a.as_str());
                m.append(" data points, but got ");
                let b = usize_to_decimal(height);
                m.append(b.as_str());
                Err(NyxsOwlError::StrategyError(m))
            } else {
                Ok(())
            }
        },
    }
}

/// Renders column names as `["a", "b"]`.
fn quote_names(names: &[String]) -> (r: String)
    ensures
        r@ == quoted_list(string_texts(names@)),
{
    let ghost q = |n: Seq<char>| "\""@ + n + "\""@;
    let mut s = String::from_str("[");
    let n = names.len();
    let mut i: usize = 0;
    while i < n
        invariant
            n == names@.len(),
            i <= n,
            q == (|n: Seq<char>| "\""@ + n + "\""@),
            s@ == "["@ + join(string_texts(names@.subrange(0, i as int)).map_values(q), ", "@),
        decreases n - i,
    {
        let ghost prev = string_texts(names@.subrange(0, i as int)).map_values(q);
        if i > 0 {
            s.append(", ");
        }
        s.append("\"");
        s.append(names[i].as_str());
        s.append("\"");
        proof {
            let cur = string_texts(names@.subrange(0, i + 1)).map_values(q);
            assert(cur.drop_last() =~= prev);
            assert(cur.last() == q(names@[i as int]@));
            if i == 0 {
                assert(cur.len() == 1);
            }
        }
        i = i + 1;
    }
    assert(names@.subrange(0, n as int) =~= names@);
    s.append("]");
    s
}

/// Validate that a table has minimum required rows and the specified
/// columns: the row count is checked first, then the columns in order.
pub fn validate_dataframe(
    height: usize,
    available_columns: &[String],
    required_columns: &[&str],
    min_rows: usize,
    strategy_name: &str,
) -> (r: Result<(), NyxsOwlError>)
    ensures
        height < min_rows ==> (r matches Err(NyxsOwlError::MissingData(m)) && m@ == strategy_name@
            + " strategy requires at least "@ + decimal(min_rows as nat) + " rows, got "@ + decimal(height as nat)),
        height >= min_rows ==> match first_missing(str_texts(required_columns@), string_texts(available_columns@)) {
            Some(i) => r matches Err(NyxsOwlError::DataError(m)) && m@ == strategy_name@ + " strategy requires column '"@
                + required_columns@[i]@ + "', but it was not found. Available columns: "@ + quoted_list(
                string_texts(available_columns@),
            ),
            None => r is Ok,
        },
{
    if height < min_rows {
        let mut m = String::from_str(strategy_name);
        m.append(" strategy requires at least ");
        let a = usize_to_decimal(min_rows);
        m.append(a.as_str());
        m.append(" rows, got ");
        let b = usize_to_decimal(height);
        m.append(b.as_str());
        return Err(NyxsOwlError::MissingData(m));
    }
    match find_missing(required_columns, available_columns) {
        Some(col) => {
            let mut m = String::from_str(strategy_name);
            m.append(" strategy requires column '");
            m.append(col);
            m.append("', but it was not found. Available columns: ");
            let listed = quote_names(available_columns);
            m.append(listed.as_str());
            Err(NyxsOwlError::DataError(m))
        },
        None => Ok(()),
    }
}

/// The windows of `window_size` consecutive elements of `data`, from the
/// first position on (one empty window per position plus one when the size is zero).
pub fn rolling_windows<T>(data: &[T], window_size: usize) -> (r: Vec<&[T]>)
    ensures
        window_size <= data@.len() ==> r@.len() == data@.len() - window_size + 1,
        window_size > data@.len() ==> r@.len() == 0,
        forall|k: int| 0 <= k < r@.len() ==> (#[trigger] r@[k])@ == data@.subrange(k, k + window_size),
{
    let mut r: Vec<&[T]> = Vec::new();
    if window_size > data.len() {
        return r;
    }
    let n = data.len();
    let last = n - window_size;
    let mut k: usize = 0;
    loop
        invariant_except_break
            n == data@.len(),
            window_size <= n,
            last == n - window_size,
            k <= last,
            r@.len() == k,
            forall|j: int| 0 <= j < r@.len() ==> (#[trigger] r@[j])@ == data@.subrange(j, j + window_size),
        ensures
            r@.len() == last + 1,
            forall|j: int| 0 <= j < r@.len() ==> (#[trigger] r@[j])@ == data@.subrange(j, j + window_size),
        decreases last - k,
    {
        let w = &data[k..k + window_size];
        r.push(w);
        if k == last {
            break;
        }
        k = k + 1;
    }
    r
}

/// The signal for a forecast percentage change against a threshold (both
/// doubles held as bit patterns): a rise beyond the threshold buys, a fall
/// beyond its negation sells, anything else (a NaN among it) holds.
pub open spec fn spec_change_signal(pct_change: u64, threshold: u64) -> Signal {
    if f64_lt(threshold, pct_change) {
        Signal::Buy
    } else if f64_lt(pct_change, f64_neg(threshold)) {
        Signal::Sell
    } else {
        Signal::Hold
    }
}

/// Convert percentage change to trading signal based on threshold
pub fn percentage_change_to_signal(pct_change: u64, threshold: u64) -> (r: Signal)
    ensures
        r == spec_change_signal(pct_change, threshold),
{
    if lt(threshold, pct_change) {
        Signal::Buy
    } else if lt(pct_change, neg(threshold)) {
        Signal::Sell
    } else {
        Signal::Hold
    }
}

/// The signal of the opposite direction: buying and selling swap, holding
/// stays.
pub open spec fn mirrored(s: Signal) -> Signal {
    match s {
        Signal::Buy => Signal::Sell,
        Signal::Sell => Signal::Buy,
        Signal::Hold => Signal::Hold,
    }
}

/// With a non-negative threshold, the signal for the opposite change is the
/// mirrored signal: a fall as large as a rise that buys sells, and what
/// holds still holds.
pub proof fn lemma_change_signal_mirrors(pct_change: u64, threshold: u64)
    requires
        f64_le(ZERO, threshold),
    ensures
        spec_change_signal(f64_neg(pct_change), threshold) == mirrored(spec_change_signal(pct_change, threshold)),
{
    lemma_neg_mirrors(pct_change);
    lemma_neg_mirrors(threshold);
    assert(f64_neg(f64_neg(pct_change)) == pct_change) by (bit_vector);
    assert(0u64 & 0x7fff_ffff_ffff_ffffu64 == 0 && 0u64 >> 63u64 == 0) by (bit_vector);
}

/// Signals ranked from selling to buying: Sell, then Hold, then Buy.
pub open spec fn signal_rank(s: Signal) -> int {
    match s {
        Signal::Sell => 0,
        Signal::Hold => 1,
        Signal::Buy => 2,
    }
}

/// What the change signal says: Buy exactly when the change exceeds the
/// threshold; Sell exactly when it falls below the negated threshold
/// without exceeding the threshold; and a larger change never gives a
/// signal further toward selling (for values that are not NaN).
pub proof fn lemma_change_signal_order(p1: u64, p2: u64, threshold: u64)
    ensures
        spec_change_signal(p1, threshold) == Signal::Buy <==> f64_lt(threshold, p1),
        spec_change_signal(p1, threshold) == Signal::Sell <==> !f64_lt(threshold, p1) && f64_lt(p1, f64_neg(threshold)),
        !is_nan_bits(p1) && !is_nan_bits(p2) && !is_nan_bits(threshold) && f64_le(p1, p2) ==> signal_rank(
            spec_change_signal(p1, threshold)) <= signal_rank(spec_change_signal(p2, threshold)),
{
    lemma_neg_mirrors(threshold);
}

} // verus!
