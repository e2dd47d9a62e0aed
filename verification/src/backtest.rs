//! Trade planning for backtests: which positions a signal series opens and
//! closes, and at which positions of the series.

use vstd::prelude::*;
use crate::types::{NyxsOwlError, Signal};

verus! {

/// Side of a position.
#[derive(Debug, Clone, Copy, PartialEq, Eq, Structural)]
pub enum PositionType {
    /// Bought first, sold to close.
    Long,
    /// Sold first, bought to close.
    Short,
}

/// A round trip: the positions in the series where a position was opened
/// and closed, and its side.
#[derive(Debug, Clone, Copy, PartialEq, Eq, Structural)]
pub struct TradeSpan {
    /// Index where the position was opened.
    pub entry_index: usize,
    /// Index where the position was closed.
    pub exit_index: usize,
    /// Side of the position.
    pub position_type: PositionType,
}

/// The open position, if any: where it was opened and its side.
pub type OpenPosition = Option<(usize, PositionType)>;

/// One step of the trading rules at index `i`: a Buy opens a long position
/// or closes a short one, a Sell closes a long position or opens a short
/// one; anything else leaves the position as it is.
pub open spec fn trade_step(open: OpenPosition, i: usize, signal: Signal) -> (OpenPosition, Option<TradeSpan>) {
    match (open, signal) {
        (None, Signal::Buy) => (Some((i, PositionType::Long)), None),
        (Some((e, PositionType::Long)), Signal::Sell) =>
            (None, Some(TradeSpan { entry_index: e, exit_index: i, position_type: PositionType::Long })),
        (None, Signal::Sell) => (Some((i, PositionType::Short)), None),
        (Some((e, PositionType::Short)), Signal::Buy) =>
            (None, Some(TradeSpan { entry_index: e, exit_index: i, position_type: PositionType::Short })),
        _ => (open, None),
    }
}

/// The open position and the closed trades after following `signals`.
pub open spec fn trade_run(signals: Seq<Signal>) -> (OpenPosition, Seq<TradeSpan>)
    decreases signals.len(),
{
    if signals.len() == 0 {
        (None, Seq::empty())
    } else {
        let (open, trades) = trade_run(signals.drop_last());
        let (next, closed) = trade_step(open, (signals.len() - 1) as usize, signals.last());
        match closed {
            Some(t) => (next, trades.push(t)),
            None => (next, trades),
        }
    }
}

/// The trades of a backtest over `signals`: the closed trades, then the
/// position still open at the end, closed at the last index.
pub open spec fn planned_trades(signals: Seq<Signal>) -> Seq<TradeSpan> {
    let (open, trades) = trade_run(signals);
    match open {
        Some((e, side)) => trades.push(
            TradeSpan { entry_index: e, exit_index: (signals.len() - 1) as usize, position_type: side },
        ),
        None => trades,
    }
}

/// Trades that lie inside a series of length `n`, each opening no later
/// than it closes, each closing before the next one opens.
pub open spec fn trades_ordered(trades: Seq<TradeSpan>, n: nat) -> bool {
    &&& forall|k: int| 0 <= k < trades.len() ==> (#[trigger] trades[k]).entry_index <= trades[k].exit_index < n
    &&& forall|j: int, k: int| 0 <= j < k < trades.len() ==> (#[trigger] trades[j]).exit_index < (#[trigger] trades[k]).entry_index
}

/// What the trade rules keep after reading a series of length `n`: ordered
/// closed trades, and an open position that started after the last of them.
pub open spec fn run_ordered(open: OpenPosition, trades: Seq<TradeSpan>, n: nat) -> bool {
    &&& trades_ordered(trades, n)
    &&& open matches Some((e, _)) ==> e < n && (trades.len() > 0 ==> trades.last().exit_index < e)
}

/// The entries of trades and of the open position sit on the signals that
/// start their side.
pub open spec fn entries_match(open: OpenPosition, trades: Seq<TradeSpan>, signals: Seq<Signal>) -> bool {
    &&& forall|k: int| 0 <= k < trades.len() ==> entry_matches(#[trigger] trades[k].entry_index,
        trades[k].position_type, signals)
    &&& open matches Some((e, side)) ==> entry_matches(e, side, signals)
}

/// Index `e` of `signals` holds the signal that opens a position of `side`.
pub open spec fn entry_matches(e: usize, side: PositionType, signals: Seq<Signal>) -> bool {
    &&& e < signals.len()
    &&& side == PositionType::Long ==> signals[e as int] == Signal::Buy
    &&& side == PositionType::Short ==> signals[e as int] == Signal::Sell
}

/// Appending a trade that opens after the last one closes, and lies in
/// the series, keeps the trades ordered and their entries matched.
proof fn lemma_push_trade(trades: Seq<TradeSpan>, t: TradeSpan, signals: Seq<Signal>)
    requires
        trades_ordered(trades, signals.len()),
        trades.len() > 0 ==> trades.last().exit_index < t.entry_index,
        t.entry_index <= t.exit_index < signals.len(),
        forall|k: int| 0 <= k < trades.len() ==> entry_matches(#[trigger] trades[k].entry_index,
            trades[k].position_type, signals),
        entry_matches(t.entry_index, t.position_type, signals),
    ensures
        trades_ordered(trades.push(t), signals.len()),
        forall|k: int| 0 <= k < trades.push(t).len() ==> entry_matches(#[trigger] trades.push(t)[k].entry_index,
            trades.push(t)[k].position_type, signals),
{
    let ts = trades.push(t);
    assert forall|j: int, k: int| 0 <= j < k < ts.len() implies (#[trigger] ts[j]).exit_index < (#[trigger] ts[k]).entry_index by {
        assert(ts[j] == trades[j]);
        if k < trades.len() {
            assert(ts[k] == trades[k]);
        } else if j < trades.len() - 1 {
            assert(trades[j].exit_index < trades[trades.len() - 1].entry_index);
        }
    }
    assert forall|k: int| 0 <= k < ts.len() implies (#[trigger] ts[k]).entry_index <= ts[k].exit_index < signals.len() by {
        if k < trades.len() {
            assert(ts[k] == trades[k]);
        }
    }
    assert forall|k: int| 0 <= k < ts.len() implies entry_matches(#[trigger] ts[k].entry_index,
        ts[k].position_type, signals) by {
        if k < trades.len() {
            assert(ts[k] == trades[k]);
        }
    }
}

proof fn lemma_step_keeps(open: OpenPosition, trades: Seq<TradeSpan>, signals: Seq<Signal>)
    requires
        signals.len() > 0,
        signals.len() <= usize::MAX,
        run_ordered(open, trades, (signals.len() - 1) as nat),
        entries_match(open, trades, signals.drop_last()),
    ensures
        ({
            let (next, closed) = trade_step(open, (signals.len() - 1) as usize, signals.last());
            let ts = match closed {
                Some(t) => trades.push(t),
                None => trades,
            };
            run_ordered(next, ts, signals.len()) && entries_match(next, ts, signals)
        }),
{
    let i = (signals.len() - 1) as usize;
    let prev = signals.drop_last();
    let (next, closed) = trade_step(open, i, signals.last());
    assert forall|e: usize, side: PositionType| entry_matches(e, side, prev) implies entry_matches(e, side, signals) by {
        assert(signals[e as int] == prev[e as int]);
    }
    assert(signals[i as int] == signals.last());
    assert forall|k: int| 0 <= k < trades.len() implies entry_matches(#[trigger] trades[k].entry_index,
        trades[k].position_type, signals) by {
        assert(entry_matches(trades[k].entry_index, trades[k].position_type, prev));
    }
    if let Some(t) = closed {
        lemma_push_trade(trades, t, signals);
    }
}

proof fn lemma_trade_run_keeps(signals: Seq<Signal>)
    requires
        signals.len() <= usize::MAX,
    ensures
        run_ordered(trade_run(signals).0, trade_run(signals).1, signals.len()),
        entries_match(trade_run(signals).0, trade_run(signals).1, signals),
    decreases signals.len(),
{
    if signals.len() > 0 {
        lemma_trade_run_keeps(signals.drop_last());
        let (open, trades) = trade_run(signals.drop_last());
        lemma_step_keeps(open, trades, signals);
    }
}

/// The trades of any signal series are ordered: each lies inside the
/// series, opens no later than it closes and closes before the next one
/// opens; and each opens on the signal that starts its side (Buy for long,
/// Sell for short).
pub proof fn lemma_planned_trades_ordered(signals: Seq<Signal>)
    requires
        signals.len() <= usize::MAX,
    ensures
        trades_ordered(planned_trades(signals), signals.len()),
        forall|k: int| 0 <= k < planned_trades(signals).len() ==> entry_matches(
            #[trigger] planned_trades(signals)[k].entry_index,
            planned_trades(signals)[k].position_type,
            signals,
        ),
{
    lemma_trade_run_keeps(signals);
    let (open, trades) = trade_run(signals);
    let ts = planned_trades(signals);
    if let Some((e, side)) = open {
        let t = TradeSpan { entry_index: e, exit_index: (signals.len() - 1) as usize, position_type: side };
        lemma_push_trade(trades, t, signals);
    }
}

/// The signal that closes a position of `side`: Sell for long, Buy for
/// short.
pub open spec fn closing_signal(side: PositionType) -> Signal {
    match side {
        PositionType::Long => Signal::Sell,
        PositionType::Short => Signal::Buy,
    }
}

/// No trade of `trades` spans index `j`.
pub open spec fn uncovered(trades: Seq<TradeSpan>, j: int) -> bool {
    forall|k: int| 0 <= k < trades.len() ==> !((#[trigger] trades[k]).entry_index <= j <= trades[k].exit_index)
}

/// What the trade rules keep about exits after reading `signals`: each
/// closed trade closes on its side's closing signal with none before it,
/// the open position has met no closing signal, and every index outside
/// the trades and before the open position holds Hold.
spec fn exits_match(open: OpenPosition, trades: Seq<TradeSpan>, signals: Seq<Signal>) -> bool {
    &&& forall|k: int| 0 <= k < trades.len() ==> signals[(#[trigger] trades[k]).exit_index as int]
        == closing_signal(trades[k].position_type)
    &&& forall|k: int, j: int| 0 <= k < trades.len() && (#[trigger] trades[k]).entry_index < j
        < trades[k].exit_index ==> #[trigger] signals[j] != closing_signal(trades[k].position_type)
    &&& open matches Some((e, side)) ==> forall|j: int| e < j < signals.len() ==> #[trigger] signals[j]
        != closing_signal(side)
    &&& forall|j: int| 0 <= j < signals.len() && uncovered(trades, j) && !(open matches Some((e, _)) && e <= j)
        ==> #[trigger] signals[j] == Signal::Hold
}

proof fn lemma_step_exits(open: OpenPosition, trades: Seq<TradeSpan>, signals: Seq<Signal>)
    requires
        signals.len() > 0,
        signals.len() <= usize::MAX,
        run_ordered(open, trades, (signals.len() - 1) as nat),
        exits_match(open, trades, signals.drop_last()),
    ensures
        ({
            let (next, closed) = trade_step(open, (signals.len() - 1) as usize, signals.last());
            let ts = match closed {
                Some(t) => trades.push(t),
                None => trades,
            };
            exits_match(next, ts, signals)
        }),
{
    let n = signals.len();
    let i = (n - 1) as usize;
    let prev = signals.drop_last();
    let (next, closed) = trade_step(open, i, signals.last());
    assert(signals[i as int] == signals.last());
    assert forall|j: int| 0 <= j < prev.len() implies #[trigger] signals[j] == prev[j] by {}
    match closed {
        Some(t) => {
            let ts = trades.push(t);
            assert forall|k: int| 0 <= k < ts.len() implies signals[(#[trigger] ts[k]).exit_index as int]
                == closing_signal(ts[k].position_type) by {
                if k < trades.len() {
                    assert(ts[k] == trades[k]);
                    assert(signals[trades[k].exit_index as int] == prev[trades[k].exit_index as int]);
                }
            }
            assert forall|k: int, j: int| 0 <= k < ts.len() && (#[trigger] ts[k]).entry_index < j
                < ts[k].exit_index implies #[trigger] signals[j] != closing_signal(ts[k].position_type) by {
                if k < trades.len() {
                    assert(ts[k] == trades[k]);
                    assert(signals[j] == prev[j]);
                } else {
                    assert(signals[j] == prev[j]);
                }
            }
            assert forall|j: int| 0 <= j < signals.len() && uncovered(ts, j) && !(next matches Some((e, _)) && e
                <= j) implies #[trigger] signals[j] == Signal::Hold by {
                assert(ts[ts.len() - 1] == t);
                assert(uncovered(trades, j)) by {
                    assert forall|k: int| 0 <= k < trades.len() implies !((#[trigger] trades[k]).entry_index <= j
                        <= trades[k].exit_index) by {
                        assert(ts[k] == trades[k]);
                    }
                }
                assert(signals[j] == prev[j]);
            }
        },
        None => {
            assert forall|k: int| 0 <= k < trades.len() implies signals[(#[trigger] trades[k]).exit_index as int]
                == closing_signal(trades[k].position_type) by {
                assert(signals[trades[k].exit_index as int] == prev[trades[k].exit_index as int]);
            }
            assert forall|k: int, j: int| 0 <= k < trades.len() && (#[trigger] trades[k]).entry_index < j
                < trades[k].exit_index implies #[trigger] signals[j] != closing_signal(trades[k].position_type) by {
                assert(signals[j] == prev[j]);
            }
            assert forall|j: int| 0 <= j < signals.len() && uncovered(trades, j) && !(next matches Some((e, _))
                && e <= j) implies #[trigger] signals[j] == Signal::Hold by {
                if j < prev.len() {
                    assert(signals[j] == prev[j]);
                }
            }
            if let Some((e, side)) = next {
                assert forall|j: int| e < j < signals.len() implies #[trigger] signals[j] != closing_signal(side) by {
                    if j < prev.len() {
                        assert(signals[j] == prev[j]);
                    }
                }
            }
        },
    }
}

proof fn lemma_trade_run_exits(signals: Seq<Signal>)
    requires
        signals.len() <= usize::MAX,
    ensures
        exits_match(trade_run(signals).0, trade_run(signals).1, signals),
    decreases signals.len(),
{
    if signals.len() > 0 {
        lemma_trade_run_exits(signals.drop_last());
        lemma_trade_run_keeps(signals.drop_last());
        let (open, trades) = trade_run(signals.drop_last());
        lemma_step_exits(open, trades, signals);
    }
}

/// Where the trades of any signal series close, and what lies between
/// them: a trade closes on the first signal of the other side after it
/// opened (Sell for a long position, Buy for a short one), or at the last
/// index when no such signal comes, so a Hold, or a signal of its own side,
/// never closes a position; and every index that no trade spans holds
/// Hold, so each Buy or Sell met without an open position opens one.
pub proof fn lemma_planned_trades_exits(signals: Seq<Signal>)
    requires
        signals.len() <= usize::MAX,
    ensures
        forall|k: int| 0 <= k < planned_trades(signals).len() ==> {
            let t = #[trigger] planned_trades(signals)[k];
            t.exit_index == signals.len() - 1 || signals[t.exit_index as int] == closing_signal(t.position_type)
        },
        forall|k: int, j: int| 0 <= k < planned_trades(signals).len() && (#[trigger] planned_trades(signals)[k]).entry_index
            < j < planned_trades(signals)[k].exit_index ==> #[trigger] signals[j]
            != closing_signal(planned_trades(signals)[k].position_type),
        forall|j: int| 0 <= j < signals.len() && uncovered(planned_trades(signals), j) ==> #[trigger] signals[j]
            == Signal::Hold,
{
    lemma_trade_run_exits(signals);
    lemma_trade_run_keeps(signals);
    let (open, trades) = trade_run(signals);
    let ts = planned_trades(signals);
    if let Some((e, side)) = open {
        let t = TradeSpan { entry_index: e, exit_index: (signals.len() - 1) as usize, position_type: side };
        assert(ts == trades.push(t));
        assert forall|k: int| 0 <= k < ts.len() implies {
            let u = #[trigger] ts[k];
            u.exit_index == signals.len() - 1 || signals[u.exit_index as int] == closing_signal(u.position_type)
        } by {
            if k < trades.len() {
                assert(ts[k] == trades[k]);
            }
        }
        assert forall|k: int, j: int| 0 <= k < ts.len() && (#[trigger] ts[k]).entry_index < j < ts[k].exit_index
            implies #[trigger] signals[j] != closing_signal(ts[k].position_type) by {
            if k < trades.len() {
                assert(ts[k] == trades[k]);
            }
        }
        assert forall|j: int| 0 <= j < signals.len() && uncovered(ts, j) implies #[trigger] signals[j]
            == Signal::Hold by {
            assert(ts[ts.len() - 1] == t);
            assert(uncovered(trades, j)) by {
                assert forall|k: int| 0 <= k < trades.len() implies !((#[trigger] trades[k]).entry_index <= j
                    <= trades[k].exit_index) by {
                    assert(ts[k] == trades[k]);
                }
            }
        }
    }
}

/// Execute trades based on signals: the round trips that the signals call
/// for, in order, with a position still open at the end closed at the last
/// index.
pub fn execute_trades(signals: &[Signal]) -> (r: Vec<TradeSpan>)
    ensures
        r@ == planned_trades(signals@),
{
    let mut trades: Vec<TradeSpan> = Vec::new();
    let mut current: OpenPosition = None;
    let n = signals.len();
    let mut i: usize = 0;
    while i < n
        invariant
            n == signals@.len(),
            i <= n,
            (current, trades@) == trade_run(signals@.subrange(0, i as int)),
        decreases n - i,
    {
        proof {
            let pre = signals@.subrange(0, i + 1);
            assert(pre.drop_last() =~= signals@.subrange(0, i as int));
            assert(pre.last() == signals@[i as int]);
        }
        let signal = signals[i];
        match (current, signal) {
            (None, Signal::Buy) => {
                current = Some((i, PositionType::Long));
            },
            (Some((e, PositionType::Long)), Signal::Sell) => {
                trades.push(TradeSpan { entry_index: e, exit_index: i, position_type: PositionType::Long });
                current = None;
            },
            (None, Signal::Sell) => {
                current = Some((i, PositionType::Short));
            },
            (Some((e, PositionType::Short)), Signal::Buy) => {
                trades.push(TradeSpan { entry_index: e, exit_index: i, position_type: PositionType::Short });
                current = None;
            },
            _ => {},
        }
        i = i + 1;
    }
    assert(signals@.subrange(0, n as int) =~= signals@);
    if let Some((e, side)) = current {
        trades.push(TradeSpan { entry_index: e, exit_index: n - 1, position_type: side });
    }
    trades
}

/// Checks the inputs of a backtest: prices and signals of the same, non-zero length.
pub fn validate_backtest_input(prices_len: usize, signals_len: usize) -> (r: Result<(), NyxsOwlError>)
    ensures
        prices_len != signals_len ==> (r matches Err(NyxsOwlError::BacktestError(m))
            && m@ == "Prices and signals must have the same length"@),
        prices_len == signals_len && prices_len == 0 ==> (r matches Err(NyxsOwlError::BacktestError(m))
            && m@ == "Cannot backtest with empty data"@),
        prices_len == signals_len && prices_len > 0 ==> r is Ok,
{
    if prices_len != signals_len {
        return Err(NyxsOwlError::BacktestError(String::from_str("Prices and signals must have the same length")));
    }
    if prices_len == 0 {
        return Err(NyxsOwlError::BacktestError(String::from_str("Cannot backtest with empty data")));
    }
    Ok(())
}

} // verus!
