//! Live tick events from the quote stream and how they update the last bar.
//! Prices are integer cents and volumes whole shares, as on the wire.

use vstd::prelude::*;
use crate::text::{lemma_seq_lt_strict_total, seq_lt, str_equal, str_less};

verus! {

/// A complete one-bar candle as sent by the stream.
#[derive(Debug, Clone, Copy, PartialEq, Eq)]
pub struct WireCandle {
    /// Bucket start, Unix seconds.
    pub ts: i64,
    pub o: i64,
    pub h: i64,
    pub l: i64,
    pub c: i64,
    pub v: i64,
}

/// One event of the tick subscription.
#[derive(Debug, Clone, PartialEq, Eq)]
#[allow(inconsistent_fields)]
pub enum TickEvent {
    /// Snapshot of the current bar on subscribe; the bar may be absent.
    Seed { symbol: String, candle: Option<WireCandle> },
    /// Catch-up replay of today's ticks; not used by daily charts.
    Today { symbol: String },
    /// A running delta of the current bar; `ts` is in milliseconds.
    Delta { symbol: String, ts: i64, h: Option<i64>, l: Option<i64>, c: i64, v: Option<i64> },
    /// The final values of a bar that just closed.
    Finalize { symbol: String, candle: WireCandle },
}

/// The values a tick brings for the current bar; absent fields are left as
/// they are.
#[derive(Debug, Clone, Copy, PartialEq, Eq)]
pub struct BarUpdate {
    /// Timestamp, seconds or milliseconds.
    pub ts: i64,
    pub open: Option<i64>,
    pub high: Option<i64>,
    pub low: Option<i64>,
    pub close: Option<i64>,
    pub volume: Option<i64>,
}

/// The symbol an event is about.
pub open spec fn event_symbol(e: TickEvent) -> Seq<char> {
    match e {
        TickEvent::Seed { symbol, .. } => symbol@,
        TickEvent::Today { symbol } => symbol@,
        TickEvent::Delta { symbol, .. } => symbol@,
        TickEvent::Finalize { symbol, .. } => symbol@,
    }
}

/// All fields of a full candle.
pub open spec fn full_update(c: WireCandle) -> BarUpdate {
    BarUpdate {
        ts: c.ts,
        open: Some(c.o),
        high: Some(c.h),
        low: Some(c.l),
        close: Some(c.c),
        volume: Some(c.v),
    }
}

/// The update an event brings for a chart showing `active`, if any. Events
/// for another symbol (e.g. buffered from a previous subscription), replay
/// events and seeds without a bar bring none.
pub open spec fn tick_update(active: Option<Seq<char>>, e: TickEvent) -> Option<BarUpdate> {
    match active {
        None => None,
        Some(a) => if a != event_symbol(e) {
            None
        } else {
            match e {
                TickEvent::Delta { ts, h, l, c, v, .. } => Some(
                    BarUpdate { ts, open: None, high: h, low: l, close: Some(c), volume: v },
                ),
                TickEvent::Seed { candle, .. } => match candle {
                    Some(c) => Some(full_update(c)),
                    None => None,
                },
                TickEvent::Finalize { candle, .. } => Some(full_update(candle)),
                TickEvent::Today { .. } => None,
            }
        },
    }
}

/// What a tick brings the bar of the symbol on display. A seed snapshot and
/// a final candle both set every field of the bar from the candle they
/// carry, so the two route alike; a delta sets the close and only the other
/// fields it carries, never the open; a replay event or a seed without a
/// candle brings nothing. Ticks of any other symbol, or with no symbol on
/// display, bring nothing.
pub proof fn lemma_tick_routing(a: Seq<char>, symbol: String, c: WireCandle, e: TickEvent)
    ensures
        tick_update(None, e) is None,
        a != event_symbol(e) ==> tick_update(Some(a), e) is None,
        a == symbol@ ==> tick_update(Some(a), TickEvent::Seed { symbol, candle: Some(c) })
            == tick_update(Some(a), TickEvent::Finalize { symbol, candle: c }),
        a == symbol@ ==> (tick_update(Some(a), TickEvent::Seed { symbol, candle: Some(c) })
            matches Some(u) && u.ts == c.ts && u.open == Some(c.o) && u.high == Some(c.h) && u.low
            == Some(c.l) && u.close == Some(c.c) && u.volume == Some(c.v)),
        a == symbol@ ==> tick_update(Some(a), TickEvent::Seed { symbol, candle: None }) is None,
        a == symbol@ ==> tick_update(Some(a), TickEvent::Today { symbol }) is None,
        a == event_symbol(e) && e is Delta ==> (tick_update(Some(a), e) matches Some(u) && u.ts
            == e->Delta_ts && u.open is None && u.close == Some(e->Delta_c) && u.high == e->Delta_h
            && u.low == e->Delta_l && u.volume == e->Delta_v),
{
}

/// Route one tick event to the chart's current bar.
pub fn route_tick(active: Option<&str>, event: &TickEvent) -> (r: Option<BarUpdate>)
    ensures
        r == tick_update(
            match active {
                Some(a) => Some(a@),
                None => None,
            },
            *event,
        ),
{
    let symbol: &str = match event {
        TickEvent::Seed { symbol, .. } => symbol.as_str(),
        TickEvent::Today { symbol } => symbol.as_str(),
        TickEvent::Delta { symbol, .. } => symbol.as_str(),
        TickEvent::Finalize { symbol, .. } => symbol.as_str(),
    };
    match active {
        None => None,
        Some(a) => {
            if !str_equal(a, symbol) {
                return None;
            }
            match event {
                TickEvent::Delta { ts, h, l, c, v, .. } => Some(
                    BarUpdate {
                        ts: *ts,
                        open: None,
                        high: *h,
                        low: *l,
                        close: Some(*c),
                        volume: *v,
                    },
                ),
                TickEvent::Seed { candle, .. } => match candle {
                    Some(c) => Some(
                        BarUpdate {
                            ts: c.ts,
                            open: Some(c.o),
                            high: Some(c.h),
                            low: Some(c.l),
                            close: Some(c.c),
                            volume: Some(c.v),
                        },
                    ),
                    None => None,
                },
                TickEvent::Finalize { candle, .. } => Some(
                    BarUpdate {
                        ts: candle.ts,
                        open: Some(candle.o),
                        high: Some(candle.h),
                        low: Some(candle.l),
                        close: Some(candle.c),
                        volume: Some(candle.v),
                    },
                ),
                TickEvent::Today { .. } => None,
            }
        },
    }
}

/// How a tick keyed `key` meets a series whose last bar is keyed `last`.
#[derive(Debug, Clone, Copy, PartialEq, Eq, Structural)]
pub enum UpsertAction {
    /// Same bar: update the last bar in place.
    MutateLast,
    /// Empty series or a newer bar: append a bar.
    Append,
    /// The last bar is newer than the tick (out-of-order delivery): ignore.
    Ignore,
}

/// Decision between updating, appending and ignoring.
pub open spec fn upsert_decision(last: Option<Seq<char>>, key: Seq<char>) -> UpsertAction {
    match last {
        Some(l) => if l == key {
            UpsertAction::MutateLast
        } else if seq_lt(l, key) {
            UpsertAction::Append
        } else {
            UpsertAction::Ignore
        },
        None => UpsertAction::Append,
    }
}

/// Decide how a tick keyed `key` applies to a series ending with `last`.
pub fn upsert_action(last: Option<&str>, key: &str) -> (r: UpsertAction)
    ensures
        r == upsert_decision(
            match last {
                Some(l) => Some(l@),
                None => None,
            },
            key@,
        ),
{
    match last {
        Some(l) => {
            if str_equal(l, key) {
                UpsertAction::MutateLast
            } else if str_less(l, key) {
                UpsertAction::Append
            } else {
                UpsertAction::Ignore
            }
        },
        None => UpsertAction::Append,
    }
}

/// A tick never rewrites history: it updates the last bar exactly when it
/// belongs to it, appends exactly when it is keyed after the last bar (or
/// the series is empty), and is ignored exactly when it is keyed before it.
pub proof fn lemma_upsert_never_rewrites_history(last: Seq<char>, key: Seq<char>)
    ensures
        upsert_decision(Some(last), key) == UpsertAction::Append <==> seq_lt(last, key),
        upsert_decision(Some(last), key) == UpsertAction::MutateLast <==> last == key,
        upsert_decision(Some(last), key) == UpsertAction::Ignore <==> seq_lt(key, last),
        upsert_decision(None, key) == UpsertAction::Append,
{
    lemma_seq_lt_strict_total(last, key);
}

} // verus!
