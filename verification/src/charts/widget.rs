//! Bookkeeping of one chart: its bars, its drawings, when to save them, and
//! when to fetch older history. Rendering, the camera and the network live
//! with the application, which feeds the outcomes back in.

use vstd::prelude::*;
use vstd::utf8::encode_utf8;
use crate::drawings::manager::DrawingsManager;
use super::dates::{date_text_midnight, parse_date_to_utc_midnight};
use super::ticks::{UpsertAction, upsert_action, upsert_decision};

verus! {

/// Milliseconds the drawings must stay unchanged before they are saved.
pub const DRAWINGS_SAVE_DEBOUNCE_MS: u64 = 500;

/// A series of bars: one candle value per bar and its date key.
pub struct CandleData<C> {
    pub instances: Vec<C>,
    pub dates: Vec<String>,
}

/// Character views of a list of strings.
pub open spec fn texts(v: Seq<String>) -> Seq<Seq<char>> {
    v.map_values(|s: String| s@)
}

/// The chart's state apart from rendering. `C` is the candle value, `S` the
/// line style and `T` the coordinate type of drawings.
pub struct ChartWidget<C, S, T> {
    pub raw_data: CandleData<C>,
    pub drawings: DrawingsManager<S, T>,
    /// Eye-icon visibility toggle (UI only, not persisted).
    pub drawings_hidden: bool,
    /// When the drawings first became dirty, in milliseconds.
    pub drawings_dirty_since: Option<u64>,
    /// Symbol on display.
    pub symbol: Option<String>,
    /// UTC midnight of the earliest loaded bar, anchor of the next backfill.
    pub earliest_loaded_ts: Option<i64>,
    /// A backfill returned nothing: there is no older history.
    pub older_history_exhausted: bool,
    /// The initial fetch of the symbol's bars is in flight.
    pub candles_load_pending: bool,
    /// A backfill fetch is in flight.
    pub older_candles_load_pending: bool,
}

/// The widget with its drawings' visibility flipped and nothing else changed.
pub open spec fn visibility_toggled<C, S, T>(w: ChartWidget<C, S, T>) -> ChartWidget<C, S, T> {
    ChartWidget { drawings_hidden: !w.drawings_hidden, ..w }
}

/// Toggling the visibility twice gives back the widget as it was.
pub proof fn lemma_visibility_toggle_twice<C, S, T>(w: ChartWidget<C, S, T>)
    ensures
        visibility_toggled(visibility_toggled(w)) == w,
{
}

/// Outcome of a backfill fetch.
pub enum OlderLoad<C> {
    /// Bars preceding the loaded ones; empty when history is exhausted.
    Loaded(CandleData<C>),
    /// The fetch failed.
    Failed,
    /// The fetch was dropped without an answer.
    Closed,
}

/// Append copies of the strings of `src` to `dst`.
fn append_texts(dst: &mut Vec<String>, src: &Vec<String>)
    requires
        old(dst)@.len() + src@.len() <= usize::MAX,
    ensures
        texts(final(dst)@) == texts(old(dst)@) + texts(src@),
{
    let ghost start = dst@;
    let mut k: usize = 0;
    while k < src.len()
        invariant
            dst@.len() == start.len() + k,
            k <= src@.len(),
            start.len() + src@.len() <= usize::MAX,
            forall|i: int| 0 <= i < start.len() ==> #[trigger] dst@[i]@ == start[i]@,
            forall|i: int| 0 <= i < k ==> #[trigger] dst@[start.len() + i]@ == src@[i]@,
        decreases src@.len() - k,
    {
        let c = src[k].clone();
        dst.push(c);
        k = k + 1;
    }
    assert(texts(dst@) =~= texts(start) + texts(src@)) by {
        assert forall|i: int| 0 <= i < dst@.len() implies #[trigger] texts(dst@)[i] == (texts(start)
            + texts(src@))[i] by {
            if i < start.len() {
            } else {
                assert(dst@[start.len() + (i - start.len())]@ == src@[i - start.len()]@);
            }
        }
    }
}

impl<C: Copy, S, T> ChartWidget<C, S, T> {
    /// An empty chart showing no symbol.
    pub fn new() -> (w: Self)
        ensures
            w.raw_data.instances@.len() == 0,
            w.raw_data.dates@.len() == 0,
            w.drawings.wf(),
            w.drawings.committed@.len() == 0,
            !w.drawings.dirty,
            !w.drawings_hidden,
            w.drawings_dirty_since is None,
            w.symbol is None,
            w.earliest_loaded_ts is None,
            !w.older_history_exhausted,
            !w.candles_load_pending,
            !w.older_candles_load_pending,
    {
        ChartWidget {
            raw_data: CandleData { instances: Vec::new(), dates: Vec::new() },
            drawings: DrawingsManager::default(),
            drawings_hidden: false,
            drawings_dirty_since: None,
            symbol: None,
            earliest_loaded_ts: None,
            older_history_exhausted: false,
            candles_load_pending: false,
            older_candles_load_pending: false,
        }
    }

    /// Flip the drawings' visibility.
    pub fn toggle_drawings_visibility(&mut self)
        ensures
            *final(self) == visibility_toggled(*old(self)),
    {
        self.drawings_hidden = !self.drawings_hidden;
    }

    /// Whether the drawings are hidden.
    pub fn drawings_hidden(&self) -> (r: bool)
        ensures
            r == self.drawings_hidden,
    {
        self.drawings_hidden
    }

    /// Whether the user has committed any drawing on this chart.
    pub fn has_user_drawings(&self) -> (r: bool)
        ensures
            r == (self.drawings.committed@.len() > 0),
    {
        self.drawings.committed.len() > 0
    }

    /// Wipe every committed drawing. Returns the symbol whose stored drawings
    /// must be deleted as well; no debounced save is left pending, since the
    /// delete already makes the store empty.
    pub fn clear_all_drawings(&mut self) -> (r: Option<String>)
        requires
            old(self).drawings.wf(),
        ensures
            final(self).drawings.wf(),
            final(self).drawings.committed@.len() == 0,
            final(self).drawings == (DrawingsManager {
                committed: final(self).drawings.committed,
                dirty: false,
                ..old(self).drawings
            }),
            *final(self) == (ChartWidget {
                drawings: final(self).drawings,
                drawings_dirty_since: None,
                ..*old(self)
            }),
            r == old(self).symbol,
    {
        self.drawings.clear_all();
        let r = self.symbol.clone();
        self.drawings.dirty = false;
        self.drawings_dirty_since = None;
        r
    }

    /// Called once per frame at time `now_ms`: once the drawings have stayed
    /// dirty for the debounce period, returns the symbol to save them under
    /// and clears the dirty state. Without a symbol nothing is saved and the
    /// drawings stay dirty.
    pub fn flush_dirty_drawings(&mut self, now_ms: u64) -> (r: Option<String>)
        ensures
            *final(self) == (ChartWidget {
                drawings: DrawingsManager { dirty: final(self).drawings.dirty, ..old(self).drawings },
                drawings_dirty_since: final(self).drawings_dirty_since,
                ..*old(self)
            }),
            !old(self).drawings.dirty ==> r is None && final(self).drawings_dirty_since is None
                && !final(self).drawings.dirty,
            old(self).drawings.dirty && old(self).symbol is None ==> r is None && final(self).drawings.dirty && final(self).drawings_dirty_since == old(self).drawings_dirty_since,
            old(self).drawings.dirty && old(self).symbol is Some ==> ({
                let since = match old(self).drawings_dirty_since {
                    Some(s) => s,
                    None => now_ms,
                };
                if now_ms >= since && now_ms - since >= DRAWINGS_SAVE_DEBOUNCE_MS {
                    r == old(self).symbol && !final(self).drawings.dirty && final(self).drawings_dirty_since is None
                } else {
                    r is None && final(self).drawings.dirty && final(self).drawings_dirty_since
                        == Some(since)
                }
            }),
    {
        if !self.drawings.dirty {
            self.drawings_dirty_since = None;
            return None;
        }
        let symbol = match &self.symbol {
            Some(s) => s.clone(),
            None => return None,
        };
        let since = match self.drawings_dirty_since {
            Some(s) => s,
            None => now_ms,
        };
        self.drawings_dirty_since = Some(since);
        if now_ms >= since && now_ms - since >= DRAWINGS_SAVE_DEBOUNCE_MS {
            self.drawings.dirty = false;
            self.drawings_dirty_since = None;
            Some(symbol)
        } else {
            None
        }
    }

    /// When the view is within the backfill threshold of the oldest bar, ask
    /// for the history before it: returns the symbol and the anchor time.
    /// Nothing is asked while a fetch is in flight, after history ran out, or
    /// before the first bars arrived.
    pub fn maybe_load_older_candles(&mut self, near_oldest_bar: bool) -> (r: Option<(String, i64)>)
        ensures
            ({
                let fire = !old(self).older_candles_load_pending && !old(self).older_history_exhausted && !old(self).candles_load_pending && old(self).symbol is Some && old(self).earliest_loaded_ts is Some && near_oldest_bar;
                &&& fire ==> (r matches Some((s, before)) && s@ == old(self).symbol->0@ && before
                    == old(self).earliest_loaded_ts->0 && final(self).older_candles_load_pending)
                &&& !fire ==> r is None && final(self).older_candles_load_pending == old(self).older_candles_load_pending
            }),
            *final(self) == (ChartWidget {
                older_candles_load_pending: final(self).older_candles_load_pending,
                ..*old(self)
            }),
    {
        if self.older_candles_load_pending || self.older_history_exhausted {
            return None;
        }
        if self.candles_load_pending {
            return None;
        }
        let symbol = match &self.symbol {
            Some(s) => s.clone(),
            None => return None,
        };
        let before = match self.earliest_loaded_ts {
            Some(t) => t,
            None => return None,
        };
        if !near_oldest_bar {
            return None;
        }
        self.older_candles_load_pending = true;
        Some((symbol, before))
    }

    /// Merge a chunk of older bars in front of the loaded ones and re-anchor
    /// the next backfill at the new oldest bar. Returns the number of bars
    /// added, by which the caller shifts the camera so the view stays put.
    pub fn prepend_older_bars(&mut self, older: CandleData<C>) -> (added: usize)
        requires
            older.instances@.len() + old(self).raw_data.instances@.len() <= usize::MAX,
            older.dates@.len() + old(self).raw_data.dates@.len() <= usize::MAX,
        ensures
            added == older.instances@.len(),
            added == 0 ==> *final(self) == *old(self),
            added > 0 ==> final(self).raw_data.instances@ == older.instances@ + old(self).raw_data.instances@ && texts(final(self).raw_data.dates@) == texts(older.dates@)
                + texts(old(self).raw_data.dates@) && final(self).earliest_loaded_ts == (if texts(
                final(self).raw_data.dates@,
            ).len() > 0 {
                date_text_midnight(encode_utf8(final(self).raw_data.dates@[0]@))
            } else {
                None
            }),
            *final(self) == (ChartWidget {
                raw_data: final(self).raw_data,
                earliest_loaded_ts: final(self).earliest_loaded_ts,
                ..*old(self)
            }),
    {
        let added = older.instances.len();
        if added == 0 {
            return 0;
        }
        let mut instances: Vec<C> = Vec::new();
        let mut i: usize = 0;
        while i < older.instances.len()
            invariant
                instances@ == older.instances@.subrange(0, i as int),
                i <= older.instances@.len(),
            decreases older.instances@.len() - i,
        {
            instances.push(older.instances[i]);
            proof {
                assert(instances@ =~= older.instances@.subrange(0, i + 1));
            }
            i = i + 1;
        }
        let mut j: usize = 0;
        while j < self.raw_data.instances.len()
            invariant
                instances@ == older.instances@ + self.raw_data.instances@.subrange(0, j as int),
                j <= self.raw_data.instances@.len(),
                older.instances@.len() + self.raw_data.instances@.len() <= usize::MAX,
            decreases self.raw_data.instances@.len() - j,
        {
            instances.push(self.raw_data.instances[j]);
            proof {
                assert(instances@ =~= older.instances@ + self.raw_data.instances@.subrange(
                    0,
                    j + 1,
                ));
            }
            j = j + 1;
        }
        proof {
            assert(older.instances@.subrange(0, older.instances@.len() as int) =~= older.instances@);
            assert(self.raw_data.instances@.subrange(0, self.raw_data.instances@.len() as int)
                =~= self.raw_data.instances@);
        }
        let mut dates: Vec<String> = Vec::new();
        append_texts(&mut dates, &older.dates);
        append_texts(&mut dates, &self.raw_data.dates);
        proof {
            assert(texts(Seq::<String>::empty()) =~= Seq::<Seq<char>>::empty());
            assert(Seq::<Seq<char>>::empty() + texts(older.dates@) =~= texts(older.dates@));
        }
        let first: Option<&str> = if dates.len() > 0 {
            Some(dates[0].as_str())
        } else {
            None
        };
        let earliest = parse_date_to_utc_midnight(first);
        self.earliest_loaded_ts = earliest;
        self.raw_data = CandleData { instances, dates };
        added
    }

    /// Drain the outcome of a backfill. Returns the number of bars prepended.
    /// An empty chunk means the symbol has no older data: stop asking.
    pub fn older_candles_loaded(&mut self, outcome: OlderLoad<C>) -> (added: usize)
        requires
            outcome matches OlderLoad::Loaded(d) ==> d.instances@.len()
                + old(self).raw_data.instances@.len() <= usize::MAX && d.dates@.len()
                + old(self).raw_data.dates@.len() <= usize::MAX,
        ensures
            !final(self).older_candles_load_pending,
            match outcome {
                OlderLoad::Loaded(d) => {
                    &&& added == d.instances@.len()
                    &&& d.instances@.len() == 0 ==> *final(self) == (ChartWidget {
                        older_candles_load_pending: false,
                        older_history_exhausted: true,
                        ..*old(self)
                    })
                    &&& d.instances@.len() > 0 ==> {
                        &&& final(self).raw_data.instances@ == d.instances@ + old(self).raw_data.instances@
                        &&& texts(final(self).raw_data.dates@) == texts(d.dates@) + texts(old(self).raw_data.dates@)
                        &&& final(self).earliest_loaded_ts == (if texts(final(self).raw_data.dates@).len() > 0 {
                            date_text_midnight(encode_utf8(final(self).raw_data.dates@[0]@))
                        } else {
                            None
                        })
                        &&& *final(self) == (ChartWidget {
                            raw_data: final(self).raw_data,
                            earliest_loaded_ts: final(self).earliest_loaded_ts,
                            older_candles_load_pending: false,
                            ..*old(self)
                        })
                    }
                },
                _ => added == 0 && *final(self) == (ChartWidget { older_candles_load_pending: false, ..*old(self) }),
            },
    {
        self.older_candles_load_pending = false;
        match outcome {
            OlderLoad::Loaded(d) => {
                if d.instances.len() == 0 {
                    self.older_history_exhausted = true;
                    0
                } else {
                    self.prepend_older_bars(d)
                }
            },
            _ => 0,
        }
    }

    /// Key a tick under bar `key`: appends `new_bar` when the tick opens a
    /// newer bar (or the series is empty) and reports whether the caller
    /// must instead merge the tick into the last bar, or ignore it.
    pub fn upsert_bar(&mut self, key: String, new_bar: C) -> (r: UpsertAction)
        requires
            old(self).raw_data.instances@.len() < usize::MAX,
            old(self).raw_data.dates@.len() < usize::MAX,
        ensures
            r == upsert_decision(
                if old(self).raw_data.dates@.len() > 0 {
                    Some(old(self).raw_data.dates@.last()@)
                } else {
                    None
                },
                key@,
            ),
            r == UpsertAction::Append ==> final(self).raw_data.instances@ == old(self).raw_data.instances@.push(new_bar) && texts(final(self).raw_data.dates@) == texts(
                old(self).raw_data.dates@,
            ).push(key@),
            r != UpsertAction::Append ==> *final(self) == *old(self),
            *final(self) == (ChartWidget { raw_data: final(self).raw_data, ..*old(self) }),
    {
        let n = self.raw_data.dates.len();
        let action = if n > 0 {
            upsert_action(Some(self.raw_data.dates[n - 1].as_str()), key.as_str())
        } else {
            upsert_action(None, key.as_str())
        };
        if action == UpsertAction::Append {
            self.raw_data.instances.push(new_bar);
            self.raw_data.dates.push(key);
            proof {
                assert(texts(self.raw_data.dates@) =~= texts(old(self).raw_data.dates@).push(key@));
            }
        }
        action
    }
}

} // verus!
