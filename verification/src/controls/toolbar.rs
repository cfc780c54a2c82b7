//! The chart toolbar: a timeframe pill, a row of tool icons, and the inline
//! drawings and indicator bars that replace part of the row when expanded.
//! `F` is the timeframe type, `P` the indicator parameter set.

use vstd::prelude::*;
use crate::text::str_equal;
use super::indicators::{IndicatorBar, IndicatorBarEvent, IndicatorModal};

verus! {

/// Number of icons in the toolbar row.
pub const TOOL_ICON_COUNT: usize = 14;

/// The icon toggling the inline indicator bar.
pub const INDICATOR_TOOL_INDEX: usize = 0;

/// The pencil icon toggling the inline drawings bar.
pub const PENCIL_TOOL_INDEX: usize = 1;

/// The indicator bar is inserted after this icon; icons past it are hidden
/// while the bar is open.
pub const INDICATOR_INSERT_AFTER: usize = 9;

/// Tooltip text of each icon; empty for none.
pub open spec fn tooltip_text(i: int) -> Seq<char> {
    if i == 0 {
        "Indicator"@
    } else if i == 1 {
        "Drawings"@
    } else if i == 3 {
        "Line Style"@
    } else {
        ""@
    }
}

/// Tooltip of icon `i` (empty when it has none).
pub fn tooltip(i: usize) -> (r: &'static str)
    ensures
        r@ == tooltip_text(i as int),
{
    if i == 0 {
        "Indicator"
    } else if i == 1 {
        "Drawings"
    } else if i == 3 {
        "Line Style"
    } else {
        ""
    }
}

/// Selected drawing tool after clicking tool `id`.
pub open spec fn drawing_click(active: Option<&'static str>, id: &'static str) -> Option<
    &'static str,
> {
    if (active matches Some(a) && a@ == id@) {
        None
    } else {
        Some(id)
    }
}

/// State of the chart toolbar.
pub struct ChartToolbar<F, P> {
    /// Selected plain tool icon.
    pub active_tool: usize,
    /// Drawing tool being placed, if any.
    pub active_drawing: Option<&'static str>,
    /// Selected base timeframe; a change re-aggregates the chart.
    pub timeframe: F,
    pub indicator_bar: IndicatorBar,
    pub indicator_modal: IndicatorModal<P>,
    pub show_indicators: bool,
    pub show_drawings: bool,
}

impl<F, P> ChartToolbar<F, P> {
    /// A toolbar with the first icon selected and both bars collapsed.
    pub fn new(timeframe: F) -> (t: Self)
        ensures
            t.active_tool == 0,
            t.active_drawing is None,
            t.timeframe == timeframe,
            !t.show_indicators,
            !t.show_drawings,
            !t.indicator_modal.open,
    {
        ChartToolbar {
            active_tool: 0,
            active_drawing: None,
            timeframe,
            indicator_bar: IndicatorBar,
            indicator_modal: IndicatorModal::new(),
            show_indicators: false,
            show_drawings: false,
        }
    }

    /// Icon `i` is shown: the expanded indicator bar hides the icons after
    /// its insertion point, the expanded drawings bar those after the pencil.
    pub fn icon_visible(&self, i: usize) -> (r: bool)
        ensures
            r == (!(self.show_indicators && i > INDICATOR_INSERT_AFTER) && !(self.show_drawings && i
                > PENCIL_TOOL_INDEX)),
    {
        !(self.show_indicators && i > INDICATOR_INSERT_AFTER) && !(self.show_drawings && i
            > PENCIL_TOOL_INDEX)
    }

    /// Icon `i` is highlighted.
    pub fn icon_active(&self, i: usize) -> (r: bool)
        ensures
            i == INDICATOR_TOOL_INDEX ==> r == self.show_indicators,
            i == PENCIL_TOOL_INDEX ==> r == (self.show_drawings || self.active_drawing is Some),
            i != INDICATOR_TOOL_INDEX && i != PENCIL_TOOL_INDEX ==> r == (self.active_tool == i),
    {
        if i == INDICATOR_TOOL_INDEX {
            self.show_indicators
        } else if i == PENCIL_TOOL_INDEX {
            self.show_drawings || self.active_drawing.is_some()
        } else {
            self.active_tool == i
        }
    }

    /// Icon `i` was clicked: the first two toggle their bars, the others
    /// become the selected tool.
    pub fn click_icon(&mut self, i: usize)
        ensures
            i == INDICATOR_TOOL_INDEX ==> final(self).show_indicators == !old(self).show_indicators
                && final(self).show_drawings == old(self).show_drawings && final(self).active_tool
                == old(self).active_tool,
            i == PENCIL_TOOL_INDEX ==> final(self).show_drawings == !old(self).show_drawings
                && final(self).show_indicators == old(self).show_indicators && final(self).active_tool == old(self).active_tool,
            i != INDICATOR_TOOL_INDEX && i != PENCIL_TOOL_INDEX ==> final(self).active_tool == i
                && final(self).show_indicators == old(self).show_indicators && final(self).show_drawings == old(self).show_drawings,
            *final(self) == (ChartToolbar {
                active_tool: final(self).active_tool,
                show_indicators: final(self).show_indicators,
                show_drawings: final(self).show_drawings,
                ..*old(self)
            }),
    {
        if i == INDICATOR_TOOL_INDEX {
            self.show_indicators = !self.show_indicators;
        } else if i == PENCIL_TOOL_INDEX {
            self.show_drawings = !self.show_drawings;
        } else {
            self.active_tool = i;
        }
    }

    /// A separator follows icon `i`, unless an expanded bar takes its place.
    pub fn separator_after(&self, i: usize) -> (r: bool)
        ensures
            r == (i == INDICATOR_INSERT_AFTER && !self.show_indicators),
    {
        i == INDICATOR_INSERT_AFTER && !(i == INDICATOR_INSERT_AFTER && self.show_indicators) && !(i
            == PENCIL_TOOL_INDEX && self.show_drawings)
    }

    /// A drawing tool of the inline bar was clicked: select it, or deselect
    /// it when it was already selected.
    pub fn click_drawing_tool(&mut self, id: &'static str)
        ensures
            *final(self) == (ChartToolbar {
                active_drawing: drawing_click(old(self).active_drawing, id),
                ..*old(self)
            }),
    {
        let selected = match self.active_drawing {
            Some(a) => str_equal(a, id),
            None => false,
        };
        self.active_drawing = if selected {
            None
        } else {
            Some(id)
        };
    }

    /// Route the indicator bar's event: "All Indicators" opens the modal.
    pub fn handle_bar_event(&mut self, event: Option<IndicatorBarEvent>)
        ensures
            event == Some(IndicatorBarEvent::OpenModal) ==> *final(self) == (ChartToolbar {
                indicator_modal: IndicatorModal { open: true, ..old(self).indicator_modal },
                ..*old(self)
            }),
            event != Some(IndicatorBarEvent::OpenModal) ==> *final(self) == *old(self),
    {
        if let Some(IndicatorBarEvent::OpenModal) = event {
            self.indicator_modal.open = true;
        }
    }
}

/// Clicking the same drawing tool twice returns to "that tool selected" when
/// it was selected before, and to "nothing selected" otherwise.
pub proof fn lemma_drawing_tool_double_click(before: Option<&'static str>, id: &'static str)
    ensures
        drawing_click(drawing_click(before, id), id) == (if (before matches Some(a) && a@ == id@) {
            Some(id)
        } else {
            None
        }),
{
}

} // verus!
