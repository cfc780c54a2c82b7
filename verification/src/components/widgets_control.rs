//! The widget tab bar above the chart and its icon toolbar.

use vstd::prelude::*;

verus! {

/// Tab captions, in order.
pub open spec fn tab_captions() -> Seq<Seq<char>> {
    seq![
        "Chart"@,
        "Corp Actions"@,
        "Institutions"@,
        "Messages"@,
        "News"@,
        "Options"@,
        "Profile"@,
        "Financials"@,
        "Quotes"@,
        "Comments"@,
        "Analysis"@,
        "Order Flow"@,
        "Releases"@,
    ]
}

/// The tab captions.
pub fn tabs() -> (r: Vec<&'static str>)
    ensures
        r@.map_values(|s: &'static str| s@) == tab_captions(),
{
    let v = vec![
        "Chart",
        "Corp Actions",
        "Institutions",
        "Messages",
        "News",
        "Options",
        "Profile",
        "Financials",
        "Quotes",
        "Comments",
        "Analysis",
        "Order Flow",
        "Releases",
    ];
    assert(v@.map_values(|s: &'static str| s@) =~= tab_captions());
    v
}

/// Number of icons in the widget toolbar.
pub const TOOLBAR_ICON_COUNT: usize = 18;

/// Selected widget tab.
#[derive(Debug, Clone, Copy, PartialEq, Eq, Default)]
pub struct WidgetsControl {
    pub active_tab: usize,
}

impl WidgetsControl {
    /// Tab `i` is the selected one.
    pub fn is_active(&self, i: usize) -> (r: bool)
        ensures
            r == (self.active_tab == i),
    {
        self.active_tab == i
    }

    /// Select tab `i`.
    pub fn click_tab(&mut self, i: usize)
        ensures
            *final(self) == (WidgetsControl { active_tab: i, ..*old(self) }),
    {
        self.active_tab = i;
    }
}

/// The toolbar groups its icons: a separator follows icons 1, 5, 9 and 13.
pub fn toolbar_separator_after(i: usize) -> (r: bool)
    ensures
        r == (i == 1 || i == 5 || i == 9 || i == 13),
{
    i == 1 || i == 5 || i == 9 || i == 13
}

} // verus!
