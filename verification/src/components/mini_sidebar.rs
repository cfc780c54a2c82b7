//! The narrow icon sidebar: two groups of three icons, one selected.

use vstd::prelude::*;

verus! {

/// Icons per group.
pub const ICONS_PER_GROUP: usize = 3;

/// Number of groups (charts, browse).
pub const GROUP_COUNT: usize = 2;

/// Which icon of which group is selected.
#[derive(Debug, Clone, Copy, PartialEq, Eq, Default)]
pub struct MiniSidebar {
    pub active_group: usize,
    pub active_icon: usize,
}

impl MiniSidebar {
    /// Icon `icon` of group `group` is the selected one.
    pub fn is_active(&self, group: usize, icon: usize) -> (r: bool)
        ensures
            r == (self.active_group == group && self.active_icon == icon),
    {
        self.active_group == group && self.active_icon == icon
    }

    /// Select icon `icon` of group `group`.
    pub fn click(&mut self, group: usize, icon: usize)
        ensures
            final(self).active_group == group,
            final(self).active_icon == icon,
            *final(self) == (MiniSidebar { active_group: group, active_icon: icon, ..*old(self) }),
    {
        self.active_group = group;
        self.active_icon = icon;
    }
}

/// Exactly one icon is highlighted after a click: the clicked one.
pub proof fn lemma_single_selection(s: MiniSidebar, g: usize, i: usize, g2: usize, i2: usize)
    requires
        s.active_group == g && s.active_icon == i,
    ensures
        (s.active_group == g2 && s.active_icon == i2) <==> (g2 == g && i2 == i),
{
}

} // verus!
