//! The floating toolbar above the selected drawing: which buttons it shows
//! and what a click does. Color, width and dash popups edit the drawing's
//! style in place; the actions below flow to the chart.

use vstd::prelude::*;

verus! {

/// What a click asks of the chart.
#[derive(Debug, Clone, Copy, PartialEq, Eq, Structural)]
pub enum ToolbarEvent {
    /// Nothing for the chart to do.
    Idle,
    Clone,
    Delete,
    OpenSettings,
}

/// The toolbar's action buttons.
#[derive(Debug, Clone, Copy, PartialEq, Eq, Structural)]
pub enum ToolbarButton {
    /// The color, dash and width popups.
    Style,
    Clone,
    Settings,
    /// Lock when unlocked, unlock when locked.
    Lock,
    Trash,
}

/// A locked drawing's toolbar shows only the lock and the trash can.
pub open spec fn shown(locked: bool, b: ToolbarButton) -> bool {
    !locked || b == ToolbarButton::Lock || b == ToolbarButton::Trash
}

/// An unlocked drawing's toolbar shows every button; a locked one shows
/// only the lock and the trash can, so it can be unlocked or deleted but
/// neither restyled, cloned nor edited. Clicking any other button of a
/// locked drawing changes nothing.
pub proof fn lemma_locked_toolbar(b: ToolbarButton)
    ensures
        shown(false, b),
        shown(true, b) <==> (b == ToolbarButton::Lock || b == ToolbarButton::Trash),
        !shown(true, ToolbarButton::Style),
        !shown(true, ToolbarButton::Clone),
        !shown(true, ToolbarButton::Settings),
{
}

/// Executable [`shown`].
pub fn button_shown(locked: bool, b: ToolbarButton) -> (r: bool)
    ensures
        r == shown(locked, b),
{
    !locked || b == ToolbarButton::Lock || b == ToolbarButton::Trash
}

/// A click on `b` for a drawing whose lock is `locked`: the new lock state
/// and the event for the chart. A button that is not shown does nothing.
pub fn toolbar_click(locked: bool, b: ToolbarButton) -> (r: (bool, ToolbarEvent))
    ensures
        !shown(locked, b) ==> r == (locked, ToolbarEvent::Idle),
        shown(locked, b) ==> r == (match b {
            ToolbarButton::Lock => (!locked, ToolbarEvent::Idle),
            ToolbarButton::Trash => (locked, ToolbarEvent::Delete),
            ToolbarButton::Clone => (locked, ToolbarEvent::Clone),
            ToolbarButton::Settings => (locked, ToolbarEvent::OpenSettings),
            ToolbarButton::Style => (locked, ToolbarEvent::Idle),
        }),
{
    if !button_shown(locked, b) {
        return (locked, ToolbarEvent::Idle);
    }
    match b {
        ToolbarButton::Lock => (!locked, ToolbarEvent::Idle),
        ToolbarButton::Trash => (locked, ToolbarEvent::Delete),
        ToolbarButton::Clone => (locked, ToolbarEvent::Clone),
        ToolbarButton::Settings => (locked, ToolbarEvent::OpenSettings),
        ToolbarButton::Style => (locked, ToolbarEvent::Idle),
    }
}

} // verus!
