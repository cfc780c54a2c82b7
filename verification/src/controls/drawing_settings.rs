//! The settings dialog of one committed drawing: which drawing it edits,
//! its tabs, "Reset to Defaults", and writing the edited draft back. The
//! form widgets edit the draft fields in place; each frame the dialog first
//! checks that its drawing still exists, then settles what the widgets
//! reported.

use vstd::prelude::*;
use crate::drawings::kind_style::KindStyle;
use crate::drawings::kinds::vertical_line;
use crate::drawings::manager::{CommittedDrawing, DrawingsManager};
use crate::drawings::point::WorldPoint;
use crate::drawings::registry::{default_kind_style_for, default_kind_style_of};
use crate::text::str_equal;

verus! {

/// Tabs of the dialog.
#[derive(Debug, Clone, Copy, PartialEq, Eq, Structural)]
pub enum DrawingSettingsTab {
    Style,
    Position,
}

/// The dialog. `S` is the line style, `T` the coordinate type.
pub struct DrawingSettingsModal<S, T> {
    pub open: bool,
    /// The drawing being edited.
    pub drawing_id: Option<u64>,
    pub draft_style: S,
    pub draft_kind_style: KindStyle,
    pub draft_points: Vec<WorldPoint<T>>,
    pub active_tab: DrawingSettingsTab,
}

/// What the dialog's widgets reported in one frame.
#[derive(Debug, Clone, Copy, PartialEq, Eq)]
pub struct SettingsInput {
    /// A tab header was clicked.
    pub tab_clicked: Option<DrawingSettingsTab>,
    /// A form widget changed the draft.
    pub edited: bool,
    /// "Reset to Defaults" was clicked.
    pub reset_clicked: bool,
    /// The close dot or "Done" was clicked.
    pub close_clicked: bool,
}

/// Label of the second tab: a vertical line is placed by date, every other
/// drawing by price.
pub open spec fn position_tab_text(def_id: Seq<char>) -> Seq<char> {
    if def_id == vertical_line::ID@ {
        "Date"@
    } else {
        "Price"@
    }
}

/// Executable [`position_tab_text`].
pub fn position_tab_label(def_id: &str) -> (r: &'static str)
    ensures
        r@ == position_tab_text(def_id@),
{
    if str_equal(def_id, vertical_line::ID) {
        "Date"
    } else {
        "Price"
    }
}

/// Some committed drawing has id `id`.
pub open spec fn has_drawing<S, T>(committed: Seq<CommittedDrawing<S, T>>, id: u64) -> bool {
    exists|i: int| 0 <= i < committed.len() && #[trigger] committed[i].id == id
}

/// A copy of a list of points.
fn copy_points<T: Copy>(v: &Vec<WorldPoint<T>>) -> (r: Vec<WorldPoint<T>>)
    ensures
        r@ == v@,
{
    let mut r: Vec<WorldPoint<T>> = Vec::new();
    let mut i: usize = 0;
    while i < v.len()
        invariant
            i <= v@.len(),
            r@ == v@.subrange(0, i as int),
        decreases v@.len() - i,
    {
        r.push(v[i]);
        proof {
            assert(r@ =~= v@.subrange(0, i + 1));
        }
        i = i + 1;
    }
    proof {
        assert(v@.subrange(0, v@.len() as int) =~= v@);
    }
    r
}

impl<S: Copy, T: Copy> DrawingSettingsModal<S, T> {
    /// A closed dialog; `style` is the default line style.
    pub fn new(style: S) -> (m: Self)
        ensures
            !m.open,
            m.drawing_id is None,
            m.draft_style == style,
            m.draft_kind_style == KindStyle::Empty,
            m.draft_points@.len() == 0,
            m.active_tab == DrawingSettingsTab::Style,
    {
        DrawingSettingsModal {
            open: false,
            drawing_id: None,
            draft_style: style,
            draft_kind_style: KindStyle::Empty,
            draft_points: Vec::new(),
            active_tab: DrawingSettingsTab::Style,
        }
    }

    /// Open the dialog on `drawing`, on the Style tab, with drafts copied
    /// from it.
    pub fn open_for(&mut self, drawing: &CommittedDrawing<S, T>)
        ensures
            final(self).open,
            final(self).drawing_id == Some(drawing.id),
            final(self).draft_style == drawing.style,
            final(self).draft_kind_style == drawing.kind_style,
            final(self).draft_points@ == drawing.points@,
            final(self).active_tab == DrawingSettingsTab::Style,
    {
        self.open = true;
        self.drawing_id = Some(drawing.id);
        self.draft_style = drawing.style;
        self.draft_kind_style = drawing.kind_style;
        self.draft_points = copy_points(&drawing.points);
        self.active_tab = DrawingSettingsTab::Style;
    }

    /// Start of a frame: the position of the drawing being edited among
    /// `committed` (the first with its id). A closed dialog shows nothing; an
    /// open one whose drawing is gone (deleted meanwhile) closes.
    pub fn begin_frame(&mut self, committed: &Vec<CommittedDrawing<S, T>>) -> (r: Option<usize>)
        ensures
            !old(self).open ==> r is None && *final(self) == *old(self),
            old(self).open && (match old(self).drawing_id {
                Some(id) => !has_drawing(committed@, id),
                None => true,
            }) ==> r is None && *final(self) == (DrawingSettingsModal { open: false, ..*old(self) }),
            old(self).open && old(self).drawing_id is Some && has_drawing(
                committed@,
                old(self).drawing_id->0,
            ) ==> (r matches Some(k) && k < committed@.len() && committed@[k as int].id
                == old(self).drawing_id->0 && (forall|j: int|
                0 <= j < k ==> #[trigger] committed@[j].id != old(self).drawing_id->0))
                && *final(self) == *old(self),
    {
        if !self.open {
            return None;
        }
        let id = match self.drawing_id {
            Some(id) => id,
            None => {
                self.open = false;
                return None;
            },
        };
        let mut k: usize = 0;
        while k < committed.len()
            invariant
                k <= committed@.len(),
                forall|j: int| 0 <= j < k ==> #[trigger] committed@[j].id != id,
                *self == *old(self),
                old(self).open,
                old(self).drawing_id == Some(id),
            decreases committed@.len() - k,
        {
            if committed[k].id == id {
                assert(has_drawing(committed@, id));
                return Some(k);
            }
            k = k + 1;
        }
        self.open = false;
        None
    }

    /// End of a frame on the drawing at position `k`: switch to a clicked
    /// tab; on "Reset to Defaults" set the drafts to `default_style`, the
    /// tool's default kind style and the drawing's current points; when the
    /// draft changed (edited or reset) write it into the drawing and mark the
    /// drawings dirty; close when asked.
    pub fn end_frame(
        &mut self,
        manager: &mut DrawingsManager<S, T>,
        k: usize,
        input: SettingsInput,
        default_style: S,
    )
        requires
            k < old(manager).committed@.len(),
            old(self).drawing_id == Some(old(manager).committed@[k as int].id),
        ensures
            ({
                let d = old(manager).committed@[k as int];
                let changed = input.reset_clicked || input.edited;
                &&& final(self).open == (old(self).open && !input.close_clicked)
                &&& final(self).drawing_id == old(self).drawing_id
                &&& final(self).active_tab == (match input.tab_clicked {
                    Some(t) => t,
                    None => old(self).active_tab,
                })
                &&& input.reset_clicked ==> final(self).draft_style == default_style
                    && final(self).draft_kind_style == default_kind_style_for(d.def_id@)
                    && final(self).draft_points@ == d.points@
                &&& !input.reset_clicked ==> final(self).draft_style == old(self).draft_style
                    && final(self).draft_kind_style == old(self).draft_kind_style
                    && final(self).draft_points == old(self).draft_points
                &&& !changed ==> *final(manager) == *old(manager)
                &&& changed ==> {
                    &&& *final(manager) == (DrawingsManager {
                        committed: final(manager).committed,
                        dirty: true,
                        ..*old(manager)
                    })
                    &&& final(manager).committed@.len() == old(manager).committed@.len()
                    &&& forall|j: int| 0 <= j < old(manager).committed@.len() && j != k ==>
                        #[trigger] final(manager).committed@[j] == old(manager).committed@[j]
                    &&& final(manager).committed@[k as int].id == d.id
                    &&& final(manager).committed@[k as int].def_id == d.def_id
                    &&& final(manager).committed@[k as int].locked == d.locked
                    &&& final(manager).committed@[k as int].style == final(self).draft_style
                    &&& final(manager).committed@[k as int].kind_style == final(self).draft_kind_style
                    &&& final(manager).committed@[k as int].points@ == final(self).draft_points@
                }
            }),
            old(manager).wf() ==> final(manager).wf(),
    {
        if let Some(t) = input.tab_clicked {
            self.active_tab = t;
        }
        if input.reset_clicked {
            self.draft_style = default_style;
            self.draft_kind_style = default_kind_style_of(manager.committed[k].def_id);
            self.draft_points = copy_points(&manager.committed[k].points);
        }
        if input.reset_clicked || input.edited {
            let id = manager.committed[k].id;
            let def_id = manager.committed[k].def_id;
            let locked = manager.committed[k].locked;
            let written = CommittedDrawing {
                id,
                def_id,
                points: copy_points(&self.draft_points),
                style: self.draft_style,
                kind_style: self.draft_kind_style,
                locked,
            };
            manager.committed.set(k, written);
            manager.dirty = true;
        }
        if input.close_clicked {
            self.open = false;
        }
    }
}

} // verus!
