//! Committed drawings of one chart, the draft being placed, and the ids.

use vstd::prelude::*;
use super::kind_style::KindStyle;
use super::point::WorldPoint;
use super::registry::{get, is_registered};
use super::tools::{Tool, tool_default_kind_style, tool_id, tool_of_kind};

verus! {

/// A drawing the user has finished placing. `S` is the line style (color,
/// width, dash, opacity, extension), `T` the coordinate type.
pub struct CommittedDrawing<S, T> {
    pub id: u64,
    pub def_id: &'static str,
    pub points: Vec<WorldPoint<T>>,
    pub style: S,
    /// The knobs specific to the tool (Fibonacci ratios, fills, labels).
    pub kind_style: KindStyle,
    /// A locked drawing cannot be moved or restyled.
    pub locked: bool,
}

/// A drawing being placed: the anchors clicked so far.
pub struct DrawingDraft<T> {
    pub def_id: &'static str,
    pub points: Vec<WorldPoint<T>>,
}

/// What a tool's input handling produced in one frame.
pub enum InputResult<T> {
    /// Nothing to commit yet; the draft may have changed.
    Continue,
    /// The drawing is complete with these anchor points.
    Commit(Vec<WorldPoint<T>>),
}

/// All drawings of a chart.
pub struct DrawingsManager<S, T> {
    pub committed: Vec<CommittedDrawing<S, T>>,
    pub draft: Option<DrawingDraft<T>>,
    /// The id the next committed drawing receives; advanced only by `commit`.
    pub next_id: u64,
    /// Set when the committed drawings changed since they were last saved.
    pub dirty: bool,
}

impl<S, T> DrawingsManager<S, T> {
    /// Well-formedness: ids are positive, strictly increasing in commit order
    /// and all below the next id to hand out.
    pub open spec fn wf(&self) -> bool {
        &&& self.next_id >= 1
        &&& forall|i: int| 0 <= i < self.committed@.len() ==> #[trigger] self.committed@[i].id < self.next_id
        &&& forall|i: int, j: int|
            0 <= i < j < self.committed@.len() ==> #[trigger] self.committed@[i].id
                < #[trigger] self.committed@[j].id
    }

    /// Commit an unlocked drawing of tool `def_id` with its anchor points and
    /// styles. Returns its id, which no committed drawing had before; clears
    /// the draft.
    pub fn commit(
        &mut self,
        def_id: &'static str,
        points: Vec<WorldPoint<T>>,
        style: S,
        kind_style: KindStyle,
    ) -> (id: u64)
        requires
            old(self).wf(),
            old(self).next_id < u64::MAX,
        ensures
            final(self).wf(),
            id == old(self).next_id,
            final(self).next_id == id + 1,
            final(self).committed@ == old(self).committed@.push(
                CommittedDrawing { id, def_id, points, style, kind_style, locked: false },
            ),
            forall|i: int| 0 <= i < old(self).committed@.len() ==> #[trigger] old(self).committed@[i].id != id,
            final(self).draft is None,
            final(self).dirty == old(self).dirty,
    {
        let id = self.next_id;
        self.next_id = self.next_id + 1;
        self.committed.push(CommittedDrawing { id, def_id, points, style, kind_style, locked: false });
        self.draft = None;
        id
    }

    /// Drop the draft being placed.
    pub fn cancel_draft(&mut self)
        requires
            old(self).wf(),
        ensures
            final(self).wf(),
            *final(self) == (DrawingsManager { draft: None, ..*old(self) }),
    {
        self.draft = None;
    }

    /// Remove every committed drawing; the removal is pending a save.
    pub fn clear_all(&mut self)
        requires
            old(self).wf(),
        ensures
            final(self).wf(),
            final(self).committed@.len() == 0,
            *final(self) == (DrawingsManager { committed: final(self).committed, dirty: true, ..*old(self) }),
    {
        self.committed = Vec::new();
        self.dirty = true;
    }

    /// A fresh instance of the tool registered under `def_id`.
    pub fn tool_for(&self, def_id: &str) -> (r: Option<Tool>)
        ensures
            r is Some <==> is_registered(def_id@),
            r matches Some(t) ==> tool_id(t.kind()) == def_id@,
    {
        match get(def_id) {
            Some(def) => Some(tool_of_kind(def.kind)),
            None => None,
        }
    }
}

impl<S, T> Default for DrawingsManager<S, T> {
    fn default() -> (m: Self)
        ensures
            m.wf(),
            m.committed@.len() == 0,
            m.draft is None,
            m.next_id == 1,
            !m.dirty,
    {
        DrawingsManager { committed: Vec::new(), draft: None, next_id: 1, dirty: false }
    }
}

/// Apply the result of `tool`'s input handling to `manager`: a completed
/// drawing is committed under the tool's id with line style `style` and the
/// tool's default kind style; anything else leaves the manager as is.
pub fn dispatch_input<S, T>(
    tool: &Tool,
    manager: &mut DrawingsManager<S, T>,
    result: InputResult<T>,
    style: S,
)
    requires
        old(manager).wf(),
        result is Commit ==> old(manager).next_id < u64::MAX,
    ensures
        final(manager).wf(),
        final(manager).dirty == old(manager).dirty,
        match result {
            InputResult::Continue => *final(manager) == *old(manager),
            InputResult::Commit(points) => {
                &&& final(manager).committed@.len() == old(manager).committed@.len() + 1
                &&& final(manager).committed@.drop_last() == old(manager).committed@
                &&& final(manager).committed@.last().id == old(manager).next_id
                &&& final(manager).committed@.last().def_id@ == tool_id(tool.kind())
                &&& final(manager).committed@.last().points == points
                &&& final(manager).committed@.last().style == style
                &&& final(manager).committed@.last().kind_style == tool_default_kind_style(tool.kind())
                &&& !final(manager).committed@.last().locked
                &&& final(manager).next_id == old(manager).next_id + 1
                &&& final(manager).draft is None
            },
        },
{
    match result {
        InputResult::Continue => {},
        InputResult::Commit(points) => {
            let ghost before = manager.committed@;
            let kind_style = tool.default_kind_style();
            manager.commit(tool.id(), points, style, kind_style);
            assert(manager.committed@.drop_last() =~= before);
        },
    }
}

/// In a well-formed manager no two committed drawings share an id.
pub proof fn lemma_committed_ids_unique<S, T>(m: DrawingsManager<S, T>, i: int, j: int)
    requires
        m.wf(),
        0 <= i < m.committed@.len(),
        0 <= j < m.committed@.len(),
        i != j,
    ensures
        m.committed@[i].id != m.committed@[j].id,
{
    if i < j {
        assert(m.committed@[i].id < m.committed@[j].id);
    } else {
        assert(m.committed@[j].id < m.committed@[i].id);
    }
}

} // verus!
