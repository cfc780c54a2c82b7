//! The catalogue of drawing tools offered in the toolbar, in display order.

use vstd::prelude::*;
use crate::text::str_equal;
use super::kind_style::KindStyle;
use super::tools::{DrawingTool, ToolKind, tool_default_kind_style, tool_id, tool_name, tool_of_kind};
use super::kinds::{
    extended, fib_retracement, horizontal_line, horizontal_ray, ray, trend_line, vertical_line,
};

verus! {

/// One entry of the catalogue.
#[derive(Debug, Clone, Copy, PartialEq, Eq)]
pub struct DrawingToolDef {
    pub id: &'static str,
    pub name: &'static str,
    /// Which tool the entry instantiates.
    pub kind: ToolKind,
}

/// The tools offered, in toolbar order.
pub open spec fn registered_kinds() -> Seq<ToolKind> {
    seq![
        ToolKind::TrendLine,
        ToolKind::HorizontalLine,
        ToolKind::VerticalLine,
        ToolKind::Extended,
        ToolKind::Ray,
        ToolKind::HorizontalRay,
        ToolKind::FibRetracement,
    ]
}

/// `d` describes tool `k`.
pub open spec fn describes(d: DrawingToolDef, k: ToolKind) -> bool {
    d.kind == k && d.id@ == tool_id(k) && d.name@ == tool_name(k)
}

/// `id` is the identifier of a registered tool.
pub open spec fn is_registered(id: Seq<char>) -> bool {
    exists|i: int| 0 <= i < registered_kinds().len() && #[trigger] tool_id(registered_kinds()[i]) == id
}

/// Every entry of the catalogue, in toolbar order.
pub fn all() -> (r: Vec<DrawingToolDef>)
    ensures
        r@.len() == registered_kinds().len(),
        forall|i: int| 0 <= i < r@.len() ==> describes(#[trigger] r@[i], registered_kinds()[i]),
{
    let mut v: Vec<DrawingToolDef> = Vec::new();
    v.push(DrawingToolDef { id: trend_line::ID, name: trend_line::NAME, kind: ToolKind::TrendLine });
    v.push(
        DrawingToolDef {
            id: horizontal_line::ID,
            name: horizontal_line::NAME,
            kind: ToolKind::HorizontalLine,
        },
    );
    v.push(
        DrawingToolDef {
            id: vertical_line::ID,
            name: vertical_line::NAME,
            kind: ToolKind::VerticalLine,
        },
    );
    v.push(DrawingToolDef { id: extended::ID, name: extended::NAME, kind: ToolKind::Extended });
    v.push(DrawingToolDef { id: ray::ID, name: ray::NAME, kind: ToolKind::Ray });
    v.push(
        DrawingToolDef {
            id: horizontal_ray::ID,
            name: horizontal_ray::NAME,
            kind: ToolKind::HorizontalRay,
        },
    );
    v.push(
        DrawingToolDef {
            id: fib_retracement::ID,
            name: fib_retracement::NAME,
            kind: ToolKind::FibRetracement,
        },
    );
    v
}

/// The entry registered under `id`, if any.
pub fn get(id: &str) -> (r: Option<DrawingToolDef>)
    ensures
        r is Some <==> is_registered(id@),
        r matches Some(d) ==> d.id@ == id@ && describes(d, d.kind) && registered_kinds().contains(
            d.kind,
        ),
{
    let defs = all();
    let mut i: usize = 0;
    while i < defs.len()
        invariant
            defs@.len() == registered_kinds().len(),
            forall|j: int| 0 <= j < defs@.len() ==> describes(#[trigger] defs@[j], registered_kinds()[j]),
            i <= defs@.len(),
            forall|j: int| 0 <= j < i ==> tool_id(#[trigger] registered_kinds()[j]) != id@,
        decreases defs@.len() - i,
    {
        let d = defs[i];
        if str_equal(d.id, id) {
            proof {
                assert(describes(defs@[i as int], registered_kinds()[i as int]));
                assert(registered_kinds()[i as int] == d.kind);
            }
            return Some(d);
        }
        proof {
            assert(describes(defs@[i as int], registered_kinds()[i as int]));
        }
        i = i + 1;
    }
    None
}

/// Kind style a drawing stored under `id` is reset to: the default of the
/// registered tool with that id, none for an unknown id.
pub open spec fn default_kind_style_for(id: Seq<char>) -> KindStyle {
    if is_registered(id) {
        let i = choose|i: int| 0 <= i < registered_kinds().len() && #[trigger] tool_id(registered_kinds()[i]) == id;
        tool_default_kind_style(registered_kinds()[i])
    } else {
        KindStyle::Empty
    }
}

/// Executable [`default_kind_style_for`].
pub fn default_kind_style_of(id: &str) -> (r: KindStyle)
    ensures
        r == default_kind_style_for(id@),
{
    match get(id) {
        Some(d) => {
            proof {
                let j = choose|j: int| 0 <= j < registered_kinds().len() && registered_kinds()[j] == d.kind;
                assert(tool_id(registered_kinds()[j]) == id@);
                let i = choose|i: int| 0 <= i < registered_kinds().len() && #[trigger] tool_id(registered_kinds()[i]) == id@;
                if i != j {
                    lemma_registered_ids_distinct(i, j);
                }
            }
            tool_of_kind(d.kind).default_kind_style()
        },
        None => KindStyle::Empty,
    }
}

/// Registered identifiers are pairwise distinct, so `get` finds each entry
/// of `all` under its own identifier.
pub proof fn lemma_registered_ids_distinct(i: int, j: int)
    requires
        0 <= i < registered_kinds().len(),
        0 <= j < registered_kinds().len(),
        i != j,
    ensures
        tool_id(registered_kinds()[i]) != tool_id(registered_kinds()[j]),
{
    reveal_strlit("trend_line");
    reveal_strlit("horizontal_line");
    reveal_strlit("vertical_line");
    reveal_strlit("extended");
    reveal_strlit("ray");
    reveal_strlit("horizontal_ray");
    reveal_strlit("fib_retracement");
    assert("trend_line"@.len() == 10);
    assert("horizontal_line"@.len() == 15);
    assert("vertical_line"@.len() == 13);
    assert("extended"@.len() == 8);
    assert("ray"@.len() == 3);
    assert("horizontal_ray"@.len() == 14);
    assert("fib_retracement"@.len() == 15);
    assert("horizontal_line"@[0] != "fib_retracement"@[0]);
    let ks = registered_kinds();
    assert(ks[0] == ToolKind::TrendLine && ks[1] == ToolKind::HorizontalLine && ks[2]
        == ToolKind::VerticalLine && ks[3] == ToolKind::Extended && ks[4] == ToolKind::Ray && ks[5]
        == ToolKind::HorizontalRay && ks[6] == ToolKind::FibRetracement);
}

} // verus!
