//! Ray: a line from its first anchor through its second, to the chart edge.

use vstd::prelude::*;
use super::super::kind_style::KindStyle;
use super::super::style::ExtendCapabilities;
use super::super::tools::{DrawingTool, Tool, ToolKind, tool_of_kind, tool_default_kind_style, tool_extend, tool_id, tool_name};

verus! {

/// Identifier under which the tool is registered and stored.
pub const ID: &'static str = "ray";

/// Name shown in tooltips and the settings modal.
pub const NAME: &'static str = "Ray";

/// A line from its first anchor through its second, to the chart edge.
pub struct Ray;

impl DrawingTool for Ray {
    open spec fn kind(&self) -> ToolKind {
        ToolKind::Ray
    }

    fn tool_kind(&self) -> (r: ToolKind) {
        ToolKind::Ray
    }

    fn id(&self) -> (r: &'static str) {
        ID
    }

    fn display_name(&self) -> (r: &'static str) {
        NAME
    }

    fn extend_capabilities(&self) -> (r: ExtendCapabilities) {
        ExtendCapabilities { left: false, right: true }
    }

    fn default_kind_style(&self) -> (r: KindStyle) {
        KindStyle::Empty
    }
}

/// A fresh instance of the tool.
pub fn factory() -> (t: Tool)
    ensures
        t.kind() == ToolKind::Ray,
{
    tool_of_kind(ToolKind::Ray)
}

} // verus!
