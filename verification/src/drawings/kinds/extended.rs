//! Extended: a line through two anchors, extended to both chart edges.

use vstd::prelude::*;
use super::super::kind_style::KindStyle;
use super::super::style::ExtendCapabilities;
use super::super::tools::{DrawingTool, Tool, ToolKind, tool_of_kind, tool_default_kind_style, tool_extend, tool_id, tool_name};

verus! {

/// Identifier under which the tool is registered and stored.
pub const ID: &'static str = "extended";

/// Name shown in tooltips and the settings modal.
pub const NAME: &'static str = "Extended";

/// A line through two anchors, extended to both chart edges.
pub struct Extended;

impl DrawingTool for Extended {
    open spec fn kind(&self) -> ToolKind {
        ToolKind::Extended
    }

    fn tool_kind(&self) -> (r: ToolKind) {
        ToolKind::Extended
    }

    fn id(&self) -> (r: &'static str) {
        ID
    }

    fn display_name(&self) -> (r: &'static str) {
        NAME
    }

    fn extend_capabilities(&self) -> (r: ExtendCapabilities) {
        ExtendCapabilities { left: true, right: true }
    }

    fn default_kind_style(&self) -> (r: KindStyle) {
        KindStyle::Empty
    }
}

/// A fresh instance of the tool.
pub fn factory() -> (t: Tool)
    ensures
        t.kind() == ToolKind::Extended,
{
    tool_of_kind(ToolKind::Extended)
}

} // verus!
