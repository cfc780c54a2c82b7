//! Trendline: a straight segment between two anchors.

use vstd::prelude::*;
use super::super::kind_style::KindStyle;
use super::super::style::ExtendCapabilities;
use super::super::tools::{DrawingTool, Tool, ToolKind, tool_of_kind, tool_default_kind_style, tool_extend, tool_id, tool_name};

verus! {

/// Identifier under which the tool is registered and stored.
pub const ID: &'static str = "trend_line";

/// Name shown in tooltips and the settings modal.
pub const NAME: &'static str = "Trendline";

/// A straight segment between two anchors.
pub struct TrendLine;

impl DrawingTool for TrendLine {
    open spec fn kind(&self) -> ToolKind {
        ToolKind::TrendLine
    }

    fn tool_kind(&self) -> (r: ToolKind) {
        ToolKind::TrendLine
    }

    fn id(&self) -> (r: &'static str) {
        ID
    }

    fn display_name(&self) -> (r: &'static str) {
        NAME
    }

    fn extend_capabilities(&self) -> (r: ExtendCapabilities) {
        ExtendCapabilities { left: false, right: false }
    }

    fn default_kind_style(&self) -> (r: KindStyle) {
        KindStyle::Empty
    }
}

/// A fresh instance of the tool.
pub fn factory() -> (t: Tool)
    ensures
        t.kind() == ToolKind::TrendLine,
{
    tool_of_kind(ToolKind::TrendLine)
}

} // verus!
