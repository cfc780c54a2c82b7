//! Data and Price Range: a box measuring the bar and price distance between two anchors.

use vstd::prelude::*;
use super::super::kind_style::KindStyle;
use super::super::style::ExtendCapabilities;
use super::super::tools::{DrawingTool, Tool, ToolKind, tool_of_kind, tool_default_kind_style, tool_extend, tool_id, tool_name};

verus! {

/// Identifier under which the tool is registered and stored.
pub const ID: &'static str = "range_measure";

/// Name shown in tooltips and the settings modal.
pub const NAME: &'static str = "Data and Price Range";

/// A box measuring the bar and price distance between two anchors.
pub struct RangeMeasure;

impl DrawingTool for RangeMeasure {
    open spec fn kind(&self) -> ToolKind {
        ToolKind::RangeMeasure
    }

    fn tool_kind(&self) -> (r: ToolKind) {
        ToolKind::RangeMeasure
    }

    fn id(&self) -> (r: &'static str) {
        ID
    }

    fn display_name(&self) -> (r: &'static str) {
        NAME
    }

    fn extend_capabilities(&self) -> (r: ExtendCapabilities) {
        ExtendCapabilities { left: false, right: false }
    }

    fn default_kind_style(&self) -> (r: KindStyle) {
        KindStyle::default_labeled_rect()
    }
}

/// A fresh instance of the tool.
pub fn factory() -> (t: Tool)
    ensures
        t.kind() == ToolKind::RangeMeasure,
{
    tool_of_kind(ToolKind::RangeMeasure)
}

} // verus!
