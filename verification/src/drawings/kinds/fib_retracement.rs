//! Fib Retracement: fibonacci retracement levels between two anchors.

use vstd::prelude::*;
use super::super::kind_style::KindStyle;
use super::super::style::ExtendCapabilities;
use super::super::tools::{DrawingTool, Tool, ToolKind, tool_of_kind, tool_default_kind_style, tool_extend, tool_id, tool_name};

verus! {

/// Identifier under which the tool is registered and stored.
pub const ID: &'static str = "fib_retracement";

/// Name shown in tooltips and the settings modal.
pub const NAME: &'static str = "Fib Retracement";

/// Fibonacci retracement levels between two anchors.
pub struct FibRetracement;

impl DrawingTool for FibRetracement {
    open spec fn kind(&self) -> ToolKind {
        ToolKind::FibRetracement
    }

    fn tool_kind(&self) -> (r: ToolKind) {
        ToolKind::FibRetracement
    }

    fn id(&self) -> (r: &'static str) {
        ID
    }

    fn display_name(&self) -> (r: &'static str) {
        NAME
    }

    fn extend_capabilities(&self) -> (r: ExtendCapabilities) {
        ExtendCapabilities { left: false, right: false }
    }

    fn default_kind_style(&self) -> (r: KindStyle) {
        KindStyle::default_fib()
    }
}

/// A fresh instance of the tool.
pub fn factory() -> (t: Tool)
    ensures
        t.kind() == ToolKind::FibRetracement,
{
    tool_of_kind(ToolKind::FibRetracement)
}

} // verus!
