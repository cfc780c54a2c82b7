//! The drawing-tool interface and the boxed tool handed out by the
//! registry. Geometry (projection, painting, hit testing) works in screen
//! space with floating point and lives with the renderer; the catalogue facts
//! below are what the rest of the chart logic relies on.

use vstd::prelude::*;
use super::kind_style::KindStyle;
use super::kinds::{
    extended, fib_retracement, horizontal_line, horizontal_ray, pitchfork, polyline, range_measure, ray,
    rectangle, short_position, trend_channel, trend_line, vertical_line,
};
use super::style::ExtendCapabilities;

verus! {

/// Every drawing tool the chart knows.
#[derive(Debug, Clone, Copy, PartialEq, Eq, Structural)]
pub enum ToolKind {
    TrendLine,
    HorizontalLine,
    VerticalLine,
    Extended,
    Ray,
    HorizontalRay,
    FibRetracement,
    Pitchfork,
    Polyline,
    RangeMeasure,
    Rectangle,
    ShortPosition,
    TrendChannel,
}

/// Registry identifier of a tool.
pub open spec fn tool_id(k: ToolKind) -> Seq<char> {
    match k {
        ToolKind::TrendLine => "trend_line"@,
        ToolKind::HorizontalLine => "horizontal_line"@,
        ToolKind::VerticalLine => "vertical_line"@,
        ToolKind::Extended => "extended"@,
        ToolKind::Ray => "ray"@,
        ToolKind::HorizontalRay => "horizontal_ray"@,
        ToolKind::FibRetracement => "fib_retracement"@,
        ToolKind::Pitchfork => "pitchfork"@,
        ToolKind::Polyline => "polyline"@,
        ToolKind::RangeMeasure => "range_measure"@,
        ToolKind::Rectangle => "rectangle"@,
        ToolKind::ShortPosition => "short_position"@,
        ToolKind::TrendChannel => "trend_channel"@,
    }
}

/// Display name of a tool.
pub open spec fn tool_name(k: ToolKind) -> Seq<char> {
    match k {
        ToolKind::TrendLine => "Trendline"@,
        ToolKind::HorizontalLine => "Horizontal Line"@,
        ToolKind::VerticalLine => "Vertical Line"@,
        ToolKind::Extended => "Extended"@,
        ToolKind::Ray => "Ray"@,
        ToolKind::HorizontalRay => "Horizontal Ray"@,
        ToolKind::FibRetracement => "Fib Retracement"@,
        ToolKind::Pitchfork => "Pitchfork"@,
        ToolKind::Polyline => "Polyline"@,
        ToolKind::RangeMeasure => "Data and Price Range"@,
        ToolKind::Rectangle => "Rectangle"@,
        ToolKind::ShortPosition => "Short Position"@,
        ToolKind::TrendChannel => "Trend Channel"@,
    }
}

/// Every tool has its own identifier, under which drawings are stored, and
/// its own display name: two different tools never share either.
pub proof fn lemma_tool_ids_and_names_distinct(a: ToolKind, b: ToolKind)
    ensures
        a != b ==> tool_id(a) != tool_id(b),
        a != b ==> tool_name(a) != tool_name(b),
{
    reveal_strlit("trend_line");
    reveal_strlit("horizontal_line");
    reveal_strlit("vertical_line");
    reveal_strlit("extended");
    reveal_strlit("ray");
    reveal_strlit("horizontal_ray");
    reveal_strlit("fib_retracement");
    reveal_strlit("pitchfork");
    reveal_strlit("polyline");
    reveal_strlit("range_measure");
    reveal_strlit("rectangle");
    reveal_strlit("short_position");
    reveal_strlit("trend_channel");
    reveal_strlit("Trendline");
    reveal_strlit("Horizontal Line");
    reveal_strlit("Vertical Line");
    reveal_strlit("Extended");
    reveal_strlit("Ray");
    reveal_strlit("Horizontal Ray");
    reveal_strlit("Fib Retracement");
    reveal_strlit("Pitchfork");
    reveal_strlit("Polyline");
    reveal_strlit("Data and Price Range");
    reveal_strlit("Rectangle");
    reveal_strlit("Short Position");
    reveal_strlit("Trend Channel");
    let (ia, ib, na, nb) = (tool_id(a), tool_id(b), tool_name(a), tool_name(b));
    assert(a != b ==> ia.len() != ib.len() || ia[0] != ib[0] || ia[1] != ib[1] || ia[ia.len() - 1] != ib[ib.len() - 1] || ia[2] != ib[2] || ia[11] != ib[11]);
    assert(a != b ==> na.len() != nb.len() || na[0] != nb[0] || na[1] != nb[1] || na[na.len() - 1] != nb[nb.len() - 1] || na[2] != nb[2] || na[11] != nb[11]);
}

/// Sides a tool's line may be extended to: `(left, right)`.
pub open spec fn tool_extend(k: ToolKind) -> ExtendCapabilities {
    match k {
        ToolKind::Extended => ExtendCapabilities { left: true, right: true },
        ToolKind::Ray => ExtendCapabilities { left: false, right: true },
        _ => ExtendCapabilities { left: false, right: false },
    }
}

/// Only the extended line reaches past both anchors; the ray extends to the
/// right only, and every other tool to neither side.
pub proof fn lemma_extend_sides(k: ToolKind)
    ensures
        tool_extend(k).left <==> k == ToolKind::Extended,
        tool_extend(k).right <==> (k == ToolKind::Extended || k == ToolKind::Ray),
{
}

/// Kind style a fresh drawing of the tool starts with.
pub open spec fn tool_default_kind_style(k: ToolKind) -> KindStyle {
    match k {
        ToolKind::FibRetracement => KindStyle::Fib { ratios_mask: 127, show_labels: true },
        ToolKind::Pitchfork => KindStyle::Pitchfork { fill_enabled: true, fill_alpha: 22 },
        ToolKind::RangeMeasure => KindStyle::LabeledRect { show_label: true },
        ToolKind::Rectangle => KindStyle::FilledRect { fill_enabled: true, fill_alpha: 40 },
        ToolKind::ShortPosition => KindStyle::Position {
            profit_color: super::style::Rgba([52, 168, 83, 255]),
            loss_color: super::style::Rgba([220, 68, 55, 255]),
            entry_color: super::style::Rgba([200, 200, 210, 255]),
            show_label: true,
        },
        _ => KindStyle::Empty,
    }
}

/// A fresh drawing starts with the knobs of its own kind: Fibonacci ratios
/// (all seven drawn, with labels) only for the retracement, a fill (22 of
/// 255) only for the pitchfork, a fill (40 of 255) only for the rectangle, a
/// label only for the range measure, the position colors only for the short
/// position, and no knobs for the line tools.
pub proof fn lemma_default_kind_styles(k: ToolKind)
    ensures
        tool_default_kind_style(k) is Fib <==> k == ToolKind::FibRetracement,
        k == ToolKind::FibRetracement ==> tool_default_kind_style(k)->Fib_ratios_mask == 127
            && tool_default_kind_style(k)->Fib_show_labels,
        tool_default_kind_style(k) is Pitchfork <==> k == ToolKind::Pitchfork,
        k == ToolKind::Pitchfork ==> tool_default_kind_style(k)->Pitchfork_fill_enabled
            && tool_default_kind_style(k)->Pitchfork_fill_alpha == 22,
        tool_default_kind_style(k) is FilledRect <==> k == ToolKind::Rectangle,
        k == ToolKind::Rectangle ==> tool_default_kind_style(k)->FilledRect_fill_enabled
            && tool_default_kind_style(k)->FilledRect_fill_alpha == 40,
        tool_default_kind_style(k) is LabeledRect <==> k == ToolKind::RangeMeasure,
        tool_default_kind_style(k) is Position <==> k == ToolKind::ShortPosition,
        tool_default_kind_style(k) is Empty <==> (k == ToolKind::TrendLine || k == ToolKind::HorizontalLine
            || k == ToolKind::VerticalLine || k == ToolKind::Extended || k == ToolKind::Ray
            || k == ToolKind::HorizontalRay || k == ToolKind::Polyline || k == ToolKind::TrendChannel),
{
}

/// What every drawing tool tells the rest of the chart.
pub trait DrawingTool {
    /// The tool this is.
    spec fn kind(&self) -> ToolKind;

    fn tool_kind(&self) -> (r: ToolKind)
        ensures
            r == self.kind(),
    ;

    fn id(&self) -> (r: &'static str)
        ensures
            r@ == tool_id(self.kind()),
    ;

    fn display_name(&self) -> (r: &'static str)
        ensures
            r@ == tool_name(self.kind()),
    ;

    fn extend_capabilities(&self) -> (r: ExtendCapabilities)
        ensures
            r == tool_extend(self.kind()),
    ;

    fn default_kind_style(&self) -> (r: KindStyle)
        ensures
            r == tool_default_kind_style(self.kind()),
    ;
}

/// A boxed drawing tool.
pub struct Tool {
    inner: Box<dyn DrawingTool>,
}

impl Tool {
    /// The tool inside.
    pub closed spec fn kind(&self) -> ToolKind {
        (*self.inner).kind()
    }

    pub fn tool_kind(&self) -> (r: ToolKind)
        ensures
            r == self.kind(),
    {
        self.inner.tool_kind()
    }

    pub fn id(&self) -> (r: &'static str)
        ensures
            r@ == tool_id(self.kind()),
    {
        self.inner.id()
    }

    pub fn display_name(&self) -> (r: &'static str)
        ensures
            r@ == tool_name(self.kind()),
    {
        self.inner.display_name()
    }

    pub fn extend_capabilities(&self) -> (r: ExtendCapabilities)
        ensures
            r == tool_extend(self.kind()),
    {
        self.inner.extend_capabilities()
    }

    pub fn default_kind_style(&self) -> (r: KindStyle)
        ensures
            r == tool_default_kind_style(self.kind()),
    {
        self.inner.default_kind_style()
    }
}

/// A fresh instance of the tool of kind `k`.
pub fn tool_of_kind(k: ToolKind) -> (t: Tool)
    ensures
        t.kind() == k,
{
    match k {
        ToolKind::TrendLine => Tool { inner: Box::new(trend_line::TrendLine) },
        ToolKind::HorizontalLine => Tool { inner: Box::new(horizontal_line::HorizontalLine) },
        ToolKind::VerticalLine => Tool { inner: Box::new(vertical_line::VerticalLine) },
        ToolKind::Extended => Tool { inner: Box::new(extended::Extended) },
        ToolKind::Ray => Tool { inner: Box::new(ray::Ray) },
        ToolKind::HorizontalRay => Tool { inner: Box::new(horizontal_ray::HorizontalRay) },
        ToolKind::FibRetracement => Tool { inner: Box::new(fib_retracement::FibRetracement) },
        ToolKind::Pitchfork => Tool { inner: Box::new(pitchfork::Pitchfork) },
        ToolKind::Polyline => Tool { inner: Box::new(polyline::Polyline) },
        ToolKind::RangeMeasure => Tool { inner: Box::new(range_measure::RangeMeasure) },
        ToolKind::Rectangle => Tool { inner: Box::new(rectangle::Rectangle) },
        ToolKind::ShortPosition => Tool { inner: Box::new(short_position::ShortPosition) },
        ToolKind::TrendChannel => Tool { inner: Box::new(trend_channel::TrendChannel) },
    }
}

} // verus!
