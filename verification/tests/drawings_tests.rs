use zaned::drawings::handles::{apply_handle_move, world_handles};
use zaned::drawings::kind_style::{set_fib_ratio, KindStyle, ALL_FIB_RATIOS_MASK};
use zaned::drawings::kinds::extended::Extended;
use zaned::drawings::kinds::ray::Ray;
use zaned::drawings::kinds::{
    extended, fib_retracement, horizontal_line, pitchfork, range_measure, rectangle, short_position,
    trend_line,
};
use zaned::drawings::manager::{dispatch_input, DrawingsManager, InputResult};
use zaned::drawings::point::WorldPoint;
use zaned::drawings::registry::{all, get};
use zaned::drawings::style::{color_palette, DashStyle, ExtendCapabilities, Rgba};
use zaned::drawings::tools::{tool_of_kind, DrawingTool, ToolKind};

fn wp(index: f32, price: f32) -> WorldPoint<f32> {
    WorldPoint { index, price }
}

#[test]
fn extend_capabilities_both_sides() {
    let t = Extended;
    let caps = t.extend_capabilities();
    assert!(caps.left);
    assert!(caps.right);
}

#[test]
fn extend_capabilities_right_only() {
    let caps = Ray.extend_capabilities();
    assert!(!caps.left);
    assert!(caps.right);
}

#[test]
fn other_tools_do_not_extend() {
    assert_eq!(trend_line::factory().extend_capabilities(), ExtendCapabilities::default());
    assert_eq!(
        ExtendCapabilities::default(),
        ExtendCapabilities { left: false, right: false }
    );
}

#[test]
fn factories_report_their_ids_and_names() {
    let t = fib_retracement::factory();
    assert_eq!(t.id(), "fib_retracement");
    assert_eq!(t.display_name(), "Fib Retracement");
    assert_eq!(t.tool_kind(), ToolKind::FibRetracement);
    assert_eq!(range_measure::factory().display_name(), "Data and Price Range");
    assert_eq!(trend_line::factory().display_name(), "Trendline");
    assert_eq!(extended::factory().id(), "extended");
}

#[test]
fn default_kind_styles() {
    assert_eq!(
        fib_retracement::factory().default_kind_style(),
        KindStyle::Fib { ratios_mask: 127, show_labels: true }
    );
    assert_eq!(
        rectangle::factory().default_kind_style(),
        KindStyle::FilledRect { fill_enabled: true, fill_alpha: 40 }
    );
    assert_eq!(
        pitchfork::factory().default_kind_style(),
        KindStyle::Pitchfork { fill_enabled: true, fill_alpha: 22 }
    );
    assert_eq!(
        range_measure::factory().default_kind_style(),
        KindStyle::LabeledRect { show_label: true }
    );
    assert_eq!(short_position::factory().default_kind_style(), KindStyle::default_position());
    assert_eq!(horizontal_line::factory().default_kind_style(), KindStyle::Empty);
    assert_eq!(KindStyle::default(), KindStyle::Empty);
}

#[test]
fn registry_lists_seven_tools_in_order() {
    let ids: Vec<&str> = all().iter().map(|d| d.id).collect();
    assert_eq!(
        ids,
        vec![
            "trend_line",
            "horizontal_line",
            "vertical_line",
            "extended",
            "ray",
            "horizontal_ray",
            "fib_retracement"
        ]
    );
    for d in all() {
        assert_eq!(get(d.id), Some(d));
    }
    assert_eq!(get("pitchfork"), None);
    assert_eq!(get(""), None);
}

#[test]
fn manager_hands_out_increasing_ids() {
    let mut m: DrawingsManager<u32, f32> = DrawingsManager::default();
    assert_eq!(m.next_id, 1);
    let a = m.commit("trend_line", vec![wp(1.0, 2.0), wp(3.0, 4.0)], 1, KindStyle::Empty);
    let b = m.commit("ray", vec![wp(0.0, 0.0)], 1, KindStyle::Empty);
    assert_eq!((a, b), (1, 2));
    assert_eq!(m.committed.len(), 2);
    assert_eq!(m.committed[1].def_id, "ray");
    assert!(m.draft.is_none());
    m.cancel_draft();
    assert!(m.draft.is_none());
    m.clear_all();
    assert!(m.committed.is_empty());
    assert!(m.dirty);
    assert_eq!(m.commit("ray", vec![], 1, KindStyle::Empty), 3);
}

#[test]
fn manager_tool_for_known_and_unknown_ids() {
    let m: DrawingsManager<u32, f32> = DrawingsManager::default();
    assert_eq!(m.tool_for("horizontal_ray").map(|t| t.display_name()), Some("Horizontal Ray"));
    assert!(m.tool_for("nope").is_none());
}

#[test]
fn fib_ratio_bits() {
    let k = KindStyle::default_fib();
    for i in 0..7usize {
        assert!(k.fib_ratio_enabled(i));
    }
    assert!(!k.fib_ratio_enabled(7));
    let mask = set_fib_ratio(ALL_FIB_RATIOS_MASK, 3, false);
    assert_eq!(mask, 0b111_0111);
    let k = KindStyle::Fib { ratios_mask: mask, show_labels: false };
    assert!(!k.fib_ratio_enabled(3));
    assert!(k.fib_ratio_enabled(2));
    assert_eq!(set_fib_ratio(mask, 3, true), ALL_FIB_RATIOS_MASK);
    assert!(KindStyle::Empty.fib_ratio_enabled(5));
    assert!(KindStyle::Empty.fib_ratio_enabled(100));
    let k = KindStyle::Fib { ratios_mask: 0b101, show_labels: true };
    assert!(k.fib_ratio_enabled(0) && !k.fib_ratio_enabled(1) && k.fib_ratio_enabled(2));
}

#[test]
fn dash_style_database_names() {
    for d in [DashStyle::Solid, DashStyle::Dashed, DashStyle::Dotted] {
        assert_eq!(DashStyle::from_db_name(d.db_name()), d);
    }
    assert_eq!(DashStyle::Dashed.db_name(), "Dashed");
    assert_eq!(DashStyle::from_db_name("wavy"), DashStyle::Solid);
}

#[test]
fn palette_starts_with_white() {
    let p = color_palette();
    assert_eq!(p.len(), 8);
    assert_eq!(p[0], Rgba([255, 255, 255, 255]));
    assert_eq!(p[7], Rgba([78, 205, 196, 255]));
}

#[test]
fn handles_of_each_tool_kind() {
    let pts = vec![wp(2.0, 5.0), wp(5.0, 5.0), wp(7.0, 1.0)];
    assert_eq!(world_handles(ToolKind::HorizontalLine, &pts).unwrap(), vec![wp(2.0, 5.0)]);
    assert_eq!(world_handles(ToolKind::TrendLine, &pts).unwrap().len(), 2);
    assert_eq!(world_handles(ToolKind::Pitchfork, &pts).unwrap(), pts);
    assert!(world_handles(ToolKind::RangeMeasure, &pts).is_none());
    assert!(world_handles(ToolKind::Ray, &vec![wp(1.0, 1.0)]).unwrap().is_empty());
    let rect = world_handles(ToolKind::Rectangle, &vec![wp(0.0, 10.0), wp(4.0, 20.0)]).unwrap();
    assert_eq!(rect, vec![wp(0.0, 10.0), wp(4.0, 10.0), wp(4.0, 20.0), wp(0.0, 20.0)]);
}

#[test]
fn dragging_a_rectangle_corner_lands_on_target() {
    for k in 0..4usize {
        let mut pts = vec![wp(0.0, 10.0), wp(4.0, 20.0)];
        let before = world_handles(ToolKind::Rectangle, &pts).unwrap();
        apply_handle_move(ToolKind::Rectangle, &mut pts, k, wp(9.0, 99.0));
        let after = world_handles(ToolKind::Rectangle, &pts).unwrap();
        assert_eq!(after[k], wp(9.0, 99.0));
        assert_eq!(after[(k + 2) % 4], before[(k + 2) % 4]);
    }
    let mut pts = vec![wp(0.0, 10.0), wp(4.0, 20.0)];
    apply_handle_move(ToolKind::Rectangle, &mut pts, 7, wp(9.0, 99.0));
    assert_eq!(pts, vec![wp(0.0, 10.0), wp(4.0, 20.0)]);
}

#[test]
fn dragging_a_line_anchor_moves_that_point() {
    let mut pts = vec![wp(1.0, 1.0), wp(2.0, 2.0)];
    apply_handle_move(ToolKind::TrendLine, &mut pts, 1, wp(3.0, 3.0));
    assert_eq!(pts, vec![wp(1.0, 1.0), wp(3.0, 3.0)]);
    apply_handle_move(ToolKind::TrendLine, &mut pts, 5, wp(0.0, 0.0));
    assert_eq!(pts, vec![wp(1.0, 1.0), wp(3.0, 3.0)]);
}

#[test]
fn dispatch_commits_only_completed_drawings() {
    let mut m: DrawingsManager<u32, f32> = DrawingsManager::default();
    let tool = tool_of_kind(ToolKind::TrendLine);
    dispatch_input(&tool, &mut m, InputResult::Continue, 5);
    assert!(m.committed.is_empty());
    assert_eq!(m.next_id, 1);
    dispatch_input(&tool, &mut m, InputResult::Commit(vec![wp(1.0, 2.0), wp(3.0, 4.0)]), 5);
    assert_eq!(m.committed.len(), 1);
    assert_eq!(m.committed[0].id, 1);
    assert_eq!(m.committed[0].def_id, "trend_line");
    assert_eq!(m.committed[0].points, vec![wp(1.0, 2.0), wp(3.0, 4.0)]);
    assert_eq!(m.committed[0].style, 5);
    assert_eq!(m.committed[0].kind_style, KindStyle::Empty);
    assert!(!m.committed[0].locked);
    let fib = tool_of_kind(ToolKind::FibRetracement);
    dispatch_input(&fib, &mut m, InputResult::Commit(vec![wp(0.0, 1.0), wp(2.0, 3.0)]), 6);
    assert_eq!(m.committed[1].kind_style, KindStyle::default_fib());
    assert_eq!(m.next_id, 3);
    assert!(m.draft.is_none());
}
