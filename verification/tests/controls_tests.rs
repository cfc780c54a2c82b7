use zaned::clock::UtcInstant;
use zaned::controls::drawing_settings::{
    position_tab_label, DrawingSettingsModal, DrawingSettingsTab, SettingsInput,
};
use zaned::drawings::kind_style::KindStyle;
use zaned::drawings::manager::DrawingsManager;
use zaned::drawings::point::WorldPoint;
use zaned::drawings::toolbar::{button_shown, toolbar_click, ToolbarButton, ToolbarEvent};
use zaned::components::mini_sidebar::MiniSidebar;
use zaned::components::top_header::{display_name, SearchBox, SearchReply};
use zaned::components::widgets_control::{tabs, toolbar_separator_after, WidgetsControl};
use zaned::controls::indicators::{
    categories, indicator_category, IndicatorBarEvent, IndicatorModal, ModalEditor, SettingsModal,
    SettingsTab,
};
use zaned::controls::toolbar::{tooltip, ChartToolbar};
use zaned::shell::{
    boot_symbol_due, layout_change, login_view, screen_for, LayoutChange, LoginView, Screen,
    ViewKind,
};
use zaned::auth::state::AuthState;

#[test]
fn indicator_categories() {
    assert_eq!(indicator_category("ema"), "Trend");
    assert_eq!(indicator_category("ichimoku"), "Trend");
    assert_eq!(indicator_category("williams_r"), "Momentum");
    assert_eq!(indicator_category("atr"), "Volatility");
    assert_eq!(indicator_category("vwap"), "Volume");
    assert_eq!(indicator_category("supertrend"), "Other");
    assert_eq!(indicator_category("unknown"), "Other");
    assert_eq!(categories(), vec!["Trend", "Momentum", "Volatility", "Volume", "Other"]);
}

#[test]
fn favorites_toggle_and_filter() {
    let mut m: IndicatorModal<u8> = IndicatorModal::new();
    assert_eq!(m.active_tab, 1);
    assert!(m.is_favorited("ema"));
    assert!(m.is_favorited("volume"));
    assert!(!m.is_favorited("rsi"));
    m.toggle_favorite("rsi");
    assert!(m.is_favorited("rsi"));
    m.toggle_favorite("ema");
    assert!(!m.is_favorited("ema"));
    m.toggle_favorite("ema");
    assert!(m.is_favorited("ema"));
    assert!(m.lists("Trend", "ema", "Exponential Moving Average"));
    assert!(!m.lists("Momentum", "ema", "Exponential Moving Average"));
    m.search_query = "MOVING".into();
    assert!(m.lists("Trend", "sma", "Simple Moving Average"));
    assert!(!m.lists("Momentum", "rsi", "Relative Strength Index"));
    m.search_query = String::new();
    m.active_tab = 0;
    assert!(m.lists("Momentum", "rsi", "Relative Strength Index"));
    assert!(!m.lists("Trend", "sma", "Simple Moving Average"));
}

#[test]
fn modal_editor_and_close() {
    let mut m: IndicatorModal<u8> = IndicatorModal::new();
    m.open = true;
    m.edit_instance(4, "ema", 9);
    assert!(matches!(m.editor, Some(ModalEditor::Edit { instance_id: 4, def_id: "ema", draft: 9 })));
    let taken = m.take_confirmed_editor();
    assert!(matches!(taken, Some(ModalEditor::Edit { instance_id: 4, .. })));
    assert!(m.editor.is_none());
    m.editor = Some(ModalEditor::Add { def_id: "sma", draft: 1 });
    m.close();
    assert!(!m.open);
    assert!(m.editor.is_none());
}

#[test]
fn settings_modal_flow() {
    let mut s: SettingsModal<Vec<u8>> = SettingsModal::new(vec![]);
    assert!(!s.open);
    s.active_tab = SettingsTab::Style;
    s.open_for(7, vec![1, 2]);
    assert!(s.open);
    assert_eq!(s.instance_id, 7);
    assert_eq!(s.active_tab, SettingsTab::Inputs);
    s.reset_to(vec![0]);
    assert_eq!(s.draft, vec![0]);
    assert_eq!(s.apply(), 7);
    assert!(!s.open);
}

#[test]
fn chart_toolbar_icons() {
    let mut t: ChartToolbar<u8, u8> = ChartToolbar::new(0);
    assert!(t.icon_visible(13));
    assert!(t.icon_active(2) == false);
    t.click_icon(5);
    assert!(t.icon_active(5));
    t.click_icon(0);
    assert!(t.show_indicators && t.icon_active(0));
    assert!(t.icon_visible(9) && !t.icon_visible(10));
    assert!(!t.separator_after(9));
    t.click_icon(0);
    assert!(t.separator_after(9));
    t.click_icon(1);
    assert!(t.icon_visible(1) && !t.icon_visible(2));
    t.click_drawing_tool("ray");
    assert_eq!(t.active_drawing, Some("ray"));
    t.click_drawing_tool("extended");
    assert_eq!(t.active_drawing, Some("extended"));
    t.click_drawing_tool("extended");
    assert_eq!(t.active_drawing, None);
    t.handle_bar_event(Some(IndicatorBarEvent::Remove(3)));
    assert!(!t.indicator_modal.open);
    t.handle_bar_event(Some(IndicatorBarEvent::OpenModal));
    assert!(t.indicator_modal.open);
    assert_eq!(tooltip(0), "Indicator");
    assert_eq!(tooltip(3), "Line Style");
    assert_eq!(tooltip(4), "");
}

#[test]
fn sidebars_and_tabs() {
    let mut s = MiniSidebar::default();
    assert!(s.is_active(0, 0));
    s.click(1, 2);
    assert!(s.is_active(1, 2) && !s.is_active(0, 2));
    let mut w = WidgetsControl::default();
    w.click_tab(4);
    assert!(w.is_active(4));
    assert_eq!(tabs().len(), 13);
    assert_eq!(tabs()[11], "Order Flow");
    let seps: Vec<usize> = (0..18).filter(|i| toolbar_separator_after(*i)).collect();
    assert_eq!(seps, vec![1, 5, 9, 13]);
}

#[test]
fn search_box_fires_on_changed_trimmed_query() {
    let mut b: SearchBox<u8> = SearchBox::new();
    assert_eq!(b.query_changed(), None);
    b.search_query = "  aap ".into();
    assert_eq!(b.query_changed(), Some("aap".to_string()));
    assert!(b.search_pending);
    assert_eq!(b.empty_label(), "Searching…");
    assert_eq!(b.query_changed(), None);
    b.search_finished("aap", SearchReply::Symbols(vec![1, 2]));
    assert_eq!(b.results, vec![1, 2]);
    assert_eq!(b.empty_label(), "No matches");
    b.dropdown_open = true;
    assert!(b.dropdown_visible());
    b.search_query = " ".into();
    assert!(!b.dropdown_visible());
    assert_eq!(b.query_changed(), None);
    assert!(b.results.is_empty());
    b.search_finished("", SearchReply::Error("boom".into()));
    assert!(b.results.is_empty());
    b.pick("AAPL".into());
    assert!(!b.dropdown_open && b.search_query.is_empty());
    assert_eq!(b.take_picked(), Some("AAPL".to_string()));
    assert_eq!(b.take_picked(), None);
}

#[test]
fn stale_search_replies_are_ignored() {
    let mut b: SearchBox<u8> = SearchBox::new();
    b.search_query = "a".into();
    assert_eq!(b.query_changed(), Some("a".to_string()));
    b.search_query = "ab".into();
    assert_eq!(b.query_changed(), Some("ab".to_string()));
    // The reply to the replaced search is not heard.
    b.search_finished("a", SearchReply::Symbols(vec![9]));
    assert!(b.results.is_empty());
    assert!(b.search_pending);
    b.search_finished("ab", SearchReply::Symbols(vec![1]));
    assert_eq!(b.results, vec![1]);
    // Nothing is pending any more: a late reply changes nothing.
    b.search_finished("ab", SearchReply::Error("late".into()));
    assert_eq!(b.results, vec![1]);
    // A search dropped without an answer keeps the results shown.
    b.search_query = "abc".into();
    assert_eq!(b.query_changed(), Some("abc".to_string()));
    b.search_finished("abc", SearchReply::Dropped);
    assert_eq!(b.results, vec![1]);
    assert!(!b.search_pending);
}

#[test]
fn long_names_are_cut() {
    assert_eq!(display_name("Apple Inc."), "Apple Inc.");
    let long = "A".repeat(40);
    assert_eq!(display_name(&long), format!("{}…", "A".repeat(32)));
    assert_eq!(display_name(&"é".repeat(32)), "é".repeat(32));
}

#[test]
fn routing_by_auth_state() {
    let signed = AuthState::Authenticated { access_token: "t".into(), expires_at: UtcInstant { secs: 0, nanos: 0 } };
    assert_eq!(screen_for(&signed), Screen::Main);
    assert_eq!(screen_for(&AuthState::Loading), Screen::Loading);
    assert_eq!(screen_for(&AuthState::Unauthenticated), Screen::Login);
    assert_eq!(screen_for(&AuthState::Failed { message: "x".into() }), Screen::Login);
    assert!(boot_symbol_due(&signed, false));
    assert!(!boot_symbol_due(&signed, true));
    assert!(!boot_symbol_due(&AuthState::Loading, false));
    assert_eq!(
        login_view(&AuthState::Failed { message: "denied".into() }),
        LoginView::Failed("Sign-in failed: denied".into())
    );
    assert_eq!(login_view(&AuthState::Unauthenticated), LoginView::SignIn);
    assert_eq!(login_view(&AuthState::Loading), LoginView::Waiting);
    assert_eq!(login_view(&signed), LoginView::SignedIn);
}

#[test]
fn layout_changes() {
    assert_eq!(layout_change(ViewKind::Single, false, false), LayoutChange::PromoteToMulti);
    assert_eq!(layout_change(ViewKind::Single, true, true), LayoutChange::Keep);
    assert_eq!(layout_change(ViewKind::Multi, true, true), LayoutChange::ConfirmCollapse);
    assert_eq!(layout_change(ViewKind::Multi, true, false), LayoutChange::CollapseToSingle);
    assert_eq!(layout_change(ViewKind::Multi, false, true), LayoutChange::Keep);
}

#[test]
fn drawing_settings_reset_write_back_and_close() {
    assert_eq!(position_tab_label("vertical_line"), "Date");
    assert_eq!(position_tab_label("trend_line"), "Price");

    let p = |i: f32, y: f32| WorldPoint { index: i, price: y };
    let mut m: DrawingsManager<u32, f32> = DrawingsManager::default();
    let fib_mask_off = KindStyle::Fib { ratios_mask: 1, show_labels: false };
    let id = m.commit("fib_retracement", vec![p(1.0, 2.0), p(3.0, 4.0)], 9, fib_mask_off);
    let mut modal: DrawingSettingsModal<u32, f32> = DrawingSettingsModal::new(0);
    assert_eq!(modal.begin_frame(&m.committed), None);
    modal.open_for(&m.committed[0]);
    assert_eq!(modal.drawing_id, Some(id));
    assert_eq!(modal.draft_style, 9);

    // An edit is written back and marks the drawings dirty.
    let k = modal.begin_frame(&m.committed).unwrap();
    modal.draft_points[0] = p(5.0, 6.0);
    let input = SettingsInput {
        tab_clicked: Some(DrawingSettingsTab::Position),
        edited: true,
        reset_clicked: false,
        close_clicked: false,
    };
    modal.end_frame(&mut m, k, input, 1);
    assert_eq!(modal.active_tab, DrawingSettingsTab::Position);
    assert_eq!(m.committed[0].points[0], p(5.0, 6.0));
    assert!(m.dirty);
    assert!(modal.open);

    // Reset restores the defaults and the drawing's points, then Done closes.
    let k = modal.begin_frame(&m.committed).unwrap();
    let input = SettingsInput { tab_clicked: None, edited: false, reset_clicked: true, close_clicked: true };
    modal.end_frame(&mut m, k, input, 1);
    assert_eq!(m.committed[0].style, 1);
    assert_eq!(m.committed[0].kind_style, KindStyle::default_fib());
    assert_eq!(modal.draft_points, vec![p(5.0, 6.0), p(3.0, 4.0)]);
    assert!(!modal.open);

    // A dialog whose drawing was deleted closes on the next frame.
    modal.open_for(&m.committed[0]);
    m.clear_all();
    assert_eq!(modal.begin_frame(&m.committed), None);
    assert!(!modal.open);
}

#[test]
fn floating_toolbar_clicks() {
    assert!(button_shown(true, ToolbarButton::Trash));
    assert!(!button_shown(true, ToolbarButton::Clone));
    assert_eq!(toolbar_click(false, ToolbarButton::Lock), (true, ToolbarEvent::Idle));
    assert_eq!(toolbar_click(true, ToolbarButton::Lock), (false, ToolbarEvent::Idle));
    assert_eq!(toolbar_click(true, ToolbarButton::Trash), (true, ToolbarEvent::Delete));
    assert_eq!(toolbar_click(true, ToolbarButton::Settings), (true, ToolbarEvent::Idle));
    assert_eq!(toolbar_click(false, ToolbarButton::Clone), (false, ToolbarEvent::Clone));
    assert_eq!(toolbar_click(false, ToolbarButton::Settings), (false, ToolbarEvent::OpenSettings));
}
