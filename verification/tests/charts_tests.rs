use zaned::api::candle_loader::lookback_window;
use zaned::api::logo::url_for;
use zaned::charts::input::{first_consumed_key, InputEvent};
use zaned::charts::dates::{bucket_key, date_prefix, normalize_tick_ts, parse_date_to_utc_midnight};
use zaned::charts::labels::{axis_label, crosshair_date_label, month_label, AxisLabel};
use zaned::charts::ticks::{route_tick, upsert_action, BarUpdate, TickEvent, UpsertAction, WireCandle};
use zaned::drawings::kind_style::KindStyle;
use zaned::charts::widget::{CandleData, ChartWidget, OlderLoad};

fn dates(v: &[&str]) -> Vec<String> {
    v.iter().map(|s| s.to_string()).collect()
}

#[test]
fn logo_url_templates_symbol() {
    assert_eq!(url_for("AAPL"), "https://assets.parqet.com/logos/symbol/AAPL");
}

#[test]
fn lookback_is_five_years_of_days() {
    assert_eq!(lookback_window(1_700_000_000), (1_700_000_000 - 1825 * 86_400, 1_700_000_000));
}

#[test]
fn date_prefix_and_midnight() {
    assert_eq!(date_prefix("2024-03-05T14:30:00Z"), "2024-03-05");
    assert_eq!(date_prefix("short"), "short");
    assert_eq!(parse_date_to_utc_midnight(Some("2024-03-05")), Some(1_709_596_800));
    assert_eq!(parse_date_to_utc_midnight(Some("1970-01-01 extra")), Some(0));
    assert_eq!(parse_date_to_utc_midnight(Some("2024-3-5")), None);
    assert_eq!(parse_date_to_utc_midnight(Some("2024-13-05")), None);
    assert_eq!(parse_date_to_utc_midnight(None), None);
}

#[test]
fn tick_timestamps_are_normalised_and_keyed() {
    assert_eq!(normalize_tick_ts(1_709_596_800_000), 1_709_596_800);
    assert_eq!(normalize_tick_ts(1_709_596_800), 1_709_596_800);
    assert_eq!(bucket_key(1_709_596_800_000, false), "2024-03-05");
    assert_eq!(bucket_key(1_709_596_860, true), "2024-03-05 00:01");
}

#[test]
fn ticks_are_routed_by_symbol_and_kind() {
    let candle = WireCandle { ts: 10, o: 100, h: 120, l: 90, c: 110, v: 5 };
    let full = BarUpdate {
        ts: 10,
        open: Some(100),
        high: Some(120),
        low: Some(90),
        close: Some(110),
        volume: Some(5),
    };
    let fin = TickEvent::Finalize { symbol: "AAPL".into(), candle };
    assert_eq!(route_tick(Some("AAPL"), &fin), Some(full));
    assert_eq!(route_tick(Some("MSFT"), &fin), None);
    assert_eq!(route_tick(None, &fin), None);
    let seed = TickEvent::Seed { symbol: "AAPL".into(), candle: None };
    assert_eq!(route_tick(Some("AAPL"), &seed), None);
    let today = TickEvent::Today { symbol: "AAPL".into() };
    assert_eq!(route_tick(Some("AAPL"), &today), None);
    let delta = TickEvent::Delta {
        symbol: "AAPL".into(),
        ts: 99_000_000_000_000,
        h: None,
        l: Some(80),
        c: 85,
        v: None,
    };
    assert_eq!(
        route_tick(Some("AAPL"), &delta),
        Some(BarUpdate {
            ts: 99_000_000_000_000,
            open: None,
            high: None,
            low: Some(80),
            close: Some(85),
            volume: None
        })
    );
}

#[test]
fn upsert_decisions() {
    assert_eq!(upsert_action(None, "2024-03-05"), UpsertAction::Append);
    assert_eq!(upsert_action(Some("2024-03-05"), "2024-03-05"), UpsertAction::MutateLast);
    assert_eq!(upsert_action(Some("2024-03-04"), "2024-03-05"), UpsertAction::Append);
    assert_eq!(upsert_action(Some("2024-03-06"), "2024-03-05"), UpsertAction::Ignore);
    assert_eq!(upsert_action(Some("2024-03-05"), "2024-03-05 00:01"), UpsertAction::Append);
}

#[test]
fn chart_widget_drawing_visibility_and_clear() {
    let mut w: ChartWidget<u32, u32, f32> = ChartWidget::new();
    assert!(!w.drawings_hidden());
    w.toggle_drawings_visibility();
    assert!(w.drawings_hidden());
    w.toggle_drawings_visibility();
    assert!(!w.drawings_hidden());
    assert!(!w.has_user_drawings());
    w.drawings.commit("ray", vec![], 0, KindStyle::Empty);
    assert!(w.has_user_drawings());
    assert_eq!(w.clear_all_drawings(), None);
    w.symbol = Some("AAPL".into());
    w.drawings.commit("ray", vec![], 0, KindStyle::Empty);
    assert_eq!(w.clear_all_drawings(), Some("AAPL".to_string()));
    assert!(!w.has_user_drawings());
    assert!(!w.drawings.dirty);
}

#[test]
fn dirty_drawings_are_saved_after_debounce() {
    let mut w: ChartWidget<u32, u32, f32> = ChartWidget::new();
    assert_eq!(w.flush_dirty_drawings(0), None);
    w.drawings.dirty = true;
    assert_eq!(w.flush_dirty_drawings(1_000), None);
    assert!(w.drawings.dirty);
    assert_eq!(w.drawings_dirty_since, None);
    w.symbol = Some("AAPL".into());
    assert_eq!(w.flush_dirty_drawings(1_000), None);
    assert_eq!(w.drawings_dirty_since, Some(1_000));
    assert_eq!(w.flush_dirty_drawings(1_499), None);
    assert_eq!(w.flush_dirty_drawings(1_500), Some("AAPL".to_string()));
    assert!(!w.drawings.dirty);
    assert_eq!(w.drawings_dirty_since, None);
}

#[test]
fn older_history_is_requested_and_prepended() {
    let mut w: ChartWidget<u32, u32, f32> = ChartWidget::new();
    assert_eq!(w.maybe_load_older_candles(true), None);
    w.symbol = Some("AAPL".into());
    w.raw_data = CandleData { instances: vec![3, 4], dates: dates(&["2024-03-04", "2024-03-05"]) };
    w.earliest_loaded_ts = parse_date_to_utc_midnight(Some("2024-03-04"));
    assert_eq!(w.maybe_load_older_candles(false), None);
    let req = w.maybe_load_older_candles(true);
    assert_eq!(req, Some(("AAPL".to_string(), 1_709_510_400)));
    assert_eq!(w.maybe_load_older_candles(true), None);
    let older = CandleData { instances: vec![1, 2], dates: dates(&["2024-03-01", "2024-03-02"]) };
    assert_eq!(w.older_candles_loaded(OlderLoad::Loaded(older)), 2);
    assert_eq!(w.raw_data.instances, vec![1, 2, 3, 4]);
    assert_eq!(w.raw_data.dates, dates(&["2024-03-01", "2024-03-02", "2024-03-04", "2024-03-05"]));
    assert_eq!(w.earliest_loaded_ts, Some(1_709_251_200));
    assert!(w.maybe_load_older_candles(true).is_some());
    let empty = CandleData { instances: vec![], dates: vec![] };
    assert_eq!(w.older_candles_loaded(OlderLoad::Loaded(empty)), 0);
    assert!(w.older_history_exhausted);
    assert_eq!(w.maybe_load_older_candles(true), None);
}

#[test]
fn failed_backfill_can_be_retried() {
    let mut w: ChartWidget<u32, u32, f32> = ChartWidget::new();
    w.symbol = Some("AAPL".into());
    w.earliest_loaded_ts = Some(0);
    assert!(w.maybe_load_older_candles(true).is_some());
    assert_eq!(w.older_candles_loaded(OlderLoad::Failed), 0);
    assert!(!w.older_history_exhausted);
    assert!(w.maybe_load_older_candles(true).is_some());
    assert_eq!(w.older_candles_loaded(OlderLoad::Closed), 0);
}

#[test]
fn upsert_bar_appends_only_newer_bars() {
    let mut w: ChartWidget<u32, u32, f32> = ChartWidget::new();
    assert_eq!(w.upsert_bar("2024-03-05".into(), 7), UpsertAction::Append);
    assert_eq!(w.upsert_bar("2024-03-05".into(), 8), UpsertAction::MutateLast);
    assert_eq!(w.upsert_bar("2024-03-04".into(), 9), UpsertAction::Ignore);
    assert_eq!(w.upsert_bar("2024-03-06".into(), 10), UpsertAction::Append);
    assert_eq!(w.raw_data.instances, vec![7, 10]);
    assert_eq!(w.raw_data.dates, dates(&["2024-03-05", "2024-03-06"]));
}

#[test]
fn axis_and_crosshair_labels() {
    assert_eq!(month_label("01"), "Jan");
    assert_eq!(month_label("12"), "Dec");
    assert_eq!(month_label("13"), "13");
    assert_eq!(crosshair_date_label("2024-03-05"), "03/05/2024");
    assert_eq!(crosshair_date_label("2024-03"), "2024-03");
    let mut year = String::new();
    let mut month = String::new();
    assert_eq!(
        axis_label("2023-12-29", &mut year, &mut month),
        Some(AxisLabel::Year("2023".into()))
    );
    assert_eq!(axis_label("2023-12-30", &mut year, &mut month), None);
    assert_eq!(
        axis_label("2024-01-02", &mut year, &mut month),
        Some(AxisLabel::Year("2024".into()))
    );
    assert_eq!(
        axis_label("2024-02-01", &mut year, &mut month),
        Some(AxisLabel::Month("Feb".into()))
    );
    assert_eq!((year.as_str(), month.as_str()), ("2024", "2024-02"));
    assert_eq!(axis_label("bad", &mut year, &mut month), None);
}

#[test]
fn first_pressed_key_wins() {
    let events = vec![
        InputEvent::Other,
        InputEvent::Key { key: 'a', pressed: false },
        InputEvent::Key { key: 'b', pressed: true },
        InputEvent::Key { key: 'c', pressed: true },
    ];
    assert_eq!(first_consumed_key(&events), Some('b'));
    let none: Vec<InputEvent<char>> = vec![InputEvent::Other, InputEvent::Key { key: 'a', pressed: false }];
    assert_eq!(first_consumed_key(&none), None);
    assert_eq!(first_consumed_key::<char>(&[]), None);
}

#[test]
fn labels_cut_fields_by_bytes() {
    assert_eq!(crosshair_date_label("2024-03-05 14:30"), "03/05/2024");
    assert_eq!(crosshair_date_label("2024-03-05é"), "03/05/2024");
    let mut year = String::new();
    let mut month = String::new();
    assert_eq!(
        axis_label("2024-07-01 09:30", &mut year, &mut month),
        Some(AxisLabel::Year("2024".to_string()))
    );
    assert_eq!(month, "2024-07");
}

#[test]
fn bucket_key_falls_back_to_now_for_unrepresentable_times() {
    let k = bucket_key(i64::MAX, false);
    assert_eq!(k.len(), 10);
    assert_eq!(k.as_bytes()[4], b'-');
    assert_eq!(bucket_key(i64::MAX, true).len(), 16);
}
