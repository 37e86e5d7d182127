use bmcbl_windows::debug_copy::{DebugCopy, Locale, VisualDebugCopy};
use bmcbl_windows::debug_console::{
    bool_label, detect_log_tone, log_badge_label, log_matches_filter, optional_text, select_console_lines,
    ConsoleFilter, LogLevelTone, DEBUG_CONSOLE_RENDER_LINE_LIMIT,
};
use bmcbl_windows::debug_state::{
    apply_log_tail_refresh, push_history, record_main_window_frame, record_main_window_render_finished,
    reset_runtime_metrics, DebugInspectorSnapshot, DebugState, DebugWindowMetrics, RuntimeMetricsState,
    WindowMetricsSnapshot, HISTORY_LIMIT, INSPECTOR_HISTORY_LIMIT,
};
use std::collections::VecDeque;

const MS: u64 = 1_000_000;

#[test]
fn first_frame_is_not_sampled() {
    let mut m = RuntimeMetricsState::new();
    assert_eq!(record_main_window_frame(&mut m, 5 * MS), None);
    assert_eq!(m.last_main_frame_at_ns, Some(5 * MS));
    assert!(m.frame_time_history_ns.is_empty());
}

#[test]
fn frame_interval_between_one_millisecond_and_one_second_is_sampled() {
    let mut m = RuntimeMetricsState::new();
    record_main_window_frame(&mut m, 0);
    assert_eq!(record_main_window_frame(&mut m, 16 * MS), Some(16 * MS));
    assert_eq!(m.main_frame_time_ns, 16 * MS);
    assert_eq!(m.frame_time_history_ns, VecDeque::from(vec![16 * MS]));
}

#[test]
fn frame_interval_bounds_are_inclusive() {
    let mut m = RuntimeMetricsState::new();
    record_main_window_frame(&mut m, 0);
    assert_eq!(record_main_window_frame(&mut m, MS), Some(MS));
    assert_eq!(record_main_window_frame(&mut m, MS + 1_000 * MS), Some(1_000 * MS));
}

#[test]
fn too_short_or_too_long_intervals_are_skipped() {
    let mut m = RuntimeMetricsState::new();
    record_main_window_frame(&mut m, 0);
    assert_eq!(record_main_window_frame(&mut m, MS - 1), None);
    assert_eq!(record_main_window_frame(&mut m, MS - 1 + 1_000 * MS + 1), None);
    assert_eq!(m.main_frame_time_ns, 0);
    assert!(m.frame_time_history_ns.is_empty());
    assert_eq!(m.last_main_frame_at_ns, Some(MS - 1 + 1_000 * MS + 1));
}

#[test]
fn clock_going_back_counts_as_zero_interval() {
    let mut m = RuntimeMetricsState::new();
    record_main_window_frame(&mut m, 10 * MS);
    assert_eq!(record_main_window_frame(&mut m, 5 * MS), None);
}

#[test]
fn render_time_is_recorded_and_history_is_bounded() {
    let mut m = RuntimeMetricsState::new();
    for i in 0..(HISTORY_LIMIT as u64 + 20) {
        record_main_window_render_finished(&mut m, i);
    }
    assert_eq!(m.main_render_time_ns, HISTORY_LIMIT as u64 + 19);
    assert_eq!(m.render_time_history_ns.len(), HISTORY_LIMIT);
    assert_eq!(m.render_time_history_ns.front(), Some(&20));
    assert_eq!(m.render_time_history_ns.back(), Some(&(HISTORY_LIMIT as u64 + 19)));
    assert!(m.frame_time_history_ns.is_empty());
}

#[test]
fn history_push_keeps_newest_in_order() {
    let mut h: VecDeque<u64> = (0..HISTORY_LIMIT as u64).collect();
    push_history(&mut h, 999);
    assert_eq!(h.len(), HISTORY_LIMIT);
    assert_eq!(h.front(), Some(&1));
    assert_eq!(h.back(), Some(&999));
    let mut small: VecDeque<u64> = VecDeque::new();
    push_history(&mut small, 7);
    assert_eq!(small, VecDeque::from(vec![7]));
}

#[test]
fn reset_forgets_every_sample() {
    let mut m = RuntimeMetricsState::new();
    record_main_window_frame(&mut m, 0);
    record_main_window_frame(&mut m, 20 * MS);
    record_main_window_render_finished(&mut m, 3 * MS);
    reset_runtime_metrics(&mut m);
    assert_eq!(m.last_main_frame_at_ns, None);
    assert_eq!(m.main_frame_time_ns, 0);
    assert_eq!(m.main_render_time_ns, 0);
    assert!(m.frame_time_history_ns.is_empty());
    assert!(m.render_time_history_ns.is_empty());
}

#[test]
fn window_metrics_convert_field_by_field() {
    let snapshot = WindowMetricsSnapshot {
        window_id: 7,
        request_redraw_count: 1,
        draw_count: 2,
        present_count: 3,
        skip_count: 4,
        skipped_frame_count: 5,
        gpu_surface_reconfigure_count: 6,
        gpu_surface_error_count: 8,
        layout_recompute_count: 9,
        upload_bytes: 10,
    };
    let m = DebugWindowMetrics::from(snapshot);
    assert_eq!(m.window_id, 7);
    assert_eq!(m.request_redraw_count, 1);
    assert_eq!(m.draw_count, 2);
    assert_eq!(m.present_count, 3);
    assert_eq!(m.skip_count, 4);
    assert_eq!(m.skipped_frame_count, 5);
    assert_eq!(m.surface_reconfigure_count, 6);
    assert_eq!(m.present_error_count, 8);
    assert_eq!(m.layout_recompute_count, 9);
    assert_eq!(m.upload_bytes, 10);
}

fn selection(label: &str, source: &str) -> DebugInspectorSnapshot {
    let mut s = DebugInspectorSnapshot::empty();
    s.selected_label = label.to_string();
    s.source_location = source.to_string();
    s
}

#[test]
fn inspector_history_records_new_selections_at_the_front() {
    let mut state = DebugState::default();
    state.sync_inspector(selection("a", "a.rs:1"));
    state.sync_inspector(selection("b", "b.rs:2"));
    assert_eq!(state.inspector_history.len(), 2);
    assert_eq!(state.inspector_history[0].selected_label, "b");
    assert_eq!(state.inspector_history[1].selected_label, "a");
    assert_eq!(state.inspector.selected_label, "b");
}

#[test]
fn inspector_history_skips_repeats_and_empty_selections() {
    let mut state = DebugState::default();
    state.sync_inspector(selection("a", "a.rs:1"));
    state.sync_inspector(selection("a", "a.rs:1"));
    state.sync_inspector(selection("", "x.rs:1"));
    assert_eq!(state.inspector_history.len(), 1);
    assert_eq!(state.inspector.source_location, "x.rs:1");
}

#[test]
fn inspector_history_is_bounded() {
    let mut state = DebugState::default();
    for i in 0..(INSPECTOR_HISTORY_LIMIT + 5) {
        state.sync_inspector(selection(&format!("n{i}"), "s"));
    }
    assert_eq!(state.inspector_history.len(), INSPECTOR_HISTORY_LIMIT);
    assert_eq!(state.inspector_history[0].selected_label, format!("n{}", INSPECTOR_HISTORY_LIMIT + 4));
}

#[test]
fn reset_runtime_state_clears_selection_and_history() {
    let mut state = DebugState::default();
    state.enabled = true;
    state.sync_inspector(selection("a", "a.rs:1"));
    let mut m = RuntimeMetricsState::new();
    record_main_window_render_finished(&mut m, 5);
    state.reset_runtime_state(&mut m);
    assert!(state.enabled);
    assert!(state.inspector_history.is_empty());
    assert!(state.inspector.selected_label.is_empty());
    assert!(m.render_time_history_ns.is_empty());
}

#[test]
fn clear_inspector_history_keeps_selection() {
    let mut state = DebugState::default();
    state.sync_inspector(selection("a", "a.rs:1"));
    state.clear_inspector_history();
    assert!(state.inspector_history.is_empty());
    assert_eq!(state.inspector.selected_label, "a");
}

#[test]
fn log_tail_refresh_replaces_text_and_stamps_time() {
    let mut text = String::from("old");
    let mut updated = None;
    let mut error = Some(String::from("boom"));
    let changed = apply_log_tail_refresh(&mut text, &mut updated, &mut error, Ok("new".into()), 42, "latest.log");
    assert!(changed);
    assert_eq!(text, "new");
    assert_eq!(updated, Some(42));
    assert_eq!(error, None);
    let changed = apply_log_tail_refresh(&mut text, &mut updated, &mut error, Ok("new".into()), 50, "latest.log");
    assert!(!changed);
    assert_eq!(updated, Some(42));
}

#[test]
fn log_tail_refresh_reports_a_read_error_once() {
    let mut text = String::from("kept");
    let mut updated = Some(1);
    let mut error = None;
    let changed = apply_log_tail_refresh(&mut text, &mut updated, &mut error, Err("denied".into()), 9, "latest.log");
    assert!(changed);
    assert_eq!(error.as_deref(), Some("latest.log: denied"));
    assert_eq!(text, "kept");
    let changed = apply_log_tail_refresh(&mut text, &mut updated, &mut error, Err("denied".into()), 10, "latest.log");
    assert!(!changed);
    assert_eq!(updated, Some(1));
}

#[test]
fn log_tones_follow_level_words() {
    assert_eq!(detect_log_tone("2024 ERROR failed"), LogLevelTone::Error);
    assert_eq!(detect_log_tone("warn: careful"), LogLevelTone::Warn);
    assert_eq!(detect_log_tone("x  info  y"), LogLevelTone::Info);
    assert_eq!(detect_log_tone("DEBUG start"), LogLevelTone::Debug);
    assert_eq!(detect_log_tone("a trace b"), LogLevelTone::Trace);
    assert_eq!(detect_log_tone("plain text"), LogLevelTone::Plain);
    assert_eq!(detect_log_tone("errors happen"), LogLevelTone::Error);
    assert_eq!(detect_log_tone("no level here"), LogLevelTone::Plain);
    assert_eq!(detect_log_tone("x WARN y ERROR z"), LogLevelTone::Error);
}

#[test]
fn log_badges_and_filters() {
    assert_eq!(log_badge_label(LogLevelTone::Error), "ERROR");
    assert_eq!(log_badge_label(LogLevelTone::Plain), "LOG");
    assert!(log_matches_filter(LogLevelTone::Plain, ConsoleFilter::All));
    assert!(log_matches_filter(LogLevelTone::Warn, ConsoleFilter::Warn));
    assert!(!log_matches_filter(LogLevelTone::Info, ConsoleFilter::Warn));
}

#[test]
fn console_shows_newest_matching_lines() {
    let lines: Vec<String> = (0..200)
        .map(|i| if i % 2 == 0 { format!("{i} ERROR x") } else { format!("{i} INFO y") })
        .collect();
    let shown = select_console_lines(&lines, ConsoleFilter::Error);
    assert_eq!(shown.len(), DEBUG_CONSOLE_RENDER_LINE_LIMIT);
    assert_eq!(*shown.last().unwrap(), 198);
    assert_eq!(shown[0], 198 - 2 * (DEBUG_CONSOLE_RENDER_LINE_LIMIT - 1));
    let few = vec!["a".to_string(), "b INFO c".to_string()];
    assert_eq!(select_console_lines(&few, ConsoleFilter::All), vec![0, 1]);
    assert_eq!(select_console_lines(&few, ConsoleFilter::Info), vec![1]);
}

#[test]
fn small_labels() {
    assert_eq!(bool_label(true), "yes");
    assert_eq!(bool_label(false), "no");
    assert_eq!(optional_text("", "none"), "none");
    assert_eq!(optional_text("gpu", "none"), "gpu");
}

#[test]
fn debug_copy_follows_locale() {
    assert_eq!(DebugCopy::from_locale(Locale::ZhCn).devtools, "开发工具");
    assert_eq!(DebugCopy::from_locale(Locale::ZhTw).logs, "控制台");
    assert_eq!(DebugCopy::from_locale(Locale::EnUs).devtools, "DevTools");
    assert_eq!(DebugCopy::from_locale(Locale::EnUs).latest_log, "latest.log");
    assert_eq!(VisualDebugCopy::from_locale(Locale::ZhTw).title, "GUI 可视化");
    assert_eq!(VisualDebugCopy::from_locale(Locale::EnUs).title, "GUI Visualization");
}
