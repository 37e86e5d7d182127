use bmcbl_windows::map_viewer::canvas::{
    history_grid_cell_counts, history_grid_max_total, history_visual_kind_color, is_paint_resource_unavailable_message,
    map_tile_new_image_budget, selection_cursor_for_target, ExistingSelectionTarget, MapCursorStyle,
    MapHistoryChunkVisualKind, PaintErrorReport, PaintResourceMonitor, SelectionResizeHandle,
    StablePaintResourceMonitor, SUSTAINED_PAINT_RESOURCE_FAILURE_LIMIT,
};
use bmcbl_windows::map_viewer::tile_layer::{
    build_tile_paint_snapshot, overlay_label_text, patch_overlay, patch_tile, patch_tile_paint_snapshot,
    total_estimated_bytes, OverlayLabelRule, PaintTile, RegionManager, TileBounds, TileDebugOverlay, TileEntry,
    TileImage, TileLoadState, TileOverlayLabel, TilePaintSnapshot, TilePaintSnapshotPatch,
};

fn image(id: u64, bytes: usize) -> TileImage {
    TileImage { image_id: id, pixel_format: 1, width: 256, height: 256, estimated_bytes: bytes }
}

fn entry(x: i32, z: i32, state: TileLoadState, img: Option<TileImage>) -> TileEntry {
    TileEntry { coord: (x, z), state, image: img }
}

fn bounds() -> Option<TileBounds> {
    Some(TileBounds { min_x: -1, min_z: -1, max_x: 1, max_z: 1 })
}

fn coords(tiles: &[PaintTile]) -> Vec<(i32, i32)> {
    tiles.iter().map(|t| t.coord).collect()
}

fn overlay_coords(overlays: &[TileDebugOverlay]) -> Vec<((i32, i32), TileOverlayLabel)> {
    overlays.iter().map(|o| (o.coord, o.label)).collect()
}

fn manager() -> RegionManager {
    RegionManager {
        entries: vec![
            entry(1, 0, TileLoadState::Ready, Some(image(1, 100))),
            entry(0, 1, TileLoadState::Ready, Some(image(2, 200))),
            entry(-1, 0, TileLoadState::Failed, None),
            entry(0, 0, TileLoadState::Empty, None),
            entry(5, 5, TileLoadState::Ready, Some(image(3, 300))),
            entry(1, 1, TileLoadState::Invalid, None),
        ],
    }
}

#[test]
fn layer_holds_in_bounds_images_in_paint_order() {
    let snapshot = build_tile_paint_snapshot(&manager(), bounds(), false, OverlayLabelRule::Current, 7);
    assert_eq!(coords(&snapshot.tiles), vec![(1, 0), (0, 1)]);
    assert_eq!(snapshot.estimated_bytes, 300);
    assert_eq!(snapshot.generation, 7);
    assert!(snapshot.debug_overlays.is_empty());
    assert_eq!(snapshot.legacy_screen_images, 0);
}

#[test]
fn diagnostics_label_tiles_without_images() {
    let snapshot = build_tile_paint_snapshot(&manager(), bounds(), true, OverlayLabelRule::Current, 1);
    assert_eq!(
        overlay_coords(&snapshot.debug_overlays),
        vec![((-1, 0), TileOverlayLabel::Failed), ((0, 0), TileOverlayLabel::Empty), ((1, 1), TileOverlayLabel::Invalid)]
    );
    let stable = build_tile_paint_snapshot(&manager(), bounds(), true, OverlayLabelRule::Stable, 1);
    assert_eq!(
        overlay_coords(&stable.debug_overlays),
        vec![((-1, 0), TileOverlayLabel::Failed), ((1, 1), TileOverlayLabel::Empty)]
    );
    assert_eq!(overlay_label_text(TileOverlayLabel::Empty), "空");
    assert_eq!(overlay_label_text(TileOverlayLabel::Invalid), "无效");
    assert_eq!(overlay_label_text(TileOverlayLabel::Failed), "失败");
}

#[test]
fn no_bounds_paints_nothing() {
    let snapshot = build_tile_paint_snapshot(&manager(), None, true, OverlayLabelRule::Current, 1);
    assert!(snapshot.tiles.is_empty());
    assert!(snapshot.debug_overlays.is_empty());
}

#[test]
fn patching_a_tile_matches_a_rebuild() {
    let before = manager();
    let snapshot = build_tile_paint_snapshot(&before, bounds(), false, OverlayLabelRule::Current, 1);
    let mut after = manager();
    after.entries[2] = entry(-1, 0, TileLoadState::Ready, Some(image(9, 50)));
    after.entries[0] = entry(1, 0, TileLoadState::Failed, None);
    let changed = vec![(1, 0), (-1, 0), (1, 0)];
    let patched = match patch_tile_paint_snapshot(&snapshot, &after, bounds(), false, OverlayLabelRule::Current, &changed, 2) {
        TilePaintSnapshotPatch::Patched(s) => s,
        _ => panic!("expected a patched layer"),
    };
    let rebuilt = build_tile_paint_snapshot(&after, bounds(), false, OverlayLabelRule::Current, 2);
    assert_eq!(coords(&patched.tiles), coords(&rebuilt.tiles));
    assert_eq!(coords(&patched.tiles), vec![(-1, 0), (0, 1)]);
    assert_eq!(patched.estimated_bytes, 250);
    assert_eq!(patched.generation, 2);
}

#[test]
fn patch_without_change_is_unchanged_and_other_bounds_rebuild() {
    let m = manager();
    let snapshot = build_tile_paint_snapshot(&m, bounds(), false, OverlayLabelRule::Current, 1);
    assert!(matches!(
        patch_tile_paint_snapshot(&snapshot, &m, bounds(), false, OverlayLabelRule::Current, &vec![(1, 0)], 2),
        TilePaintSnapshotPatch::Unchanged
    ));
    assert!(matches!(
        patch_tile_paint_snapshot(&snapshot, &m, bounds(), false, OverlayLabelRule::Current, &vec![], 2),
        TilePaintSnapshotPatch::Unchanged
    ));
    let other = Some(TileBounds { min_x: 0, min_z: 0, max_x: 3, max_z: 3 });
    assert!(matches!(
        patch_tile_paint_snapshot(&snapshot, &m, other, false, OverlayLabelRule::Current, &vec![(1, 0)], 2),
        TilePaintSnapshotPatch::Rebuild
    ));
    let mut legacy = build_tile_paint_snapshot(&m, bounds(), false, OverlayLabelRule::Current, 1);
    legacy.legacy_screen_images = 1;
    assert!(matches!(
        patch_tile_paint_snapshot(&legacy, &m, bounds(), false, OverlayLabelRule::Current, &vec![(1, 0)], 2),
        TilePaintSnapshotPatch::Rebuild
    ));
}

#[test]
fn single_tile_patches() {
    let mut m = manager();
    let mut tiles: Vec<PaintTile> = Vec::new();
    assert!(patch_tile(&mut tiles, &m, bounds(), (0, 1)));
    assert!(!patch_tile(&mut tiles, &m, bounds(), (0, 1)));
    assert!(!patch_tile(&mut tiles, &m, bounds(), (5, 5)));
    m.entries[1] = entry(0, 1, TileLoadState::Ready, Some(image(22, 200)));
    assert!(patch_tile(&mut tiles, &m, bounds(), (0, 1)));
    assert_eq!(tiles[0].image_id, 22);
    m.entries[1] = entry(0, 1, TileLoadState::Failed, None);
    assert!(patch_tile(&mut tiles, &m, bounds(), (0, 1)));
    assert!(tiles.is_empty());
    let mut overlays = Vec::new();
    assert!(patch_overlay(&mut overlays, &m, bounds(), (0, 1), true, OverlayLabelRule::Current));
    assert_eq!(overlay_coords(&overlays), vec![((0, 1), TileOverlayLabel::Failed)]);
    assert!(!patch_overlay(&mut overlays, &m, bounds(), (0, 1), true, OverlayLabelRule::Current));
    assert!(patch_overlay(&mut overlays, &m, bounds(), (0, 1), false, OverlayLabelRule::Current));
    assert!(overlays.is_empty());
}

#[test]
fn byte_totals_wrap_like_usize_addition() {
    let tile = |x: i32, bytes: usize| PaintTile { coord: (x, 0), image_id: 0, pixel_format: 0, width: 0, height: 0, estimated_bytes: bytes };
    assert_eq!(total_estimated_bytes(&vec![tile(0, 5), tile(1, 7)]), 12);
    assert_eq!(total_estimated_bytes(&vec![tile(0, usize::MAX), tile(1, 2)]), 1);
    assert_eq!(total_estimated_bytes(&vec![]), 0);
    let empty = TilePaintSnapshot::default();
    assert!(empty.tiles.is_empty() && empty.paint_bounds.is_none());
}

#[test]
fn paint_resources_report_a_sustained_failure_once_per_limit() {
    let mut monitor = PaintResourceMonitor::new();
    let mut reports = 0;
    for frame in 0..(2 * SUSTAINED_PAINT_RESOURCE_FAILURE_LIMIT) {
        monitor.record_map_tile_paint_error("descriptor heap exhausted");
        let sustained = monitor.take_map_tile_paint_resources_unavailable();
        if sustained {
            reports += 1;
            assert_eq!((frame + 1) % SUSTAINED_PAINT_RESOURCE_FAILURE_LIMIT, 0);
        }
        assert!(!monitor.map_tile_paint_resources_unavailable());
    }
    assert_eq!(reports, 2);
}

#[test]
fn a_frame_without_failure_resets_the_streak() {
    let mut monitor = PaintResourceMonitor::new();
    for _ in 0..(SUSTAINED_PAINT_RESOURCE_FAILURE_LIMIT - 1) {
        monitor.record_map_tile_paint_error("graphics resource is unavailable");
        assert!(!monitor.take_map_tile_paint_resources_unavailable());
    }
    assert!(!monitor.take_map_tile_paint_resources_unavailable());
    assert_eq!(monitor.failure_streak, 0);
    monitor.record_map_tile_paint_error("resource is unavailable");
    assert!(!monitor.take_map_tile_paint_resources_unavailable());
}

#[test]
fn paint_error_reports() {
    let mut monitor = PaintResourceMonitor::new();
    assert_eq!(monitor.record_map_tile_paint_error("other failure"), PaintErrorReport::Other);
    assert!(!monitor.map_tile_paint_resources_unavailable());
    assert_eq!(monitor.record_map_tile_paint_error("descriptor heap full"), PaintErrorReport::ResourcesUnavailable);
    assert_eq!(monitor.record_map_tile_paint_error("descriptor heap full"), PaintErrorReport::ResourcesStillUnavailable);
    assert!(is_paint_resource_unavailable_message("x graphics resource is unavailable y"));
    assert!(!is_paint_resource_unavailable_message("Resource Is Unavailable"));
}

#[test]
fn stable_monitor_needs_sustained_reports_on_consecutive_frames() {
    let mut monitor = StablePaintResourceMonitor::new();
    let limit = SUSTAINED_PAINT_RESOURCE_FAILURE_LIMIT;
    let mut reports = 0;
    for _ in 0..(limit * limit) {
        monitor.inner.record_map_tile_paint_error("descriptor heap");
        if monitor.take_map_tile_paint_resources_unavailable() {
            reports += 1;
        }
    }
    assert_eq!(reports, 0);
    assert_eq!(monitor.failure_streak, 1);
}

#[test]
fn image_budgets() {
    assert_eq!(map_tile_new_image_budget(true), 16);
    assert_eq!(map_tile_new_image_budget(false), 8);
}

#[test]
fn selection_cursors() {
    assert_eq!(selection_cursor_for_target(ExistingSelectionTarget::Outside, true), MapCursorStyle::Arrow);
    assert_eq!(selection_cursor_for_target(ExistingSelectionTarget::Inside, true), MapCursorStyle::ClosedHand);
    assert_eq!(selection_cursor_for_target(ExistingSelectionTarget::Inside, false), MapCursorStyle::OpenHand);
    assert_eq!(
        selection_cursor_for_target(ExistingSelectionTarget::Resize(SelectionResizeHandle::South), false),
        MapCursorStyle::ResizeUpDown
    );
    assert_eq!(
        selection_cursor_for_target(ExistingSelectionTarget::Resize(SelectionResizeHandle::West), false),
        MapCursorStyle::ResizeLeftRight
    );
    assert_eq!(
        selection_cursor_for_target(ExistingSelectionTarget::Resize(SelectionResizeHandle::SouthEast), false),
        MapCursorStyle::ResizeUpLeftDownRight
    );
    assert_eq!(
        selection_cursor_for_target(ExistingSelectionTarget::Resize(SelectionResizeHandle::NorthEast), true),
        MapCursorStyle::ResizeUpRightDownLeft
    );
}

fn columns() -> Vec<(u32, u32, u32)> {
    (0..256u32).map(|i| (i % 3, if i == 255 { u32::MAX } else { 0 }, 1)).collect()
}

#[test]
fn history_grid_cells_sum_their_columns() {
    let cols = columns();
    assert_eq!(history_grid_cell_counts(&cols, 16, 0, 0), (0, 0, 1));
    assert_eq!(history_grid_cell_counts(&cols, 16, 2, 0), (2, 0, 1));
    let expected_added: u32 = (0..4u32).flat_map(|z| (0..4u32).map(move |x| (z * 16 + x) % 3)).sum();
    assert_eq!(history_grid_cell_counts(&cols, 4, 0, 0), (expected_added, 0, 16));
    assert_eq!(history_grid_cell_counts(&cols, 4, 3, 3).1, u32::MAX);
    assert_eq!(history_grid_cell_counts(&vec![(1, 1, 1)], 16, 1, 0), (0, 0, 0));
    assert_eq!(history_grid_cell_counts(&cols, 32, 5, 5), (0, 0, 0));
}

#[test]
fn history_grid_max_is_the_heaviest_cell() {
    let cols = columns();
    assert_eq!(history_grid_max_total(&cols, 4), u32::MAX);
    let light: Vec<(u32, u32, u32)> = (0..256u32).map(|i| if i == 17 { (2, 3, 4) } else { (0, 0, 0) }).collect();
    assert_eq!(history_grid_max_total(&light, 16), 9);
    assert_eq!(history_grid_max_total(&vec![(0, 0, 0); 256], 4), 0);
}

#[test]
fn history_colours() {
    assert_eq!(history_visual_kind_color(MapHistoryChunkVisualKind::Added), 0x3b82f6);
    assert_eq!(history_visual_kind_color(MapHistoryChunkVisualKind::Mixed), 0xf59e0b);
}

#[test]
fn patched_labels_differ_from_a_rebuild_only_for_tiles_with_images() {
    let mut m = RegionManager { entries: vec![entry(0, 0, TileLoadState::Ready, Some(image(1, 10)))] };
    let snapshot = build_tile_paint_snapshot(&m, bounds(), true, OverlayLabelRule::Current, 1);
    assert!(snapshot.debug_overlays.is_empty());
    m.entries[0] = entry(0, 0, TileLoadState::Failed, Some(image(1, 10)));
    let patched = match patch_tile_paint_snapshot(&snapshot, &m, bounds(), true, OverlayLabelRule::Current, &vec![(0, 0)], 2) {
        TilePaintSnapshotPatch::Patched(s) => s,
        _ => panic!("expected a patched layer"),
    };
    assert_eq!(overlay_coords(&patched.debug_overlays), vec![((0, 0), TileOverlayLabel::Failed)]);
    let rebuilt = build_tile_paint_snapshot(&m, bounds(), true, OverlayLabelRule::Current, 2);
    assert!(rebuilt.debug_overlays.is_empty());
    assert_eq!(coords(&patched.tiles), coords(&rebuilt.tiles));
}
