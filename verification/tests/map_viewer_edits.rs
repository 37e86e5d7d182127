use bmcbl_windows::map_viewer::chunk_tree::{chunks_of_tile, ChunkTreeState};
use bmcbl_windows::map_viewer::edit_invalidation::{
    apply_map_edit_invalidation, apply_map_edit_invalidation_with_options, MapEditInvalidation, ProfessionalPanelState,
};
use bmcbl_windows::map_viewer::editor::{
    copy_chunks_refusal, edit_action_label, edit_action_refusal, edit_action_verb, edit_history_spec, paste_preview_for_action, quick_write_history_spec,
    quick_write_task_stage, supports_editor_delete, supports_editor_save, EditAction, EditDecision, EditSession,
    EditTarget, MapHistoryEntryKind, PlayerId, QuickWriteAction, QuickWriteDecision, QuickWriteSession,
};
use bmcbl_windows::map_viewer::invalidation::{
    chunk_center_block, invalidate_tiles_for_chunks_with_options, manifest_probe_edit_summary, remove_coord,
    should_refresh_chunk_tree, TileBookkeeping, TileInvalidation,
};
use bmcbl_windows::map_viewer::model::{ChunkPos, Dimension, PasteRotation, PasteTransform};
use bmcbl_windows::map_viewer::paste::{
    mcstructure_rotation_for_paste, pasted_block_entity_for_target, BlockEntityPlacement, pasted_chunk_target, pasted_chunk_targets,
    pasted_hardcoded_spawn_area_for_target, transform_chunk_block_position, HardcodedSpawnAreaKind,
    ParsedHardcodedSpawnArea,
};
use bmcbl_windows::map_viewer::model::McStructureRotation;
use bmcbl_windows::map_viewer::records::{
    chunk_record_tag_is_clear_target, chunk_record_tag_is_copy_safe, chunk_version_for_empty_heightmap,
    copied_chunk_is_air_block_state_name, copied_chunk_structure_subchunk_coords, copy_safe_chunk_records,
    default_heightmap, heightmap_min_max, heightmap_rows, legacy_terrain_height, ChunkRecord, ChunkRecordTag,
    ChunkVersion,
};
use bmcbl_windows::map_viewer::tiles::{
    chunks_per_tile, insert_chunk, merge_chunks_into_tile_index, tile_coords_for_chunks, TileChunkIndex,
};

fn ow(x: i32, z: i32) -> ChunkPos {
    ChunkPos { x, z, dimension: Dimension::Overworld }
}

fn plain() -> PasteTransform {
    PasteTransform { rotation: PasteRotation::NoRotation, mirror_x: false, mirror_z: false }
}

fn rotated(rotation: PasteRotation) -> PasteTransform {
    PasteTransform { rotation, mirror_x: false, mirror_z: false }
}

#[test]
fn default_paste_translates_chunks() {
    assert_eq!(pasted_chunk_target(ow(3, 4), ow(1, 1), ow(10, 20), plain()), ow(12, 23));
    let nether = ChunkPos { x: 0, z: 0, dimension: Dimension::Nether };
    assert_eq!(pasted_chunk_target(ow(1, 1), ow(1, 1), nether, plain()), nether);
}

#[test]
fn rotated_and_mirrored_pastes() {
    assert_eq!(pasted_chunk_target(ow(3, 4), ow(1, 1), ow(10, 20), rotated(PasteRotation::Clockwise90)), ow(7, 22));
    assert_eq!(pasted_chunk_target(ow(3, 4), ow(1, 1), ow(10, 20), rotated(PasteRotation::Rotate180)), ow(8, 17));
    assert_eq!(
        pasted_chunk_target(ow(3, 4), ow(1, 1), ow(10, 20), rotated(PasteRotation::CounterClockwise90)),
        ow(13, 18)
    );
    let mirrored = PasteTransform { rotation: PasteRotation::NoRotation, mirror_x: true, mirror_z: false };
    assert_eq!(pasted_chunk_target(ow(3, 4), ow(1, 1), ow(10, 20), mirrored), ow(8, 23));
    let targets = pasted_chunk_targets(&vec![ow(1, 1), ow(2, 1)], ow(1, 1), ow(0, 0), plain());
    assert_eq!(targets, vec![ow(0, 0), ow(1, 0)]);
}

#[test]
fn block_positions_follow_their_chunk() {
    assert_eq!(transform_chunk_block_position([5, 64, 7], ow(0, 0), ow(10, 10), plain()), [165, 64, 167]);
    assert_eq!(
        transform_chunk_block_position([21, 64, 7], ow(0, 0), ow(10, 10), rotated(PasteRotation::Clockwise90)),
        [165, 64, 183]
    );
    assert_eq!(transform_chunk_block_position([-1, 3, -1], ow(-1, -1), ow(0, 0), plain()), [15, 3, 15]);
}

#[test]
fn spawn_areas_move_as_boxes() {
    let area = ParsedHardcodedSpawnArea { kind: HardcodedSpawnAreaKind::SwampHut, min: [0, 0, 0], max: [15, 10, 15] };
    let moved = pasted_hardcoded_spawn_area_for_target(area, ow(0, 0), ow(1, 1), plain());
    assert_eq!(moved.kind, HardcodedSpawnAreaKind::SwampHut);
    assert_eq!(moved.min, [16, 0, 16]);
    assert_eq!(moved.max, [31, 10, 31]);
    let turned = pasted_hardcoded_spawn_area_for_target(area, ow(0, 0), ow(0, 0), rotated(PasteRotation::Rotate180));
    for axis in 0..3 {
        assert!(turned.min[axis] <= turned.max[axis]);
    }
}

#[test]
fn block_entities_shift_by_whole_chunks() {
    let entity = BlockEntityPlacement { position: Some([5, 64, -3]), nbt_is_compound: true, nbt_x: Some(5), nbt_y: Some(64), nbt_z: None };
    let pasted = pasted_block_entity_for_target(&entity, ow(0, 0), ow(2, -1));
    assert_eq!(pasted.position, Some([37, 64, -19]));
    assert_eq!((pasted.nbt_x, pasted.nbt_y, pasted.nbt_z), (Some(37), Some(64), Some(-19)));
    let back = pasted_block_entity_for_target(&pasted, ow(2, -1), ow(0, 0));
    assert_eq!(back.position, entity.position);
    let list_nbt = BlockEntityPlacement { position: Some([1, 2, 3]), nbt_is_compound: false, nbt_x: None, nbt_y: None, nbt_z: None };
    let pasted = pasted_block_entity_for_target(&list_nbt, ow(0, 0), ow(2, -1));
    assert_eq!(pasted.position, Some([33, 2, -13]));
    assert_eq!((pasted.nbt_x, pasted.nbt_y, pasted.nbt_z), (None, None, None));
    let unplaced = BlockEntityPlacement { position: None, nbt_is_compound: true, nbt_x: Some(9), nbt_y: None, nbt_z: None };
    let pasted = pasted_block_entity_for_target(&unplaced, ow(0, 0), ow(2, -1));
    assert_eq!((pasted.position, pasted.nbt_x), (None, Some(9)));
}

#[test]
fn structure_rotation_names() {
    assert_eq!(mcstructure_rotation_for_paste(PasteRotation::NoRotation), McStructureRotation::Identity);
    assert_eq!(mcstructure_rotation_for_paste(PasteRotation::CounterClockwise90), McStructureRotation::CounterClockwise90);
}

#[test]
fn tiles_of_chunks_are_sorted_and_unique() {
    let chunks = vec![ow(0, 0), ow(31, 5), ow(32, 0), ow(-1, -1), ow(0, 1)];
    assert_eq!(tile_coords_for_chunks(&chunks, 32, 16), vec![(-1, -1), (0, 0), (1, 0)]);
    assert_eq!(tile_coords_for_chunks(&chunks, u32::MAX, 16), vec![(-1, -1), (0, 0), (1, 0), (2, 0)]);
    assert_eq!(chunks_per_tile(u32::MAX, 0), 1);
    assert_eq!(chunks_per_tile(0, 8), 1);
    assert_eq!(chunks_per_tile(8, 0), 8);
}

#[test]
fn chunk_sets_stay_sorted() {
    let mut set = Vec::new();
    for c in [ow(2, 0), ow(1, 5), ow(2, 0), ow(1, -5)] {
        insert_chunk(&mut set, c);
    }
    assert_eq!(set, vec![ow(1, -5), ow(1, 5), ow(2, 0)]);
}

#[test]
fn tile_index_gains_the_chunks_of_its_tile() {
    let mut index = TileChunkIndex::new();
    merge_chunks_into_tile_index(&mut index, (0, 0), &vec![ow(3, 3), ow(40, 0), ow(1, 1)], 32, 32);
    assert_eq!(index.entries.len(), 1);
    assert_eq!(index.entries[0].coord, (0, 0));
    assert_eq!(index.entries[0].positions, vec![ow(1, 1), ow(3, 3)]);
    merge_chunks_into_tile_index(&mut index, (5, 5), &vec![ow(3, 3)], 32, 32);
    assert_eq!(index.entries.len(), 1);
    merge_chunks_into_tile_index(&mut index, (0, 0), &vec![ow(2, 2), ow(3, 3)], 32, 32);
    assert_eq!(index.entries[0].positions, vec![ow(1, 1), ow(2, 2), ow(3, 3)]);
}

fn book() -> TileBookkeeping {
    TileBookkeeping {
        available_tiles: vec![(-1, 0), (0, 0), (1, 0)],
        manifest_scanned_tiles: vec![(0, 0), (1, 0)],
        tile_chunk_index: TileChunkIndex::new(),
    }
}

#[test]
fn invalidation_drops_images_of_affected_tiles() {
    let mut b = book();
    let r = invalidate_tiles_for_chunks_with_options(&mut b, &vec![ow(1, 1), ow(40, 3)], false, 32, 32);
    match r {
        TileInvalidation::Tiles { affected, drop_images } => {
            assert_eq!(affected, vec![(0, 0), (1, 0)]);
            assert!(drop_images);
        },
        _ => panic!("expected tiles"),
    }
    assert_eq!(b.available_tiles, vec![(-1, 0)]);
    assert!(b.manifest_scanned_tiles.is_empty());
    assert!(b.tile_chunk_index.entries.is_empty());
}

#[test]
fn invalidation_reusing_the_index_keeps_the_scan() {
    let mut b = book();
    let r = invalidate_tiles_for_chunks_with_options(&mut b, &vec![ow(1, 1)], true, 32, 32);
    assert!(matches!(r, TileInvalidation::Tiles { drop_images: false, .. }));
    assert_eq!(b.available_tiles, vec![(-1, 0), (1, 0)]);
    assert_eq!(b.manifest_scanned_tiles, vec![(0, 0), (1, 0)]);
    assert_eq!(b.tile_chunk_index.entries.len(), 1);
    assert_eq!(b.tile_chunk_index.entries[0].positions, vec![ow(1, 1)]);
}

#[test]
fn invalidation_without_chunks_changes_nothing() {
    let mut b = book();
    let r = invalidate_tiles_for_chunks_with_options(&mut b, &vec![], false, 32, 32);
    assert!(matches!(r, TileInvalidation::Nothing));
    assert_eq!(b.available_tiles, vec![(-1, 0), (0, 0), (1, 0)]);
}

#[test]
fn removing_tiles_from_sorted_sets() {
    let mut set = vec![(-1, 0), (0, 0), (1, 0)];
    remove_coord(&mut set, (0, 0));
    assert_eq!(set, vec![(-1, 0), (1, 0)]);
    remove_coord(&mut set, (7, 7));
    assert_eq!(set, vec![(-1, 0), (1, 0)]);
}

#[test]
fn chunk_tree_refresh_rule() {
    assert!(!should_refresh_chunk_tree(None, &vec![(0, 0)]));
    assert!(should_refresh_chunk_tree(Some((0, 0)), &vec![(1, 1), (0, 0)]));
    assert!(!should_refresh_chunk_tree(Some((0, 0)), &vec![(1, 1)]));
    assert!(should_refresh_chunk_tree(Some((0, 0)), &vec![]));
}

#[test]
fn slime_window_centre_and_probe_summary() {
    assert_eq!(chunk_center_block(2, -1), (40, -8));
    assert_eq!(
        manifest_probe_edit_summary(3, 2, true, false, true),
        "chunks=3 tiles=2 cache=true metadata=false overlays=true"
    );
}

#[test]
fn chunk_record_kinds() {
    assert!(chunk_record_tag_is_copy_safe(ChunkRecordTag::SubChunkPrefix));
    assert!(!chunk_record_tag_is_copy_safe(ChunkRecordTag::Entity));
    assert!(!chunk_record_tag_is_copy_safe(ChunkRecordTag::Unknown(200)));
    assert!(chunk_record_tag_is_clear_target(ChunkRecordTag::Entity));
    assert!(!chunk_record_tag_is_clear_target(ChunkRecordTag::Version));
    let records = vec![
        ChunkRecord { tag: ChunkRecordTag::Version, value: vec![40] },
        ChunkRecord { tag: ChunkRecordTag::BlockEntity, value: vec![1, 2] },
        ChunkRecord { tag: ChunkRecordTag::Data3D, value: vec![3] },
    ];
    let kept = copy_safe_chunk_records(records);
    assert_eq!(kept.len(), 2);
    assert_eq!(kept[0].value, vec![40]);
    assert_eq!(kept[1].tag, ChunkRecordTag::Data3D);
}

#[test]
fn empty_chunk_layout_and_air_names() {
    let nether = ChunkPos { x: 0, z: 0, dimension: Dimension::Nether };
    assert_eq!(chunk_version_for_empty_heightmap(nether), ChunkVersion::Old);
    assert_eq!(chunk_version_for_empty_heightmap(ow(0, 0)), ChunkVersion::New);
    assert!(copied_chunk_is_air_block_state_name("minecraft:air"));
    assert!(copied_chunk_is_air_block_state_name("cave_air"));
    assert!(!copied_chunk_is_air_block_state_name("minecraft:stone"));
}

#[test]
fn subchunk_coordinates() {
    assert_eq!(copied_chunk_structure_subchunk_coords(-1), Ok((-1, 15)));
    assert_eq!(copied_chunk_structure_subchunk_coords(70), Ok((4, 6)));
    assert_eq!(
        copied_chunk_structure_subchunk_coords(2100),
        Err("chunk copy source y=2100 cannot be represented as a subchunk index".to_string())
    );
    assert_eq!(legacy_terrain_height(127), Some(127));
    assert_eq!(legacy_terrain_height(128), None);
    assert_eq!(legacy_terrain_height(-1), None);
}

#[test]
fn heightmap_rows_show_extremes() {
    let h = default_heightmap();
    assert_eq!(h.len(), 256);
    assert!(h.iter().all(|v| *v == 0));
    assert_eq!(heightmap_min_max(&vec![5, -3, 9]), (-3, 9));
    assert_eq!(heightmap_min_max(&vec![]), (0, 0));
    let rows = heightmap_rows(&vec![5, -3, 9]);
    assert_eq!(rows.len(), 3);
    assert_eq!((rows[0].label.as_str(), rows[0].value.as_str(), rows[0].editable), ("columns", "3", false));
    assert_eq!((rows[1].label.as_str(), rows[1].value.as_str(), rows[1].editable), ("min", "-3", true));
    assert_eq!((rows[2].label.as_str(), rows[2].value.as_str(), rows[2].editable), ("max", "9", true));
}

#[test]
fn record_editor_buttons() {
    assert!(supports_editor_save(&EditTarget::HeightMap(ow(0, 0))));
    assert!(!supports_editor_save(&EditTarget::Actors(ow(0, 0))));
    assert!(supports_editor_delete(&EditTarget::Actors(ow(0, 0))));
    assert!(!supports_editor_delete(&EditTarget::HeightMap(ow(0, 0))));
    assert_eq!(edit_action_label(EditAction::Delete), "delete");
    assert_eq!(edit_action_verb(EditAction::Save), "保存");
}

#[test]
fn edits_run_on_the_second_click() {
    let mut s = EditSession { write_mode: true, pending: None, status: String::new() };
    assert!(matches!(s.confirm_or_run_edit(EditTarget::HsaChunk(ow(1, 1)), EditAction::Save, "HSA 1,1"), EditDecision::AwaitingConfirmation));
    assert_eq!(s.status, "再次点击以确认 保存 HSA 1,1");
    assert!(matches!(
        s.confirm_or_run_edit(EditTarget::HsaChunk(ow(1, 1)), EditAction::Save, "HSA 1,1"),
        EditDecision::Run(EditTarget::HsaChunk(_), EditAction::Save)
    ));
    assert!(s.pending.is_none());
    assert_eq!(s.status, "正在保存 HSA 1,1...");
}

#[test]
fn a_different_click_rearms() {
    let mut s = EditSession { write_mode: true, pending: None, status: String::new() };
    s.confirm_or_run_edit(EditTarget::HsaChunk(ow(1, 1)), EditAction::Save, "HSA");
    assert!(matches!(s.confirm_or_run_edit(EditTarget::HsaChunk(ow(1, 1)), EditAction::Delete, "HSA"), EditDecision::AwaitingConfirmation));
    assert!(matches!(s.pending.as_ref().map(|p| p.action), Some(EditAction::Delete)));
}

#[test]
fn edits_need_write_mode_and_a_record() {
    let mut s = EditSession { write_mode: false, pending: None, status: String::new() };
    assert!(matches!(s.request_editor_save(Some(EditTarget::HsaChunk(ow(0, 0))), "HSA"), EditDecision::WriteModeRequired));
    assert!(s.pending.is_none());
    assert_eq!(s.status, "编辑世界记录需要先开启写入模式");
    assert!(matches!(s.request_editor_delete(None, "HSA"), EditDecision::NoRecord));
    assert_eq!(s.status, "没有可删除的编辑记录");
    assert!(matches!(s.request_editor_save(None, "HSA"), EditDecision::NoRecord));
    assert_eq!(s.status, "没有可保存的编辑记录");
}

#[test]
fn quick_writes_and_pastes() {
    let mut s = QuickWriteSession {
        write_mode: false,
        pending: None,
        paste_preview: None,
        context_menu_open: true,
        status: String::new(),
    };
    let delete = QuickWriteAction::DeleteCurrentChunk(ow(0, 0));
    assert!(matches!(s.run_quick_write_action(delete, "删除区块", None), QuickWriteDecision::WriteModeRequired));
    assert_eq!(s.status, "快捷写入需要先开启写入模式");
    let paste = QuickWriteAction::PasteCopiedChunks { source_anchor: ow(0, 0), target_anchor: ow(5, 5), chunk_count: 2, transform: plain() };
    let copied = vec![ow(0, 0), ow(1, 0)];
    assert!(matches!(s.run_quick_write_action(paste, "粘贴区块", Some(&copied)), QuickWriteDecision::Armed));
    assert_eq!(s.paste_preview.as_ref().map(|p| p.targets.clone()), Some(vec![ow(5, 5), ow(6, 5)]));
    assert_eq!(s.status, "再次点击以确认 粘贴区块 · 写入后会刷新对应瓦片");
    assert!(s.context_menu_open);
    assert!(matches!(s.run_quick_write_action(paste, "粘贴区块", Some(&copied)), QuickWriteDecision::Run(_)));
    assert!(s.pending.is_none());
    assert!(s.paste_preview.is_none());
    assert!(!s.context_menu_open);
    assert_eq!(s.status, "正在粘贴区块...");
    assert_eq!(quick_write_task_stage(&paste), "map_paste");
    assert_eq!(quick_write_task_stage(&delete), "map_delete");
    assert_eq!(quick_write_task_stage(&QuickWriteAction::ResetCurrentChunk(ow(0, 0))), "map_write");
    assert!(paste_preview_for_action(&delete, Some(&copied)).is_none());
    assert!(paste_preview_for_action(&paste, None).is_none());
}

#[test]
fn history_scopes() {
    let delete = QuickWriteAction::DeleteCurrentChunk(ow(3, 3));
    let scope = quick_write_history_spec(&delete, "删除区块", None, None).unwrap();
    assert_eq!(scope.kind, MapHistoryEntryKind::ChunkDelete);
    assert_eq!(scope.chunks, vec![ow(3, 3)]);
    assert_eq!(scope.label, "删除区块");
    assert!(!scope.include_level_dat);
    let paste = QuickWriteAction::PasteCopiedChunks { source_anchor: ow(0, 0), target_anchor: ow(0, 0), chunk_count: 3, transform: plain() };
    assert_eq!(quick_write_history_spec(&paste, "粘贴", None, None).err(), Some("没有可粘贴的区块副本".to_string()));
    let scope = quick_write_history_spec(&paste, "粘贴", Some(&vec![ow(2, 0), ow(1, 0), ow(2, 0)]), None).unwrap();
    assert_eq!(scope.chunks, vec![ow(1, 0), ow(2, 0)]);
    let structure = QuickWriteAction::PasteImportedStructure { source_anchor: ow(0, 0), target_anchor: ow(0, 0), chunk_count: 1, transform: plain() };
    assert_eq!(quick_write_history_spec(&structure, "结构", None, None).err(), Some("没有可粘贴的结构文件".to_string()));
    let keyless = EditTarget::Player(PlayerId { name: "~local_player".to_string(), storage_key: None });
    assert_eq!(edit_history_spec(&keyless, EditAction::Save, "玩家").err(), Some("玩家记录没有 LevelDB key".to_string()));
    let keyed = EditTarget::Player(PlayerId { name: "p".to_string(), storage_key: Some(vec![1, 2]) });
    let scope = edit_history_spec(&keyed, EditAction::Delete, "玩家 p").unwrap();
    assert_eq!(scope.label, "删除 玩家 p");
    assert!(!scope.include_level_dat);
    assert_eq!(scope.kind, MapHistoryEntryKind::RecordDelete);
    assert_eq!(scope.raw_keys, vec![vec![1, 2]]);
    assert!(scope.chunks.is_empty());
}

#[test]
fn pasting_in_place_keeps_chunks_and_heights() {
    for c in [ow(0, 0), ow(-7, 12), ow(i32::MAX, 0)] {
        assert_eq!(pasted_chunk_target(c, ow(3, 3), ow(3, 3), plain()), c);
    }
    for t in [plain(), rotated(PasteRotation::Clockwise90), rotated(PasteRotation::Rotate180)] {
        assert_eq!(transform_chunk_block_position([7, -40, 9], ow(0, 0), ow(5, 5), t)[1], -40);
    }
}

#[test]
fn chunk_tree_follows_the_selected_tile() {
    let mut index = TileChunkIndex::new();
    merge_chunks_into_tile_index(&mut index, (0, 0), &vec![ow(2, 2), ow(1, 1)], 32, 32);
    assert_eq!(chunks_of_tile(&index, (0, 0)), vec![ow(1, 1), ow(2, 2)]);
    assert!(chunks_of_tile(&index, (1, 0)).is_empty());
    let mut tree = ChunkTreeState::new();
    tree.refresh_chunk_tree_if_selected(&index, true);
    assert_eq!(tree.generation, 0);
    assert!(tree.selected_tile.is_none());
    tree.selected_node = Some("chunk".to_string());
    tree.refresh_chunk_tree_for_tile((0, 0), &index, true);
    assert_eq!(tree.generation, 1);
    assert_eq!(tree.chunks, vec![ow(1, 1), ow(2, 2)]);
    assert!(tree.loading && tree.selected_node.is_none());
    merge_chunks_into_tile_index(&mut index, (0, 0), &vec![ow(3, 3)], 32, 32);
    tree.refresh_chunk_tree_if_selected(&index, false);
    assert_eq!(tree.generation, 2);
    assert_eq!(tree.chunks, vec![ow(1, 1), ow(2, 2), ow(3, 3)]);
    assert!(!tree.loading);
}

#[test]
fn edit_invalidation_refreshes_tiles_and_tree() {
    let mut b = book();
    let mut tree = ChunkTreeState::new();
    tree.refresh_chunk_tree_for_tile((0, 0), &b.tile_chunk_index, false);
    let inv = MapEditInvalidation { affected_chunks: vec![ow(1, 1), ow(2, 2)], clear_tile_cache: true, refresh_metadata: true, refresh_overlays: true };
    let mut panel = ProfessionalPanelState {
        detail_shown: true,
        overlays_loaded: true,
        overlay_paint_loaded: true,
        selection_stats_shown: true,
        pending_overlay_refresh: false,
    };
    let out = apply_map_edit_invalidation_with_options(&mut b, &mut tree, &mut panel, &inv, true, 32, 32, false);
    assert_eq!(
        panel,
        ProfessionalPanelState {
            detail_shown: false,
            overlays_loaded: false,
            overlay_paint_loaded: false,
            selection_stats_shown: false,
            pending_overlay_refresh: true,
        }
    );
    assert_eq!(out.probe_summary, "chunks=2 tiles=1 cache=true metadata=true overlays=true");
    assert!(out.refresh_overlays);
    assert!(matches!(out.tiles, TileInvalidation::Tiles { drop_images: false, .. }));
    assert_eq!(tree.generation, 4);
    assert_eq!(tree.chunks, vec![ow(1, 1), ow(2, 2)]);
    assert_eq!(b.available_tiles, vec![(-1, 0), (1, 0)]);

    let mut b = book();
    let mut tree = ChunkTreeState::new();
    let inv = MapEditInvalidation { affected_chunks: vec![ow(1, 1)], clear_tile_cache: false, refresh_metadata: true, refresh_overlays: false };
    let mut panel = ProfessionalPanelState {
        detail_shown: true,
        overlays_loaded: true,
        overlay_paint_loaded: false,
        selection_stats_shown: true,
        pending_overlay_refresh: false,
    };
    let out = apply_map_edit_invalidation(&mut b, &mut tree, &mut panel, &inv, 32, 32, true);
    assert!(!panel.detail_shown && panel.overlays_loaded && panel.selection_stats_shown);
    assert!(matches!(out.tiles, TileInvalidation::Nothing));
    assert_eq!(out.probe_summary, "chunks=1 tiles=1 cache=false metadata=true overlays=false");
    assert_eq!(b.available_tiles, vec![(-1, 0), (0, 0), (1, 0)]);
    assert_eq!(tree.generation, 0);
}

#[test]
fn unsupported_edits_and_empty_copies_are_refused() {
    assert_eq!(edit_action_refusal(&EditTarget::HeightMap(ow(0, 0)), EditAction::Save, "heightmap"), None);
    assert_eq!(
        edit_action_refusal(&EditTarget::HeightMap(ow(0, 0)), EditAction::Delete, "heightmap 0,0"),
        Some("heightmap 0,0 does not support delete yet".to_string())
    );
    assert_eq!(
        edit_action_refusal(&EditTarget::Actors(ow(0, 0)), EditAction::Save, "actors"),
        Some("actors does not support save yet".to_string())
    );
    assert_eq!(copy_chunks_refusal(&vec![]), Some("没有可复制的 chunk".to_string()));
    assert_eq!(copy_chunks_refusal(&vec![ow(1, 1)]), None);
}
