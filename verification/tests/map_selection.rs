use bmcbl_windows::map_viewer::editor_rows::{
    actor_rows, context_more_edit_entries, context_more_edit_label, ActorSummary,
};
use bmcbl_windows::map_viewer::editor::{EditAction, QuickWriteAction};
use bmcbl_windows::map_viewer::editor_document::{format_editor_document, pretty_json, EditorDocument};
use bmcbl_windows::map_viewer::editor_rows::{
    actor_source_label, block_entity_rows, quick_write_message, quick_write_phase, confirming_quick_label, edit_action_status, hsa_kind_label, hsa_rows,
    triple_text, ActorSource, BlockEntitySummary,
};
use bmcbl_windows::map_viewer::entity_labels::{
    entity_debug_label, select_entity_debug_labels, EntityLabelCandidate, MAX_ENTITY_DEBUG_LABELS,
};
use bmcbl_windows::map_viewer::model::{ChunkPos, Dimension};
use bmcbl_windows::map_viewer::paste::{HardcodedSpawnAreaKind, ParsedHardcodedSpawnArea};
use bmcbl_windows::map_viewer::preview_mesh::{merge_exact_preview_meshes, Preview3dMesh};
use bmcbl_windows::map_viewer::structure_palette::StructurePalette;
use bmcbl_windows::map_viewer::selection_delete::{
    combine_history_and_write, delete_completion_status, delete_progress_total, delete_selection_decision,
    delete_selection_status, delete_task_message, selection_chunks, DeleteSelectionDecision, SlimeChunkBounds,
};

fn ow(x: i32, z: i32) -> ChunkPos {
    ChunkPos { x, z, dimension: Dimension::Overworld }
}

fn mesh(handles: Vec<u64>, faces: usize, min_y: i32, max_y: i32, processed: usize) -> Preview3dMesh {
    Preview3dMesh {
        chunk_meshes: handles,
        min_y,
        max_y,
        min_x: 0,
        max_x: 0,
        min_z: 0,
        max_z: 0,
        missing_chunks: 1,
        chunk_count: 0,
        processed_chunk_count: processed,
        subchunk_count: 2,
        solid_block_count: 3,
        glass_block_count: 4,
        water_block_count: 5,
        lava_block_count: 6,
        face_count: faces,
        glass_face_count: 7,
        water_face_count: 8,
        lava_face_count: 9,
        culled_face_count: 10,
        omitted_face_count: 11,
        truncated_chunk_count: 12,
        vertex_budget: 13,
    }
}

#[test]
fn merged_preview_covers_the_selection() {
    let parts = vec![mesh(vec![1, 2], 10, -5, 40, 3), mesh(vec![], 0, -60, 300, 2), mesh(vec![3], 4, 0, 80, 1)];
    let chunks = vec![ow(-2, 3), ow(4, -1), ow(0, 0)];
    let m = merge_exact_preview_meshes(&parts, &chunks);
    assert_eq!(m.chunk_meshes, vec![1, 2, 3]);
    assert_eq!((m.min_y, m.max_y), (-5, 80));
    assert_eq!((m.min_x, m.max_x, m.min_z, m.max_z), (-32, 79, -16, 63));
    assert_eq!(m.chunk_count, 3);
    assert_eq!(m.processed_chunk_count, 3);
    assert_eq!(m.face_count, 14);
    assert_eq!(m.missing_chunks, 3);
    assert_eq!(m.vertex_budget, 39);
    assert_eq!(m.lava_face_count, 27);
}

#[test]
fn merged_preview_of_nothing_is_empty() {
    let m = merge_exact_preview_meshes(&vec![], &vec![]);
    assert!(m.chunk_meshes.is_empty());
    assert_eq!((m.min_x, m.max_x, m.min_z, m.max_z, m.min_y, m.max_y), (0, 15, 0, 15, 0, 0));
    assert_eq!(m.processed_chunk_count, 0);
    let far = merge_exact_preview_meshes(&vec![], &vec![ow(i32::MAX, i32::MIN)]);
    assert_eq!((far.min_x, far.max_x), (i32::MAX, i32::MAX - 1));
    assert_eq!((far.min_z, far.max_z), (i32::MIN, i32::MIN));
}

fn cand(has_avatar: bool, cell: Option<(i32, i32)>) -> EntityLabelCandidate {
    EntityLabelCandidate { has_avatar, cell }
}

#[test]
fn entity_labels_one_per_cell_without_avatar() {
    let cands = vec![
        cand(false, Some((0, 0))),
        cand(true, Some((1, 0))),
        cand(false, None),
        cand(false, Some((0, 0))),
        cand(false, Some((2, 3))),
    ];
    assert_eq!(select_entity_debug_labels(&cands), vec![0, 4]);
}

#[test]
fn entity_labels_are_capped() {
    let cands: Vec<_> = (0..300).map(|i| cand(false, Some((i, 0)))).collect();
    let picked = select_entity_debug_labels(&cands);
    assert_eq!(picked.len(), MAX_ENTITY_DEBUG_LABELS);
    assert_eq!(picked[MAX_ENTITY_DEBUG_LABELS - 1], MAX_ENTITY_DEBUG_LABELS - 1);
}

#[test]
fn entity_label_text() {
    assert_eq!(entity_debug_label(Some("minecraft:cow"), true, "hit"), "minecraft:cow · avatar:missing · hit");
    assert_eq!(entity_debug_label(None, false, "miss"), "<missing-id> · avatar:loading · miss");
}

fn rect(min_x: i32, max_x: i32, min_z: i32, max_z: i32) -> SlimeChunkBounds {
    SlimeChunkBounds { dimension: Dimension::Overworld, min_chunk_x: min_x, max_chunk_x: max_x, min_chunk_z: min_z, max_chunk_z: max_z }
}

#[test]
fn selection_chunks_cover_the_rectangle_in_order() {
    assert_eq!(selection_chunks(rect(0, 1, -1, 0)), vec![ow(0, -1), ow(0, 0), ow(1, -1), ow(1, 0)]);
    assert!(selection_chunks(rect(2, 1, 0, 0)).is_empty());
    assert_eq!(selection_chunks(rect(i32::MAX, i32::MAX, i32::MAX, i32::MAX)), vec![ow(i32::MAX, i32::MAX)]);
}

#[test]
fn deleting_a_selection_needs_two_clicks() {
    let mut pending = false;
    assert_eq!(delete_selection_decision(false, true, &mut pending), DeleteSelectionDecision::NeedsWriteMode);
    assert_eq!(delete_selection_decision(true, false, &mut pending), DeleteSelectionDecision::NeedsSelection);
    assert_eq!(delete_selection_decision(true, true, &mut pending), DeleteSelectionDecision::ArmConfirmation);
    assert!(pending);
    assert_eq!(delete_selection_decision(true, true, &mut pending), DeleteSelectionDecision::Run);
    assert!(!pending);
    assert_eq!(delete_selection_status(DeleteSelectionDecision::NeedsWriteMode), "删除 chunk 需要先开启写入模式");
    assert_eq!(delete_selection_status(DeleteSelectionDecision::ArmConfirmation), "再次点击删除选区 chunk 以确认写入操作");
}

#[test]
fn deletion_outcomes() {
    assert_eq!(delete_progress_total(0), 1);
    assert_eq!(delete_progress_total(9), 9);
    assert_eq!(combine_history_and_write(Err("h".into()), Ok(4)), Ok(4));
    assert_eq!(combine_history_and_write::<usize>(Ok(()), Err("w".into())), Err("w".to_string()));
    assert_eq!(combine_history_and_write::<usize>(Err("h".into()), Err("w".into())), Err("w；历史捕获失败: h".to_string()));
    assert_eq!(delete_completion_status(&Ok(4), false), "已清空 4 个选区 chunk 为空气");
    assert_eq!(delete_completion_status(&Err("x".into()), true), "删除选区已取消");
    assert_eq!(delete_completion_status(&Err("x".into()), false), "x");
    assert_eq!(delete_task_message(&Ok(4), true), Some("已清空 4 个 chunk".to_string()));
    assert_eq!(delete_task_message(&Ok(4), false), None);
    assert_eq!(delete_task_message(&Err("e".into()), false), Some("e".to_string()));
}

#[test]
fn json_documents_are_reformatted_only_when_valid() {
    let mut doc = EditorDocument { text: "{\"a\":1}".to_string(), dirty: false };
    let status = format_editor_document(&mut doc, "{\"a\":1,\"b\":[true]}");
    assert_eq!(status, "JSON 已格式化；第一版不会从文本回写任意 NBT");
    assert!(doc.dirty);
    assert_eq!(doc.text, "{\n  \"a\": 1,\n  \"b\": [\n    true\n  ]\n}");
    let mut doc = EditorDocument { text: "keep".to_string(), dirty: false };
    let status = format_editor_document(&mut doc, "{oops");
    assert_eq!(status, "JSON 格式化失败：当前文本不是有效 JSON");
    assert_eq!(doc.text, "keep");
    assert!(!doc.dirty);
}

#[test]
fn editor_labels() {
    let action = QuickWriteAction::DeleteCurrentChunk(ow(0, 0));
    assert_eq!(confirming_quick_label(Some(action), action, "删除"), "确认删除");
    assert_eq!(confirming_quick_label(None, action, "删除"), "删除");
    assert_eq!(confirming_quick_label(Some(QuickWriteAction::ResetCurrentChunk(ow(0, 0))), action, "删除"), "删除");
    assert_eq!(hsa_kind_label(HardcodedSpawnAreaKind::OceanMonument), "OceanMonument");
    assert_eq!(hsa_kind_label(HardcodedSpawnAreaKind::Unknown(9)), "Unknown(9)");
    assert_eq!(actor_source_label(ActorSource::ActorPrefix(-12)), "ActorPrefix(-12)");
    assert_eq!(actor_source_label(ActorSource::InlineChunk(ow(1, 1))), "InlineChunk");
    assert_eq!(edit_action_status(EditAction::Delete, "HSA chunk 1,2"), "删除 HSA chunk 1,2");
    assert_eq!(triple_text([-1, 64, 300]), "-1,64,300");
}

#[test]
fn editor_rows() {
    let area = ParsedHardcodedSpawnArea { kind: HardcodedSpawnAreaKind::SwampHut, min: [0, 60, -5], max: [15, 70, 10] };
    let rows = hsa_rows(2, &area);
    let view: Vec<_> = rows.iter().map(|r| (r.label.as_str(), r.value.as_str(), r.editable)).collect();
    assert_eq!(view, vec![("#2 kind", "SwampHut", false), ("#2 min", "0,60,-5", true), ("#2 max", "15,70,10", true)]);
    let none = block_entity_rows(&vec![]);
    assert_eq!(none.len(), 1);
    assert_eq!((none[0].label.as_str(), none[0].value.as_str(), none[0].editable), ("记录", "无", false));
    let records = vec![
        BlockEntitySummary { index: 0, id: Some("Chest".to_string()), position: Some([1, 2, 3]), custom_name: None },
        BlockEntitySummary { index: 4, id: None, position: None, custom_name: Some("box".to_string()) },
    ];
    let rows = block_entity_rows(&records);
    let view: Vec<_> = rows.iter().map(|r| (r.label.as_str(), r.value.as_str(), r.editable)).collect();
    assert_eq!(
        view,
        vec![
            ("#0 id", "Chest", false),
            ("#0 pos", "1,2,3", true),
            ("#0 name", "", true),
            ("#4 id", "", false),
            ("#4 pos", "unknown", true),
            ("#4 name", "box", true),
        ]
    );
}

#[test]
fn structure_palette_interns_entries() {
    let mut palette = StructurePalette::with_air("minecraft:air|||Some(1)".to_string());
    assert_eq!(palette.mcstructure_palette_index("minecraft:stone||".to_string()), Ok(1));
    assert_eq!(palette.mcstructure_palette_index("minecraft:dirt||".to_string()), Ok(2));
    assert_eq!(palette.mcstructure_palette_index("minecraft:stone||".to_string()), Ok(1));
    assert_eq!(palette.mcstructure_palette_index("minecraft:air|||Some(1)".to_string()), Ok(0));
    assert_eq!(palette.keys.len(), 3);
}

#[test]
fn quick_write_messages() {
    let c = ow(-3, 7);
    assert_eq!(quick_write_phase(&QuickWriteAction::ResetCurrentChunk(c)), "重置区块");
    assert_eq!(quick_write_phase(&QuickWriteAction::DeleteCurrentChunk(c)), "删除区块");
    assert_eq!(
        quick_write_message(&QuickWriteAction::ResetCurrentChunk(c), 12).as_deref(),
        Some("已重置当前 chunk，删除 12 条记录并允许游戏重新加载")
    );
    assert_eq!(quick_write_message(&QuickWriteAction::DeleteCurrentChunk(c), 1).as_deref(), Some("已清空当前 chunk 为空气（1 个 chunk）"));
    assert_eq!(
        quick_write_message(&QuickWriteAction::DeleteCurrentChunkBlockEntities(c), 0).as_deref(),
        Some("已删除 chunk -3,7 方块实体记录")
    );
    assert_eq!(
        quick_write_message(&QuickWriteAction::DeleteCurrentChunkActors(c), 5).as_deref(),
        Some("已删除 chunk -3,7 的 5 个现代实体")
    );
    let paste = QuickWriteAction::PasteCopiedChunk { source: c, target: c, transform: bmcbl_windows::map_viewer::model::PasteTransform { rotation: bmcbl_windows::map_viewer::model::PasteRotation::NoRotation, mirror_x: false, mirror_z: false } };
    assert_eq!(quick_write_message(&paste, 3), None);
}

#[test]
fn more_edit_entries_unfold_only_when_expanded() {
    assert_eq!(context_more_edit_label(false), "更多编辑操作");
    assert_eq!(context_more_edit_label(true), "收起更多编辑操作");
    assert_eq!(context_more_edit_entries(false, 0, vec![1, 2]), vec![0]);
    assert_eq!(context_more_edit_entries(true, 0, vec![1, 2]), vec![0, 1, 2]);
}

#[test]
fn actor_rows_number_each_record() {
    let none = actor_rows(&vec![]);
    assert_eq!(none.len(), 1);
    assert_eq!((none[0].label.as_str(), none[0].value.as_str()), ("记录", "无"));
    let records = vec![
        ActorSummary {
            uid: Some(-42),
            source: ActorSource::ActorPrefix(-42),
            position_text: Some("1.00,64.50,-3.25".to_string()),
            identifier: Some("minecraft:cow".to_string()),
        },
        ActorSummary { uid: None, source: ActorSource::InlineChunk(ow(0, 0)), position_text: None, identifier: None },
    ];
    let rows = actor_rows(&records);
    let view: Vec<_> = rows.iter().map(|r| (r.label.as_str(), r.value.as_str(), r.editable)).collect();
    assert_eq!(
        view,
        vec![
            ("#0 uid", "-42", false),
            ("#0 source", "ActorPrefix(-42)", false),
            ("#0 pos", "1.00,64.50,-3.25", true),
            ("#0 id", "minecraft:cow", false),
            ("#1 uid", "legacy/unknown", false),
            ("#1 source", "InlineChunk", false),
            ("#1 pos", "unknown", true),
            ("#1 id", "", false),
        ]
    );
}

#[test]
fn printing_errors_become_a_json_object() {
    assert_eq!(pretty_json(Err("boom".to_string())), "{\"error\":\"boom\"}");
    assert_eq!(pretty_json(Ok("{}".to_string())), "{}");
}
