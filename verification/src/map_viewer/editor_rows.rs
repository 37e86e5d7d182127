use crate::map_viewer::editor::{EditAction, QuickWriteAction};
use crate::map_viewer::model::ChunkPos;
use crate::map_viewer::paste::{HardcodedSpawnAreaKind, ParsedHardcodedSpawnArea};
use crate::map_viewer::records::{editable_row, readonly_row, EditRow};
use crate::text::{append_decimal, i64_to_text, spec_decimal, spec_signed_decimal};
use vstd::prelude::*;

verus! {

/// The label of a quick-write button: prefixed with "确认" while that
/// action waits for its confirming click.
pub fn confirming_quick_label(pending: Option<QuickWriteAction>, action: QuickWriteAction, label: &str) -> (r: String)
    ensures
        r@ == (if pending == Some(action) {
            "确认"@ + label@
        } else {
            label@
        }),
{
    let armed = match pending {
        Some(p) => p == action,
        None => false,
    };
    if armed {
        let mut text = String::from_str("确认");
        text.append(label);
        text
    } else {
        String::from_str(label)
    }
}

pub open spec fn spec_hsa_kind_label(kind: HardcodedSpawnAreaKind) -> Seq<char> {
    match kind {
        HardcodedSpawnAreaKind::NetherFortress => "NetherFortress"@,
        HardcodedSpawnAreaKind::SwampHut => "SwampHut"@,
        HardcodedSpawnAreaKind::OceanMonument => "OceanMonument"@,
        HardcodedSpawnAreaKind::PillagerOutpost => "PillagerOutpost"@,
        HardcodedSpawnAreaKind::Unknown(v) => "Unknown("@ + spec_decimal(v as nat) + ")"@,
    }
}

/// The name of a hardcoded spawn area kind; an unknown kind shows its code.
pub fn hsa_kind_label(kind: HardcodedSpawnAreaKind) -> (r: String)
    ensures
        r@ == spec_hsa_kind_label(kind),
{
    match kind {
        HardcodedSpawnAreaKind::NetherFortress => String::from_str("NetherFortress"),
        HardcodedSpawnAreaKind::SwampHut => String::from_str("SwampHut"),
        HardcodedSpawnAreaKind::OceanMonument => String::from_str("OceanMonument"),
        HardcodedSpawnAreaKind::PillagerOutpost => String::from_str("PillagerOutpost"),
        HardcodedSpawnAreaKind::Unknown(v) => {
            let mut text = String::from_str("Unknown(");
            append_decimal(&mut text, v as u64);
            text.append(")");
            text
        },
    }
}

/// Where an actor record was stored: inline in a chunk, or under an actor
/// key with this unique id.
#[derive(Clone, Copy, Debug)]
pub enum ActorSource {
    InlineChunk(ChunkPos),
    ActorPrefix(i64),
}

pub fn actor_source_label(source: ActorSource) -> (r: String)
    ensures
        r@ == (match source {
            ActorSource::InlineChunk(_) => "InlineChunk"@,
            ActorSource::ActorPrefix(uid) => "ActorPrefix("@ + spec_signed_decimal(uid as int) + ")"@,
        }),
{
    match source {
        ActorSource::InlineChunk(_) => String::from_str("InlineChunk"),
        ActorSource::ActorPrefix(uid) => {
            let mut text = String::from_str("ActorPrefix(");
            let digits = i64_to_text(uid);
            text.append(digits.as_str());
            text.append(")");
            text
        },
    }
}

/// The status of a save or delete: its verb and what it acts on.
pub fn edit_action_status(action: EditAction, operation_label: &str) -> (r: String)
    ensures
        r@ == (match action {
            EditAction::Save => "保存"@,
            EditAction::Delete => "删除"@,
        }) + " "@ + operation_label@,
{
    let mut text = match action {
        EditAction::Save => String::from_str("保存"),
        EditAction::Delete => String::from_str("删除"),
    };
    text.append(" ");
    text.append(operation_label);
    text
}

pub open spec fn spec_triple(v: [i32; 3]) -> Seq<char> {
    spec_signed_decimal(v[0] as int) + ","@ + spec_signed_decimal(v[1] as int) + ","@ + spec_signed_decimal(
        v[2] as int,
    )
}

/// A block position as "x,y,z".
pub fn triple_text(v: [i32; 3]) -> (r: String)
    ensures
        r@ == spec_triple(v),
{
    let mut text = i64_to_text(v[0] as i64);
    text.append(",");
    let y = i64_to_text(v[1] as i64);
    text.append(y.as_str());
    text.append(",");
    let z = i64_to_text(v[2] as i64);
    text.append(z.as_str());
    text
}

/// A row as label, value and whether it is editable.
pub open spec fn row_view(r: EditRow) -> (Seq<char>, Seq<char>, bool) {
    (r.label@, r.value@, r.editable)
}

pub open spec fn rows_view(rows: Seq<EditRow>) -> Seq<(Seq<char>, Seq<char>, bool)> {
    rows.map_values(|r: EditRow| row_view(r))
}

pub open spec fn index_label(index: int, field: Seq<char>) -> Seq<char> {
    "#"@ + spec_decimal(index as nat) + " "@ + field
}

fn index_label_text(index: usize, field: &str) -> (r: String)
    ensures
        r@ == index_label(index as int, field@),
{
    let mut text = String::from_str("#");
    append_decimal(&mut text, index as u64);
    text.append(" ");
    text.append(field);
    text
}

/// The editor rows of a hardcoded spawn area: its kind (read-only), then
/// its corners.
pub fn hsa_rows(index: usize, area: &ParsedHardcodedSpawnArea) -> (r: Vec<EditRow>)
    ensures
        rows_view(r@) == seq![
            (index_label(index as int, "kind"@), spec_hsa_kind_label(area.kind), false),
            (index_label(index as int, "min"@), spec_triple(area.min), true),
            (index_label(index as int, "max"@), spec_triple(area.max), true),
        ],
{
    let mut rows: Vec<EditRow> = Vec::new();
    rows.push(readonly_row(index_label_text(index, "kind"), hsa_kind_label(area.kind)));
    rows.push(editable_row(index_label_text(index, "min"), triple_text(area.min)));
    rows.push(editable_row(index_label_text(index, "max"), triple_text(area.max)));
    proof {
        assert(rows_view(rows@) =~= seq![
            (index_label(index as int, "kind"@), spec_hsa_kind_label(area.kind), false),
            (index_label(index as int, "min"@), spec_triple(area.min), true),
            (index_label(index as int, "max"@), spec_triple(area.max), true),
        ]);
    }
    rows
}

/// What the editor shows of a block entity record.
pub struct BlockEntitySummary {
    pub index: usize,
    pub id: Option<String>,
    pub position: Option<[i32; 3]>,
    pub custom_name: Option<String>,
}

pub open spec fn text_or_empty(s: Option<String>) -> Seq<char> {
    match s {
        Some(t) => t@,
        None => Seq::empty(),
    }
}

pub open spec fn block_entity_record_rows(b: BlockEntitySummary) -> Seq<(Seq<char>, Seq<char>, bool)> {
    seq![
        (index_label(b.index as int, "id"@), text_or_empty(b.id), false),
        (index_label(b.index as int, "pos"@), match b.position {
            Some(p) => spec_triple(p),
            None => "unknown"@,
        }, true),
        (index_label(b.index as int, "name"@), text_or_empty(b.custom_name), true),
    ]
}

pub open spec fn spec_block_entity_rows(records: Seq<BlockEntitySummary>) -> Seq<(Seq<char>, Seq<char>, bool)>
    decreases records.len(),
{
    if records.len() == 0 {
        Seq::empty()
    } else {
        spec_block_entity_rows(records.drop_last()) + block_entity_record_rows(records.last())
    }
}

fn text_or_default(s: &Option<String>) -> (r: String)
    ensures
        r@ == text_or_empty(*s),
{
    match s {
        Some(t) => t.clone(),
        None => String::new(),
    }
}

/// The editor rows of a chunk's block entities: for each its id, position
/// and custom name; a single "记录: 无" row when there is none.
pub fn block_entity_rows(records: &Vec<BlockEntitySummary>) -> (r: Vec<EditRow>)
    ensures
        records@.len() == 0 ==> rows_view(r@) == seq![("记录"@, "无"@, false)],
        records@.len() > 0 ==> rows_view(r@) == spec_block_entity_rows(records@),
{
    let mut rows: Vec<EditRow> = Vec::new();
    if records.len() == 0 {
        rows.push(readonly_row(String::from_str("记录"), String::from_str("无")));
        proof {
            assert(rows_view(rows@) =~= seq![("记录"@, "无"@, false)]);
        }
        return rows;
    }
    let mut i: usize = 0;
    while i < records.len()
        invariant
            i <= records@.len(),
            rows_view(rows@) == spec_block_entity_rows(records@.subrange(0, i as int)),
        decreases records@.len() - i,
    {
        let record = &records[i];
        let ghost before = rows_view(rows@);
        let pos = match record.position {
            Some(p) => triple_text(p),
            None => String::from_str("unknown"),
        };
        rows.push(readonly_row(index_label_text(record.index, "id"), text_or_default(&record.id)));
        rows.push(editable_row(index_label_text(record.index, "pos"), pos));
        rows.push(editable_row(index_label_text(record.index, "name"), text_or_default(&record.custom_name)));
        proof {
            let next = records@.subrange(0, i + 1);
            assert(next.drop_last() =~= records@.subrange(0, i as int));
            assert(next.last() == records@[i as int]);
            assert(rows_view(rows@) =~= before + block_entity_record_rows(records@[i as int]));
        }
        i += 1;
    }
    proof {
        assert(records@.subrange(0, records@.len() as int) =~= records@);
    }
    rows
}


/// What the editor shows of an actor record. The position arrives as text,
/// already formatted with two decimals per axis.
pub struct ActorSummary {
    pub uid: Option<i64>,
    pub source: ActorSource,
    pub position_text: Option<String>,
    pub identifier: Option<String>,
}

pub open spec fn spec_actor_source_label(source: ActorSource) -> Seq<char> {
    match source {
        ActorSource::InlineChunk(_) => "InlineChunk"@,
        ActorSource::ActorPrefix(uid) => "ActorPrefix("@ + spec_signed_decimal(uid as int) + ")"@,
    }
}

pub open spec fn actor_record_rows(index: int, a: ActorSummary) -> Seq<(Seq<char>, Seq<char>, bool)> {
    seq![
        (index_label(index, "uid"@), match a.uid {
            Some(uid) => spec_signed_decimal(uid as int),
            None => "legacy/unknown"@,
        }, false),
        (index_label(index, "source"@), spec_actor_source_label(a.source), false),
        (index_label(index, "pos"@), match a.position_text {
            Some(t) => t@,
            None => "unknown"@,
        }, true),
        (index_label(index, "id"@), text_or_empty(a.identifier), false),
    ]
}

pub open spec fn spec_actor_rows(records: Seq<ActorSummary>) -> Seq<(Seq<char>, Seq<char>, bool)>
    decreases records.len(),
{
    if records.len() == 0 {
        Seq::empty()
    } else {
        spec_actor_rows(records.drop_last()) + actor_record_rows(records.len() - 1, records.last())
    }
}

/// The editor rows of a chunk's actors, numbered in order: uid, where the
/// record is stored, position and identifier of each; a single "记录: 无"
/// row when there is none.
pub fn actor_rows(records: &Vec<ActorSummary>) -> (r: Vec<EditRow>)
    ensures
        records@.len() == 0 ==> rows_view(r@) == seq![("记录"@, "无"@, false)],
        records@.len() > 0 ==> rows_view(r@) == spec_actor_rows(records@),
{
    let mut rows: Vec<EditRow> = Vec::new();
    if records.len() == 0 {
        rows.push(readonly_row(String::from_str("记录"), String::from_str("无")));
        proof {
            assert(rows_view(rows@) =~= seq![("记录"@, "无"@, false)]);
        }
        return rows;
    }
    let mut i: usize = 0;
    while i < records.len()
        invariant
            i <= records@.len(),
            rows_view(rows@) == spec_actor_rows(records@.subrange(0, i as int)),
        decreases records@.len() - i,
    {
        let record = &records[i];
        let ghost before = rows_view(rows@);
        let uid = match record.uid {
            Some(uid) => i64_to_text(uid),
            None => String::from_str("legacy/unknown"),
        };
        let pos = match &record.position_text {
            Some(t) => t.clone(),
            None => String::from_str("unknown"),
        };
        rows.push(readonly_row(index_label_text(i, "uid"), uid));
        rows.push(readonly_row(index_label_text(i, "source"), actor_source_label(record.source)));
        rows.push(editable_row(index_label_text(i, "pos"), pos));
        rows.push(readonly_row(index_label_text(i, "id"), text_or_default(&record.identifier)));
        proof {
            let next = records@.subrange(0, i + 1);
            assert(next.drop_last() =~= records@.subrange(0, i as int));
            assert(next.last() == records@[i as int]);
            assert(rows_view(rows@) =~= before + actor_record_rows(i as int, records@[i as int]));
        }
        i += 1;
    }
    proof {
        assert(records@.subrange(0, records@.len() as int) =~= records@);
    }
    rows
}


/// The progress phase of a chunk delete or reset.
pub fn quick_write_phase(action: &QuickWriteAction) -> (r: &'static str)
    ensures
        r@ == (if action is ResetCurrentChunk { "重置区块"@ } else { "删除区块"@ }),
{
    match action {
        QuickWriteAction::ResetCurrentChunk(_) => "重置区块",
        _ => "删除区块",
    }
}

pub open spec fn spec_quick_write_message(action: QuickWriteAction, count: usize) -> Option<Seq<char>> {
    match action {
        QuickWriteAction::ResetCurrentChunk(_) => Some(
            "已重置当前 chunk，删除 "@ + spec_decimal(count as nat) + " 条记录并允许游戏重新加载"@,
        ),
        QuickWriteAction::DeleteCurrentChunk(_) => Some(
            "已清空当前 chunk 为空气（"@ + spec_decimal(count as nat) + " 个 chunk）"@,
        ),
        QuickWriteAction::DeleteCurrentChunkBlockEntities(c) => Some(
            "已删除 chunk "@ + spec_signed_decimal(c.x as int) + ","@ + spec_signed_decimal(c.z as int)
                + " 方块实体记录"@,
        ),
        QuickWriteAction::DeleteCurrentChunkActors(c) => Some(
            "已删除 chunk "@ + spec_signed_decimal(c.x as int) + ","@ + spec_signed_decimal(c.z as int) + " 的 "@
                + spec_decimal(count as nat) + " 个现代实体"@,
        ),
        _ => None,
    }
}

/// The status after a one-click chunk write: records deleted by a reset,
/// chunks cleared by a delete, or the chunk whose block entities or actors
/// (this many) were deleted. Pastes report through their own messages.
pub fn quick_write_message(action: &QuickWriteAction, count: usize) -> (r: Option<String>)
    ensures
        match (r, spec_quick_write_message(*action, count)) {
            (Some(m), Some(t)) => m@ == t,
            (None, None) => true,
            _ => false,
        },
{
    match action {
        QuickWriteAction::ResetCurrentChunk(_) => {
            let mut text = String::from_str("已重置当前 chunk，删除 ");
            append_decimal(&mut text, count as u64);
            text.append(" 条记录并允许游戏重新加载");
            Some(text)
        },
        QuickWriteAction::DeleteCurrentChunk(_) => {
            let mut text = String::from_str("已清空当前 chunk 为空气（");
            append_decimal(&mut text, count as u64);
            text.append(" 个 chunk）");
            Some(text)
        },
        QuickWriteAction::DeleteCurrentChunkBlockEntities(c) => {
            let mut text = String::from_str("已删除 chunk ");
            let x = i64_to_text(c.x as i64);
            text.append(x.as_str());
            text.append(",");
            let z = i64_to_text(c.z as i64);
            text.append(z.as_str());
            text.append(" 方块实体记录");
            Some(text)
        },
        QuickWriteAction::DeleteCurrentChunkActors(c) => {
            let mut text = String::from_str("已删除 chunk ");
            let x = i64_to_text(c.x as i64);
            text.append(x.as_str());
            text.append(",");
            let z = i64_to_text(c.z as i64);
            text.append(z.as_str());
            text.append(" 的 ");
            append_decimal(&mut text, count as u64);
            text.append(" 个现代实体");
            Some(text)
        },
        _ => None,
    }
}

pub open spec fn spec_more_edit_label(expanded: bool) -> Seq<char> {
    if expanded {
        "收起更多编辑操作"@
    } else {
        "更多编辑操作"@
    }
}

/// Label of the context-menu entry that folds the extra edit actions.
pub fn context_more_edit_label(expanded: bool) -> (r: &'static str)
    ensures
        r@ == spec_more_edit_label(expanded),
{
    if expanded {
        "收起更多编辑操作"
    } else {
        "更多编辑操作"
    }
}

/// The context-menu entries of the extra edit actions: the toggle entry,
/// followed by the actions themselves while they are unfolded.
pub fn context_more_edit_entries<T>(expanded: bool, toggle: T, items: Vec<T>) -> (r: Vec<T>)
    ensures
        r@ == (if expanded {
            seq![toggle] + items@
        } else {
            seq![toggle]
        }),
{
    let mut entries = Vec::new();
    entries.push(toggle);
    if expanded {
        let mut rest = items;
        entries.append(&mut rest);
    }
    proof {
        if expanded {
            assert(entries@ =~= seq![toggle] + items@);
        } else {
            assert(entries@ =~= seq![toggle]);
        }
    }
    entries
}

} // verus!
