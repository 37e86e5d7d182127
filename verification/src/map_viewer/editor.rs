use crate::map_viewer::model::{BlockPos, ChunkPos, Dimension, PasteTransform};
use crate::map_viewer::paste::{pasted_chunk_targets, spec_pasted_target};
use crate::map_viewer::tiles::{chunks_sorted, insert_chunk};
use vstd::prelude::*;

verus! {

/// A player record: its display name and, when it has one, its database key.
pub struct PlayerId {
    pub name: String,
    pub storage_key: Option<Vec<u8>>,
}

/// A map item record: its name and database key.
pub struct MapRecordId {
    pub name: String,
    pub storage_key: Vec<u8>,
}

/// A world-global record: its name and database key.
pub struct GlobalRecordId {
    pub name: String,
    pub storage_key: Vec<u8>,
}

/// A world record that the record editor can load, save or delete.
pub enum EditTarget {
    HsaChunk(ChunkPos),
    Player(PlayerId),
    BlockEntities(ChunkPos),
    BlockEntityAt { chunk: ChunkPos, block: BlockPos },
    Actors(ChunkPos),
    HeightMap(ChunkPos),
    BiomeStorage(ChunkPos),
    MapRecord(MapRecordId),
    GlobalRecord(GlobalRecordId),
}

/// The same targets, with names and keys as sequences.
pub enum EditTargetView {
    HsaChunk(ChunkPos),
    Player(Seq<char>, Option<Seq<u8>>),
    BlockEntities(ChunkPos),
    BlockEntityAt(ChunkPos, BlockPos),
    Actors(ChunkPos),
    HeightMap(ChunkPos),
    BiomeStorage(ChunkPos),
    MapRecord(Seq<char>, Seq<u8>),
    GlobalRecord(Seq<char>, Seq<u8>),
}

impl View for EditTarget {
    type V = EditTargetView;

    open spec fn view(&self) -> EditTargetView {
        match self {
            EditTarget::HsaChunk(c) => EditTargetView::HsaChunk(*c),
            EditTarget::Player(p) => EditTargetView::Player(
                p.name@,
                match &p.storage_key {
                    Some(k) => Some(k@),
                    None => None,
                },
            ),
            EditTarget::BlockEntities(c) => EditTargetView::BlockEntities(*c),
            EditTarget::BlockEntityAt { chunk, block } => EditTargetView::BlockEntityAt(*chunk, *block),
            EditTarget::Actors(c) => EditTargetView::Actors(*c),
            EditTarget::HeightMap(c) => EditTargetView::HeightMap(*c),
            EditTarget::BiomeStorage(c) => EditTargetView::BiomeStorage(*c),
            EditTarget::MapRecord(m) => EditTargetView::MapRecord(m.name@, m.storage_key@),
            EditTarget::GlobalRecord(g) => EditTargetView::GlobalRecord(g.name@, g.storage_key@),
        }
    }
}

fn bytes_eq(a: &Vec<u8>, b: &Vec<u8>) -> (r: bool)
    ensures
        r == (a@ == b@),
{
    if a.len() != b.len() {
        return false;
    }
    let mut i: usize = 0;
    while i < a.len()
        invariant
            a@.len() == b@.len(),
            i <= a@.len(),
            forall|k: int| 0 <= k < i ==> a@[k] == b@[k],
        decreases a@.len() - i,
    {
        if a[i] != b[i] {
            return false;
        }
        i += 1;
    }
    proof {
        assert(a@ =~= b@);
    }
    true
}

fn opt_bytes_eq(a: &Option<Vec<u8>>, b: &Option<Vec<u8>>) -> (r: bool)
    ensures
        r == (match (a, b) {
            (Some(x), Some(y)) => x@ == y@,
            (None, None) => true,
            _ => false,
        }),
{
    match (a, b) {
        (Some(x), Some(y)) => bytes_eq(x, y),
        (None, None) => true,
        _ => false,
    }
}

impl EditTarget {
    /// Whether two targets name the same record.
    pub fn same_target(&self, other: &EditTarget) -> (r: bool)
        ensures
            r == (self@ == other@),
    {
        match (self, other) {
            (EditTarget::HsaChunk(a), EditTarget::HsaChunk(b)) => *a == *b,
            (EditTarget::Player(a), EditTarget::Player(b)) => a.name == b.name && opt_bytes_eq(
                &a.storage_key,
                &b.storage_key,
            ),
            (EditTarget::BlockEntities(a), EditTarget::BlockEntities(b)) => *a == *b,
            (
                EditTarget::BlockEntityAt { chunk: c1, block: b1 },
                EditTarget::BlockEntityAt { chunk: c2, block: b2 },
            ) => *c1 == *c2 && *b1 == *b2,
            (EditTarget::Actors(a), EditTarget::Actors(b)) => *a == *b,
            (EditTarget::HeightMap(a), EditTarget::HeightMap(b)) => *a == *b,
            (EditTarget::BiomeStorage(a), EditTarget::BiomeStorage(b)) => *a == *b,
            (EditTarget::MapRecord(a), EditTarget::MapRecord(b)) => a.name == b.name && bytes_eq(
                &a.storage_key,
                &b.storage_key,
            ),
            (EditTarget::GlobalRecord(a), EditTarget::GlobalRecord(b)) => a.name == b.name
                && bytes_eq(&a.storage_key, &b.storage_key),
            _ => false,
        }
    }
}

#[derive(Clone, Copy, Debug, PartialEq, Eq, Structural)]
pub enum EditAction {
    Save,
    Delete,
}

pub open spec fn spec_supports_save(t: EditTargetView) -> bool {
    match t {
        EditTargetView::Player(..) | EditTargetView::HsaChunk(_) | EditTargetView::BlockEntities(_)
        | EditTargetView::HeightMap(_) | EditTargetView::BiomeStorage(_) => true,
        _ => false,
    }
}

pub open spec fn spec_supports_delete(t: EditTargetView) -> bool {
    match t {
        EditTargetView::HsaChunk(_) | EditTargetView::BlockEntityAt(..) | EditTargetView::Actors(_)
        | EditTargetView::MapRecord(..) | EditTargetView::GlobalRecord(..) => true,
        _ => false,
    }
}

/// Records whose editor offers a save button.
pub fn supports_editor_save(target: &EditTarget) -> (r: bool)
    ensures
        r == spec_supports_save(target@),
{
    match target {
        EditTarget::Player(_) | EditTarget::HsaChunk(_) | EditTarget::BlockEntities(_)
        | EditTarget::HeightMap(_) | EditTarget::BiomeStorage(_) => true,
        _ => false,
    }
}

/// Records whose editor offers a delete button.
pub fn supports_editor_delete(target: &EditTarget) -> (r: bool)
    ensures
        r == spec_supports_delete(target@),
{
    match target {
        EditTarget::HsaChunk(_) | EditTarget::BlockEntityAt { .. } | EditTarget::Actors(_)
        | EditTarget::MapRecord(_) | EditTarget::GlobalRecord(_) => true,
        _ => false,
    }
}

pub fn edit_action_label(action: EditAction) -> (r: &'static str)
    ensures
        r@ == (match action {
            EditAction::Save => "save"@,
            EditAction::Delete => "delete"@,
        }),
{
    match action {
        EditAction::Save => "save",
        EditAction::Delete => "delete",
    }
}

/// The verb of an edit action in the status line.
pub fn edit_action_verb(action: EditAction) -> (r: &'static str)
    ensures
        r@ == (match action {
            EditAction::Save => "保存"@,
            EditAction::Delete => "删除"@,
        }),
{
    match action {
        EditAction::Save => "保存",
        EditAction::Delete => "删除",
    }
}

/// Whether the editor writes `action` on `target`: saves for the records
/// with a save button, deletes for those with a delete button.
pub open spec fn edit_supported(target: EditTargetView, action: EditAction) -> bool {
    match action {
        EditAction::Save => spec_supports_save(target),
        EditAction::Delete => spec_supports_delete(target),
    }
}

/// The refusal of an edit the editor does not write, before anything is
/// written: "<record> does not support <save|delete> yet"; nothing for a
/// supported edit.
pub fn edit_action_refusal(target: &EditTarget, action: EditAction, operation_label: &str) -> (r: Option<String>)
    ensures
        edit_supported(target@, action) ==> r is None,
        !edit_supported(target@, action) ==> (r matches Some(m) && m@ == operation_label@ + " does not support "@
            + (match action {
            EditAction::Save => "save"@,
            EditAction::Delete => "delete"@,
        }) + " yet"@),
{
    let supported = match action {
        EditAction::Save => supports_editor_save(target),
        EditAction::Delete => supports_editor_delete(target),
    };
    if supported {
        return None;
    }
    let mut text = String::from_str(operation_label);
    text.append(" does not support ");
    text.append(edit_action_label(action));
    text.append(" yet");
    Some(text)
}

/// The refusal of a copy with nothing selected, before the world is read.
pub fn copy_chunks_refusal(chunks: &Vec<ChunkPos>) -> (r: Option<String>)
    ensures
        chunks@.len() == 0 ==> (r matches Some(m) && m@ == "没有可复制的 chunk"@),
        chunks@.len() > 0 ==> r is None,
{
    if chunks.len() == 0 {
        Some(String::from_str("没有可复制的 chunk"))
    } else {
        None
    }
}

/// An edit that waits for a second click.
pub struct PendingEditConfirmation {
    pub target: EditTarget,
    pub action: EditAction,
}

/// What a click on save or delete leads to.
pub enum EditDecision {
    /// Nothing can be saved or deleted: no editable record is open.
    NoRecord,
    /// Writing is switched off.
    WriteModeRequired,
    /// The click armed the edit; a second identical click runs it.
    AwaitingConfirmation,
    /// The edit runs now.
    Run(EditTarget, EditAction),
}

/// The record editor's confirmation state and the status line it writes.
pub struct EditSession {
    pub write_mode: bool,
    pub pending: Option<PendingEditConfirmation>,
    pub status: String,
}

pub open spec fn pending_matches(pending: Option<PendingEditConfirmation>, target: EditTargetView, action: EditAction) -> bool {
    match pending {
        Some(p) => p.target@ == target && p.action == action,
        None => false,
    }
}

/// The status text of an edit: its verb and the record it acts on.
pub open spec fn spec_edit_action_status(action: EditAction, operation_label: Seq<char>) -> Seq<char> {
    (match action {
        EditAction::Save => "保存"@,
        EditAction::Delete => "删除"@,
    }) + " "@ + operation_label
}

pub open spec fn edit_write_mode_required_status() -> Seq<char> {
    "编辑世界记录需要先开启写入模式"@
}

/// The outcome of a save or delete click on `target` (shown under
/// `operation_label`) with `action`, from session `before` to `after`.
pub open spec fn confirm_post(
    before: EditSession,
    after: EditSession,
    target: EditTarget,
    action: EditAction,
    operation_label: Seq<char>,
    d: EditDecision,
) -> bool {
    &&& after.write_mode == before.write_mode
    &&& !before.write_mode ==> (d is WriteModeRequired && after.pending == before.pending
        && after.status@ == edit_write_mode_required_status())
    &&& before.write_mode && pending_matches(before.pending, target@, action) ==> (
        d matches EditDecision::Run(t, a) && t == target && a == action && after.pending is None
        && after.status@ == "正在"@ + spec_edit_action_status(action, operation_label) + "..."@)
    &&& before.write_mode && !pending_matches(before.pending, target@, action) ==> (
        d is AwaitingConfirmation && after.pending == Some(PendingEditConfirmation { target, action })
        && after.status@ == "再次点击以确认 "@ + spec_edit_action_status(action, operation_label))
}

fn edit_status_text(action: EditAction, operation_label: &str) -> (r: String)
    ensures
        r@ == spec_edit_action_status(action, operation_label@),
{
    let mut text = match action {
        EditAction::Save => String::from_str("保存"),
        EditAction::Delete => String::from_str("删除"),
    };
    text.append(" ");
    text.append(operation_label);
    text
}

impl EditSession {
    /// An edit runs on the second consecutive click for the same record and
    /// action; the first click only arms it and asks for the second. Nothing
    /// is armed or run while writing is off. `operation_label` names the
    /// record in the status line.
    pub fn confirm_or_run_edit(&mut self, target: EditTarget, action: EditAction, operation_label: &str) -> (d:
        EditDecision)
        ensures
            confirm_post(*old(self), *final(self), target, action, operation_label@, d),
    {
        if !self.write_mode {
            self.status = String::from_str("编辑世界记录需要先开启写入模式");
            return EditDecision::WriteModeRequired;
        }
        let matches = match &self.pending {
            Some(p) => p.target.same_target(&target) && p.action == action,
            None => false,
        };
        let what = edit_status_text(action, operation_label);
        if !matches {
            self.pending = Some(PendingEditConfirmation { target, action });
            let mut text = String::from_str("再次点击以确认 ");
            text.append(what.as_str());
            self.status = text;
            return EditDecision::AwaitingConfirmation;
        }
        self.pending = None;
        let mut text = String::from_str("正在");
        text.append(what.as_str());
        text.append("...");
        self.status = text;
        EditDecision::Run(target, action)
    }

    /// A save click: without an editable record nothing is armed and the
    /// status says so; otherwise the save is armed or run.
    pub fn request_editor_save(&mut self, target: Option<EditTarget>, operation_label: &str) -> (d: EditDecision)
        ensures
            target is None ==> (d is NoRecord && final(self).pending == old(self).pending
                && final(self).write_mode == old(self).write_mode
                && final(self).status@ == "没有可保存的编辑记录"@),
            target matches Some(t) ==> confirm_post(*old(self), *final(self), t, EditAction::Save, operation_label@, d),
    {
        match target {
            None => {
                self.status = String::from_str("没有可保存的编辑记录");
                EditDecision::NoRecord
            },
            Some(t) => self.confirm_or_run_edit(t, EditAction::Save, operation_label),
        }
    }

    /// A delete click: without an editable record nothing is armed and the
    /// status says so; otherwise the delete is armed or run.
    pub fn request_editor_delete(&mut self, target: Option<EditTarget>, operation_label: &str) -> (d: EditDecision)
        ensures
            target is None ==> (d is NoRecord && final(self).pending == old(self).pending
                && final(self).write_mode == old(self).write_mode
                && final(self).status@ == "没有可删除的编辑记录"@),
            target matches Some(t) ==> confirm_post(*old(self), *final(self), t, EditAction::Delete, operation_label@, d),
    {
        match target {
            None => {
                self.status = String::from_str("没有可删除的编辑记录");
                EditDecision::NoRecord
            },
            Some(t) => self.confirm_or_run_edit(t, EditAction::Delete, operation_label),
        }
    }
}

/// With writing on, two consecutive clicks for the same record and action
/// run the edit at the latest on the second click, and a click whose edit
/// runs leaves nothing armed.
pub proof fn law_second_click_runs(
    s0: EditSession,
    s1: EditSession,
    s2: EditSession,
    t1: EditTarget,
    t2: EditTarget,
    action: EditAction,
    l1: Seq<char>,
    l2: Seq<char>,
    d1: EditDecision,
    d2: EditDecision,
)
    requires
        s0.write_mode,
        t1@ == t2@,
        confirm_post(s0, s1, t1, action, l1, d1),
        confirm_post(s1, s2, t2, action, l2, d2),
    ensures
        d1 is Run || d2 is Run,
        d1 is Run ==> s1.pending is None,
        d2 is Run ==> s2.pending is None,
{
}

/// An edit never runs on a click for another record or action than the one
/// armed: such a click re-arms instead.
pub proof fn law_mismatched_click_rearms(
    s0: EditSession,
    s1: EditSession,
    target: EditTarget,
    action: EditAction,
    label: Seq<char>,
    d: EditDecision,
)
    requires
        s0.write_mode,
        s0.pending matches Some(p) && (p.target@ != target@ || p.action != action),
        confirm_post(s0, s1, target, action, label, d),
    ensures
        d is AwaitingConfirmation,
        s1.pending == Some(PendingEditConfirmation { target, action }),
{
}

/// Nothing is armed or run while writing is off.
pub proof fn law_write_mode_gates_edits(
    s0: EditSession,
    s1: EditSession,
    target: EditTarget,
    action: EditAction,
    label: Seq<char>,
    d: EditDecision,
)
    requires
        !s0.write_mode,
        confirm_post(s0, s1, target, action, label, d),
    ensures
        d is WriteModeRequired,
        s1.pending == s0.pending,
{
}

/// A one-click write on the map.
#[derive(Clone, Copy, Debug, PartialEq, Eq, Structural)]
pub enum QuickWriteAction {
    DeleteCurrentChunk(ChunkPos),
    ResetCurrentChunk(ChunkPos),
    DeleteCurrentChunkBlockEntities(ChunkPos),
    DeleteCurrentChunkActors(ChunkPos),
    PasteCopiedChunk { source: ChunkPos, target: ChunkPos, transform: PasteTransform },
    PasteCopiedChunks {
        source_anchor: ChunkPos,
        target_anchor: ChunkPos,
        chunk_count: usize,
        transform: PasteTransform,
    },
    PasteImportedStructure {
        source_anchor: ChunkPos,
        target_anchor: ChunkPos,
        chunk_count: usize,
        transform: PasteTransform,
    },
}

impl QuickWriteAction {
    pub open spec fn spec_is_paste(&self) -> bool {
        match self {
            QuickWriteAction::PasteCopiedChunk { .. } | QuickWriteAction::PasteCopiedChunks { .. }
            | QuickWriteAction::PasteImportedStructure { .. } => true,
            _ => false,
        }
    }

    /// Pastes are allowed without write mode; they are confirmed on the
    /// canvas.
    pub fn is_paste(&self) -> (r: bool)
        ensures
            r == self.spec_is_paste(),
    {
        match self {
            QuickWriteAction::PasteCopiedChunk { .. } | QuickWriteAction::PasteCopiedChunks { .. }
            | QuickWriteAction::PasteImportedStructure { .. } => true,
            _ => false,
        }
    }
}

pub open spec fn spec_task_stage(action: QuickWriteAction) -> Seq<char> {
    match action {
        QuickWriteAction::PasteCopiedChunk { .. } | QuickWriteAction::PasteCopiedChunks { .. }
        | QuickWriteAction::PasteImportedStructure { .. } => "map_paste"@,
        QuickWriteAction::DeleteCurrentChunk(_) | QuickWriteAction::DeleteCurrentChunkBlockEntities(_)
        | QuickWriteAction::DeleteCurrentChunkActors(_) => "map_delete"@,
        QuickWriteAction::ResetCurrentChunk(_) => "map_write"@,
    }
}

/// The background-task stage a quick write reports under.
pub fn quick_write_task_stage(action: &QuickWriteAction) -> (r: &'static str)
    ensures
        r@ == spec_task_stage(*action),
{
    match action {
        QuickWriteAction::PasteCopiedChunk { .. } | QuickWriteAction::PasteCopiedChunks { .. }
        | QuickWriteAction::PasteImportedStructure { .. } => "map_paste",
        QuickWriteAction::DeleteCurrentChunk(_) | QuickWriteAction::DeleteCurrentChunkBlockEntities(_)
        | QuickWriteAction::DeleteCurrentChunkActors(_) => "map_delete",
        QuickWriteAction::ResetCurrentChunk(_) => "map_write",
    }
}

/// The anchors and transform of a paste action.
pub open spec fn paste_parts(action: QuickWriteAction) -> Option<(ChunkPos, ChunkPos, PasteTransform)> {
    match action {
        QuickWriteAction::PasteCopiedChunks { source_anchor, target_anchor, transform, .. } => Some(
            (source_anchor, target_anchor, transform),
        ),
        QuickWriteAction::PasteImportedStructure { source_anchor, target_anchor, transform, .. } => Some(
            (source_anchor, target_anchor, transform),
        ),
        QuickWriteAction::PasteCopiedChunk { source, target, transform } => Some((source, target, transform)),
        _ => None,
    }
}

/// The preview drawn for an armed paste: where it goes and which chunks it
/// writes.
pub struct PastePreview {
    pub source_anchor: ChunkPos,
    pub target_anchor: ChunkPos,
    pub transform: PasteTransform,
    pub targets: Vec<ChunkPos>,
}

/// A paste preview as its anchors, transform and target chunks.
pub open spec fn preview_view(p: Option<PastePreview>) -> Option<(ChunkPos, ChunkPos, PasteTransform, Seq<ChunkPos>)> {
    match p {
        Some(p) => Some((p.source_anchor, p.target_anchor, p.transform, p.targets@)),
        None => None,
    }
}

/// The preview of a paste action over the copied chunks: the action's
/// anchors and transform, and where each copied chunk lands. Nothing for
/// other actions or when nothing is copied.
pub open spec fn spec_paste_preview(action: QuickWriteAction, copied: Option<Seq<ChunkPos>>) -> Option<
    (ChunkPos, ChunkPos, PasteTransform, Seq<ChunkPos>),
> {
    match (paste_parts(action), copied) {
        (Some((s, t, tf)), Some(c)) => Some(
            (s, t, tf, Seq::new(c.len(), |i: int| spec_pasted_target(c[i], s, t, tf))),
        ),
        _ => None,
    }
}

pub open spec fn opt_chunks_view(copied: Option<&Vec<ChunkPos>>) -> Option<Seq<ChunkPos>> {
    match copied {
        Some(c) => Some(c@),
        None => None,
    }
}

/// The preview of a paste action over the copied chunks; nothing for other
/// actions or when nothing is copied.
pub fn paste_preview_for_action(action: &QuickWriteAction, copied_chunks: Option<&Vec<ChunkPos>>) -> (r:
    Option<PastePreview>)
    ensures
        preview_view(r) == spec_paste_preview(*action, opt_chunks_view(copied_chunks)),
{
    let (source_anchor, target_anchor, transform) = match *action {
        QuickWriteAction::PasteCopiedChunks { source_anchor, target_anchor, transform, .. } => (
            source_anchor,
            target_anchor,
            transform,
        ),
        QuickWriteAction::PasteImportedStructure { source_anchor, target_anchor, transform, .. } => (
            source_anchor,
            target_anchor,
            transform,
        ),
        QuickWriteAction::PasteCopiedChunk { source, target, transform } => (source, target, transform),
        _ => return None,
    };
    let copied = match copied_chunks {
        Some(c) => c,
        None => return None,
    };
    let targets = pasted_chunk_targets(copied, source_anchor, target_anchor, transform);
    proof {
        assert(targets@ =~= Seq::new(
            copied@.len(),
            |i: int| spec_pasted_target(copied@[i], source_anchor, target_anchor, transform),
        ));
    }
    Some(PastePreview { source_anchor, target_anchor, transform, targets })
}

/// What a quick-write click leads to.
pub enum QuickWriteDecision {
    /// Writing is off and the action is not a paste.
    WriteModeRequired,
    /// The click armed the action and shows its paste preview, if any.
    Armed,
    /// The action runs now.
    Run(QuickWriteAction),
}

/// Confirmation state of the one-click writes, with the paste preview drawn
/// on the map, whether a context menu is open, and the status line.
pub struct QuickWriteSession {
    pub write_mode: bool,
    pub pending: Option<QuickWriteAction>,
    pub paste_preview: Option<PastePreview>,
    pub context_menu_open: bool,
    pub status: String,
}

pub open spec fn quick_write_mode_required_status() -> Seq<char> {
    "快捷写入需要先开启写入模式"@
}

pub open spec fn quick_write_confirm_status(label: Seq<char>) -> Seq<char> {
    "再次点击以确认 "@ + label + " · 写入后会刷新对应瓦片"@
}

pub open spec fn quick_write_running_status(label: Seq<char>) -> Seq<char> {
    "正在"@ + label + "..."@
}

impl QuickWriteSession {
    /// Quick writes run on the second consecutive click for the same action;
    /// the first click arms it, previews a paste and asks for the second
    /// click. Running clears the armed action, the preview and any open
    /// context menu. Only pastes are allowed while writing is off.
    /// `action_label` names the action in the status line.
    pub fn run_quick_write_action(
        &mut self,
        action: QuickWriteAction,
        action_label: &str,
        copied_chunks: Option<&Vec<ChunkPos>>,
    ) -> (d: QuickWriteDecision)
        ensures
            final(self).write_mode == old(self).write_mode,
            !old(self).write_mode && !action.spec_is_paste() ==> (d is WriteModeRequired
                && final(self).pending == old(self).pending
                && preview_view(final(self).paste_preview) == preview_view(old(self).paste_preview)
                && final(self).context_menu_open == old(self).context_menu_open
                && final(self).status@ == quick_write_mode_required_status()),
            (old(self).write_mode || action.spec_is_paste()) && old(self).pending == Some(action) ==> (
                d == QuickWriteDecision::Run(action) && final(self).pending is None
                && final(self).paste_preview is None && !final(self).context_menu_open
                && final(self).status@ == quick_write_running_status(action_label@)),
            (old(self).write_mode || action.spec_is_paste()) && old(self).pending != Some(action) ==> (
                d is Armed && final(self).pending == Some(action)
                && preview_view(final(self).paste_preview) == spec_paste_preview(action, opt_chunks_view(copied_chunks))
                && final(self).context_menu_open == old(self).context_menu_open
                && final(self).status@ == quick_write_confirm_status(action_label@)),
    {
        if !self.write_mode && !action.is_paste() {
            self.status = String::from_str("快捷写入需要先开启写入模式");
            return QuickWriteDecision::WriteModeRequired;
        }
        let pending_matches = match self.pending {
            Some(p) => p == action,
            None => false,
        };
        if !pending_matches {
            self.pending = Some(action);
            self.paste_preview = paste_preview_for_action(&action, copied_chunks);
            let mut text = String::from_str("再次点击以确认 ");
            text.append(action_label);
            text.append(" · 写入后会刷新对应瓦片");
            self.status = text;
            return QuickWriteDecision::Armed;
        }
        self.pending = None;
        self.paste_preview = None;
        self.context_menu_open = false;
        let mut text = String::from_str("正在");
        text.append(action_label);
        text.append("...");
        self.status = text;
        QuickWriteDecision::Run(action)
    }
}

/// The kind of a map history entry.
#[derive(Clone, Copy, Debug, PartialEq, Eq, Structural)]
pub enum MapHistoryEntryKind {
    ChunkDelete,
    ChunkReset,
    ChunkPaste,
    RecordSave,
    RecordDelete,
}

/// What a history capture saves before a write: the entry's kind and
/// label, the chunks (ascending, each once), the raw database keys, and
/// whether `level.dat` is saved too.
pub struct HistoryCaptureScope {
    pub kind: MapHistoryEntryKind,
    pub label: String,
    pub chunks: Vec<ChunkPos>,
    pub raw_keys: Vec<Vec<u8>>,
    pub include_level_dat: bool,
}

fn sorted_chunk_set(chunks: &Vec<ChunkPos>) -> (r: Vec<ChunkPos>)
    ensures
        chunks_sorted(r@),
        r@.to_set() == chunks@.to_set(),
{
    let mut out: Vec<ChunkPos> = Vec::new();
    let mut i: usize = 0;
    proof {
        assert(out@.to_set() =~= chunks@.subrange(0, 0).to_set());
    }
    while i < chunks.len()
        invariant
            i <= chunks@.len(),
            chunks_sorted(out@),
            out@.to_set() == chunks@.subrange(0, i as int).to_set(),
        decreases chunks@.len() - i,
    {
        insert_chunk(&mut out, chunks[i]);
        proof {
            let prev = chunks@.subrange(0, i as int);
            assert(chunks@.subrange(0, i + 1) =~= prev.push(chunks@[i as int]));
            prev.lemma_push_to_set_commute(chunks@[i as int]);
        }
        i += 1;
    }
    proof {
        assert(chunks@.subrange(0, chunks@.len() as int) =~= chunks@);
    }
    out
}

fn single_chunk(c: ChunkPos) -> (r: Vec<ChunkPos>)
    ensures
        r@ == seq![c],
        chunks_sorted(r@),
{
    let mut v: Vec<ChunkPos> = Vec::new();
    v.push(c);
    v
}

/// The history capture of a quick write: the chunk it changes, or every
/// chunk a paste writes. A paste of copied chunks needs the copy, and a
/// structure paste needs the structure's target chunks. The entry carries
/// the action's label and leaves `level.dat` out.
pub fn quick_write_history_spec(
    action: &QuickWriteAction,
    action_label: &str,
    copied_chunks: Option<&Vec<ChunkPos>>,
    imported_structure_targets: Option<&Vec<ChunkPos>>,
) -> (r: Result<HistoryCaptureScope, String>)
    ensures
        r matches Ok(s) ==> s.label@ == action_label@ && !s.include_level_dat,
        match *action {
            QuickWriteAction::DeleteCurrentChunk(c) => r matches Ok(s) && s.kind == MapHistoryEntryKind::ChunkDelete && s.chunks@ == seq![c] && s.raw_keys@.len() == 0,
            QuickWriteAction::ResetCurrentChunk(c) => r matches Ok(s) && s.kind == MapHistoryEntryKind::ChunkReset && s.chunks@ == seq![c] && s.raw_keys@.len() == 0,
            QuickWriteAction::DeleteCurrentChunkBlockEntities(c) => r matches Ok(s) && s.kind == MapHistoryEntryKind::RecordDelete && s.chunks@ == seq![c] && s.raw_keys@.len() == 0,
            QuickWriteAction::DeleteCurrentChunkActors(c) => r matches Ok(s) && s.kind == MapHistoryEntryKind::RecordDelete && s.chunks@ == seq![c] && s.raw_keys@.len() == 0,
            QuickWriteAction::PasteCopiedChunk { target, .. } => r matches Ok(s) && s.kind == MapHistoryEntryKind::ChunkPaste && s.chunks@ == seq![target] && s.raw_keys@.len() == 0,
            QuickWriteAction::PasteCopiedChunks { source_anchor, target_anchor, transform, .. } => match copied_chunks {
                None => r matches Err(e) && e@ == "没有可粘贴的区块副本"@,
                Some(copied) => r matches Ok(s) && s.kind == MapHistoryEntryKind::ChunkPaste && s.raw_keys@.len() == 0
                    && chunks_sorted(s.chunks@)
                    && forall|c: ChunkPos| #[trigger] s.chunks@.contains(c) <==> exists|i: int| 0 <= i < copied@.len()
                        && spec_pasted_target(copied@[i], source_anchor, target_anchor, transform) == c,
            },
            QuickWriteAction::PasteImportedStructure { .. } => match imported_structure_targets {
                None => r matches Err(e) && e@ == "没有可粘贴的结构文件"@,
                Some(targets) => r matches Ok(s) && s.kind == MapHistoryEntryKind::ChunkPaste && s.raw_keys@.len() == 0
                    && chunks_sorted(s.chunks@) && s.chunks@.to_set() == targets@.to_set(),
            },
        },
{
    match *action {
        QuickWriteAction::DeleteCurrentChunk(c) => Ok(HistoryCaptureScope { kind: MapHistoryEntryKind::ChunkDelete, label: String::from_str(action_label), chunks: single_chunk(c), raw_keys: Vec::new(), include_level_dat: false }),
        QuickWriteAction::ResetCurrentChunk(c) => Ok(HistoryCaptureScope { kind: MapHistoryEntryKind::ChunkReset, label: String::from_str(action_label), chunks: single_chunk(c), raw_keys: Vec::new(), include_level_dat: false }),
        QuickWriteAction::DeleteCurrentChunkBlockEntities(c) | QuickWriteAction::DeleteCurrentChunkActors(c) => Ok(HistoryCaptureScope { kind: MapHistoryEntryKind::RecordDelete, label: String::from_str(action_label), chunks: single_chunk(c), raw_keys: Vec::new(), include_level_dat: false }),
        QuickWriteAction::PasteCopiedChunk { target, .. } => Ok(HistoryCaptureScope { kind: MapHistoryEntryKind::ChunkPaste, label: String::from_str(action_label), chunks: single_chunk(target), raw_keys: Vec::new(), include_level_dat: false }),
        QuickWriteAction::PasteCopiedChunks { source_anchor, target_anchor, transform, .. } => {
            let copied = match copied_chunks {
                Some(c) => c,
                None => return Err(String::from_str("没有可粘贴的区块副本")),
            };
            let targets = pasted_chunk_targets(copied, source_anchor, target_anchor, transform);
            let chunks = sorted_chunk_set(&targets);
            proof {
                assert forall|c: ChunkPos| #[trigger] chunks@.contains(c) <==> exists|i: int| 0 <= i < copied@.len()
                    && spec_pasted_target(copied@[i], source_anchor, target_anchor, transform) == c by {
                    assert(chunks@.to_set().contains(c) == chunks@.contains(c));
                    assert(targets@.to_set().contains(c) == targets@.contains(c));
                    if targets@.contains(c) {
                        let i = choose|i: int| 0 <= i < targets@.len() && targets@[i] == c;
                        assert(spec_pasted_target(copied@[i], source_anchor, target_anchor, transform) == c);
                    }
                    if exists|i: int| 0 <= i < copied@.len() && spec_pasted_target(copied@[i], source_anchor, target_anchor, transform) == c {
                        let i = choose|i: int| 0 <= i < copied@.len() && spec_pasted_target(copied@[i], source_anchor, target_anchor, transform) == c;
                        assert(targets@[i] == c);
                    }
                }
            }
            Ok(HistoryCaptureScope { kind: MapHistoryEntryKind::ChunkPaste, label: String::from_str(action_label), chunks, raw_keys: Vec::new(), include_level_dat: false })
        },
        QuickWriteAction::PasteImportedStructure { .. } => {
            let targets = match imported_structure_targets {
                Some(t) => t,
                None => return Err(String::from_str("没有可粘贴的结构文件")),
            };
            Ok(HistoryCaptureScope { kind: MapHistoryEntryKind::ChunkPaste, label: String::from_str(action_label), chunks: sorted_chunk_set(targets), raw_keys: Vec::new(), include_level_dat: false })
        },
    }
}

fn copy_bytes(v: &Vec<u8>) -> (r: Vec<u8>)
    ensures
        r@ == v@,
{
    let mut out: Vec<u8> = Vec::new();
    let mut i: usize = 0;
    while i < v.len()
        invariant
            i <= v@.len(),
            out@ == v@.subrange(0, i as int),
        decreases v@.len() - i,
    {
        out.push(v[i]);
        i += 1;
        proof {
            assert(out@ =~= v@.subrange(0, i as int));
        }
    }
    proof {
        assert(out@ =~= v@);
    }
    out
}

/// The chunk a chunk-bound record target belongs to.
pub open spec fn target_chunk(t: EditTargetView) -> Option<ChunkPos> {
    match t {
        EditTargetView::HsaChunk(c) | EditTargetView::BlockEntities(c) | EditTargetView::Actors(c)
        | EditTargetView::HeightMap(c) | EditTargetView::BiomeStorage(c) => Some(c),
        EditTargetView::BlockEntityAt(c, _) => Some(c),
        _ => None,
    }
}

/// The database key of a keyed record target (a player without a key has
/// none).
pub open spec fn target_key(t: EditTargetView) -> Option<Seq<u8>> {
    match t {
        EditTargetView::MapRecord(_, k) | EditTargetView::GlobalRecord(_, k) => Some(k),
        EditTargetView::Player(_, k) => k,
        _ => None,
    }
}

/// The history capture of a record edit: the record's chunk, or its
/// database key. A player record without a key cannot be captured. The
/// entry is labelled with the edit's status text (the record shown under
/// `operation_label`) and leaves `level.dat` out.
pub fn edit_history_spec(target: &EditTarget, action: EditAction, operation_label: &str) -> (r: Result<
    HistoryCaptureScope,
    String,
>)
    ensures
        r matches Ok(s) ==> s.label@ == spec_edit_action_status(action, operation_label@) && !s.include_level_dat,
        (target@ matches EditTargetView::Player(_, None)) ==> (r matches Err(e) && e@ == "玩家记录没有 LevelDB key"@),
        !(target@ matches EditTargetView::Player(_, None)) ==> (r matches Ok(s)
            && s.kind == (match action {
                EditAction::Save => MapHistoryEntryKind::RecordSave,
                EditAction::Delete => MapHistoryEntryKind::RecordDelete,
            })
            && (match target_chunk(target@) {
                Some(c) => s.chunks@ == seq![c],
                None => s.chunks@.len() == 0,
            })
            && (match target_key(target@) {
                Some(k) => s.raw_keys@.len() == 1 && s.raw_keys@[0]@ == k,
                None => s.raw_keys@.len() == 0,
            })),
{
    let kind = match action {
        EditAction::Save => MapHistoryEntryKind::RecordSave,
        EditAction::Delete => MapHistoryEntryKind::RecordDelete,
    };
    let mut chunks: Vec<ChunkPos> = Vec::new();
    let mut raw_keys: Vec<Vec<u8>> = Vec::new();
    match target {
        EditTarget::MapRecord(id) => {
            raw_keys.push(copy_bytes(&id.storage_key));
        },
        EditTarget::GlobalRecord(id) => {
            raw_keys.push(copy_bytes(&id.storage_key));
        },
        EditTarget::Player(id) => {
            match &id.storage_key {
                None => return Err(String::from_str("玩家记录没有 LevelDB key")),
                Some(key) => raw_keys.push(copy_bytes(key)),
            }
        },
        EditTarget::HsaChunk(c) | EditTarget::BlockEntities(c) | EditTarget::Actors(c)
        | EditTarget::HeightMap(c) | EditTarget::BiomeStorage(c) => {
            chunks.push(*c);
        },
        EditTarget::BlockEntityAt { chunk, .. } => {
            chunks.push(*chunk);
        },
    }
    Ok(HistoryCaptureScope {
        kind,
        label: edit_status_text(action, operation_label),
        chunks,
        raw_keys,
        include_level_dat: false,
    })
}

} // verus!
