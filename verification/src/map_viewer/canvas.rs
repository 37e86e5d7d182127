use crate::text::{chars_of, seq_contains, vec_contains};
use vstd::prelude::*;

verus! {

/// Consecutive frames with unavailable paint resources after which the map
/// reports that the failure is sustained.
pub const SUSTAINED_PAINT_RESOURCE_FAILURE_LIMIT: usize = 240;

pub const MAP_TILE_INTERACTION_NEW_IMAGE_BUDGET_PER_FRAME: usize = 16;

pub const MAP_TILE_IDLE_NEW_IMAGE_BUDGET_PER_FRAME: usize = 8;

/// Block columns per chunk side in the history visualisation.
pub const HISTORY_VISUAL_COLUMN_SIDE: usize = 16;

/// How many new tile images may be uploaded in one frame.
pub fn map_tile_new_image_budget(viewport_interacting: bool) -> (r: usize)
    ensures
        r == (if viewport_interacting {
            MAP_TILE_INTERACTION_NEW_IMAGE_BUDGET_PER_FRAME
        } else {
            MAP_TILE_IDLE_NEW_IMAGE_BUDGET_PER_FRAME
        }),
{
    if viewport_interacting {
        MAP_TILE_INTERACTION_NEW_IMAGE_BUDGET_PER_FRAME
    } else {
        MAP_TILE_IDLE_NEW_IMAGE_BUDGET_PER_FRAME
    }
}

/// A paint error names unavailable graphics resources when its message
/// mentions an unavailable resource or the descriptor heap.
pub open spec fn names_unavailable_resource(message: Seq<char>) -> bool {
    seq_contains(message, "graphics resource is unavailable"@) || seq_contains(message, "descriptor heap"@)
        || seq_contains(message, "resource is unavailable"@)
}

pub fn is_paint_resource_unavailable_message(message: &str) -> (r: bool)
    ensures
        r == names_unavailable_resource(message@),
{
    let chars = chars_of(message);
    let a = chars_of("graphics resource is unavailable");
    let b = chars_of("descriptor heap");
    let c = chars_of("resource is unavailable");
    vec_contains(&chars, &a) || vec_contains(&chars, &b) || vec_contains(&chars, &c)
}

/// How a paint error is reported.
#[derive(Clone, Copy, Debug, PartialEq, Eq, Structural)]
pub enum PaintErrorReport {
    /// Resources became unavailable with this error.
    ResourcesUnavailable,
    /// Resources were already marked unavailable.
    ResourcesStillUnavailable,
    /// Any other paint error.
    Other,
}

/// One frame's take of the flag, from monitor `before` to `after` with
/// report `r`: the flag is cleared; a frame without it resets the streak; a
/// frame with it extends the streak, and the frame that brings the streak to
/// the limit reports and starts over.
pub open spec fn take_post(before: PaintResourceMonitor, after: PaintResourceMonitor, r: bool) -> bool {
    &&& after.wf()
    &&& !after.unavailable
    &&& !before.unavailable ==> !r && after.failure_streak == 0
    &&& before.unavailable ==> {
        &&& r == (before.failure_streak + 1 >= SUSTAINED_PAINT_RESOURCE_FAILURE_LIMIT)
        &&& after.failure_streak == (if r { 0 } else { before.failure_streak + 1 })
    }
}

/// Tracks whether painting map tiles lacks graphics resources, and for how
/// many consecutive frames.
pub struct PaintResourceMonitor {
    pub unavailable: bool,
    pub failure_streak: usize,
}

impl PaintResourceMonitor {
    pub open spec fn wf(&self) -> bool {
        self.failure_streak < SUSTAINED_PAINT_RESOURCE_FAILURE_LIMIT
    }

    pub fn new() -> (r: Self)
        ensures
            r.wf(),
            !r.unavailable,
            r.failure_streak == 0,
    {
        PaintResourceMonitor { unavailable: false, failure_streak: 0 }
    }

    /// Whether the last paint error left resources unavailable.
    pub fn map_tile_paint_resources_unavailable(&self) -> (r: bool)
        ensures
            r == self.unavailable,
    {
        self.unavailable
    }

    /// Records a paint error: one that names unavailable resources sets the
    /// flag; the report says whether the flag was newly set.
    pub fn record_map_tile_paint_error(&mut self, message: &str) -> (r: PaintErrorReport)
        ensures
            final(self).failure_streak == old(self).failure_streak,
            names_unavailable_resource(message@) ==> final(self).unavailable && r == (if old(self).unavailable {
                PaintErrorReport::ResourcesStillUnavailable
            } else {
                PaintErrorReport::ResourcesUnavailable
            }),
            !names_unavailable_resource(message@) ==> final(self).unavailable == old(self).unavailable && r
                == PaintErrorReport::Other,
    {
        if is_paint_resource_unavailable_message(message) {
            let was = self.unavailable;
            self.unavailable = true;
            if was {
                PaintErrorReport::ResourcesStillUnavailable
            } else {
                PaintErrorReport::ResourcesUnavailable
            }
        } else {
            PaintErrorReport::Other
        }
    }

    /// Clears the flag once per frame. A frame without it resets the streak;
    /// a frame with it extends the streak, and the frame that brings the
    /// streak to the limit reports sustained unavailability and starts over.
    pub fn take_map_tile_paint_resources_unavailable(&mut self) -> (r: bool)
        requires
            old(self).wf(),
        ensures
            take_post(*old(self), *final(self), r),
    {
        let was = self.unavailable;
        self.unavailable = false;
        if !was {
            self.failure_streak = 0;
            return false;
        }
        let streak = self.failure_streak + 1;
        if streak < SUSTAINED_PAINT_RESOURCE_FAILURE_LIMIT {
            self.failure_streak = streak;
            return false;
        }
        self.failure_streak = 0;
        true
    }
}

proof fn lemma_failing_run(before: Seq<PaintResourceMonitor>, after: Seq<PaintResourceMonitor>, reports: Seq<bool>, n: int)
    requires
        0 <= n <= before.len(),
        before.len() == after.len() == reports.len(),
        before.len() > 0 ==> before[0].failure_streak == 0,
        forall|i: int| 0 <= i < before.len() ==> #[trigger] before[i].unavailable,
        forall|i: int| 0 <= i < before.len() ==> take_post(before[i], after[i], #[trigger] reports[i]),
        forall|i: int| 0 <= i < before.len() - 1 ==> #[trigger] before[i + 1].failure_streak == after[i].failure_streak,
    ensures
        forall|i: int| 0 <= i < n ==> #[trigger] reports[i] == ((i + 1) % (SUSTAINED_PAINT_RESOURCE_FAILURE_LIMIT as int) == 0)
            && after[i].failure_streak == (i + 1) % (SUSTAINED_PAINT_RESOURCE_FAILURE_LIMIT as int),
    decreases n,
{
    if n > 0 {
        lemma_failing_run(before, after, reports, n - 1);
        let i = n - 1;
        let lim = SUSTAINED_PAINT_RESOURCE_FAILURE_LIMIT as int;
        assert(before[i].unavailable);
        assert(take_post(before[i], after[i], reports[i]));
        if i == 0 {
            assert(before[0].failure_streak == 0);
        } else {
            assert(before[(i - 1) + 1].failure_streak == after[i - 1].failure_streak);
            assert(reports[i - 1] == (i % lim == 0));
            assert(before[i].failure_streak == i % lim);
        }
        assert(before[i].failure_streak == i % lim);
        assert((i + 1) % lim == (if i % lim + 1 == lim { 0 } else { i % lim + 1 })) by {
            vstd::arithmetic::div_mod::lemma_add_mod_noop(i, 1, lim);
        }
    }
}

/// Over a run of frames that each find the flag set, starting with no
/// streak, exactly every limit-th frame reports sustained unavailability
/// (the 240th, the 480th, ...), and the streak restarts after each report.
/// Between two frames the streak is carried over unchanged, as recording
/// paint errors leaves it.
pub proof fn law_every_limit_th_failing_frame_reports(
    before: Seq<PaintResourceMonitor>,
    after: Seq<PaintResourceMonitor>,
    reports: Seq<bool>,
)
    requires
        before.len() == after.len() == reports.len(),
        before.len() > 0 ==> before[0].failure_streak == 0,
        forall|i: int| 0 <= i < before.len() ==> #[trigger] before[i].unavailable,
        forall|i: int| 0 <= i < before.len() ==> take_post(before[i], after[i], #[trigger] reports[i]),
        forall|i: int| 0 <= i < before.len() - 1 ==> #[trigger] before[i + 1].failure_streak == after[i].failure_streak,
    ensures
        forall|i: int| 0 <= i < reports.len() ==> #[trigger] reports[i] == ((i + 1) % (SUSTAINED_PAINT_RESOURCE_FAILURE_LIMIT as int) == 0),
        forall|i: int| 0 <= i < after.len() ==> #[trigger] after[i].failure_streak == (i + 1) % (SUSTAINED_PAINT_RESOURCE_FAILURE_LIMIT as int),
{
    lemma_failing_run(before, after, reports, before.len() as int);
    assert forall|i: int| 0 <= i < after.len() implies #[trigger] after[i].failure_streak == (i + 1) % (SUSTAINED_PAINT_RESOURCE_FAILURE_LIMIT as int) by {
        assert(reports[i] == ((i + 1) % (SUSTAINED_PAINT_RESOURCE_FAILURE_LIMIT as int) == 0));
    }
}

/// The stable canvas asks for the sustained report itself on every frame and
/// reports only when that report has come on the limit's number of
/// consecutive frames.
pub struct StablePaintResourceMonitor {
    pub inner: PaintResourceMonitor,
    pub failure_streak: usize,
}

impl StablePaintResourceMonitor {
    pub open spec fn wf(&self) -> bool {
        &&& self.inner.wf()
        &&& self.failure_streak < SUSTAINED_PAINT_RESOURCE_FAILURE_LIMIT
    }

    pub fn new() -> (r: Self)
        ensures
            r.wf(),
            !r.inner.unavailable,
            r.inner.failure_streak == 0,
            r.failure_streak == 0,
    {
        StablePaintResourceMonitor { inner: PaintResourceMonitor::new(), failure_streak: 0 }
    }

    pub fn take_map_tile_paint_resources_unavailable(&mut self) -> (r: bool)
        requires
            old(self).wf(),
        ensures
            final(self).wf(),
            !final(self).inner.unavailable,
            ({
                let inner_sustained = old(self).inner.unavailable && old(self).inner.failure_streak + 1
                    >= SUSTAINED_PAINT_RESOURCE_FAILURE_LIMIT;
                &&& final(self).inner.failure_streak == (if !old(self).inner.unavailable || inner_sustained {
                    0
                } else {
                    old(self).inner.failure_streak + 1
                })
                &&& !inner_sustained ==> !r && final(self).failure_streak == 0
                &&& inner_sustained ==> {
                    &&& r == (old(self).failure_streak + 1 >= SUSTAINED_PAINT_RESOURCE_FAILURE_LIMIT)
                    &&& final(self).failure_streak == (if r { 0 } else { old(self).failure_streak + 1 })
                }
            }),
    {
        if !self.inner.take_map_tile_paint_resources_unavailable() {
            self.failure_streak = 0;
            return false;
        }
        let streak = self.failure_streak + 1;
        if streak < SUSTAINED_PAINT_RESOURCE_FAILURE_LIMIT {
            self.failure_streak = streak;
            return false;
        }
        self.failure_streak = 0;
        true
    }
}

/// Edges and corners of a selection that can be dragged.
#[derive(Clone, Copy, Debug, PartialEq, Eq, Structural)]
pub enum SelectionResizeHandle {
    North,
    South,
    East,
    West,
    NorthWest,
    NorthEast,
    SouthWest,
    SouthEast,
}

/// What the pointer is over, relative to the current selection.
#[derive(Clone, Copy, Debug, PartialEq, Eq, Structural)]
pub enum ExistingSelectionTarget {
    Outside,
    Inside,
    Resize(SelectionResizeHandle),
}

/// The pointer shapes the map canvas uses.
#[derive(Clone, Copy, Debug, PartialEq, Eq, Structural)]
pub enum MapCursorStyle {
    Arrow,
    ClosedHand,
    OpenHand,
    ResizeUpDown,
    ResizeLeftRight,
    ResizeUpLeftDownRight,
    ResizeUpRightDownLeft,
}

pub open spec fn spec_selection_cursor(target: ExistingSelectionTarget, moving: bool) -> MapCursorStyle {
    match target {
        ExistingSelectionTarget::Outside => MapCursorStyle::Arrow,
        ExistingSelectionTarget::Inside => if moving {
            MapCursorStyle::ClosedHand
        } else {
            MapCursorStyle::OpenHand
        },
        ExistingSelectionTarget::Resize(handle) => match handle {
            SelectionResizeHandle::North | SelectionResizeHandle::South => MapCursorStyle::ResizeUpDown,
            SelectionResizeHandle::East | SelectionResizeHandle::West => MapCursorStyle::ResizeLeftRight,
            SelectionResizeHandle::NorthWest | SelectionResizeHandle::SouthEast => MapCursorStyle::ResizeUpLeftDownRight,
            SelectionResizeHandle::NorthEast | SelectionResizeHandle::SouthWest => MapCursorStyle::ResizeUpRightDownLeft,
        },
    }
}

/// The pointer shape over a selection target: an arrow outside, a hand
/// inside (closed while moving), and a resize arrow along the handle's axis.
pub fn selection_cursor_for_target(target: ExistingSelectionTarget, moving: bool) -> (r: MapCursorStyle)
    ensures
        r == spec_selection_cursor(target, moving),
{
    match target {
        ExistingSelectionTarget::Outside => MapCursorStyle::Arrow,
        ExistingSelectionTarget::Inside => if moving {
            MapCursorStyle::ClosedHand
        } else {
            MapCursorStyle::OpenHand
        },
        ExistingSelectionTarget::Resize(handle) => match handle {
            SelectionResizeHandle::North | SelectionResizeHandle::South => MapCursorStyle::ResizeUpDown,
            SelectionResizeHandle::East | SelectionResizeHandle::West => MapCursorStyle::ResizeLeftRight,
            SelectionResizeHandle::NorthWest | SelectionResizeHandle::SouthEast => MapCursorStyle::ResizeUpLeftDownRight,
            SelectionResizeHandle::NorthEast | SelectionResizeHandle::SouthWest => MapCursorStyle::ResizeUpRightDownLeft,
        },
    }
}


/// Added, removed and modified block counts of one block column.
pub type HistoryColumnCounts = (u32, u32, u32);

/// The counts of column `index` of a chunk's history visual, zero past the
/// last column.
pub open spec fn column_counts_at(columns: Seq<HistoryColumnCounts>, index: int) -> (int, int, int) {
    if 0 <= index < columns.len() {
        (columns[index].0 as int, columns[index].1 as int, columns[index].2 as int)
    } else {
        (0, 0, 0)
    }
}

pub open spec fn add3(a: (int, int, int), b: (int, int, int)) -> (int, int, int) {
    (a.0 + b.0, a.1 + b.1, a.2 + b.2)
}

/// Counts of columns `x0 .. x0 + n` of block row `z`.
pub open spec fn row_counts(columns: Seq<HistoryColumnCounts>, z: int, x0: int, n: nat) -> (int, int, int)
    decreases n,
{
    if n == 0 {
        (0, 0, 0)
    } else {
        add3(
            row_counts(columns, z, x0, (n - 1) as nat),
            column_counts_at(columns, z * HISTORY_VISUAL_COLUMN_SIDE + x0 + n - 1),
        )
    }
}

/// Counts of block rows `z0 .. z0 + nz`, columns `x0 .. x0 + nx`.
pub open spec fn block_counts(
    columns: Seq<HistoryColumnCounts>,
    z0: int,
    nz: nat,
    x0: int,
    nx: nat,
) -> (int, int, int)
    decreases nz,
{
    if nz == 0 {
        (0, 0, 0)
    } else {
        add3(block_counts(columns, z0, (nz - 1) as nat, x0, nx), row_counts(columns, z0 + nz - 1, x0, nx))
    }
}

pub open spec fn sat_u32(v: int) -> int {
    if v > u32::MAX {
        u32::MAX as int
    } else {
        v
    }
}

/// The counts of grid cell (`cell_x`, `cell_z`) when a chunk is drawn as a
/// `grid_side` by `grid_side` grid: each cell covers a square of block
/// columns, and each count saturates at `u32::MAX`.
pub open spec fn grid_cell_counts(
    columns: Seq<HistoryColumnCounts>,
    grid_side: int,
    cell_x: int,
    cell_z: int,
) -> (int, int, int) {
    let span = HISTORY_VISUAL_COLUMN_SIDE as int / grid_side;
    let t = block_counts(columns, cell_z * span, span as nat, cell_x * span, span as nat);
    (sat_u32(t.0), sat_u32(t.1), sat_u32(t.2))
}

pub fn history_grid_cell_counts(
    columns: &Vec<HistoryColumnCounts>,
    grid_side: usize,
    cell_x: usize,
    cell_z: usize,
) -> (r: HistoryColumnCounts)
    requires
        grid_side > 0,
        cell_x < usize::MAX,
        cell_z < usize::MAX,
        (cell_z as int + 1) * (HISTORY_VISUAL_COLUMN_SIDE as int / grid_side as int) * 16 + (cell_x as int + 1) * (
        HISTORY_VISUAL_COLUMN_SIDE as int / grid_side as int) <= usize::MAX,
    ensures
        (r.0 as int, r.1 as int, r.2 as int) == grid_cell_counts(columns@, grid_side as int, cell_x as int, cell_z as int),
{
    let span = HISTORY_VISUAL_COLUMN_SIDE / grid_side;
    let ghost bound: int = (cell_z as int + 1) * span * 16 + (cell_x as int + 1) * span;
    proof {
        assert(cell_z * span <= (cell_z + 1) * span) by (nonlinear_arith);
        assert(cell_x * span <= (cell_x + 1) * span) by (nonlinear_arith);
        assert((cell_z + 1) * span * 16 == ((cell_z + 1) * span) * 16) by (nonlinear_arith);
        assert((cell_z + 1) * span <= usize::MAX);
        assert((cell_x + 1) * span <= usize::MAX);
    }
    let z_start = cell_z * span;
    let z_end = (cell_z + 1) * span;
    let x_start = cell_x * span;
    let x_end = (cell_x + 1) * span;
    proof {
        assert(z_end - z_start == span) by (nonlinear_arith)
            requires
                z_start == cell_z * span,
                z_end == (cell_z + 1) * span,
        ;
        assert(x_end - x_start == span) by (nonlinear_arith)
            requires
                x_start == cell_x * span,
                x_end == (cell_x + 1) * span,
        ;
    }
    let mut added: u32 = 0;
    let mut removed: u32 = 0;
    let mut modified: u32 = 0;
    let ghost mut total: (int, int, int) = (0, 0, 0);
    let mut local_z = z_start;
    while local_z < z_end
        invariant
            z_start <= local_z <= z_end,
            x_start <= x_end,
            x_end - x_start == span,
            z_end * 16 + x_end <= usize::MAX,
            total == block_counts(columns@, z_start as int, (local_z - z_start) as nat, x_start as int, span as nat),
            added as int == sat_u32(total.0),
            removed as int == sat_u32(total.1),
            modified as int == sat_u32(total.2),
            total.0 >= 0 && total.1 >= 0 && total.2 >= 0,
        decreases z_end - local_z,
    {
        let ghost row_base = total;
        let mut local_x = x_start;
        while local_x < x_end
            invariant
                z_start <= local_z < z_end,
                x_start <= local_x <= x_end,
                z_end * 16 + x_end <= usize::MAX,
                total == add3(row_base, row_counts(columns@, local_z as int, x_start as int, (local_x - x_start) as nat)),
                added as int == sat_u32(total.0),
                removed as int == sat_u32(total.1),
                modified as int == sat_u32(total.2),
                total.0 >= 0 && total.1 >= 0 && total.2 >= 0,
            decreases x_end - local_x,
        {
            let index = local_z * HISTORY_VISUAL_COLUMN_SIDE + local_x;
            if index < columns.len() {
                let counts = columns[index];
                added = added.saturating_add(counts.0);
                removed = removed.saturating_add(counts.1);
                modified = modified.saturating_add(counts.2);
            }
            proof {
                total = add3(total, column_counts_at(columns@, index as int));
            }
            local_x += 1;
        }
        local_z += 1;
    }
    (added, removed, modified)
}

/// The weight of a grid cell: its three counts added with saturation.
pub open spec fn grid_cell_weight(columns: Seq<HistoryColumnCounts>, grid_side: int, cell_x: int, cell_z: int) -> int {
    let c = grid_cell_counts(columns, grid_side, cell_x, cell_z);
    sat_u32(sat_u32(c.0 + c.1) + c.2)
}

/// The largest cell weight of the grid, or zero when every cell is empty;
/// the grid is not painted when it is zero.
pub fn history_grid_max_total(columns: &Vec<HistoryColumnCounts>, grid_side: usize) -> (r: u32)
    requires
        grid_side > 0,
    ensures
        forall|x: int, z: int| 0 <= x < grid_side && 0 <= z < grid_side ==> #[trigger] grid_cell_weight(
            columns@,
            grid_side as int,
            x,
            z,
        ) <= r,
        r == 0 || exists|x: int, z: int| 0 <= x < grid_side && 0 <= z < grid_side && #[trigger] grid_cell_weight(
            columns@,
            grid_side as int,
            x,
            z,
        ) == r,
{
    let span = HISTORY_VISUAL_COLUMN_SIDE / grid_side;
    proof {
        assert(grid_side * span <= 16) by (nonlinear_arith)
            requires
                grid_side > 0,
                span == 16usize / grid_side,
        ;
    }
    let mut max_total: u32 = 0;
    let mut cell_z: usize = 0;
    while cell_z < grid_side
        invariant
            grid_side > 0,
            span == HISTORY_VISUAL_COLUMN_SIDE / grid_side,
            grid_side * span <= 16,
            cell_z <= grid_side,
            forall|x: int, z: int| 0 <= x < grid_side && 0 <= z < cell_z ==> #[trigger] grid_cell_weight(
                columns@,
                grid_side as int,
                x,
                z,
            ) <= max_total,
            max_total == 0 || exists|x: int, z: int| 0 <= x < grid_side && 0 <= z < cell_z && #[trigger] grid_cell_weight(
                columns@,
                grid_side as int,
                x,
                z,
            ) == max_total,
        decreases grid_side - cell_z,
    {
        let mut cell_x: usize = 0;
        while cell_x < grid_side
            invariant
                grid_side > 0,
                span == HISTORY_VISUAL_COLUMN_SIDE / grid_side,
                grid_side * span <= 16,
                cell_z < grid_side,
                cell_x <= grid_side,
                forall|x: int, z: int| 0 <= x < grid_side && 0 <= z < grid_side && (z < cell_z || (z == cell_z
                    && x < cell_x)) ==> #[trigger] grid_cell_weight(columns@, grid_side as int, x, z) <= max_total,
                max_total == 0 || exists|x: int, z: int| 0 <= x < grid_side && 0 <= z < grid_side && (z < cell_z
                    || (z == cell_z && x < cell_x)) && #[trigger] grid_cell_weight(columns@, grid_side as int, x, z)
                    == max_total,
            decreases grid_side - cell_x,
        {
            proof {
                assert((cell_z + 1) * span <= grid_side * span) by (nonlinear_arith)
                    requires
                        cell_z < grid_side,
                ;
                assert((cell_x + 1) * span <= grid_side * span) by (nonlinear_arith)
                    requires
                        cell_x < grid_side,
                ;
                assert((cell_z as int + 1) * span * 16 == ((cell_z as int + 1) * span) * 16) by (nonlinear_arith);
            }
            let counts = history_grid_cell_counts(columns, grid_side, cell_x, cell_z);
            let weight = counts.0.saturating_add(counts.1).saturating_add(counts.2);
            proof {
                assert(weight == grid_cell_weight(columns@, grid_side as int, cell_x as int, cell_z as int));
            }
            if weight > max_total {
                max_total = weight;
            }
            cell_x += 1;
        }
        cell_z += 1;
    }
    max_total
}


/// The kind of change a chunk shows in the history visualisation.
#[derive(Clone, Copy, Debug, PartialEq, Eq, Structural)]
pub enum MapHistoryChunkVisualKind {
    Added,
    Removed,
    Modified,
    Mixed,
}

/// The colour (0xRRGGBB) of a history change kind: blue for added, red for
/// removed, violet for modified, amber for mixed.
pub fn history_visual_kind_color(kind: MapHistoryChunkVisualKind) -> (r: u32)
    ensures
        r == (match kind {
            MapHistoryChunkVisualKind::Added => 0x3b82f6u32,
            MapHistoryChunkVisualKind::Removed => 0xef4444u32,
            MapHistoryChunkVisualKind::Modified => 0x8b5cf6u32,
            MapHistoryChunkVisualKind::Mixed => 0xf59e0bu32,
        }),
{
    match kind {
        MapHistoryChunkVisualKind::Added => 0x3b82f6,
        MapHistoryChunkVisualKind::Removed => 0xef4444,
        MapHistoryChunkVisualKind::Modified => 0x8b5cf6,
        MapHistoryChunkVisualKind::Mixed => 0xf59e0b,
    }
}

} // verus!
