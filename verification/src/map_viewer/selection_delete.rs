use crate::map_viewer::model::{ChunkPos, Dimension};
use crate::map_viewer::tiles::{chunk_lt, chunks_sorted};
use crate::text::{append_decimal, spec_decimal};
use vstd::prelude::*;

verus! {

/// A rectangle of chunks in one dimension, bounds included.
#[derive(Clone, Copy, Debug)]
pub struct SlimeChunkBounds {
    pub dimension: Dimension,
    pub min_chunk_x: i32,
    pub max_chunk_x: i32,
    pub min_chunk_z: i32,
    pub max_chunk_z: i32,
}

pub open spec fn in_bounds(b: SlimeChunkBounds, c: ChunkPos) -> bool {
    &&& c.dimension == b.dimension
    &&& b.min_chunk_x <= c.x <= b.max_chunk_x
    &&& b.min_chunk_z <= c.z <= b.max_chunk_z
}

/// Every chunk of the rectangle, each once, in ascending order.
pub fn selection_chunks(b: SlimeChunkBounds) -> (r: Vec<ChunkPos>)
    ensures
        chunks_sorted(r@),
        forall|c: ChunkPos| #[trigger] r@.contains(c) <==> in_bounds(b, c),
{
    let mut out: Vec<ChunkPos> = Vec::new();
    let mut x: i64 = b.min_chunk_x as i64;
    while x <= b.max_chunk_x as i64
        invariant
            x >= b.min_chunk_x,
            x <= b.max_chunk_x as int + 1 || x == b.min_chunk_x,
            chunks_sorted(out@),
            forall|c: ChunkPos| #[trigger] out@.contains(c) <==> (in_bounds(b, c) && c.x < x),
        decreases b.max_chunk_x as int + 1 - x,
    {
        let mut z: i64 = b.min_chunk_z as i64;
        while z <= b.max_chunk_z as i64
            invariant
                b.min_chunk_x <= x <= b.max_chunk_x,
                z >= b.min_chunk_z,
                z <= b.max_chunk_z as int + 1 || z == b.min_chunk_z,
                chunks_sorted(out@),
                forall|c: ChunkPos| #[trigger] out@.contains(c) <==> (in_bounds(b, c) && (c.x < x || (c.x == x
                    && c.z < z))),
            decreases b.max_chunk_z as int + 1 - z,
        {
            let c = ChunkPos { x: x as i32, z: z as i32, dimension: b.dimension };
            let ghost before = out@;
            proof {
                assert forall|k: int| 0 <= k < before.len() implies chunk_lt(#[trigger] before[k], c) by {
                    assert(before.contains(before[k]));
                }
            }
            out.push(c);
            proof {
                assert forall|i: int, j: int| 0 <= i < j < out@.len() implies chunk_lt(
                    #[trigger] out@[i],
                    #[trigger] out@[j],
                ) by {
                    if j < before.len() {
                        assert(out@[i] == before[i] && out@[j] == before[j]);
                    } else {
                        assert(out@[i] == before[i]);
                    }
                }
                assert forall|d: ChunkPos| #[trigger] out@.contains(d) <==> (in_bounds(b, d) && (d.x < x || (d.x
                    == x && d.z < z + 1))) by {
                    if out@.contains(d) {
                        let k = choose|k: int| 0 <= k < out@.len() && out@[k] == d;
                        if k < before.len() {
                            assert(before.contains(d));
                        }
                    }
                    if d == c {
                        assert(out@[before.len() as int] == d);
                    } else if before.contains(d) {
                        let k = choose|k: int| 0 <= k < before.len() && before[k] == d;
                        assert(out@[k] == d);
                    }
                }
            }
            z += 1;
        }
        x += 1;
    }
    out
}

/// What a click on "delete selected chunks" leads to.
#[derive(Clone, Copy, Debug, PartialEq, Eq, Structural)]
pub enum DeleteSelectionDecision {
    /// Write mode is off.
    NeedsWriteMode,
    /// No selection is set.
    NeedsSelection,
    /// The first click only arms the confirmation.
    ArmConfirmation,
    /// The second click deletes the selected chunks.
    Run,
}

/// Deleting chunks needs write mode and a selection, and a second click to
/// confirm; the confirmation is used up by the deletion.
pub fn delete_selection_decision(write_mode: bool, has_selection: bool, pending_confirmation: &mut bool) -> (r:
    DeleteSelectionDecision)
    ensures
        !write_mode ==> r == DeleteSelectionDecision::NeedsWriteMode
            && *final(pending_confirmation) == *old(pending_confirmation),
        write_mode && !has_selection ==> r == DeleteSelectionDecision::NeedsSelection
            && *final(pending_confirmation) == *old(pending_confirmation),
        write_mode && has_selection && !*old(pending_confirmation) ==> r == DeleteSelectionDecision::ArmConfirmation
            && *final(pending_confirmation),
        write_mode && has_selection && *old(pending_confirmation) ==> r == DeleteSelectionDecision::Run
            && !*final(pending_confirmation),
{
    if !write_mode {
        return DeleteSelectionDecision::NeedsWriteMode;
    }
    if !has_selection {
        return DeleteSelectionDecision::NeedsSelection;
    }
    if !*pending_confirmation {
        *pending_confirmation = true;
        return DeleteSelectionDecision::ArmConfirmation;
    }
    *pending_confirmation = false;
    DeleteSelectionDecision::Run
}

/// The status shown for a decision that does not delete.
pub fn delete_selection_status(d: DeleteSelectionDecision) -> (r: &'static str)
    ensures
        r@ == (match d {
            DeleteSelectionDecision::NeedsWriteMode => "删除 chunk 需要先开启写入模式"@,
            DeleteSelectionDecision::NeedsSelection => "删除 chunk 需要先设置选区"@,
            DeleteSelectionDecision::ArmConfirmation => "再次点击删除选区 chunk 以确认写入操作"@,
            DeleteSelectionDecision::Run => "正在删除选区 chunk records..."@,
        }),
{
    match d {
        DeleteSelectionDecision::NeedsWriteMode => "删除 chunk 需要先开启写入模式",
        DeleteSelectionDecision::NeedsSelection => "删除 chunk 需要先设置选区",
        DeleteSelectionDecision::ArmConfirmation => "再次点击删除选区 chunk 以确认写入操作",
        DeleteSelectionDecision::Run => "正在删除选区 chunk records...",
    }
}

/// Chunks a task over `n` chunks reports as its total: at least one.
pub fn delete_progress_total(n: usize) -> (r: usize)
    ensures
        r == (if n == 0 { 1 } else { n }),
{
    if n == 0 {
        1
    } else {
        n
    }
}

/// The outcome of a world write from the write itself and the history
/// capture around it: a failed write fails it, with the capture's error
/// added when that failed too; a failed capture alone does not.
pub fn combine_history_and_write<T>(history: Result<(), String>, write: Result<T, String>) -> (r: Result<T, String>)
    ensures
        match (history, write) {
            (_, Ok(v)) => r == Ok::<T, String>(v),
            (Ok(_), Err(e)) => r matches Err(m) && m@ == e@,
            (Err(h), Err(e)) => r matches Err(m) && m@ == e@ + "；历史捕获失败: "@ + h@,
        },
{
    match (history, write) {
        (_, Ok(v)) => Ok(v),
        (Ok(_), Err(e)) => Err(e),
        (Err(h), Err(e)) => {
            let mut m = e;
            m.append("；历史捕获失败: ");
            m.append(h.as_str());
            Err(m)
        },
    }
}

pub open spec fn cleared_selection_text(cleared: usize) -> Seq<char> {
    "已清空 "@ + spec_decimal(cleared as nat) + " 个选区 chunk 为空气"@
}

/// The status after a deletion: how many chunks were cleared, that it was
/// cancelled, or its error.
pub fn delete_completion_status(result: &Result<usize, String>, cancelled: bool) -> (r: String)
    ensures
        r@ == (match result {
            Ok(cleared) => cleared_selection_text(*cleared),
            Err(e) => if cancelled {
                "删除选区已取消"@
            } else {
                e@
            },
        }),
{
    match result {
        Ok(cleared) => {
            let mut text = String::from_str("已清空 ");
            append_decimal(&mut text, *cleared as u64);
            text.append(" 个选区 chunk 为空气");
            text
        },
        Err(e) => if cancelled {
            String::from_str("删除选区已取消")
        } else {
            e.clone()
        },
    }
}

/// The message a finished deletion task carries: the cleared count when it
/// completed, its error when it failed, none otherwise.
pub fn delete_task_message(result: &Result<usize, String>, completed: bool) -> (r: Option<String>)
    ensures
        match result {
            Ok(cleared) => if completed {
                r matches Some(m) && m@ == "已清空 "@ + spec_decimal(*cleared as nat) + " 个 chunk"@
            } else {
                r is None
            },
            Err(e) => r matches Some(m) && m@ == e@,
        },
{
    match result {
        Ok(cleared) => if completed {
            let mut text = String::from_str("已清空 ");
            append_decimal(&mut text, *cleared as u64);
            text.append(" 个 chunk");
            Some(text)
        } else {
            None
        },
        Err(e) => Some(e.clone()),
    }
}

} // verus!
