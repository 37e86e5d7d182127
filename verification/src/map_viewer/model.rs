use crate::arith::{clamp_int, sat_sub_i32};
use vstd::prelude::*;

verus! {

#[derive(Clone, Copy, Debug, PartialEq, Eq, Structural)]
pub enum Dimension {
    Overworld,
    Nether,
    End,
    Unknown(i32),
}

/// A chunk column of a world dimension.
#[derive(Clone, Copy, Debug, PartialEq, Eq, Structural)]
pub struct ChunkPos {
    pub x: i32,
    pub z: i32,
    pub dimension: Dimension,
}

/// Block coordinates of a position in the world.
#[derive(Clone, Copy, Debug, PartialEq, Eq, Structural)]
pub struct BlockPos {
    pub x: i32,
    pub y: i32,
    pub z: i32,
}

#[derive(Clone, Copy, Debug, PartialEq, Eq, Structural)]
pub enum RenderBackend {
    Cpu,
    Auto,
    Wgpu,
}

#[derive(Clone, Copy, Debug, PartialEq, Eq, Structural)]
pub enum RenderGpuBackend {
    Auto,
    Dx11,
    Dx12,
    Vulkan,
}

#[derive(Clone, Copy, Debug, PartialEq, Eq, Structural)]
pub enum ResolvedRenderBackend {
    Cpu,
    Dx11,
    WgpuDx12,
    WgpuVulkan,
    Mixed,
}

/// How tiles are rendered; the mode parameters do not matter to the window
/// logic and are not carried.
#[derive(Clone, Copy, Debug, PartialEq, Eq, Structural)]
pub enum RenderMode {
    SurfaceBlocks,
    Biome,
    RawBiomeLayer,
    HeightMap,
    RawHeightMap,
    LayerBlocks,
    CaveSlice,
}

#[derive(Clone, Copy, Debug, PartialEq, Eq, Structural)]
pub enum ViewerMode {
    Surface,
    Biome,
    Height,
    Layer,
    Cave,
}

/// Render worker budget: how many threads render and how many tiles one
/// batch holds.
#[derive(Clone, Copy, Debug, PartialEq, Eq, Structural)]
pub struct RenderCpuBudget {
    pub threads: usize,
    pub tile_batch: usize,
}

impl RenderCpuBudget {
    pub fn thread_count(&self) -> (r: usize)
        ensures
            r == self.threads,
    {
        self.threads
    }

    pub fn tile_batch_size(&self) -> (r: usize)
        ensures
            r == self.tile_batch,
    {
        self.tile_batch
    }
}

/// The map viewer's tuning values: tile geometry, batch limits and memory
/// bounds the renderer is configured with.
#[derive(Clone, Copy, Debug, PartialEq, Eq, Structural)]
pub struct RenderTuning {
    pub default_tile_size: usize,
    pub retain_radius: i32,
    pub chunks_per_tile: i32,
    pub tile_manifest_probe_max_workers: usize,
    pub min_ui_tile_memory_budget_bytes: usize,
    pub overview_visible_tile_threshold: usize,
    pub overview_visible_batch_limit: usize,
    pub drag_visible_batch_limit: usize,
    pub overview_first_visible_batch_limit: usize,
    pub first_visible_batch_limit: usize,
    pub min_render_memory_budget_bytes: u64,
    pub max_render_memory_budget_bytes: u64,
    pub min_render_staging_pool_bytes: usize,
    pub max_render_staging_pool_bytes: usize,
}

impl RenderTuning {
    /// The bounds of every clamp are ordered.
    pub open spec fn wf(&self) -> bool {
        &&& self.tile_manifest_probe_max_workers >= 1
        &&& self.min_render_memory_budget_bytes <= self.max_render_memory_budget_bytes
        &&& self.min_render_staging_pool_bytes <= self.max_render_staging_pool_bytes
    }
}

/// Statistics of the tile render pipeline shown in the diagnostics panel.
pub struct RenderPipelineStats {
    pub gpu_tiles: usize,
    pub gpu_fallback_reason: Option<String>,
    pub resolved_backend: ResolvedRenderBackend,
    pub gpu_dispatch_ms: u64,
    pub gpu_readback_ms: u64,
    pub gpu_adapter_name: Option<String>,
    pub gpu_device_name: Option<String>,
    pub gpu_requested_backend: RenderGpuBackend,
    pub gpu_actual_backend: RenderGpuBackend,
}

/// A numeric NBT tag, or any other tag.
#[derive(Clone, Copy, Debug, PartialEq, Eq, Structural)]
pub enum NbtNumber {
    Byte(i8),
    Short(i16),
    Int(i32),
    Long(i64),
    Other,
}

/// Where a context menu was opened, in block coordinates.
#[derive(Clone, Copy, Debug, PartialEq, Eq, Structural)]
pub struct ContextMenuState {
    pub block_x: i32,
    pub block_z: i32,
}

#[derive(Clone, Copy, Debug, PartialEq, Eq, Structural)]
pub enum PasteRotation {
    NoRotation,
    Clockwise90,
    Rotate180,
    CounterClockwise90,
}

#[derive(Clone, Copy, Debug, PartialEq, Eq, Structural)]
pub enum McStructureRotation {
    Identity,
    Clockwise90,
    Rotate180,
    CounterClockwise90,
}

/// How a copied selection is placed: mirrored along the X and/or Z axis,
/// then rotated about the anchor chunk.
#[derive(Clone, Copy, Debug, PartialEq, Eq, Structural)]
pub struct PasteTransform {
    pub rotation: PasteRotation,
    pub mirror_x: bool,
    pub mirror_z: bool,
}

/// `i32::saturating_neg`.
pub open spec fn sat_neg(v: int) -> int {
    clamp_int(-v, i32::MIN as int, i32::MAX as int)
}

/// A chunk offset after mirroring and rotation (clockwise as seen from above:
/// +X turns into +Z).
pub open spec fn spec_transform_delta(t: PasteTransform, dx: int, dz: int) -> (int, int) {
    let mx = if t.mirror_x { sat_neg(dx) } else { dx };
    let mz = if t.mirror_z { sat_neg(dz) } else { dz };
    match t.rotation {
        PasteRotation::NoRotation => (mx, mz),
        PasteRotation::Clockwise90 => (sat_neg(mz), mx),
        PasteRotation::Rotate180 => (sat_neg(mx), sat_neg(mz)),
        PasteRotation::CounterClockwise90 => (mz, sat_neg(mx)),
    }
}

pub fn saturating_neg_i32(v: i32) -> (r: i32)
    ensures
        r == sat_neg(v as int),
{
    sat_sub_i32(0, v)
}

impl PasteTransform {
    pub open spec fn spec_is_default(&self) -> bool {
        &&& self.rotation == PasteRotation::NoRotation
        &&& !self.mirror_x
        &&& !self.mirror_z
    }

    /// No rotation and no mirroring.
    pub fn is_default(&self) -> (r: bool)
        ensures
            r == self.spec_is_default(),
    {
        self.rotation == PasteRotation::NoRotation && !self.mirror_x && !self.mirror_z
    }

    /// Maps a chunk offset from the source anchor to the offset from the
    /// target anchor.
    pub fn transform_chunk_delta(&self, dx: i32, dz: i32) -> (r: (i32, i32))
        ensures
            (r.0 as int, r.1 as int) == spec_transform_delta(*self, dx as int, dz as int),
            self.rotation == PasteRotation::NoRotation ==> r.0 == (if self.mirror_x {
                if dx == i32::MIN { i32::MAX as int } else { -dx }
            } else {
                dx as int
            }) && r.1 == (if self.mirror_z {
                if dz == i32::MIN { i32::MAX as int } else { -dz }
            } else {
                dz as int
            }),
    {
        let mx = if self.mirror_x {
            saturating_neg_i32(dx)
        } else {
            dx
        };
        let mz = if self.mirror_z {
            saturating_neg_i32(dz)
        } else {
            dz
        };
        match self.rotation {
            PasteRotation::NoRotation => (mx, mz),
            PasteRotation::Clockwise90 => (saturating_neg_i32(mz), mx),
            PasteRotation::Rotate180 => (saturating_neg_i32(mx), saturating_neg_i32(mz)),
            PasteRotation::CounterClockwise90 => (mz, saturating_neg_i32(mx)),
        }
    }
}

} // verus!
