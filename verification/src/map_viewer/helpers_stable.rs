use crate::arith::{clamp_int, sat_mul_usize};
use crate::map_viewer::helpers::{max_int, sat_usize};
use crate::map_viewer::model::RenderCpuBudget;
use vstd::prelude::*;

verus! {

pub const MIN_REGION_CACHE_ENTRIES: usize = 131_072;

pub const MAX_REGION_CACHE_ENTRIES: usize = 262_144;

pub const MIN_REGION_CACHE_BYTES: usize = 96 * 1024 * 1024;

pub const MAX_REGION_CACHE_BYTES: usize = 384 * 1024 * 1024;

pub const TARGET_RESIDENT_TILE_IMAGES: usize = 4_096;

/// Region cache entries: 16384 per render thread, kept between 131072 and
/// 262144.
pub fn tile_cache_memory_limit(cpu_budget: RenderCpuBudget) -> (r: usize)
    ensures
        r == clamp_int(
            sat_usize(cpu_budget.threads * 16_384),
            MIN_REGION_CACHE_ENTRIES as int,
            MAX_REGION_CACHE_ENTRIES as int,
        ),
{
    let n = sat_mul_usize(cpu_budget.thread_count(), 16_384);
    if n < MIN_REGION_CACHE_ENTRIES {
        MIN_REGION_CACHE_ENTRIES
    } else if n > MAX_REGION_CACHE_ENTRIES {
        MAX_REGION_CACHE_ENTRIES
    } else {
        n
    }
}

/// Tiles of a view `width_tiles` by `height_tiles` wide with `radius` tiles
/// of margin on every side (a negative radius counts as none).
pub fn visible_tile_count(width_tiles: usize, height_tiles: usize, radius: i32) -> (r: usize)
    ensures
        r == crate::map_viewer::helpers::spec_tile_count_with_margin(
            width_tiles as int,
            height_tiles as int,
            radius as int,
        ),
{
    let radius_tiles: usize = if radius > 0 {
        radius as usize
    } else {
        0
    };
    let margin = sat_mul_usize(radius_tiles, 2);
    sat_mul_usize(width_tiles.saturating_add(margin), height_tiles.saturating_add(margin))
}

/// The tile edge of a texture layout: its own size when it has one
/// (otherwise 128), at least one pixel.
pub open spec fn spec_layout_tile_size(layout_tile_size: Option<u32>) -> int {
    let s = match layout_tile_size {
        Some(v) => v as int,
        None => 128,
    };
    max_int(s, 1)
}

/// Bytes of tile images kept for the map: four bytes per pixel of up to 4096
/// tiles around the view, or a 24th of the available memory, whichever is
/// larger, kept between 96 MiB and 384 MiB.
pub fn ui_tile_memory_budget_bytes(
    visible_tiles: usize,
    layout_tile_size: Option<u32>,
    available_system_memory: u64,
) -> (r: usize)
    ensures
        ({
            let size = spec_layout_tile_size(layout_tile_size);
            let tile_bytes = sat_usize(sat_usize(size * size) * 4);
            let tiles = if visible_tiles <= TARGET_RESIDENT_TILE_IMAGES {
                visible_tiles as int
            } else {
                TARGET_RESIDENT_TILE_IMAGES as int
            };
            let share = available_system_memory as int / 24;
            let available_budget = if share <= usize::MAX {
                share
            } else {
                MIN_REGION_CACHE_BYTES as int
            };
            r == clamp_int(
                max_int(sat_usize(tiles * tile_bytes), available_budget),
                MIN_REGION_CACHE_BYTES as int,
                MAX_REGION_CACHE_BYTES as int,
            )
        }),
{
    let size: usize = match layout_tile_size {
        Some(v) => if v >= 1 {
            v as usize
        } else {
            1
        },
        None => 128,
    };
    let tile_bytes = sat_mul_usize(sat_mul_usize(size, size), 4);
    let tiles = if visible_tiles <= TARGET_RESIDENT_TILE_IMAGES {
        visible_tiles
    } else {
        TARGET_RESIDENT_TILE_IMAGES
    };
    let visible_budget = sat_mul_usize(tiles, tile_bytes);
    let share = available_system_memory / 24;
    let available_budget: usize = if share <= usize::MAX as u64 {
        share as usize
    } else {
        MIN_REGION_CACHE_BYTES
    };
    let m = if visible_budget >= available_budget {
        visible_budget
    } else {
        available_budget
    };
    if m < MIN_REGION_CACHE_BYTES {
        MIN_REGION_CACHE_BYTES
    } else if m > MAX_REGION_CACHE_BYTES {
        MAX_REGION_CACHE_BYTES
    } else {
        m
    }
}

} // verus!
