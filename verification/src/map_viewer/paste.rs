use crate::arith::{clamp_int, div_euclid_i32, rem_euclid_i32, sat_add_i32, sat_mul_i32, sat_sub_i32};
use crate::map_viewer::model::{
    ChunkPos, McStructureRotation, PasteRotation, PasteTransform, spec_transform_delta,
};
use vstd::prelude::*;

verus! {

pub open spec fn sat_i32(v: int) -> int {
    clamp_int(v, i32::MIN as int, i32::MAX as int)
}

/// Kind of a hardcoded spawn area.
#[derive(Clone, Copy, Debug, PartialEq, Eq, Structural)]
pub enum HardcodedSpawnAreaKind {
    NetherFortress,
    SwampHut,
    OceanMonument,
    PillagerOutpost,
    Unknown(u8),
}

/// A hardcoded spawn area: an axis-aligned box of block coordinates.
#[derive(Clone, Copy, Debug)]
pub struct ParsedHardcodedSpawnArea {
    pub kind: HardcodedSpawnAreaKind,
    pub min: [i32; 3],
    pub max: [i32; 3],
}

/// A chunk copied for pasting, by the column it was copied from.
#[derive(Clone, Copy, Debug, PartialEq, Eq, Structural)]
pub struct CopiedChunkRef {
    pub chunk: ChunkPos,
}

/// Where a block of a copied chunk lands: its offset from the source chunk
/// origin is split into whole chunks, which the transform maps, and the
/// position inside the chunk, which is kept; the result is placed relative
/// to the target chunk origin.
pub open spec fn spec_transform_block_position(
    position: [i32; 3],
    source: ChunkPos,
    target: ChunkPos,
    transform: PasteTransform,
) -> [i32; 3] {
    let sox = sat_i32(source.x * 16);
    let soz = sat_i32(source.z * 16);
    let rx = sat_i32(position[0] - sox);
    let rz = sat_i32(position[2] - soz);
    let d = spec_transform_delta(transform, rx / 16, rz / 16);
    let lx = sat_i32(sat_i32(d.0 * 16) + position[0] % 16);
    let lz = sat_i32(sat_i32(d.1 * 16) + position[2] % 16);
    [sat_i32(sat_i32(target.x * 16) + lx) as i32, position[1], sat_i32(sat_i32(target.z * 16) + lz) as i32]
}

pub fn transform_chunk_block_position(
    position: [i32; 3],
    source_chunk: ChunkPos,
    target_chunk: ChunkPos,
    transform: PasteTransform,
) -> (r: [i32; 3])
    ensures
        r == spec_transform_block_position(position, source_chunk, target_chunk, transform),
{
    let source_origin_x = sat_mul_i32(source_chunk.x, 16);
    let source_origin_z = sat_mul_i32(source_chunk.z, 16);
    let relative_x = sat_sub_i32(position[0], source_origin_x);
    let relative_z = sat_sub_i32(position[2], source_origin_z);
    let (dx, dz) = transform.transform_chunk_delta(
        div_euclid_i32(relative_x, 16),
        div_euclid_i32(relative_z, 16),
    );
    let local_x = sat_add_i32(sat_mul_i32(dx, 16), rem_euclid_i32(position[0], 16));
    let local_z = sat_add_i32(sat_mul_i32(dz, 16), rem_euclid_i32(position[2], 16));
    let r = [
        sat_add_i32(sat_mul_i32(target_chunk.x, 16), local_x),
        position[1],
        sat_add_i32(sat_mul_i32(target_chunk.z, 16), local_z),
    ];
    proof {
        assert(r =~= spec_transform_block_position(position, source_chunk, target_chunk, transform));
    }
    r
}

/// The target chunk of a copied chunk: its offset from the source anchor,
/// transformed, added to the target anchor, in the target's dimension.
pub open spec fn spec_pasted_target(chunk: ChunkPos, source: ChunkPos, target: ChunkPos, t: PasteTransform) -> ChunkPos {
    let d = spec_transform_delta(t, sat_i32(chunk.x - source.x), sat_i32(chunk.z - source.z));
    ChunkPos {
        x: sat_i32(target.x + d.0) as i32,
        z: sat_i32(target.z + d.1) as i32,
        dimension: target.dimension,
    }
}

pub fn pasted_chunk_target(chunk: ChunkPos, source_anchor: ChunkPos, target_anchor: ChunkPos, transform: PasteTransform) -> (r: ChunkPos)
    ensures
        r == spec_pasted_target(chunk, source_anchor, target_anchor, transform),
{
    let delta_x = sat_sub_i32(chunk.x, source_anchor.x);
    let delta_z = sat_sub_i32(chunk.z, source_anchor.z);
    let (dx, dz) = transform.transform_chunk_delta(delta_x, delta_z);
    ChunkPos {
        x: sat_add_i32(target_anchor.x, dx),
        z: sat_add_i32(target_anchor.z, dz),
        dimension: target_anchor.dimension,
    }
}

/// The chunks a paste writes, one per copied chunk and in the same order.
pub fn pasted_chunk_targets(
    copied: &Vec<ChunkPos>,
    source_anchor: ChunkPos,
    target_anchor: ChunkPos,
    transform: PasteTransform,
) -> (r: Vec<ChunkPos>)
    ensures
        r@.len() == copied@.len(),
        forall|i: int| 0 <= i < copied@.len() ==> #[trigger] r@[i] == spec_pasted_target(
            copied@[i],
            source_anchor,
            target_anchor,
            transform,
        ),
{
    let mut out: Vec<ChunkPos> = Vec::new();
    let mut i: usize = 0;
    while i < copied.len()
        invariant
            i <= copied@.len(),
            out@.len() == i,
            forall|k: int| 0 <= k < i ==> #[trigger] out@[k] == spec_pasted_target(
                copied@[k],
                source_anchor,
                target_anchor,
                transform,
            ),
        decreases copied@.len() - i,
    {
        out.push(pasted_chunk_target(copied[i], source_anchor, target_anchor, transform));
        i += 1;
    }
    out
}

pub open spec fn min_i(a: int, b: int) -> int {
    if a <= b {
        a
    } else {
        b
    }
}

pub open spec fn max_i(a: int, b: int) -> int {
    if a >= b {
        a
    } else {
        b
    }
}

/// The eight corners of an area, in the order the area is scanned.
pub open spec fn area_corner(area: ParsedHardcodedSpawnArea, k: int) -> [i32; 3] {
    [
        if k / 4 == 0 { area.min[0] } else { area.max[0] },
        if (k / 2) % 2 == 0 { area.min[1] } else { area.max[1] },
        if k % 2 == 0 { area.min[2] } else { area.max[2] },
    ]
}

/// A spawn area moved with its chunk: the bounding box of its eight
/// transformed corners.
pub open spec fn spec_pasted_area_bounds(
    area: ParsedHardcodedSpawnArea,
    source: ChunkPos,
    target: ChunkPos,
    t: PasteTransform,
    axis: int,
    upto: int,
    is_min: bool,
) -> int
    decreases upto,
{
    if upto <= 0 {
        if is_min { i32::MAX as int } else { i32::MIN as int }
    } else {
        let p = spec_transform_block_position(area_corner(area, upto - 1), source, target, t)[axis];
        let rest = spec_pasted_area_bounds(area, source, target, t, axis, upto - 1, is_min);
        if is_min { min_i(rest, p as int) } else { max_i(rest, p as int) }
    }
}

pub fn pasted_hardcoded_spawn_area_for_target(
    area: ParsedHardcodedSpawnArea,
    source_chunk: ChunkPos,
    target_chunk: ChunkPos,
    transform: PasteTransform,
) -> (r: ParsedHardcodedSpawnArea)
    ensures
        r.kind == area.kind,
        forall|axis: int| 0 <= axis < 3 ==> {
            &&& r.min[axis] == spec_pasted_area_bounds(area, source_chunk, target_chunk, transform, axis, 8, true)
            &&& r.max[axis] == spec_pasted_area_bounds(area, source_chunk, target_chunk, transform, axis, 8, false)
        },
{
    let mut min: [i32; 3] = [i32::MAX, i32::MAX, i32::MAX];
    let mut max: [i32; 3] = [i32::MIN, i32::MIN, i32::MIN];
    let mut k: usize = 0;
    while k < 8
        invariant
            k <= 8,
            forall|axis: int| 0 <= axis < 3 ==> {
                &&& min[axis] == spec_pasted_area_bounds(area, source_chunk, target_chunk, transform, axis, k as int, true)
                &&& max[axis] == spec_pasted_area_bounds(area, source_chunk, target_chunk, transform, axis, k as int, false)
            },
        decreases 8 - k,
    {
        let corner = [
            if k / 4 == 0 { area.min[0] } else { area.max[0] },
            if (k / 2) % 2 == 0 { area.min[1] } else { area.max[1] },
            if k % 2 == 0 { area.min[2] } else { area.max[2] },
        ];
        proof {
            assert(corner =~= area_corner(area, k as int));
        }
        let position = transform_chunk_block_position(corner, source_chunk, target_chunk, transform);
        let mut axis: usize = 0;
        while axis < 3
            invariant
                k < 8,
                axis <= 3,
                position == spec_transform_block_position(area_corner(area, k as int), source_chunk, target_chunk, transform),
                forall|a: int| 0 <= a < axis ==> {
                    &&& min[a] == spec_pasted_area_bounds(area, source_chunk, target_chunk, transform, a, k + 1, true)
                    &&& max[a] == spec_pasted_area_bounds(area, source_chunk, target_chunk, transform, a, k + 1, false)
                },
                forall|a: int| axis <= a < 3 ==> {
                    &&& min[a] == spec_pasted_area_bounds(area, source_chunk, target_chunk, transform, a, k as int, true)
                    &&& max[a] == spec_pasted_area_bounds(area, source_chunk, target_chunk, transform, a, k as int, false)
                },
            decreases 3 - axis,
        {
            if position[axis] < min[axis] {
                min[axis] = position[axis];
            }
            if position[axis] > max[axis] {
                max[axis] = position[axis];
            }
            axis += 1;
        }
        k += 1;
    }
    ParsedHardcodedSpawnArea { kind: area.kind, min, max }
}

/// A block entity moved by whole chunks from `source` to `target`: x and z
/// shift by sixteen blocks per chunk, y is kept; an entity without a
/// position is unchanged.
pub open spec fn spec_shifted_position(position: Option<[i32; 3]>, source: ChunkPos, target: ChunkPos) -> Option<[int; 3]> {
    match position {
        None => None,
        Some(p) => Some([p[0] + (target.x - source.x) * 16, p[1] as int, p[2] + (target.z - source.z) * 16]),
    }
}

/// Where a block entity sits: its parsed position and the coordinate tags
/// of its NBT. `nbt_is_compound` says whether the NBT root is a compound;
/// `nbt_x`, `nbt_y`, `nbt_z` are the integer tags it holds under "x", "y"
/// and "z" (only a compound holds any).
#[derive(Clone, Copy, Debug)]
pub struct BlockEntityPlacement {
    pub position: Option<[i32; 3]>,
    pub nbt_is_compound: bool,
    pub nbt_x: Option<i32>,
    pub nbt_y: Option<i32>,
    pub nbt_z: Option<i32>,
}

/// The pasted placement: without a position the entity is unchanged;
/// otherwise it takes the shifted position, and a compound NBT root gets
/// that position written into its "x", "y" and "z" tags.
pub open spec fn spec_pasted_placement(e: BlockEntityPlacement, source: ChunkPos, target: ChunkPos) -> BlockEntityPlacement {
    match e.position {
        None => e,
        Some(p) => {
            let q = [
                (p[0] + (target.x - source.x) * 16) as i32,
                p[1],
                (p[2] + (target.z - source.z) * 16) as i32,
            ];
            BlockEntityPlacement {
                position: Some(q),
                nbt_is_compound: e.nbt_is_compound,
                nbt_x: if e.nbt_is_compound { Some(q[0]) } else { e.nbt_x },
                nbt_y: if e.nbt_is_compound { Some(q[1]) } else { e.nbt_y },
                nbt_z: if e.nbt_is_compound { Some(q[2]) } else { e.nbt_z },
            }
        },
    }
}

/// Whether the shifted position of `e` fits in `i32`.
pub open spec fn shift_fits(e: BlockEntityPlacement, source: ChunkPos, target: ChunkPos) -> bool {
    e.position matches Some(p) ==> {
        &&& i32::MIN <= target.x - source.x <= i32::MAX
        &&& i32::MIN <= target.z - source.z <= i32::MAX
        &&& i32::MIN <= (target.x - source.x) * 16 <= i32::MAX
        &&& i32::MIN <= (target.z - source.z) * 16 <= i32::MAX
        &&& i32::MIN <= p[0] + (target.x - source.x) * 16 <= i32::MAX
        &&& i32::MIN <= p[2] + (target.z - source.z) * 16 <= i32::MAX
    }
}

/// A block entity moved by whole chunks from `source_chunk` to
/// `target_chunk`: x and z shift by sixteen blocks per chunk, y is kept,
/// and the NBT's coordinate tags follow; an entity without a position is
/// unchanged.
pub fn pasted_block_entity_for_target(
    entity: &BlockEntityPlacement,
    source_chunk: ChunkPos,
    target_chunk: ChunkPos,
) -> (r: BlockEntityPlacement)
    requires
        shift_fits(*entity, source_chunk, target_chunk),
    ensures
        r == spec_pasted_placement(*entity, source_chunk, target_chunk),
{
    let mut pasted = *entity;
    match entity.position {
        None => pasted,
        Some(p) => {
            let x = p[0] + (target_chunk.x - source_chunk.x) * 16;
            let z = p[2] + (target_chunk.z - source_chunk.z) * 16;
            let position = [x, p[1], z];
            pasted.position = Some(position);
            if pasted.nbt_is_compound {
                pasted.nbt_x = Some(position[0]);
                pasted.nbt_y = Some(position[1]);
                pasted.nbt_z = Some(position[2]);
            }
            proof {
                assert(position =~= [
                    (p[0] + (target_chunk.x - source_chunk.x) * 16) as i32,
                    p[1],
                    (p[2] + (target_chunk.z - source_chunk.z) * 16) as i32,
                ]);
            }
            pasted
        },
    }
}

/// Pasting a block entity back from the target to the source chunk returns
/// it to its position (where both moves fit in `i32`).
pub proof fn law_block_entity_paste_round_trip(e: BlockEntityPlacement, source: ChunkPos, target: ChunkPos)
    requires
        shift_fits(e, source, target),
        shift_fits(spec_pasted_placement(e, source, target), target, source),
    ensures
        spec_pasted_placement(spec_pasted_placement(e, source, target), target, source).position == e.position,
{
    if let Some(p) = e.position {
        let q = spec_pasted_placement(e, source, target).position->0;
        assert(q[0] + (source.x - target.x) * 16 == p[0]);
        assert(q[2] + (source.z - target.z) * 16 == p[2]);
        assert(spec_pasted_placement(spec_pasted_placement(e, source, target), target, source).position->0 =~= p);
    }
}

pub open spec fn spec_structure_rotation(rotation: PasteRotation) -> McStructureRotation {
    match rotation {
        PasteRotation::NoRotation => McStructureRotation::Identity,
        PasteRotation::Clockwise90 => McStructureRotation::Clockwise90,
        PasteRotation::Rotate180 => McStructureRotation::Rotate180,
        PasteRotation::CounterClockwise90 => McStructureRotation::CounterClockwise90,
    }
}

/// The structure-file rotation that writes a paste rotation.
pub fn mcstructure_rotation_for_paste(rotation: PasteRotation) -> (r: McStructureRotation)
    ensures
        r == spec_structure_rotation(rotation),
{
    match rotation {
        PasteRotation::NoRotation => McStructureRotation::Identity,
        PasteRotation::Clockwise90 => McStructureRotation::Clockwise90,
        PasteRotation::Rotate180 => McStructureRotation::Rotate180,
        PasteRotation::CounterClockwise90 => McStructureRotation::CounterClockwise90,
    }
}

proof fn lemma_bounds_ordered(
    area: ParsedHardcodedSpawnArea,
    source: ChunkPos,
    target: ChunkPos,
    t: PasteTransform,
    axis: int,
    upto: int,
)
    requires
        1 <= upto,
    ensures
        spec_pasted_area_bounds(area, source, target, t, axis, upto, true)
            <= spec_pasted_area_bounds(area, source, target, t, axis, upto, false),
    decreases upto,
{
    if upto > 1 {
        lemma_bounds_ordered(area, source, target, t, axis, upto - 1);
    }
}

/// A moved spawn area is a proper box: on every axis its minimum does not
/// exceed its maximum.
pub proof fn law_pasted_area_is_a_box(
    area: ParsedHardcodedSpawnArea,
    source: ChunkPos,
    target: ChunkPos,
    t: PasteTransform,
    axis: int,
)
    requires
        0 <= axis < 3,
    ensures
        spec_pasted_area_bounds(area, source, target, t, axis, 8, true)
            <= spec_pasted_area_bounds(area, source, target, t, axis, 8, false),
{
    lemma_bounds_ordered(area, source, target, t, axis, 8);
}

/// Without rotation or mirroring a paste is a plain translation: a copied
/// chunk lands at the target anchor plus its offset from the source anchor
/// (when no coordinate leaves the range of `i32`).
pub proof fn law_default_paste_translates(chunk: ChunkPos, source: ChunkPos, target: ChunkPos, t: PasteTransform)
    requires
        t.spec_is_default(),
        i32::MIN <= chunk.x - source.x <= i32::MAX,
        i32::MIN <= chunk.z - source.z <= i32::MAX,
        i32::MIN <= target.x + (chunk.x - source.x) <= i32::MAX,
        i32::MIN <= target.z + (chunk.z - source.z) <= i32::MAX,
    ensures
        spec_pasted_target(chunk, source, target, t) == (ChunkPos {
            x: (target.x + (chunk.x - source.x)) as i32,
            z: (target.z + (chunk.z - source.z)) as i32,
            dimension: target.dimension,
        }),
{
}

/// Pasting onto the copy's own anchor without a transform writes every chunk
/// back where it was copied from (in the target's dimension).
pub proof fn law_paste_in_place_is_identity(chunk: ChunkPos, anchor: ChunkPos, t: PasteTransform)
    requires
        t.spec_is_default(),
        i32::MIN <= chunk.x - anchor.x <= i32::MAX,
        i32::MIN <= chunk.z - anchor.z <= i32::MAX,
    ensures
        spec_pasted_target(chunk, anchor, anchor, t) == (ChunkPos { x: chunk.x, z: chunk.z, dimension: anchor.dimension }),
{
}

/// A block keeps its height when it is pasted.
pub proof fn law_paste_keeps_height(position: [i32; 3], source: ChunkPos, target: ChunkPos, t: PasteTransform)
    ensures
        spec_transform_block_position(position, source, target, t)[1] == position[1],
{
}

/// Mirroring negates one chunk offset and keeps the other. With no
/// rotation, mirroring along Z turns an offset `(dx, dz)` into `(dx, -dz)`,
/// mirroring along X into `(-dx, dz)` (`-i32::MIN` saturates to
/// `i32::MAX`), and no mirroring keeps it; under any rotation, mirroring
/// along an axis acts as negating that offset before rotating.
pub proof fn law_mirror_negates_offsets(dx: i32, dz: i32, rotation: PasteRotation, other: bool)
    ensures
        spec_transform_delta(
            PasteTransform { rotation: PasteRotation::NoRotation, mirror_x: false, mirror_z: true },
            dx as int,
            dz as int,
        ) == (dx as int, if dz == i32::MIN { i32::MAX as int } else { -dz }),
        spec_transform_delta(
            PasteTransform { rotation: PasteRotation::NoRotation, mirror_x: true, mirror_z: false },
            dx as int,
            dz as int,
        ) == (if dx == i32::MIN { i32::MAX as int } else { -dx }, dz as int),
        spec_transform_delta(
            PasteTransform { rotation: PasteRotation::NoRotation, mirror_x: false, mirror_z: false },
            dx as int,
            dz as int,
        ) == (dx as int, dz as int),
        spec_transform_delta(PasteTransform { rotation, mirror_x: other, mirror_z: true }, dx as int, dz as int)
            == spec_transform_delta(
            PasteTransform { rotation, mirror_x: other, mirror_z: false },
            dx as int,
            if dz == i32::MIN { i32::MAX as int } else { -dz },
        ),
        spec_transform_delta(PasteTransform { rotation, mirror_x: true, mirror_z: other }, dx as int, dz as int)
            == spec_transform_delta(
            PasteTransform { rotation, mirror_x: false, mirror_z: other },
            if dx == i32::MIN { i32::MAX as int } else { -dx },
            dz as int,
        ),
{
}

/// A paste mirrored along Z (no rotation, no X mirror) lands every chunk at
/// the target anchor plus its X offset from the source anchor and minus its
/// Z offset, in the target's dimension (when nothing leaves `i32`).
pub proof fn law_mirror_z_paste_lands_mirrored(chunk: ChunkPos, source: ChunkPos, target: ChunkPos)
    requires
        i32::MIN <= chunk.x - source.x <= i32::MAX,
        i32::MIN < chunk.z - source.z <= i32::MAX,
        i32::MIN <= target.x + (chunk.x - source.x) <= i32::MAX,
        i32::MIN <= target.z - (chunk.z - source.z) <= i32::MAX,
    ensures
        spec_pasted_target(
            chunk,
            source,
            target,
            PasteTransform { rotation: PasteRotation::NoRotation, mirror_x: false, mirror_z: true },
        ) == (ChunkPos {
            x: (target.x + (chunk.x - source.x)) as i32,
            z: (target.z - (chunk.z - source.z)) as i32,
            dimension: target.dimension,
        }),
{
}

} // verus!
