use crate::arith::{clamp_int, sat_add_i32, sat_mul_i32, sat_sub_i32};
use crate::map_viewer::model::ChunkPos;
use vstd::prelude::*;

verus! {

/// Number of counters a preview mesh adds up over its parts.
pub const MESH_COUNTER_COUNT: usize = 15;

/// A 3D preview mesh of part of the world: handles of its per-chunk meshes,
/// the block bounds it covers, and what went into it.
pub struct Preview3dMesh {
    pub chunk_meshes: Vec<u64>,
    pub min_y: i32,
    pub max_y: i32,
    pub min_x: i32,
    pub max_x: i32,
    pub min_z: i32,
    pub max_z: i32,
    pub missing_chunks: usize,
    pub chunk_count: usize,
    pub processed_chunk_count: usize,
    pub subchunk_count: usize,
    pub solid_block_count: usize,
    pub glass_block_count: usize,
    pub water_block_count: usize,
    pub lava_block_count: usize,
    pub face_count: usize,
    pub glass_face_count: usize,
    pub water_face_count: usize,
    pub lava_face_count: usize,
    pub culled_face_count: usize,
    pub omitted_face_count: usize,
    pub truncated_chunk_count: usize,
    pub vertex_budget: usize,
}

/// Counter `k` of a mesh, in the order the fields are declared, the chunk
/// count left out.
pub open spec fn mesh_counter(m: Preview3dMesh, k: int) -> usize {
    if k == 0 {
        m.missing_chunks
    } else if k == 1 {
        m.processed_chunk_count
    } else if k == 2 {
        m.subchunk_count
    } else if k == 3 {
        m.solid_block_count
    } else if k == 4 {
        m.glass_block_count
    } else if k == 5 {
        m.water_block_count
    } else if k == 6 {
        m.lava_block_count
    } else if k == 7 {
        m.face_count
    } else if k == 8 {
        m.glass_face_count
    } else if k == 9 {
        m.water_face_count
    } else if k == 10 {
        m.lava_face_count
    } else if k == 11 {
        m.culled_face_count
    } else if k == 12 {
        m.omitted_face_count
    } else if k == 13 {
        m.truncated_chunk_count
    } else {
        m.vertex_budget
    }
}

/// Sum of counter `k` over the parts.
pub open spec fn counter_sum(parts: Seq<Preview3dMesh>, k: int) -> nat
    decreases parts.len(),
{
    if parts.len() == 0 {
        0
    } else {
        counter_sum(parts.drop_last(), k) + mesh_counter(parts.last(), k) as nat
    }
}

/// The chunk meshes of all parts, part after part.
pub open spec fn all_chunk_meshes(parts: Seq<Preview3dMesh>) -> Seq<u64>
    decreases parts.len(),
{
    if parts.len() == 0 {
        Seq::empty()
    } else {
        all_chunk_meshes(parts.drop_last()) + parts.last().chunk_meshes@
    }
}

impl Preview3dMesh {
    /// Faces the mesh draws on its surface. A mesh here records only surface
    /// faces, so this is its face count; merging keeps the meshes that have
    /// any.
    pub open spec fn spec_surface_face_count(&self) -> usize {
        self.face_count
    }

    pub fn surface_face_count(&self) -> (r: usize)
        ensures
            r == self.spec_surface_face_count(),
    {
        self.face_count
    }
}

proof fn lemma_counter_sum_prefix(parts: Seq<Preview3dMesh>, i: int, k: int)
    requires
        0 <= i <= parts.len(),
    ensures
        counter_sum(parts.subrange(0, i), k) <= counter_sum(parts, k),
    decreases parts.len() - i,
{
    if i < parts.len() {
        lemma_counter_sum_prefix(parts, i + 1, k);
        assert(parts.subrange(0, i + 1).drop_last() =~= parts.subrange(0, i));
    } else {
        assert(parts.subrange(0, i) =~= parts);
    }
}

/// The x of some chunk that no chunk's x is below, or zero without chunks.
pub open spec fn is_min_chunk_x(chunks: Seq<ChunkPos>, v: int) -> bool {
    if chunks.len() == 0 {
        v == 0
    } else {
        (exists|i: int| 0 <= i < chunks.len() && #[trigger] chunks[i].x == v) && forall|i: int|
            0 <= i < chunks.len() ==> v <= #[trigger] chunks[i].x
    }
}

pub open spec fn is_max_chunk_x(chunks: Seq<ChunkPos>, v: int) -> bool {
    if chunks.len() == 0 {
        v == 0
    } else {
        (exists|i: int| 0 <= i < chunks.len() && #[trigger] chunks[i].x == v) && forall|i: int|
            0 <= i < chunks.len() ==> #[trigger] chunks[i].x <= v
    }
}

pub open spec fn is_min_chunk_z(chunks: Seq<ChunkPos>, v: int) -> bool {
    if chunks.len() == 0 {
        v == 0
    } else {
        (exists|i: int| 0 <= i < chunks.len() && #[trigger] chunks[i].z == v) && forall|i: int|
            0 <= i < chunks.len() ==> v <= #[trigger] chunks[i].z
    }
}

pub open spec fn is_max_chunk_z(chunks: Seq<ChunkPos>, v: int) -> bool {
    if chunks.len() == 0 {
        v == 0
    } else {
        (exists|i: int| 0 <= i < chunks.len() && #[trigger] chunks[i].z == v) && forall|i: int|
            0 <= i < chunks.len() ==> #[trigger] chunks[i].z <= v
    }
}

/// The lowest `min_y` of the parts that draw faces, or zero if none does.
pub open spec fn is_min_surface_y(parts: Seq<Preview3dMesh>, v: int) -> bool {
    if forall|i: int| 0 <= i < parts.len() ==> #[trigger] parts[i].spec_surface_face_count() == 0 {
        v == 0
    } else {
        (exists|i: int| 0 <= i < parts.len() && #[trigger] parts[i].spec_surface_face_count() > 0 && parts[i].min_y == v)
            && forall|i: int| 0 <= i < parts.len() && #[trigger] parts[i].spec_surface_face_count() > 0 ==> v <= parts[i].min_y
    }
}

/// The highest `max_y` of the parts that draw faces, or zero if none does.
pub open spec fn is_max_surface_y(parts: Seq<Preview3dMesh>, v: int) -> bool {
    if forall|i: int| 0 <= i < parts.len() ==> #[trigger] parts[i].spec_surface_face_count() == 0 {
        v == 0
    } else {
        (exists|i: int| 0 <= i < parts.len() && #[trigger] parts[i].spec_surface_face_count() > 0 && parts[i].max_y == v)
            && forall|i: int| 0 <= i < parts.len() && #[trigger] parts[i].spec_surface_face_count() > 0 ==> parts[i].max_y <= v
    }
}

/// Lowest and highest chunk x and z of the selection, zero when it is empty.
pub fn chunk_extent(chunks: &Vec<ChunkPos>) -> (r: (i32, i32, i32, i32))
    ensures
        is_min_chunk_x(chunks@, r.0 as int),
        is_max_chunk_x(chunks@, r.1 as int),
        is_min_chunk_z(chunks@, r.2 as int),
        is_max_chunk_z(chunks@, r.3 as int),
{
    if chunks.len() == 0 {
        return (0, 0, 0, 0);
    }
    let mut min_x = chunks[0].x;
    let mut max_x = chunks[0].x;
    let mut min_z = chunks[0].z;
    let mut max_z = chunks[0].z;
    let mut i: usize = 1;
    while i < chunks.len()
        invariant
            1 <= i <= chunks@.len(),
            exists|j: int| 0 <= j < i && #[trigger] chunks@[j].x == min_x,
            exists|j: int| 0 <= j < i && #[trigger] chunks@[j].x == max_x,
            exists|j: int| 0 <= j < i && #[trigger] chunks@[j].z == min_z,
            exists|j: int| 0 <= j < i && #[trigger] chunks@[j].z == max_z,
            forall|j: int| 0 <= j < i ==> min_x <= #[trigger] chunks@[j].x <= max_x,
            forall|j: int| 0 <= j < i ==> min_z <= #[trigger] chunks@[j].z <= max_z,
        decreases chunks@.len() - i,
    {
        let c = chunks[i];
        if c.x < min_x {
            min_x = c.x;
        }
        if c.x > max_x {
            max_x = c.x;
        }
        if c.z < min_z {
            min_z = c.z;
        }
        if c.z > max_z {
            max_z = c.z;
        }
        proof {
            assert(chunks@[i as int] == c);
        }
        i += 1;
    }
    (min_x, max_x, min_z, max_z)
}

/// Lowest `min_y` and highest `max_y` of the parts that draw faces.
pub fn surface_y_extent(parts: &Vec<Preview3dMesh>) -> (r: (i32, i32))
    ensures
        is_min_surface_y(parts@, r.0 as int),
        is_max_surface_y(parts@, r.1 as int),
{
    let mut found = false;
    let mut min_y: i32 = 0;
    let mut max_y: i32 = 0;
    let mut i: usize = 0;
    while i < parts.len()
        invariant
            i <= parts@.len(),
            found == exists|j: int| 0 <= j < i && #[trigger] parts@[j].spec_surface_face_count() > 0,
            !found ==> min_y == 0 && max_y == 0,
            found ==> exists|j: int| 0 <= j < i && #[trigger] parts@[j].spec_surface_face_count() > 0
                && parts@[j].min_y == min_y,
            found ==> exists|j: int| 0 <= j < i && #[trigger] parts@[j].spec_surface_face_count() > 0
                && parts@[j].max_y == max_y,
            forall|j: int| 0 <= j < i && #[trigger] parts@[j].spec_surface_face_count() > 0 ==> min_y
                <= parts@[j].min_y && parts@[j].max_y <= max_y,
        decreases parts@.len() - i,
    {
        if parts[i].surface_face_count() > 0 {
            let lo = parts[i].min_y;
            let hi = parts[i].max_y;
            if !found || lo < min_y {
                min_y = lo;
            }
            if !found || hi > max_y {
                max_y = hi;
            }
            found = true;
        }
        proof {
            assert(parts@[i as int].spec_surface_face_count() == parts@[i as int].face_count);
        }
        i += 1;
    }
    proof {
        if !found {
            assert forall|j: int| 0 <= j < parts@.len() implies #[trigger] parts@[j].spec_surface_face_count() == 0 by {
                if parts@[j].spec_surface_face_count() > 0 {
                    assert(exists|k: int| 0 <= k < i && #[trigger] parts@[k].spec_surface_face_count() > 0);
                }
            }
        }
    }
    (min_y, max_y)
}


fn mesh_counter_of(m: &Preview3dMesh, k: usize) -> (r: usize)
    ensures
        r == mesh_counter(*m, k as int),
{
    if k == 0 {
        m.missing_chunks
    } else if k == 1 {
        m.processed_chunk_count
    } else if k == 2 {
        m.subchunk_count
    } else if k == 3 {
        m.solid_block_count
    } else if k == 4 {
        m.glass_block_count
    } else if k == 5 {
        m.water_block_count
    } else if k == 6 {
        m.lava_block_count
    } else if k == 7 {
        m.face_count
    } else if k == 8 {
        m.glass_face_count
    } else if k == 9 {
        m.water_face_count
    } else if k == 10 {
        m.lava_face_count
    } else if k == 11 {
        m.culled_face_count
    } else if k == 12 {
        m.omitted_face_count
    } else if k == 13 {
        m.truncated_chunk_count
    } else {
        m.vertex_budget
    }
}

/// Sums of each counter over the parts.
fn counter_sums(parts: &Vec<Preview3dMesh>) -> (r: Vec<usize>)
    requires
        forall|k: int| 0 <= k < MESH_COUNTER_COUNT ==> #[trigger] counter_sum(parts@, k) <= usize::MAX,
    ensures
        r@.len() == MESH_COUNTER_COUNT,
        forall|k: int| 0 <= k < MESH_COUNTER_COUNT ==> #[trigger] r@[k] == counter_sum(parts@, k),
{
    let mut sums: Vec<usize> = Vec::new();
    let mut k: usize = 0;
    while k < MESH_COUNTER_COUNT
        invariant
            k <= MESH_COUNTER_COUNT,
            sums@.len() == k,
            forall|j: int| 0 <= j < k ==> #[trigger] sums@[j] == 0,
        decreases MESH_COUNTER_COUNT - k,
    {
        sums.push(0);
        k += 1;
    }
    let mut i: usize = 0;
    while i < parts.len()
        invariant
            i <= parts@.len(),
            sums@.len() == MESH_COUNTER_COUNT,
            forall|k: int| 0 <= k < MESH_COUNTER_COUNT ==> #[trigger] counter_sum(parts@, k) <= usize::MAX,
            forall|k: int| 0 <= k < MESH_COUNTER_COUNT ==> #[trigger] sums@[k] == counter_sum(
                parts@.subrange(0, i as int),
                k,
            ),
        decreases parts@.len() - i,
    {
        let ghost pre = parts@.subrange(0, i as int);
        let ghost next = parts@.subrange(0, i + 1);
        proof {
            assert(next.drop_last() =~= pre);
        }
        let mut j: usize = 0;
        while j < MESH_COUNTER_COUNT
            invariant
                i < parts@.len(),
                j <= MESH_COUNTER_COUNT,
                sums@.len() == MESH_COUNTER_COUNT,
                next == parts@.subrange(0, i + 1),
                next.drop_last() == pre,
                next.last() == parts@[i as int],
                forall|k: int| 0 <= k < MESH_COUNTER_COUNT ==> #[trigger] counter_sum(parts@, k) <= usize::MAX,
                forall|k: int| 0 <= k < j ==> #[trigger] sums@[k] == counter_sum(next, k),
                forall|k: int| j <= k < MESH_COUNTER_COUNT ==> #[trigger] sums@[k] == counter_sum(pre, k),
            decreases MESH_COUNTER_COUNT - j,
        {
            let c = mesh_counter_of(&parts[i], j);
            proof {
                lemma_counter_sum_prefix(parts@, i + 1, j as int);
                assert(counter_sum(next, j as int) == counter_sum(pre, j as int) + c);
            }
            let v = sums[j] + c;
            sums.set(j, v);
            j += 1;
        }
        i += 1;
    }
    proof {
        assert(parts@.subrange(0, parts@.len() as int) =~= parts@);
    }
    sums
}

/// The chunk meshes of all parts, part after part.
fn concat_chunk_meshes(parts: &Vec<Preview3dMesh>) -> (r: Vec<u64>)
    ensures
        r@ == all_chunk_meshes(parts@),
{
    let mut out: Vec<u64> = Vec::new();
    let mut i: usize = 0;
    while i < parts.len()
        invariant
            i <= parts@.len(),
            out@ == all_chunk_meshes(parts@.subrange(0, i as int)),
        decreases parts@.len() - i,
    {
        let ghost base = out@;
        let mut j: usize = 0;
        while j < parts[i].chunk_meshes.len()
            invariant
                i < parts@.len(),
                j <= parts@[i as int].chunk_meshes@.len(),
                out@ == base + parts@[i as int].chunk_meshes@.subrange(0, j as int),
            decreases parts@[i as int].chunk_meshes@.len() - j,
        {
            out.push(parts[i].chunk_meshes[j]);
            j += 1;
            proof {
                assert(out@ =~= base + parts@[i as int].chunk_meshes@.subrange(0, j as int));
            }
        }
        proof {
            let next = parts@.subrange(0, i + 1);
            assert(next.drop_last() =~= parts@.subrange(0, i as int));
            assert(parts@[i as int].chunk_meshes@.subrange(0, j as int) =~= parts@[i as int].chunk_meshes@);
        }
        i += 1;
    }
    proof {
        assert(parts@.subrange(0, parts@.len() as int) =~= parts@);
    }
    out
}

/// Merges the preview meshes of the rectangles that cover an exact
/// selection: their chunk meshes in order, the block bounds of the selected
/// chunks, the vertical extent of the parts that draw faces, and the sums of
/// their counters, the processed chunks capped at the selection's size.
pub fn merge_exact_preview_meshes(parts: &Vec<Preview3dMesh>, chunks: &Vec<ChunkPos>) -> (r: Preview3dMesh)
    requires
        forall|k: int| 0 <= k < MESH_COUNTER_COUNT ==> #[trigger] counter_sum(parts@, k) <= usize::MAX,
    ensures
        r.chunk_meshes@ == all_chunk_meshes(parts@),
        is_min_surface_y(parts@, r.min_y as int),
        is_max_surface_y(parts@, r.max_y as int),
        exists|lo_x: int, hi_x: int, lo_z: int, hi_z: int| {
            &&& is_min_chunk_x(chunks@, lo_x)
            &&& is_max_chunk_x(chunks@, hi_x)
            &&& is_min_chunk_z(chunks@, lo_z)
            &&& is_max_chunk_z(chunks@, hi_z)
            &&& r.min_x == clamp_int(lo_x * 16, i32::MIN as int, i32::MAX as int)
            &&& r.max_x == clamp_int(
                clamp_int(clamp_int(hi_x + 1, i32::MIN as int, i32::MAX as int) * 16, i32::MIN as int, i32::MAX as int)
                    - 1,
                i32::MIN as int,
                i32::MAX as int,
            )
            &&& r.min_z == clamp_int(lo_z * 16, i32::MIN as int, i32::MAX as int)
            &&& r.max_z == clamp_int(
                clamp_int(clamp_int(hi_z + 1, i32::MIN as int, i32::MAX as int) * 16, i32::MIN as int, i32::MAX as int)
                    - 1,
                i32::MIN as int,
                i32::MAX as int,
            )
        },
        r.chunk_count == chunks@.len(),
        r.processed_chunk_count == (if counter_sum(parts@, 1) <= chunks@.len() {
            counter_sum(parts@, 1) as int
        } else {
            chunks@.len() as int
        }),
        forall|k: int| 0 <= k < MESH_COUNTER_COUNT && k != 1 ==> #[trigger] mesh_counter(r, k) == counter_sum(parts@, k),
{
    let (min_chunk_x, max_chunk_x, min_chunk_z, max_chunk_z) = chunk_extent(chunks);
    let (min_y, max_y) = surface_y_extent(parts);
    let sums = counter_sums(parts);
    let processed = if sums[1] <= chunks.len() {
        sums[1]
    } else {
        chunks.len()
    };
    let r = Preview3dMesh {
        chunk_meshes: concat_chunk_meshes(parts),
        min_y,
        max_y,
        min_x: sat_mul_i32(min_chunk_x, 16),
        max_x: sat_sub_i32(sat_mul_i32(sat_add_i32(max_chunk_x, 1), 16), 1),
        min_z: sat_mul_i32(min_chunk_z, 16),
        max_z: sat_sub_i32(sat_mul_i32(sat_add_i32(max_chunk_z, 1), 16), 1),
        missing_chunks: sums[0],
        chunk_count: chunks.len(),
        processed_chunk_count: processed,
        subchunk_count: sums[2],
        solid_block_count: sums[3],
        glass_block_count: sums[4],
        water_block_count: sums[5],
        lava_block_count: sums[6],
        face_count: sums[7],
        glass_face_count: sums[8],
        water_face_count: sums[9],
        lava_face_count: sums[10],
        culled_face_count: sums[11],
        omitted_face_count: sums[12],
        truncated_chunk_count: sums[13],
        vertex_budget: sums[14],
    };
    proof {
        assert(is_min_chunk_x(chunks@, min_chunk_x as int));
        assert(is_max_chunk_x(chunks@, max_chunk_x as int));
        assert(is_min_chunk_z(chunks@, min_chunk_z as int));
        assert(is_max_chunk_z(chunks@, max_chunk_z as int));
        assert forall|k: int| 0 <= k < MESH_COUNTER_COUNT && k != 1 implies #[trigger] mesh_counter(r, k) == counter_sum(parts@, k) by {
            assert(sums@[k] == counter_sum(parts@, k));
        }
        assert(sums@[1] == counter_sum(parts@, 1));
    }
    r
}

} // verus!
