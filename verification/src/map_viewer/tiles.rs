use crate::arith::div_euclid_i32;
use crate::map_viewer::model::{ChunkPos, Dimension};
use vstd::prelude::*;

verus! {

/// Tile coordinates `(x, z)`.
pub type TileCoord = (i32, i32);

/// Lexicographic order of tile coordinates.
pub open spec fn coord_lt(a: TileCoord, b: TileCoord) -> bool {
    a.0 < b.0 || (a.0 == b.0 && a.1 < b.1)
}

pub open spec fn dim_rank(d: Dimension) -> int {
    match d {
        Dimension::Overworld => 0,
        Dimension::Nether => 1,
        Dimension::End => 2,
        Dimension::Unknown(_) => 3,
    }
}

/// Declaration order of dimensions, custom ids ordered by value.
pub open spec fn dim_lt(a: Dimension, b: Dimension) -> bool {
    dim_rank(a) < dim_rank(b) || (match (a, b) {
        (Dimension::Unknown(x), Dimension::Unknown(y)) => x < y,
        _ => false,
    })
}

/// Order of chunk positions: by x, then z, then dimension.
pub open spec fn chunk_lt(a: ChunkPos, b: ChunkPos) -> bool {
    a.x < b.x || (a.x == b.x && (a.z < b.z || (a.z == b.z && dim_lt(a.dimension, b.dimension))))
}

pub open spec fn coords_sorted(s: Seq<TileCoord>) -> bool {
    forall|i: int, j: int| 0 <= i < j < s.len() ==> coord_lt(#[trigger] s[i], #[trigger] s[j])
}

pub open spec fn chunks_sorted(s: Seq<ChunkPos>) -> bool {
    forall|i: int, j: int| 0 <= i < j < s.len() ==> chunk_lt(#[trigger] s[i], #[trigger] s[j])
}

pub fn coord_less(a: TileCoord, b: TileCoord) -> (r: bool)
    ensures
        r == coord_lt(a, b),
{
    a.0 < b.0 || (a.0 == b.0 && a.1 < b.1)
}

pub fn dim_less(a: Dimension, b: Dimension) -> (r: bool)
    ensures
        r == dim_lt(a, b),
{
    let ra: u8 = match a {
        Dimension::Overworld => 0,
        Dimension::Nether => 1,
        Dimension::End => 2,
        Dimension::Unknown(_) => 3,
    };
    let rb: u8 = match b {
        Dimension::Overworld => 0,
        Dimension::Nether => 1,
        Dimension::End => 2,
        Dimension::Unknown(_) => 3,
    };
    if ra < rb {
        return true;
    }
    match (a, b) {
        (Dimension::Unknown(x), Dimension::Unknown(y)) => x < y,
        _ => false,
    }
}

pub fn chunk_less(a: ChunkPos, b: ChunkPos) -> (r: bool)
    ensures
        r == chunk_lt(a, b),
{
    a.x < b.x || (a.x == b.x && (a.z < b.z || (a.z == b.z && dim_less(a.dimension, b.dimension))))
}

proof fn lemma_chunk_lt_total(a: ChunkPos, b: ChunkPos)
    ensures
        chunk_lt(a, b) || chunk_lt(b, a) || a == b,
        !(chunk_lt(a, b) && chunk_lt(b, a)),
        !chunk_lt(a, a),
{
}

proof fn lemma_chunk_lt_trans(a: ChunkPos, b: ChunkPos, c: ChunkPos)
    requires
        chunk_lt(a, b),
        chunk_lt(b, c),
    ensures
        chunk_lt(a, c),
{
}

/// The tile that holds a chunk when a tile spans `cpt` chunks per side.
pub open spec fn tile_of(c: ChunkPos, cpt: int) -> TileCoord {
    ((c.x as int / cpt) as i32, (c.z as int / cpt) as i32)
}

/// Chunks per tile side from the render layout: its own value when it fits
/// an `i32`, otherwise the configured fallback, and never less than one.
pub open spec fn spec_chunks_per_tile(layout_value: u32, fallback: i32) -> int {
    let v = if layout_value <= i32::MAX { layout_value as int } else { fallback as int };
    if v >= 1 { v } else { 1 }
}

pub fn chunks_per_tile(layout_value: u32, fallback: i32) -> (r: i32)
    ensures
        r == spec_chunks_per_tile(layout_value, fallback),
        r >= 1,
{
    let v: i32 = if layout_value <= i32::MAX as u32 {
        layout_value as i32
    } else {
        fallback
    };
    if v >= 1 {
        v
    } else {
        1
    }
}

pub fn tile_of_chunk(c: ChunkPos, cpt: i32) -> (r: TileCoord)
    requires
        cpt >= 1,
    ensures
        r == tile_of(c, cpt as int),
{
    (div_euclid_i32(c.x, cpt), div_euclid_i32(c.z, cpt))
}

/// Inserts `coord` into a strictly sorted vector unless it is present.
pub fn insert_coord(out: &mut Vec<TileCoord>, coord: TileCoord)
    requires
        coords_sorted(old(out)@),
    ensures
        coords_sorted(final(out)@),
        forall|c: TileCoord| #[trigger] final(out)@.contains(c) <==> (old(out)@.contains(c) || c == coord),
{
    let mut p: usize = 0;
    while p < out.len() && coord_less(out[p], coord)
        invariant
            out@ == old(out)@,
            coords_sorted(out@),
            p <= out@.len(),
            forall|k: int| 0 <= k < p ==> coord_lt(#[trigger] out@[k], coord),
        decreases out@.len() - p,
    {
        p += 1;
    }
    if p < out.len() && out[p].0 == coord.0 && out[p].1 == coord.1 {
        proof {
            assert(out@[p as int] == coord);
            assert(out@.contains(coord));
        }
        return;
    }
    let ghost before = out@;
    out.insert(p, coord);
    proof {
        assert forall|i: int, j: int| 0 <= i < j < out@.len() implies coord_lt(
            #[trigger] out@[i],
            #[trigger] out@[j],
        ) by {
            if j < p {
                assert(out@[i] == before[i] && out@[j] == before[j]);
            } else if j == p {
                assert(out@[i] == before[i]);
            } else if i == p {
                assert(out@[j] == before[j - 1]);
                if j - 1 > p {
                    assert(coord_lt(before[p as int], before[j - 1]));
                }
            } else if i < p {
                assert(out@[i] == before[i] && out@[j] == before[j - 1]);
            } else {
                assert(out@[i] == before[i - 1] && out@[j] == before[j - 1]);
            }
        }
        assert(before == old(out)@);
        assert forall|c: TileCoord| #[trigger] out@.contains(c) <==> (before.contains(c) || c == coord) by {
            if out@.contains(c) {
                let k = choose|k: int| 0 <= k < out@.len() && out@[k] == c;
                if k < p {
                    assert(before[k] == c);
                } else if k > p {
                    assert(before[k - 1] == c);
                }
            }
            if before.contains(c) {
                let k = choose|k: int| 0 <= k < before.len() && before[k] == c;
                if k < p {
                    assert(out@[k] == c);
                } else {
                    assert(out@[k + 1] == c);
                }
            }
            if c == coord {
                assert(out@[p as int] == c);
            }
        }
    }
}

/// The tiles that hold the given chunks, each once, in ascending order.
pub fn tile_coords_for_chunks(chunks: &Vec<ChunkPos>, layout_chunks_per_tile: u32, fallback: i32) -> (r:
    Vec<TileCoord>)
    ensures
        coords_sorted(r@),
        forall|c: TileCoord| r@.contains(c) <==> exists|i: int|
            0 <= i < chunks@.len() && #[trigger] tile_of(
                chunks@[i],
                spec_chunks_per_tile(layout_chunks_per_tile, fallback),
            ) == c,
{
    let cpt = chunks_per_tile(layout_chunks_per_tile, fallback);
    let mut out: Vec<TileCoord> = Vec::new();
    let mut i: usize = 0;
    while i < chunks.len()
        invariant
            cpt as int == spec_chunks_per_tile(layout_chunks_per_tile, fallback),
            cpt >= 1,
            i <= chunks@.len(),
            coords_sorted(out@),
            forall|c: TileCoord| out@.contains(c) <==> exists|k: int|
                0 <= k < i && #[trigger] tile_of(chunks@[k], cpt as int) == c,
        decreases chunks@.len() - i,
    {
        let coord = tile_of_chunk(chunks[i], cpt);
        let ghost before = out@;
        insert_coord(&mut out, coord);
        proof {
            assert forall|c: TileCoord| out@.contains(c) <==> exists|k: int|
                0 <= k < i + 1 && #[trigger] tile_of(chunks@[k], cpt as int) == c by {
                if out@.contains(c) && c != coord {
                    assert(before.contains(c));
                }
                if c == coord {
                    assert(tile_of(chunks@[i as int], cpt as int) == c);
                }
                if exists|k: int| 0 <= k < i + 1 && #[trigger] tile_of(chunks@[k], cpt as int) == c {
                    let k = choose|k: int| 0 <= k < i + 1 && #[trigger] tile_of(chunks@[k], cpt as int) == c;
                    if k < i {
                        assert(before.contains(c));
                    }
                }
            }
        }
        i += 1;
    }
    out
}

/// Inserts `c` into a strictly sorted vector of chunks unless it is present.
pub fn insert_chunk(out: &mut Vec<ChunkPos>, c: ChunkPos)
    requires
        chunks_sorted(old(out)@),
    ensures
        chunks_sorted(final(out)@),
        final(out)@.to_set() == old(out)@.to_set().insert(c),
{
    let mut p: usize = 0;
    while p < out.len() && chunk_less(out[p], c)
        invariant
            out@ == old(out)@,
            chunks_sorted(out@),
            p <= out@.len(),
            forall|k: int| 0 <= k < p ==> chunk_lt(#[trigger] out@[k], c),
        decreases out@.len() - p,
    {
        p += 1;
    }
    if p < out.len() && out[p] == c {
        proof {
            assert(out@.to_set() =~= out@.to_set().insert(c));
        }
        return;
    }
    let ghost before = out@;
    proof {
        if p < out@.len() {
            lemma_chunk_lt_total(out@[p as int], c);
        }
    }
    out.insert(p, c);
    proof {
        assert forall|i: int, j: int| 0 <= i < j < out@.len() implies chunk_lt(
            #[trigger] out@[i],
            #[trigger] out@[j],
        ) by {
            if j < p {
                assert(out@[i] == before[i] && out@[j] == before[j]);
            } else if j == p {
                assert(out@[i] == before[i]);
            } else if i == p {
                assert(out@[j] == before[j - 1]);
                if j - 1 > p {
                    assert(chunk_lt(before[p as int], before[j - 1]));
                    lemma_chunk_lt_trans(c, before[p as int], before[j - 1]);
                }
            } else if i < p {
                assert(out@[i] == before[i] && out@[j] == before[j - 1]);
            } else {
                assert(out@[i] == before[i - 1] && out@[j] == before[j - 1]);
            }
        }
        assert forall|x: ChunkPos| #[trigger] out@.to_set().contains(x) <==> before.to_set().insert(c).contains(x) by {
            if out@.contains(x) {
                let k = choose|k: int| 0 <= k < out@.len() && out@[k] == x;
                if k < p {
                    assert(before[k] == x);
                } else if k > p {
                    assert(before[k - 1] == x);
                }
            }
            if before.contains(x) {
                let k = choose|k: int| 0 <= k < before.len() && before[k] == x;
                if k < p {
                    assert(out@[k] == x);
                } else {
                    assert(out@[k + 1] == x);
                }
            }
            if x == c {
                assert(out@[p as int] == x);
            }
        }
        assert(out@.to_set() =~= before.to_set().insert(c));
    }
}

/// The chunks known to lie in one tile, ascending.
pub struct TileChunkEntry {
    pub coord: TileCoord,
    pub positions: Vec<ChunkPos>,
}

/// The chunk positions known per tile.
pub struct TileChunkIndex {
    pub entries: Vec<TileChunkEntry>,
}

/// The positions recorded for tile `c`: the last entry for it.
pub open spec fn lookup(s: Seq<TileChunkEntry>, c: TileCoord) -> Option<Seq<ChunkPos>>
    decreases s.len(),
{
    if s.len() == 0 {
        None
    } else if s.last().coord == c {
        Some(s.last().positions@)
    } else {
        lookup(s.drop_last(), c)
    }
}

impl TileChunkIndex {
    /// Each tile appears once, with a non-empty ascending list of chunks.
    pub open spec fn wf(&self) -> bool {
        &&& forall|i: int, j: int|
            0 <= i < j < self.entries@.len() ==> #[trigger] self.entries@[i].coord
                != #[trigger] self.entries@[j].coord
        &&& forall|i: int|
            0 <= i < self.entries@.len() ==> chunks_sorted(#[trigger] self.entries@[i].positions@)
                && self.entries@[i].positions@.len() > 0
    }

    pub open spec fn positions(&self, c: TileCoord) -> Option<Seq<ChunkPos>> {
        lookup(self.entries@, c)
    }

    pub fn new() -> (r: Self)
        ensures
            r.wf(),
            forall|c: TileCoord| r.positions(c) is None,
    {
        TileChunkIndex { entries: Vec::new() }
    }
}

proof fn lemma_lookup_at(s: Seq<TileChunkEntry>, i: int)
    requires
        0 <= i < s.len(),
        forall|a: int, b: int| 0 <= a < b < s.len() ==> #[trigger] s[a].coord != #[trigger] s[b].coord,
    ensures
        lookup(s, s[i].coord) == Some(s[i].positions@),
    decreases s.len(),
{
    if i < s.len() - 1 {
        assert(s.last().coord != s[i].coord);
        assert(s.drop_last()[i] == s[i]);
        lemma_lookup_at(s.drop_last(), i);
    }
}

proof fn lemma_lookup_absent(s: Seq<TileChunkEntry>, c: TileCoord)
    requires
        forall|i: int| 0 <= i < s.len() ==> #[trigger] s[i].coord != c,
    ensures
        lookup(s, c) is None,
    decreases s.len(),
{
    if s.len() > 0 {
        assert(s.last().coord != c);
        assert forall|i: int| 0 <= i < s.drop_last().len() implies #[trigger] s.drop_last()[i].coord != c by {
            assert(s.drop_last()[i] == s[i]);
        }
        lemma_lookup_absent(s.drop_last(), c);
    }
}

proof fn lemma_lookup_some(s: Seq<TileChunkEntry>, c: TileCoord)
    requires
        lookup(s, c) is Some,
    ensures
        exists|i: int| 0 <= i < s.len() && #[trigger] s[i].coord == c && lookup(s, c) == Some(s[i].positions@),
    decreases s.len(),
{
    if s.last().coord != c {
        lemma_lookup_some(s.drop_last(), c);
        let i = choose|i: int| 0 <= i < s.drop_last().len() && #[trigger] s.drop_last()[i].coord == c
            && lookup(s.drop_last(), c) == Some(s.drop_last()[i].positions@);
        assert(s[i] == s.drop_last()[i]);
    } else {
        assert(s[s.len() - 1].coord == c);
    }
}

/// The chunks of `chunks` that lie in tile `coord`.
pub open spec fn chunks_in_tile(chunks: Seq<ChunkPos>, coord: TileCoord, cpt: int) -> Set<ChunkPos> {
    chunks.to_set().filter(|c: ChunkPos| tile_of(c, cpt) == coord)
}

/// Adds to the index entry of tile `coord` every given chunk that lies in
/// that tile. Other tiles keep their entries; a tile gains an entry only when
/// at least one chunk lies in it.
pub fn merge_chunks_into_tile_index(
    index: &mut TileChunkIndex,
    tile_coord: TileCoord,
    chunks: &Vec<ChunkPos>,
    layout_chunks_per_tile: u32,
    fallback: i32,
)
    requires
        old(index).wf(),
    ensures
        final(index).wf(),
        forall|c: TileCoord| c != tile_coord ==> #[trigger] final(index).positions(c) == old(index).positions(c),
        ({
            let added = chunks_in_tile(chunks@, tile_coord, spec_chunks_per_tile(layout_chunks_per_tile, fallback));
            let before = match old(index).positions(tile_coord) {
                Some(p) => p.to_set(),
                None => Set::empty(),
            };
            match final(index).positions(tile_coord) {
                Some(p) => chunks_sorted(p) && p.to_set() == before.union(added),
                None => before.union(added).is_empty(),
            }
        }),
{
    let cpt = chunks_per_tile(layout_chunks_per_tile, fallback);
    let ghost added = chunks_in_tile(chunks@, tile_coord, cpt as int);
    let mut k: usize = 0;
    while k < index.entries.len() && !(index.entries[k].coord.0 == tile_coord.0 && index.entries[k].coord.1 == tile_coord.1)
        invariant
            k <= index.entries@.len(),
            forall|i: int| 0 <= i < k ==> #[trigger] index.entries@[i].coord != tile_coord,
        decreases index.entries@.len() - k,
    {
        k += 1;
    }
    let found = k < index.entries.len();
    let mut positions: Vec<ChunkPos> = if found {
        let mut taken: Vec<ChunkPos> = Vec::new();
        let mut j: usize = 0;
        while j < index.entries[k].positions.len()
            invariant
                k < index.entries@.len(),
                j <= index.entries@[k as int].positions@.len(),
                taken@ == index.entries@[k as int].positions@.subrange(0, j as int),
            decreases index.entries@[k as int].positions@.len() - j,
        {
            taken.push(index.entries[k].positions[j]);
            j += 1;
            proof {
                assert(taken@ =~= index.entries@[k as int].positions@.subrange(0, j as int));
            }
        }
        proof {
            assert(taken@ =~= index.entries@[k as int].positions@);
        }
        taken
    } else {
        Vec::new()
    };
    let ghost before_set: Set<ChunkPos> = positions@.to_set();
    proof {
        if found {
            lemma_lookup_at(index.entries@, k as int);
        } else {
            lemma_lookup_absent(index.entries@, tile_coord);
        }
        assert(positions@.len() == 0 ==> positions@.to_set() =~= Set::empty());
    }
    let mut i: usize = 0;
    while i < chunks.len()
        invariant
            cpt >= 1,
            cpt as int == spec_chunks_per_tile(layout_chunks_per_tile, fallback),
            i <= chunks@.len(),
            chunks_sorted(positions@),
            positions@.to_set() == before_set.union(
                chunks@.subrange(0, i as int).to_set().filter(|c: ChunkPos| tile_of(c, cpt as int) == tile_coord),
            ),
        decreases chunks@.len() - i,
    {
        let ghost prev = chunks@.subrange(0, i as int);
        let c = chunks[i];
        let t = tile_of_chunk(c, cpt);
        if t.0 == tile_coord.0 && t.1 == tile_coord.1 {
            insert_chunk(&mut positions, c);
        }
        proof {
            let next = chunks@.subrange(0, i + 1);
            assert(next =~= prev.push(c));
            prev.lemma_push_to_set_commute(c);
            assert(next.to_set() =~= prev.to_set().insert(c));
            assert(positions@.to_set() =~= before_set.union(
                next.to_set().filter(|x: ChunkPos| tile_of(x, cpt as int) == tile_coord),
            ));
        }
        i += 1;
    }
    proof {
        assert(chunks@.subrange(0, chunks@.len() as int) =~= chunks@);
    }
    let ghost old_entries = index.entries@;
    proof {
        if found {
            let p0 = old_entries[k as int].positions@[0];
            assert(old_entries[k as int].positions@.contains(p0));
            assert(before_set.contains(p0));
            assert(positions@.to_set().contains(p0));
        }
    }
    if found {
        index.entries.set(k, TileChunkEntry { coord: tile_coord, positions });
        proof {
            assert forall|a: int, b: int| 0 <= a < b < index.entries@.len() implies #[trigger] index.entries@[a].coord != #[trigger] index.entries@[b].coord by {
                assert(old_entries[a].coord != old_entries[b].coord);
            }
            assert forall|a: int| 0 <= a < index.entries@.len() implies chunks_sorted(#[trigger] index.entries@[a].positions@)
                && index.entries@[a].positions@.len() > 0 by {
                if a != k {
                    assert(index.entries@[a] == old_entries[a]);
                }
            }
            lemma_lookup_at(index.entries@, k as int);
            assert forall|c: TileCoord| c != tile_coord implies #[trigger] lookup(index.entries@, c) == lookup(old_entries, c) by {
                if lookup(old_entries, c) is Some {
                    lemma_lookup_some(old_entries, c);
                    let j = choose|j: int| 0 <= j < old_entries.len() && #[trigger] old_entries[j].coord == c && lookup(old_entries, c) == Some(old_entries[j].positions@);
                    lemma_lookup_at(index.entries@, j);
                } else {
                    if exists|j: int| 0 <= j < index.entries@.len() && #[trigger] index.entries@[j].coord == c {
                        let j = choose|j: int| 0 <= j < index.entries@.len() && #[trigger] index.entries@[j].coord == c;
                        lemma_lookup_at(old_entries, j);
                    }
                    lemma_lookup_absent(index.entries@, c);
                }
            }
        }
    } else if positions.len() > 0 {
        index.entries.push(TileChunkEntry { coord: tile_coord, positions });
        proof {
            assert forall|a: int, b: int| 0 <= a < b < index.entries@.len() implies #[trigger] index.entries@[a].coord != #[trigger] index.entries@[b].coord by {
                if b < old_entries.len() {
                    assert(old_entries[a].coord != old_entries[b].coord);
                }
            }
            assert forall|a: int| 0 <= a < index.entries@.len() implies chunks_sorted(#[trigger] index.entries@[a].positions@)
                && index.entries@[a].positions@.len() > 0 by {
                if a < old_entries.len() {
                    assert(index.entries@[a] == old_entries[a]);
                }
            }
            assert(index.entries@.drop_last() =~= old_entries);
        }
    }
}

} // verus!
