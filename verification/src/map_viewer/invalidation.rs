use crate::map_viewer::model::ChunkPos;
use crate::map_viewer::tiles::{
    chunks_in_tile, coord_lt, coords_sorted, merge_chunks_into_tile_index, spec_chunks_per_tile,
    tile_coords_for_chunks, tile_of, TileChunkIndex, TileCoord,
};
use crate::text::spec_decimal;
use vstd::prelude::*;

verus! {

/// Removes `c` from a strictly sorted set of tile coordinates.
pub fn remove_coord(set: &mut Vec<TileCoord>, c: TileCoord)
    requires
        coords_sorted(old(set)@),
    ensures
        coords_sorted(final(set)@),
        final(set)@.to_set() == old(set)@.to_set().remove(c),
{
    let mut i: usize = 0;
    while i < set.len() && !(set[i].0 == c.0 && set[i].1 == c.1)
        invariant
            set@ == old(set)@,
            i <= set@.len(),
            forall|k: int| 0 <= k < i ==> #[trigger] set@[k] != c,
        decreases set@.len() - i,
    {
        i += 1;
    }
    if i == set.len() {
        proof {
            assert forall|x: TileCoord| #[trigger] set@.to_set().contains(x) == set@.to_set().remove(c).contains(x) by {
                if x == c {
                    assert(!set@.contains(c));
                }
            }
            assert(set@.to_set() =~= set@.to_set().remove(c));
        }
        return;
    }
    let ghost before = set@;
    proof {
        assert(before[i as int] == c);
    }
    set.remove(i);
    proof {
        assert forall|a: int, b: int| 0 <= a < b < set@.len() implies coord_lt(#[trigger] set@[a], #[trigger] set@[b]) by {
            if b < i {
                assert(set@[a] == before[a] && set@[b] == before[b]);
            } else if a < i {
                assert(set@[a] == before[a] && set@[b] == before[b + 1]);
            } else {
                assert(set@[a] == before[a + 1] && set@[b] == before[b + 1]);
            }
        }
        assert forall|x: TileCoord| #[trigger] set@.to_set().contains(x) == before.to_set().remove(c).contains(x) by {
            if set@.contains(x) {
                let k = choose|k: int| 0 <= k < set@.len() && set@[k] == x;
                if k < i {
                    assert(before[k] == x);
                    assert(coord_lt(before[k], before[i as int]));
                } else {
                    assert(before[k + 1] == x);
                    assert(coord_lt(before[i as int], before[k + 1]));
                }
            }
            if before.contains(x) && x != c {
                let k = choose|k: int| 0 <= k < before.len() && before[k] == x;
                if k < i {
                    assert(set@[k] == x);
                } else {
                    assert(k != i);
                    assert(set@[k - 1] == x);
                }
            }
        }
        assert(set@.to_set() =~= before.to_set().remove(c));
    }
}

/// Tile bookkeeping of the map viewer: which tiles have images ready, which
/// tiles the manifest probe has scanned, and which chunks each tile holds.
pub struct TileBookkeeping {
    pub available_tiles: Vec<TileCoord>,
    pub manifest_scanned_tiles: Vec<TileCoord>,
    pub tile_chunk_index: TileChunkIndex,
}

impl TileBookkeeping {
    pub open spec fn wf(&self) -> bool {
        &&& coords_sorted(self.available_tiles@)
        &&& coords_sorted(self.manifest_scanned_tiles@)
        &&& self.tile_chunk_index.wf()
    }
}

/// How the renderer is told to refresh after chunks changed.
pub enum TileInvalidation {
    /// No chunk changed.
    Nothing,
    /// The changed chunks map to no tile: every tile is refreshed.
    All,
    /// These tiles are refreshed; their images are dropped unless the known
    /// tile index is reused.
    Tiles { affected: Vec<TileCoord>, drop_images: bool },
}

/// What invalidating the tiles of `chunks` does to the bookkeeping, with
/// `cpt` chunks per tile side.
pub open spec fn tiles_invalidated(
    before: TileBookkeeping,
    after: TileBookkeeping,
    chunks: Seq<ChunkPos>,
    reuse_known_tile_index: bool,
    cpt: int,
    r: TileInvalidation,
) -> bool {
    &&& chunks.len() == 0 ==> (r is Nothing && after.available_tiles@ == before.available_tiles@
        && after.manifest_scanned_tiles@ == before.manifest_scanned_tiles@
        && forall|c: TileCoord| #[trigger] after.tile_chunk_index.positions(c) == before.tile_chunk_index.positions(c))
    &&& chunks.len() > 0 ==> (r matches TileInvalidation::Tiles { affected, drop_images } && {
        &&& drop_images == !reuse_known_tile_index
        &&& coords_sorted(affected@)
        &&& (forall|c: TileCoord| #[trigger] affected@.contains(c) <==> exists|i: int|
            0 <= i < chunks.len() && tile_of(chunks[i], cpt) == c)
        &&& after.available_tiles@.to_set() == before.available_tiles@.to_set().difference(affected@.to_set())
        &&& after.manifest_scanned_tiles@.to_set() == (if reuse_known_tile_index {
            before.manifest_scanned_tiles@.to_set()
        } else {
            before.manifest_scanned_tiles@.to_set().difference(affected@.to_set())
        })
        &&& forall|c: TileCoord| !(reuse_known_tile_index && affected@.contains(c)) ==> #[trigger] after.tile_chunk_index.positions(c) == before.tile_chunk_index.positions(c)
        &&& forall|c: TileCoord| reuse_known_tile_index && affected@.contains(c) ==> {
            let prior = match before.tile_chunk_index.positions(c) {
                Some(p) => p.to_set(),
                None => Set::empty(),
            };
            match #[trigger] after.tile_chunk_index.positions(c) {
                Some(p) => p.to_set() == prior.union(chunks_in_tile(chunks, c, cpt)),
                None => prior.union(chunks_in_tile(chunks, c, cpt)).is_empty(),
            }
        }
    })
}

/// Marks the tiles that hold the changed chunks as stale. With
/// `reuse_known_tile_index`, the changed chunks are added to the tile index
/// and the manifest scan and tile images are kept; otherwise the scan marks
/// and images of those tiles are dropped.
pub fn invalidate_tiles_for_chunks_with_options(
    book: &mut TileBookkeeping,
    chunks: &Vec<ChunkPos>,
    reuse_known_tile_index: bool,
    layout_chunks_per_tile: u32,
    fallback: i32,
) -> (r: TileInvalidation)
    requires
        old(book).wf(),
    ensures
        final(book).wf(),
        tiles_invalidated(
            *old(book),
            *final(book),
            chunks@,
            reuse_known_tile_index,
            spec_chunks_per_tile(layout_chunks_per_tile, fallback),
            r,
        ),
{
    if chunks.len() == 0 {
        return TileInvalidation::Nothing;
    }
    let affected = tile_coords_for_chunks(chunks, layout_chunks_per_tile, fallback);
    let ghost cpt = spec_chunks_per_tile(layout_chunks_per_tile, fallback);
    proof {
        let c0 = tile_of(chunks@[0], cpt);
        assert(affected@.contains(c0));
    }
    let ghost old_available = book.available_tiles@.to_set();
    let ghost old_scanned = book.manifest_scanned_tiles@.to_set();
    let ghost old_index = book.tile_chunk_index;
    let mut k: usize = 0;
    while k < affected.len()
        invariant
            book.wf(),
            cpt == spec_chunks_per_tile(layout_chunks_per_tile, fallback),
            k <= affected@.len(),
            coords_sorted(affected@),
            book.available_tiles@.to_set() == old_available.difference(affected@.subrange(0, k as int).to_set()),
            book.manifest_scanned_tiles@.to_set() == (if reuse_known_tile_index {
                old_scanned
            } else {
                old_scanned.difference(affected@.subrange(0, k as int).to_set())
            }),
            forall|c: TileCoord| !(reuse_known_tile_index && affected@.subrange(0, k as int).contains(c)) ==> #[trigger] book.tile_chunk_index.positions(c) == old_index.positions(c),
            forall|c: TileCoord| reuse_known_tile_index && affected@.subrange(0, k as int).contains(c) ==> {
                let before = match old_index.positions(c) {
                    Some(p) => p.to_set(),
                    None => Set::empty(),
                };
                match #[trigger] book.tile_chunk_index.positions(c) {
                    Some(p) => p.to_set() == before.union(chunks_in_tile(chunks@, c, cpt)),
                    None => before.union(chunks_in_tile(chunks@, c, cpt)).is_empty(),
                }
            },
        decreases affected@.len() - k,
    {
        let coord = affected[k];
        let ghost prefix = affected@.subrange(0, k as int);
        let ghost next = affected@.subrange(0, k + 1);
        proof {
            assert(next =~= prefix.push(coord));
            prefix.lemma_push_to_set_commute(coord);
            assert(!prefix.contains(coord)) by {
                if prefix.contains(coord) {
                    let j = choose|j: int| 0 <= j < prefix.len() && prefix[j] == coord;
                    assert(coord_lt(affected@[j], affected@[k as int]));
                }
            }
        }
        let ghost index_before = book.tile_chunk_index;
        proof {
            assert(index_before.positions(coord) == old_index.positions(coord));
        }
        if reuse_known_tile_index {
            merge_chunks_into_tile_index(&mut book.tile_chunk_index, coord, chunks, layout_chunks_per_tile, fallback);
        }
        remove_coord(&mut book.available_tiles, coord);
        if !reuse_known_tile_index {
            remove_coord(&mut book.manifest_scanned_tiles, coord);
        }
        proof {
            assert(book.available_tiles@.to_set() =~= old_available.difference(next.to_set()));
            if !reuse_known_tile_index {
                assert(book.manifest_scanned_tiles@.to_set() =~= old_scanned.difference(next.to_set()));
            }
            assert forall|c: TileCoord| !(reuse_known_tile_index && next.contains(c)) implies #[trigger] book.tile_chunk_index.positions(c) == old_index.positions(c) by {
                assert(next.to_set().contains(c) == next.contains(c));
                assert(prefix.to_set().contains(c) == prefix.contains(c));
            }
            assert forall|c: TileCoord| reuse_known_tile_index && next.contains(c) implies {
                let before = match old_index.positions(c) {
                    Some(p) => p.to_set(),
                    None => Set::empty(),
                };
                match #[trigger] book.tile_chunk_index.positions(c) {
                    Some(p) => p.to_set() == before.union(chunks_in_tile(chunks@, c, cpt)),
                    None => before.union(chunks_in_tile(chunks@, c, cpt)).is_empty(),
                }
            } by {
                assert(next.to_set().contains(c) == next.contains(c));
                assert(prefix.to_set().contains(c) == prefix.contains(c));
                if c != coord {
                    assert(prefix.contains(c));
                    assert(book.tile_chunk_index.positions(c) == index_before.positions(c));
                }
            }
        }
        k += 1;
    }
    proof {
        assert(affected@.subrange(0, affected@.len() as int) =~= affected@);
    }
    TileInvalidation::Tiles { affected, drop_images: !reuse_known_tile_index }
}

/// Whether the chunk tree shown for the selected tile must be rebuilt after
/// chunks changed in the given tiles: a tile is selected and either it is
/// among them or no tile is known to be affected.
pub fn should_refresh_chunk_tree(selected_tile: Option<TileCoord>, affected_tiles: &Vec<TileCoord>) -> (r: bool)
    ensures
        r == (match selected_tile {
            None => false,
            Some(t) => affected_tiles@.contains(t) || affected_tiles@.len() == 0,
        }),
{
    let t = match selected_tile {
        None => return false,
        Some(t) => t,
    };
    if affected_tiles.len() == 0 {
        return true;
    }
    let mut i: usize = 0;
    while i < affected_tiles.len()
        invariant
            selected_tile == Some(t),
            i <= affected_tiles@.len(),
            forall|k: int| 0 <= k < i ==> #[trigger] affected_tiles@[k] != t,
        decreases affected_tiles@.len() - i,
    {
        if affected_tiles[i].0 == t.0 && affected_tiles[i].1 == t.1 {
            proof {
                assert(affected_tiles@[i as int] == t);
                assert(affected_tiles@.contains(t));
            }
            return true;
        }
        i += 1;
    }
    false
}

/// The block at the middle of a chunk, used to centre the view on a
/// highlighted slime-chunk window.
pub fn chunk_center_block(chunk_x: i32, chunk_z: i32) -> (r: (i32, i32))
    requires
        i32::MIN <= chunk_x * 16 + 8 <= i32::MAX,
        i32::MIN <= chunk_z * 16 + 8 <= i32::MAX,
    ensures
        r.0 == chunk_x * 16 + 8,
        r.1 == chunk_z * 16 + 8,
{
    (chunk_x * 16 + 8, chunk_z * 16 + 8)
}

fn append_flag(text: &mut String, value: bool)
    ensures
        final(text)@ == old(text)@ + (if value { "true"@ } else { "false"@ }),
{
    if value {
        text.append("true");
    } else {
        text.append("false");
    }
}

/// The line recorded in the manifest-probe diagnostics for an edit: how many
/// chunks and tiles changed and which caches it refreshes.
pub fn manifest_probe_edit_summary(
    chunk_count: usize,
    tile_count: usize,
    clear_tile_cache: bool,
    refresh_metadata: bool,
    refresh_overlays: bool,
) -> (r: String)
    ensures
        r@ == "chunks="@ + spec_decimal(chunk_count as nat) + " tiles="@ + spec_decimal(tile_count as nat)
            + " cache="@ + (if clear_tile_cache { "true"@ } else { "false"@ }) + " metadata="@
            + (if refresh_metadata { "true"@ } else { "false"@ }) + " overlays="@
            + (if refresh_overlays { "true"@ } else { "false"@ }),
{
    let mut text = String::from_str("chunks=");
    crate::text::append_decimal(&mut text, chunk_count as u64);
    text.append(" tiles=");
    crate::text::append_decimal(&mut text, tile_count as u64);
    text.append(" cache=");
    append_flag(&mut text, clear_tile_cache);
    text.append(" metadata=");
    append_flag(&mut text, refresh_metadata);
    text.append(" overlays=");
    append_flag(&mut text, refresh_overlays);
    text
}

} // verus!
