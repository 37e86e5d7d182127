use crate::map_viewer::model::ChunkPos;
use crate::map_viewer::tiles::{lookup, TileChunkEntry, TileChunkIndex, TileCoord};
use vstd::prelude::*;

verus! {

/// The chunks the index records for tile `c`, none when it has no entry.
pub open spec fn indexed_chunks(index: TileChunkIndex, c: TileCoord) -> Seq<ChunkPos> {
    match index.positions(c) {
        Some(p) => p,
        None => Seq::empty(),
    }
}

fn copy_positions(v: &Vec<ChunkPos>) -> (r: Vec<ChunkPos>)
    ensures
        r@ == v@,
{
    let mut out: Vec<ChunkPos> = Vec::new();
    let mut i: usize = 0;
    while i < v.len()
        invariant
            i <= v@.len(),
            out@ == v@.subrange(0, i as int),
        decreases v@.len() - i,
    {
        out.push(v[i]);
        i += 1;
        proof {
            assert(out@ =~= v@.subrange(0, i as int));
        }
    }
    proof {
        assert(out@ =~= v@);
    }
    out
}

/// The chunks recorded for a tile, copied out of the index.
pub fn chunks_of_tile(index: &TileChunkIndex, c: TileCoord) -> (r: Vec<ChunkPos>)
    ensures
        r@ == indexed_chunks(*index, c),
{
    let mut i: usize = index.entries.len();
    proof {
        assert(index.entries@.subrange(0, i as int) =~= index.entries@);
    }
    while i > 0
        invariant
            i <= index.entries@.len(),
            lookup(index.entries@, c) == lookup(index.entries@.subrange(0, i as int), c),
        decreases i,
    {
        let ghost pre = index.entries@.subrange(0, i as int);
        i -= 1;
        proof {
            assert(pre.drop_last() =~= index.entries@.subrange(0, i as int));
        }
        let entry: &TileChunkEntry = &index.entries[i];
        if entry.coord.0 == c.0 && entry.coord.1 == c.1 {
            return copy_positions(&entry.positions);
        }
    }
    Vec::new()
}

/// The chunk tree shown for a selected tile in the bottom panel.
pub struct ChunkTreeState {
    pub generation: u64,
    pub selected_tile: Option<TileCoord>,
    pub chunks: Vec<ChunkPos>,
    pub loading: bool,
    pub selected_node: Option<String>,
    pub error: Option<String>,
}

impl ChunkTreeState {
    pub fn new() -> (r: Self)
        ensures
            r.generation == 0,
            r.selected_tile is None,
            r.chunks@.len() == 0,
            !r.loading,
            r.selected_node is None,
            r.error is None,
    {
        ChunkTreeState {
            generation: 0,
            selected_tile: None,
            chunks: Vec::new(),
            loading: false,
            selected_node: None,
            error: None,
        }
    }

    /// Shows the chunks the index records for `tile`, as a new generation of
    /// the tree, with no node selected and no error.
    pub fn refresh_chunk_tree_for_tile(&mut self, tile: TileCoord, index: &TileChunkIndex, metadata_loading: bool)
        ensures
            final(self).generation == (if old(self).generation == u64::MAX {
                u64::MAX
            } else {
                (old(self).generation + 1) as u64
            }),
            final(self).selected_tile == Some(tile),
            final(self).chunks@ == indexed_chunks(*index, tile),
            final(self).loading == metadata_loading,
            final(self).selected_node is None,
            final(self).error is None,
    {
        self.generation = self.generation.saturating_add(1);
        self.selected_tile = Some(tile);
        self.chunks = chunks_of_tile(index, tile);
        self.loading = metadata_loading;
        self.selected_node = None;
        self.error = None;
    }

    /// Refreshes the tree of the selected tile, if a tile is selected.
    pub fn refresh_chunk_tree_if_selected(&mut self, index: &TileChunkIndex, metadata_loading: bool)
        ensures
            match old(self).selected_tile {
                None => *final(self) == *old(self),
                Some(tile) => {
                    &&& final(self).selected_tile == Some(tile)
                    &&& final(self).chunks@ == indexed_chunks(*index, tile)
                    &&& final(self).loading == metadata_loading
                    &&& final(self).generation == (if old(self).generation == u64::MAX {
                        u64::MAX
                    } else {
                        (old(self).generation + 1) as u64
                    })
                    &&& final(self).selected_node is None
                    &&& final(self).error is None
                },
            },
    {
        if let Some(tile) = self.selected_tile {
            self.refresh_chunk_tree_for_tile(tile, index, metadata_loading);
        }
    }
}

} // verus!
