use crate::map_viewer::chunk_tree::{indexed_chunks, ChunkTreeState};
use crate::map_viewer::invalidation::{
    invalidate_tiles_for_chunks_with_options, manifest_probe_edit_summary, should_refresh_chunk_tree,
    tiles_invalidated, TileBookkeeping, TileInvalidation,
};
use crate::map_viewer::model::ChunkPos;
use crate::map_viewer::tiles::{coord_lt, spec_chunks_per_tile, tile_coords_for_chunks, tile_of, TileCoord};
use crate::text::spec_decimal;
use vstd::prelude::*;

verus! {

/// What a world edit asks the map to refresh.
pub struct MapEditInvalidation {
    pub affected_chunks: Vec<ChunkPos>,
    pub clear_tile_cache: bool,
    pub refresh_metadata: bool,
    pub refresh_overlays: bool,
}

/// What applying an edit's invalidation leaves for the caller to do: the
/// line for the manifest-probe diagnostics, how the tiles are refreshed, and
/// whether the overlays are queried again.
pub struct EditInvalidationOutcome {
    pub probe_summary: String,
    pub tiles: TileInvalidation,
    pub refresh_overlays: bool,
}

pub open spec fn sat_add_u64(a: u64, k: int) -> u64 {
    if a + k > u64::MAX {
        u64::MAX
    } else {
        (a + k) as u64
    }
}

/// Whether the tiles of `chunks` include `tile` (or the chunks map to no
/// tile at all).
pub open spec fn edit_touches_tile(chunks: Seq<ChunkPos>, cpt: int, tile: TileCoord) -> bool {
    (exists|i: int| 0 <= i < chunks.len() && tile_of(chunks[i], cpt) == tile) || chunks.len() == 0
}

/// The tiles that hold at least one of `chunks`.
pub open spec fn tiles_of_chunks(chunks: Seq<ChunkPos>, cpt: int) -> Set<TileCoord> {
    Set::new(|c: TileCoord| exists|i: int| 0 <= i < chunks.len() && tile_of(chunks[i], cpt) == c)
}

/// What the side panels show that an edit makes stale: the record detail,
/// the overlay query results and their paint, the selection statistics, and
/// whether an overlay query is due.
#[derive(Clone, Copy, Debug, PartialEq, Eq, Structural)]
pub struct ProfessionalPanelState {
    pub detail_shown: bool,
    pub overlays_loaded: bool,
    pub overlay_paint_loaded: bool,
    pub selection_stats_shown: bool,
    pub pending_overlay_refresh: bool,
}

/// The panels after an edit: the detail closes; when overlays are refreshed
/// their results, paint and the selection statistics go and a query is due.
pub open spec fn panel_after_edit(before: ProfessionalPanelState, refresh_overlays: bool) -> ProfessionalPanelState {
    if refresh_overlays {
        ProfessionalPanelState {
            detail_shown: false,
            overlays_loaded: false,
            overlay_paint_loaded: false,
            selection_stats_shown: false,
            pending_overlay_refresh: true,
        }
    } else {
        ProfessionalPanelState { detail_shown: false, ..before }
    }
}

/// Everything applying `invalidation` does, from the bookkeeping, chunk tree
/// and panels before to those after, with outcome `r`.
pub open spec fn edit_invalidation_applied(
    book0: TileBookkeeping,
    book1: TileBookkeeping,
    tree0: ChunkTreeState,
    tree1: ChunkTreeState,
    panel0: ProfessionalPanelState,
    panel1: ProfessionalPanelState,
    invalidation: MapEditInvalidation,
    reuse_known_tile_index: bool,
    layout_chunks_per_tile: u32,
    fallback: i32,
    metadata_loading: bool,
    r: EditInvalidationOutcome,
) -> bool {
    let chunks = invalidation.affected_chunks@;
    let cpt = spec_chunks_per_tile(layout_chunks_per_tile, fallback);
    &&& book1.wf()
    &&& invalidation.clear_tile_cache ==> tiles_invalidated(book0, book1, chunks, reuse_known_tile_index, cpt, r.tiles)
    &&& !invalidation.clear_tile_cache ==> r.tiles is Nothing && book1 == book0
    &&& r.refresh_overlays == invalidation.refresh_overlays
    &&& panel1 == panel_after_edit(panel0, invalidation.refresh_overlays)
    &&& tree1.selected_tile == tree0.selected_tile
    &&& match tree0.selected_tile {
        None => tree1 == tree0,
        Some(tile) => {
            let refreshes = 1 + (if invalidation.clear_tile_cache && chunks.len() > 0 { 1int } else { 0int })
                + (if invalidation.refresh_metadata && edit_touches_tile(chunks, cpt, tile) {
                1int
            } else {
                0int
            });
            &&& tree1.chunks@ == indexed_chunks(book1.tile_chunk_index, tile)
            &&& tree1.loading == metadata_loading
            &&& tree1.generation == sat_add_u64(tree0.generation, refreshes)
            &&& tree1.selected_node is None
            &&& tree1.error is None
        },
    }
    &&& r.probe_summary@ == "chunks="@ + spec_decimal(chunks.len()) + " tiles="@
        + spec_decimal(tiles_of_chunks(chunks, cpt).len()) + " cache="@ + (if invalidation.clear_tile_cache { "true"@ } else { "false"@ })
        + " metadata="@ + (if invalidation.refresh_metadata { "true"@ } else { "false"@ }) + " overlays="@
        + (if invalidation.refresh_overlays { "true"@ } else { "false"@ })
}

/// Applies an edit's invalidation to the tile bookkeeping and the chunk tree:
/// the tiles of the edited chunks are invalidated when the tile cache is to
/// be cleared, and the chunk tree of the selected tile is rebuilt after that,
/// again when metadata is refreshed and the edit touches the selected tile,
/// and once more at the end.
pub fn apply_map_edit_invalidation_with_options(
    book: &mut TileBookkeeping,
    tree: &mut ChunkTreeState,
    panel: &mut ProfessionalPanelState,
    invalidation: &MapEditInvalidation,
    reuse_known_tile_index: bool,
    layout_chunks_per_tile: u32,
    fallback: i32,
    metadata_loading: bool,
) -> (r: EditInvalidationOutcome)
    requires
        old(book).wf(),
    ensures
        edit_invalidation_applied(
            *old(book),
            *final(book),
            *old(tree),
            *final(tree),
            *old(panel),
            *final(panel),
            *invalidation,
            reuse_known_tile_index,
            layout_chunks_per_tile,
            fallback,
            metadata_loading,
            r,
        ),
{
    let chunks = &invalidation.affected_chunks;
    let affected_tiles = tile_coords_for_chunks(chunks, layout_chunks_per_tile, fallback);
    let ghost cpt = spec_chunks_per_tile(layout_chunks_per_tile, fallback);
    proof {
        if chunks@.len() > 0 {
            let c0 = tile_of(chunks@[0], cpt);
            assert(affected_tiles@.contains(c0));
        } else {
            if affected_tiles@.len() > 0 {
                assert(affected_tiles@.contains(affected_tiles@[0]));
            }
        }
        if let Some(t) = tree.selected_tile {
            assert((affected_tiles@.contains(t) || affected_tiles@.len() == 0) == edit_touches_tile(chunks@, cpt, t));
        }
    }
    proof {
        assert(affected_tiles@.no_duplicates()) by {
            assert forall|i: int, j: int| 0 <= i < affected_tiles@.len() && 0 <= j < affected_tiles@.len() && i != j
                implies affected_tiles@[i] != affected_tiles@[j] by {
                if i < j {
                    assert(coord_lt(affected_tiles@[i], affected_tiles@[j]));
                } else {
                    assert(coord_lt(affected_tiles@[j], affected_tiles@[i]));
                }
            }
        }
        affected_tiles@.unique_seq_to_set();
        assert(affected_tiles@.to_set() =~= tiles_of_chunks(chunks@, cpt)) by {
            assert forall|c: TileCoord| affected_tiles@.to_set().contains(c) == tiles_of_chunks(chunks@, cpt).contains(c) by {
                assert(affected_tiles@.to_set().contains(c) == affected_tiles@.contains(c));
            }
        }
    }
    let probe_summary = manifest_probe_edit_summary(
        chunks.len(),
        affected_tiles.len(),
        invalidation.clear_tile_cache,
        invalidation.refresh_metadata,
        invalidation.refresh_overlays,
    );
    let tiles = if invalidation.clear_tile_cache {
        let t = invalidate_tiles_for_chunks_with_options(
            book,
            chunks,
            reuse_known_tile_index,
            layout_chunks_per_tile,
            fallback,
        );
        if chunks.len() > 0 {
            tree.refresh_chunk_tree_if_selected(&book.tile_chunk_index, metadata_loading);
        }
        t
    } else {
        TileInvalidation::Nothing
    };
    if invalidation.refresh_metadata {
        let refresh = match tree.selected_tile {
            Some(t) => should_refresh_chunk_tree(Some(t), &affected_tiles),
            None => false,
        };
        if refresh {
            tree.refresh_chunk_tree_if_selected(&book.tile_chunk_index, metadata_loading);
        }
    }
    if invalidation.refresh_overlays {
        panel.overlays_loaded = false;
        panel.overlay_paint_loaded = false;
        panel.selection_stats_shown = false;
        panel.pending_overlay_refresh = true;
    }
    panel.detail_shown = false;
    tree.refresh_chunk_tree_if_selected(&book.tile_chunk_index, metadata_loading);
    EditInvalidationOutcome { probe_summary, tiles, refresh_overlays: invalidation.refresh_overlays }
}


/// The same without reusing the known tile index: invalidated tiles drop
/// their images and manifest scan.
pub fn apply_map_edit_invalidation(
    book: &mut TileBookkeeping,
    tree: &mut ChunkTreeState,
    panel: &mut ProfessionalPanelState,
    invalidation: &MapEditInvalidation,
    layout_chunks_per_tile: u32,
    fallback: i32,
    metadata_loading: bool,
) -> (r: EditInvalidationOutcome)
    requires
        old(book).wf(),
    ensures
        edit_invalidation_applied(
            *old(book),
            *final(book),
            *old(tree),
            *final(tree),
            *old(panel),
            *final(panel),
            *invalidation,
            false,
            layout_chunks_per_tile,
            fallback,
            metadata_loading,
            r,
        ),
{
    apply_map_edit_invalidation_with_options(
        book,
        tree,
        panel,
        invalidation,
        false,
        layout_chunks_per_tile,
        fallback,
        metadata_loading,
    )
}

} // verus!
