pub mod model;
pub mod helpers;
pub mod helpers_stable;
pub mod paste;
pub mod tiles;
pub mod records;
pub mod editor;
pub mod invalidation;
pub mod tile_layer;
pub mod canvas;
pub mod preview_mesh;
pub mod entity_labels;
pub mod selection_delete;
pub mod editor_document;
pub mod editor_rows;
pub mod structure_palette;
pub mod chunk_tree;
pub mod edit_invalidation;
pub mod exact_preview;
