//! Window-side logic of a Minecraft Bedrock launcher: runtime metrics
//! bookkeeping for the debug window, import routing, and the map viewer's
//! tile, paste and edit bookkeeping, each stated over plain values.

pub mod arith;
pub mod debug_state;
pub mod text;
pub mod debug_console;
pub mod debug_memory;
pub mod debug_copy;
pub mod map_viewer;
pub mod import;
pub mod level_dat;
