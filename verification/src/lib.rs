//! Verified core of a scrollable-tiling workspace: identifiers, the
//! floating/tiling focus state machine, grid-overview bookkeeping and the
//! sizing rules applied to newly opened windows.

pub mod ids;
pub mod floating_active;
pub mod workspace;
pub mod grid;
pub mod grid_render;
pub mod hotspot;
pub mod laws;
pub mod pixels;
pub mod sizing;
mod window_list;
