//! A per-frame bridge between a retained 2-D user-interface description
//! (lists of clipped, textured triangle meshes) and a stateful rasterizing
//! GPU backend.
//!
//! The library holds the decision-making core: the vertex-batch builder,
//! the per-primitive draw pipeline (scissor computation, texture
//! resolution, rasterizer-state bookkeeping) and the incremental texture
//! atlas. All of it computes plain data — command lists and pixel
//! buffers — that a thin unverified shell then feeds to the graphics
//! driver.

pub mod drawable;
mod monitor;
pub mod pipeline;
pub mod state;
pub mod table;
pub mod texture;
pub mod vertex_batch;

pub use drawable::Drawable;
pub use monitor::MonitorData;
pub use monitor::find_monitor;
