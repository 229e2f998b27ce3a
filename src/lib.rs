//! Render-state binding and draw dispatch over a recording graphics context.
pub mod buffer;
pub mod descriptorset;
pub mod gpu;
pub mod layers;
pub mod pipeline;
pub mod texture;
