//! Cel-shading and outline compositing for a post-processing pass.
//!
//! Every real-valued quantity is held in fixed point: an integer counts
//! thousandths of a unit (see [`settings::ONE`]).
pub mod banding;
pub mod edges;
pub mod image;
pub mod node;
pub mod pipeline;
pub mod settings;
pub mod shading;
