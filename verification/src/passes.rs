//! The post-processing passes.
pub mod blur;
pub mod chain;

pub use blur::BlurPass;
