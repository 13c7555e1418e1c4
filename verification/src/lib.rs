//! Planning and bookkeeping for a bloom post-processing pipeline: render-target
//! sizes, the ping-pong blur schedule and the order of passes in a frame.
pub mod buffers;
pub mod error;
pub mod full_screen_tri;
pub mod geometry;
pub mod input;
pub mod passes;
pub mod pipeline;
pub mod size;
pub mod target;
