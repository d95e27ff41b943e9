//! A verified core for a small real-time renderer: the bookkeeping that maps
//! scene resources onto binding layouts, pipelines and render passes, and that
//! decides what is drawn each frame. The device work itself (windows, GPU
//! objects, floating-point math) is done by the caller, which follows the
//! plans computed here.
//!
//! Floating-point quantities are carried as IEEE-754 bit patterns (`u32` for
//! single, `u64` for double precision): the core stores and lays them out, it
//! never computes with them.

pub mod binding;
pub mod flags;
pub mod format;
pub mod graphics;
pub mod handle;
pub mod input;
pub mod pipeline;
pub mod render_pass;
pub mod renderer;
pub mod run;
pub mod scene;
pub mod setup;
pub mod shapes;
pub mod state;
pub mod vector;
pub mod vertex;
pub mod words;
