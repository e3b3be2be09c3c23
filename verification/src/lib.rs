//! A shared pixel canvas: a fixed-size RGB raster, a first-in-first-out
//! write coordinator that applies single-pixel writes in batches, and a
//! time-windowed cache of the canvas's PNG encoding.
//!
//! Everything here is sequential and owns its data; callers that share a
//! canvas between threads wrap the pieces in their own locks.

pub mod cache;
pub mod canvas;
pub mod coordinator;
pub mod pixel;
pub mod service;
