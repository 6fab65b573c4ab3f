//! Decision procedure of a chunk loader for an embedded scripting runtime.
//!
//! A chunk buffer handed to the loader holds either human-readable source
//! text or a precompiled binary chunk. The loader classifies the buffer by
//! its first byte, enforces an optional caller-supplied load mode, and then
//! plans the external work: compile the source, hand the result to the raw
//! load primitive, and release the compiled buffer exactly once. This crate
//! verifies those decisions; performing the external calls is left to an
//! unverified driver that follows the steps the loader hands out.

pub mod chunk;
pub mod loader;
