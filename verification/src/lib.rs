//! Core logic of a path-tracing still-image renderer.
//!
//! The renderer casts rays through a pixel grid, intersects them against
//! scene geometry, and follows bounces until a depth budget runs out, a
//! surface absorbs the ray, or the ray escapes to the sky.  The numeric
//! work runs on machine reals outside this crate; everything the pipeline
//! *decides* — which intersection distance is admissible, which root of the
//! sphere quadratic is taken, which object is nearest, when a bounce chain
//! terminates and what it emits, where each pixel's bytes land in the output
//! grid — reads only orderings, counters and indices, and is verified here.
//!
//! Callers hand parametric distances in as order keys: unsigned integers
//! whose `<` order agrees with the order of the distances they stand for.
//! Any order-preserving encoding serves — the contracts depend on nothing
//! but the ordering — and the `key` module supplies one for IEEE doubles.

pub mod config;
pub mod grid;
pub mod interval;
pub mod key;
pub mod nearest;
pub mod trace;
