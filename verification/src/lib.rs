//! Verified core of an audio-reactive visual: the band layout of a captured
//! sample window, the named parameters handed to a renderer, the fixed audio
//! graph and the per-frame driver that ties them together.
//!
//! The core never touches a floating-point number. Sample and parameter
//! values are carried through as an arbitrary `Copy` type, and what has to
//! be computed on them (the mean of a block of samples, the sine and the
//! cosine of the time) is computed by the caller and handed in.

pub mod bands;
pub mod driver;
pub mod graph;
pub mod params;
