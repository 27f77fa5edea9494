//! Integer core of a real-time audio spectrum bar visualizer.
//!
//! The library frames raw capture bytes into the transform input, checks the
//! dimensions that every stage of the per-frame pipeline relies on, and lays
//! out the bar mesh: which vertex stands at which column and height, and the
//! static triangle list that fills each bar.
use vstd::prelude::*;

pub mod capture;
pub mod error;
pub mod mesh;

verus! {

/// Number of bars, and of PCM samples captured per frame.
pub const N: u32 = 1024;

/// Capture rate in Hz.
pub const SAMPLE_RATE: u32 = 44100;

} // verus!
