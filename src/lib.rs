//! Sprite-sheet animation playback: clip definitions, per-entity playback
//! state, and the per-tick driver that advances it.
pub mod asset;
pub mod component;
pub mod hash;
pub mod laws;
pub mod system;

use vstd::prelude::*;

verus! {

} // verus!
