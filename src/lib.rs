//! Core logic of a pocket text-input device: a cursor over a fixed text
//! grid, a frame buffer with whole-buffer dirty tracking, and the key
//! dispatcher that ties the two together.
use vstd::prelude::*;

pub mod canvas;
pub mod cursor;
pub mod dispatch;

verus! {

} // verus!
