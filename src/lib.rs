use vstd::prelude::*;

pub mod cursor;
pub mod error;
pub mod event;
pub mod geometry;
pub mod key;
pub mod style;
pub mod utilities;
pub mod window;

verus! {

} // verus!
