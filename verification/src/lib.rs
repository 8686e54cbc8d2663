pub mod bitmask;
pub mod bitscan;
pub mod chess_state;
pub mod shared;

use vstd::prelude::*;

verus! {

} // verus!
