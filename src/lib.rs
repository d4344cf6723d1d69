//! Cards of a solitaire table: their sprites, flipping, picking up and
//! putting down, the starting grid and the depth order used for stacking.

pub mod card;
pub mod depth;
pub mod grid;
