use vstd::arithmetic::div_mod::{lemma_fundamental_div_mod, lemma_fundamental_div_mod_converse};
use vstd::prelude::*;

use crate::card::{lemma_face_sprite_injective, Card, Suit, RANKS};
use crate::depth::DepthCounter;

verus! {

/// Where a card of the starting grid lies: its centre in table units and its
/// depth.
#[derive(Clone, Copy, Debug, PartialEq, Eq, Structural)]
pub struct GridPosition {
    pub x: i32,
    pub y: i32,
    pub depth: u64,
}

/// Horizontal distance between the centres of two neighbouring columns.
pub const COLUMN_WIDTH: i32 = 40;

/// Vertical distance between the centres of two neighbouring rows.
pub const ROW_HEIGHT: i32 = 54;

/// The grid has 13 columns and 4 rows, centred on the origin, every card at
/// depth 0.
pub open spec fn spec_grid_position(column: int, row: int) -> GridPosition {
    GridPosition {
        x: (COLUMN_WIDTH * column - COLUMN_WIDTH * 6) as i32,
        y: (ROW_HEIGHT * row - ROW_HEIGHT * 3 / 2) as i32,
        depth: 0,
    }
}

/// Entry `k` of the grid: the card of rank `k / 4` and suit row `k % 4`,
/// face up, in that column and row.
pub open spec fn is_grid_entry(e: (Card, GridPosition), k: int) -> bool {
    &&& e.0.wf()
    &&& e.0.rank == k / 4
    &&& e.0.suit == Suit::spec_from_index((k % 4) as nat)
    &&& e.0.faceup
    &&& e.0.picked_up_offset is None
    &&& e.1 == spec_grid_position(k / 4, k % 4)
}

/// Position of the card in `column` and `row` of the starting grid.
pub fn grid_position(column: u8, row: u8) -> (p: GridPosition)
    requires
        column < RANKS,
        row < 4,
    ensures
        p == spec_grid_position(column as int, row as int),
{
    GridPosition {
        x: COLUMN_WIDTH * column as i32 - COLUMN_WIDTH * 6,
        y: ROW_HEIGHT * row as i32 - ROW_HEIGHT * 3 / 2,
        depth: 0,
    }
}

/// All 52 cards face up, one column per rank and one row per suit, listed
/// column by column. Every card appears once.
pub fn card_grid() -> (grid: Vec<(Card, GridPosition)>)
    ensures
        grid@.len() == 52,
        forall|k: int| 0 <= k < 52 ==> #[trigger] is_grid_entry(grid@[k], k),
        forall|a: int, b: int|
            0 <= a < 52 && 0 <= b < 52 && a != b ==> grid@[a].0.id != grid@[b].0.id,
{
    let mut grid: Vec<(Card, GridPosition)> = Vec::new();
    let mut i: u8 = 0;
    while i < RANKS
        invariant
            i <= 13,
            grid@.len() == i * 4,
            forall|k: int| 0 <= k < grid@.len() ==> #[trigger] is_grid_entry(grid@[k], k),
        decreases 13 - i,
    {
        let mut s: u8 = 0;
        while s < 4
            invariant
                i < 13,
                s <= 4,
                grid@.len() == i * 4 + s,
                forall|k: int| 0 <= k < grid@.len() ==> #[trigger] is_grid_entry(grid@[k], k),
            decreases 4 - s,
        {
            let card = Card::new(i, Suit::from_index(s), true);
            let pos = grid_position(i, s);
            proof {
                lemma_fundamental_div_mod_converse(i * 4 + s, 4, i as int, s as int);
            }
            grid.push((card, pos));
            s = s + 1;
        }
        i = i + 1;
    }
    assert forall|a: int, b: int| 0 <= a < 52 && 0 <= b < 52 && a != b implies grid@[a].0.id
        != grid@[b].0.id by {
        assert(is_grid_entry(grid@[a], a));
        assert(is_grid_entry(grid@[b], b));
        if grid@[a].0.id == grid@[b].0.id {
            lemma_face_sprite_injective(
                grid@[a].0.suit,
                grid@[a].0.rank as nat,
                grid@[b].0.suit,
                grid@[b].0.rank as nat,
            );
            lemma_fundamental_div_mod(a, 4);
            lemma_fundamental_div_mod(b, 4);
        }
    }
    grid
}

impl DepthCounter {
    /// A counter whose front is the deepest card of `grid`, so that the next
    /// card picked up goes above all of them.
    pub fn above_grid(grid: &Vec<(Card, GridPosition)>) -> (c: DepthCounter)
        requires
            grid@.len() > 0,
        ensures
            exists|k: int| 0 <= k < grid@.len() && c.top == #[trigger] grid@[k].1.depth,
            forall|k: int| 0 <= k < grid@.len() ==> #[trigger] grid@[k].1.depth <= c.top,
    {
        let mut top: u64 = grid[0].1.depth;
        let mut i: usize = 1;
        while i < grid.len()
            invariant
                1 <= i <= grid@.len(),
                exists|k: int| 0 <= k < i && top == #[trigger] grid@[k].1.depth,
                forall|k: int| 0 <= k < i ==> #[trigger] grid@[k].1.depth <= top,
            decreases grid@.len() - i,
        {
            if grid[i].1.depth > top {
                top = grid[i].1.depth;
            }
            i = i + 1;
        }
        DepthCounter { top }
    }
}

} // verus!
