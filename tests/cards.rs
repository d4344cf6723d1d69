use bevy::math::Vec2;
use card_table::card::{Card, Suit, FACE_DOWN_INDEX, RANKS};
use card_table::depth::{topmost, DepthCounter};
use card_table::grid::{card_grid, grid_position, GridPosition};

#[test]
fn suit_indices_round_trip() {
    let suits = [Suit::Hearts, Suit::Diamonds, Suit::Spades, Suit::Clubs];
    for (i, s) in suits.iter().enumerate() {
        assert_eq!(s.index() as usize, i);
        assert_eq!(Suit::from_index(i as u8), *s);
    }
}

#[test]
fn face_up_sprite_is_row_and_column() {
    assert_eq!(Card::new(0, Suit::Hearts, true).sprite_index(), 0);
    assert_eq!(Card::new(5, Suit::Diamonds, true).sprite_index(), 18);
    assert_eq!(Card::new(5, Suit::Spades, true).sprite_index(), 31);
    assert_eq!(Card::new(12, Suit::Clubs, true).sprite_index(), 51);
}

#[test]
fn face_down_sprite_is_sentinel() {
    for s in [Suit::Hearts, Suit::Diamonds, Suit::Spades, Suit::Clubs] {
        for r in 0..RANKS {
            let c = Card::new(r, s, false);
            assert_eq!(c.sprite_index(), FACE_DOWN_INDEX as usize);
            assert_eq!(c.sprite_index(), 52);
        }
    }
}

#[test]
fn face_up_sprites_are_distinct() {
    let mut seen = vec![false; 52];
    for s in [Suit::Hearts, Suit::Diamonds, Suit::Spades, Suit::Clubs] {
        for r in 0..RANKS {
            let i = Card::new(r, s, true).sprite_index();
            assert!(i < 52);
            assert!(!seen[i]);
            seen[i] = true;
        }
    }
}

#[test]
fn new_card_id_follows_suit_and_rank() {
    let c = Card::new(7, Suit::Spades, true);
    assert_eq!(c.id, 2 * 13 + 7);
    assert_eq!(c.rank, 7);
    assert_eq!(c.suit, Suit::Spades);
    assert!(c.faceup);
    assert!(c.picked_up_offset.is_none());
}

#[test]
fn flip_turns_card_over() {
    let mut c = Card::new(3, Suit::Diamonds, true);
    assert_eq!(c.flip(), 52);
    assert!(!c.faceup);
    assert_eq!(c.flip(), 16);
    assert!(c.faceup);
    assert_eq!(c.id, 16);
}

#[test]
fn flip_twice_restores_sprite() {
    let mut c = Card::new(11, Suit::Clubs, false);
    let before = c.sprite_index();
    c.flip();
    assert_ne!(c.sprite_index(), before);
    c.flip();
    assert_eq!(c.sprite_index(), before);
    assert!(!c.faceup);
}

#[test]
fn on_flip_only_turns_target() {
    let mut c = Card::new(2, Suit::Hearts, true);
    assert_eq!(c.on_flip(3), None);
    assert!(c.faceup);
    assert_eq!(c.on_flip(2), Some(52));
    assert!(!c.faceup);
}

#[test]
fn pick_up_raises_depth() {
    let mut c = Card::new(0, Suit::Hearts, true);
    let mut depth = DepthCounter { top: 4 };
    let level = c.pick_up(Vec2::new(1.5, -2.0), &mut depth);
    assert_eq!(level, 5);
    assert_eq!(depth.top, 5);
    assert_eq!(c.picked_up_offset, Some(Vec2::new(1.5, -2.0)));
    assert!(c.is_picked_up());
    let mut d = Card::new(1, Suit::Hearts, true);
    assert_eq!(d.pick_up(Vec2::ZERO, &mut depth), 6);
    assert!(level < depth.top);
}

#[test]
fn on_pick_up_ignores_other_cards() {
    let mut c = Card::new(4, Suit::Spades, true);
    let mut depth = DepthCounter { top: 0 };
    assert_eq!(c.on_pick_up(5, Vec2::new(3.0, 3.0), &mut depth), None);
    assert_eq!(depth.top, 0);
    assert!(!c.is_picked_up());
    assert_eq!(c.on_pick_up(30, Vec2::new(3.0, 3.0), &mut depth), Some(1));
    assert_eq!(depth.top, 1);
    assert_eq!(c.picked_up_offset, Some(Vec2::new(3.0, 3.0)));
}

#[test]
fn put_down_clears_offset() {
    let mut depth = DepthCounter { top: 0 };
    let mut held = Card::new(9, Suit::Diamonds, true);
    held.pick_up(Vec2::new(-4.0, 7.0), &mut depth);
    let mut lying = Card::new(10, Suit::Diamonds, false);
    held.put_down();
    lying.put_down();
    assert!(held.picked_up_offset.is_none());
    assert!(lying.picked_up_offset.is_none());
    assert_eq!(held.id, 22);
    assert!(held.faceup);
    assert!(!lying.faceup);
}

#[test]
fn grid_positions_are_centred() {
    assert_eq!(grid_position(0, 0), GridPosition { x: -240, y: -81, depth: 0 });
    assert_eq!(grid_position(6, 1), GridPosition { x: 0, y: -27, depth: 0 });
    assert_eq!(grid_position(12, 3), GridPosition { x: 240, y: 81, depth: 0 });
}

#[test]
fn grid_holds_every_card_once() {
    let grid = card_grid();
    assert_eq!(grid.len(), 52);
    let mut seen = vec![false; 52];
    for (card, _) in &grid {
        assert!(card.faceup);
        assert!(card.picked_up_offset.is_none());
        assert_eq!(card.sprite_index(), card.id);
        assert!(!seen[card.id]);
        seen[card.id] = true;
    }
    let (c, p) = grid[5];
    assert_eq!((c.rank, c.suit, c.id), (1, Suit::Diamonds, 14));
    assert_eq!(p, GridPosition { x: -200, y: -27, depth: 0 });
    let (c, p) = grid[51];
    assert_eq!((c.rank, c.suit, c.id), (12, Suit::Clubs, 51));
    assert_eq!(p, GridPosition { x: 240, y: 81, depth: 0 });
}

#[test]
fn depth_starts_above_grid() {
    let grid = card_grid();
    assert_eq!(DepthCounter::above_grid(&grid), DepthCounter { top: 0 });
    let mut grid = grid;
    grid[7].1.depth = 9;
    grid[8].1.depth = 3;
    assert_eq!(DepthCounter::above_grid(&grid).top, 9);
}

#[test]
fn topmost_prefers_deepest_and_last() {
    assert_eq!(topmost(&vec![]), None);
    assert_eq!(topmost(&vec![7]), Some(0));
    assert_eq!(topmost(&vec![0, 3, 1]), Some(1));
    assert_eq!(topmost(&vec![2, 5, 5, 1]), Some(2));
}

#[test]
fn picked_up_card_is_topmost() {
    let grid = card_grid();
    let mut depth = DepthCounter::above_grid(&grid);
    let mut levels: Vec<u64> = grid.iter().map(|e| e.1.depth).collect();
    let mut card = grid[20].0;
    levels[20] = card.pick_up(Vec2::new(0.0, 0.0), &mut depth);
    assert_eq!(topmost(&levels), Some(20));
}
