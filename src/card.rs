use bevy::math::Vec2;
use vstd::prelude::*;

use crate::depth::DepthCounter;

verus! {

/// A 2D vector of bevy (glam's `Vec2`), carried as an opaque value.
#[verifier::external_type_specification]
#[verifier::external_body]
pub struct ExVec2(Vec2);

/// The four suits, in the order of the rows of the sprite sheet.
#[derive(Clone, Copy, Debug, PartialEq, Eq, Structural)]
pub enum Suit {
    Hearts,
    Diamonds,
    Spades,
    Clubs,
}

/// Identifies one of the 52 cards.
pub type CardID = usize;

/// Number of ranks in a suit, and of columns in the sprite sheet.
pub const RANKS: u8 = 13;

/// Sprite shown for a card that lies face down.
pub const FACE_DOWN_INDEX: u8 = 52;

impl Suit {
    /// Row of the suit in the sprite sheet.
    pub open spec fn spec_index(self) -> nat {
        match self {
            Suit::Hearts => 0,
            Suit::Diamonds => 1,
            Suit::Spades => 2,
            Suit::Clubs => 3,
        }
    }

    /// The suit whose row is `i`.
    pub open spec fn spec_from_index(i: nat) -> Suit {
        if i == 0 {
            Suit::Hearts
        } else if i == 1 {
            Suit::Diamonds
        } else if i == 2 {
            Suit::Spades
        } else {
            Suit::Clubs
        }
    }

    pub fn index(self) -> (r: u8)
        ensures
            r as nat == self.spec_index(),
            r < 4,
    {
        match self {
            Suit::Hearts => 0,
            Suit::Diamonds => 1,
            Suit::Spades => 2,
            Suit::Clubs => 3,
        }
    }

    pub fn from_index(i: u8) -> (s: Suit)
        requires
            i < 4,
        ensures
            s == Suit::spec_from_index(i as nat),
            s.spec_index() == i as nat,
    {
        if i == 0 {
            Suit::Hearts
        } else if i == 1 {
            Suit::Diamonds
        } else if i == 2 {
            Suit::Spades
        } else {
            Suit::Clubs
        }
    }
}

/// Sprite of a face-up card: one row of 13 per suit, one column per rank.
pub open spec fn face_sprite(suit: Suit, rank: nat) -> nat {
    suit.spec_index() * 13 + rank
}

/// A playing card on the table.
#[derive(Clone, Copy)]
pub struct Card {
    pub faceup: bool,
    pub id: CardID,
    pub rank: u8,
    pub suit: Suit,
    /// Where the pointer held the card when it was picked up; `None` while
    /// the card lies on the table.
    pub picked_up_offset: Option<Vec2>,
}

impl Card {
    /// The card's identity agrees with its suit and rank.
    pub open spec fn wf(&self) -> bool {
        &&& self.rank < 13
        &&& self.id as nat == face_sprite(self.suit, self.rank as nat)
    }

    pub open spec fn spec_sprite_index(&self) -> nat {
        if self.faceup {
            face_sprite(self.suit, self.rank as nat)
        } else {
            FACE_DOWN_INDEX as nat
        }
    }

    /// Index of the sprite that shows this card as it lies.
    pub fn sprite_index(&self) -> (r: usize)
        ensures
            r as nat == self.spec_sprite_index(),
    {
        if self.faceup {
            self.suit.index() as usize * 13 + self.rank as usize
        } else {
            FACE_DOWN_INDEX as usize
        }
    }
    /// The same card turned over.
    pub open spec fn flipped(self) -> Card {
        Card { faceup: !self.faceup, ..self }
    }

    /// The same card held at `offset`.
    pub open spec fn held_at(self, offset: Vec2) -> Card {
        Card { picked_up_offset: Some(offset), ..self }
    }

    /// The same card lying on the table.
    pub open spec fn released(self) -> Card {
        Card { picked_up_offset: None, ..self }
    }

    /// A card of the given rank and suit, lying on the table; its id is its
    /// face sprite.
    pub fn new(rank: u8, suit: Suit, faceup: bool) -> (c: Card)
        requires
            rank < RANKS,
        ensures
            c.wf(),
            c.rank == rank,
            c.suit == suit,
            c.faceup == faceup,
            c.picked_up_offset is None,
            c.id as nat == suit.spec_index() * 13 + rank as nat,
    {
        Card {
            faceup,
            id: suit.index() as usize * 13 + rank as usize,
            rank,
            suit,
            picked_up_offset: None,
        }
    }

    /// Turns the card over and returns the sprite it now shows.
    pub fn flip(&mut self) -> (index: usize)
        ensures
            *final(self) == old(self).flipped(),
            index as nat == final(self).spec_sprite_index(),
    {
        self.faceup = !self.faceup;
        self.sprite_index()
    }

    /// Turns the card over if it is the card `target`; returns the sprite it
    /// then shows, or `None` (and leaves it as it was) for another card.
    pub fn on_flip(&mut self, target: CardID) -> (index: Option<usize>)
        ensures
            old(self).id == target ==> *final(self) == old(self).flipped()
                && index == Some(final(self).spec_sprite_index() as usize),
            old(self).id != target ==> *final(self) == *old(self) && index is None,
    {
        if self.id == target {
            Some(self.flip())
        } else {
            None
        }
    }

    pub fn is_picked_up(&self) -> (r: bool)
        ensures
            r == self.picked_up_offset is Some,
    {
        self.picked_up_offset.is_some()
    }

    /// Picks the card up, held at `offset` from the pointer, and brings it in
    /// front of every other card: the shared depth counter goes up by one and
    /// its new value, returned, is the card's depth.
    pub fn pick_up(&mut self, offset: Vec2, depth: &mut DepthCounter) -> (level: u64)
        requires
            old(depth).top < u64::MAX,
        ensures
            *final(self) == old(self).held_at(offset),
            final(depth).top == old(depth).top + 1,
            level == final(depth).top,
    {
        self.picked_up_offset = Some(offset);
        depth.raise()
    }

    /// Picks the card up if it is the card `target` (see `pick_up`) and
    /// returns its new depth; another card, and the counter, stay as they
    /// were.
    pub fn on_pick_up(&mut self, target: CardID, offset: Vec2, depth: &mut DepthCounter) -> (level:
        Option<u64>)
        requires
            old(depth).top < u64::MAX,
        ensures
            old(self).id == target ==> *final(self) == old(self).held_at(offset)
                && final(depth).top == old(depth).top + 1
                && level == Some(final(depth).top),
            old(self).id != target ==> *final(self) == *old(self)
                && *final(depth) == *old(depth)
                && level is None,
    {
        if self.id == target {
            Some(self.pick_up(offset, depth))
        } else {
            None
        }
    }

    /// Puts the card down: whatever it was, it no longer follows the pointer.
    pub fn put_down(&mut self)
        ensures
            *final(self) == old(self).released(),
    {
        self.picked_up_offset = None;
    }
}

/// A face-up sprite determines the card: the suit is its row and the rank its
/// column, and it is never the face-down sprite.
pub proof fn lemma_face_sprite_invertible(suit: Suit, rank: nat)
    requires
        rank < 13,
    ensures
        face_sprite(suit, rank) < FACE_DOWN_INDEX as nat,
        face_sprite(suit, rank) / 13 == suit.spec_index(),
        face_sprite(suit, rank) % 13 == rank,
        Suit::spec_from_index(face_sprite(suit, rank) / 13) == suit,
{
    let i = face_sprite(suit, rank);
    vstd::arithmetic::div_mod::lemma_fundamental_div_mod_converse(
        i as int,
        13,
        suit.spec_index() as int,
        rank as int,
    );
}

/// Two cards of valid rank show the same face-up sprite only if they have the
/// same suit and rank.
pub proof fn lemma_face_sprite_injective(s1: Suit, r1: nat, s2: Suit, r2: nat)
    requires
        r1 < 13,
        r2 < 13,
        face_sprite(s1, r1) == face_sprite(s2, r2),
    ensures
        s1 == s2,
        r1 == r2,
{
    lemma_face_sprite_invertible(s1, r1);
    lemma_face_sprite_invertible(s2, r2);
}

/// A face-down card always shows the face-down sprite, whatever it is.
pub proof fn lemma_face_down_sprite(c: Card)
    requires
        !c.faceup,
    ensures
        c.spec_sprite_index() == FACE_DOWN_INDEX as nat,
{
}

/// Turning a card over twice gives back the same card, and so the same sprite.
pub proof fn lemma_flip_twice(c: Card)
    ensures
        c.flipped().flipped() == c,
        c.flipped().flipped().spec_sprite_index() == c.spec_sprite_index(),
{
}

} // verus!
