use vstd::prelude::*;

verus! {

/// The depth of the front-most card. Each card picked up is given the next
/// depth, so the card touched last is drawn above all others.
#[derive(Clone, Copy, Debug, PartialEq, Eq, Structural)]
pub struct DepthCounter {
    pub top: u64,
}

impl DepthCounter {
    /// Moves the front one step forward and returns the new front depth.
    pub fn raise(&mut self) -> (level: u64)
        requires
            old(self).top < u64::MAX,
        ensures
            final(self).top == old(self).top + 1,
            level == final(self).top,
    {
        self.top = self.top + 1;
        self.top
    }
}

/// Entry `i` is the one drawn in front: no entry is deeper, and every later
/// entry is strictly shallower (of equally deep entries the last one wins).
pub open spec fn is_topmost(levels: Seq<u64>, i: int) -> bool {
    &&& 0 <= i < levels.len()
    &&& forall|j: int| 0 <= j < levels.len() ==> levels[j] <= levels[i]
    &&& forall|j: int| i < j < levels.len() ==> levels[j] < levels[i]
}

/// Of the cards under the pointer, given by their depths, the one that is
/// drawn in front; `None` when there is none.
pub fn topmost(levels: &Vec<u64>) -> (r: Option<usize>)
    ensures
        r is None <==> levels@.len() == 0,
        r matches Some(i) ==> is_topmost(levels@, i as int),
{
    if levels.len() == 0 {
        return None;
    }
    let mut best: usize = 0;
    let mut i: usize = 1;
    while i < levels.len()
        invariant
            1 <= i <= levels@.len(),
            best < i,
            forall|j: int| 0 <= j < i ==> levels@[j] <= levels@[best as int],
            forall|j: int| best < j < i ==> levels@[j] < levels@[best as int],
        decreases levels@.len() - i,
    {
        if levels[i] >= levels[best] {
            best = i;
        }
        i = i + 1;
    }
    Some(best)
}

/// A card raised to the new front depth, while every other card lies no deeper
/// than the old front, is the one drawn in front.
pub proof fn lemma_raised_card_is_topmost(levels: Seq<u64>, old_top: u64, i: int)
    requires
        0 <= i < levels.len(),
        levels[i] == old_top + 1,
        forall|j: int| 0 <= j < levels.len() && j != i ==> levels[j] <= old_top,
    ensures
        is_topmost(levels, i),
{
}

} // verus!
