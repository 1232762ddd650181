//! Decks: ordered sequences of exclusively owned cards.
//!
//! One type serves draw piles, hands, discard piles, play areas, the shop row
//! and the shared supply alike. A deck is a bag with an exposed insertion
//! order; removal by index fails (is ruled out) when out of bounds rather
//! than clamping, and `remove_random` picks an index uniformly.

use crate::card::Card;
use crate::cards::{is_blob_wheel, is_brain_world, is_cutter, is_scout, is_viper};
use vstd::prelude::*;
use vstd::std_specs::iter::IteratorSpec;

verus! {

broadcast use vstd::seq_lib::group_to_multiset_ensures;

/// Relies on rand::random_range on `0..bound`: a uniformly distributed index
/// strictly below `bound`; the call panics only on an empty range, which the
/// precondition rules out.
#[verifier::external_body]
fn random_index(bound: usize) -> (r: usize)
    requires
        0 < bound,
    ensures
        r < bound,
{
    rand::random_range(0..bound)
}

/// An ordered sequence of owned cards.
#[verifier::ext_equal]
#[derive(Debug, PartialEq, Eq)]
pub struct Deck(Vec<Card>);

impl View for Deck {
    type V = Seq<Card>;

    closed spec fn view(&self) -> Seq<Card> {
        self.0@
    }
}

impl Deck {
    /// A deck with no card.
    pub fn empty() -> (r: Self)
        ensures
            r@ =~= Seq::<Card>::empty(),
    {
        Self(Vec::new())
    }

    /// Removes a uniformly random card.
    ///
    /// Fails with an explicit empty signal when the deck has no card;
    /// otherwise some held card leaves the deck and is returned, and the
    /// relative order of the remaining cards is kept.
    pub fn remove_random(&mut self) -> (r: Result<Card, ()>)
        ensures
            old(self)@.len() == 0 ==> r is Err && final(self)@ == old(self)@,
            old(self)@.len() > 0 ==> (r matches Ok(c) && exists|i: int|
                0 <= i < old(self)@.len() && c == old(self)@[i] && final(self)@
                    == old(self)@.remove(i)),
            old(self)@.len() > 0 ==> final(self)@.len() == old(self)@.len() - 1,
            r matches Ok(c) ==> old(self)@.to_multiset() == final(self)@.to_multiset().insert(c),
    {
        if self.is_empty() {
            Err(())
        } else {
            let index = random_index(self.len());
            let card = self.remove(index);
            proof {
                assert(card == old(self)@[index as int] && self@ == old(self)@.remove(index as int));
            }
            Ok(card)
        }
    }

    /// Removes the card at `index`. An out-of-bounds index is ruled out.
    pub fn remove(&mut self, index: usize) -> (r: Card)
        requires
            index < old(self)@.len(),
        ensures
            r == old(self)@[index as int],
            final(self)@ == old(self)@.remove(index as int),
            old(self)@.to_multiset() == final(self)@.to_multiset().insert(r),
    {
        self.0.remove(index)
    }

    /// Removes the last card in constant time. An empty deck is ruled out.
    ///
    /// Draining a whole deck this way visits the cards in reverse insertion
    /// order, so it must not be relied on to preserve that order.
    pub fn remove_last(&mut self) -> (r: Card)
        requires
            old(self)@.len() > 0,
        ensures
            r == old(self)@.last(),
            final(self)@ == old(self)@.drop_last(),
            old(self)@.to_multiset() == final(self)@.to_multiset().insert(r),
    {
        let index = self.0.len() - 1;
        let r = self.0.remove(index);
        proof {
            assert(self@ =~= old(self)@.drop_last());
        }
        r
    }

    /// Appends a card.
    pub fn push(&mut self, card: Card)
        ensures
            final(self)@ == old(self)@.push(card),
            final(self)@.to_multiset() == old(self)@.to_multiset().insert(card),
    {
        self.0.push(card)
    }

    /// Swaps the card at `index` for `card` and hands the old one out.
    pub fn replace(&mut self, index: usize, card: Card) -> (r: Card)
        requires
            index < old(self)@.len(),
        ensures
            r == old(self)@[index as int],
            final(self)@ == old(self)@.update(index as int, card),
    {
        let r = self.0.remove(index);
        self.0.insert(index, card);
        proof {
            assert(self@ =~= old(self)@.update(index as int, card));
        }
        r
    }

    /// Moves the card at `index` of `from` to the end of this deck.
    pub fn pick_at(&mut self, index: usize, from: &mut Deck)
        requires
            index < old(from)@.len(),
        ensures
            final(self)@ == old(self)@.push(old(from)@[index as int]),
            final(from)@ == old(from)@.remove(index as int),
    {
        let card = from.remove(index);
        self.push(card);
    }

    /// How many cards the deck holds.
    pub fn len(&self) -> (r: usize)
        ensures
            r == self@.len(),
    {
        self.0.len()
    }

    /// Whether the deck holds no card.
    pub fn is_empty(&self) -> (r: bool)
        ensures
            r == (self@.len() == 0),
    {
        self.len() == 0
    }

    /// An iterator over the held cards, front to back.
    pub fn iter(&self) -> (r: std::slice::Iter<'_, Card>)
        ensures
            r.remaining() == self@.as_ref(),
    {
        self.0.as_slice().iter()
    }

    /// Read access to the card at `index`.
    pub fn get(&self, index: usize) -> (r: &Card)
        requires
            index < self@.len(),
        ensures
            *r == self@[index as int],
    {
        &self.0[index]
    }

    /// The fixed starting draw pile of a player: two vipers, then eight
    /// scouts.
    pub fn starter_deck_player() -> (r: Self)
        ensures
            r@.len() == 10,
            forall|i: int| 0 <= i < 2 ==> is_viper(#[trigger] r@[i]),
            forall|i: int| 2 <= i < 10 ==> is_scout(#[trigger] r@[i]),
    {
        let mut deck = Self::empty();
        let mut i: usize = 0;
        while i < 2
            invariant
                i <= 2,
                deck@.len() == i,
                forall|j: int| 0 <= j < i ==> is_viper(#[trigger] deck@[j]),
            decreases 2 - i,
        {
            deck.push(Card::viper());
            i += 1;
        }
        let mut i: usize = 0;
        while i < 8
            invariant
                i <= 8,
                deck@.len() == 2 + i,
                forall|j: int| 0 <= j < 2 ==> is_viper(#[trigger] deck@[j]),
                forall|j: int| 2 <= j < 2 + i ==> is_scout(#[trigger] deck@[j]),
            decreases 8 - i,
        {
            deck.push(Card::scout());
            i += 1;
        }
        deck
    }

    /// The starting shared supply: the randomized remainder of the non-starter
    /// pool the shop is replenished from.
    pub fn starter_complete_deck() -> (r: Self)
        ensures
            r@.len() == 11,
            forall|i: int| 0 <= i < 2 ==> is_viper(#[trigger] r@[i]),
            forall|i: int| 2 <= i < 4 ==> is_scout(#[trigger] r@[i]),
            is_brain_world(r@[4]),
            forall|i: int| 5 <= i < 8 ==> is_cutter(#[trigger] r@[i]),
            forall|i: int| 8 <= i < 11 ==> is_blob_wheel(#[trigger] r@[i]),
    {
        let mut deck = Self::empty();
        let mut i: usize = 0;
        while i < 2
            invariant
                i <= 2,
                deck@.len() == i,
                forall|j: int| 0 <= j < i ==> is_viper(#[trigger] deck@[j]),
            decreases 2 - i,
        {
            deck.push(Card::viper());
            i += 1;
        }
        let mut i: usize = 0;
        while i < 2
            invariant
                i <= 2,
                deck@.len() == 2 + i,
                forall|j: int| 0 <= j < 2 ==> is_viper(#[trigger] deck@[j]),
                forall|j: int| 2 <= j < 2 + i ==> is_scout(#[trigger] deck@[j]),
            decreases 2 - i,
        {
            deck.push(Card::scout());
            i += 1;
        }
        // Machine
        deck.push(Card::brain_world());
        // Trade
        let mut i: usize = 0;
        while i < 3
            invariant
                i <= 3,
                deck@.len() == 5 + i,
                forall|j: int| 0 <= j < 2 ==> is_viper(#[trigger] deck@[j]),
                forall|j: int| 2 <= j < 4 ==> is_scout(#[trigger] deck@[j]),
                is_brain_world(deck@[4]),
                forall|j: int| 5 <= j < 5 + i ==> is_cutter(#[trigger] deck@[j]),
            decreases 3 - i,
        {
            deck.push(Card::cutter());
            i += 1;
        }
        // Blob
        let mut i: usize = 0;
        while i < 3
            invariant
                i <= 3,
                deck@.len() == 8 + i,
                forall|j: int| 0 <= j < 2 ==> is_viper(#[trigger] deck@[j]),
                forall|j: int| 2 <= j < 4 ==> is_scout(#[trigger] deck@[j]),
                is_brain_world(deck@[4]),
                forall|j: int| 5 <= j < 8 ==> is_cutter(#[trigger] deck@[j]),
                forall|j: int| 8 <= j < 8 + i ==> is_blob_wheel(#[trigger] deck@[j]),
            decreases 3 - i,
        {
            deck.push(Card::blob_wheel());
            i += 1;
        }
        deck
    }
}

} // verus!
