//! Libraries: the cards that a player draws from, in the order in which
//! they will be drawn.

use crate::components::ObjectId;
use rand::seq::SliceRandom;
use vstd::prelude::*;

verus! {

/// `SliceRandom::shuffle` with `rand::thread_rng`: the items are put in a
/// random order. Whatever the order, the items are those that were there,
/// each as often as before.
#[verifier::external_body]
fn shuffle_in_place(cards: &mut Vec<ObjectId>)
    ensures
        final(cards)@.to_multiset() == old(cards)@.to_multiset(),
{
    cards.shuffle(&mut rand::thread_rng());
}

/// 401.1. When a game begins, each player's deck becomes their library.
pub struct Library {
    cards: Vec<ObjectId>,
}

impl View for Library {
    type V = Seq<ObjectId>;

    /// The objects of the library, in the order in which they are drawn.
    closed spec fn view(&self) -> Seq<ObjectId> {
        self.cards@
    }
}

impl Default for Library {
    /// The library without any card.
    fn default() -> (library: Library)
        ensures
            library@ == Seq::<ObjectId>::empty(),
    {
        Library { cards: Vec::new() }
    }
}

impl Library {
    /// The number of objects in the library.
    pub fn len(&self) -> (len: usize)
        ensures
            len == self@.len(),
    {
        self.cards.len()
    }

    /// The objects of the library, in the order in which they are drawn.
    pub fn cards(&self) -> (cards: &[ObjectId])
        ensures
            cards@ == self@,
    {
        self.cards.as_slice()
    }

    /// Puts an object at the end of the library.
    pub fn push(&mut self, object: ObjectId)
        ensures
            final(self)@ == old(self)@.push(object),
    {
        self.cards.push(object);
    }

    /// Shuffles the library using a thread-local random number generator.
    /// The library holds the same objects afterwards, each as often as
    /// before; only their order may have changed.
    pub fn shuffle(&mut self)
        ensures
            final(self)@.to_multiset() == old(self)@.to_multiset(),
            final(self)@.len() == old(self)@.len(),
            forall|object: ObjectId| final(self)@.contains(object) <==> old(self)@.contains(object),
            old(self)@.no_duplicates() ==> final(self)@.no_duplicates(),
    {
        let ghost before = self.cards@;
        shuffle_in_place(&mut self.cards);
        proof {
            let after = self.cards@;
            broadcast use vstd::seq_lib::to_multiset_len, vstd::seq_lib::to_multiset_contains;
            assert(after.len() == after.to_multiset().len());
            assert(before.len() == before.to_multiset().len());
            assert forall|object: ObjectId| after.contains(object) <==> before.contains(object) by {
                assert(after.contains(object) <==> after.to_multiset().count(object) > 0);
                assert(before.contains(object) <==> before.to_multiset().count(object) > 0);
            }
            if before.no_duplicates() {
                before.lemma_multiset_has_no_duplicates();
                after.lemma_multiset_has_no_duplicates_conv();
            }
        }
    }
}

} // verus!
