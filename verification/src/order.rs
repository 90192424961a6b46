//! The order in which the two paths of a trial run, drawn at random.

use rand::Rng;
use vstd::prelude::*;
use vstd::seq_lib::to_multiset_contains;

verus! {

/// `rand::ThreadRng`, the handle to the random number generator of the running
/// thread. Nothing is known of what it holds.
#[verifier::external_type_specification]
#[verifier::external_body]
pub struct ExThreadRng(rand::ThreadRng);

/// `rand::thread_rng` hands out the generator of the running thread, seeding it
/// from the operating system on first use. Nothing is claimed of the generator.
/// It panics where the system has no entropy to seed it with.
pub assume_specification[ rand::thread_rng ]() -> (rng: rand::ThreadRng);

/// `rand::Rng::shuffle` rearranges a slice in place by a sequence of swaps, each
/// with a position drawn from the generator. So the two slots hold afterwards
/// what they held before, in one order or the other; which of the two is left
/// open.
#[verifier::external_body]
pub(crate) fn shuffle(rng: &mut rand::ThreadRng, order: &mut [u8; 2])
    ensures
        final(order)@.to_multiset() == old(order)@.to_multiset(),
{
    rng.shuffle(order);
}

/// The mark of the current path in an order of execution.
pub const CURRENT: u8 = 0;

/// The mark of the new path in an order of execution.
pub const NEW: u8 = 1;

/// An order of execution runs each of the two paths once.
pub open spec fn is_order(order: Seq<u8>) -> bool {
    order == seq![CURRENT, NEW] || order == seq![NEW, CURRENT]
}

/// Whatever rearrangement of the two marks comes back from a shuffle, it is an
/// order of execution.
pub proof fn lemma_rearranged_is_order(order: Seq<u8>)
    requires
        order.len() == 2,
        order.to_multiset() == seq![CURRENT, NEW].to_multiset(),
    ensures
        is_order(order),
{
    let start = seq![CURRENT, NEW];
    assert(start[0] == CURRENT && start[1] == NEW);
    assert(order.contains(CURRENT)) by {
        to_multiset_contains(start, CURRENT);
        to_multiset_contains(order, CURRENT);
    }
    assert(order.contains(NEW)) by {
        to_multiset_contains(start, NEW);
        to_multiset_contains(order, NEW);
    }
    assert(order =~= seq![CURRENT, NEW] || order =~= seq![NEW, CURRENT]);
}

/// Draws the order in which a trial runs its two paths.
pub fn draw_order() -> (order: [u8; 2])
    ensures
        is_order(order@),
{
    let mut rng = rand::thread_rng();
    let mut order: [u8; 2] = [CURRENT, NEW];
    shuffle(&mut rng, &mut order);
    proof {
        lemma_rearranged_is_order(order@);
    }
    order
}

} // verus!
