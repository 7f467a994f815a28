//! Inputs to the emulator.

use vstd::prelude::*;

verus! {

/// One discrete input for one emulation step, as the engine's integer code.
///
/// Any code can be written down; which codes a game accepts is told by its
/// legal and minimal action sets.
#[derive(Clone, Copy, Debug, PartialEq, Eq, Hash, Structural)]
pub struct Action(pub i32);

/// The actions that a sequence of engine codes stands for, in the same order.
pub open spec fn actions_of(codes: Seq<i32>) -> Seq<Action> {
    Seq::new(codes.len(), |i: int| Action(codes[i]))
}

/// Turns the codes that the engine wrote into actions, one for one.
pub fn actions_from_codes(codes: &Vec<i32>) -> (actions: Vec<Action>)
    ensures
        actions@ == actions_of(codes@),
{
    let mut actions: Vec<Action> = Vec::with_capacity(codes.len());
    let mut i: usize = 0;
    while i < codes.len()
        invariant
            i <= codes@.len(),
            actions@ == actions_of(codes@.take(i as int)),
        decreases codes@.len() - i,
    {
        actions.push(Action(codes[i]));
        i += 1;
        assert(actions@ =~= actions_of(codes@.take(i as int)));
    }
    assert(codes@.take(i as int) =~= codes@);
    actions
}

} // verus!
