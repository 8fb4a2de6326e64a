//! The decisions of the timer's interrupt service routine.
//!
//! The routine first acknowledges the overflow, then samples the pin's level
//! from the output-data register, then writes the set/reset register once.
//! The two functions here supply the first and the last of these; the
//! sampling in between is the caller's.

use vstd::prelude::*;
use crate::action::{Action, Level};

verus! {

/// The write that inverts a pin currently at `level`.
pub open spec fn inverting_write(level: Level) -> Action {
    match level {
        Level::High => Action::ResetPin,
        Level::Low => Action::SetPin,
    }
}

/// Everything one invocation of the routine asks for, in order, when it finds
/// the pin at `level`.
pub open spec fn response(level: Level) -> Seq<Action> {
    seq![Action::ClearUpdateFlag, inverting_write(level)]
}

/// Number of writes to the set/reset register among `steps`.
pub open spec fn pin_writes(steps: Seq<Action>) -> nat
    decreases steps.len(),
{
    if steps.len() == 0 {
        0
    } else {
        pin_writes(steps.drop_last()) + if steps.last().is_pin_write() {
            1nat
        } else {
            0nat
        }
    }
}

/// The step with which every invocation begins: the overflow flag is cleared
/// before anything else, so that the request is not raised again on return.
pub fn acknowledge() -> (action: Action)
    ensures
        action == Action::ClearUpdateFlag,
        action == response(Level::Low)[0],
        action == response(Level::High)[0],
{
    Action::ClearUpdateFlag
}

/// The step that inverts the pin, given the level just sampled: a pin that
/// is high is reset, a pin that is low is set.
pub fn toggle(level: Level) -> (action: Action)
    ensures
        action == inverting_write(level),
        action == response(level)[1],
        action.is_pin_write(),
{
    match level {
        Level::High => Action::ResetPin,
        Level::Low => Action::SetPin,
    }
}

/// An invocation writes the set/reset register exactly once, whatever level
/// it finds: never twice, never not at all.
pub proof fn lemma_one_pin_write_per_invocation(level: Level)
    ensures
        response(level).len() == 2,
        pin_writes(response(level)) == 1,
        !response(level)[0].is_pin_write(),
        response(level)[1].is_pin_write(),
{
    let steps = response(level);
    let head = steps.drop_last();
    assert(head.len() == 1);
    assert(head.last() == Action::ClearUpdateFlag);
    assert(head.drop_last().len() == 0);
    assert(pin_writes(head.drop_last()) == 0);
    assert(pin_writes(head) == 0);
    assert(steps.last() == inverting_write(level));
}

} // verus!
