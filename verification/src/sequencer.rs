//! The start-up sequence as a state machine: each stage names the step that is
//! due, and the reported outcome of that step selects the stage that follows.
//!
//! The machine itself touches no hardware. Whoever drives it carries out
//! `Stage::action` and feeds the outcome to `Stage::next`.

use vstd::prelude::*;
use crate::action::{Action, Outcome};
use crate::config::{AUTO_RELOAD, PRESCALER};

verus! {

/// Where the start-up sequence stands. A stage is named after the step that
/// is due while the machine is in it.
#[derive(Clone, Copy, Debug, PartialEq, Eq, Structural)]
pub enum Stage {
    ClaimingDevice,
    ClaimingCore,
    ClockingPort,
    ConfiguringPin,
    ClockingTimer,
    EnablingUpdateInterrupt,
    SettingPrescaler,
    SettingAutoReload,
    StartingCounter,
    UnmaskingInterrupt,
    /// Start-up is complete; the main context only sleeps from here on.
    Idle,
    /// A claim was refused; the device stays halted.
    Halted,
}

/// The steps of a start-up in which nothing is refused, in the order in which
/// they are carried out. Sleeping follows the last of them.
pub open spec fn startup_order() -> Seq<Action> {
    seq![
        Action::ClaimDevice,
        Action::ClaimCore,
        Action::EnableGpioClock,
        Action::ConfigurePinOutput,
        Action::EnableTimerClock,
        Action::EnableUpdateInterrupt,
        Action::SetPrescaler(PRESCALER),
        Action::SetAutoReload(AUTO_RELOAD),
        Action::StartCounter,
        Action::UnmaskTimerInterrupt,
    ]
}

impl Stage {
    /// Position of the stage in a start-up without refusals; `Idle` comes
    /// after the last step, and `Halted` has no position of its own.
    pub open spec fn ordinal(self) -> nat {
        match self {
            Stage::ClaimingDevice => 0,
            Stage::ClaimingCore => 1,
            Stage::ClockingPort => 2,
            Stage::ConfiguringPin => 3,
            Stage::ClockingTimer => 4,
            Stage::EnablingUpdateInterrupt => 5,
            Stage::SettingPrescaler => 6,
            Stage::SettingAutoReload => 7,
            Stage::StartingCounter => 8,
            Stage::UnmaskingInterrupt => 9,
            Stage::Idle => 10,
            Stage::Halted => 10,
        }
    }

    /// The step that is due in this stage.
    pub open spec fn due(self) -> Action {
        match self {
            Stage::Idle => Action::WaitForInterrupt,
            Stage::Halted => Action::Halt,
            _ => startup_order()[self.ordinal() as int],
        }
    }

    /// The stage that follows when the due step was carried out.
    pub open spec fn successor(self) -> Stage {
        match self {
            Stage::ClaimingDevice => Stage::ClaimingCore,
            Stage::ClaimingCore => Stage::ClockingPort,
            Stage::ClockingPort => Stage::ConfiguringPin,
            Stage::ConfiguringPin => Stage::ClockingTimer,
            Stage::ClockingTimer => Stage::EnablingUpdateInterrupt,
            Stage::EnablingUpdateInterrupt => Stage::SettingPrescaler,
            Stage::SettingPrescaler => Stage::SettingAutoReload,
            Stage::SettingAutoReload => Stage::StartingCounter,
            Stage::StartingCounter => Stage::UnmaskingInterrupt,
            Stage::UnmaskingInterrupt => Stage::Idle,
            Stage::Idle => Stage::Idle,
            Stage::Halted => Stage::Halted,
        }
    }

    /// The stage that follows on the given outcome of the due step: any
    /// refusal halts, anything else moves on.
    pub open spec fn following(self, outcome: Outcome) -> Stage {
        match outcome {
            Outcome::Completed => self.successor(),
            Outcome::Refused => Stage::Halted,
        }
    }

    /// The stage in which every run begins.
    pub fn initial() -> (stage: Stage)
        ensures
            stage == Stage::ClaimingDevice,
    {
        Stage::ClaimingDevice
    }

    /// The step to carry out now.
    pub fn action(&self) -> (action: Action)
        ensures
            action == self.due(),
    {
        match self {
            Stage::ClaimingDevice => Action::ClaimDevice,
            Stage::ClaimingCore => Action::ClaimCore,
            Stage::ClockingPort => Action::EnableGpioClock,
            Stage::ConfiguringPin => Action::ConfigurePinOutput,
            Stage::ClockingTimer => Action::EnableTimerClock,
            Stage::EnablingUpdateInterrupt => Action::EnableUpdateInterrupt,
            Stage::SettingPrescaler => Action::SetPrescaler(PRESCALER),
            Stage::SettingAutoReload => Action::SetAutoReload(AUTO_RELOAD),
            Stage::StartingCounter => Action::StartCounter,
            Stage::UnmaskingInterrupt => Action::UnmaskTimerInterrupt,
            Stage::Idle => Action::WaitForInterrupt,
            Stage::Halted => Action::Halt,
        }
    }

    /// Moves on from this stage, given how its step ended.
    pub fn next(self, outcome: Outcome) -> (stage: Stage)
        ensures
            stage == self.following(outcome),
    {
        match outcome {
            Outcome::Refused => Stage::Halted,
            Outcome::Completed => match self {
                Stage::ClaimingDevice => Stage::ClaimingCore,
                Stage::ClaimingCore => Stage::ClockingPort,
                Stage::ClockingPort => Stage::ConfiguringPin,
                Stage::ConfiguringPin => Stage::ClockingTimer,
                Stage::ClockingTimer => Stage::EnablingUpdateInterrupt,
                Stage::EnablingUpdateInterrupt => Stage::SettingPrescaler,
                Stage::SettingPrescaler => Stage::SettingAutoReload,
                Stage::SettingAutoReload => Stage::StartingCounter,
                Stage::StartingCounter => Stage::UnmaskingInterrupt,
                Stage::UnmaskingInterrupt => Stage::Idle,
                Stage::Idle => Stage::Idle,
                Stage::Halted => Stage::Halted,
            },
        }
    }

    /// Whether the machine has left the start-up steps behind, one way or
    /// the other.
    pub fn is_settled(&self) -> (settled: bool)
        ensures
            settled == (*self == Stage::Idle || *self == Stage::Halted),
    {
        match self {
            Stage::Idle | Stage::Halted => true,
            _ => false,
        }
    }
}

/// The stage reached from the initial one after the given outcomes, oldest
/// first.
pub open spec fn stage_after(outcomes: Seq<Outcome>) -> Stage
    decreases outcomes.len(),
{
    if outcomes.len() == 0 {
        Stage::ClaimingDevice
    } else {
        stage_after(outcomes.drop_last()).following(outcomes.last())
    }
}

/// Whether every outcome in the sequence is a completion.
pub open spec fn all_completed(outcomes: Seq<Outcome>) -> bool {
    forall|i: int| 0 <= i < outcomes.len() ==> outcomes[i] == Outcome::Completed
}

/// A run without refusals walks through `startup_order` step by step and then
/// sleeps for ever; a run with a refusal anywhere is halted.
pub proof fn lemma_run_follows_startup_order(outcomes: Seq<Outcome>)
    ensures
        all_completed(outcomes) && outcomes.len() < 10 ==> {
            &&& stage_after(outcomes).ordinal() == outcomes.len()
            &&& stage_after(outcomes).due() == startup_order()[outcomes.len() as int]
        },
        all_completed(outcomes) && outcomes.len() >= 10 ==> stage_after(outcomes) == Stage::Idle,
        !all_completed(outcomes) ==> stage_after(outcomes) == Stage::Halted,
    decreases outcomes.len(),
{
    if outcomes.len() > 0 {
        let earlier = outcomes.drop_last();
        lemma_run_follows_startup_order(earlier);
        if all_completed(outcomes) {
            assert forall|i: int| 0 <= i < earlier.len() implies earlier[i] == Outcome::Completed by {
                assert(earlier[i] == outcomes[i]);
            }
            assert(outcomes.last() == Outcome::Completed);
        } else {
            let i = choose|i: int| 0 <= i < outcomes.len() && outcomes[i] != Outcome::Completed;
            if i < earlier.len() {
                assert(earlier[i] == outcomes[i]);
                assert(!all_completed(earlier));
            } else {
                assert(outcomes.last() == Outcome::Refused);
            }
        }
    }
}

/// No register is written before both register sets have been claimed: a
/// stage whose step writes a register is reached only through completions,
/// at least two of them, and the first two steps are the claims.
pub proof fn lemma_writes_follow_claims(outcomes: Seq<Outcome>)
    requires
        stage_after(outcomes).due().is_register_write(),
    ensures
        all_completed(outcomes),
        2 <= outcomes.len() < 10,
        startup_order()[0] == Action::ClaimDevice,
        startup_order()[1] == Action::ClaimCore,
{
    lemma_run_follows_startup_order(outcomes);
}

/// Whether both steps occur in `order` and every occurrence of `earlier`
/// stands before every occurrence of `later`.
pub open spec fn precedes(order: Seq<Action>, earlier: Action, later: Action) -> bool {
    &&& order.contains(earlier)
    &&& order.contains(later)
    &&& forall|i: int, j: int|
        0 <= i < order.len() && 0 <= j < order.len() && order[i] == earlier && order[j] == later
            ==> i < j
}

/// Each peripheral's bus clock is switched on before any register of that
/// peripheral is written, the counter is started only once its interrupt
/// source and its period are set up, and enabling the interrupt line is the
/// last write of all: the main context touches no register once the service
/// routine can run.
pub proof fn lemma_startup_order_respects_dependencies()
    ensures
        startup_order().len() == 10,
        startup_order().last() == Action::UnmaskTimerInterrupt,
        Stage::Idle.due() == Action::WaitForInterrupt,
        Stage::Idle.following(Outcome::Completed) == Stage::Idle,
        precedes(startup_order(), Action::EnableGpioClock, Action::ConfigurePinOutput),
        precedes(startup_order(), Action::EnableTimerClock, Action::EnableUpdateInterrupt),
        precedes(startup_order(), Action::EnableTimerClock, Action::SetPrescaler(PRESCALER)),
        precedes(startup_order(), Action::EnableTimerClock, Action::SetAutoReload(AUTO_RELOAD)),
        precedes(startup_order(), Action::EnableTimerClock, Action::StartCounter),
        precedes(startup_order(), Action::EnableUpdateInterrupt, Action::StartCounter),
        precedes(startup_order(), Action::SetPrescaler(PRESCALER), Action::StartCounter),
        precedes(startup_order(), Action::SetAutoReload(AUTO_RELOAD), Action::StartCounter),
        precedes(startup_order(), Action::StartCounter, Action::UnmaskTimerInterrupt),
{
    let order = startup_order();
    assert(order[2] == Action::EnableGpioClock);
    assert(order[3] == Action::ConfigurePinOutput);
    assert(order[4] == Action::EnableTimerClock);
    assert(order[5] == Action::EnableUpdateInterrupt);
    assert(order[6] == Action::SetPrescaler(PRESCALER));
    assert(order[7] == Action::SetAutoReload(AUTO_RELOAD));
    assert(order[8] == Action::StartCounter);
    assert(order[9] == Action::UnmaskTimerInterrupt);
}

} // verus!
