//! The vocabulary shared by the firmware's decision logic and whatever carries
//! its decisions out: the steps that can be asked for, and what comes back.

use vstd::prelude::*;

verus! {

/// Logic level of the output pin, as held in the port's output-data register.
#[derive(Clone, Copy, Debug, PartialEq, Eq, Structural)]
pub enum Level {
    Low,
    High,
}

impl Level {
    /// The other level.
    pub open spec fn flipped(self) -> Level {
        match self {
            Level::Low => Level::High,
            Level::High => Level::Low,
        }
    }

    /// The other level.
    pub fn inverted(self) -> (other: Level)
        ensures
            other == self.flipped(),
    {
        match self {
            Level::Low => Level::High,
            Level::High => Level::Low,
        }
    }

    /// The level reached from `self` after `toggles` inversions.
    pub open spec fn after_toggles(self, toggles: nat) -> Level {
        if toggles % 2 == 0 {
            self
        } else {
            self.flipped()
        }
    }
}

/// One of the two register sets whose exclusive use must be claimed before
/// anything is written.
#[derive(Clone, Copy, Debug, PartialEq, Eq, Structural)]
pub enum Block {
    /// The vendor's peripherals: clock controller, ports, timers.
    Device,
    /// The processor core's own peripherals, among them the interrupt
    /// controller.
    Core,
}

/// A single step that the firmware asks the hardware layer to carry out.
#[derive(Clone, Copy, Debug, PartialEq, Eq, Structural)]
pub enum Action {
    /// Claim exclusive use of the device register set.
    ClaimDevice,
    /// Claim exclusive use of the core register set.
    ClaimCore,
    /// Switch on the bus clock of the pin's port.
    EnableGpioClock,
    /// Put the pin into general-purpose output mode.
    ConfigurePinOutput,
    /// Switch on the bus clock of the timer.
    EnableTimerClock,
    /// Let a counter overflow raise an interrupt request.
    EnableUpdateInterrupt,
    /// Program the prescaler register.
    SetPrescaler(u16),
    /// Program the auto-reload register.
    SetAutoReload(u32),
    /// Start the counter.
    StartCounter,
    /// Enable the timer's line in the interrupt controller.
    UnmaskTimerInterrupt,
    /// Clear the overflow flag in the timer's status register.
    ClearUpdateFlag,
    /// Drive the pin high through the port's set/reset register.
    SetPin,
    /// Drive the pin low through the port's set/reset register.
    ResetPin,
    /// Sleep until an interrupt has been handled.
    WaitForInterrupt,
    /// Stop for good. Nothing follows this step.
    Halt,
}

impl Action {
    /// Whether carrying out the step stores to a memory-mapped register.
    pub open spec fn is_register_write(self) -> bool {
        match self {
            Action::ClaimDevice | Action::ClaimCore | Action::WaitForInterrupt | Action::Halt => false,
            _ => true,
        }
    }

    /// Whether the step is a store to the port's set/reset register.
    pub open spec fn is_pin_write(self) -> bool {
        self == Action::SetPin || self == Action::ResetPin
    }

    /// Whether carrying out the step stores to a memory-mapped register.
    pub fn writes_register(&self) -> (writes: bool)
        ensures
            writes == self.is_register_write(),
    {
        match self {
            Action::ClaimDevice | Action::ClaimCore | Action::WaitForInterrupt | Action::Halt => false,
            _ => true,
        }
    }

    /// Whether the step is a store to the port's set/reset register.
    pub fn writes_pin(&self) -> (writes: bool)
        ensures
            writes == self.is_pin_write(),
    {
        match self {
            Action::SetPin | Action::ResetPin => true,
            _ => false,
        }
    }
}

/// What the hardware layer reports back after a step.
#[derive(Clone, Copy, Debug, PartialEq, Eq, Structural)]
pub enum Outcome {
    /// The step was carried out.
    Completed,
    /// The step was a claim and the register set had been claimed before.
    Refused,
}

} // verus!
