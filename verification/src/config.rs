//! Compile-time choices: which pin toggles and how the timer is programmed,
//! and what period follows from the timer's settings.

use vstd::prelude::*;

verus! {

/// Index of the toggled pin within its port.
pub const PIN: u32 = 8;

/// Value programmed into the timer's prescaler register.
pub const PRESCALER: u16 = 1000;

/// Value programmed into the timer's auto-reload register.
pub const AUTO_RELOAD: u32 = 2000;

/// Nanoseconds in a second.
pub const NANOS_PER_SECOND: u64 = 1_000_000_000;

/// Number of bus-clock cycles between two counter overflows for the given
/// register values: the prescaler divides the clock by its value plus one,
/// and the counter takes the auto-reload value plus one steps to overflow.
pub open spec fn cycles_per_overflow(prescaler: u16, auto_reload: u32) -> int {
    (prescaler + 1) * (auto_reload + 1)
}

/// The timer's period settings. They are fixed when the value is made and
/// cannot be changed afterwards.
#[derive(Clone, Copy, Debug, PartialEq, Eq, Structural)]
pub struct TimerConfig {
    prescaler: u16,
    auto_reload: u32,
}

impl TimerConfig {
    /// The prescaler register's value.
    pub closed spec fn prescaler_value(self) -> u16 {
        self.prescaler
    }

    /// The auto-reload register's value.
    pub closed spec fn auto_reload_value(self) -> u32 {
        self.auto_reload
    }

    /// Bus-clock cycles between two overflows, as a mathematical integer.
    pub open spec fn cycles(self) -> int {
        cycles_per_overflow(self.prescaler_value(), self.auto_reload_value())
    }

    /// Period settings with the given register values.
    pub fn new(prescaler: u16, auto_reload: u32) -> (config: TimerConfig)
        ensures
            config.prescaler_value() == prescaler,
            config.auto_reload_value() == auto_reload,
    {
        TimerConfig { prescaler, auto_reload }
    }

    /// The settings this firmware programs.
    pub fn fixed() -> (config: TimerConfig)
        ensures
            config.prescaler_value() == PRESCALER,
            config.auto_reload_value() == AUTO_RELOAD,
    {
        TimerConfig { prescaler: PRESCALER, auto_reload: AUTO_RELOAD }
    }

    /// The prescaler register's value.
    pub fn prescaler(&self) -> (value: u16)
        ensures
            value == self.prescaler_value(),
    {
        self.prescaler
    }

    /// The auto-reload register's value.
    pub fn auto_reload(&self) -> (value: u32)
        ensures
            value == self.auto_reload_value(),
    {
        self.auto_reload
    }

    /// Bus-clock cycles between two overflows, which is the time for which
    /// the pin holds each level.
    pub fn period_cycles(&self) -> (cycles: u64)
        ensures
            cycles == self.cycles(),
            1 <= cycles <= 0x1_0000_0000_0000,
    {
        let divisor: u64 = self.prescaler as u64 + 1;
        let steps: u64 = self.auto_reload as u64 + 1;
        assert(1 <= divisor * steps <= 0x1_0000 * 0x1_0000_0000) by (nonlinear_arith)
            requires
                1 <= divisor <= 0x1_0000,
                1 <= steps <= 0x1_0000_0000,
        ;
        divisor * steps
    }

    /// The time between two overflows in whole nanoseconds, rounded down, for
    /// a bus clock of `bus_hz` cycles per second; `None` for a clock that
    /// does not run.
    pub fn period_nanos(&self, bus_hz: u32) -> (nanos: Option<u128>)
        ensures
            nanos.is_some() == (bus_hz != 0),
            nanos matches Some(n) ==> n == (self.cycles() * NANOS_PER_SECOND) / (bus_hz as int),
    {
        if bus_hz == 0 {
            None
        } else {
            let cycles: u128 = self.period_cycles() as u128;
            let scale: u128 = NANOS_PER_SECOND as u128;
            assert(cycles * scale <= 0x1_0000_0000_0000 * 1_000_000_000) by (nonlinear_arith)
                requires
                    cycles <= 0x1_0000_0000_0000,
                    scale == 1_000_000_000,
            ;
            Some(cycles * scale / (bus_hz as u128))
        }
    }
}

/// The period in nanoseconds differs from the exact quotient of cycles by
/// clock frequency by less than one nanosecond, and never exceeds it.
pub proof fn lemma_period_nanos_is_floor(config: TimerConfig, bus_hz: u32, nanos: int)
    requires
        bus_hz != 0,
        nanos == (config.cycles() * NANOS_PER_SECOND) / (bus_hz as int),
    ensures
        nanos * bus_hz <= config.cycles() * NANOS_PER_SECOND < (nanos + 1) * bus_hz,
{
    let total = config.cycles() * NANOS_PER_SECOND;
    let hz = bus_hz as int;
    vstd::arithmetic::div_mod::lemma_fundamental_div_mod(total, hz);
    vstd::arithmetic::div_mod::lemma_mod_bound(total, hz);
    assert(hz * (total / hz) == nanos * hz) by (nonlinear_arith)
        requires
            nanos == total / hz,
    ;
    assert((nanos + 1) * hz == nanos * hz + hz) by (nonlinear_arith);
}

} // verus!
