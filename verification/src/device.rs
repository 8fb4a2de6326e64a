//! A register-level model of the hardware the firmware drives: the clock
//! controller's enable registers, the pin's port, the timer and the timer's
//! line in the interrupt controller.
//!
//! The model says what each step does to the registers, which is what the
//! statements about the firmware's behaviour are made of. It holds the
//! registers as plain words and never touches real hardware.

use vstd::prelude::*;
use crate::action::{Action, Level};
use crate::config::PIN;

verus! {

/// Port clock enable bit in the clock controller's AHB1 enable register.
pub const GPIO_CLOCK_ENABLE: u32 = 0x0000_0001;

/// Timer clock enable bit in the clock controller's APB1 enable register.
pub const TIMER_CLOCK_ENABLE: u32 = 0x0000_0001;

/// The pin's two-bit field in the port's mode register.
pub const PIN_MODE_FIELD: u32 = 0x0003_0000;

/// Value of the pin's mode field that selects general-purpose output.
pub const PIN_MODE_OUTPUT: u32 = 0x0001_0000;

/// The pin's bit in the port's output-data register.
pub const PIN_BIT: u32 = 0x0000_0100;

/// Counter enable bit in the timer's first control register.
pub const COUNTER_ENABLE: u32 = 0x0000_0001;

/// Update interrupt enable bit in the timer's interrupt enable register.
pub const UPDATE_INTERRUPT_ENABLE: u32 = 0x0000_0001;

/// Update (overflow) flag in the timer's status register.
pub const UPDATE_FLAG: u32 = 0x0000_0001;

/// Number of the timer's interrupt line.
pub const TIMER_INTERRUPT: u32 = 28;

/// The timer's line in the interrupt controller's first set-enable register.
pub const TIMER_LINE: u32 = 0x1000_0000;

/// The modelled registers, each as the word it holds.
#[derive(Clone, Copy, Debug, PartialEq, Eq, Structural)]
pub struct Device {
    /// Clock controller, AHB1 peripheral clock enable register.
    pub ahb1enr: u32,
    /// Clock controller, APB1 peripheral clock enable register.
    pub apb1enr: u32,
    /// Port mode register.
    pub moder: u32,
    /// Port output-data register.
    pub odr: u32,
    /// Timer control register 1.
    pub cr1: u32,
    /// Timer interrupt enable register.
    pub dier: u32,
    /// Timer status register.
    pub sr: u32,
    /// Timer prescaler register.
    pub psc: u16,
    /// Timer auto-reload register.
    pub arr: u32,
    /// Interrupt controller, first set-enable register.
    pub iser0: u32,
    /// The prescaler value the timer is dividing by. It is taken over from
    /// the prescaler register at each overflow.
    pub prescaler_in_use: u16,
    /// Bus-clock cycles counted towards the next increment of the counter.
    pub prescaler_count: u16,
    /// The timer's counter.
    pub count: u32,
}

impl Device {
    /// The registers as they stand after power-on or an external reset.
    pub open spec fn at_reset() -> Device {
        Device {
            ahb1enr: 0x0010_0000,
            apb1enr: 0,
            moder: 0xA800_0000,
            odr: 0,
            cr1: 0,
            dier: 0,
            sr: 0,
            psc: 0,
            arr: 0xFFFF_FFFF,
            iser0: 0,
            prescaler_in_use: 0,
            prescaler_count: 0,
            count: 0,
        }
    }

    /// Whether the port's bus clock is on. Writes to the port's registers
    /// are lost while it is off.
    pub open spec fn gpio_clocked(self) -> bool {
        self.ahb1enr & GPIO_CLOCK_ENABLE != 0
    }

    /// Whether the timer's bus clock is on. Writes to the timer's registers
    /// are lost while it is off.
    pub open spec fn timer_clocked(self) -> bool {
        self.apb1enr & TIMER_CLOCK_ENABLE != 0
    }

    /// Whether the pin is in general-purpose output mode.
    pub open spec fn pin_is_output(self) -> bool {
        self.moder & PIN_MODE_FIELD == PIN_MODE_OUTPUT
    }

    /// The pin's level in the output-data register.
    pub open spec fn pin(self) -> Level {
        if self.odr & PIN_BIT != 0 {
            Level::High
        } else {
            Level::Low
        }
    }

    /// Whether the counter is running.
    pub open spec fn counting(self) -> bool {
        self.timer_clocked() && self.cr1 & COUNTER_ENABLE != 0
    }

    /// Whether an overflow is flagged and not yet acknowledged.
    pub open spec fn update_pending(self) -> bool {
        self.sr & UPDATE_FLAG != 0
    }

    /// Whether an overflow raises an interrupt request.
    pub open spec fn update_interrupt_enabled(self) -> bool {
        self.dier & UPDATE_INTERRUPT_ENABLE != 0
    }

    /// Whether the interrupt controller passes the timer's requests on.
    pub open spec fn line_enabled(self) -> bool {
        self.iser0 & TIMER_LINE != 0
    }

    /// Whether the service routine is due: an overflow is flagged, it raises
    /// a request, and the request is passed on.
    pub open spec fn interrupt_due(self) -> bool {
        self.update_pending() && self.update_interrupt_enabled() && self.line_enabled()
    }

    /// The registers after `action` has been carried out.
    ///
    /// A read-modify-write keeps every other bit of its register. A plain
    /// write replaces the whole register by its reset value with the one
    /// field set. A step that writes no register changes nothing.
    pub open spec fn after(self, action: Action) -> Device {
        match action {
            Action::EnableGpioClock => Device { ahb1enr: self.ahb1enr | GPIO_CLOCK_ENABLE, ..self },
            Action::ConfigurePinOutput => if self.gpio_clocked() {
                Device { moder: (self.moder & !PIN_MODE_FIELD) | PIN_MODE_OUTPUT, ..self }
            } else {
                self
            },
            Action::EnableTimerClock => Device {
                apb1enr: self.apb1enr | TIMER_CLOCK_ENABLE,
                ..self
            },
            Action::EnableUpdateInterrupt => if self.timer_clocked() {
                Device { dier: UPDATE_INTERRUPT_ENABLE, ..self }
            } else {
                self
            },
            Action::SetPrescaler(value) => if self.timer_clocked() {
                Device { psc: value, ..self }
            } else {
                self
            },
            Action::SetAutoReload(value) => if self.timer_clocked() {
                Device { arr: value, ..self }
            } else {
                self
            },
            Action::StartCounter => if self.timer_clocked() {
                Device { cr1: COUNTER_ENABLE, ..self }
            } else {
                self
            },
            Action::UnmaskTimerInterrupt => Device { iser0: self.iser0 | TIMER_LINE, ..self },
            Action::ClearUpdateFlag => if self.timer_clocked() {
                Device { sr: self.sr & !UPDATE_FLAG, ..self }
            } else {
                self
            },
            Action::SetPin => if self.gpio_clocked() {
                Device { odr: self.odr | PIN_BIT, ..self }
            } else {
                self
            },
            Action::ResetPin => if self.gpio_clocked() {
                Device { odr: self.odr & !PIN_BIT, ..self }
            } else {
                self
            },
            Action::ClaimDevice | Action::ClaimCore | Action::WaitForInterrupt | Action::Halt => self,
        }
    }

    /// The registers after `steps` have been carried out, first to last.
    pub open spec fn after_all(self, steps: Seq<Action>) -> Device
        decreases steps.len(),
    {
        if steps.len() == 0 {
            self
        } else {
            self.after_all(steps.drop_last()).after(steps.last())
        }
    }

    /// The registers after the counter has overflowed: the flag is raised,
    /// counting starts over, and the prescaler register's value comes into
    /// use. A counter that is not running does not overflow.
    pub open spec fn after_overflow(self) -> Device {
        if self.counting() {
            Device {
                sr: self.sr | UPDATE_FLAG,
                prescaler_in_use: self.psc,
                prescaler_count: 0,
                count: 0,
                ..self
            }
        } else {
            self
        }
    }

    /// Whether the next bus-clock cycle makes the counter overflow.
    pub open spec fn overflow_imminent(self) -> bool {
        &&& self.counting()
        &&& self.prescaler_count == self.prescaler_in_use
        &&& self.count == self.arr
    }

    /// The registers one bus-clock cycle later. The prescaler divides the
    /// clock by the value in use plus one; the counter counts the divided
    /// clock up to the auto-reload value and overflows on the cycle after.
    pub open spec fn after_tick(self) -> Device {
        if !self.counting() {
            self
        } else if self.prescaler_count != self.prescaler_in_use {
            Device {
                prescaler_count: if self.prescaler_count == u16::MAX {
                    0u16
                } else {
                    (self.prescaler_count + 1) as u16
                },
                ..self
            }
        } else if self.count != self.arr {
            Device {
                prescaler_count: 0,
                count: if self.count == u32::MAX {
                    0u32
                } else {
                    (self.count + 1) as u32
                },
                ..self
            }
        } else {
            self.after_overflow()
        }
    }

    /// The registers `cycles` bus-clock cycles later, with nothing but the
    /// timer at work.
    pub open spec fn after_ticks(self, cycles: nat) -> Device
        decreases cycles,
    {
        if cycles == 0 {
            self
        } else {
            self.after_ticks((cycles - 1) as nat).after_tick()
        }
    }

    /// A device fresh out of reset.
    pub fn reset() -> (device: Device)
        ensures
            device == Device::at_reset(),
    {
        Device {
            ahb1enr: 0x0010_0000,
            apb1enr: 0,
            moder: 0xA800_0000,
            odr: 0,
            cr1: 0,
            dier: 0,
            sr: 0,
            psc: 0,
            arr: 0xFFFF_FFFF,
            iser0: 0,
            prescaler_in_use: 0,
            prescaler_count: 0,
            count: 0,
        }
    }

    /// Whether the port's bus clock is on.
    pub fn is_gpio_clocked(&self) -> (on: bool)
        ensures
            on == self.gpio_clocked(),
    {
        self.ahb1enr & GPIO_CLOCK_ENABLE != 0
    }

    /// Whether the timer's bus clock is on.
    pub fn is_timer_clocked(&self) -> (on: bool)
        ensures
            on == self.timer_clocked(),
    {
        self.apb1enr & TIMER_CLOCK_ENABLE != 0
    }

    /// Whether the pin is in general-purpose output mode.
    pub fn is_pin_output(&self) -> (output: bool)
        ensures
            output == self.pin_is_output(),
    {
        self.moder & PIN_MODE_FIELD == PIN_MODE_OUTPUT
    }

    /// Samples the pin's level from the output-data register.
    pub fn pin_level(&self) -> (level: Level)
        ensures
            level == self.pin(),
    {
        if self.odr & PIN_BIT != 0 {
            Level::High
        } else {
            Level::Low
        }
    }

    /// Whether the counter is running.
    pub fn is_counting(&self) -> (running: bool)
        ensures
            running == self.counting(),
    {
        self.is_timer_clocked() && self.cr1 & COUNTER_ENABLE != 0
    }

    /// Whether an overflow is flagged and not yet acknowledged.
    pub fn is_update_pending(&self) -> (pending: bool)
        ensures
            pending == self.update_pending(),
    {
        self.sr & UPDATE_FLAG != 0
    }

    /// Whether the service routine is due.
    pub fn is_interrupt_due(&self) -> (due: bool)
        ensures
            due == self.interrupt_due(),
    {
        self.sr & UPDATE_FLAG != 0 && self.dier & UPDATE_INTERRUPT_ENABLE != 0 && self.iser0
            & TIMER_LINE != 0
    }

    /// Carries out `action` on the model.
    pub fn apply(&mut self, action: Action)
        ensures
            *final(self) == old(self).after(action),
    {
        match action {
            Action::EnableGpioClock => {
                self.ahb1enr = self.ahb1enr | GPIO_CLOCK_ENABLE;
            },
            Action::ConfigurePinOutput => {
                if self.is_gpio_clocked() {
                    self.moder = (self.moder & !PIN_MODE_FIELD) | PIN_MODE_OUTPUT;
                }
            },
            Action::EnableTimerClock => {
                self.apb1enr = self.apb1enr | TIMER_CLOCK_ENABLE;
            },
            Action::EnableUpdateInterrupt => {
                if self.is_timer_clocked() {
                    self.dier = UPDATE_INTERRUPT_ENABLE;
                }
            },
            Action::SetPrescaler(value) => {
                if self.is_timer_clocked() {
                    self.psc = value;
                }
            },
            Action::SetAutoReload(value) => {
                if self.is_timer_clocked() {
                    self.arr = value;
                }
            },
            Action::StartCounter => {
                if self.is_timer_clocked() {
                    self.cr1 = COUNTER_ENABLE;
                }
            },
            Action::UnmaskTimerInterrupt => {
                self.iser0 = self.iser0 | TIMER_LINE;
            },
            Action::ClearUpdateFlag => {
                if self.is_timer_clocked() {
                    self.sr = self.sr & !UPDATE_FLAG;
                }
            },
            Action::SetPin => {
                if self.is_gpio_clocked() {
                    self.odr = self.odr | PIN_BIT;
                }
            },
            Action::ResetPin => {
                if self.is_gpio_clocked() {
                    self.odr = self.odr & !PIN_BIT;
                }
            },
            Action::ClaimDevice | Action::ClaimCore | Action::WaitForInterrupt | Action::Halt => {},
        }
    }

    /// Makes the counter overflow now, if it is running.
    pub fn overflow(&mut self)
        ensures
            *final(self) == old(self).after_overflow(),
    {
        if self.is_counting() {
            self.sr = self.sr | UPDATE_FLAG;
            self.prescaler_in_use = self.psc;
            self.prescaler_count = 0;
            self.count = 0;
        }
    }

    /// Lets one bus-clock cycle pass and reports whether the counter
    /// overflowed on it.
    pub fn tick(&mut self) -> (overflowed: bool)
        ensures
            *final(self) == old(self).after_tick(),
            overflowed == old(self).overflow_imminent(),
    {
        if !self.is_counting() {
            false
        } else if self.prescaler_count != self.prescaler_in_use {
            self.prescaler_count = if self.prescaler_count == u16::MAX {
                0
            } else {
                self.prescaler_count + 1
            };
            false
        } else if self.count != self.arr {
            self.prescaler_count = 0;
            self.count = if self.count == u32::MAX {
                0
            } else {
                self.count + 1
            };
            false
        } else {
            self.overflow();
            true
        }
    }
}

/// Each bus clock's enable step switches that clock on and leaves every other
/// clock as it was.
pub proof fn lemma_clock_enables(device: Device)
    ensures
        device.after(Action::EnableGpioClock).gpio_clocked(),
        device.after(Action::EnableGpioClock).ahb1enr & !GPIO_CLOCK_ENABLE == device.ahb1enr
            & !GPIO_CLOCK_ENABLE,
        device.after(Action::EnableTimerClock).timer_clocked(),
        device.after(Action::EnableTimerClock).apb1enr & !TIMER_CLOCK_ENABLE == device.apb1enr
            & !TIMER_CLOCK_ENABLE,
{
    let a = device.ahb1enr;
    let b = device.apb1enr;
    assert((a | 1) & 1 != 0 && (a | 1) & !1u32 == a & !1u32) by (bit_vector);
    assert((b | 1) & 1 != 0 && (b | 1) & !1u32 == b & !1u32) by (bit_vector);
}

/// With the port's clock on, the mode step makes the pin an output and keeps
/// the mode of every other pin of the port.
pub proof fn lemma_pin_mode(device: Device)
    requires
        device.gpio_clocked(),
    ensures
        device.after(Action::ConfigurePinOutput).pin_is_output(),
        device.after(Action::ConfigurePinOutput).moder & !PIN_MODE_FIELD == device.moder
            & !PIN_MODE_FIELD,
{
    let m = device.moder;
    assert(((m & !0x0003_0000u32) | 0x0001_0000) & 0x0003_0000 == 0x0001_0000 && ((m
        & !0x0003_0000u32) | 0x0001_0000) & !0x0003_0000u32 == m & !0x0003_0000u32)
        by (bit_vector);
}

/// With the port's clock on, a write to the set/reset register puts the pin
/// at the level asked for and changes no other bit of the output-data
/// register.
pub proof fn lemma_pin_writes(device: Device)
    requires
        device.gpio_clocked(),
    ensures
        device.after(Action::SetPin).pin() == Level::High,
        device.after(Action::ResetPin).pin() == Level::Low,
        device.after(Action::SetPin).odr & !PIN_BIT == device.odr & !PIN_BIT,
        device.after(Action::ResetPin).odr & !PIN_BIT == device.odr & !PIN_BIT,
{
    let o = device.odr;
    assert((o | 0x100) & 0x100 != 0 && (o | 0x100) & !0x100u32 == o & !0x100u32) by (bit_vector);
    assert((o & !0x100u32) & 0x100 == 0 && (o & !0x100u32) & !0x100u32 == o & !0x100u32)
        by (bit_vector);
}

/// With the timer's clock on, the timer's start-up steps enable the overflow
/// interrupt and start the counter, an overflow raises the flag, and the
/// acknowledging step clears that flag and no other.
pub proof fn lemma_timer_steps(device: Device)
    requires
        device.timer_clocked(),
    ensures
        device.after(Action::EnableUpdateInterrupt).update_interrupt_enabled(),
        device.after(Action::StartCounter).counting(),
        device.counting() ==> device.after_overflow().update_pending(),
        !device.after(Action::ClearUpdateFlag).update_pending(),
        device.after(Action::ClearUpdateFlag).sr & !UPDATE_FLAG == device.sr & !UPDATE_FLAG,
{
    let s = device.sr;
    assert(1u32 & 1 != 0) by (bit_vector);
    assert((s | 1) & 1 != 0) by (bit_vector);
    assert((s & !1u32) & 1 == 0 && (s & !1u32) & !1u32 == s & !1u32) by (bit_vector);
}

/// The unmasking step enables the timer's line in the interrupt controller
/// and leaves every other line as it was.
pub proof fn lemma_line_enable(device: Device)
    ensures
        device.after(Action::UnmaskTimerInterrupt).line_enabled(),
        device.after(Action::UnmaskTimerInterrupt).iser0 & !TIMER_LINE == device.iser0
            & !TIMER_LINE,
{
    let i = device.iser0;
    assert((i | 0x1000_0000) & 0x1000_0000 != 0 && (i | 0x1000_0000) & !0x1000_0000u32 == i
        & !0x1000_0000u32) by (bit_vector);
}

/// The pin's masks are those of pin number `PIN`: one bit per pin in the
/// output-data register, two bits per pin in the mode register. The timer's
/// line mask is that of line number `TIMER_INTERRUPT`.
pub proof fn lemma_masks_match_numbers()
    ensures
        PIN_BIT == 1u32 << PIN,
        PIN_MODE_FIELD == 3u32 << (2 * PIN) as u32,
        PIN_MODE_OUTPUT == 1u32 << (2 * PIN) as u32,
        TIMER_LINE == 1u32 << TIMER_INTERRUPT,
{
    assert(0x100u32 == 1u32 << 8u32) by (bit_vector);
    assert(0x0003_0000u32 == 3u32 << 16u32) by (bit_vector);
    assert(0x0001_0000u32 == 1u32 << 16u32) by (bit_vector);
    assert(0x1000_0000u32 == 1u32 << 28u32) by (bit_vector);
}

} // verus!
