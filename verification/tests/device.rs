use timer_toggle::action::{Action, Level};
use timer_toggle::device::{
    Device, COUNTER_ENABLE, GPIO_CLOCK_ENABLE, PIN_BIT, PIN_MODE_FIELD, PIN_MODE_OUTPUT,
    TIMER_CLOCK_ENABLE, TIMER_INTERRUPT, TIMER_LINE, UPDATE_FLAG, UPDATE_INTERRUPT_ENABLE,
};
use timer_toggle::config::PIN;

fn clocked() -> Device {
    let mut device = Device::reset();
    device.apply(Action::EnableGpioClock);
    device.apply(Action::EnableTimerClock);
    device
}

fn counting(prescaler: u16, auto_reload: u32) -> Device {
    let mut device = clocked();
    device.apply(Action::SetPrescaler(prescaler));
    device.apply(Action::SetAutoReload(auto_reload));
    device.apply(Action::StartCounter);
    device
}

#[test]
fn masks_match_pin_and_line_numbers() {
    assert_eq!(PIN, 8);
    assert_eq!(PIN_BIT, 1 << PIN);
    assert_eq!(PIN_MODE_FIELD, 3 << (2 * PIN));
    assert_eq!(PIN_MODE_OUTPUT, 1 << (2 * PIN));
    assert_eq!(TIMER_INTERRUPT, 28);
    assert_eq!(TIMER_LINE, 1 << TIMER_INTERRUPT);
    assert_eq!(GPIO_CLOCK_ENABLE, 1);
    assert_eq!(TIMER_CLOCK_ENABLE, 1);
    assert_eq!(COUNTER_ENABLE, 1);
    assert_eq!(UPDATE_INTERRUPT_ENABLE, 1);
    assert_eq!(UPDATE_FLAG, 1);
}

#[test]
fn registers_at_reset() {
    let device = Device::reset();
    assert_eq!(device.ahb1enr, 0x0010_0000);
    assert_eq!(device.apb1enr, 0);
    assert_eq!(device.moder, 0xA800_0000);
    assert_eq!(device.odr, 0);
    assert_eq!(device.cr1, 0);
    assert_eq!(device.dier, 0);
    assert_eq!(device.sr, 0);
    assert_eq!(device.psc, 0);
    assert_eq!(device.arr, 0xFFFF_FFFF);
    assert_eq!(device.iser0, 0);
    assert_eq!(device.prescaler_in_use, 0);
    assert_eq!(device.prescaler_count, 0);
    assert_eq!(device.count, 0);
    assert!(!device.is_gpio_clocked());
    assert!(!device.is_timer_clocked());
    assert!(!device.is_pin_output());
    assert!(!device.is_counting());
    assert!(!device.is_update_pending());
    assert!(!device.is_interrupt_due());
    assert_eq!(device.pin_level(), Level::Low);
}

#[test]
fn clock_enables_keep_other_clocks() {
    let mut device = Device::reset();
    device.apb1enr = 0x0000_0008;
    device.apply(Action::EnableGpioClock);
    assert_eq!(device.ahb1enr, 0x0010_0001);
    assert!(device.is_gpio_clocked());
    device.apply(Action::EnableTimerClock);
    assert_eq!(device.apb1enr, 0x0000_0009);
    assert!(device.is_timer_clocked());
}

#[test]
fn pin_mode_needs_the_port_clock() {
    let mut device = Device::reset();
    device.apply(Action::ConfigurePinOutput);
    assert_eq!(device, Device::reset());
    device.apply(Action::EnableGpioClock);
    device.apply(Action::ConfigurePinOutput);
    assert_eq!(device.moder, 0xA801_0000);
    assert!(device.is_pin_output());
}

#[test]
fn pin_mode_replaces_the_whole_field() {
    let mut device = clocked();
    device.moder = 0xFFFF_FFFF;
    device.apply(Action::ConfigurePinOutput);
    assert_eq!(device.moder, 0xFFFD_FFFF);
    assert!(device.is_pin_output());
}

#[test]
fn timer_registers_need_the_timer_clock() {
    let mut device = Device::reset();
    for action in [
        Action::EnableUpdateInterrupt,
        Action::SetPrescaler(1000),
        Action::SetAutoReload(2000),
        Action::StartCounter,
        Action::ClearUpdateFlag,
    ] {
        device.apply(action);
        assert_eq!(device, Device::reset());
    }
}

#[test]
fn timer_registers_take_their_values() {
    let mut device = clocked();
    device.apply(Action::EnableUpdateInterrupt);
    assert_eq!(device.dier, 1);
    device.apply(Action::SetPrescaler(1000));
    assert_eq!(device.psc, 1000);
    device.apply(Action::SetAutoReload(2000));
    assert_eq!(device.arr, 2000);
    assert!(!device.is_counting());
    device.apply(Action::StartCounter);
    assert_eq!(device.cr1, 1);
    assert!(device.is_counting());
}

#[test]
fn plain_writes_replace_the_register() {
    let mut device = clocked();
    device.dier = 0x0000_0040;
    device.cr1 = 0x0000_0080;
    device.apply(Action::EnableUpdateInterrupt);
    device.apply(Action::StartCounter);
    assert_eq!(device.dier, 0x0000_0001);
    assert_eq!(device.cr1, 0x0000_0001);
}

#[test]
fn unmasking_keeps_other_lines() {
    let mut device = Device::reset();
    device.iser0 = 0x0000_0004;
    device.apply(Action::UnmaskTimerInterrupt);
    assert_eq!(device.iser0, 0x1000_0004);
}

#[test]
fn pin_writes_need_the_port_clock() {
    let mut device = Device::reset();
    device.apply(Action::SetPin);
    assert_eq!(device.pin_level(), Level::Low);
    assert_eq!(device, Device::reset());
}

#[test]
fn pin_writes_touch_only_the_pin() {
    let mut device = clocked();
    device.odr = 0x0000_F0F0;
    device.apply(Action::SetPin);
    assert_eq!(device.odr, 0x0000_F1F0);
    assert_eq!(device.pin_level(), Level::High);
    device.apply(Action::SetPin);
    assert_eq!(device.odr, 0x0000_F1F0);
    device.apply(Action::ResetPin);
    assert_eq!(device.odr, 0x0000_F0F0);
    assert_eq!(device.pin_level(), Level::Low);
    device.apply(Action::ResetPin);
    assert_eq!(device.odr, 0x0000_F0F0);
}

#[test]
fn acknowledging_clears_only_the_update_flag() {
    let mut device = clocked();
    device.sr = 0x0000_001F;
    assert!(device.is_update_pending());
    device.apply(Action::ClearUpdateFlag);
    assert_eq!(device.sr, 0x0000_001E);
    assert!(!device.is_update_pending());
}

#[test]
fn steps_without_register_change_nothing() {
    let mut device = counting(3, 4);
    let before = device;
    for action in [Action::ClaimDevice, Action::ClaimCore, Action::WaitForInterrupt, Action::Halt] {
        device.apply(action);
        assert_eq!(device, before);
    }
}

#[test]
fn stopped_counter_does_not_overflow() {
    let mut device = clocked();
    device.overflow();
    assert_eq!(device, clocked());
    assert!(!device.tick());
    assert_eq!(device, clocked());
}

#[test]
fn overflow_raises_flag_and_loads_prescaler() {
    let mut device = counting(3, 4);
    device.count = 2;
    device.prescaler_count = 1;
    assert_eq!(device.prescaler_in_use, 0);
    device.overflow();
    assert!(device.is_update_pending());
    assert_eq!(device.prescaler_in_use, 3);
    assert_eq!(device.prescaler_count, 0);
    assert_eq!(device.count, 0);
}

#[test]
fn interrupt_is_due_only_with_flag_source_and_line() {
    let mut device = counting(0, 0);
    device.overflow();
    assert!(device.is_update_pending());
    assert!(!device.is_interrupt_due());
    device.apply(Action::EnableUpdateInterrupt);
    assert!(!device.is_interrupt_due());
    device.apply(Action::UnmaskTimerInterrupt);
    assert!(device.is_interrupt_due());
    device.apply(Action::ClearUpdateFlag);
    assert!(!device.is_interrupt_due());
}

#[test]
fn counter_overflows_after_the_programmed_cycles() {
    let mut device = counting(3, 4);
    device.overflow();
    device.apply(Action::ClearUpdateFlag);
    for round in 0..3 {
        for cycle in 1..=20u32 {
            let overflowed = device.tick();
            assert_eq!(overflowed, cycle == 20, "round {round}, cycle {cycle}");
        }
        assert!(device.is_update_pending());
        assert_eq!(device.count, 0);
        assert_eq!(device.prescaler_count, 0);
        device.apply(Action::ClearUpdateFlag);
    }
}

#[test]
fn first_period_runs_undivided() {
    let mut device = counting(3, 4);
    for cycle in 1..=5u32 {
        assert_eq!(device.tick(), cycle == 5);
    }
    assert_eq!(device.prescaler_in_use, 3);
}

#[test]
fn counters_advance_as_prescaler_and_counter() {
    let mut device = counting(1, 2);
    device.overflow();
    let mut seen = Vec::new();
    for _ in 0..6 {
        device.tick();
        seen.push((device.count, device.prescaler_count));
    }
    assert_eq!(seen, vec![(0, 1), (1, 0), (1, 1), (2, 0), (2, 1), (0, 0)]);
}

#[test]
fn counters_wrap_at_their_width() {
    let mut device = counting(0, 5);
    device.count = u32::MAX;
    assert!(!device.tick());
    assert_eq!(device.count, 0);
    let mut device = counting(0, 5);
    device.prescaler_in_use = 9;
    device.prescaler_count = u16::MAX;
    assert!(!device.tick());
    assert_eq!(device.prescaler_count, 0);
}
