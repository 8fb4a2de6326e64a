//! The firmware run against the device model: start-up driven through the
//! sequencer, the service routine run on the modelled registers, and time
//! passing one overflow or one bus-clock cycle at a time.

use vstd::prelude::*;
use crate::action::{Action, Block, Level, Outcome};
use crate::config::{AUTO_RELOAD, PRESCALER};
use crate::device::{
    lemma_clock_enables, lemma_line_enable, lemma_pin_mode, lemma_pin_writes, lemma_timer_steps,
    Device, PIN_BIT,
};
use crate::handler::{
    acknowledge, inverting_write, lemma_one_pin_write_per_invocation, pin_writes, response, toggle,
};
use crate::ownership::Ownership;
use crate::sequencer::{startup_order, Stage};

verus! {

/// How a step ends when the register sets in `claimed` are already taken:
/// a claim of a taken set is refused, everything else is carried out.
pub open spec fn outcome_of(claimed: Set<Block>, action: Action) -> Outcome {
    match action {
        Action::ClaimDevice => if claimed.contains(Block::Device) {
            Outcome::Refused
        } else {
            Outcome::Completed
        },
        Action::ClaimCore => if claimed.contains(Block::Core) {
            Outcome::Refused
        } else {
            Outcome::Completed
        },
        _ => Outcome::Completed,
    }
}

/// The register sets that are taken once `action` has been carried out.
pub open spec fn claimed_after(claimed: Set<Block>, action: Action) -> Set<Block> {
    match action {
        Action::ClaimDevice => claimed.insert(Block::Device),
        Action::ClaimCore => claimed.insert(Block::Core),
        _ => claimed,
    }
}

/// Every step of a start-up, the closing sleep or halt included, when the
/// register sets in `claimed` are already taken as it begins.
pub open spec fn startup_steps(claimed: Set<Block>) -> Seq<Action> {
    if claimed.contains(Block::Device) {
        seq![Action::ClaimDevice, Action::Halt]
    } else if claimed.contains(Block::Core) {
        seq![Action::ClaimDevice, Action::ClaimCore, Action::Halt]
    } else {
        startup_order().push(Action::WaitForInterrupt)
    }
}

/// Carries out one step on the model: a claim goes to the ownership record,
/// anything else to the registers.
pub fn perform(ownership: &mut Ownership, device: &mut Device, action: Action) -> (outcome: Outcome)
    ensures
        outcome == outcome_of(old(ownership)@, action),
        final(ownership)@ == claimed_after(old(ownership)@, action),
        *final(device) == old(device).after(action),
{
    match action {
        Action::ClaimDevice => match ownership.claim(Block::Device) {
            Some(_) => Outcome::Completed,
            None => Outcome::Refused,
        },
        Action::ClaimCore => match ownership.claim(Block::Core) {
            Some(_) => Outcome::Completed,
            None => Outcome::Refused,
        },
        _ => {
            device.apply(action);
            Outcome::Completed
        },
    }
}

/// Runs the start-up sequence on the model until the machine sleeps or halts,
/// and returns the stage it settled in together with every step taken, the
/// closing sleep or halt included.
///
/// With both register sets free the device ends up programmed by the steps
/// of `startup_order` and the run settles in `Stage::Idle`. With either set
/// taken the run halts at the refused claim, and no register has been
/// written.
pub fn boot(ownership: &mut Ownership, device: &mut Device) -> (run: (Stage, Vec<Action>))
    ensures
        run.1@ == startup_steps(old(ownership)@),
        run.0 == if old(ownership)@.contains(Block::Device) || old(ownership)@.contains(
            Block::Core,
        ) {
            Stage::Halted
        } else {
            Stage::Idle
        },
        *final(device) == if run.0 == Stage::Halted {
            *old(device)
        } else {
            old(device).after_all(startup_order())
        },
        final(ownership)@ == if old(ownership)@.contains(Block::Device) {
            old(ownership)@
        } else {
            old(ownership)@.insert(Block::Device).insert(Block::Core)
        },
{
    let ghost claimed = ownership@;
    let ghost before = *device;
    let ghost order = startup_order();
    let mut stage = Stage::initial();
    let mut steps: Vec<Action> = Vec::new();
    proof {
        assert(order.take(0) =~= Seq::<Action>::empty());
        assert(steps@ =~= order.take(0));
    }
    while !stage.is_settled()
        invariant
            order == startup_order(),
            stage == Stage::Halted ==> *device == before && (claimed.contains(Block::Device)
                || claimed.contains(Block::Core)),
            stage == Stage::Halted && claimed.contains(Block::Device) ==> steps@
                == seq![Action::ClaimDevice] && ownership@ == claimed,
            stage == Stage::Halted && !claimed.contains(Block::Device) ==> steps@
                == seq![Action::ClaimDevice, Action::ClaimCore] && ownership@ == claimed.insert(
                Block::Device,
            ),
            stage != Stage::Halted ==> {
                &&& steps@ == order.take(stage.ordinal() as int)
                &&& *device == before.after_all(order.take(stage.ordinal() as int))
                &&& stage.ordinal() >= 1 ==> !claimed.contains(Block::Device)
                &&& stage.ordinal() >= 2 ==> !claimed.contains(Block::Core)
                &&& stage.ordinal() == 0 ==> ownership@ == claimed
                &&& stage.ordinal() == 1 ==> ownership@ == claimed.insert(Block::Device)
                &&& stage.ordinal() >= 2 ==> ownership@ == claimed.insert(Block::Device).insert(
                    Block::Core,
                )
            },
        decreases
            if stage == Stage::Idle || stage == Stage::Halted {
                0
            } else {
                11 - stage.ordinal()
            },
    {
        let ghost position = stage.ordinal() as int;
        let action = stage.action();
        let outcome = perform(ownership, device, action);
        steps.push(action);
        proof {
            assert(order.take(position + 1).drop_last() =~= order.take(position));
            assert(order.take(position + 1).last() == order[position]);
            assert(steps@ =~= order.take(position + 1));
            if position == 0 {
                assert(before.after_all(order.take(0)) == before);
                assert(order.take(1) =~= seq![Action::ClaimDevice]);
            } else if position == 1 {
                assert(order.take(1).drop_last() =~= order.take(0));
                assert(before.after_all(order.take(0)) == before);
                assert(before.after_all(order.take(1)) == before);
                assert(order.take(2) =~= seq![Action::ClaimDevice, Action::ClaimCore]);
            }
        }
        stage = stage.next(outcome);
    }
    proof {
        if stage == Stage::Idle {
            assert(order.take(10) =~= order);
        }
    }
    steps.push(stage.action());
    (stage, steps)
}

/// The registers after one invocation of the service routine: the overflow
/// is acknowledged, the pin's level is sampled, and the write that inverts
/// that level is made.
pub open spec fn serviced(device: Device) -> Device {
    let acknowledged = device.after(Action::ClearUpdateFlag);
    acknowledged.after(inverting_write(acknowledged.pin()))
}

/// The registers after one overflow of the counter and the invocation of the
/// service routine that it causes, if it causes one.
pub open spec fn after_event(device: Device) -> Device {
    let overflowed = device.after_overflow();
    if overflowed.interrupt_due() {
        serviced(overflowed)
    } else {
        overflowed
    }
}

/// The registers after `events` overflows, each followed by its invocation
/// of the service routine.
pub open spec fn after_events(device: Device, events: nat) -> Device
    decreases events,
{
    if events == 0 {
        device
    } else {
        after_event(after_events(device, (events - 1) as nat))
    }
}

/// The registers one bus-clock cycle later, the service routine having run
/// if it was due at the end of the cycle.
pub open spec fn after_cycle(device: Device) -> Device {
    let ticked = device.after_tick();
    if ticked.interrupt_due() {
        serviced(ticked)
    } else {
        ticked
    }
}

/// The registers `cycles` bus-clock cycles later.
pub open spec fn after_cycles(device: Device, cycles: nat) -> Device
    decreases cycles,
{
    if cycles == 0 {
        device
    } else {
        after_cycle(after_cycles(device, (cycles - 1) as nat))
    }
}

/// Whether everything is in place for overflows to toggle the pin: the
/// port's clock is on, the counter runs, an overflow raises a request, and
/// the interrupt controller passes it on.
pub open spec fn armed(device: Device) -> bool {
    &&& device.gpio_clocked()
    &&& device.counting()
    &&& device.update_interrupt_enabled()
    &&& device.line_enabled()
}

/// Runs the service routine once on the model and returns the steps it took,
/// in order.
///
/// The routine leaves no overflow flagged and inverts the pin, provided the
/// clocks of the timer and of the port are on.
pub fn service(device: &mut Device) -> (steps: Vec<Action>)
    ensures
        *final(device) == serviced(*old(device)),
        steps@ == response(old(device).pin()),
        pin_writes(steps@) == 1,
        old(device).timer_clocked() ==> !final(device).update_pending(),
        old(device).gpio_clocked() ==> final(device).pin() == old(device).pin().flipped(),
{
    let mut steps: Vec<Action> = Vec::new();
    let first = acknowledge();
    device.apply(first);
    steps.push(first);
    let level = device.pin_level();
    let second = toggle(level);
    device.apply(second);
    steps.push(second);
    proof {
        assert(steps@ =~= response(old(device).pin()));
        lemma_service(*old(device));
        lemma_one_pin_write_per_invocation(old(device).pin());
    }
    steps
}

/// One invocation of the service routine changes the status register and the
/// output-data register and nothing else. With the timer's clock on it
/// leaves no overflow flagged; with the port's clock on it inverts the pin
/// and keeps every other bit of the output-data register.
pub proof fn lemma_service(device: Device)
    ensures
        serviced(device) == (Device { sr: serviced(device).sr, odr: serviced(device).odr, ..device }),
        device.timer_clocked() ==> !serviced(device).update_pending(),
        device.gpio_clocked() ==> serviced(device).pin() == device.pin().flipped(),
        serviced(device).odr & !PIN_BIT == device.odr & !PIN_BIT,
        armed(device) ==> armed(serviced(device)),
{
    let acknowledged = device.after(Action::ClearUpdateFlag);
    assert(acknowledged.odr == device.odr);
    if device.timer_clocked() {
        lemma_timer_steps(device);
    }
    if device.gpio_clocked() {
        lemma_pin_writes(acknowledged);
    }
}

/// Lets the counter overflow once, runs the service routine if the overflow
/// calls for it, and returns the pin's level afterwards.
pub fn overflow_event(device: &mut Device) -> (level: Level)
    ensures
        *final(device) == after_event(*old(device)),
        level == final(device).pin(),
{
    device.overflow();
    if device.is_interrupt_due() {
        let _ = service(device);
    }
    device.pin_level()
}

/// Lets the counter overflow `events` times, each overflow followed by its
/// invocation of the service routine, and returns the pin's level after each
/// one.
pub fn run_overflows(device: &mut Device, events: usize) -> (levels: Vec<Level>)
    ensures
        *final(device) == after_events(*old(device), events as nat),
        levels@.len() == events,
        forall|i: int|
            0 <= i < events ==> #[trigger] levels@[i] == after_events(
                *old(device),
                (i + 1) as nat,
            ).pin(),
{
    let ghost before = *device;
    let mut levels: Vec<Level> = Vec::new();
    let mut done: usize = 0;
    while done < events
        invariant
            done <= events,
            *device == after_events(before, done as nat),
            levels@.len() == done,
            forall|i: int|
                0 <= i < done ==> #[trigger] levels@[i] == after_events(before, (i + 1) as nat).pin(),
        decreases events - done,
    {
        let level = overflow_event(device);
        levels.push(level);
        done = done + 1;
    }
    levels
}

/// Lets one bus-clock cycle pass on the model, runs the service routine if
/// it is due, and reports whether it ran.
pub fn cycle(device: &mut Device) -> (ran: bool)
    ensures
        *final(device) == after_cycle(*old(device)),
        ran == old(device).after_tick().interrupt_due(),
{
    let _ = device.tick();
    if device.is_interrupt_due() {
        let _ = service(device);
        true
    } else {
        false
    }
}

/// Lets bus-clock cycles pass until the pin changes its level, `limit`
/// cycles at most, and returns how many it took; `None` if the pin still
/// holds its level after `limit` cycles.
pub fn cycles_until_toggle(device: &mut Device, limit: u64) -> (taken: Option<u64>)
    ensures
        match taken {
            Some(cycles) => {
                &&& 1 <= cycles <= limit
                &&& *final(device) == after_cycles(*old(device), cycles as nat)
                &&& final(device).pin() != old(device).pin()
                &&& forall|earlier: nat|
                    earlier < cycles ==> (#[trigger] after_cycles(*old(device), earlier)).pin()
                        == old(device).pin()
            },
            None => {
                &&& *final(device) == after_cycles(*old(device), limit as nat)
                &&& forall|earlier: nat|
                    earlier <= limit ==> (#[trigger] after_cycles(*old(device), earlier)).pin()
                        == old(device).pin()
            },
        },
{
    let ghost before = *device;
    let start = device.pin_level();
    let mut passed: u64 = 0;
    let mut toggled = false;
    while passed < limit && !toggled
        invariant
            passed <= limit,
            start == before.pin(),
            *device == after_cycles(before, passed as nat),
            toggled == (device.pin() != start),
            toggled ==> passed >= 1,
            forall|earlier: nat|
                earlier < passed ==> (#[trigger] after_cycles(before, earlier)).pin() == before.pin(),
        decreases limit - passed,
    {
        let _ = cycle(device);
        passed = passed + 1;
        assert(*device == after_cycles(before, passed as nat));
        toggled = device.pin_level() != start;
    }
    if toggled {
        Some(passed)
    } else {
        None
    }
}

/// A start-up that finds a register set taken ends in a halt exactly once,
/// as its last step, and writes no register on the way there.
pub proof fn lemma_refused_startup_halts_once(claimed: Set<Block>)
    requires
        claimed.contains(Block::Device) || claimed.contains(Block::Core),
    ensures
        startup_steps(claimed).last() == Action::Halt,
        forall|i: int|
            0 <= i < startup_steps(claimed).len() - 1 ==> {
                &&& (#[trigger] startup_steps(claimed)[i]) != Action::Halt
                &&& !startup_steps(claimed)[i].is_register_write()
            },
        forall|device: Device| #[trigger] device.after_all(startup_steps(claimed)) == device,
{
    let steps = startup_steps(claimed);
    assert forall|device: Device| #[trigger] device.after_all(steps) == device by {
        lemma_idle_steps_change_nothing(device, steps);
    }
}

/// Steps that write no register leave every register as it was.
pub proof fn lemma_idle_steps_change_nothing(device: Device, steps: Seq<Action>)
    requires
        forall|i: int| 0 <= i < steps.len() ==> !(#[trigger] steps[i]).is_register_write(),
    ensures
        device.after_all(steps) == device,
    decreases steps.len(),
{
    if steps.len() > 0 {
        lemma_idle_steps_change_nothing(device, steps.drop_last());
        assert(!steps[steps.len() - 1].is_register_write());
    }
}

/// The steps of `startup_order`, carried out on any device, leave it armed
/// with the pin an output and the timer programmed with the fixed period
/// settings. They change neither the pin's level nor the timer's flags nor
/// its counters.
pub proof fn lemma_startup_arms_device(device: Device)
    ensures
        ({
            let started = device.after_all(startup_order());
            &&& armed(started)
            &&& started.pin_is_output()
            &&& started.psc == PRESCALER
            &&& started.arr == AUTO_RELOAD
            &&& started.odr == device.odr
            &&& started.sr == device.sr
            &&& started.prescaler_in_use == device.prescaler_in_use
            &&& started.prescaler_count == device.prescaler_count
            &&& started.count == device.count
        }),
{
    let order = startup_order();
    let d2 = device;
    let d3 = d2.after(Action::EnableGpioClock);
    let d4 = d3.after(Action::ConfigurePinOutput);
    let d5 = d4.after(Action::EnableTimerClock);
    let d6 = d5.after(Action::EnableUpdateInterrupt);
    let d7 = d6.after(Action::SetPrescaler(PRESCALER));
    let d8 = d7.after(Action::SetAutoReload(AUTO_RELOAD));
    let d9 = d8.after(Action::StartCounter);
    let d10 = d9.after(Action::UnmaskTimerInterrupt);
    assert(device.after_all(order.take(0)) == device);
    assert(order.take(1).drop_last() =~= order.take(0));
    assert(device.after_all(order.take(1)) == device);
    assert(order.take(2).drop_last() =~= order.take(1));
    assert(device.after_all(order.take(2)) == d2);
    assert(order.take(3).drop_last() =~= order.take(2));
    assert(device.after_all(order.take(3)) == d3);
    assert(order.take(4).drop_last() =~= order.take(3));
    assert(device.after_all(order.take(4)) == d4);
    assert(order.take(5).drop_last() =~= order.take(4));
    assert(device.after_all(order.take(5)) == d5);
    assert(order.take(6).drop_last() =~= order.take(5));
    assert(device.after_all(order.take(6)) == d6);
    assert(order.take(7).drop_last() =~= order.take(6));
    assert(device.after_all(order.take(7)) == d7);
    assert(order.take(8).drop_last() =~= order.take(7));
    assert(device.after_all(order.take(8)) == d8);
    assert(order.take(9).drop_last() =~= order.take(8));
    assert(device.after_all(order.take(9)) == d9);
    assert(order.take(10).drop_last() =~= order.take(9));
    assert(order.take(10) =~= order);
    assert(device.after_all(order) == d10);
    lemma_clock_enables(d2);
    lemma_pin_mode(d3);
    lemma_clock_enables(d4);
    lemma_timer_steps(d5);
    lemma_timer_steps(d8);
    lemma_line_enable(d9);
}

/// One overflow on an armed device runs the service routine once: the pin
/// is inverted, no overflow stays flagged, and the device is still armed.
pub proof fn lemma_event_toggles(device: Device)
    requires
        armed(device),
    ensures
        after_event(device) == serviced(device.after_overflow()),
        after_event(device).pin() == device.pin().flipped(),
        !after_event(device).update_pending(),
        armed(after_event(device)),
{
    let overflowed = device.after_overflow();
    lemma_timer_steps(device);
    assert(overflowed.interrupt_due());
    assert(armed(overflowed));
    lemma_service(overflowed);
}

/// On an armed device the pin's level follows the parity of the number of
/// overflows: after an even number it is the level it started from, after
/// an odd number the other one. No overflow stays flagged once its service
/// routine has run.
pub proof fn lemma_pin_follows_parity(device: Device, events: nat)
    requires
        armed(device),
    ensures
        after_events(device, events).pin() == device.pin().after_toggles(events),
        armed(after_events(device, events)),
        events > 0 ==> !after_events(device, events).update_pending(),
    decreases events,
{
    if events > 0 {
        let earlier = (events - 1) as nat;
        lemma_pin_follows_parity(device, earlier);
        lemma_event_toggles(after_events(device, earlier));
    }
}

/// Counted from reset and a start-up with both register sets free, the pin
/// is low after an even number of overflows and high after an odd number.
pub proof fn lemma_pin_level_since_reset(events: nat)
    ensures
        after_events(Device::at_reset().after_all(startup_order()), events).pin() == if events % 2
            == 0 {
            Level::Low
        } else {
            Level::High
        },
{
    let started = Device::at_reset().after_all(startup_order());
    lemma_startup_arms_device(Device::at_reset());
    assert(0u32 & 0x100 == 0) by (bit_vector);
    assert(started.pin() == Level::Low);
    lemma_pin_follows_parity(started, events);
}

/// Whether the device is armed and stands at the very start of a counting
/// period, with no overflow flagged.
pub open spec fn at_period_start(device: Device) -> bool {
    &&& armed(device)
    &&& device.prescaler_count == 0
    &&& device.count == 0
    &&& !device.update_pending()
}

/// Bus-clock cycles from the start of a counting period to the overflow that
/// ends it, with the prescaler value the timer is dividing by.
pub open spec fn cycles_to_overflow(device: Device) -> int {
    (device.prescaler_in_use + 1) * (device.arr + 1)
}

/// Within a counting period nothing but the timer's two counters moves, and
/// together they tell how many cycles of the period have passed.
pub proof fn lemma_counting_within_period(device: Device, cycles: nat)
    requires
        at_period_start(device),
        cycles < cycles_to_overflow(device),
    ensures
        ({
            let now = after_cycles(device, cycles);
            &&& now == (Device { prescaler_count: now.prescaler_count, count: now.count, ..device })
            &&& now.prescaler_count <= device.prescaler_in_use
            &&& now.count <= device.arr
            &&& now.count * (device.prescaler_in_use + 1) + now.prescaler_count == cycles
        }),
    decreases cycles,
{
    if cycles > 0 {
        let earlier = (cycles - 1) as nat;
        lemma_counting_within_period(device, earlier);
        let then = after_cycles(device, earlier);
        let divisor = device.prescaler_in_use + 1;
        let c = then.count as int;
        let top = device.arr as int;
        assert(then.counting());
        if then.prescaler_count == device.prescaler_in_use {
            if then.count == device.arr {
                assert((top + 1) * divisor == top * divisor + divisor) by (nonlinear_arith);
                assert(false);
            } else {
                assert((c + 1) * divisor == c * divisor + divisor) by (nonlinear_arith);
            }
        }
        assert(!then.after_tick().interrupt_due());
    }
}

/// The pin changes its level once per counting period and at no other time:
/// from the start of a period it holds its level for every cycle short of
/// `cycles_to_overflow`, and on that cycle it is inverted and the next period
/// starts, the prescaler register's value now in use. From then on the time
/// between two changes is `cycles_per_overflow` of the two period registers.
pub proof fn lemma_toggle_period(device: Device, cycles: nat)
    requires
        at_period_start(device),
    ensures
        cycles < cycles_to_overflow(device) ==> after_cycles(device, cycles).pin() == device.pin(),
        cycles == cycles_to_overflow(device) ==> {
            let next = after_cycles(device, cycles);
            &&& next.pin() == device.pin().flipped()
            &&& at_period_start(next)
            &&& next.psc == device.psc
            &&& next.arr == device.arr
            &&& next.prescaler_in_use == device.psc
            &&& cycles_to_overflow(next) == crate::config::cycles_per_overflow(device.psc, device.arr)
        },
{
    let span = cycles_to_overflow(device);
    let divisor = device.prescaler_in_use + 1;
    let top = device.arr as int;
    assert(span == top * divisor + divisor && span >= 1) by (nonlinear_arith)
        requires
            span == divisor * (top + 1),
            divisor >= 1,
            top >= 0,
    ;
    if cycles < span {
        lemma_counting_within_period(device, cycles);
    } else if cycles == span {
        let earlier = (cycles - 1) as nat;
        lemma_counting_within_period(device, earlier);
        let then = after_cycles(device, earlier);
        let c = then.count as int;
        let p = then.prescaler_count as int;
        assert(c == top && p == divisor - 1) by (nonlinear_arith)
            requires
                0 <= c <= top,
                0 <= p <= divisor - 1,
                c * divisor + p == top * divisor + divisor - 1,
        ;
        assert(then.overflow_imminent());
        let overflowed = then.after_tick();
        assert(overflowed == then.after_overflow());
        lemma_timer_steps(then);
        assert(armed(overflowed));
        assert(overflowed.interrupt_due());
        lemma_service(overflowed);
        let next = after_cycles(device, cycles);
        assert(next == serviced(overflowed));
        assert((next.prescaler_in_use + 1) * (next.arr + 1) == (device.psc + 1) * (device.arr + 1));
    }
}

} // verus!
