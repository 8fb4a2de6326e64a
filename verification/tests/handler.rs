use timer_toggle::action::{Action, Block, Level, Outcome};
use timer_toggle::handler::{acknowledge, toggle};
use timer_toggle::ownership::Ownership;

#[test]
fn routine_begins_by_clearing_the_flag() {
    assert_eq!(acknowledge(), Action::ClearUpdateFlag);
}

#[test]
fn high_pin_is_reset() {
    assert_eq!(toggle(Level::High), Action::ResetPin);
}

#[test]
fn low_pin_is_set() {
    assert_eq!(toggle(Level::Low), Action::SetPin);
}

#[test]
fn toggle_is_always_one_pin_write() {
    for level in [Level::Low, Level::High] {
        assert!(toggle(level).writes_pin());
        assert!(toggle(level).writes_register());
    }
    assert!(!acknowledge().writes_pin());
    assert!(acknowledge().writes_register());
}

#[test]
fn inverted_level() {
    assert_eq!(Level::Low.inverted(), Level::High);
    assert_eq!(Level::High.inverted(), Level::Low);
    assert_eq!(Level::High.inverted().inverted(), Level::High);
}

#[test]
fn which_steps_write_registers() {
    let silent = [Action::ClaimDevice, Action::ClaimCore, Action::WaitForInterrupt, Action::Halt];
    for action in silent {
        assert!(!action.writes_register());
        assert!(!action.writes_pin());
    }
    let writing = [
        Action::EnableGpioClock,
        Action::ConfigurePinOutput,
        Action::EnableTimerClock,
        Action::EnableUpdateInterrupt,
        Action::SetPrescaler(7),
        Action::SetAutoReload(9),
        Action::StartCounter,
        Action::UnmaskTimerInterrupt,
        Action::ClearUpdateFlag,
        Action::SetPin,
        Action::ResetPin,
    ];
    for action in writing {
        assert!(action.writes_register());
    }
    assert!(Action::SetPin.writes_pin());
    assert!(Action::ResetPin.writes_pin());
    assert!(!Action::ClearUpdateFlag.writes_pin());
    assert!(!Action::ConfigurePinOutput.writes_pin());
}

#[test]
fn outcomes_differ() {
    assert_ne!(Outcome::Completed, Outcome::Refused);
}

#[test]
fn nothing_is_claimed_at_start() {
    let ownership = Ownership::new();
    assert!(!ownership.is_claimed(Block::Device));
    assert!(!ownership.is_claimed(Block::Core));
}

#[test]
fn first_claim_is_granted_second_is_refused() {
    let mut ownership = Ownership::new();
    let handle = ownership.claim(Block::Device);
    assert!(handle.is_some());
    assert_eq!(handle.unwrap().block(), Block::Device);
    assert!(ownership.is_claimed(Block::Device));
    assert!(ownership.claim(Block::Device).is_none());
    assert!(ownership.claim(Block::Device).is_none());
    assert!(ownership.is_claimed(Block::Device));
}

#[test]
fn claims_of_the_two_sets_are_independent() {
    let mut ownership = Ownership::new();
    assert!(ownership.claim(Block::Core).is_some());
    assert!(!ownership.is_claimed(Block::Device));
    let handle = ownership.claim(Block::Device);
    assert_eq!(handle.unwrap().block(), Block::Device);
    assert!(ownership.claim(Block::Core).is_none());
    assert!(ownership.is_claimed(Block::Core));
    assert!(ownership.is_claimed(Block::Device));
}
