use timer_toggle::config::{TimerConfig, AUTO_RELOAD, NANOS_PER_SECOND, PIN, PRESCALER};

#[test]
fn fixed_settings() {
    let config = TimerConfig::fixed();
    assert_eq!(config.prescaler(), 1000);
    assert_eq!(config.auto_reload(), 2000);
    assert_eq!(config, TimerConfig::new(PRESCALER, AUTO_RELOAD));
    assert_eq!(PIN, 8);
    assert_eq!(NANOS_PER_SECOND, 1_000_000_000);
}

#[test]
fn chosen_settings_are_kept() {
    let config = TimerConfig::new(7, 11);
    assert_eq!(config.prescaler(), 7);
    assert_eq!(config.auto_reload(), 11);
    assert_ne!(config, TimerConfig::new(11, 7));
}

#[test]
fn period_cycles_formula() {
    assert_eq!(TimerConfig::fixed().period_cycles(), 2_003_001);
    assert_eq!(TimerConfig::new(0, 0).period_cycles(), 1);
    assert_eq!(TimerConfig::new(3, 4).period_cycles(), 20);
    assert_eq!(TimerConfig::new(u16::MAX, 0).period_cycles(), 65_536);
    assert_eq!(TimerConfig::new(0, u32::MAX).period_cycles(), 4_294_967_296);
    assert_eq!(TimerConfig::new(u16::MAX, u32::MAX).period_cycles(), 0x1_0000_0000_0000);
}

#[test]
fn period_at_sixteen_megahertz() {
    let nanos = TimerConfig::fixed().period_nanos(16_000_000);
    assert_eq!(nanos, Some(125_187_562));
    let millis = nanos.unwrap() as f64 / 1.0e6;
    assert!((millis - 125.2).abs() < 0.05);
    let exact = (1001.0 * 2001.0) / 16_000_000.0 * 1.0e3;
    assert!((millis - exact).abs() < 1.0e-6);
}

#[test]
fn period_nanos_rounds_down() {
    assert_eq!(TimerConfig::new(0, 0).period_nanos(3), Some(333_333_333));
    assert_eq!(TimerConfig::new(0, 1).period_nanos(3), Some(666_666_666));
    assert_eq!(TimerConfig::new(0, 2).period_nanos(3), Some(1_000_000_000));
    assert_eq!(TimerConfig::new(0, 0).period_nanos(u32::MAX), Some(0));
}

#[test]
fn period_nanos_of_largest_settings() {
    let nanos = TimerConfig::new(u16::MAX, u32::MAX).period_nanos(1);
    assert_eq!(nanos, Some(0x1_0000_0000_0000u128 * 1_000_000_000));
}

#[test]
fn stopped_clock_has_no_period() {
    assert_eq!(TimerConfig::fixed().period_nanos(0), None);
}

#[test]
fn period_is_within_one_counter_tick_of_the_quotient() {
    for (prescaler, auto_reload, hz) in
        [(1000u16, 2000u32, 16_000_000u32), (0, 0, 1), (9, 99, 8_000_000), (65_535, 1, 84_000_000)]
    {
        let config = TimerConfig::new(prescaler, auto_reload);
        let nanos = config.period_nanos(hz).unwrap();
        let total = config.period_cycles() as u128 * 1_000_000_000;
        assert!(nanos * hz as u128 <= total);
        assert!(total < (nanos + 1) * hz as u128);
    }
}
