use power_module::power::{
    change_power_source, PinLevels, PowerArbiter, PowerState, ACDC_THRESHOLD, FORCE_ACDC,
    FORCE_DCDC, FORCE_OFF,
};
use power_module::registry::Registry;

#[test]
fn override_codes_ignore_voltage() {
    for v in [0u32, 100, 760, 761, 5000, u32::MAX] {
        assert_eq!(PowerState::determine_state(FORCE_DCDC, v), PowerState::DCDC);
        assert_eq!(PowerState::determine_state(FORCE_ACDC, v), PowerState::ACDC);
        assert_eq!(PowerState::determine_state(FORCE_OFF, v), PowerState::OFF);
    }
}

#[test]
fn threshold_mode_boundary() {
    assert_eq!(ACDC_THRESHOLD, 760);
    assert_eq!(PowerState::determine_state(0, 760), PowerState::DCDC);
    assert_eq!(PowerState::determine_state(0, 761), PowerState::ACDC);
    assert_eq!(PowerState::determine_state(0, 0), PowerState::DCDC);
    assert_eq!(PowerState::determine_state(4, 900), PowerState::ACDC);
    assert_eq!(PowerState::determine_state(99, 700), PowerState::DCDC);
    assert_eq!(PowerState::from_voltage(760), PowerState::DCDC);
    assert_eq!(PowerState::from_voltage(761), PowerState::ACDC);
}

#[test]
fn led_delays_per_state() {
    assert_eq!(PowerState::ACDC.get_led_delay(), 500);
    assert_eq!(PowerState::DCDC.get_led_delay(), 100);
    assert_eq!(PowerState::OFF.get_led_delay(), 1000);
}

#[test]
fn pins_per_state() {
    let mut pins = PinLevels { acdc_high: true, dcdc_high: true };
    PowerState::ACDC.set_pins(&mut pins);
    assert_eq!(pins, PinLevels { acdc_high: false, dcdc_high: true });
    PowerState::DCDC.set_pins(&mut pins);
    assert_eq!(pins, PinLevels { acdc_high: true, dcdc_high: false });
    PowerState::OFF.set_pins(&mut pins);
    assert_eq!(pins, PinLevels { acdc_high: false, dcdc_high: false });
}

#[test]
fn override_codes_of_states() {
    assert_eq!(PowerState::DCDC.override_code(), FORCE_DCDC);
    assert_eq!(PowerState::ACDC.override_code(), FORCE_ACDC);
    assert_eq!(PowerState::OFF.override_code(), FORCE_OFF);
}

#[test]
fn arbiter_waits_for_first_reading() {
    let mut reg = Registry::new();
    let mut arb = PowerArbiter::new();
    assert_eq!(change_power_source(&mut arb, &mut reg), None);
    assert_eq!(reg.delay.len(), 0);
    assert_eq!(arb.previous, None);
}

#[test]
fn same_state_twice_actuates_once() {
    let mut reg = Registry::new();
    let mut arb = PowerArbiter::new();
    reg.millivolts.signal(900);
    assert_eq!(change_power_source(&mut arb, &mut reg), Some(PowerState::ACDC));
    assert_eq!(arb.pins, PinLevels { acdc_high: false, dcdc_high: true });
    assert_eq!(reg.power_status.try_take(), Some(PowerState::ACDC));
    // second tick with a new reading on the same side of the threshold
    reg.millivolts.signal(1000);
    assert_eq!(change_power_source(&mut arb, &mut reg), None);
    // third tick with no new reading: last reading is kept
    assert_eq!(change_power_source(&mut arb, &mut reg), None);
    assert_eq!(reg.delay.len(), 1);
    assert_eq!(reg.delay.try_receive(), Some(500));
    assert_eq!(reg.power_status.try_take(), None);
}

#[test]
fn change_of_state_actuates_again() {
    let mut reg = Registry::new();
    let mut arb = PowerArbiter::new();
    reg.millivolts.signal(760);
    assert_eq!(change_power_source(&mut arb, &mut reg), Some(PowerState::DCDC));
    reg.millivolts.signal(761);
    assert_eq!(change_power_source(&mut arb, &mut reg), Some(PowerState::ACDC));
    assert_eq!(reg.delay.try_receive(), Some(100));
    assert_eq!(reg.delay.try_receive(), Some(500));
}

#[test]
fn queued_override_forces_state() {
    let mut reg = Registry::new();
    let mut arb = PowerArbiter::new();
    reg.millivolts.signal(900);
    assert!(reg.power_cmds.try_send(PowerState::OFF).is_ok());
    assert_eq!(change_power_source(&mut arb, &mut reg), Some(PowerState::OFF));
    assert_eq!(arb.override_code, FORCE_OFF);
    assert_eq!(arb.pins, PinLevels { acdc_high: false, dcdc_high: false });
    assert_eq!(reg.delay.try_receive(), Some(1000));
    // the override stays in force on later ticks
    reg.millivolts.signal(100);
    assert_eq!(change_power_source(&mut arb, &mut reg), None);
    assert_eq!(arb.previous, Some(PowerState::OFF));
}

#[test]
fn full_delay_queue_drops_new_period() {
    let mut reg = Registry::new();
    let mut arb = PowerArbiter::new();
    for d in [1u64, 2, 3, 4] {
        assert!(reg.delay.try_send(d).is_ok());
    }
    reg.millivolts.signal(900);
    assert_eq!(change_power_source(&mut arb, &mut reg), Some(PowerState::ACDC));
    assert_eq!(reg.delay.len(), 4);
    assert_eq!(reg.delay.try_receive(), Some(1));
}

#[test]
fn newest_queued_override_wins() {
    let mut reg = Registry::new();
    let mut arb = PowerArbiter::new();
    reg.millivolts.signal(100);
    assert!(reg.power_cmds.try_send(PowerState::ACDC).is_ok());
    assert!(reg.power_cmds.try_send(PowerState::OFF).is_ok());
    assert!(reg.power_cmds.try_send(PowerState::DCDC).is_ok());
    assert_eq!(change_power_source(&mut arb, &mut reg), Some(PowerState::DCDC));
    assert_eq!(arb.override_code, FORCE_DCDC);
    assert_eq!(reg.power_cmds.len(), 0);
    assert_eq!(reg.delay.len(), 1);
    assert_eq!(change_power_source(&mut arb, &mut reg), None);
    assert_eq!(reg.delay.len(), 1);
}
