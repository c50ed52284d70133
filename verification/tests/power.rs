use twatch::errors::TwatchError;
use twatch::pmu::Pmu;
use twatch::pmu::Power;
use twatch::pmu::State;
use twatch::tiles::Action;

#[test]
fn battery_uses_gauge_while_charging() {
    let p = Pmu::new();
    assert_eq!(p.get_battery_percentage(true, 80, 3700), 80);
    assert_eq!(p.get_battery_percentage(true, 0, 3700), 0);
}

#[test]
fn battery_falls_back_to_voltage_on_invalid_gauge() {
    let p = Pmu::new();
    // 0x7F marks an invalid gauge reading.
    assert_eq!(p.get_battery_percentage(true, 0x7F, 3655), 45);
    assert_eq!(p.get_battery_percentage(false, 80, 3655), 45);
}

#[test]
fn battery_voltage_is_clamped() {
    let p = Pmu::new();
    assert_eq!(p.get_battery_percentage(false, 0, 3100), 0);
    assert_eq!(p.get_battery_percentage(false, 0, 3200), 0);
    assert_eq!(p.get_battery_percentage(false, 0, 4200), 100);
    assert_eq!(p.get_battery_percentage(false, 0, 4300), 100);
    assert_eq!(p.get_battery_percentage(false, 0, 3210), 1);
    assert_eq!(p.get_battery_percentage(false, 0, 4190), 99);
}

#[test]
fn button_latch_reads_true_exactly_once() {
    let mut p = Pmu::new();
    p.latch_button_press();
    p.latch_button_press(); // a second interrupt for the same press
    assert!(p.is_button_pressed());
    // Read-and-cleared: without a new press the latch stays clear.
    assert!(!p.is_button_pressed());
}

#[test]
fn pmu_init_configures_rails_and_irq() {
    let mut p = Pmu::new();
    let acts = p.init();
    assert_eq!(
        acts,
        vec![
            Action::SetRailPower(Power::Exten, State::Off),
            Action::SetRailPower(Power::DcDc2, State::Off),
            Action::SetRailPower(Power::Ldo4, State::Off),
            Action::EnableButtonIrq,
            Action::ClearButtonIrq,
        ]
    );
    assert!(p.irq_enabled);
    assert!(!p.button_latch);
}

#[test]
fn error_names_identify_the_peripheral() {
    assert_eq!(TwatchError::Clock.as_str(), "clock error");
    assert_eq!(TwatchError::Display.as_str(), "display error");
    assert_eq!(TwatchError::Pmu.as_str(), "power management error");
    assert_eq!(TwatchError::I2c.as_str(), "bus error");
    assert_eq!(TwatchError::Accel.as_str(), "accelerometer error");
}

#[test]
fn rail_switches_report_their_write() {
    let mut p = Pmu::new();
    let acts = p.set_screen_power(State::On);
    assert_eq!(acts, vec![Action::SetRailPower(Power::Ldo2, State::On)]);
    assert_eq!(p.screen_power, State::On);
    let acts = p.set_audio_power(State::Off);
    assert_eq!(acts, vec![Action::SetRailPower(Power::Ldo3, State::Off)]);
}
