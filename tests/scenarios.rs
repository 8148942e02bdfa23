use truma_ekit::controller::{EKitLocal, Peripheral, PeripheralWrite};
use truma_ekit::ekit::{EKitSystemRunMode, EKitUserRunMode};
use truma_ekit::fan::Fan;
use truma_ekit::gpio::DigitalOutputPin;
use truma_ekit::heating::HeatingCoil;
use truma_ekit::relay::Relay;
use truma_ekit::temperature::celsius;

fn fresh() -> EKitLocal {
    EKitLocal::new(
        Fan::new(Relay::connected_to(DigitalOutputPin::test(false))),
        HeatingCoil::new(Relay::connected_to(DigitalOutputPin::test(false))),
        HeatingCoil::new(Relay::connected_to(DigitalOutputPin::test(false))),
    )
}

fn outputs(ekit: &EKitLocal) -> (bool, bool, bool) {
    (
        ekit.fan().is_turned_on(),
        ekit.heating_coil1().is_turned_on(),
        ekit.heating_coil2().is_turned_on(),
    )
}

fn w(peripheral: Peripheral, on: bool) -> PeripheralWrite {
    PeripheralWrite { peripheral, on }
}

#[test]
fn full_request_turns_everything_on() {
    let mut ekit = fresh();
    ekit.request_user_run_mode(EKitUserRunMode::Full);
    assert_eq!(outputs(&ekit), (true, true, true));
    assert_eq!(ekit.run_mode(), EKitSystemRunMode::Full);
    assert!(ekit.is_on());
}

#[test]
fn off_request_from_full_cools_down_then_turns_off() {
    let mut ekit = fresh();
    ekit.request_user_run_mode(EKitUserRunMode::Full);

    ekit.request_user_run_mode(EKitUserRunMode::Off);
    assert_eq!(ekit.run_mode(), EKitSystemRunMode::Cooldown);
    assert_eq!(outputs(&ekit), (true, false, false));
    assert!(ekit.overtemperature_protection().is_active);

    ekit.set_output_temperature(Some(celsius(4500)));
    assert_eq!(ekit.run_mode(), EKitSystemRunMode::Off);
    assert_eq!(outputs(&ekit), (false, false, false));
    assert!(!ekit.is_on());

    ekit.set_output_temperature(Some(celsius(4500)));
    assert!(!ekit.overtemperature_protection().was_active);
    assert_eq!(ekit.overtemperature_protection().forced_run_mode(), None);
    assert_eq!(ekit.run_mode(), EKitSystemRunMode::Off);
    assert_eq!(outputs(&ekit), (false, false, false));
}

#[test]
fn missing_reading_forces_cooldown_from_cool() {
    let mut ekit = fresh();
    ekit.request_user_run_mode(EKitUserRunMode::Cool);
    ekit.set_output_temperature(Some(celsius(2000)));
    assert_eq!(ekit.run_mode(), EKitSystemRunMode::Cool);
    ekit.set_output_temperature(None);
    assert_eq!(ekit.run_mode(), EKitSystemRunMode::Cooldown);
    assert_eq!(outputs(&ekit), (true, false, false));
}

#[test]
fn overtemperature_wins_over_half_request() {
    let mut ekit = fresh();
    ekit.set_output_temperature(Some(celsius(9500)));
    assert_eq!(ekit.run_mode(), EKitSystemRunMode::Cooldown);
    ekit.request_user_run_mode(EKitUserRunMode::Half);
    assert_eq!(ekit.run_mode(), EKitSystemRunMode::Cooldown);
    assert_eq!(outputs(&ekit), (true, false, false));
}

#[test]
fn cooldown_drops_requests_without_writes() {
    let mut ekit = fresh();
    ekit.request_user_run_mode(EKitUserRunMode::Half);
    ekit.request_user_run_mode(EKitUserRunMode::Off);
    assert_eq!(ekit.run_mode(), EKitSystemRunMode::Cooldown);
    ekit.take_writes();
    for mode in [
        EKitSystemRunMode::Off,
        EKitSystemRunMode::Cooldown,
        EKitSystemRunMode::Cool,
        EKitSystemRunMode::Half,
        EKitSystemRunMode::Full,
    ] {
        ekit.request_run_mode(mode);
        assert_eq!(ekit.run_mode(), EKitSystemRunMode::Cooldown);
        assert_eq!(outputs(&ekit), (true, false, false));
    }
    ekit.request_user_run_mode(EKitUserRunMode::Full);
    assert_eq!(ekit.run_mode(), EKitSystemRunMode::Cooldown);
    assert!(ekit.take_writes().is_empty());
}

#[test]
fn off_request_cools_down_even_when_cold() {
    let mut ekit = fresh();
    ekit.request_user_run_mode(EKitUserRunMode::Cool);
    ekit.set_output_temperature(Some(celsius(-2000)));
    ekit.request_user_run_mode(EKitUserRunMode::Off);
    assert_eq!(ekit.run_mode(), EKitSystemRunMode::Cooldown);
    assert_eq!(outputs(&ekit), (true, false, false));
}

#[test]
fn writes_come_in_safe_order() {
    let mut ekit = fresh();
    assert_eq!(
        ekit.take_writes(),
        vec![
            w(Peripheral::Coil1, false),
            w(Peripheral::Coil2, false),
            w(Peripheral::Fan, false)
        ]
    );
    ekit.request_user_run_mode(EKitUserRunMode::Half);
    assert_eq!(
        ekit.take_writes(),
        vec![
            w(Peripheral::Fan, true),
            w(Peripheral::Coil1, true),
            w(Peripheral::Coil2, false)
        ]
    );
    ekit.request_user_run_mode(EKitUserRunMode::Full);
    ekit.request_user_run_mode(EKitUserRunMode::Off);
    ekit.set_output_temperature(Some(celsius(3000)));
    assert_eq!(
        ekit.take_writes(),
        vec![
            w(Peripheral::Fan, true),
            w(Peripheral::Coil1, true),
            w(Peripheral::Coil2, true),
            w(Peripheral::Fan, true),
            w(Peripheral::Coil1, false),
            w(Peripheral::Coil2, false),
            w(Peripheral::Coil1, false),
            w(Peripheral::Coil2, false),
            w(Peripheral::Fan, false)
        ]
    );
    assert!(ekit.take_writes().is_empty());
}

#[test]
fn no_coil_without_fan_along_a_run() {
    let mut ekit = fresh();
    let readings = [Some(2000), Some(9100), Some(7000), None, Some(5000), Some(4000), Some(9000)];
    let requests = [
        EKitUserRunMode::Full,
        EKitUserRunMode::Half,
        EKitUserRunMode::Off,
        EKitUserRunMode::Cool,
        EKitUserRunMode::Full,
        EKitUserRunMode::Half,
        EKitUserRunMode::Off,
    ];
    for (reading, request) in readings.iter().zip(requests.iter()) {
        ekit.request_user_run_mode(*request);
        let (fan, coil1, coil2) = outputs(&ekit);
        assert!(fan || (!coil1 && !coil2));
        ekit.set_output_temperature(reading.map(celsius));
        let (fan, coil1, coil2) = outputs(&ekit);
        assert!(fan || (!coil1 && !coil2));
    }
}

#[test]
fn user_modes_map_to_system_modes() {
    assert_eq!(EKitUserRunMode::Off.to_system_run_mode(), EKitSystemRunMode::Off);
    assert_eq!(EKitUserRunMode::Cool.to_system_run_mode(), EKitSystemRunMode::Cool);
    assert_eq!(EKitUserRunMode::Half.to_system_run_mode(), EKitSystemRunMode::Half);
    assert_eq!(EKitUserRunMode::Full.to_system_run_mode(), EKitSystemRunMode::Full);
}
