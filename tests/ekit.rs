use truma_ekit::controller::EKitLocal;
use truma_ekit::ekit::EKitSystemRunMode;
use truma_ekit::fan::Fan;
use truma_ekit::gpio::DigitalOutputPin;
use truma_ekit::heating::HeatingCoil;
use truma_ekit::relay::Relay;

fn ekit(fan: bool, coil1: bool, coil2: bool) -> EKitLocal {
    EKitLocal::new(
        Fan::new(Relay::connected_to(DigitalOutputPin::test(fan))),
        HeatingCoil::new(Relay::connected_to(DigitalOutputPin::test(coil1))),
        HeatingCoil::new(Relay::connected_to(DigitalOutputPin::test(coil2))),
    )
}

#[test]
fn is_initially_turned_off() {
    assert!(!ekit(false, false, false).is_on());
    assert!(!ekit(true, false, false).is_on());
    assert!(!ekit(false, true, false).is_on());
    assert!(!ekit(false, false, true).is_on());
    assert!(!ekit(true, true, true).is_on());
    assert!(!ekit(true, false, true).is_on());
}

#[test]
fn update_run_mode_prioritizes_overtemperature_protection() {
    let mut ekit = ekit(false, false, false);

    ekit.update_run_mode(None);
    assert_eq!(ekit.run_mode(), EKitSystemRunMode::Off);
    ekit.update_run_mode(Some(EKitSystemRunMode::Full));
    assert_eq!(ekit.run_mode(), EKitSystemRunMode::Full);

    ekit.overtemperature_protection_mut().enter();
    ekit.update_run_mode(None);
    assert_eq!(ekit.run_mode(), EKitSystemRunMode::Cooldown);
    ekit.update_run_mode(Some(EKitSystemRunMode::Full));
    assert_eq!(ekit.run_mode(), EKitSystemRunMode::Cooldown);
}

#[test]
fn overtemperature_protection() {
    let mut ekit = ekit(false, false, false);

    ekit.enter_run_mode(EKitSystemRunMode::Cool);

    ekit.request_run_mode(EKitSystemRunMode::Off);
    assert_eq!(
        ekit.run_mode(),
        EKitSystemRunMode::Cooldown,
        "failed to enter overtemperature protection"
    );

    ekit.enter_run_mode(EKitSystemRunMode::Cool);

    ekit.overtemperature_protection_mut().enter();
    ekit.update_run_mode(None);

    assert_eq!(
        ekit.run_mode(),
        EKitSystemRunMode::Cooldown,
        "failed to enter overtemperature protection"
    );

    ekit.set_output_temperature(None);
    assert_eq!(
        ekit.run_mode(),
        EKitSystemRunMode::Cooldown,
        "failed to stay in overtemperature protection"
    );

    ekit.overtemperature_protection_mut().exit();
    ekit.update_run_mode(None);
    assert_eq!(
        ekit.run_mode(),
        EKitSystemRunMode::Off,
        "failed to turn exit overtemperature protection"
    );
}

#[test]
fn turns_peripherals_on_and_off() {
    let mut ekit = ekit(false, false, false);

    ekit.enter_run_mode(EKitSystemRunMode::Cool);
    assert!(
        ekit.fan().is_turned_on()
            && !ekit.heating_coil1().is_turned_on()
            && !ekit.heating_coil2().is_turned_on()
    );

    ekit.enter_run_mode(EKitSystemRunMode::Off);
    assert!(
        !ekit.fan().is_turned_on()
            && !ekit.heating_coil1().is_turned_on()
            && !ekit.heating_coil2().is_turned_on()
    );

    ekit.enter_run_mode(EKitSystemRunMode::Half);
    assert!(
        ekit.fan().is_turned_on()
            && ekit.heating_coil1().is_turned_on()
            && !ekit.heating_coil2().is_turned_on()
    );

    ekit.enter_run_mode(EKitSystemRunMode::Off);
    assert!(
        !ekit.fan().is_turned_on()
            && !ekit.heating_coil1().is_turned_on()
            && !ekit.heating_coil2().is_turned_on()
    );

    ekit.enter_run_mode(EKitSystemRunMode::Full);
    assert!(
        ekit.fan().is_turned_on()
            && ekit.heating_coil1().is_turned_on()
            && ekit.heating_coil2().is_turned_on()
    );
}
