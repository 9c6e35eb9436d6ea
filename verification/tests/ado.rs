use embedded_usb_pd::ado::Ado;
use embedded_usb_pd::ado::AdoRaw;
use embedded_usb_pd::ado::BatteryStatusChange;
use embedded_usb_pd::ado::InvalidType;
use embedded_usb_pd::PdError;

#[test]
fn test_battery_status_change_fixed() {
    let bsc = BatteryStatusChange(0b1011_0000);

    // Only bits 0-3 are valid
    assert_eq!(bsc.fixed_battery_status_change(0).unwrap(), true);
    assert_eq!(bsc.fixed_battery_status_change(1).unwrap(), true);
    assert_eq!(bsc.fixed_battery_status_change(2).unwrap(), false);
    assert_eq!(bsc.fixed_battery_status_change(3).unwrap(), true);
    // Out of range
    assert_eq!(bsc.fixed_battery_status_change(4), Err(PdError::InvalidParams));
}

#[test]
fn test_battery_status_change_hot_swappable() {
    let bsc = BatteryStatusChange(0b1011);

    assert_eq!(bsc.hot_swappable_battery_status(0).unwrap(), true);
    assert_eq!(bsc.hot_swappable_battery_status(1).unwrap(), true);
    assert_eq!(bsc.hot_swappable_battery_status(2).unwrap(), false);
    assert_eq!(bsc.hot_swappable_battery_status(3).unwrap(), true);

    // Out of range
    assert_eq!(bsc.hot_swappable_battery_status(4), Err(PdError::InvalidParams));
}

#[test]
fn test_ado_try_from_standard_alerts() {
    let mut raw = AdoRaw(0);

    // BatteryStatusChange
    raw.set_alert_type(0x02);
    raw.set_battery_status_change(0b0010_0001);
    let ado = Ado::try_from(raw).unwrap();
    match ado {
        Ado::BatteryStatusChange(bsc) => {
            assert_eq!(bsc.fixed_battery_status_change(1).unwrap(), true);
            assert_eq!(bsc.hot_swappable_battery_status(0).unwrap(), true);
        }
        _ => panic!("Expected BatteryStatusChange"),
    }

    // Ocp
    raw.set_alert_type(0x04);
    assert_eq!(Ado::try_from(raw).unwrap(), Ado::Ocp);

    // Otp
    raw.set_alert_type(0x08);
    assert_eq!(Ado::try_from(raw).unwrap(), Ado::Otp);

    // OperatingConditionChange
    raw.set_alert_type(0x10);
    assert_eq!(Ado::try_from(raw).unwrap(), Ado::OperatingConditionChange);

    // SourceInputChange
    raw.set_alert_type(0x20);
    assert_eq!(Ado::try_from(raw).unwrap(), Ado::SourceInputChange);

    // Ovp
    raw.set_alert_type(0x40);
    assert_eq!(Ado::try_from(raw).unwrap(), Ado::Ovp);

    // Extended alert types
    raw.set_alert_type(0x80);

    raw.set_extended_alert_type(0x01);
    assert_eq!(Ado::try_from(raw).unwrap(), Ado::PowerStateChange);

    raw.set_extended_alert_type(0x02);
    assert_eq!(Ado::try_from(raw).unwrap(), Ado::PowerButtonPress);

    raw.set_extended_alert_type(0x03);
    assert_eq!(Ado::try_from(raw).unwrap(), Ado::PowerButtonRelease);

    raw.set_extended_alert_type(0x04);
    assert_eq!(Ado::try_from(raw).unwrap(), Ado::ControllerInitiatedWake);

    raw.set_extended_alert_type(0x05);
    assert_eq!(Ado::try_from(raw), Err(InvalidType(raw.0)));
}

#[test]
fn test_ado_try_from_invalid_alert_type() {
    let mut raw = AdoRaw(0);
    raw.set_alert_type(0xFF);
    assert!(Ado::try_from(raw).is_err());
}

#[test]
fn ado_from_word_reads_the_same_fields() {
    assert_eq!(Ado::try_from(0x0400_0000u32), Ok(Ado::Ocp));
    assert_eq!(
        Ado::try_from(0x0221_0000u32),
        Ok(Ado::BatteryStatusChange(BatteryStatusChange(0x21)))
    );
    assert_eq!(Ado::try_from(0x8000_0003u32), Ok(Ado::PowerButtonRelease));
    assert_eq!(Ado::try_from(0x8000_0000u32), Err(InvalidType(0x8000_0000)));
    assert_eq!(PdError::from(InvalidType(7)), PdError::InvalidParams);
}

#[test]
fn each_battery_bit_is_told_apart() {
    for index in 0..4usize {
        let fixed = BatteryStatusChange(1 << (4 + index));
        let hot = BatteryStatusChange(1 << index);
        for other in 0..4usize {
            assert_eq!(fixed.fixed_battery_status_change(other), Ok(other == index));
            assert_eq!(fixed.hot_swappable_battery_status(other), Ok(false));
            assert_eq!(hot.hot_swappable_battery_status(other), Ok(other == index));
            assert_eq!(hot.fixed_battery_status_change(other), Ok(false));
        }
    }
}
