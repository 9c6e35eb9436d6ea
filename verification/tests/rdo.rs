use embedded_usb_pd::pdo::rdo::AvsData;
use embedded_usb_pd::pdo::rdo::BatteryData;
use embedded_usb_pd::pdo::rdo::FixedVarData;
use embedded_usb_pd::pdo::rdo::PpsData;
use embedded_usb_pd::pdo::sink;
use embedded_usb_pd::pdo::source;
use embedded_usb_pd::pdo::Rdo;

#[test]
fn test_fixed_roundtrip() {
    const RAW_FIXED: u32 = 0x3540C864;
    let rdo = Rdo::for_pdo(
        RAW_FIXED,
        // These values don't matter, only the kind is used
        sink::Pdo::Fixed(sink::FixedData {
            dual_role_power: false,
            higher_capability: false,
            unconstrained_power: false,
            usb_comms_capable: false,
            dual_role_data: false,
            frs_required_current: sink::FrsRequiredCurrent::NotSupported,
            voltage_mv: 0,
            operational_current_ma: 0,
        }),
    );
    let expected = Rdo::Fixed(FixedVarData {
        object_position: 3,
        capability_mismatch: true,
        usb_comm_capable: false,
        no_usb_suspend: true,
        unchunked_extended_messages_support: false,
        epr_capable: true,
        operating_current_ma: 500,
        max_operating_current_ma: 1000,
    });
    assert_eq!(rdo, expected);
    assert_eq!(u32::from(expected), RAW_FIXED);
}

#[test]
fn test_var_roundtrip() {
    const RAW_VARIABLE: u32 = 0x3540C864;
    let rdo = Rdo::for_pdo(
        RAW_VARIABLE,
        // These values don't matter, only the kind is used
        sink::Pdo::Variable(sink::VariableData {
            max_voltage_mv: 0,
            min_voltage_mv: 0,
            operational_current_ma: 0,
        }),
    );
    let expected = Rdo::Variable(FixedVarData {
        object_position: 3,
        capability_mismatch: true,
        usb_comm_capable: false,
        no_usb_suspend: true,
        unchunked_extended_messages_support: false,
        epr_capable: true,
        operating_current_ma: 500,
        max_operating_current_ma: 1000,
    });
    assert_eq!(rdo, expected);
    assert_eq!(u32::from(expected), RAW_VARIABLE);
}

#[test]
fn test_battery_roundtrip() {
    const RAW_BATTERY: u32 = 0x35400402;
    let rdo = Rdo::for_pdo(
        RAW_BATTERY,
        // These values don't matter, only the kind is used
        sink::Pdo::Battery(sink::BatteryData {
            max_voltage_mv: 0,
            min_voltage_mv: 0,
            operational_power_mw: 0,
        }),
    );
    let expected = Rdo::Battery(BatteryData {
        object_position: 3,
        capability_mismatch: true,
        usb_comm_capable: false,
        no_usb_suspend: true,
        unchunked_extended_messages_support: false,
        epr_capable: true,
        operating_power_mw: 250,
        max_operating_power_mw: 500,
    });
    assert_eq!(rdo, expected);
    assert_eq!(u32::from(expected), RAW_BATTERY);
}

#[test]
fn test_pps_roundtrip() {
    const RAW_PPS: u32 = 0x35400202;
    let rdo = Rdo::for_pdo(
        RAW_PPS,
        // These values don't matter, only the kind is used
        sink::Pdo::Augmented(sink::Apdo::SprPps(sink::SprPpsData {
            max_voltage_mv: 0,
            min_voltage_mv: 0,
            max_current_ma: 0,
        })),
    );
    let expected = Rdo::Pps(PpsData {
        object_position: 3,
        capability_mismatch: true,
        usb_comm_capable: false,
        no_usb_suspend: true,
        unchunked_extended_messages_support: false,
        epr_capable: true,
        output_voltage_mv: 20,
        operating_current_ma: 100,
    });
    assert_eq!(rdo, expected);
    assert_eq!(u32::from(expected), RAW_PPS);
}

#[test]
fn test_avs_roundtrip() {
    const RAW_AVS: u32 = 0x35400202;
    let rdo = Rdo::for_pdo(
        RAW_AVS,
        // These values don't matter, only the kind is used
        sink::Pdo::Augmented(sink::Apdo::SprAvs(sink::SprAvsData {
            max_current_15v_ma: 0,
            max_current_20v_ma: 0,
        })),
    );
    let expected = Rdo::Avs(AvsData {
        object_position: 3,
        capability_mismatch: true,
        usb_comm_capable: false,
        no_usb_suspend: true,
        unchunked_extended_messages_support: false,
        epr_capable: true,
        output_voltage_mv: 20,
        operating_current_ma: 100,
    });
    assert_eq!(rdo, expected);
    assert_eq!(u32::from(expected), RAW_AVS);
}

#[test]
fn epr_avs_request_is_read_as_pps() {
    let pdo = source::Pdo::Augmented(source::Apdo::EprAvs(source::EprAvsData {
        peak_current: source::PeakCurrent::Pct100,
        max_voltage_mv: 0,
        min_voltage_mv: 0,
        pdp_mw: 0,
    }));
    assert!(matches!(Rdo::for_pdo(0x35400202, pdo), Rdo::Pps(_)));
}

#[test]
fn pps_output_voltage_beyond_sixteen_bits_wraps() {
    // Output voltage field of twelve bits, all set: 4095 units of 20 mV
    let rdo = PpsData::from_word(0x001F_FE00);
    assert_eq!(rdo.output_voltage_mv, ((4095u32 * 20) % 0x1_0000) as u16);
    assert_eq!(rdo.operating_current_ma, 0);
}
