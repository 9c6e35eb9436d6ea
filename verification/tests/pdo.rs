use embedded_usb_pd::pdo::rdo::BatteryData as BatteryRequest;
use embedded_usb_pd::pdo::rdo::FixedVarData;
use embedded_usb_pd::pdo::sink;
use embedded_usb_pd::pdo::source;
use embedded_usb_pd::pdo::ApdoKind;
use embedded_usb_pd::pdo::Common;
use embedded_usb_pd::pdo::Contract;
use embedded_usb_pd::pdo::ExpectedPdo;
use embedded_usb_pd::pdo::InvalidApdoKind;
use embedded_usb_pd::pdo::Pdo;
use embedded_usb_pd::pdo::PdoKind;
use embedded_usb_pd::pdo::Rdo;
use embedded_usb_pd::PdError;

#[test]
fn pdo_kind_is_read_from_the_top_two_bits() {
    assert_eq!(PdoKind::from(0x0000_0000u32), PdoKind::Fixed);
    assert_eq!(PdoKind::from(0x4000_0000u32), PdoKind::Battery);
    assert_eq!(PdoKind::from(0x8000_0000u32), PdoKind::Variable);
    assert_eq!(PdoKind::from(0xC000_0000u32), PdoKind::Augmented);
    assert_eq!(PdoKind::from(0x07u8), PdoKind::Augmented);
    assert_eq!(u8::from(PdoKind::Variable), 2);
}

#[test]
fn apdo_kind_three_is_invalid() {
    assert_eq!(ApdoKind::try_from(0u8), Ok(ApdoKind::SprPps));
    assert_eq!(ApdoKind::try_from(1u8), Ok(ApdoKind::EprAvs));
    assert_eq!(ApdoKind::try_from(2u8), Ok(ApdoKind::SprAvs));
    assert_eq!(ApdoKind::try_from(3u8), Err(InvalidApdoKind(3)));
    assert_eq!(ApdoKind::try_from(0xF000_0000u32), Err(InvalidApdoKind(3)));
    assert_eq!(ApdoKind::try_from(0xE000_0000u32), Ok(ApdoKind::SprAvs));
    assert_eq!(PdError::from(InvalidApdoKind(3)), PdError::InvalidParams);
}

#[test]
fn sink_fixed_pdo_round_trips() {
    let data = sink::FixedData {
        dual_role_power: true,
        higher_capability: false,
        unconstrained_power: true,
        usb_comms_capable: false,
        dual_role_data: true,
        frs_required_current: sink::FrsRequiredCurrent::Current1A5,
        voltage_mv: 5000,
        operational_current_ma: 3000,
    };
    let word = u32::from(data);
    assert_eq!(word, (1 << 29) | (1 << 27) | (1 << 25) | (2 << 23) | (100 << 10) | 300);
    assert_eq!(sink::FixedData::try_from(word), Ok(data));
    assert_eq!(sink::Pdo::try_from(word), Ok(sink::Pdo::Fixed(data)));
    assert_eq!(
        sink::BatteryData::try_from(word),
        Err(ExpectedPdo { kind: PdoKind::Battery, apdo_kind: None, raw: word })
    );
}

#[test]
fn source_fixed_pdo_round_trips() {
    let data = source::FixedData {
        flags: source::FixedFlags {
            dual_role_power: true,
            usb_suspend_supported: false,
            unconstrained_power: true,
            usb_comms_capable: true,
            dual_role_data: false,
            unchunked_extended_messages_support: false,
            epr_capable: true,
        },
        peak_current: source::PeakCurrent::Pct125,
        voltage_mv: 20000,
        current_ma: 5000,
    };
    assert_eq!(u8::from(data.flags), 0b101_1001);
    let word = u32::from(data);
    assert_eq!(word, (0b101_1001 << 23) | (2 << 20) | (400 << 10) | 500);
    assert_eq!(source::Pdo::try_from(word), Ok(source::Pdo::Fixed(data)));
    let pdo = source::Pdo::Fixed(data);
    assert!(pdo.dual_role_power());
    assert!(pdo.unconstrained_power());
    assert_eq!(pdo.max_voltage_mv(), 20000);
    assert_eq!(pdo.min_voltage_mv(), 20000);
    assert_eq!(pdo.kind(), PdoKind::Fixed);
    assert_eq!(pdo.apdo_kind(), None);
}

#[test]
fn battery_and_variable_pdos_round_trip() {
    let battery = sink::BatteryData { max_voltage_mv: 20000, min_voltage_mv: 5000, operational_power_mw: 60000 };
    let word = u32::from(battery);
    assert_eq!(word, (1 << 30) | (400 << 20) | (100 << 10) | 240);
    assert_eq!(sink::Pdo::try_from(word), Ok(sink::Pdo::Battery(battery)));
    let variable = source::VariableData { max_voltage_mv: 12000, min_voltage_mv: 9000, max_current_ma: 1500 };
    let word = u32::from(variable);
    assert_eq!(word, (2 << 30) | (240 << 20) | (180 << 10) | 150);
    assert_eq!(source::Pdo::try_from(word), Ok(source::Pdo::Variable(variable)));
}

#[test]
fn augmented_pdos_round_trip() {
    let pps = source::SprPpsData { pps_power_limited: true, max_voltage_mv: 21000, min_voltage_mv: 3300, max_current_ma: 5000 };
    let word = u32::from(pps);
    assert_eq!(word, (3 << 30) | (1 << 27) | (210 << 17) | (33 << 8) | 100);
    assert_eq!(source::Pdo::try_from(word), Ok(source::Pdo::Augmented(source::Apdo::SprPps(pps))));
    let epr = sink::EprAvsData { max_voltage_mv: 48000, min_voltage_mv: 15000, pdp_mw: 240000 };
    let word = u32::from(epr);
    assert_eq!(word, (3 << 30) | (1 << 28) | (480 << 17) | (150 << 8) | 240);
    assert_eq!(sink::Pdo::try_from(word), Ok(sink::Pdo::Augmented(sink::Apdo::EprAvs(epr))));
    let spr = sink::SprAvsData { max_current_15v_ma: 3000, max_current_20v_ma: 0 };
    let word = u32::from(spr);
    assert_eq!(word, (3 << 30) | (2 << 28) | (300 << 10));
    let pdo = sink::Pdo::try_from(word).unwrap();
    assert_eq!(pdo, sink::Pdo::Augmented(sink::Apdo::SprAvs(spr)));
    assert_eq!(pdo.apdo_kind(), Some(ApdoKind::SprAvs));
    assert_eq!(pdo.max_voltage_mv(), 15000);
    assert_eq!(pdo.min_voltage_mv(), 9000);
    let wide = sink::Pdo::Augmented(sink::Apdo::SprAvs(sink::SprAvsData { max_current_15v_ma: 3000, max_current_20v_ma: 2000 }));
    assert_eq!(wide.max_voltage_mv(), 20000);
    assert_eq!(wide.min_voltage_mv(), 15000);
}

#[test]
fn augmented_pdo_without_kind_is_rejected() {
    let word = 0xF000_0000u32;
    let expected = ExpectedPdo { kind: PdoKind::Augmented, apdo_kind: None, raw: word };
    assert_eq!(sink::Pdo::try_from(word), Err(expected));
    assert_eq!(source::Pdo::try_from(word), Err(expected));
    assert_eq!(sink::Apdo::try_from(word), Err(expected));
    // A word that names a kind of augmented supply without being augmented
    assert_eq!(
        sink::Apdo::try_from(0x1000_0000u32),
        Err(ExpectedPdo { kind: PdoKind::Augmented, apdo_kind: Some(ApdoKind::EprAvs), raw: 0x1000_0000 })
    );
    assert_eq!(PdError::from(expected), PdError::InvalidParams);
}

#[test]
fn contract_operating_current() {
    let request = FixedVarData {
        object_position: 1,
        capability_mismatch: false,
        usb_comm_capable: false,
        no_usb_suspend: false,
        unchunked_extended_messages_support: false,
        epr_capable: false,
        operating_current_ma: 500,
        max_operating_current_ma: 1500,
    };
    let sink_pdo = sink::Pdo::Battery(sink::BatteryData { max_voltage_mv: 20000, min_voltage_mv: 5000, operational_power_mw: 0 });
    assert_eq!(Contract::from_sink(sink_pdo, Rdo::Fixed(request)).operating_current_ma(), Some(1500));
    let battery = BatteryRequest {
        object_position: 1,
        capability_mismatch: false,
        usb_comm_capable: false,
        no_usb_suspend: false,
        unchunked_extended_messages_support: false,
        epr_capable: false,
        operating_power_mw: 0,
        max_operating_power_mw: 60000,
    };
    assert_eq!(Contract::new(Pdo::Sink(sink_pdo), Rdo::Battery(battery)).operating_current_ma(), Some(3));
    let no_voltage = source::Pdo::Battery(source::BatteryData { max_voltage_mv: 0, min_voltage_mv: 0, max_power_mw: 0 });
    assert_eq!(Contract::from_source(no_voltage, Rdo::Battery(battery)).operating_current_ma(), None);
}

#[test]
fn defaults_are_zero() {
    assert_eq!(u32::from(sink::Pdo::default()), 0);
    assert_eq!(u32::from(source::Pdo::default()), 0);
    assert_eq!(u32::from(sink::Apdo::default()), 0xC000_0000);
    assert_eq!(sink::FrsRequiredCurrent::default(), sink::FrsRequiredCurrent::NotSupported);
    assert_eq!(source::PeakCurrent::from(6u8), source::PeakCurrent::Pct125);
}
