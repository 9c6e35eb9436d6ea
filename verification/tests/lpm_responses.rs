use embedded_usb_pd::ucsi::lpm::get_alternate_modes;
use embedded_usb_pd::ucsi::lpm::get_cable_property;
use embedded_usb_pd::ucsi::lpm::get_cable_property::PlugEndType;
use embedded_usb_pd::ucsi::lpm::get_cable_property::SpeedSupported;
use embedded_usb_pd::ucsi::lpm::get_cam_supported;
use embedded_usb_pd::ucsi::lpm::get_connector_capability;
use embedded_usb_pd::ucsi::lpm::get_connector_status;
use embedded_usb_pd::ucsi::lpm::get_current_cam;
use embedded_usb_pd::ucsi::lpm::get_error_status;
use embedded_usb_pd::ucsi::lpm::get_pdos;
use embedded_usb_pd::ucsi::lpm::ResponseData;
use embedded_usb_pd::ucsi::CommandType;
use embedded_usb_pd::vdm::AltModeId;
use embedded_usb_pd::vdm::Svid;
use embedded_usb_pd::wire::Allowed;
use embedded_usb_pd::wire::DecodeError;
use embedded_usb_pd::PlugOrientation;
use embedded_usb_pd::PowerRole;

#[test]
fn get_alternate_modes_test_decode_response_data() {
    // No particular meaning to these values
    let encoded: [u8; get_alternate_modes::RESPONSE_DATA_LEN] =
        [0x34, 0x12, 0x78, 0x56, 0x34, 0x12, 0x12, 0x34, 0x12, 0x34, 0x56, 0x78];
    let (decoded, size): (get_alternate_modes::ResponseData, usize) =
        get_alternate_modes::ResponseData::decode(&encoded).unwrap();
    assert_eq!(size, get_alternate_modes::RESPONSE_DATA_LEN);

    let mut expected = get_alternate_modes::ResponseData::default();
    expected.alt_modes[0].svid = Svid(0x1234);
    expected.alt_modes[0].mid = AltModeId(0x12345678);
    expected.alt_modes[1].svid = Svid(0x3412);
    expected.alt_modes[1].mid = AltModeId(0x78563412);
    assert_eq!(decoded, expected);
}

#[test]
fn get_cable_property_test_encode_response_data() {
    let bytes: [u8; get_cable_property::RESPONSE_DATA_LEN] = [0x05, 0x00, 0x02, 0xF7, 0x0A];
    let expected = get_cable_property::ResponseData {
        speed_supported: get_cable_property::SpeedSupported::Kbps(1),
        current_capability: 100,
        vbus_in_cable: true,
        active_cable: true,
        directionality_configurable: true,
        plug_end_type: get_cable_property::PlugEndType::TypeC,
        alt_mode_supported: true,
        cable_pd_major: 3,
        latency: 10,
    };
    let (data, len): (get_cable_property::ResponseData, _) =
        get_cable_property::ResponseData::decode(&bytes).expect("Decoding failed");
    assert_eq!(data, expected);
    assert_eq!(len, get_cable_property::RESPONSE_DATA_LEN);
}

#[test]
fn get_cam_supported_test_encode_response_data() {
    let bytes = [0x12; get_cam_supported::RESPONSE_DATA_LEN];
    let expected = get_cam_supported::ResponseData { alt_modes: 0x12 };
    let (data, len): (get_cam_supported::ResponseData, _) =
        get_cam_supported::ResponseData::decode(&bytes).expect("Decoding failed");
    assert_eq!(data, expected);
    assert_eq!(len, get_cam_supported::RESPONSE_DATA_LEN);
}

#[test]
fn get_connector_capability_test_decode_response_data() {
    // Byte 0
    // Operation mode - Rp only + USB2 + Alt mode
    // Byte 1
    // Bits 8-13 all set
    let bytes: [u8; get_connector_capability::RESPONSE_DATA_LEN] = [0xA1, 0x3F];
    let expected = *get_connector_capability::ResponseData::default()
        .set_operation_mode(
            *get_connector_capability::OperationModeFlags::default()
                .set_rp_only(true)
                .set_usb2(true)
                .set_alternate_mode(true),
        )
        .set_consumer(true)
        .set_provider(true)
        .set_swap_to_dfp(true)
        .set_swap_to_ufp(true)
        .set_swap_to_src(true)
        .set_swap_to_snk(true);

    let (response_data, consumed): (get_connector_capability::ResponseData, usize) =
        get_connector_capability::ResponseData::decode(&bytes).unwrap();
    assert_eq!(consumed, bytes.len());
    assert_eq!(response_data, expected);

    let mut encoded_bytes = Vec::new();
    expected.encode(&mut encoded_bytes);

    assert_eq!(encoded_bytes.len(), get_connector_capability::RESPONSE_DATA_LEN);
    assert_eq!(encoded_bytes, bytes);
}

fn connector_status() -> (
    get_connector_status::ResponseData,
    [u8; get_connector_status::RESPONSE_DATA_LEN],
) {
    let response_data = get_connector_status::ResponseData {
        status_change: get_connector_status::ConnectorStatusChange::from(0x8001),
        connect_status: true,
        status: Some(get_connector_status::ConnectedStatus {
            power_op_mode: get_connector_status::PowerOperationMode::Pd,
            power_direction: PowerRole::Sink,
            partner_flags: get_connector_status::ConnectorPartnerFlags::from(0x8),
            partner_type: get_connector_status::ConnectorPartnerType::DfpAttached,
            rdo: Some(0x78563412),
            battery_charging_status: Some(
                get_connector_status::BatteryChargingCapabilityStatus::Nominal,
            ),
            provider_caps_limited: Some(get_connector_status::ProviderCapsLimitedReason::from(0x01)),
            bcd_pd_version: Some(0x300),
            orientation: PlugOrientation::CC2,
            sink_path_status: true,
        }),
        reverse_current_protection_status: true,
        power_reading: Some(get_connector_status::PowerReading {
            scale_ma: 5,
            peak_current_ma: 40,
            avg_current_ma: 5,
            scale_mv: 5,
            voltage_reading_mv: 10,
        }),
    };

    let mut bytes = [0u8; get_connector_status::RESPONSE_DATA_LEN];
    // Status changed flags - 2 bytes
    // Set lowest and highest non-reserved bits
    bytes[0] = 0x1;
    bytes[1] = 0x80;

    // Various status flags - 1 byte
    // power operation mode = PD
    // Connect status = 1
    // Power direction = 0 (consumer)
    bytes[2] = 0x0b;

    // Connector partner flags - 1 byte
    // USB gen 4 + DFP
    bytes[3] = 0x21;

    // RDO - 4 bytes
    bytes[4] = 0x12;
    bytes[5] = 0x34;
    bytes[6] = 0x56;
    bytes[7] = 0x78;

    // More status flags + lower 2 bits of bcdPDVersion - 1 byte
    // Battery charging status - nominal, provider power level lowered, version 3.0
    bytes[8] = 0x05;

    // Bits 2 through 10 of bcdPDVersion - 1 byte
    // PD version 3.00
    bytes[9] = 0xC0;

    // More status flags - 1 byte
    // Orientation - flipped + sink path status
    bytes[10] = 0xC0;

    // Power reading flags - 1 byte
    // Reverse current protection status + power reading ready + current scale = 5 mA + lower 3 bits of peak current
    bytes[11] = 0x07;

    // Bits 3 through 11 of peak current - 1 byte
    // Peak current = 8 * 5 mA
    bytes[12] = 0x01;

    // Upper 5 bits of peak current, lower 3 bits of average current - 1 byte
    // Average current = 1 * 5 mA
    bytes[13] = 0x20;

    // Upper 5 bits of average current, lower 3 bits of voltage scale
    // Voltage scale = 5 mV
    bytes[15] = 0x20;

    // Upper bit of voltage scale, lower seven bits of voltage reading
    // 2 * 5 mV
    bytes[16] = 0x04;

    (response_data, bytes)
}

#[test]
fn get_connector_status_test_decode_response_data() {
    let (expected, bytes) = connector_status();

    let (response_data, consumed): (get_connector_status::ResponseData, usize) =
        get_connector_status::ResponseData::decode(&bytes).unwrap();

    assert_eq!(consumed, bytes.len());
    assert_eq!(response_data, expected);

    let mut encoded_bytes = Vec::new();
    expected.encode(&mut encoded_bytes);

    assert_eq!(encoded_bytes.len(), get_connector_status::RESPONSE_DATA_LEN);
    assert_eq!(encoded_bytes, bytes);
}

#[test]
fn connector_status_of_the_documented_bytes() {
    let bytes = [
        0x01, 0x80, 0x0B, 0x21, 0x12, 0x34, 0x56, 0x78, 0x05, 0xC0, 0xC0, 0x07, 0x01, 0x20, 0x00,
        0x20, 0x04, 0x00, 0x00,
    ];
    let (response, consumed) = get_connector_status::ResponseData::decode(&bytes).unwrap();
    assert_eq!(consumed, 19);
    assert_eq!(
        response.status_change,
        get_connector_status::ConnectorStatusChange::from(0x8001)
    );
    assert!(response.status_change.error());
    assert!(!response.status_change.connect_change());
    assert!(!response.status_change.attention());
    assert!(response.connect_status);
    let status = response.status.unwrap();
    assert_eq!(status.power_op_mode, get_connector_status::PowerOperationMode::Pd);
    assert_eq!(status.power_direction, PowerRole::Sink);
    assert_eq!(status.partner_type, get_connector_status::ConnectorPartnerType::DfpAttached);
    assert_eq!(status.rdo, Some(0x78563412));
    assert_eq!(status.orientation, PlugOrientation::CC2);
    assert!(status.orientation.flipped());
    assert!(status.sink_path_status);
    assert!(status.partner_flags.usb4_gen4());
    let reading = response.power_reading.unwrap();
    assert_eq!(reading.scale_ma, 5);
    assert_eq!(reading.scale_mv, 5);
    assert_eq!(reading.peak_current_ma, 40);
    assert_eq!(reading.avg_current_ma, 5);
    assert_eq!(reading.voltage_reading_mv, 10);
    assert_eq!(<[u8; 19]>::from(response), bytes);
}

#[test]
fn get_current_cam_test_encode_response_data() {
    let bytes = [
        0x00, 0x01, 0x02, 0x03, 0x04, 0x05, 0x06, 0x07, 0x08, 0x09, 0x0A, 0x0B, 0x0C, 0x0D, 0x0E, 0x0F,
    ];
    let expected = get_current_cam::ResponseData { alt_modes: bytes };
    let (data, len): (get_current_cam::ResponseData, _) =
        get_current_cam::ResponseData::decode(&bytes).expect("Decoding failed");
    assert_eq!(data, expected);
    assert_eq!(len, get_current_cam::RESPONSE_DATA_LEN);
}

#[test]
fn get_error_status_test_encode_response_data() {
    let mut bytes = [0u8; get_error_status::RESPONSE_DATA_LEN];
    let expected = get_error_status::ResponseData {
        information: *get_error_status::Information::default()
            .set_cc_comm(true)
            .set_dead_battery(true)
            .set_contract_failure(true)
            .set_overcurrent(true),
        vendor: [
            0x01, 0x00, 0x00, 0x00, 0x00, 0x00, 0x00, 0x00, 0x00, 0x00, 0x00, 0x00, 0x00, 0x00,
        ],
    };

    bytes[0] = 0xf0;
    bytes[2] = 0x01;

    let (response_data, consumed): (get_error_status::ResponseData, usize) =
        get_error_status::ResponseData::decode(&bytes).unwrap();
    assert_eq!(consumed, bytes.len());
    assert_eq!(response_data, expected);

    let mut encoded_bytes = Vec::new();
    expected.encode(&mut encoded_bytes);

    assert_eq!(encoded_bytes.len(), get_error_status::RESPONSE_DATA_LEN);
    assert_eq!(encoded_bytes, bytes);
}

#[test]
fn get_pdos_test_encode_response_data() {
    let bytes: [u8; get_pdos::RESPONSE_DATA_LEN] = [
        0x12, 0x00, 0x00, 0x00, 0x34, 0x00, 0x00, 0x00, 0x56, 0x00, 0x00, 0x00, 0x78, 0x00, 0x00, 0x00,
    ];
    let expected = get_pdos::ResponseData {
        raw: [0x12, 0x34, 0x56, 0x78],
    };
    let (data, len): (get_pdos::ResponseData, _) =
        get_pdos::ResponseData::decode(&bytes).expect("Decoding failed");
    assert_eq!(data, expected);
    assert_eq!(len, get_pdos::RESPONSE_DATA_LEN);
}

#[test]
fn test_response_iterator() {
    let response = get_pdos::ResponseData {
        raw: [0x12, 0x34, 0x56, 0x00],
    };
    let pdos = response.iter();
    let mut iter = pdos.iter().copied();
    assert_eq!(iter.len(), 3);
    assert_eq!(iter.next(), Some(0x12));
    assert_eq!(iter.len(), 2);
    assert_eq!(iter.next(), Some(0x34));
    assert_eq!(iter.len(), 1);
    assert_eq!(iter.next(), Some(0x56));
    assert_eq!(iter.len(), 0);
    assert_eq!(iter.next(), None);
    assert_eq!(iter.len(), 0);
}

#[test]
fn test_response_iterator_empty() {
    let response = get_pdos::ResponseData { raw: [0x00; get_pdos::MAX_PDOS] };
    let pdos = response.iter();
    let mut iter = pdos.iter().copied();
    assert_eq!(iter.len(), 0);
    assert_eq!(iter.next(), None);
    assert_eq!(iter.len(), 0);
}

#[test]
fn test_response_iterator_full() {
    let response = get_pdos::ResponseData {
        raw: [0x12, 0x34, 0x56, 0x78],
    };
    let pdos = response.iter();
    let mut iter = pdos.iter().copied();
    assert_eq!(iter.len(), 4);
    assert_eq!(iter.next(), Some(0x12));
    assert_eq!(iter.len(), 3);
    assert_eq!(iter.next(), Some(0x34));
    assert_eq!(iter.len(), 2);
    assert_eq!(iter.next(), Some(0x56));
    assert_eq!(iter.len(), 1);
    assert_eq!(iter.next(), Some(0x78));
    assert_eq!(iter.len(), 0);
    assert_eq!(iter.next(), None);
    assert_eq!(iter.len(), 0);
}

#[test]
fn pdos_after_the_first_zero_are_not_encoded() {
    let response = get_pdos::ResponseData { raw: [0x12, 0, 0x56, 0x78] };
    assert_eq!(response.iter(), vec![0x12]);
    let mut out = Vec::new();
    response.encode(&mut out);
    assert_eq!(out, vec![0x12, 0, 0, 0]);
    // The decoder reads four PDOs: the short encoding does not decode
    assert_eq!(
        get_pdos::ResponseData::decode(&out),
        Err(DecodeError::UnexpectedEnd { additional: 4 })
    );
    // Padded with zeros, a response that ends in zeros decodes
    let response = get_pdos::ResponseData { raw: [0x12, 0x34, 0, 0] };
    let mut out = Vec::new();
    response.encode(&mut out);
    out.resize(get_pdos::RESPONSE_DATA_LEN, 0);
    assert_eq!(get_pdos::ResponseData::decode(&out), Ok((response, 16)));
}

fn fitting_responses() -> Vec<ResponseData> {
    let (status, _) = connector_status();
    let widest_status = get_connector_status::ResponseData {
        status_change: get_connector_status::ConnectorStatusChange::from(0xffff),
        connect_status: true,
        status: Some(get_connector_status::ConnectedStatus {
            power_op_mode: get_connector_status::PowerOperationMode::Pd,
            power_direction: PowerRole::Sink,
            partner_flags: get_connector_status::ConnectorPartnerFlags::from(0xff),
            partner_type: get_connector_status::ConnectorPartnerType::AudioAdapterAccessory,
            rdo: Some(0xffff_ffff),
            battery_charging_status: Some(get_connector_status::BatteryChargingCapabilityStatus::VerySlow),
            provider_caps_limited: Some(get_connector_status::ProviderCapsLimitedReason::from(0x0f)),
            bcd_pd_version: Some(0xffff),
            orientation: PlugOrientation::CC2,
            sink_path_status: true,
        }),
        reverse_current_protection_status: true,
        power_reading: Some(get_connector_status::PowerReading {
            scale_ma: 35,
            peak_current_ma: 65520,
            avg_current_ma: 35,
            scale_mv: 75,
            voltage_reading_mv: 65475,
        }),
    };
    let source_status = get_connector_status::ResponseData {
        status_change: get_connector_status::ConnectorStatusChange::default(),
        connect_status: true,
        status: Some(get_connector_status::ConnectedStatus {
            power_op_mode: get_connector_status::PowerOperationMode::TypeC3A,
            power_direction: PowerRole::Source,
            partner_flags: get_connector_status::ConnectorPartnerFlags::default(),
            partner_type: get_connector_status::ConnectorPartnerType::UfpAttached,
            rdo: None,
            battery_charging_status: None,
            provider_caps_limited: None,
            bcd_pd_version: None,
            orientation: PlugOrientation::CC1,
            sink_path_status: false,
        }),
        reverse_current_protection_status: false,
        power_reading: None,
    };
    vec![
        ResponseData::ConnectorReset,
        ResponseData::GetConnectorStatus(get_connector_status::ResponseData::default()),
        ResponseData::GetConnectorStatus(status),
        ResponseData::GetConnectorStatus(widest_status),
        ResponseData::GetConnectorStatus(source_status),
        ResponseData::GetConnectorCapability(get_connector_capability::ResponseData::default()),
        ResponseData::GetConnectorCapability(get_connector_capability::ResponseData::from(0xffff)),
        ResponseData::GetErrorStatus(get_error_status::ResponseData {
            information: get_error_status::Information::default(),
            vendor: [0; 14],
        }),
        ResponseData::GetErrorStatus(get_error_status::ResponseData {
            information: get_error_status::Information::from(0xffff),
            vendor: [0xff; 14],
        }),
        ResponseData::GetAlternateModes(get_alternate_modes::ResponseData::default()),
        ResponseData::GetAlternateModes(get_alternate_modes::ResponseData {
            alt_modes: [get_alternate_modes::AltMode { svid: Svid(0xffff), mid: AltModeId(0xffff_ffff) }; 2],
        }),
        ResponseData::GetCamSupported(get_cam_supported::ResponseData::default()),
        ResponseData::GetCamSupported(get_cam_supported::ResponseData { alt_modes: 0xff }),
        ResponseData::GetCurrentCam(get_current_cam::ResponseData::default()),
        ResponseData::GetCurrentCam(get_current_cam::ResponseData { alt_modes: [0xff; 16] }),
        ResponseData::GetPdos(get_pdos::ResponseData { raw: [1, 1, 1, 1] }),
        ResponseData::GetPdos(get_pdos::ResponseData { raw: [0xffff_ffff; 4] }),
        ResponseData::GetCableProperty(get_cable_property::ResponseData::default()),
        ResponseData::GetCableProperty(get_cable_property::ResponseData {
            speed_supported: get_cable_property::SpeedSupported::Gbps(0x3fff),
            current_capability: 12750,
            vbus_in_cable: true,
            active_cable: true,
            directionality_configurable: true,
            plug_end_type: get_cable_property::PlugEndType::Other,
            alt_mode_supported: true,
            cable_pd_major: 3,
            latency: 15,
        }),
    ]
}

#[test]
fn every_lpm_response_round_trips() {
    for response in fitting_responses() {
        let mut out = Vec::new();
        response.encode(&mut out);
        let kind = response.command_type();
        assert_eq!(ResponseData::decode_with(kind, &out), Ok((response, out.len())), "{:?}", response);
        out.push(0x55);
        assert_eq!(ResponseData::decode_with(kind, &out), Ok((response, out.len() - 1)));
    }
}

#[test]
fn response_lengths() {
    let lengths = [
        (CommandType::GetConnectorStatus, 19usize),
        (CommandType::GetConnectorCapability, 2),
        (CommandType::GetErrorStatus, 16),
        (CommandType::GetAlternateModes, 12),
        (CommandType::GetCamSupported, 1),
        (CommandType::GetCurrentCam, 16),
        (CommandType::GetPdos, 16),
        (CommandType::GetCableProperty, 5),
    ];
    for (kind, length) in lengths {
        let bytes = vec![0u8; length];
        let decoded = ResponseData::decode_with(kind, &bytes);
        assert!(matches!(decoded, Ok((_, taken)) if taken == length), "{:?}", kind);
        assert!(matches!(
            ResponseData::decode_with(kind, &bytes[..length - 1]),
            Err(DecodeError::UnexpectedEnd { .. })
        ));
    }
    assert_eq!(
        get_connector_status::ResponseData::decode(&[0u8; 10]),
        Err(DecodeError::UnexpectedEnd { additional: 9 })
    );
    assert_eq!(
        get_error_status::ResponseData::decode(&[0u8; 3]),
        Err(DecodeError::UnexpectedEnd { additional: 13 })
    );
}

#[test]
fn invalid_status_fields_are_rejected() {
    let (_, good) = connector_status();
    // Power operation mode 0 and 7 while connected
    for mode in [0u8, 7] {
        let mut bytes = good;
        bytes[2] = (bytes[2] & 0xf8) | mode;
        assert_eq!(
            get_connector_status::ResponseData::decode(&bytes),
            Err(DecodeError::UnexpectedVariant { allowed: Allowed::PowerOperationMode, found: mode as u32 })
        );
        assert!(!Allowed::PowerOperationMode.allows(mode as u32));
    }
    // Partner type 0 and 7 while connected
    for partner in [0u8, 7] {
        let mut bytes = good;
        bytes[3] = (bytes[3] & 0x1f) | (partner << 5);
        assert_eq!(
            get_connector_status::ResponseData::decode(&bytes),
            Err(DecodeError::UnexpectedVariant { allowed: Allowed::ConnectorPartnerType, found: partner as u32 })
        );
    }
    // Not connected: the same fields are not looked at
    let mut bytes = good;
    bytes[2] = 0;
    bytes[3] = 0;
    let (response, _) = get_connector_status::ResponseData::decode(&bytes).unwrap();
    assert!(!response.connect_status);
    assert!(response.status.is_none());
    assert!(response.power_reading.is_some());
    assert_eq!(
        get_connector_status::PowerOperationMode::try_from(7),
        Err(get_connector_status::InvalidPowerOperationMode(7))
    );
    assert_eq!(
        get_connector_status::ConnectorPartnerType::try_from(0),
        Err(get_connector_status::InvalidConnectorPartnerType(0))
    );
    assert_eq!(
        get_connector_status::BatteryChargingCapabilityStatus::try_from(4),
        Err(get_connector_status::InvalidBatteryChargingCapabilityStatus(4))
    );
    assert_eq!(
        DecodeError::from(get_connector_status::InvalidBatteryChargingCapabilityStatus(4)),
        DecodeError::UnexpectedVariant { allowed: Allowed::BatteryChargingCapabilityStatus, found: 4 }
    );
}

#[test]
fn status_fields_that_do_not_apply_are_absent() {
    let (_, good) = connector_status();
    // Type-C 1.5 A mode: no RDO and no PD version, whatever the bytes hold
    let mut bytes = good;
    bytes[2] = (bytes[2] & 0xf8) | 4;
    let (response, _) = get_connector_status::ResponseData::decode(&bytes).unwrap();
    let status = response.status.unwrap();
    assert_eq!(status.power_op_mode, get_connector_status::PowerOperationMode::TypeC1_5A);
    assert_eq!(status.rdo, None);
    assert_eq!(status.bcd_pd_version, None);
    // Source: no battery charging status
    let mut bytes = good;
    bytes[2] |= 0x10;
    let status = get_connector_status::ResponseData::decode(&bytes).unwrap().0.status.unwrap();
    assert_eq!(status.power_direction, PowerRole::Source);
    assert_eq!(status.battery_charging_status, None);
    // No reason for limited capabilities
    let mut bytes = good;
    bytes[8] &= 0xc3;
    let status = get_connector_status::ResponseData::decode(&bytes).unwrap().0.status.unwrap();
    assert_eq!(status.provider_caps_limited, None);
    // A reading of zero scale is written as zero counts
    let response = get_connector_status::ResponseData {
        power_reading: Some(get_connector_status::PowerReading {
            scale_ma: 0,
            peak_current_ma: 100,
            avg_current_ma: 100,
            scale_mv: 0,
            voltage_reading_mv: 100,
        }),
        ..Default::default()
    };
    let bytes = <[u8; 19]>::from(response);
    assert_eq!(bytes[11], 0x02);
    assert_eq!(bytes[12..], [0u8; 7]);
}

#[test]
fn power_readings_beyond_sixteen_bits_wrap() {
    let mut bytes = [0u8; 19];
    bytes[11] = 0x02 | (7 << 2) | 0xe0;
    bytes[12] = 0xff;
    bytes[13] = 0x1f;
    let reading = get_connector_status::ResponseData::decode(&bytes).unwrap().0.power_reading.unwrap();
    assert_eq!(reading.scale_ma, 35);
    assert_eq!(reading.peak_current_ma, ((65535u32 * 35) % 0x1_0000) as u16);
    assert_eq!(reading.avg_current_ma, 0);
}

#[test]
fn cable_property_fields() {
    assert_eq!(SpeedSupported::from(0x0005u16), SpeedSupported::Kbps(1));
    assert_eq!(SpeedSupported::from(0xffffu16), SpeedSupported::Gbps(0x3fff));
    assert_eq!(u16::from(SpeedSupported::Mbps(480)), (480 << 2) | 2);
    assert_eq!(u16::from(SpeedSupported::Bps(0xffff)), 0xfffc);
    assert_eq!(SpeedSupported::default(), SpeedSupported::Bps(0));
    assert_eq!(PlugEndType::from(6u8), PlugEndType::TypeC);
    assert_eq!(u8::from(PlugEndType::Other), 3);
    let response = get_cable_property::ResponseData {
        current_capability: 149,
        cable_pd_major: 7,
        latency: 0x1f,
        ..Default::default()
    };
    let bytes = <[u8; 5]>::from(response);
    assert_eq!(bytes, [0, 0, 2, 0xC0, 0x0f]);
    let decoded = get_cable_property::ResponseData::from(bytes);
    assert_eq!(decoded.current_capability, 100);
    assert_eq!(decoded.cable_pd_major, 3);
    assert_eq!(decoded.latency, 15);
}

#[test]
fn supported_alternate_modes_by_index() {
    let mut response = get_cam_supported::ResponseData::default();
    response.set_alt_mode_supported(0, true);
    response.set_alt_mode_supported(7, true);
    response.set_alt_mode_supported(8, true);
    assert_eq!(response.alt_modes, 0x81);
    assert!(response.alt_mode_supported(0));
    assert!(!response.alt_mode_supported(1));
    assert!(response.alt_mode_supported(7));
    assert!(!response.alt_mode_supported(8));
    response.set_alt_mode_supported(0, false);
    assert_eq!(response.alt_modes, 0x80);
}

#[test]
fn status_change_and_partner_flags() {
    let mut change = get_connector_status::ConnectorStatusChange::default();
    change.set_external_supply_change(true);
    change.set_error(true);
    assert_eq!(change, get_connector_status::ConnectorStatusChange::from(0x8002));
    change.set_external_supply_change(false);
    change.set_connect_change(true);
    assert!(change.connect_change());
    assert!(!change.external_supply_change());
    let mut flags = get_connector_status::ConnectorPartnerFlags::default();
    flags.set_usb(true);
    flags.set_usb4_gen4(true);
    assert_eq!(u8::from(flags), 0x09);
    assert!(flags.usb() && !flags.alt_mode() && !flags.usb4_gen3() && flags.usb4_gen4());
    let mut reason = get_connector_status::ProviderCapsLimitedReason::default();
    reason.set_reaching_power_budget_limit(true);
    assert!(reason.reaching_power_budget_limit());
    assert!(!reason.power_budget_lowered());
}

#[test]
fn valid_pdos_can_be_changed_in_place() {
    let mut response = get_pdos::ResponseData { raw: [0x12, 0x34, 0, 0x78] };
    {
        let pdos = response.iter_mut();
        assert_eq!(pdos.len(), 2);
        for pdo in pdos.iter_mut() {
            *pdo += 1;
        }
    }
    assert_eq!(response.raw, [0x13, 0x35, 0, 0x78]);
    let mut full = get_pdos::ResponseData { raw: [1, 2, 3, 4] };
    assert_eq!(full.iter_mut().len(), 4);
    let mut empty = get_pdos::ResponseData::default();
    assert_eq!(empty.iter_mut().len(), 0);
}
