use embedded_usb_pd::ucsi::cci::Cci;
use embedded_usb_pd::ucsi::lpm;
use embedded_usb_pd::ucsi::lpm::get_connector_status::BatteryChargingCapabilityStatus;
use embedded_usb_pd::ucsi::lpm::get_connector_status::ConnectedStatus;
use embedded_usb_pd::ucsi::lpm::get_connector_status::ConnectorPartnerFlags;
use embedded_usb_pd::ucsi::lpm::get_connector_status::ConnectorPartnerType;
use embedded_usb_pd::ucsi::lpm::get_connector_status::ConnectorStatusChange;
use embedded_usb_pd::ucsi::lpm::get_connector_status::PowerOperationMode;
use embedded_usb_pd::ucsi::lpm::get_connector_status::PowerReading;
use embedded_usb_pd::ucsi::lpm::get_connector_status::ProviderCapsLimitedReason;
use embedded_usb_pd::ucsi::ppm;
use embedded_usb_pd::ucsi::Command;
use embedded_usb_pd::ucsi::CommandType;
use embedded_usb_pd::ucsi::GlobalCommand;
use embedded_usb_pd::ucsi::GlobalResponse;
use embedded_usb_pd::ucsi::ResponseData;
use embedded_usb_pd::ucsi::COMMAND_LEN;
use embedded_usb_pd::wire::Allowed;
use embedded_usb_pd::wire::DecodeError;
use embedded_usb_pd::wire::EncodeError;
use embedded_usb_pd::GlobalPortId;
use embedded_usb_pd::LocalPortId;
use embedded_usb_pd::PlugOrientation;
use embedded_usb_pd::PowerRole;

fn capability_response() -> (ppm::get_capability::ResponseData, [u8; ppm::get_capability::RESPONSE_DATA_LEN]) {
    let response_data = ppm::get_capability::ResponseData {
        attributes: ppm::get_capability::Attributes::from(0x43),
        num_connectors: 2,
        optional_features: ppm::get_capability::OptionalFeatures::from(0xFF),
        num_alt_modes: 3,
        bcd_battery_charging_spec: 0x0120,
        bcd_usb_pd_spec: 0x0300,
        bcd_type_c_spec: 0x0200,
    };

    let mut bytes = [0u8; ppm::get_capability::RESPONSE_DATA_LEN];
    // Attributes - 4 bytes
    // Disable state support + Battery charging + USB PD + USB Type-C
    bytes[0] = 0x43;
    // Num connectors - 1 byte
    bytes[4] = 2;
    // Optional features - 3 bytes
    bytes[5] = 0xFF; // Support everything
    // Number of support alt modes
    bytes[8] = 3; // Let's just say 3
    // bcdBCVersion - 2 bytes, 1.20
    bytes[10] = 0x20;
    bytes[11] = 0x01;
    // bcdPDVersion - 2 bytes, 3.00
    bytes[12] = 0x00;
    bytes[13] = 0x03;
    // bcdUSBTypeCVersion - 2 bytes, 2.00
    bytes[14] = 0x00;
    bytes[15] = 0x02;

    (response_data, bytes)
}

fn connector_status_response() -> (
    lpm::get_connector_status::ResponseData,
    [u8; lpm::get_connector_status::RESPONSE_DATA_LEN],
) {
    let response_data = lpm::get_connector_status::ResponseData {
        status_change: ConnectorStatusChange::from(0x8001),
        connect_status: true,
        status: Some(ConnectedStatus {
            power_op_mode: PowerOperationMode::Pd,
            power_direction: PowerRole::Sink,
            partner_flags: ConnectorPartnerFlags::from(0x8),
            partner_type: ConnectorPartnerType::DfpAttached,
            rdo: Some(0x78563412),
            battery_charging_status: Some(BatteryChargingCapabilityStatus::Nominal),
            provider_caps_limited: Some(ProviderCapsLimitedReason::from(0x01)),
            bcd_pd_version: Some(0x300),
            orientation: PlugOrientation::CC2,
            sink_path_status: true,
        }),
        reverse_current_protection_status: true,
        power_reading: Some(PowerReading {
            scale_ma: 5,
            peak_current_ma: 40,
            avg_current_ma: 5,
            scale_mv: 5,
            voltage_reading_mv: 10,
        }),
    };

    let mut bytes = [0u8; lpm::get_connector_status::RESPONSE_DATA_LEN];
    bytes[0] = 0x1;
    bytes[1] = 0x80;
    bytes[2] = 0x0b;
    bytes[3] = 0x21;
    bytes[4] = 0x12;
    bytes[5] = 0x34;
    bytes[6] = 0x56;
    bytes[7] = 0x78;
    bytes[8] = 0x05;
    bytes[9] = 0xC0;
    bytes[10] = 0xC0;
    bytes[11] = 0x07;
    bytes[12] = 0x01;
    bytes[13] = 0x20;
    bytes[15] = 0x20;
    bytes[16] = 0x04;

    (response_data, bytes)
}

/// Test PPM command decoding
///
/// Only test one command just to make sure the overall flow works
#[test]
fn test_command_decoding_ppm() {
    let mut bytes = [0u8; COMMAND_LEN];
    bytes[0] = u8::from(CommandType::AckCcCi);
    bytes[2] = 0x2; // Set connector change ack

    let (ack_cc_ci, consumed) = Command::decode_from_slice(&bytes).unwrap();
    assert_eq!(consumed, bytes.len());
    assert_eq!(
        ack_cc_ci,
        GlobalCommand::PpmCommand(ppm::Command::AckCcCi(ppm::ack_cc_ci::Args {
            ack: ppm::ack_cc_ci::Ack::from(0x2)
        }))
    );
}

/// Test LPM command decoding
///
/// Only test one command just to make sure the overall flow works
#[test]
fn test_command_decoding_lpm() {
    let mut bytes = [0u8; COMMAND_LEN];
    bytes[0] = u8::from(CommandType::GetConnectorStatus);
    bytes[2] = 0x1;

    let (get_connector_status, consumed) = Command::decode_from_slice(&bytes).unwrap();
    assert_eq!(consumed, bytes.len());
    assert_eq!(
        get_connector_status,
        Command::LpmCommand(lpm::Command::new(GlobalPortId(1), lpm::CommandData::GetConnectorStatus))
    );
}

/// Test PPM response encoding
///
/// Only test one response type just to make sure the overall flow works
#[test]
fn test_ppm_response_encoding() {
    let (response_data, bytes) = capability_response();
    let expected = ResponseData::Ppm(ppm::ResponseData::GetCapability(response_data));

    let mut encoded_bytes = [0u8; ppm::get_capability::RESPONSE_DATA_LEN];
    let len = expected.encode_into_slice(&mut encoded_bytes).unwrap();

    assert_eq!(len, ppm::get_capability::RESPONSE_DATA_LEN);
    assert_eq!(encoded_bytes, bytes);
}

/// Test LPM response encoding
///
/// Only test one response type just to make sure the overall flow works
#[test]
fn test_lpm_response_encoding() {
    let (response_data, bytes) = connector_status_response();
    let expected = ResponseData::Lpm(lpm::ResponseData::GetConnectorStatus(response_data));

    let mut encoded_bytes = [0u8; lpm::get_connector_status::RESPONSE_DATA_LEN];
    let len = expected.encode_into_slice(&mut encoded_bytes).unwrap();

    assert_eq!(len, lpm::get_connector_status::RESPONSE_DATA_LEN);
    assert_eq!(encoded_bytes, bytes);
}

#[test]
fn get_capability_test_encode_response_data() {
    let (expected, bytes) = capability_response();

    let (response_data, consumed): (ppm::get_capability::ResponseData, usize) =
        ppm::get_capability::ResponseData::decode(&bytes).unwrap();
    assert_eq!(consumed, bytes.len());
    assert_eq!(response_data, expected);

    let mut encoded_bytes = Vec::new();
    expected.encode(&mut encoded_bytes);

    assert_eq!(encoded_bytes.len(), ppm::get_capability::RESPONSE_DATA_LEN);
    assert_eq!(encoded_bytes, bytes);
}

#[test]
fn encoding_into_a_short_slice_fails_and_writes_nothing() {
    let (response_data, bytes) = capability_response();
    let response = ResponseData::Ppm(ppm::ResponseData::GetCapability(response_data));
    let mut short = [0xEEu8; 15];
    assert_eq!(response.encode_into_slice(&mut short), Err(EncodeError::UnexpectedEnd));
    assert_eq!(short, [0xEEu8; 15]);
    let mut long = [0xEEu8; 18];
    assert_eq!(response.encode_into_slice(&mut long), Ok(16));
    assert_eq!(long[..16], bytes);
    assert_eq!(long[16..], [0xEE, 0xEE]);
    let nothing = ResponseData::Lpm(lpm::ResponseData::ConnectorReset);
    let mut empty: [u8; 0] = [];
    assert_eq!(nothing.encode_into_slice(&mut empty), Ok(0));
}

#[test]
fn commands_round_trip_through_the_mailbox() {
    let commands: Vec<Command<LocalPortId>> = vec![
        Command::PpmCommand(ppm::Command::PpmReset),
        Command::PpmCommand(ppm::Command::Cancel),
        Command::PpmCommand(ppm::Command::GetCapability),
        Command::PpmCommand(ppm::Command::AckCcCi(ppm::ack_cc_ci::Args {
            ack: ppm::ack_cc_ci::Ack::from(0x3),
        })),
        Command::PpmCommand(ppm::Command::SetNotificationEnable(
            ppm::set_notification_enable::Args {
                notification_enable: ppm::set_notification_enable::NotificationEnable::from(0x1_ffff),
            },
        )),
        Command::LpmCommand(lpm::Command::new(LocalPortId(0), lpm::CommandData::ConnectorReset)),
        Command::LpmCommand(lpm::Command::new(LocalPortId(127), lpm::CommandData::GetCableProperty)),
        Command::LpmCommand(lpm::Command::new(
            LocalPortId(127),
            lpm::CommandData::SetNewCam(lpm::set_new_cam::Args {
                connector_number: 127,
                enter: true,
                am_offset: 0xff,
                am_specific: 0xffff_ffff,
            }),
        )),
    ];
    for command in commands {
        let mut out = Vec::new();
        command.encode(&mut out);
        assert_eq!(out.len(), COMMAND_LEN);
        assert_eq!(out[0], u8::from(command.command_type()));
        assert_eq!(Command::decode_from_slice(&out), Ok((command, COMMAND_LEN)));
    }
}

#[test]
fn a_port_beyond_seven_bits_does_not_round_trip() {
    let command: Command<LocalPortId> =
        Command::LpmCommand(lpm::Command::new(LocalPortId(0x81), lpm::CommandData::ConnectorReset));
    let mut out = Vec::new();
    command.encode(&mut out);
    assert_eq!(out, vec![0x03, 0, 0x81, 0, 0, 0, 0, 0]);
    let (decoded, _) = Command::<LocalPortId>::decode_from_slice(&out).unwrap();
    assert_eq!(
        decoded,
        Command::LpmCommand(lpm::Command::new(LocalPortId(1), lpm::CommandData::ConnectorReset))
    );
}

#[test]
fn mailbox_errors() {
    assert_eq!(
        GlobalCommand::decode_from_slice(&[0x17, 0, 0, 0, 0, 0, 0, 0]),
        Err(DecodeError::UnexpectedVariant { allowed: Allowed::CommandType, found: 0x17 })
    );
    assert_eq!(
        GlobalCommand::decode_from_slice(&[0x0A, 0, 0, 0, 0, 0, 0, 0]),
        Err(DecodeError::UnexpectedVariant { allowed: Allowed::LpmCommand, found: 0x0A })
    );
    assert_eq!(
        GlobalCommand::decode_from_slice(&[0x01, 0, 0]),
        Err(DecodeError::UnexpectedEnd { additional: 5 })
    );
    assert_eq!(GlobalCommand::decode_from_slice(&[]), Err(DecodeError::UnexpectedEnd { additional: 2 }));
}

#[test]
fn response_data_is_decoded_by_command_type() {
    let (capability, bytes) = capability_response();
    assert_eq!(
        ResponseData::decode_with(CommandType::GetCapability, &bytes),
        Ok((ResponseData::Ppm(ppm::ResponseData::GetCapability(capability)), 16))
    );
    let (status, bytes) = connector_status_response();
    assert_eq!(
        ResponseData::decode_with(CommandType::GetConnectorStatus, &bytes),
        Ok((ResponseData::Lpm(lpm::ResponseData::GetConnectorStatus(status)), 19))
    );
    assert_eq!(
        ResponseData::decode_with(CommandType::ConnectorReset, &[]),
        Ok((ResponseData::Lpm(lpm::ResponseData::ConnectorReset), 0))
    );
    assert_eq!(
        ResponseData::decode_with(CommandType::SetCcom, &bytes),
        Err(DecodeError::UnexpectedVariant { allowed: Allowed::LpmResponse, found: 0x08 })
    );
    assert_eq!(
        ppm::ResponseData::decode_with(CommandType::PpmReset, &bytes),
        Err(DecodeError::UnexpectedVariant { allowed: Allowed::PpmResponse, found: 0x01 })
    );
    assert!(Allowed::PpmResponse.allows(0x06));
    assert!(!Allowed::LpmResponse.allows(0x08));
}

#[test]
fn responses_are_made_from_their_parts() {
    let cci: Cci<GlobalPortId> = Cci::new_cmd_complete();
    let response = GlobalResponse::from(cci);
    assert_eq!(response.cci, cci);
    assert!(response.data.is_none());
    let (capability, _) = capability_response();
    let response = GlobalResponse::from(ppm::Response {
        cci,
        data: Some(ppm::ResponseData::GetCapability(capability)),
    });
    assert_eq!(response.data, Some(ResponseData::Ppm(ppm::ResponseData::GetCapability(capability))));
    let response = GlobalResponse::from(lpm::Response { cci, data: Some(lpm::ResponseData::ConnectorReset) });
    assert_eq!(response.data, Some(ResponseData::Lpm(lpm::ResponseData::ConnectorReset)));
    let response = GlobalResponse::from(lpm::Response { cci, data: None });
    assert!(response.data.is_none());
}

#[test]
fn cci_flags_and_fields() {
    let mut cci: Cci<LocalPortId> = Cci::default();
    assert_eq!(u32::from(cci), 0);
    cci.set_eom(true)
        .set_connector_change(LocalPortId(0x7f))
        .set_data_len(0x10)
        .set_vendor_message(true)
        .set_security_req(true)
        .set_fw_update_req(true)
        .set_not_supported(true)
        .set_cancel_complete(true)
        .set_reset_complete(true)
        .set_busy(true)
        .set_ack_command(true)
        .set_error(true)
        .set_cmd_complete(true);
    assert_eq!(u32::from(cci), 0xFF81_10FF);
    assert!(cci.eom() && cci.vendor_message() && cci.security_req() && cci.fw_update_req());
    assert!(cci.not_supported() && cci.cancel_complete() && cci.reset_complete() && cci.busy());
    assert!(cci.ack_command() && cci.error() && cci.cmd_complete());
    assert_eq!(cci.connector_change(), LocalPortId(0x7f));
    assert_eq!(cci.data_len(), 0x10);
    cci.set_eom(false).set_connector_change(LocalPortId(0));
    assert_eq!(u32::from(cci), 0xFF81_1000);
    // Only seven bits of the port and eight of the length are kept
    let mut cci: Cci<LocalPortId> = Cci::from(0);
    cci.set_connector_change(LocalPortId(0x81)).set_data_len(0x1ff);
    assert_eq!(cci.connector_change(), LocalPortId(1));
    assert!(!cci.eom());
    assert_eq!(cci.data_len(), 0xff);
    assert!(!cci.vendor_message());
}

#[test]
fn canonical_cci_reports() {
    assert_eq!(u32::from(Cci::<GlobalPortId>::new_cmd_complete()), 1 << 31);
    assert_eq!(u32::from(Cci::<GlobalPortId>::new_error()), 1 << 30);
    assert_eq!(u32::from(Cci::<GlobalPortId>::new_busy()), 1 << 28);
    assert_eq!(u32::from(Cci::<GlobalPortId>::new_reset_complete()), 1 << 27);
    assert!(Cci::<GlobalPortId>::new_busy().busy());
    assert!(!Cci::<GlobalPortId>::new_busy().error());
}
