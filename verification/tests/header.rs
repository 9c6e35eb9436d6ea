use embedded_usb_pd::ucsi::CommandHeader;
use embedded_usb_pd::ucsi::CommandType;
use embedded_usb_pd::ucsi::InvalidCommandType;
use embedded_usb_pd::wire::Allowed;
use embedded_usb_pd::wire::DecodeError;

#[test]
fn test_command_header_decoding_ppm_reset() {
    let bytes = [u8::from(CommandType::PpmReset), 0x00];
    let (header, consumed): (CommandHeader, usize) = CommandHeader::decode(&bytes).unwrap();
    assert_eq!(consumed, 2);
    assert_eq!(header.command(), CommandType::PpmReset);
    assert_eq!(header.data_len(), 0);
}

#[test]
fn test_command_header_decoding_cancel() {
    let bytes = [u8::from(CommandType::Cancel), 0x00];
    let (header, consumed): (CommandHeader, usize) = CommandHeader::decode(&bytes).unwrap();
    assert_eq!(consumed, 2);
    assert_eq!(header.command(), CommandType::Cancel);
    assert_eq!(header.data_len(), 0);
}

#[test]
fn test_command_header_decoding_connector_reset() {
    let bytes = [u8::from(CommandType::ConnectorReset), 0x00];
    let (header, consumed): (CommandHeader, usize) = CommandHeader::decode(&bytes).unwrap();
    assert_eq!(consumed, 2);
    assert_eq!(header.command(), CommandType::ConnectorReset);
    assert_eq!(header.data_len(), 0);
}

#[test]
fn test_command_header_decoding_ack_cc_ci() {
    let bytes = [u8::from(CommandType::AckCcCi), 0x00];
    let (header, consumed): (CommandHeader, usize) = CommandHeader::decode(&bytes).unwrap();
    assert_eq!(consumed, 2);
    assert_eq!(header.command(), CommandType::AckCcCi);
    assert_eq!(header.data_len(), 0);
}

#[test]
fn test_command_header_decoding_set_notification_enable() {
    let bytes = [u8::from(CommandType::SetNotificationEnable), 0x00];
    let (header, consumed): (CommandHeader, usize) = CommandHeader::decode(&bytes).unwrap();
    assert_eq!(consumed, 2);
    assert_eq!(header.command(), CommandType::SetNotificationEnable);
    assert_eq!(header.data_len(), 0);
}

#[test]
fn test_command_header_decoding_get_capability() {
    let bytes = [u8::from(CommandType::GetCapability), 0x00];
    let (header, consumed): (CommandHeader, usize) = CommandHeader::decode(&bytes).unwrap();
    assert_eq!(consumed, 2);
    assert_eq!(header.command(), CommandType::GetCapability);
    assert_eq!(header.data_len(), 0);
}

#[test]
fn test_command_header_decoding_get_connector_capability() {
    let bytes = [u8::from(CommandType::GetConnectorCapability), 0x00];
    let (header, consumed): (CommandHeader, usize) = CommandHeader::decode(&bytes).unwrap();
    assert_eq!(consumed, 2);
    assert_eq!(header.command(), CommandType::GetConnectorCapability);
    assert_eq!(header.data_len(), 0);
}

#[test]
fn test_command_header_decoding_set_ccom() {
    let bytes = [u8::from(CommandType::SetCcom), 0x00];
    let (header, consumed): (CommandHeader, usize) = CommandHeader::decode(&bytes).unwrap();
    assert_eq!(consumed, 2);
    assert_eq!(header.command(), CommandType::SetCcom);
    assert_eq!(header.data_len(), 0);
}

#[test]
fn test_command_header_decoding_set_uor() {
    let bytes = [u8::from(CommandType::SetUor), 0x00];
    let (header, consumed): (CommandHeader, usize) = CommandHeader::decode(&bytes).unwrap();
    assert_eq!(consumed, 2);
    assert_eq!(header.command(), CommandType::SetUor);
    assert_eq!(header.data_len(), 0);
}

#[test]
fn test_command_header_decoding_set_pdm() {
    let bytes = [u8::from(CommandType::SetPdm), 0x00];
    let (header, consumed): (CommandHeader, usize) = CommandHeader::decode(&bytes).unwrap();
    assert_eq!(consumed, 2);
    assert_eq!(header.command(), CommandType::SetPdm);
    assert_eq!(header.data_len(), 0);
}

#[test]
fn test_command_header_decoding_set_pdr() {
    let bytes = [u8::from(CommandType::SetPdr), 0x00];
    let (header, consumed): (CommandHeader, usize) = CommandHeader::decode(&bytes).unwrap();
    assert_eq!(consumed, 2);
    assert_eq!(header.command(), CommandType::SetPdr);
    assert_eq!(header.data_len(), 0);
}

#[test]
fn test_command_header_decoding_get_alternate_modes() {
    let bytes = [u8::from(CommandType::GetAlternateModes), 0x00];
    let (header, consumed): (CommandHeader, usize) = CommandHeader::decode(&bytes).unwrap();
    assert_eq!(consumed, 2);
    assert_eq!(header.command(), CommandType::GetAlternateModes);
    assert_eq!(header.data_len(), 0);
}

#[test]
fn test_command_header_decoding_get_cam_supported() {
    let bytes = [u8::from(CommandType::GetCamSupported), 0x00];
    let (header, consumed): (CommandHeader, usize) = CommandHeader::decode(&bytes).unwrap();
    assert_eq!(consumed, 2);
    assert_eq!(header.command(), CommandType::GetCamSupported);
    assert_eq!(header.data_len(), 0);
}

#[test]
fn test_command_header_decoding_get_current_cam() {
    let bytes = [u8::from(CommandType::GetCurrentCam), 0x00];
    let (header, consumed): (CommandHeader, usize) = CommandHeader::decode(&bytes).unwrap();
    assert_eq!(consumed, 2);
    assert_eq!(header.command(), CommandType::GetCurrentCam);
    assert_eq!(header.data_len(), 0);
}

#[test]
fn test_command_header_decoding_set_new_cam() {
    let bytes = [u8::from(CommandType::SetNewCam), 0x00];
    let (header, consumed): (CommandHeader, usize) = CommandHeader::decode(&bytes).unwrap();
    assert_eq!(consumed, 2);
    assert_eq!(header.command(), CommandType::SetNewCam);
    assert_eq!(header.data_len(), 0);
}

#[test]
fn test_command_header_decoding_get_pdos() {
    let bytes = [u8::from(CommandType::GetPdos), 0x00];
    let (header, consumed): (CommandHeader, usize) = CommandHeader::decode(&bytes).unwrap();
    assert_eq!(consumed, 2);
    assert_eq!(header.command(), CommandType::GetPdos);
    assert_eq!(header.data_len(), 0);
}

#[test]
fn test_command_header_decoding_get_cable_property() {
    let bytes = [u8::from(CommandType::GetCableProperty), 0x00];
    let (header, consumed): (CommandHeader, usize) = CommandHeader::decode(&bytes).unwrap();
    assert_eq!(consumed, 2);
    assert_eq!(header.command(), CommandType::GetCableProperty);
    assert_eq!(header.data_len(), 0);
}

#[test]
fn test_command_header_decoding_get_connector_status() {
    let bytes = [u8::from(CommandType::GetConnectorStatus), 0x00];
    let (header, consumed): (CommandHeader, usize) = CommandHeader::decode(&bytes).unwrap();
    assert_eq!(consumed, 2);
    assert_eq!(header.command(), CommandType::GetConnectorStatus);
    assert_eq!(header.data_len(), 0);
}

#[test]
fn test_command_header_decoding_get_error_status() {
    let bytes = [u8::from(CommandType::GetErrorStatus), 0x00];
    let (header, consumed): (CommandHeader, usize) = CommandHeader::decode(&bytes).unwrap();
    assert_eq!(consumed, 2);
    assert_eq!(header.command(), CommandType::GetErrorStatus);
    assert_eq!(header.data_len(), 0);
}

#[test]
fn test_command_header_decoding_set_power_level() {
    let bytes = [u8::from(CommandType::SetPowerLevel), 0x00];
    let (header, consumed): (CommandHeader, usize) = CommandHeader::decode(&bytes).unwrap();
    assert_eq!(consumed, 2);
    assert_eq!(header.command(), CommandType::SetPowerLevel);
    assert_eq!(header.data_len(), 0);
}

#[test]
fn test_command_header_decoding_get_pd_message() {
    let bytes = [u8::from(CommandType::GetPdMessage), 0x00];
    let (header, consumed): (CommandHeader, usize) = CommandHeader::decode(&bytes).unwrap();
    assert_eq!(consumed, 2);
    assert_eq!(header.command(), CommandType::GetPdMessage);
    assert_eq!(header.data_len(), 0);
}

#[test]
fn test_command_header_decoding_get_attention_vdo() {
    let bytes = [u8::from(CommandType::GetAttentionVdo), 0x00];
    let (header, consumed): (CommandHeader, usize) = CommandHeader::decode(&bytes).unwrap();
    assert_eq!(consumed, 2);
    assert_eq!(header.command(), CommandType::GetAttentionVdo);
    assert_eq!(header.data_len(), 0);
}

#[test]
fn test_command_header_decoding_get_cam_cs() {
    let bytes = [u8::from(CommandType::GetCamCs), 0x00];
    let (header, consumed): (CommandHeader, usize) = CommandHeader::decode(&bytes).unwrap();
    assert_eq!(consumed, 2);
    assert_eq!(header.command(), CommandType::GetCamCs);
    assert_eq!(header.data_len(), 0);
}

#[test]
fn test_command_header_decoding_lpm_fw_update_request() {
    let bytes = [u8::from(CommandType::LpmFwUpdateRequest), 0x00];
    let (header, consumed): (CommandHeader, usize) = CommandHeader::decode(&bytes).unwrap();
    assert_eq!(consumed, 2);
    assert_eq!(header.command(), CommandType::LpmFwUpdateRequest);
    assert_eq!(header.data_len(), 0);
}

#[test]
fn test_command_header_decoding_security_request() {
    let bytes = [u8::from(CommandType::SecurityRequest), 0x00];
    let (header, consumed): (CommandHeader, usize) = CommandHeader::decode(&bytes).unwrap();
    assert_eq!(consumed, 2);
    assert_eq!(header.command(), CommandType::SecurityRequest);
    assert_eq!(header.data_len(), 0);
}

#[test]
fn test_command_header_decoding_set_retimer_mode() {
    let bytes = [u8::from(CommandType::SetRetimerMode), 0x00];
    let (header, consumed): (CommandHeader, usize) = CommandHeader::decode(&bytes).unwrap();
    assert_eq!(consumed, 2);
    assert_eq!(header.command(), CommandType::SetRetimerMode);
    assert_eq!(header.data_len(), 0);
}

#[test]
fn test_command_header_decoding_set_sink_path() {
    let bytes = [u8::from(CommandType::SetSinkPath), 0x00];
    let (header, consumed): (CommandHeader, usize) = CommandHeader::decode(&bytes).unwrap();
    assert_eq!(consumed, 2);
    assert_eq!(header.command(), CommandType::SetSinkPath);
    assert_eq!(header.data_len(), 0);
}

#[test]
fn test_command_header_decoding_set_pdos() {
    let bytes = [u8::from(CommandType::SetPdos), 0x00];
    let (header, consumed): (CommandHeader, usize) = CommandHeader::decode(&bytes).unwrap();
    assert_eq!(consumed, 2);
    assert_eq!(header.command(), CommandType::SetPdos);
    assert_eq!(header.data_len(), 0);
}

#[test]
fn test_command_header_decoding_read_power_level() {
    let bytes = [u8::from(CommandType::ReadPowerLevel), 0x00];
    let (header, consumed): (CommandHeader, usize) = CommandHeader::decode(&bytes).unwrap();
    assert_eq!(consumed, 2);
    assert_eq!(header.command(), CommandType::ReadPowerLevel);
    assert_eq!(header.data_len(), 0);
}

#[test]
fn test_command_header_decoding_chunking_support() {
    let bytes = [u8::from(CommandType::ChunkingSupport), 0x00];
    let (header, consumed): (CommandHeader, usize) = CommandHeader::decode(&bytes).unwrap();
    assert_eq!(consumed, 2);
    assert_eq!(header.command(), CommandType::ChunkingSupport);
    assert_eq!(header.data_len(), 0);
}

#[test]
fn test_command_header_decoding_set_usb() {
    let bytes = [u8::from(CommandType::SetUsb), 0x00];
    let (header, consumed): (CommandHeader, usize) = CommandHeader::decode(&bytes).unwrap();
    assert_eq!(consumed, 2);
    assert_eq!(header.command(), CommandType::SetUsb);
    assert_eq!(header.data_len(), 0);
}

#[test]
fn test_command_header_decoding_get_lpm_ppm_info() {
    let bytes = [u8::from(CommandType::GetLpmPpmInfo), 0x00];
    let (header, consumed): (CommandHeader, usize) = CommandHeader::decode(&bytes).unwrap();
    assert_eq!(consumed, 2);
    assert_eq!(header.command(), CommandType::GetLpmPpmInfo);
    assert_eq!(header.data_len(), 0);
}

#[test]
fn opcodes_have_their_wire_values() {
    assert_eq!(u8::from(CommandType::PpmReset), 0x01);
    assert_eq!(u8::from(CommandType::GetAttentionVdo), 0x16);
    assert_eq!(u8::from(CommandType::GetCamCs), 0x18);
    assert_eq!(u8::from(CommandType::ChunkingSupport), 0x1F);
    assert_eq!(u8::from(CommandType::SetUsb), 0x21);
    assert_eq!(u8::from(CommandType::GetLpmPpmInfo), 0x22);
}

#[test]
fn every_opcode_round_trips_and_gaps_are_rejected() {
    let mut known = 0;
    for value in 0..=255u8 {
        match CommandType::try_from(value) {
            Ok(command) => {
                known += 1;
                assert_eq!(u8::from(command), value);
                assert!(Allowed::CommandType.allows(value as u32));
            }
            Err(error) => {
                assert_eq!(error, InvalidCommandType(value));
                assert!(!Allowed::CommandType.allows(value as u32));
            }
        }
    }
    assert_eq!(known, 32);
    assert!(CommandType::try_from(0x00).is_err());
    assert!(CommandType::try_from(0x17).is_err());
    assert!(CommandType::try_from(0x20).is_err());
    assert!(CommandType::try_from(0x23).is_err());
}

#[test]
fn commands_without_response_data() {
    let none = [
        CommandType::PpmReset,
        CommandType::Cancel,
        CommandType::ConnectorReset,
        CommandType::AckCcCi,
        CommandType::SetNotificationEnable,
        CommandType::SetCcom,
        CommandType::SetUor,
        CommandType::SetPdr,
        CommandType::SetNewCam,
    ];
    for command in none {
        assert!(!command.has_response());
    }
    assert!(CommandType::GetCapability.has_response());
    assert!(CommandType::GetConnectorStatus.has_response());
    assert!(CommandType::GetPdos.has_response());
    assert!(CommandType::SetPdm.has_response());
}

#[test]
fn header_of_unknown_opcode_is_rejected_with_the_header_word() {
    let bytes = [0x17, 0x02];
    assert_eq!(
        CommandHeader::decode(&bytes),
        Err(DecodeError::UnexpectedVariant { allowed: Allowed::CommandType, found: 0x0217 })
    );
    assert_eq!(CommandHeader::try_from(0x0217u16), Err(InvalidCommandType(0x17)));
}

#[test]
fn header_of_short_input_misses_bytes() {
    assert_eq!(CommandHeader::decode(&[]), Err(DecodeError::UnexpectedEnd { additional: 2 }));
    assert_eq!(CommandHeader::decode(&[0x01]), Err(DecodeError::UnexpectedEnd { additional: 1 }));
}

#[test]
fn header_keeps_data_len_and_encodes_two_bytes() {
    let mut header = CommandHeader::new(CommandType::GetPdos, 7);
    assert_eq!(header.data_len(), 7);
    let mut out = Vec::new();
    header.encode(&mut out);
    assert_eq!(out, vec![0x10, 0x07]);
    assert_eq!(CommandHeader::decode(&out), Ok((header, 2)));
    header.set_command(CommandType::Cancel).set_data_len(9);
    assert_eq!(header.command(), CommandType::Cancel);
    assert_eq!(header.data_len(), 9);
    assert_eq!(CommandHeader::try_from(0x0902u16), Ok(header));
}
