use embedded_usb_pd::ucsi::lpm::get_alternate_modes;
use embedded_usb_pd::ucsi::lpm::get_pdos;
use embedded_usb_pd::ucsi::lpm::set_ccom;
use embedded_usb_pd::ucsi::lpm::set_new_cam;
use embedded_usb_pd::ucsi::lpm::set_pdr;
use embedded_usb_pd::ucsi::lpm::set_power_level;
use embedded_usb_pd::ucsi::lpm::set_uor;
use embedded_usb_pd::ucsi::lpm::CommandData;
use embedded_usb_pd::ucsi::lpm::GlobalCommand;
use embedded_usb_pd::ucsi::lpm::LocalCommand;
use embedded_usb_pd::ucsi::lpm::Recipient;
use embedded_usb_pd::ucsi::CommandType;
use embedded_usb_pd::ucsi::COMMAND_LEN;
use embedded_usb_pd::wire::Allowed;
use embedded_usb_pd::wire::DecodeError;
use embedded_usb_pd::GlobalPortId;
use embedded_usb_pd::LocalPortId;
use embedded_usb_pd::PowerRole;

#[test]
fn test_decode_connector_reset() {
    let mut bytes = [0u8; COMMAND_LEN];
    bytes[0] = u8::from(CommandType::ConnectorReset);
    bytes[2] = 0x81;

    let (connector_reset, consumed): (GlobalCommand, usize) = GlobalCommand::decode(&bytes).unwrap();
    assert_eq!(consumed, bytes.len());
    assert_eq!(connector_reset, GlobalCommand::new(GlobalPortId(1), CommandData::ConnectorReset));
}

#[test]
fn test_decode_get_connector_status() {
    let mut bytes = [0u8; COMMAND_LEN];
    bytes[0] = u8::from(CommandType::GetConnectorStatus);
    bytes[2] = 0x1;

    let (get_connector_status, consumed): (GlobalCommand, usize) = GlobalCommand::decode(&bytes).unwrap();
    assert_eq!(consumed, bytes.len());
    assert_eq!(
        get_connector_status,
        GlobalCommand::new(GlobalPortId(1), CommandData::GetConnectorStatus)
    );
}

#[test]
fn test_decode_get_connector_capability() {
    let mut bytes = [0u8; COMMAND_LEN];
    bytes[0] = u8::from(CommandType::GetConnectorCapability);
    bytes[2] = 0x1;

    let (get_connector_capability, consumed): (GlobalCommand, usize) =
        GlobalCommand::decode(&bytes).unwrap();
    assert_eq!(consumed, bytes.len());
    assert_eq!(
        get_connector_capability,
        GlobalCommand::new(GlobalPortId(1), CommandData::GetConnectorCapability)
    );
}

#[test]
fn test_decode_set_power_level() {
    let mut bytes = [0u8; COMMAND_LEN];
    bytes[0] = u8::from(CommandType::SetPowerLevel);
    bytes[2] = 0x81;

    let (set_power_level, consumed): (GlobalCommand, usize) = GlobalCommand::decode(&bytes).unwrap();
    assert_eq!(consumed, bytes.len());
    assert_eq!(
        set_power_level,
        GlobalCommand::new(
            GlobalPortId(1),
            CommandData::SetPowerLevel(
                *set_power_level::Args::default()
                    .set_connector_number(1)
                    .set_power_role(PowerRole::Source)
            )
        )
    )
}

#[test]
fn test_decode_get_alternate_modes() {
    let mut bytes = [0u8; COMMAND_LEN];
    bytes[0] = u8::from(CommandType::GetAlternateModes);
    bytes[2] = 0x1; // SOP recipient

    let (get_alternate_modes, consumed): (GlobalCommand, usize) = GlobalCommand::decode(&bytes).unwrap();
    assert_eq!(consumed, bytes.len());
    assert_eq!(
        get_alternate_modes,
        GlobalCommand::new(
            GlobalPortId(0),
            CommandData::GetAlternateModes(*get_alternate_modes::Args::default().set_recipient(Recipient::Sop)),
        )
    );
}

#[test]
fn test_decode_set_ccom() {
    let mut bytes = [0u8; COMMAND_LEN];
    bytes[0] = u8::from(CommandType::SetCcom);
    bytes[2] = 0x81;

    let (set_ccom, consumed): (GlobalCommand, usize) = GlobalCommand::decode(&bytes).unwrap();
    assert_eq!(consumed, bytes.len());
    assert_eq!(
        set_ccom,
        GlobalCommand::new(
            GlobalPortId(1),
            CommandData::SetCcom(*set_ccom::Args::default().set_connector_number(1).set_rp(true)),
        )
    );
}

#[test]
fn test_decode_set_new_cam() {
    let mut bytes = [0u8; COMMAND_LEN];
    bytes[0] = u8::from(CommandType::SetNewCam);
    bytes[2] = 0x1;

    let (set_new_cam, consumed): (GlobalCommand, usize) = GlobalCommand::decode(&bytes).unwrap();
    assert_eq!(consumed, bytes.len());
    assert_eq!(
        set_new_cam,
        GlobalCommand::new(
            GlobalPortId(1),
            CommandData::SetNewCam(set_new_cam::Args {
                connector_number: 1,
                enter: false,
                am_offset: 0,
                am_specific: 0,
            }),
        )
    );
}

#[test]
fn test_decode_set_uor() {
    let bytes = [9, 0, 129, 0, 0, 0, 0, 0];

    let (set_uor, consumed): (GlobalCommand, usize) = GlobalCommand::decode(&bytes).unwrap();
    assert_eq!(consumed, bytes.len());
    assert_eq!(
        set_uor,
        GlobalCommand::new(
            GlobalPortId(1),
            CommandData::SetUor(*set_uor::Args::default().set_connector_number(1).set_dfp(true)),
        )
    );
}

#[test]
fn test_decode_get_error_status() {
    let mut bytes = [0u8; COMMAND_LEN];
    bytes[0] = u8::from(CommandType::GetErrorStatus);
    bytes[2] = 0x1;

    let (get_error_status, consumed): (GlobalCommand, usize) = GlobalCommand::decode(&bytes).unwrap();
    assert_eq!(consumed, bytes.len());
    assert_eq!(get_error_status, GlobalCommand::new(GlobalPortId(1), CommandData::GetErrorStatus));
}

#[test]
fn test_decode_set_pdr() {
    let mut bytes = [0u8; COMMAND_LEN];
    bytes[0] = u8::from(CommandType::SetPdr);
    bytes[2] = 0x81;

    let (set_pdr, consumed): (GlobalCommand, usize) = GlobalCommand::decode(&bytes).unwrap();
    assert_eq!(consumed, bytes.len());
    assert_eq!(
        set_pdr,
        GlobalCommand::new(
            GlobalPortId(1),
            CommandData::SetPdr(*set_pdr::Args::default().set_connector_number(1).set_swap_source(true)),
        )
    );
}

#[test]
fn test_get_cam_supported() {
    let mut bytes = [0u8; COMMAND_LEN];
    bytes[0] = u8::from(CommandType::GetCamSupported);
    bytes[2] = 0x1;

    let (get_cam_supported, consumed): (GlobalCommand, usize) = GlobalCommand::decode(&bytes).unwrap();
    assert_eq!(consumed, bytes.len());
    assert_eq!(get_cam_supported, GlobalCommand::new(GlobalPortId(1), CommandData::GetCamSupported));
}

#[test]
fn test_get_current_cam() {
    let mut bytes = [0u8; COMMAND_LEN];
    bytes[0] = u8::from(CommandType::GetCurrentCam);
    bytes[2] = 0x1;
    let (get_current_cam, consumed): (GlobalCommand, usize) = GlobalCommand::decode(&bytes).unwrap();
    assert_eq!(consumed, bytes.len());
    assert_eq!(get_current_cam, GlobalCommand::new(GlobalPortId(1), CommandData::GetCurrentCam));
}

#[test]
fn test_get_pdos() {
    let mut bytes = [0u8; COMMAND_LEN];
    bytes[0] = u8::from(CommandType::GetPdos);
    bytes[2] = 0x81;

    let (get_pdos, consumed): (GlobalCommand, usize) = GlobalCommand::decode(&bytes).unwrap();
    assert_eq!(consumed, bytes.len());
    assert_eq!(
        get_pdos,
        GlobalCommand::new(
            GlobalPortId(1),
            CommandData::GetPdos(*get_pdos::Args::default().set_connector_number(1).set_partner(true)),
        )
    );
}

#[test]
fn test_get_cable_property() {
    let mut bytes = [0u8; COMMAND_LEN];
    bytes[0] = u8::from(CommandType::GetCableProperty);
    bytes[2] = 0x1;

    let (get_cable_property, consumed): (GlobalCommand, usize) = GlobalCommand::decode(&bytes).unwrap();
    assert_eq!(consumed, bytes.len());
    assert_eq!(get_cable_property, GlobalCommand::new(GlobalPortId(1), CommandData::GetCableProperty));
}

#[test]
fn get_alternate_modes_test_decode_args() {
    // SOP on connector 3, 2 requested alt modes
    let encoded: [u8; 6] = [0x00, 0x01, 0x0, 0x1, 0x0, 0x0];
    let (decoded, size): (get_alternate_modes::Args, usize) =
        get_alternate_modes::Args::decode(&encoded).unwrap();
    assert_eq!(size, 6);

    let mut expected = get_alternate_modes::Args::default();
    expected.set_connector_number(1);
    expected.set_num_modes(1);
    expected.set_recipient(Recipient::Connector);
    expected.set_mode_offset(0);
    assert_eq!(decoded, expected);
}

#[test]
fn get_pdos_test_decode_args() {
    // Partner, connector 3, 1 PDO, source, maximum capabilities, offset 4
    let encoded: [u8; 6] = [0x83, 0x04, 0x14, 0x00, 0x00, 0x00];
    let (decoded, size): (get_pdos::Args, usize) = get_pdos::Args::decode(&encoded).unwrap();
    assert_eq!(size, 6);

    let expected = *get_pdos::Args::default()
        .set_connector_number(3)
        .set_partner(true)
        .set_pdo_offset(4)
        .set_num_pdos(1)
        .unwrap()
        .set_role(PowerRole::Source)
        .set_source_capability_type(get_pdos::SourceCapabilityType::Maximum);
    assert_eq!(decoded, expected);
}

#[test]
fn set_ccom_test_decode_args() {
    // Rp/DRP on connector 3
    let encoded: [u8; 6] = [0x83, 0x02, 0x00, 0x00, 0x00, 0x00];
    let (decoded, size): (set_ccom::Args, usize) = set_ccom::Args::decode(&encoded).unwrap();
    assert_eq!(size, 6);

    let expected = *set_ccom::Args::default().set_connector_number(3).set_drp(true).set_rp(true);
    assert_eq!(decoded, expected);
}

#[test]
fn set_new_cam_test_decode_args() {
    // Enter alt mode at offset 1, on connector3, with AM-specific 0x12345678
    let encoded: [u8; 6] = [0x83, 0x01, 0x78, 0x56, 0x34, 0x12];
    let (decoded, size): (set_new_cam::Args, usize) = set_new_cam::Args::decode(&encoded).unwrap();
    assert_eq!(size, 6);

    let expected = set_new_cam::Args {
        connector_number: 3,
        enter: true,
        am_offset: 1,
        am_specific: 0x12345678,
    };
    assert_eq!(decoded, expected);
}

#[test]
fn set_pdr_test_decode_args() {
    // Source swap/accept swap on connector 3
    let encoded: [u8; 6] = [0x83, 0x02, 0x00, 0x00, 0x00, 0x00];
    let (decoded, size): (set_pdr::Args, usize) = set_pdr::Args::decode(&encoded).unwrap();
    assert_eq!(size, 6);

    let expected = *set_pdr::Args::default()
        .set_connector_number(3)
        .set_accept_swap(true)
        .set_swap_source(true);
    assert_eq!(decoded, expected);
}

#[test]
fn set_power_level_test_decode_args() {
    // Source on connector 3
    // 1W max power
    // USB default current
    // 100 mA operating current
    // 60 mV output voltage
    let encoded: [u8; 6] = [0x83, 0x02, 0x22, 0xC0, 0x00, 0x00];
    let (decoded, size): (set_power_level::Args, usize) = set_power_level::Args::decode(&encoded).unwrap();
    assert_eq!(size, 6);

    let expected = *set_power_level::Args::default()
        .set_connector_number(3)
        .set_operating_current(100)
        .set_power_role(PowerRole::Source)
        .set_type_c_current(set_power_level::Current::Current(
            embedded_usb_pd::type_c::Current::Current1A5,
        ))
        .set_power_args(false, 60, 1000);
    assert_eq!(decoded, expected);
}

#[test]
fn set_uor_test_decode_args() {
    // DFP/accept swap on connector 3
    let encoded: [u8; 6] = [0x83, 0x02, 0x00, 0x00, 0x00, 0x00];
    let (decoded, size): (set_uor::Args, usize) = set_uor::Args::decode(&encoded).unwrap();
    assert_eq!(size, 6);

    let expected = *set_uor::Args::default()
        .set_connector_number(3)
        .set_accept_swap(true)
        .set_dfp(true);
    assert_eq!(decoded, expected);
}

fn all_commands(port: u8) -> Vec<LocalCommand> {
    let power = *set_power_level::Args::default()
        .set_connector_number(port)
        .set_power_role(PowerRole::Source)
        .set_type_c_current(set_power_level::Current::Current(
            embedded_usb_pd::type_c::Current::UsbDefault,
        ))
        .set_operating_current(12750)
        .set_power_args(true, 0xffff, 0xffff);
    let alt = *get_alternate_modes::Args::default()
        .set_connector_number(port)
        .set_recipient(Recipient::SopPp)
        .set_mode_offset(0xff)
        .set_num_modes(3);
    let pdos = *get_pdos::Args::default()
        .set_connector_number(port)
        .set_partner(true)
        .set_pdo_offset(0xff)
        .set_num_pdos(4)
        .unwrap()
        .set_role(PowerRole::Source)
        .set_source_capability_type(get_pdos::SourceCapabilityType::Maximum);
    let operations = vec![
        CommandData::ConnectorReset,
        CommandData::GetConnectorStatus,
        CommandData::GetConnectorCapability,
        CommandData::SetPowerLevel(power),
        CommandData::SetNewCam(set_new_cam::Args {
            connector_number: port,
            enter: true,
            am_offset: 0xff,
            am_specific: 0xffff_ffff,
        }),
        CommandData::GetErrorStatus,
        CommandData::SetCcom(
            *set_ccom::Args::from(0xff80).set_connector_number(port),
        ),
        CommandData::SetUor(*set_uor::Args::from(0xff80).set_connector_number(port)),
        CommandData::SetPdr(*set_pdr::Args::from(0xff80).set_connector_number(port)),
        CommandData::GetAlternateModes(alt),
        CommandData::GetCamSupported,
        CommandData::GetCurrentCam,
        CommandData::GetPdos(pdos),
        CommandData::GetCableProperty,
    ];
    operations
        .into_iter()
        .map(|operation| LocalCommand::new(LocalPortId(port), operation))
        .collect()
}

fn minimal_commands() -> Vec<LocalCommand> {
    vec![
        CommandData::ConnectorReset,
        CommandData::GetConnectorStatus,
        CommandData::GetConnectorCapability,
        CommandData::SetPowerLevel(set_power_level::Args::default()),
        CommandData::SetNewCam(set_new_cam::Args::default()),
        CommandData::GetErrorStatus,
        CommandData::SetCcom(set_ccom::Args::default()),
        CommandData::SetUor(set_uor::Args::default()),
        CommandData::SetPdr(set_pdr::Args::default()),
        CommandData::GetAlternateModes(get_alternate_modes::Args::default()),
        CommandData::GetCamSupported,
        CommandData::GetCurrentCam,
        CommandData::GetPdos(get_pdos::Args::default()),
        CommandData::GetCableProperty,
    ]
    .into_iter()
    .map(|operation| LocalCommand::new(LocalPortId(0), operation))
    .collect()
}

#[test]
fn every_lpm_command_round_trips() {
    for command in minimal_commands().into_iter().chain(all_commands(127)).chain(all_commands(1)) {
        let mut out = Vec::new();
        command.encode(&mut out);
        assert_eq!(out.len(), COMMAND_LEN, "{:?}", command);
        assert_eq!(out[0], u8::from(command.command_type()));
        assert_eq!(out[1], 0);
        assert_eq!(LocalCommand::decode(&out), Ok((command, COMMAND_LEN)), "{:?}", command);
        // What follows the mailbox is not read
        out.push(0xAA);
        assert_eq!(LocalCommand::decode(&out), Ok((command, COMMAND_LEN)));
    }
}

#[test]
fn connector_number_keeps_seven_bits() {
    for number in [0u8, 1, 127] {
        for high in [false, true] {
            let args = *set_ccom::Args::default().set_rp(high).set_connector_number(number);
            assert_eq!(args.connector_number(), number);
            assert_eq!(args.rp(), high);
            let args = *set_ccom::Args::default().set_connector_number(number).set_rp(high);
            assert_eq!(args.connector_number(), number);
            assert_eq!(args.rp(), high);
            let args = *get_pdos::Args::default().set_connector_number(number).set_partner(high);
            assert_eq!(args.connector_number(), number);
            assert_eq!(args.partner(), high);
            let role = if high { PowerRole::Source } else { PowerRole::Sink };
            let args = *set_power_level::Args::default().set_power_role(role).set_connector_number(number);
            assert_eq!(args.connector_number(), number);
            assert_eq!(args.power_role(), role);
        }
    }
    // A number beyond seven bits is cut to seven bits and leaves the bit above alone
    let args = *set_uor::Args::default().set_connector_number(0x85);
    assert_eq!(args.connector_number(), 5);
    assert!(!args.dfp());
    assert_eq!(u16::from(args), 5);
    let args = *get_alternate_modes::Args::default().set_connector_number(0xff);
    assert_eq!(args.connector_number(), 127);
    assert_eq!(u32::from(args), 0x7f00);
}

#[test]
fn set_port_also_sets_the_number_in_the_arguments() {
    let mut command = LocalCommand::new(
        LocalPortId(1),
        CommandData::SetCcom(*set_ccom::Args::default().set_connector_number(1).set_drp(true)),
    );
    command.set_port(LocalPortId(9));
    assert_eq!(command.port(), LocalPortId(9));
    assert_eq!(
        command.operation(),
        CommandData::SetCcom(*set_ccom::Args::default().set_connector_number(9).set_drp(true))
    );
    for mut command in all_commands(3) {
        command.set_port(LocalPortId(100));
        let mut out = Vec::new();
        command.encode(&mut out);
        let (decoded, _) = LocalCommand::decode(&out).unwrap();
        assert_eq!(decoded, command);
        assert_eq!(decoded.port(), LocalPortId(100));
    }
    let mut command = LocalCommand::new(LocalPortId(1), CommandData::GetErrorStatus);
    command.set_operation(CommandData::GetCamSupported).set_port(LocalPortId(2));
    assert_eq!(command, LocalCommand::new(LocalPortId(2), CommandData::GetCamSupported));
    assert_eq!(command.command_type(), CommandType::GetCamSupported);
}

#[test]
fn invalid_argument_fields_are_rejected() {
    // Recipient 4 of GET_ALTERNATE_MODES
    let mut bytes = [0u8; COMMAND_LEN];
    bytes[0] = u8::from(CommandType::GetAlternateModes);
    bytes[2] = 0x04;
    assert_eq!(
        GlobalCommand::decode(&bytes),
        Err(DecodeError::UnexpectedVariant { allowed: Allowed::Recipient, found: 4 })
    );
    assert!(get_alternate_modes::Args::try_from(0x07u32).is_err());
    assert!(get_alternate_modes::Args::try_from(0x03u32).is_ok());

    // Source capability type 3 of GET_PDOS
    let mut bytes = [0u8; COMMAND_LEN];
    bytes[0] = u8::from(CommandType::GetPdos);
    bytes[4] = 0x18;
    assert_eq!(
        GlobalCommand::decode(&bytes),
        Err(DecodeError::UnexpectedVariant { allowed: Allowed::SourceCapabilityType, found: 3 })
    );
    assert_eq!(
        get_pdos::Args::try_from(0x0018_0000u32),
        Err(get_pdos::InvalidSourceCapabilityType(3))
    );

    // Type-C current 5 of SET_POWER_LEVEL
    let mut bytes = [0u8; COMMAND_LEN];
    bytes[0] = u8::from(CommandType::SetPowerLevel);
    bytes[4] = 0x05;
    assert_eq!(
        GlobalCommand::decode(&bytes),
        Err(DecodeError::UnexpectedVariant { allowed: Allowed::Current, found: 5 })
    );
    assert_eq!(
        set_power_level::Args::try_from([0, 0, 4, 0, 0, 0]),
        Err(set_power_level::InvalidCurrent(4))
    );
}

#[test]
fn commands_that_are_not_for_an_lpm_are_rejected() {
    for command in [CommandType::PpmReset, CommandType::SetPdm, CommandType::GetLpmPpmInfo] {
        let mut bytes = [0u8; COMMAND_LEN];
        bytes[0] = u8::from(command);
        assert_eq!(
            GlobalCommand::decode(&bytes),
            Err(DecodeError::UnexpectedVariant {
                allowed: Allowed::LpmCommand,
                found: u8::from(command) as u32
            })
        );
        assert!(!Allowed::LpmCommand.allows(u8::from(command) as u32));
    }
    assert!(Allowed::LpmCommand.allows(u8::from(CommandType::GetPdos) as u32));
}

#[test]
fn short_commands_miss_bytes() {
    let full = [u8::from(CommandType::GetConnectorStatus), 0, 1, 0, 0, 0, 0, 0];
    let missing = [2usize, 1, 1, 5, 4, 3, 2, 1];
    for len in 0..COMMAND_LEN {
        assert_eq!(
            GlobalCommand::decode(&full[..len]),
            Err(DecodeError::UnexpectedEnd { additional: missing[len] }),
            "{}",
            len
        );
    }
    let full = [u8::from(CommandType::GetPdos), 0, 1, 0, 0, 0, 0, 0];
    let missing = [2usize, 1, 4, 3, 2, 1, 2, 1];
    for len in 0..COMMAND_LEN {
        assert_eq!(
            GlobalCommand::decode(&full[..len]),
            Err(DecodeError::UnexpectedEnd { additional: missing[len] })
        );
    }
}

#[test]
fn power_level_arguments_in_units() {
    let args = *set_power_level::Args::default().set_power_args(true, 5000, 15000).set_operating_current(3000);
    assert_eq!(args.output_voltage(), 5000);
    assert_eq!(args.max_power(), 15000);
    assert_eq!(args.operating_current(), 3000);
    assert_eq!(args.type_c_current(), set_power_level::Current::PpmDefault);
    let args = *set_power_level::Args::default().set_power_args(false, 5010, 15499);
    assert_eq!(args.output_voltage(), 5000);
    assert_eq!(args.max_power(), 15000);
    // A power beyond sixteen bits wraps around
    let args = *set_power_level::Args::default().set_power_args(true, 0, 0xffff);
    assert_eq!(args.max_power(), ((65u32 * 1000) % 0x1_0000) as u16);
    let bytes: [u8; 6] = (*set_power_level::Args::default().set_power_args(true, 0, 0)).into();
    assert_eq!(bytes, [0, 0, 0x08, 0, 0, 0]);
    let wide = set_power_level::Args::try_from([0, 0xff, 0x08, 0, 0, 0]).unwrap();
    assert_eq!(wide.max_power(), ((255u32 * 1000) % 0x1_0000) as u16);
}

#[test]
fn number_of_pdos_is_one_to_four() {
    let mut args = get_pdos::Args::default();
    assert_eq!(args.num_pdos(), 1);
    assert!(args.set_num_pdos(0).is_none());
    assert!(args.set_num_pdos(5).is_none());
    assert_eq!(args, get_pdos::Args::default());
    for number in 1..=4u8 {
        assert!(args.set_num_pdos(number).is_some());
        assert_eq!(args.num_pdos(), number);
    }
    assert_eq!(args.role(), PowerRole::Sink);
    assert_eq!(args.source_capability_type(), get_pdos::SourceCapabilityType::Current);
    assert_eq!(u32::from(args), 0x0003_0000);
}

#[test]
fn recipients_have_their_numbers() {
    for (number, recipient) in [
        (0u8, Recipient::Connector),
        (1, Recipient::Sop),
        (2, Recipient::SopP),
        (3, Recipient::SopPp),
    ] {
        assert_eq!(Recipient::try_from(number), Ok(recipient));
        assert_eq!(u8::from(recipient), number);
        assert_eq!(get_alternate_modes::Args::default().set_recipient(recipient).recipient(), recipient);
    }
    assert_eq!(Recipient::try_from(4), Err(embedded_usb_pd::ucsi::lpm::InvalidRecipient(4)));
}
