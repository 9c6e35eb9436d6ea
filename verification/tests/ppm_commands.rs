use embedded_usb_pd::ucsi::ppm::ack_cc_ci;
use embedded_usb_pd::ucsi::ppm::set_notification_enable;
use embedded_usb_pd::ucsi::ppm::set_notification_enable::NotificationEnable;
use embedded_usb_pd::ucsi::ppm::Command;
use embedded_usb_pd::ucsi::CommandHeader;
use embedded_usb_pd::ucsi::CommandType;
use embedded_usb_pd::ucsi::COMMAND_LEN;
use embedded_usb_pd::wire::Allowed;
use embedded_usb_pd::wire::DecodeError;

#[test]
fn test_decode_ppm_reset() {
    let mut bytes = [0u8; COMMAND_LEN];
    bytes[0] = u8::from(CommandType::PpmReset);

    let (ppm_reset, consumed): (Command, usize) = Command::decode(&bytes).unwrap();
    assert_eq!(consumed, bytes.len());
    assert_eq!(ppm_reset, Command::PpmReset);
}

#[test]
fn test_decode_cancel() {
    let mut bytes = [0u8; COMMAND_LEN];
    bytes[0] = u8::from(CommandType::Cancel);

    let (cancel, consumed): (Command, usize) = Command::decode(&bytes).unwrap();
    assert_eq!(consumed, bytes.len());
    assert_eq!(cancel, Command::Cancel);
}

#[test]
fn test_decode_ack_cc_ci() {
    let mut bytes = [0u8; COMMAND_LEN];
    bytes[0] = u8::from(CommandType::AckCcCi);
    bytes[2] = 0x2; // Set connector change ack

    let (ack_cc_ci, consumed): (Command, usize) = Command::decode(&bytes).unwrap();
    assert_eq!(consumed, bytes.len());
    assert_eq!(
        ack_cc_ci,
        Command::AckCcCi(ack_cc_ci::Args {
            ack: ack_cc_ci::Ack::from(0x2)
        })
    );
}

#[test]
fn test_decode_set_notification_enable() {
    let mut bytes = [0u8; COMMAND_LEN];
    bytes[0] = u8::from(CommandType::SetNotificationEnable);
    bytes[2] = 0x1; // Enable command complete notification

    let (set_notification_enable, consumed): (Command, usize) = Command::decode(&bytes).unwrap();
    assert_eq!(consumed, bytes.len());
    assert_eq!(
        set_notification_enable,
        Command::SetNotificationEnable(set_notification_enable::Args {
            notification_enable: set_notification_enable::NotificationEnable::from(0x1)
        })
    );
}

#[test]
fn test_decode_get_capability() {
    let mut bytes = [0u8; COMMAND_LEN];
    bytes[0] = u8::from(CommandType::GetCapability);

    let (get_capability, consumed): (Command, usize) = Command::decode(&bytes).unwrap();
    assert_eq!(consumed, bytes.len());
    assert_eq!(get_capability, Command::GetCapability);
}

#[test]
fn every_ppm_command_round_trips() {
    let commands = [
        Command::PpmReset,
        Command::Cancel,
        Command::AckCcCi(ack_cc_ci::Args::default()),
        Command::AckCcCi(ack_cc_ci::Args { ack: ack_cc_ci::Ack::from(0xff) }),
        Command::SetNotificationEnable(set_notification_enable::Args::default()),
        Command::SetNotificationEnable(set_notification_enable::Args {
            notification_enable: set_notification_enable::NotificationEnable::from(0xffff_ffff),
        }),
        Command::GetCapability,
    ];
    for command in commands {
        let mut out = Vec::new();
        command.encode(&mut out);
        assert_eq!(out.len(), COMMAND_LEN - 2);
        let header = CommandHeader::new(command.command_type(), 0);
        assert_eq!(Command::decode_with(header, &out), Ok((command, COMMAND_LEN - 2)));
        let mut mailbox = Vec::new();
        header.encode(&mut mailbox);
        mailbox.extend_from_slice(&out);
        assert_eq!(Command::decode(&mailbox), Ok((command, COMMAND_LEN)));
    }
}

#[test]
fn commands_that_are_not_for_the_ppm_are_rejected() {
    let mut bytes = [0u8; COMMAND_LEN];
    bytes[0] = u8::from(CommandType::GetPdos);
    assert_eq!(
        Command::decode(&bytes),
        Err(DecodeError::UnexpectedVariant { allowed: Allowed::PpmCommand, found: 0x10 })
    );
    assert!(!Allowed::PpmCommand.allows(0x10));
    assert!(Allowed::PpmCommand.allows(0x05));
}

#[test]
fn short_ppm_commands_miss_bytes() {
    let full = [u8::from(CommandType::AckCcCi), 0, 1, 0, 0, 0, 0, 0];
    let missing = [2usize, 1, 1, 5, 4, 3, 2, 1];
    for len in 0..COMMAND_LEN {
        assert_eq!(
            Command::decode(&full[..len]),
            Err(DecodeError::UnexpectedEnd { additional: missing[len] })
        );
    }
    let full = [u8::from(CommandType::Cancel), 0, 0, 0, 0, 0, 0, 0];
    for len in 2..COMMAND_LEN {
        assert_eq!(
            Command::decode(&full[..len]),
            Err(DecodeError::UnexpectedEnd { additional: COMMAND_LEN - len })
        );
    }
}

#[test]
fn ack_flags() {
    let mut ack = ack_cc_ci::Ack::default();
    assert!(!ack.connector_change());
    assert!(!ack.command_complete());
    ack.set_command_complete(true);
    assert!(ack.command_complete());
    assert!(!ack.connector_change());
    ack.set_connector_change(true).set_command_complete(false);
    assert!(ack.connector_change());
    assert!(!ack.command_complete());
    assert_eq!(ack, ack_cc_ci::Ack::from(0x1));
}

#[test]
fn notification_sets() {
    let mut a = NotificationEnable::default();
    assert!(a.is_empty());
    a.set_cmd_complete(true).set_error(true);
    assert_eq!(u32::from(a), 0x8001);
    let mut b = NotificationEnable::default();
    b.set_error(true).set_sink_path_change(true);
    assert_eq!(u32::from(b), 0x1_8000);
    assert_eq!(u32::from(a.union(&b)), 0x1_8001);
    assert_eq!(u32::from(a.intersection(&b)), 0x8000);
    assert!(a.intersection(&NotificationEnable::default()).is_empty());
    let all = NotificationEnable::from(0x1_ffff);
    assert!(all.cmd_complete() && all.external_supply_change() && all.power_op_mode_change());
    assert!(all.attention() && all.fw_update_req() && all.provider_caps_change());
    assert!(all.power_lvl_change() && all.pd_reset_complete() && all.cam_change());
    assert!(all.battery_charge_change() && all.security_req() && all.connector_partner_change());
    assert!(all.power_dir_change() && all.set_retimer_mode() && all.connect_change());
    assert!(all.error() && all.sink_path_change());
    let mut one = NotificationEnable::default();
    one.set_set_retimer_mode(true);
    assert_eq!(u32::from(one), 1 << 13);
}
