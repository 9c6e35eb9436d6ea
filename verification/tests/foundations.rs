use embedded_usb_pd::bits;
use embedded_usb_pd::bitstring;
use embedded_usb_pd::bitstring::Write;
use embedded_usb_pd::constants;
use embedded_usb_pd::constants::wrappers::Maximum;
use embedded_usb_pd::constants::wrappers::Minimum;
use embedded_usb_pd::constants::wrappers::Nominal;
use embedded_usb_pd::pdo;
use embedded_usb_pd::type_c;
use embedded_usb_pd::ucsi::lpm::connector_reset;
use embedded_usb_pd::ucsi::lpm::set_power_level;
use embedded_usb_pd::ucsi::ppm::get_capability;
use embedded_usb_pd::vdm;
use embedded_usb_pd::wire;
use embedded_usb_pd::wire::DecodeError;
use embedded_usb_pd::wire::EncodeError;
use embedded_usb_pd::DataRole;
use embedded_usb_pd::Error;
use embedded_usb_pd::GlobalPortId;
use embedded_usb_pd::LocalPortId;
use embedded_usb_pd::PdError;
use embedded_usb_pd::PlugOrientation;
use embedded_usb_pd::PowerRole;

#[test]
fn register_fields_and_flags() {
    assert_eq!(bits::get_field(0xABCD_1234, 0, 32), 0xABCD_1234);
    assert_eq!(bits::get_field(0xABCD_1234, 4, 8), 0x23);
    assert_eq!(bits::get_field_u8(0xABCD_1234, 28, 4), 0xA);
    assert_eq!(bits::get_field_u16(0xABCD_1234, 16, 16), 0xABCD);
    assert_eq!(bits::set_field(0xFFFF_FFFF, 8, 8, 0x100), 0xFFFF_00FF);
    assert_eq!(bits::set_field(0, 31, 1, 3), 0x8000_0000);
    assert_eq!(bits::set_field(0x1234, 0, 32, 0xFFFF_FFFF), 0xFFFF_FFFF);
    assert_eq!(bits::set_field_u8(0xFF, 1, 7, 0), 0x01);
    assert_eq!(bits::set_field_u16(0, 2, 14, 0xFFFF), 0xFFFC);
    assert!(bits::get_flag(0x8000_0000, 31));
    assert!(!bits::get_flag(0x7FFF_FFFF, 31));
    assert_eq!(bits::set_flag(0, 5, true), 0x20);
    assert_eq!(bits::set_flag(0xFF, 5, false), 0xDF);
    assert_eq!(bits::set_flag_u8(0x80, 0, true), 0x81);
    assert_eq!(bits::set_flag_u16(0xFFFF, 15, false), 0x7FFF);
}

#[test]
fn a_written_field_is_read_back_and_no_other_changes() {
    let layout = [(0u32, 7u32), (7, 1), (8, 8), (16, 2), (18, 1), (19, 2), (21, 11)];
    for (written, (lsb, width)) in layout.iter().enumerate() {
        for raw in [0u32, 0xFFFF_FFFF, 0x5A5A_A5A5] {
            for value in [0u32, 1, 0x55, 0xFFFF_FFFF] {
                let word = bits::set_field(raw, *lsb, *width, value);
                let mask = if *width == 32 { u32::MAX } else { (1 << width) - 1 };
                for (read, (other_lsb, other_width)) in layout.iter().enumerate() {
                    let expected = if read == written {
                        value & mask
                    } else {
                        bits::get_field(raw, *other_lsb, *other_width)
                    };
                    assert_eq!(bits::get_field(word, *other_lsb, *other_width), expected);
                }
            }
        }
    }
}

#[test]
fn fields_of_a_byte_string_straddle_bytes() {
    let bytes = [0x01u8, 0x80, 0x0B, 0x21, 0x12, 0x34, 0x56, 0x78];
    assert_eq!(bitstring::get_field(&bytes, 0, 16), 0x8001);
    assert_eq!(bitstring::get_field_u16(&bytes, 0, 16), 0x8001);
    assert_eq!(bitstring::get_field_u8(&bytes, 16, 3), 3);
    assert!(bitstring::get_flag(&bytes, 19));
    assert!(!bitstring::get_flag(&bytes, 20));
    assert!(bitstring::get_bit(&bytes, 15));
    assert_eq!(bitstring::get_field(&bytes, 21, 8), 0x08);
    assert_eq!(bitstring::get_field(&bytes, 32, 32), 0x78563412);
    assert_eq!(bitstring::get_field(&bytes, 4, 0), 0);
    let mut bytes = [0u8; 4];
    bitstring::set_field(&mut bytes, 6, 12, 0xFFFF);
    assert_eq!(bytes, [0xC0, 0xFF, 0x03, 0x00]);
    bitstring::set_field(&mut bytes, 10, 4, 0);
    assert_eq!(bytes, [0xC0, 0xC3, 0x03, 0x00]);
    bitstring::set_flag(&mut bytes, 31, true);
    bitstring::set_bit(&mut bytes, 0, true);
    assert_eq!(bytes, [0xC1, 0xC3, 0x03, 0x80]);
    bitstring::set_flag(&mut bytes, 31, false);
    assert_eq!(bytes[3], 0);
}

#[test]
fn the_writes_of_a_layout_are_made_in_order() {
    let mut bytes = [0u8; 3];
    let writes = [
        Write { lsb: 0, width: 4, value: 0xA },
        Write { lsb: 4, width: 9, value: 0x1FF },
        Write { lsb: 20, width: 4, value: 0x15 },
    ];
    bitstring::write_all(&mut bytes, &writes);
    assert_eq!(bytes, [0xFA, 0x1F, 0x50]);
    assert_eq!(bitstring::get_field(&bytes, 4, 9), 0x1FF);
    assert_eq!(bitstring::get_field(&bytes, 20, 4), 5);
}

#[test]
fn integers_on_the_wire_are_little_endian() {
    assert_eq!(wire::read_u8(&[7, 8]), Ok((7, 1)));
    assert_eq!(wire::read_u16(&[0x34, 0x12, 0xFF]), Ok((0x1234, 2)));
    assert_eq!(wire::read_u32(&[0x78, 0x56, 0x34, 0x12]), Ok((0x12345678, 4)));
    assert_eq!(wire::read_u8(&[]), Err(DecodeError::UnexpectedEnd { additional: 1 }));
    assert_eq!(wire::read_u16(&[1]), Err(DecodeError::UnexpectedEnd { additional: 1 }));
    assert_eq!(wire::read_u32(&[1]), Err(DecodeError::UnexpectedEnd { additional: 3 }));
    assert_eq!(wire::read_array::<3>(&[1, 2, 3, 4]), Ok(([1, 2, 3], 3)));
    assert_eq!(wire::read_array::<3>(&[1, 2]), Err(DecodeError::UnexpectedEnd { additional: 1 }));
    assert_eq!(wire::read_padding(&[9, 9, 9], 2), Ok(2));
    assert_eq!(wire::read_padding(&[9], 6), Err(DecodeError::UnexpectedEnd { additional: 5 }));
    assert_eq!(wire::rest(&[1, 2, 3], 1), &[2, 3]);
    let mut out = vec![0xEE];
    wire::write_u8(&mut out, 1);
    wire::write_u16(&mut out, 0x1234);
    wire::write_u32(&mut out, 0x9ABCDEF0);
    wire::write_bytes(&mut out, &[5, 6]);
    wire::write_padding(&mut out, 2);
    assert_eq!(out, vec![0xEE, 1, 0x34, 0x12, 0xF0, 0xDE, 0xBC, 0x9A, 5, 6, 0, 0]);
    let mut buffer = [0xAAu8; 4];
    assert_eq!(wire::copy_to_head(&mut buffer, &[1, 2]), Ok(2));
    assert_eq!(buffer, [1, 2, 0xAA, 0xAA]);
    assert_eq!(wire::copy_to_head(&mut buffer, &[0; 5]), Err(EncodeError::UnexpectedEnd));
    assert_eq!(buffer, [1, 2, 0xAA, 0xAA]);
}

#[test]
fn optional_features_travel_in_three_bytes() {
    let mut features = get_capability::OptionalFeatures::from(0x00AB_CDEF);
    let mut out = Vec::new();
    features.encode(&mut out);
    assert_eq!(out, vec![0xEF, 0xCD, 0xAB]);
    assert_eq!(get_capability::OptionalFeatures::decode(&out), Ok((features, 3)));
    // Bits above the third byte do not travel
    let wide = get_capability::OptionalFeatures::from(0xFF00_0001);
    let mut out = Vec::new();
    wide.encode(&mut out);
    assert_eq!(
        get_capability::OptionalFeatures::decode(&out),
        Ok((get_capability::OptionalFeatures::from(1), 3))
    );
    features.set_set_ccom_supported(false).set_get_pd_msg_supported(true);
    assert!(!features.set_ccom_supported());
    assert!(features.get_pd_msg_supported());
    let mut attributes = get_capability::Attributes::default();
    attributes
        .set_usb_type_c_current(true)
        .set_power_source(*get_capability::PowerSource::default().set_ac_supply(true).set_use_vbus(true));
    assert_eq!(attributes, get_capability::Attributes::from(0x4140));
    assert!(attributes.power_source().ac_supply());
    assert!(!attributes.power_source().other());
    assert!(attributes.power_source().use_vbus());
}

#[test]
fn quantities_in_units() {
    assert_eq!(pdo::scale(100, 50), 5000);
    assert_eq!(pdo::scale(4095, 25), ((4095u32 * 25) % 0x1_0000) as u16);
    assert_eq!(pdo::scale(0, 0), 0);
    assert_eq!(pdo::MA50_UNIT, 50);
    assert_eq!(pdo::MW250_UNIT, 250);
    assert_eq!(type_c::Current::UsbDefault.to_ma(true), 500);
    assert_eq!(type_c::Current::UsbDefault.to_ma(false), 900);
    assert_eq!(type_c::Current::Current1A5.to_ma(true), 1500);
    assert_eq!(type_c::Current::Current3A0.to_ma(false), 3000);
    for (number, current) in [
        (0u8, set_power_level::Current::PpmDefault),
        (1, set_power_level::Current::Current(type_c::Current::Current3A0)),
        (2, set_power_level::Current::Current(type_c::Current::Current1A5)),
        (3, set_power_level::Current::Current(type_c::Current::UsbDefault)),
    ] {
        assert_eq!(set_power_level::Current::try_from(number), Ok(current));
        assert_eq!(u8::from(current), number);
    }
    assert_eq!(set_power_level::Current::try_from(4), Err(set_power_level::InvalidCurrent(4)));
}

#[test]
fn port_identifiers_and_roles() {
    assert_eq!(LocalPortId::from(3), LocalPortId(3));
    assert_eq!(u8::from(LocalPortId(3)), 3);
    assert_eq!(GlobalPortId::from(250), GlobalPortId(250));
    assert_eq!(u8::from(GlobalPortId(250)), 250);
    assert!(PlugOrientation::CC2.flipped());
    assert!(!PlugOrientation::CC1.flipped());
    assert_eq!(PlugOrientation::default(), PlugOrientation::CC1);
    assert_eq!(PowerRole::default(), PowerRole::Sink);
    assert_ne!(DataRole::Ufp, DataRole::Dfp);
    let error: Error<u8> = Error::from(PdError::Busy);
    assert_eq!(error, Error::Pd(PdError::Busy));
    let result: Result<u8, Error<u8>> = PdError::Timeout.into();
    assert_eq!(result, Err(Error::Pd(PdError::Timeout)));
}

#[test]
fn timing_ranges_and_messages() {
    let spr = constants::t_ps_transition_spr_ms();
    assert_eq!((spr.minimum, spr.nominal, spr.maximum), (Minimum(450), Nominal(500), Maximum(550)));
    let epr = constants::t_ps_transition_epr_ms();
    assert_eq!((epr.minimum, epr.nominal, epr.maximum), (Minimum(830), Nominal(925), Maximum(1020)));
    assert!(Minimum(1) < Minimum(2));
    assert_eq!(vdm::MAX_SIZE, 28);
    assert_eq!(vdm::Cmd::DiscId.code(), 1);
    assert_eq!(vdm::Cmd::Attention.code(), 6);
    assert_eq!(vdm::Cmd::SvidCmdStart.code(), 16);
    assert_eq!(connector_reset::COMMAND_PADDING, 5);
    assert_ne!(connector_reset::ResetType::Hard, connector_reset::ResetType::Data);
}
