use bincode::config::standard;
use bincode::error::DecodeError as OutsideDecodeError;
use bitfield::Bit;
use bitfield::BitRange;
use bitfield::BitRangeMut;
use embedded_usb_pd::ado::BatteryStatusChange;
use embedded_usb_pd::bits;
use embedded_usb_pd::wire;
use embedded_usb_pd::wire::DecodeError;

fn words() -> [u32; 8] {
    [0, 1, 0x7f, 0x80, 0x1234_5678, 0x8000_0001, 0xA5A5_5A5A, 0xFFFF_FFFF]
}

#[test]
fn register_reads_agree_with_bitfield() {
    for raw in words() {
        for lsb in 0..32usize {
            for width in 1..=(32 - lsb) {
                let msb = lsb + width - 1;
                let field: u32 = raw.bit_range(msb, lsb);
                assert_eq!(bits::get_field(raw, lsb as u32, width as u32), field);
                if width <= 8 {
                    let narrow: u8 = raw.bit_range(msb, lsb);
                    assert_eq!(bits::get_field_u8(raw, lsb as u32, width as u32), narrow);
                }
                if width <= 16 {
                    let narrow: u16 = raw.bit_range(msb, lsb);
                    assert_eq!(bits::get_field_u16(raw, lsb as u32, width as u32), narrow);
                }
            }
            assert_eq!(bits::get_flag(raw, lsb as u32), raw.bit(lsb));
        }
    }
}

#[test]
fn register_writes_agree_with_bitfield() {
    for raw in words() {
        for value in words() {
            for lsb in 0..32usize {
                for width in 1..=(32 - lsb) {
                    let msb = lsb + width - 1;
                    let mut expected = raw;
                    expected.set_bit_range(msb, lsb, value);
                    assert_eq!(bits::set_field(raw, lsb as u32, width as u32, value), expected);
                }
            }
        }
        for index in 0..32usize {
            for on in [false, true] {
                let mut expected = raw;
                expected.set_bit_range(index, index, on as u8);
                assert_eq!(bits::set_flag(raw, index as u32, on), expected);
            }
        }
    }
    for raw in [0u16, 0x8001, 0xFFFF, 0x1234] {
        for value in [0u16, 1, 0x3fff, 0xFFFF] {
            for (lsb, width) in [(0usize, 7usize), (2, 14), (8, 8), (15, 1)] {
                let mut expected = raw;
                expected.set_bit_range(lsb + width - 1, lsb, value);
                assert_eq!(
                    bits::set_field_u16(raw, lsb as u32, width as u32, value as u32),
                    expected
                );
            }
        }
    }
    for raw in [0u8, 0x81, 0xFF, 0x5A] {
        for value in [0u8, 1, 0x7f, 0xFF] {
            for (lsb, width) in [(0usize, 7usize), (4, 4), (7, 1), (0, 8)] {
                let mut expected = raw;
                expected.set_bit_range(lsb + width - 1, lsb, value);
                assert_eq!(bits::set_field_u8(raw, lsb as u32, width as u32, value as u32), expected);
            }
        }
    }
}

#[test]
fn battery_flags_agree_with_bitfield() {
    for raw in 0..=255u8 {
        let change = BatteryStatusChange(raw);
        for index in 0..4usize {
            assert_eq!(change.fixed_battery_status_change(index), Ok((raw >> 4).bit(index)));
            assert_eq!(change.hot_swappable_battery_status(index), Ok((raw & 0x0f).bit(index)));
        }
    }
}

fn missing(error: OutsideDecodeError) -> DecodeError {
    match error {
        OutsideDecodeError::UnexpectedEnd { additional } => DecodeError::UnexpectedEnd { additional },
        other => panic!("{:?}", other),
    }
}

#[test]
fn integers_are_read_as_bincode_reads_them() {
    let config = standard().with_fixed_int_encoding();
    let bytes = [0x78u8, 0x56, 0x34, 0x12, 0xF0, 0xDE];
    for len in 0..=bytes.len() {
        let input = &bytes[..len];
        assert_eq!(
            wire::read_u8(input),
            bincode::decode_from_slice::<u8, _>(input, config).map_err(missing)
        );
        assert_eq!(
            wire::read_u16(input),
            bincode::decode_from_slice::<u16, _>(input, config).map_err(missing)
        );
        assert_eq!(
            wire::read_u32(input),
            bincode::decode_from_slice::<u32, _>(input, config).map_err(missing)
        );
        assert_eq!(
            wire::read_array::<5>(input),
            bincode::decode_from_slice::<[u8; 5], _>(input, config).map_err(missing)
        );
        assert_eq!(
            wire::read_padding(input, 5),
            bincode::decode_from_slice::<[u8; 5], _>(input, config).map(|read| read.1).map_err(missing)
        );
    }
}

#[test]
fn integers_are_written_as_bincode_writes_them() {
    let config = standard().with_fixed_int_encoding();
    for value in words() {
        let mut expected = [0u8; 8];
        let mut out = Vec::new();
        wire::write_u32(&mut out, value);
        let len = bincode::encode_into_slice(value, &mut expected, config).unwrap();
        assert_eq!(out, expected[..len]);

        let mut out = Vec::new();
        wire::write_u16(&mut out, value as u16);
        let len = bincode::encode_into_slice(value as u16, &mut expected, config).unwrap();
        assert_eq!(out, expected[..len]);

        let mut out = Vec::new();
        wire::write_u8(&mut out, value as u8);
        let len = bincode::encode_into_slice(value as u8, &mut expected, config).unwrap();
        assert_eq!(out, expected[..len]);

        let array = value.to_be_bytes();
        let mut out = Vec::new();
        wire::write_bytes(&mut out, &array);
        let len = bincode::encode_into_slice(array, &mut expected, config).unwrap();
        assert_eq!(out, expected[..len]);
    }
    let mut expected = [0xFFu8; 8];
    let mut out = Vec::new();
    wire::write_padding(&mut out, 6);
    let len = bincode::encode_into_slice([0u8; 6], &mut expected, config).unwrap();
    assert_eq!(out, expected[..len]);
}
