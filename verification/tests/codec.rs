use tip_settlement::le::{push_u16_le, push_u64_le, read_u16_le, read_u64_le};
use tip_settlement::record::read_address;
use tip_settlement::{Address, TipConfig, TipError, CONFIG_SIZE};

fn sample_record() -> TipConfig {
    TipConfig {
        is_initialized: true,
        admin: Address { bytes: [0xAA; 32] },
        treasury: Address { bytes: [0xBB; 32] },
        fee_bps: 250,
        total_tips: 3,
        total_volume: 0x0102_0304_0506_0708,
    }
}

fn sample_bytes() -> Vec<u8> {
    let mut bytes = vec![1u8];
    bytes.extend_from_slice(&[0xAA; 32]);
    bytes.extend_from_slice(&[0xBB; 32]);
    bytes.extend_from_slice(&[0xFA, 0x00]);
    bytes.extend_from_slice(&[3, 0, 0, 0, 0, 0, 0, 0]);
    bytes.extend_from_slice(&[8, 7, 6, 5, 4, 3, 2, 1]);
    bytes
}

#[test]
fn config_size_is_83() {
    assert_eq!(CONFIG_SIZE, 83);
    assert_eq!(CONFIG_SIZE, 1 + 32 + 32 + 2 + 8 + 8);
}

#[test]
fn encode_has_the_fixed_layout() {
    let bytes = sample_record().encode();
    assert_eq!(bytes.len(), 83);
    assert_eq!(bytes, sample_bytes());
}

#[test]
fn encode_is_what_borsh_writes_field_by_field() {
    let record = sample_record();
    let expected = borsh::to_vec(&(
        record.is_initialized,
        record.admin.bytes,
        record.treasury.bytes,
        record.fee_bps,
        record.total_tips,
        record.total_volume,
    ))
    .unwrap();
    assert_eq!(record.encode(), expected);
}

#[test]
fn encode_twice_gives_the_same_bytes() {
    let record = sample_record();
    assert_eq!(record.encode(), record.encode());
}

#[test]
fn decode_reads_the_fixed_layout() {
    assert_eq!(TipConfig::decode(&sample_bytes()), Ok(sample_record()));
}

#[test]
fn decode_after_encode_gives_the_record_back() {
    let records = [
        sample_record(),
        TipConfig {
            is_initialized: false,
            admin: Address { bytes: [0; 32] },
            treasury: Address { bytes: [0; 32] },
            fee_bps: 0,
            total_tips: 0,
            total_volume: 0,
        },
        TipConfig {
            is_initialized: true,
            admin: Address { bytes: [255; 32] },
            treasury: Address { bytes: [1; 32] },
            fee_bps: u16::MAX,
            total_tips: u64::MAX,
            total_volume: u64::MAX,
        },
        TipConfig {
            is_initialized: true,
            admin: Address { bytes: core::array::from_fn(|i| i as u8) },
            treasury: Address { bytes: core::array::from_fn(|i| 255 - i as u8) },
            fee_bps: 1000,
            total_tips: 1 << 40,
            total_volume: (1 << 63) + 12345,
        },
    ];
    for record in records {
        let bytes = record.encode();
        assert_eq!(TipConfig::decode(&bytes), Ok(record));
    }
}

#[test]
fn encode_after_decode_gives_the_bytes_back() {
    let mut bytes: Vec<u8> = (0..83u32).map(|i| (i * 7 + 3) as u8).collect();
    bytes[0] = 0;
    let record = TipConfig::decode(&bytes).unwrap();
    assert_eq!(record.encode(), bytes);
    assert!(!record.is_initialized);
    assert_eq!(record.fee_bps, u16::from_le_bytes([bytes[65], bytes[66]]));
    assert_eq!(record.total_tips, u64::from_le_bytes(bytes[67..75].try_into().unwrap()));
    assert_eq!(record.total_volume, u64::from_le_bytes(bytes[75..83].try_into().unwrap()));
}

#[test]
fn decode_agrees_with_borsh() {
    let bytes = sample_bytes();
    let fields: (bool, [u8; 32], [u8; 32], u16, u64, u64) = borsh::from_slice(&bytes).unwrap();
    let record = TipConfig::decode(&bytes).unwrap();
    assert_eq!(
        fields,
        (
            record.is_initialized,
            record.admin.bytes,
            record.treasury.bytes,
            record.fee_bps,
            record.total_tips,
            record.total_volume
        )
    );
}

#[test]
fn decode_rejects_an_empty_buffer() {
    assert_eq!(TipConfig::decode(&[]), Err(TipError::DecodeError));
}

#[test]
fn decode_rejects_a_short_buffer() {
    let bytes = sample_bytes();
    assert_eq!(TipConfig::decode(&bytes[..82]), Err(TipError::DecodeError));
    assert!(borsh::from_slice::<(bool, [u8; 32], [u8; 32], u16, u64, u64)>(&bytes[..82]).is_err());
}

#[test]
fn decode_rejects_a_long_buffer() {
    let mut bytes = sample_bytes();
    bytes.push(0);
    assert_eq!(TipConfig::decode(&bytes), Err(TipError::DecodeError));
    assert!(borsh::from_slice::<(bool, [u8; 32], [u8; 32], u16, u64, u64)>(&bytes).is_err());
}

#[test]
fn decode_rejects_a_flag_that_is_not_a_bool() {
    for flag in [2u8, 3, 0x80, 0xFF] {
        let mut bytes = sample_bytes();
        bytes[0] = flag;
        assert_eq!(TipConfig::decode(&bytes), Err(TipError::DecodeError));
        assert!(borsh::from_slice::<(bool, [u8; 32], [u8; 32], u16, u64, u64)>(&bytes).is_err());
    }
}

#[test]
fn decode_accepts_a_rate_above_the_maximum() {
    let mut bytes = sample_bytes();
    bytes[65] = 0xFF;
    bytes[66] = 0xFF;
    assert_eq!(TipConfig::decode(&bytes).unwrap().fee_bps, u16::MAX);
}

#[test]
fn store_fills_data_of_the_exact_size() {
    let mut data = vec![0u8; 83];
    assert_eq!(sample_record().store(&mut data), Ok(()));
    assert_eq!(data, sample_bytes());
}

#[test]
fn store_leaves_the_bytes_after_the_record() {
    let mut data = vec![0x5Au8; 90];
    assert_eq!(sample_record().store(&mut data), Ok(()));
    assert_eq!(&data[..83], &sample_bytes()[..]);
    assert_eq!(&data[83..], &[0x5A; 7]);
}

#[test]
fn store_rejects_data_that_is_too_small() {
    let mut data = vec![7u8; 82];
    assert_eq!(sample_record().store(&mut data), Err(TipError::EncodeError));
    assert_eq!(data, vec![7u8; 82]);
    let mut empty: Vec<u8> = Vec::new();
    assert_eq!(sample_record().store(&mut empty), Err(TipError::EncodeError));
    assert!(empty.is_empty());
}

#[test]
fn push_u16_le_appends_low_byte_first() {
    let mut out = vec![9u8];
    push_u16_le(&mut out, 0x1234);
    assert_eq!(out, vec![9, 0x34, 0x12]);
    push_u16_le(&mut out, 1000);
    assert_eq!(&out[3..], &1000u16.to_le_bytes());
}

#[test]
fn push_u64_le_appends_low_byte_first() {
    let mut out = Vec::new();
    push_u64_le(&mut out, 0x0102_0304_0506_0708);
    assert_eq!(out, vec![8, 7, 6, 5, 4, 3, 2, 1]);
    for x in [0u64, 1, 255, 256, 10_000, u64::MAX, 1 << 63] {
        let mut bytes = Vec::new();
        push_u64_le(&mut bytes, x);
        assert_eq!(bytes, x.to_le_bytes().to_vec());
    }
}

#[test]
fn read_u16_le_reads_at_an_offset() {
    let bytes = [0xFF, 0xE8, 0x03, 0xFF];
    assert_eq!(read_u16_le(&bytes, 1), 1000);
    assert_eq!(read_u16_le(&bytes, 0), 0xE8FF);
    assert_eq!(read_u16_le(&bytes, 2), 0xFF03);
}

#[test]
fn read_u64_le_reads_at_an_offset() {
    let mut bytes = vec![0xEEu8; 3];
    bytes.extend_from_slice(&10_000u64.to_le_bytes());
    bytes.extend_from_slice(&u64::MAX.to_le_bytes());
    assert_eq!(read_u64_le(&bytes, 3), 10_000);
    assert_eq!(read_u64_le(&bytes, 11), u64::MAX);
    assert_eq!(read_u64_le(&[8, 7, 6, 5, 4, 3, 2, 1], 0), 0x0102_0304_0506_0708);
}

#[test]
fn read_address_reads_32_bytes_at_an_offset() {
    let bytes: Vec<u8> = (0..40u8).collect();
    let address = read_address(&bytes, 5);
    let expected: [u8; 32] = core::array::from_fn(|i| i as u8 + 5);
    assert_eq!(address, Address { bytes: expected });
}

#[test]
fn addresses_compare_by_their_bytes() {
    let a = Address { bytes: [1; 32] };
    let mut other = [1u8; 32];
    assert_eq!(a, Address { bytes: other });
    other[31] = 2;
    assert_ne!(a, Address { bytes: other });
    other[31] = 1;
    other[0] = 0;
    assert_ne!(a, Address { bytes: other });
}
