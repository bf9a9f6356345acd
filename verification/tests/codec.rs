use imu_pipeline::codec::{decode, encode, DecodeError};
use imu_pipeline::sample::ImuData;

fn sample(
    acc: (f32, f32, f32),
    ts_acc: u32,
    gyro: (i32, i32, i32),
    ts_gyro: u32,
    mag: (f32, f32, f32),
    ts_mag: u32,
) -> ImuData {
    ImuData {
        x_acc: acc.0.to_bits(),
        y_acc: acc.1.to_bits(),
        z_acc: acc.2.to_bits(),
        timestamp_acc: ts_acc,
        x_gyro: gyro.0,
        y_gyro: gyro.1,
        z_gyro: gyro.2,
        timestamp_gyro: ts_gyro,
        x_mag: mag.0.to_bits(),
        y_mag: mag.1.to_bits(),
        z_mag: mag.2.to_bits(),
        timestamp_mag: ts_mag,
    }
}

#[test]
fn round_trip_typical_sample() {
    let d = sample(
        (1.0, 2.0, 3.0),
        100,
        (1, 2, 3),
        100,
        (0.01, 0.02, 0.03),
        100,
    );
    assert_eq!(decode(&encode(&d)), Ok(d));
}

#[test]
fn round_trip_zero_sample() {
    let d = ImuData::default();
    let bytes = encode(&d);
    assert!(bytes.is_empty());
    assert_eq!(decode(&bytes), Ok(d));
}

#[test]
fn round_trip_negative_gyro() {
    let d = sample(
        (-300.0, 0.0, 980.0),
        7,
        (-1, -2000, i32::MIN),
        8,
        (-400.0, 400.0, 0.0),
        9,
    );
    assert_eq!(decode(&encode(&d)), Ok(d));
}

#[test]
fn round_trip_extreme_values() {
    let d = ImuData {
        x_acc: u32::MAX,
        y_acc: 1,
        z_acc: f32::NAN.to_bits(),
        timestamp_acc: u32::MAX,
        x_gyro: i32::MAX,
        y_gyro: i32::MIN,
        z_gyro: -1,
        timestamp_gyro: u32::MAX - 1,
        x_mag: (-0.0f32).to_bits(),
        y_mag: f32::INFINITY.to_bits(),
        z_mag: f32::NEG_INFINITY.to_bits(),
        timestamp_mag: 1,
    };
    assert_eq!(decode(&encode(&d)), Ok(d));
}

#[test]
fn encoded_bytes_are_exact() {
    // One binary32 field: tag (1 << 3 | 5), then 1.0 little endian.
    let mut d = ImuData::default();
    d.x_acc = 1.0f32.to_bits();
    assert_eq!(encode(&d), vec![0x0D, 0x00, 0x00, 0x80, 0x3F]);

    // One varint field: tag (4 << 3), then 300 as a two-byte varint.
    let mut d = ImuData::default();
    d.timestamp_acc = 300;
    assert_eq!(encode(&d), vec![0x20, 0xAC, 0x02]);

    // A negative gyro axis sign-extends to a ten-byte varint.
    let mut d = ImuData::default();
    d.x_gyro = -1;
    assert_eq!(
        encode(&d),
        vec![0x28, 0xFF, 0xFF, 0xFF, 0xFF, 0xFF, 0xFF, 0xFF, 0xFF, 0xFF, 0x01]
    );
}

#[test]
fn fields_in_any_order_decode() {
    // timestamp_acc = 5 then x_acc = 1.0, out of the encoder's order.
    let bytes = vec![0x20, 0x05, 0x0D, 0x00, 0x00, 0x80, 0x3F];
    let got = decode(&bytes).unwrap();
    assert_eq!(got.timestamp_acc, 5);
    assert_eq!(got.x_acc, 1.0f32.to_bits());
}

#[test]
fn later_field_wins() {
    // x_gyro = 1 then x_gyro = 2: the last value stands.
    let bytes = vec![0x28, 0x01, 0x28, 0x02];
    assert_eq!(decode(&bytes).unwrap().x_gyro, 2);
}

#[test]
fn garbage_text_is_rejected() {
    assert!(decode(b"this is not protobuf data").is_err());
}

#[test]
fn truncated_fixed32_is_rejected() {
    // A binary32 field tag with only two of its four bytes.
    assert_eq!(
        decode(&[0x0D, 0x00, 0x00]),
        Err(DecodeError::Truncated)
    );
}

#[test]
fn truncated_varint_is_rejected() {
    // A continuation byte with nothing after it.
    assert_eq!(decode(&[0x20, 0x80]), Err(DecodeError::Truncated));
}

#[test]
fn overlong_varint_is_rejected() {
    // Eleven continuation bytes never terminate within the ten-byte bound.
    let mut bytes = vec![0x20];
    bytes.extend([0xFF; 10]);
    bytes.push(0x01);
    assert_eq!(decode(&bytes), Err(DecodeError::BadVarint));
}

#[test]
fn overflowing_varint_is_rejected() {
    // Ten bytes whose tenth holds more than one significant bit.
    let mut bytes = vec![0x20];
    bytes.extend([0xFF; 9]);
    bytes.push(0x7F);
    assert_eq!(decode(&bytes), Err(DecodeError::BadVarint));
}

#[test]
fn unknown_field_is_rejected() {
    // Field number 13 does not exist in this record.
    assert_eq!(decode(&[0x68, 0x01]), Err(DecodeError::BadTag));
    // Field number 0 is never legal.
    assert_eq!(decode(&[0x05]), Err(DecodeError::BadTag));
}

#[test]
fn wrong_wire_type_is_rejected() {
    // Field 1 carries binary32 data, not a varint.
    assert_eq!(decode(&[0x08, 0x01]), Err(DecodeError::BadWireType));
    // Field 4 carries a varint, not binary32 data.
    assert_eq!(
        decode(&[0x25, 0x00, 0x00, 0x80, 0x3F]),
        Err(DecodeError::BadWireType)
    );
}

#[test]
fn uint32_truncates_oversized_varint() {
    // 2^32 + 7 truncates to 7 in a 32-bit field.
    let bytes = vec![0x20, 0x87, 0x80, 0x80, 0x80, 0x10];
    assert_eq!(decode(&bytes).unwrap().timestamp_acc, 7);
}
