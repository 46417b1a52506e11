use bytes::BytesMut;
use sofar::codec::{read_header, SofarCodec};
use sofar::messages::{
    Data, DecodeError, Heartbeat, IncomingMessageData, ServerResponse, SofarMessage,
    SofarMessageType,
};
use sofar::wire::{calc_checksum, divide_i16_by, divide_u16_by, divide_u32_by, parse_string};

const HEARTBEAT: [u8; 14] = [165, 1, 0, 16, 71, 31, 32, 79, 172, 254, 103, 0, 247, 21];

fn data_frame() -> Vec<u8> {
    vec![
        165, 151, 0, 16, 66, 4, 5, 79, 172, 254, 103, 1, 1, 39, 72, 125, 14, 0, 128, 0, 0, 0,
        69, 170, 88, 100, 1, 0, 40, 13, 0, 0, 83, 70, 52, 69, 83, 48, 48, 51, 77, 52, 67, 48,
        53, 56, 32, 32, 104, 1, 122, 11, 213, 2, 12, 0, 0, 0, 9, 0, 10, 0, 9, 0, 195, 8, 216,
        8, 201, 8, 135, 19, 54, 1, 0, 0, 69, 0, 0, 0, 174, 126, 0, 0, 220, 24, 0, 0, 2, 0, 0,
        0, 0, 0, 0, 0, 0, 0, 0, 0, 0, 0, 0, 0, 86, 50, 56, 48, 86, 49, 48, 48, 21, 0, 4, 24,
        100, 11, 193, 2, 60, 0, 1, 0, 40, 5, 87, 6, 33, 5, 7, 0, 0, 0, 0, 0, 6, 0, 226, 3, 227,
        3, 227, 3, 86, 50, 56, 48, 86, 50, 56, 48, 23, 5, 19, 9, 36, 49, 37, 0, 0, 0, 96, 21,
    ]
}

/// Builds a frame with a correct checksum around `body`.
fn frame(code: u16, n1: u8, n2: u8, serial: u32, body: &[u8]) -> Vec<u8> {
    let mut f = vec![165];
    f.extend_from_slice(&(body.len() as u16).to_le_bytes());
    f.extend_from_slice(&code.to_le_bytes());
    f.push(n1);
    f.push(n2);
    f.extend_from_slice(&serial.to_le_bytes());
    f.extend_from_slice(body);
    let sum = f[1..].iter().fold(0u8, |a, b| a.wrapping_add(*b));
    f.push(sum);
    f.push(21);
    f
}

#[test]
fn hello_message() {
    let mut message_bytes = BytesMut::from_iter(vec![
        165, 86, 0, 16, 65, 3, 4, 79, 172, 254, 103, 2, 71, 125, 14, 0, 127, 0, 0, 0, 0, 0, 0,
        0, 5, 60, 120, 2, 25, 1, 76, 83, 87, 51, 95, 49, 52, 95, 70, 70, 70, 70, 95, 49, 46,
        48, 46, 51, 52, 0, 0, 0, 0, 0, 0, 0, 0, 0, 0, 0, 0, 0, 0, 0, 0, 0, 0, 0, 0, 0, 52, 234,
        231, 44, 60, 22, 49, 48, 46, 48, 46, 48, 46, 54, 52, 0, 0, 0, 0, 0, 0, 0, 1, 0, 1, 1,
        39, 127, 21,
    ]);
    let expected_response_bytes = BytesMut::from_iter(vec![
        165, 10, 0, 16, 17, 4, 4, 79, 172, 254, 103, 2, 1, 140, 39, 103, 100, 120, 0, 0, 0,
        140, 21,
    ]);

    let mut codec = SofarCodec::default();
    let message = codec.decode(&mut message_bytes).unwrap().unwrap();

    assert!(matches!(message.data, IncomingMessageData::Hello { .. }));

    let mut response_bytes = BytesMut::new();
    let response_message = SofarMessage::from_incoming_message(&message, 1684481932);
    codec.encode(response_message, &mut response_bytes);

    assert_eq!(response_bytes, expected_response_bytes);
}

#[test]
fn hello_end_message() {
    let mut message_bytes = BytesMut::from_iter(vec![
        165, 60, 0, 16, 72, 9, 13, 79, 172, 254, 103, 1, 194, 133, 14, 0, 139, 0, 0, 0, 110,
        170, 88, 100, 1, 5, 44, 255, 255, 255, 255, 255, 255, 255, 255, 255, 255, 255, 255,
        255, 255, 255, 255, 255, 255, 255, 255, 255, 255, 255, 255, 255, 255, 255, 255, 255,
        255, 255, 255, 255, 255, 255, 255, 255, 255, 255, 255, 255, 255, 255, 255, 197, 21,
    ]);
    let expected_response_bytes = BytesMut::from_iter(vec![
        165, 10, 0, 16, 24, 10, 13, 79, 172, 254, 103, 1, 1, 48, 48, 103, 100, 120, 0, 0, 0,
        78, 21,
    ]);

    let mut codec = SofarCodec::default();
    let message = codec.decode(&mut message_bytes).unwrap().unwrap();

    assert!(matches!(message.data, IncomingMessageData::HelloCd { .. }));

    let mut response_bytes = BytesMut::new();
    let response_message = SofarMessage::from_incoming_message(&message, 1684484144);
    codec.encode(response_message, &mut response_bytes);

    assert_eq!(response_bytes, expected_response_bytes);
}

#[test]
fn data_message() {
    let mut message_bytes = BytesMut::from_iter(data_frame());
    let expected_response_bytes = BytesMut::from_iter(vec![
        165, 10, 0, 16, 18, 5, 5, 79, 172, 254, 103, 1, 1, 141, 39, 103, 100, 120, 0, 0, 0,
        143, 21,
    ]);

    let mut codec = SofarCodec::default();
    let message = codec.decode(&mut message_bytes).unwrap().unwrap();

    assert!(matches!(message.data, IncomingMessageData::Data { .. }));

    let mut response_bytes = BytesMut::new();
    let response_message = SofarMessage::from_incoming_message(&message, 1684481933);
    codec.encode(response_message, &mut response_bytes);

    assert_eq!(response_bytes, expected_response_bytes);
}

#[test]
fn heartbeat_message() {
    let mut message_bytes = BytesMut::from_iter(HEARTBEAT.to_vec());
    let expected_response_bytes = BytesMut::from_iter(vec![
        165, 10, 0, 16, 23, 32, 32, 79, 172, 254, 103, 0, 1, 141, 39, 103, 100, 120, 0, 0, 0,
        201, 21,
    ]);

    let mut codec = SofarCodec::default();
    let message = codec.decode(&mut message_bytes).unwrap().unwrap();

    assert!(matches!(message.data, IncomingMessageData::Heartbeat { .. }));

    let mut response_bytes = BytesMut::new();
    let response_message = SofarMessage::from_incoming_message(&message, 1684481933);
    codec.encode(response_message, &mut response_bytes);

    assert_eq!(response_bytes, expected_response_bytes);
}

#[test]
fn heartbeat_vector_fields() {
    let mut buf = BytesMut::from_iter(HEARTBEAT.to_vec());
    let message = SofarCodec::default().decode(&mut buf).unwrap().unwrap();
    assert_eq!(message.message_type, SofarMessageType::Heartbeat);
    assert_eq!(message.message_number, 31);
    assert_eq!(message.message_number_2, 32);
    assert_eq!(message.data_logger_sn, 0x67FE_AC4F);
    match message.data {
        IncomingMessageData::Heartbeat(h) => assert_eq!(h, Heartbeat { _unknown: 0 }),
        _ => panic!("not a heartbeat"),
    }
    assert!(buf.is_empty());
}

#[test]
fn data_fields_at_their_offsets() {
    let mut buf = BytesMut::from_iter(data_frame());
    let message = SofarCodec::default().decode(&mut buf).unwrap().unwrap();
    let d: Data = match message.data {
        IncomingMessageData::Data(d) => d,
        _ => panic!("not a data message"),
    };
    assert_eq!(d._unknown1, 1);
    assert_eq!(d.timestamp, 1683532357);
    assert_eq!(d.inverter_serial_number, "SF4ES003M4C058  ");
    assert_eq!(d.inverter_temperature.raw, 360);
    assert_eq!(d.inverter_temperature.divisor, 10);
    assert_eq!(d.vdc_1.raw, 2938);
    assert_eq!(d.vdc_2.raw, 725);
    assert_eq!(d.iac_1.raw, 9);
    assert_eq!(d.vac_1.raw, 2243);
    assert_eq!(d.fac.raw, 4999);
    assert_eq!(d.fac.divisor, 100);
    assert_eq!(d.current_power, 310);
    assert_eq!(d.daily_energy.raw, 69);
    assert_eq!(d.daily_energy.divisor, 100);
    assert_eq!(d.total_energy.raw, 32430);
    assert_eq!(d.total_energy.divisor, 10);
    assert_eq!(d.total_time, 6364);
    assert_eq!(d.inverter_status, 2);
    assert_eq!(d.inverter_firmware, "V280");
    assert_eq!(d.hardware_version, "V100");
    assert_eq!(d.logger_temperature, 21);
    assert_eq!(d.country_code, 7);
    assert_eq!(d.main_inverter_firmware, "V280");
    assert_eq!(d.slave_inverter_firmware, "V280");
    assert_eq!(
        (d.year, d.month, d.day, d.hour, d.minute, d.second),
        (23, 5, 19, 9, 36, 49)
    );
}

#[test]
fn hello_text_and_address() {
    let body: Vec<u8> = {
        let mut b = vec![2, 71, 125, 14, 0, 127, 0, 0, 0, 0, 0, 0, 0, 5, 60, 120, 2, 25, 1];
        let mut module = b"LSW3_14_FFFF_1.0.34".to_vec();
        module.resize(40, 0);
        b.extend(module);
        b.extend([52, 234, 231, 44, 60, 22]);
        let mut ip = b"10.0.0.64".to_vec();
        ip.resize(16, 0);
        b.extend(ip);
        b.extend([1, 0, 1, 1, 39]);
        b
    };
    let mut buf = BytesMut::from_iter(frame(0x4110, 3, 4, 1742902351, &body));
    let message = SofarCodec::default().decode(&mut buf).unwrap().unwrap();
    match message.data {
        IncomingMessageData::Hello(h) => {
            assert_eq!(h.one, 2);
            assert_eq!(h.module_version.trim_matches(char::from(0)), "LSW3_14_FFFF_1.0.34");
            assert_eq!(h.module_version.len(), 40);
            assert_eq!(h.sta_mac_address, [52, 234, 231, 44, 60, 22]);
            assert_eq!(h.local_ip_address.trim_matches(char::from(0)), "10.0.0.64");
            assert_eq!(h.sensor_type_list, 39);
        }
        _ => panic!("not a hello message"),
    }
}

#[test]
fn response_header_round_trip() {
    let mut buf = BytesMut::from_iter(HEARTBEAT.to_vec());
    let mut codec = SofarCodec::default();
    let message = codec.decode(&mut buf).unwrap().unwrap();
    let reply = SofarMessage::from_incoming_message(&message, 1684481933);
    let bytes = SofarCodec::encode_frame(&reply);
    let header = read_header(&bytes).unwrap();
    assert_eq!(header.body_length, 10);
    assert_eq!(bytes.len(), 13 + header.body_length as usize);
    assert_eq!(header.message_type, 0x1710);
    assert_eq!(header.message_number, 32);
    assert_eq!(header.message_number_2, 32);
    assert_eq!(header.data_logger_sn, message.data_logger_sn);
    assert_eq!(calc_checksum(&bytes[1..bytes.len() - 2]), bytes[bytes.len() - 2]);
}

#[test]
fn split_delivery_gives_the_same_message() {
    let whole = data_frame();
    let mut codec = SofarCodec::default();
    let mut one = BytesMut::from_iter(whole.clone());
    let expected = codec.decode(&mut one).unwrap().unwrap();
    for k in 0..whole.len() {
        let mut buf = BytesMut::from_iter(whole[..k].to_vec());
        assert!(codec.decode(&mut buf).unwrap().is_none());
        assert_eq!(&buf[..], &whole[..k]);
        buf.extend_from_slice(&whole[k..]);
        let got = codec.decode(&mut buf).unwrap().unwrap();
        assert!(buf.is_empty());
        assert_eq!(got.message_type, expected.message_type);
        assert_eq!(got.message_number, expected.message_number);
        assert_eq!(got.data_logger_sn, expected.data_logger_sn);
        match (&got.data, &expected.data) {
            (IncomingMessageData::Data(a), IncomingMessageData::Data(b)) => {
                assert_eq!(a.inverter_serial_number, b.inverter_serial_number);
                assert_eq!(a.vdc_1, b.vdc_1);
                assert_eq!(a.total_energy, b.total_energy);
            }
            _ => panic!("not a data message"),
        }
    }
}

#[test]
fn coalesced_frames_decode_in_turn() {
    let mut stream = data_frame();
    stream.extend_from_slice(&HEARTBEAT);
    let mut buf = BytesMut::from_iter(stream);
    let mut codec = SofarCodec::default();
    let first = codec.decode(&mut buf).unwrap().unwrap();
    assert_eq!(first.message_type, SofarMessageType::Data);
    assert_eq!(&buf[..], &HEARTBEAT[..]);
    let second = codec.decode(&mut buf).unwrap().unwrap();
    assert_eq!(second.message_type, SofarMessageType::Heartbeat);
    assert!(codec.decode(&mut buf).unwrap().is_none());
}

#[test]
fn any_body_bit_flip_is_a_checksum_mismatch() {
    let whole = data_frame();
    let end = whole.len() - 2;
    let mut codec = SofarCodec::default();
    for j in 11..end {
        for bit in 0..8 {
            let mut flipped = whole.clone();
            flipped[j] ^= 1 << bit;
            let mut buf = BytesMut::from_iter(flipped);
            assert_eq!(
                codec.decode(&mut buf).unwrap_err(),
                DecodeError::ChecksumMismatch(whole[end])
            );
            assert!(buf.is_empty());
        }
    }
}

#[test]
fn unknown_type_is_rejected_and_stream_resumes() {
    let mut stream = frame(0x9999, 1, 2, 7, &[1, 2, 3]);
    stream.extend_from_slice(&HEARTBEAT);
    let mut buf = BytesMut::from_iter(stream);
    let mut codec = SofarCodec::default();
    assert_eq!(
        codec.decode(&mut buf).unwrap_err(),
        DecodeError::UnknownMessageType(0x9999)
    );
    assert_eq!(&buf[..], &HEARTBEAT[..]);
    let next = codec.decode(&mut buf).unwrap().unwrap();
    assert_eq!(next.message_type, SofarMessageType::Heartbeat);
}

#[test]
fn response_codes_are_rejected_as_requests() {
    for code in [0x1710u16, 0x1210, 0x1110, 0x1810, 0x1310] {
        let mut buf = BytesMut::from_iter(frame(code, 0, 0, 0, &[0; 10]));
        assert_eq!(
            SofarCodec::default().decode(&mut buf).unwrap_err(),
            DecodeError::UnknownMessageType(code)
        );
    }
}

#[test]
fn short_input_waits_for_more() {
    let mut codec = SofarCodec::default();
    let mut empty = BytesMut::new();
    assert!(codec.decode(&mut empty).unwrap().is_none());
    let mut ten = BytesMut::from_iter(HEARTBEAT[..10].to_vec());
    assert!(codec.decode(&mut ten).unwrap().is_none());
    assert_eq!(ten.len(), 10);
    // a header announcing the largest body is kept whole while waiting
    let mut big = BytesMut::from_iter(vec![165, 255, 255, 16, 71, 0, 0, 0, 0, 0, 0, 1, 2]);
    assert!(codec.decode(&mut big).unwrap().is_none());
    assert_eq!(big.len(), 13);
    assert!(big.capacity() >= 13 + 65535);
}

#[test]
fn empty_body_frame() {
    let mut buf = BytesMut::from_iter(frame(0x4710, 1, 1, 1, &[]));
    assert_eq!(
        SofarCodec::default().decode(&mut buf).unwrap_err(),
        DecodeError::BodyTooShort
    );
    assert!(buf.is_empty());
}

#[test]
fn body_shorter_than_schema() {
    let mut buf = BytesMut::from_iter(frame(0x4210, 1, 1, 1, &[0; 150]));
    assert_eq!(
        SofarCodec::default().decode(&mut buf).unwrap_err(),
        DecodeError::BodyTooShort
    );
    assert!(buf.is_empty());
}

#[test]
fn invalid_text_is_a_schema_failure() {
    let mut f = data_frame();
    f[11 + 21] = 0xFF;
    let end = f.len() - 2;
    f[end] = f[1..end].iter().fold(0u8, |a, b| a.wrapping_add(*b));
    let mut buf = BytesMut::from_iter(f);
    assert_eq!(
        SofarCodec::default().decode(&mut buf).unwrap_err(),
        DecodeError::InvalidText
    );
}

#[test]
fn trailing_body_bytes_are_skipped() {
    let mut stream = frame(0x4710, 5, 6, 9, &[7, 1, 2, 3]);
    stream.extend_from_slice(&HEARTBEAT);
    let mut buf = BytesMut::from_iter(stream);
    let mut codec = SofarCodec::default();
    let first = codec.decode(&mut buf).unwrap().unwrap();
    match first.data {
        IncomingMessageData::Heartbeat(h) => assert_eq!(h._unknown, 7),
        _ => panic!("not a heartbeat"),
    }
    assert_eq!(&buf[..], &HEARTBEAT[..]);
}

#[test]
fn end_byte_value_is_tolerated() {
    let mut f = HEARTBEAT.to_vec();
    f[13] = 0;
    let mut buf = BytesMut::from_iter(f);
    assert!(SofarCodec::default().decode(&mut buf).unwrap().is_some());
}

#[test]
fn sequence_number_wraps() {
    let mut buf = BytesMut::from_iter(frame(0x4710, 255, 9, 1, &[4]));
    let message = SofarCodec::default().decode(&mut buf).unwrap().unwrap();
    let reply = SofarMessage::from_incoming_message(&message, 0);
    assert_eq!(reply.message_number, 0);
    assert_eq!(reply.message_number_2, 9);
}

#[test]
fn checksum_values() {
    assert_eq!(calc_checksum(&[]), 0);
    assert_eq!(calc_checksum(&[1, 2, 3]), 6);
    assert_eq!(calc_checksum(&[200, 100]), 44);
    assert_eq!(calc_checksum(&HEARTBEAT[1..12]), 247);
}

#[test]
fn scaled_readings() {
    let u = divide_u16_by(&1234u16.to_le_bytes(), 0, 10);
    assert_eq!((u.raw, u.divisor), (1234, 10));
    assert_eq!(f32::from(u.raw as u16) / f32::from(u.divisor), 123.4);
    let i = divide_i16_by(&(-50i16).to_le_bytes(), 0, 10);
    assert_eq!((i.raw, i.divisor), (-50, 10));
    assert_eq!(f32::from(i.raw as i16) / f32::from(i.divisor), -5.0);
    let w = divide_u32_by(&4_000_000_000u32.to_le_bytes(), 0, 100);
    assert_eq!(w.raw, 4_000_000_000);
}

#[test]
fn text_fields_keep_padding() {
    assert_eq!(parse_string(b"ab\0\0", 0, 4).unwrap(), "ab\0\0");
    assert_eq!(parse_string(b"xxhi", 2, 2).unwrap(), "hi");
    assert!(parse_string(&[0xC3, 0x28], 0, 2).is_none());
}

#[test]
fn response_body_layout() {
    let r = ServerResponse::new(3, 1684481933);
    let expected = bincode::serialize(&(3u8, 1u8, 1684481933u32, 0x78u16, 0u16)).unwrap();
    assert_eq!(r.to_bytes(), expected);
    assert_eq!(r.to_bytes(), vec![3, 1, 141, 39, 103, 100, 120, 0, 0, 0]);
}

#[test]
fn type_code_table() {
    for (t, req, resp) in [
        (SofarMessageType::Heartbeat, 0x4710, 0x1710),
        (SofarMessageType::Data, 0x4210, 0x1210),
        (SofarMessageType::Hello, 0x4110, 0x1110),
        (SofarMessageType::HelloCd, 0x4810, 0x1810),
        (SofarMessageType::Unknown44, 0x4310, 0x1310),
    ] {
        assert_eq!(SofarMessageType::from_u16(req), Some(t));
        assert_eq!(t.request_code(), req);
        assert_eq!(t.response_code(), resp);
        assert_eq!(SofarMessageType::from_u16(resp), None);
    }
}
