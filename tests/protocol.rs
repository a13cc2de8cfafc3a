use neotron_bmc::calculate_crc;
use neotron_bmc::protocol::{
    Error, ProtocolVersion, Receivable, Request, RequestType, Response, ResponseResult, Sendable,
};

#[test]
fn read_request() {
    let req = Request::new_read(false, 0x10, 0x20);
    let bytes = req.as_bytes();
    assert_eq!(bytes, [0xC0, 0x10, 0x20, 0x3A]);
    let decoded_req = Request::from_bytes(&bytes).unwrap();
    assert_eq!(req, decoded_req);
}

#[test]
fn read_request_alt() {
    let req = Request::new_read(true, 0x10, 0x20);
    let bytes = req.as_bytes();
    assert_eq!(bytes, [0xC1, 0x10, 0x20, 0x51]);
    let decoded_req = Request::from_bytes(&bytes).unwrap();
    assert_eq!(req, decoded_req);
}

#[test]
fn short_write_request() {
    let req = Request::new_short_write(false, 0x11, 0x22);
    let bytes = req.as_bytes();
    assert_eq!(bytes, [0xC2, 0x11, 0x22, 0xF7]);
    let decoded_req = Request::from_bytes(&bytes).unwrap();
    assert_eq!(req, decoded_req);
}

#[test]
fn short_write_request_alt() {
    let req = Request::new_short_write(true, 0x11, 0x22);
    let bytes = req.as_bytes();
    assert_eq!(bytes, [0xC3, 0x11, 0x22, 0x9C]);
    let decoded_req = Request::from_bytes(&bytes).unwrap();
    assert_eq!(req, decoded_req);
}

#[test]
fn long_write_request() {
    let req = Request::new_long_write(false, 0x0F, 0x50);
    let bytes = req.as_bytes();
    assert_eq!(bytes, [0xC4, 0x0F, 0x50, 0x52]);
    let decoded_req = Request::from_bytes(&bytes).unwrap();
    assert_eq!(req, decoded_req);
}

#[test]
fn long_write_request_alt() {
    let req = Request::new_long_write(true, 0x0F, 0x50);
    let bytes = req.as_bytes();
    assert_eq!(bytes, [0xC5, 0x0F, 0x50, 0x39]);
    let decoded_req = Request::from_bytes(&bytes).unwrap();
    assert_eq!(req, decoded_req);
}

#[test]
fn crc_known_vectors() {
    assert_eq!(calculate_crc(&[0xC0, 0x11, 0x03]), 0xC6);
    assert_eq!(calculate_crc(&[0xA0]), 0x69);
    assert_eq!(calculate_crc(&[0xA0, 0x69]), 0x00);
    assert_eq!(calculate_crc(&[]), 0x00);
}

#[test]
fn crc_round_trip_on_samples() {
    let samples: [&[u8]; 4] = [&[], &[0x00], &[0xFF, 0x01, 0x80], &[0xC4, 0x0F, 0x50, 0x52, 0x99]];
    for data in samples.iter() {
        let mut framed = data.to_vec();
        framed.push(calculate_crc(data));
        assert_eq!(calculate_crc(&framed), 0);
    }
}

#[test]
fn request_from_bytes_doc_example() {
    let bytes = [0xC0, 0x11, 0x03, 0xC6];
    let req = Request::from_bytes(&bytes).unwrap();
    assert_eq!(req.request_type, RequestType::Read);
    assert_eq!(req.register, 0x11);
    assert_eq!(req.length_or_data, 0x03);
}

#[test]
fn request_round_trip_every_constructor() {
    let reqs = [
        Request::new_read(false, 0x00, 0x03),
        Request::new_read(true, 0x01, 0x20),
        Request::new_short_write(false, 0x25, 0x01),
        Request::new_short_write(true, 0x70, 0xFF),
        Request::new_long_write(false, 0x30, 0x40),
        Request::new_long_write(true, 0x60, 0x10),
    ];
    for req in reqs.iter() {
        assert_eq!(Request::from_bytes(&req.as_bytes()), Ok(req.clone()));
    }
}

#[test]
fn request_errors() {
    assert_eq!(Request::from_bytes(&[0xC0, 0x10, 0x20]), Err(Error::BadLength));
    assert_eq!(Request::from_bytes(&[0xC0, 0x10, 0x20, 0x3B]), Err(Error::BadCrc));
    let mut bad_type = [0xB0, 0x10, 0x20, 0x00];
    bad_type[3] = calculate_crc(&bad_type[0..3]);
    assert_eq!(Request::from_bytes(&bad_type), Err(Error::BadRequestType));
    assert_eq!(Request::from_bytes_with_crc(&[0xC0, 0x10, 0x20, 0x3A], 1), Err(Error::BadCrc));
    assert_eq!(
        Request::from_bytes_with_crc(&[0xC0, 0x10, 0x20, 0x3A], 0),
        Ok(Request::new_read(false, 0x10, 0x20))
    );
}

#[test]
fn request_from_longer_buffer_uses_first_four() {
    let bytes = [0xC0, 0x10, 0x20, 0x3A, 0x55, 0x66];
    assert_eq!(Request::from_bytes(&bytes), Ok(Request::new_read(false, 0x10, 0x20)));
}

#[test]
fn request_bit_flips_are_detected() {
    let req = Request::new_short_write(true, 0x11, 0x22);
    let bytes = req.as_bytes();
    for i in 0..4 {
        for j in 0..8 {
            let mut flipped = bytes;
            flipped[i] ^= 1 << j;
            assert_eq!(Request::from_bytes(&flipped), Err(Error::BadCrc));
        }
    }
}

#[test]
fn request_render_to_buffer() {
    let req = Request::new_read(false, 0x10, 0x20);
    let mut buffer = [0xEEu8; 6];
    assert_eq!(req.render_to_buffer(&mut buffer), Ok(4));
    assert_eq!(buffer, [0xC0, 0x10, 0x20, 0x3A, 0xEE, 0xEE]);
    let mut small = [0u8; 3];
    assert_eq!(req.render_to_buffer(&mut small), Err(Error::BufferTooSmall));
    assert_eq!(small, [0, 0, 0]);
}

#[test]
fn response_vectors() {
    let mut buffer = [0u8; 5];

    let rsp = Response::new_ok_with_data(&[]);
    assert_eq!(rsp.render_to_buffer(&mut buffer).unwrap(), 2);
    assert_eq!(&buffer[0..=1], [0xA0, 0x69]);

    let rsp = Response::new_ok_with_data(&[0x00, 0x01]);
    assert_eq!(rsp.render_to_buffer(&mut buffer).unwrap(), 4);
    assert_eq!(&buffer[0..=3], [0xA0, 0x00, 0x01, 0x4F]);

    let rsp = Response::new_without_data(ResponseResult::BadRequestType);
    assert_eq!(rsp.render_to_buffer(&mut buffer).unwrap(), 2);
    assert_eq!(&buffer[0..=1], [0xA2, 0x67]);
}

#[test]
fn response_render_too_small() {
    let rsp = Response::new_ok_with_data(&[1, 2, 3, 4]);
    let mut buffer = [0u8; 5];
    assert_eq!(rsp.render_to_buffer(&mut buffer), Err(Error::BufferTooSmall));
    let mut buffer = [0u8; 6];
    assert_eq!(rsp.render_to_buffer(&mut buffer), Ok(6));
    assert_eq!(buffer[0], 0xA0);
    assert_eq!(&buffer[1..5], [1, 2, 3, 4]);
}

#[test]
fn response_decode() {
    let bytes = [0xA0, 0x00, 0x01, 0x4F];
    let rsp = Response::from_bytes(&bytes).unwrap();
    assert_eq!(rsp.result, ResponseResult::Okay);
    assert_eq!(rsp.data, &[0x00, 0x01]);

    let empty = Response::from_bytes(&[0xA2, 0x67]).unwrap();
    assert_eq!(empty.result, ResponseResult::BadRequestType);
    assert_eq!(empty.data.len(), 0);
}

#[test]
fn response_errors() {
    assert_eq!(Response::from_bytes(&[]).map(|r| r.result), Err(Error::BadLength));
    assert_eq!(Response::from_bytes(&[0xA0]).map(|r| r.result), Err(Error::BadLength));
    assert_eq!(Response::from_bytes(&[0xA0, 0x00, 0x01, 0x4E]).map(|r| r.result), Err(Error::BadCrc));
    let mut bad = [0xB5, 0x00];
    bad[1] = calculate_crc(&bad[0..1]);
    assert_eq!(Response::from_bytes(&bad).map(|r| r.result), Err(Error::BadResponseResult));
    assert_eq!(
        Response::from_bytes_with_crc(&[0xA0, 0x69], 3).map(|r| r.result),
        Err(Error::BadCrc)
    );
}

#[test]
fn response_round_trip_and_bit_flips() {
    let data = [0x12, 0x34, 0x56];
    let rsp = Response::new_ok_with_data(&data);
    let mut buffer = [0u8; 5];
    assert_eq!(rsp.render_to_buffer(&mut buffer), Ok(5));
    let back = Response::from_bytes(&buffer).unwrap();
    assert_eq!(back.result, ResponseResult::Okay);
    assert_eq!(back.data, &data);
    for i in 0..5 {
        for j in 0..8 {
            let mut flipped = buffer;
            flipped[i] ^= 1 << j;
            assert_eq!(Response::from_bytes(&flipped).map(|r| r.result), Err(Error::BadCrc));
        }
    }
}

#[test]
fn request_type_and_result_bytes() {
    assert_eq!(RequestType::LongWriteAlt.as_u8(), 0xC5);
    assert_eq!(RequestType::from_u8(0xC2), Some(RequestType::ShortWrite));
    assert_eq!(RequestType::from_u8(0xC6), None);
    assert_eq!(ResponseResult::BadLength.as_u8(), 0xA4);
    assert_eq!(ResponseResult::from_u8(0xA1), Some(ResponseResult::CrcFailure));
    assert_eq!(ResponseResult::from_u8(0xA5), None);
}

#[test]
fn protocol_version_compatibility() {
    let my_version = ProtocolVersion::new(1, 1, 0);
    assert!(ProtocolVersion::new(1, 1, 1).is_compatible_with(&my_version));
    assert!(!ProtocolVersion::new(1, 0, 0).is_compatible_with(&my_version));
    assert!(!ProtocolVersion::new(2, 0, 0).is_compatible_with(&my_version));
    assert!(!ProtocolVersion::new(0, 1, 0).is_compatible_with(&my_version));
    assert!(ProtocolVersion::new(1, 2, 0).is_compatible_with(&my_version));
    assert!(ProtocolVersion::new(1, 1, 0).is_compatible_with(&my_version));
}

#[test]
fn protocol_version_bytes() {
    let v = ProtocolVersion::new(1, 2, 3);
    assert_eq!(v.as_bytes(), [1, 2, 3]);
    let mut buffer = [9u8; 4];
    assert_eq!(v.render_to_buffer(&mut buffer), Ok(3));
    assert_eq!(buffer, [1, 2, 3, 9]);
    let mut small = [0u8; 2];
    assert_eq!(v.render_to_buffer(&mut small), Err(Error::BufferTooSmall));
}

#[test]
fn response_equality() {
    let a_data = [0x00, 0x01];
    let b_data = [0x00, 0x01];
    let c_data = [0x00, 0x02];
    let a = Response::new_ok_with_data(&a_data);
    let b = Response::new_ok_with_data(&b_data);
    let c = Response::new_ok_with_data(&c_data);
    assert_eq!(a, b);
    assert_ne!(a, c);
    assert_ne!(a, Response::new_ok_with_data(&a_data[0..1]));
    assert_ne!(
        Response::new_without_data(ResponseResult::BadLength),
        Response::new_without_data(ResponseResult::BadRegister)
    );
    let bytes = [0xA0, 0x00, 0x01, 0x4F];
    assert_eq!(Response::from_bytes(&bytes), Ok(a));
}

#[test]
fn request_fields_match_wire() {
    let req = Request::new_long_write(false, 0x0F, 0x50);
    assert_eq!(req.request_type, RequestType::LongWrite);
    assert_eq!(req.register, 0x0F);
    assert_eq!(req.length_or_data, 0x50);
    assert_eq!(req.crc, 0x52);
}
