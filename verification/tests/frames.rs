use bq769x0::checksum::crc8_bitwise;
use bq769x0::frame::{
    complete_read_crc, complete_read_plain, decode_read_crc, encode_write_crc,
    encode_write_plain,
};
use bq769x0::Error;

fn framed_response(dev_address: u8, payload: &[u8]) -> Vec<u8> {
    let mut frame = Vec::new();
    for (k, b) in payload.iter().enumerate() {
        frame.push(*b);
        if k == 0 {
            frame.push(crc8_bitwise(&[(dev_address << 1) | 1, *b]));
        } else {
            frame.push(crc8_bitwise(&[*b]));
        }
    }
    frame
}

#[test]
fn bitwise_checksum_has_the_standard_check_value() {
    assert_eq!(crc8_bitwise(b"123456789"), 0xf4);
}

#[test]
fn checksummed_write_matches_known_bytes() {
    let frame = encode_write_crc(0x08, 0x06, &[0x9c, 0x79, 0x50, 0xab, 0x43, 0x19]).unwrap();
    assert_eq!(
        frame,
        vec![0x06, 0x9c, 0x01, 0x79, 0x68, 0x50, 0xb7, 0xab, 0x58, 0x43, 0xce, 0x19, 0x4f]
    );
}

#[test]
fn first_write_checksum_covers_address_and_register() {
    assert_eq!(encode_write_crc(0x18, 0x0a, &[0xaa]).unwrap(), vec![0x0a, 0xaa, 0x3c]);
    assert_eq!(encode_write_crc(0x08, 0x0a, &[0xaa]).unwrap(), vec![0x0a, 0xaa, 0x7f]);
}

#[test]
fn later_write_checksums_cover_one_byte_each() {
    let frame = encode_write_crc(0x18, 0x0a, &[0x00, 0xaa, 0xaa]).unwrap();
    assert_eq!(frame.len(), 7);
    assert_eq!(frame[4], 0x5f);
    assert_eq!(frame[6], 0x5f);
}

#[test]
fn frame_checksums_agree_with_the_bitwise_checksum() {
    for b in 0..=255u8 {
        let frame = encode_write_crc(0x08, 0x32, &[b, b]).unwrap();
        assert_eq!(frame, vec![0x32, b, crc8_bitwise(&[0x10, 0x32, b]), b, crc8_bitwise(&[b])]);
    }
}

#[test]
fn checksum_is_not_the_payload_byte() {
    let frame = encode_write_crc(0x08, 0x00, &[0x01, 0x01]).unwrap();
    assert_ne!(frame[2], 0x01);
    assert_eq!(frame[4], 0x07);
}

#[test]
fn plain_write_is_register_then_payload() {
    assert_eq!(encode_write_plain(0x06, &[1, 2, 3]).unwrap(), vec![0x06, 1, 2, 3]);
    assert_eq!(encode_write_plain(0x06, &[]).unwrap(), vec![0x06]);
}

#[test]
fn eight_bytes_are_the_most_a_write_carries() {
    assert_eq!(encode_write_crc(0x08, 0x00, &[0u8; 8]).unwrap().len(), 17);
    assert_eq!(encode_write_plain(0x00, &[0u8; 8]).unwrap().len(), 9);
    assert_eq!(encode_write_crc(0x08, 0x00, &[0u8; 9]), Err(Error::BufTooLarge));
    assert_eq!(encode_write_plain(0x00, &[0u8; 9]), Err(Error::BufTooLarge));
}

#[test]
fn empty_checksummed_write_is_the_register_alone() {
    assert_eq!(encode_write_crc(0x08, 0x2a, &[]).unwrap(), vec![0x2a]);
}

#[test]
fn well_framed_response_gives_its_payload() {
    assert_eq!(decode_read_crc(0x08, &[0x15, 0x29, 0x2b, 0xd1]), Ok(vec![0x15, 0x2b]));
    assert_eq!(decode_read_crc(0x18, &[0xaa, 0xb3]), Ok(vec![0xaa]));
    assert_eq!(decode_read_crc(0x08, &[0xaa, 0x1d]), Ok(vec![0xaa]));
}

#[test]
fn first_read_checksum_depends_on_the_address() {
    assert_eq!(decode_read_crc(0x08, &[0xaa, 0xb3]), Err(Error::CRCMismatch));
    assert_eq!(decode_read_crc(0x18, &[0xaa, 0x1d]), Err(Error::CRCMismatch));
}

#[test]
fn empty_response_has_empty_payload() {
    assert_eq!(decode_read_crc(0x08, &[]), Ok(vec![]));
}

#[test]
fn response_with_a_byte_left_over_is_rejected() {
    assert_eq!(decode_read_crc(0x08, &[0x15]), Err(Error::CRCMismatch));
    assert_eq!(decode_read_crc(0x08, &[0x15, 0x29, 0x2b]), Err(Error::CRCMismatch));
}

#[test]
fn every_single_byte_corruption_is_rejected() {
    let payload = [0x00u8, 0x15, 0x2b, 0xff, 0x80, 0x01, 0x7e, 0xa3, 0x55, 0xaa];
    let good = framed_response(0x08, &payload);
    assert_eq!(decode_read_crc(0x08, &good), Ok(payload.to_vec()));
    for i in 0..good.len() {
        for flip in 1..=255u8 {
            let mut bad = good.clone();
            bad[i] ^= flip;
            assert_eq!(decode_read_crc(0x08, &bad), Err(Error::CRCMismatch));
        }
    }
}

#[test]
fn framing_and_checking_round_trip_for_all_lengths() {
    let bytes = [0x9cu8, 0x79, 0x50, 0xab, 0x43, 0x19, 0x00, 0xff];
    for n in 0..=bytes.len() {
        let data = &bytes[..n];
        let sent = encode_write_crc(0x18, 0x06, data).unwrap();
        let mut stored = Vec::new();
        let mut k = 1;
        while k < sent.len() {
            stored.push(sent[k]);
            k += 2;
        }
        assert_eq!(stored, data.to_vec());
        let response = framed_response(0x18, &stored);
        assert_eq!(decode_read_crc(0x18, &response), Ok(data.to_vec()));
    }
}

#[test]
fn bitwise_checksum_of_short_inputs() {
    assert_eq!(crc8_bitwise(&[]), 0x00);
    assert_eq!(crc8_bitwise(&[0x00]), 0x00);
    assert_eq!(crc8_bitwise(&[0x01]), 0x07);
    assert_eq!(crc8_bitwise(&[0x80]), 0x89);
    assert_eq!(crc8_bitwise(&[0xaa]), 0x5f);
    assert_eq!(crc8_bitwise(&[0x30, 0x0a, 0xaa]), 0x3c);
}

#[test]
fn read_checksums_agree_with_the_bitwise_checksum() {
    for b in 0..=255u8 {
        let good = [b, crc8_bitwise(&[0x11, b]), b, crc8_bitwise(&[b])];
        assert_eq!(decode_read_crc(0x08, &good), Ok(vec![b, b]));
    }
}

#[test]
fn failed_transport_comes_before_the_checksums() {
    let good = [0x15, 0x29, 0x2b, 0xd1];
    let bad = [0x15, 0x29, 0x2b, 0xd0];
    assert_eq!(complete_read_crc(0x08, true, &good, 2), Ok(vec![0x15, 0x2b]));
    assert_eq!(complete_read_crc(0x08, true, &bad, 2), Err(Error::CRCMismatch));
    assert_eq!(complete_read_crc(0x08, false, &good, 2), Err(Error::I2CError));
    assert_eq!(complete_read_crc(0x08, false, &bad, 2), Err(Error::I2CError));
    assert_eq!(complete_read_crc(0x08, true, &good, 1), Err(Error::I2CError));
    assert_eq!(complete_read_crc(0x08, true, &good, 3), Err(Error::I2CError));
    assert_eq!(complete_read_crc(0x08, true, &good[..3], 2), Err(Error::I2CError));
    assert_eq!(complete_read_crc(0x08, true, &[], 0), Ok(vec![]));
}

#[test]
fn plain_read_is_the_response() {
    assert_eq!(complete_read_plain(true, &[1, 2, 3], 3), Ok(vec![1, 2, 3]));
    assert_eq!(complete_read_plain(false, &[1, 2, 3], 3), Err(Error::I2CError));
    assert_eq!(complete_read_plain(true, &[1, 2, 3], 2), Err(Error::I2CError));
    assert_eq!(complete_read_plain(true, &[], 0), Ok(vec![]));
}
