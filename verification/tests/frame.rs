use rs_tcp::cipher::encrypt;
use rs_tcp::frame::{frame_body, frame_header, header_length, open_body, FrameError};

#[test]
fn stream_test_test() {
    let len = 3;
    let be_len = frame_header(len);
    assert_eq!(be_len, [0, 0, 0, 0, 0, 0, 0, 3]);
    assert_eq!(be_len, (len as u64).to_be_bytes());
    let r_len = header_length(&be_len, 8);
    assert_eq!(r_len, Ok(3));
    // The body key is the low byte of the length.
    assert_eq!(frame_body(&[0u8; 255])[0], 255);
    assert_eq!(frame_body(&[0u8; 256])[0], 128);
    assert_eq!(frame_body(&[0u8; 257])[0], 1);
}

#[test]
fn header_bytes_most_significant_first() {
    assert_eq!(frame_header(0x0102_0304), [0, 0, 0, 0, 1, 2, 3, 4]);
    let h = [0x01, 0x23, 0x45, 0x67, 0x89, 0xab, 0xcd, 0xef];
    assert_eq!(header_length(&h, 8), Ok(0x0123_4567_89ab_cdef));
}

#[test]
fn short_header_is_closed() {
    let h = frame_header(5);
    assert_eq!(header_length(&h, 0), Err(FrameError::HeaderClosed));
    assert_eq!(header_length(&h, 7), Err(FrameError::HeaderClosed));
    assert_eq!(FrameError::HeaderClosed.message(), "closed 1");
}

#[test]
fn empty_body_is_closed() {
    assert_eq!(open_body(0, &[], 0), Err(FrameError::BodyClosed));
    assert_eq!(open_body(4, &[1, 2, 3, 4], 0), Err(FrameError::BodyClosed));
    assert_eq!(FrameError::BodyClosed.message(), "closed 2");
}

#[test]
fn short_body_is_a_length_error() {
    assert_eq!(open_body(4, &[1, 2, 3, 4], 3), Err(FrameError::LengthMismatch));
    assert_eq!(FrameError::LengthMismatch.message(), "read data len error");
}

#[test]
fn body_is_decrypted_with_length_key() {
    let body = encrypt(b"abc", 3);
    assert_eq!(body, vec![b'a' + 3, b'b' + 3, b'c' + 3]);
    assert_eq!(open_body(3, &body, 3), Ok(b"abc".to_vec()));
}

#[test]
fn frame_roundtrip() {
    for data in [b"test".to_vec(), b"test2".to_vec(), vec![7u8; 300], vec![255u8; 1]] {
        let header = frame_header(data.len());
        let len = header_length(&header, 8).unwrap();
        assert_eq!(len, data.len() as u64);
        let body = frame_body(&data);
        assert_eq!(body.len(), data.len());
        assert_eq!(open_body(len, &body, body.len()), Ok(data));
    }
}

#[test]
fn empty_frame_does_not_read_back() {
    let header = frame_header(0);
    assert_eq!(header_length(&header, 8), Ok(0));
    assert_eq!(open_body(0, &frame_body(&[]), 0), Err(FrameError::BodyClosed));
}
