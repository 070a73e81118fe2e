use chrome_devtools::framing::{
    decode_frame_header, encode_frame, frame_header, FrameError, MAX_MESSAGE_LEN,
};

#[test]
fn header_is_big_endian_length() {
    assert_eq!(frame_header(0), [0, 0, 0, 0]);
    assert_eq!(frame_header(0x0102_0304), [1, 2, 3, 4]);
    assert_eq!(encode_frame(b"hi"), vec![0, 0, 0, 2, b'h', b'i']);
}

#[test]
fn reader_takes_back_the_written_length() {
    for len in [0usize, 1, 255, 256, 65536, MAX_MESSAGE_LEN as usize] {
        assert_eq!(decode_frame_header(frame_header(len)), Ok(len));
    }
}

#[test]
fn oversized_messages_are_refused() {
    let too_big = MAX_MESSAGE_LEN as usize + 1;
    let e = decode_frame_header(frame_header(too_big)).unwrap_err();
    assert_eq!(e, FrameError::MessageTooLarge(too_big as u64));
    assert_eq!(e.message(), "Message too large: 67108865 bytes");
    assert_eq!(
        decode_frame_header([0xff, 0xff, 0xff, 0xff]),
        Err(FrameError::MessageTooLarge(u32::MAX as u64))
    );
}
