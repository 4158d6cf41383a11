use dbwin_capture::winapi::{DBWinBuffer, BUF_SIZE, PAYLOAD_SIZE};

fn segment(producer: [u8; 4], payload: &[u8]) -> [u8; 4096] {
    let mut bytes = [0u8; 4096];
    bytes[..4].copy_from_slice(&producer);
    bytes[4..4 + payload.len()].copy_from_slice(payload);
    bytes
}

fn mailbox(producer: u32, payload: &[u8], fill: u8) -> DBWinBuffer {
    let mut data = [fill; 4092];
    data[..payload.len()].copy_from_slice(payload);
    DBWinBuffer { process_id: producer, data }
}

#[test]
fn segment_sizes_add_up() {
    assert_eq!(BUF_SIZE, 4096);
    assert_eq!(PAYLOAD_SIZE, 4092);
    assert_eq!(BUF_SIZE, PAYLOAD_SIZE + 4);
}

#[test]
fn from_segment_reads_the_producer_little_endian() {
    let read = DBWinBuffer::from_segment(&segment([0xD2, 0x04, 0x00, 0x00], b"hello"));
    assert_eq!(read.process_id, 1234);
    assert_eq!(read.producer_id(), 1234);
    let read = DBWinBuffer::from_segment(&segment([0x78, 0x56, 0x34, 0x12], b""));
    assert_eq!(read.producer_id(), 0x12345678);
    let read = DBWinBuffer::from_segment(&segment([0x00, 0x00, 0x00, 0x01], b""));
    assert_eq!(read.producer_id(), 16777216);
    let read = DBWinBuffer::from_segment(&segment([0xFF, 0xFF, 0xFF, 0xFF], b""));
    assert_eq!(read.producer_id(), u32::MAX);
    let read = DBWinBuffer::from_segment(&segment([0, 0, 0, 0], b""));
    assert_eq!(read.producer_id(), 0);
}

#[test]
fn from_segment_agrees_with_the_standard_library() {
    for id in [1u32, 255, 256, 65535, 65536, 0x01020304, 0x80000000, 4242] {
        let read = DBWinBuffer::from_segment(&segment(id.to_le_bytes(), b"x"));
        assert_eq!(read.producer_id(), id);
    }
}

#[test]
fn from_segment_takes_bytes_4_to_4095_as_the_payload_field() {
    let mut bytes = [0u8; 4096];
    for (i, byte) in bytes.iter_mut().enumerate() {
        *byte = (i % 251) as u8;
    }
    let read = DBWinBuffer::from_segment(&bytes);
    assert_eq!(read.data.len(), 4092);
    for i in 0..4092 {
        assert_eq!(read.data[i], ((i + 4) % 251) as u8);
    }
}

#[test]
fn payload_ends_at_the_first_nul() {
    let held = mailbox(1, b"hello\0world\0", 0);
    assert_eq!(held.payload_slice(), b"hello");
    assert_eq!(held.text(), Some("hello"));
}

#[test]
fn payload_ignores_what_follows_the_terminator() {
    let held = mailbox(1, b"fresh\0stale bytes of an earlier message", 0xFF);
    assert_eq!(held.payload_slice(), b"fresh");
    assert_eq!(held.text(), Some("fresh"));
}

#[test]
fn payload_is_empty_when_the_field_starts_with_nul() {
    let held = mailbox(9, b"\0abc", 0);
    assert_eq!(held.payload_slice(), b"");
    assert_eq!(held.text(), Some(""));
}

#[test]
fn payload_of_4091_bytes_and_a_nul_is_read_back_exactly() {
    let message: Vec<u8> = (0..4091).map(|i| b'a' + (i % 26) as u8).collect();
    let mut data = [0u8; 4092];
    data[..4091].copy_from_slice(&message);
    let held = DBWinBuffer { process_id: 77, data };
    assert_eq!(held.payload_slice(), &message[..]);
    assert_eq!(held.text().map(str::as_bytes), Some(&message[..]));
}

#[test]
fn short_payload_round_trips_as_text() {
    let text = "grüße, 世界! \u{1F600}";
    let held = mailbox(5, text.as_bytes(), 0);
    assert_eq!(held.payload_slice(), text.as_bytes());
    assert_eq!(held.text(), Some(text));
}

#[test]
fn payload_without_nul_is_the_whole_field() {
    let held = DBWinBuffer { process_id: 3, data: [b'z'; 4092] };
    assert_eq!(held.payload_slice().len(), 4092);
    assert_eq!(held.payload_slice(), &[b'z'; 4092][..]);
    let text = held.text().expect("a field of ASCII letters is text");
    assert_eq!(text.len(), 4092);
    assert!(text.bytes().all(|b| b == b'z'));
}

#[test]
fn payload_with_nul_in_the_last_place_has_4091_bytes() {
    let mut data = [b'q'; 4092];
    data[4091] = 0;
    let held = DBWinBuffer { process_id: 3, data };
    assert_eq!(held.payload_slice().len(), 4091);
}

#[test]
fn text_is_none_for_ill_formed_utf8() {
    let held = mailbox(1, &[0x68, 0x69, 0xFF, 0x00], 0);
    assert_eq!(held.payload_slice(), &[0x68, 0x69, 0xFF]);
    assert_eq!(held.text(), None);
    let whole = DBWinBuffer { process_id: 1, data: [0xFF; 4092] };
    assert_eq!(whole.payload_slice().len(), 4092);
    assert_eq!(whole.text(), None);
}

#[test]
fn text_is_none_when_the_field_ends_inside_a_character() {
    let mut data = [b'a'; 4092];
    data[4091] = 0xC3;
    let held = DBWinBuffer { process_id: 1, data };
    assert_eq!(held.text(), None);
}
