use tetris::input_reader::{read_result, ReadResult};

#[test]
fn the_four_arrow_keys() {
    assert_eq!(read_result(&[0x1B, 0x5B, 0x41, 0, 0, 0, 0, 0]), ReadResult::Up);
    assert_eq!(read_result(&[0x1B, 0x5B, 0x42, 0, 0, 0, 0, 0]), ReadResult::Down);
    assert_eq!(read_result(&[0x1B, 0x5B, 0x43, 0, 0, 0, 0, 0]), ReadResult::Right);
    assert_eq!(read_result(&[0x1B, 0x5B, 0x44, 0, 0, 0, 0, 0]), ReadResult::Left);
}

#[test]
fn a_shorter_sequence_is_another_key() {
    assert_eq!(read_result(&[0; 8]), ReadResult::Other);
    assert_eq!(read_result(&[0x1B, 0, 0, 0, 0, 0, 0, 0]), ReadResult::Other);
    assert_eq!(read_result(&[0x1B, 0x5B, 0, 0, 0, 0, 0, 0]), ReadResult::Other);
}

#[test]
fn a_longer_sequence_is_another_key() {
    assert_eq!(read_result(&[0x1B, 0x5B, 0x41, 0x1B, 0x5B, 0x41, 0, 0]), ReadResult::Other);
    assert_eq!(read_result(&[0x1B, 0x5B, 0x41, 0, 0, 0, 0, 1]), ReadResult::Other);
    assert_eq!(read_result(&[0x1B, 0x5B, 0x41, 0x41, 0, 0, 0, 0]), ReadResult::Other);
}

#[test]
fn any_other_byte_is_another_key() {
    assert_eq!(read_result(&[b'q', 0, 0, 0, 0, 0, 0, 0]), ReadResult::Other);
    assert_eq!(read_result(&[0x1B, 0x5B, 0x45, 0, 0, 0, 0, 0]), ReadResult::Other);
    assert_eq!(read_result(&[0x1B, 0x5B, 0x40, 0, 0, 0, 0, 0]), ReadResult::Other);
    assert_eq!(read_result(&[0x1B, 0x4F, 0x41, 0, 0, 0, 0, 0]), ReadResult::Other);
    assert_eq!(read_result(&[0x41, 0x5B, 0x1B, 0, 0, 0, 0, 0]), ReadResult::Other);
}
