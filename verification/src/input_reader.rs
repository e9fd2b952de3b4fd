//! What the player typed, told from the bytes that one read returned.

use vstd::prelude::*;

verus! {

/// A key: one of the four arrows, or anything else.
#[derive(Clone, Copy, PartialEq, Eq, Structural, Debug)]
pub enum ReadResult {
    Up,
    Down,
    Right,
    Left,
    Other,
}

/// The buffer after a read that returned exactly the escape sequence of an
/// arrow key, `ESC [` and `last`, into eight zeroed bytes.
pub open spec fn is_arrow(buffer: Seq<u8>, last: u8) -> bool {
    buffer == seq![0x1Bu8, 0x5Bu8, last, 0u8, 0u8, 0u8, 0u8, 0u8]
}

/// The key that `buffer` stands for.
pub open spec fn key_of(buffer: Seq<u8>) -> ReadResult {
    if is_arrow(buffer, 0x41) {
        ReadResult::Up
    } else if is_arrow(buffer, 0x42) {
        ReadResult::Down
    } else if is_arrow(buffer, 0x43) {
        ReadResult::Right
    } else if is_arrow(buffer, 0x44) {
        ReadResult::Left
    } else {
        ReadResult::Other
    }
}

/// Tells the key from the eight bytes into which one read was made; the
/// bytes that the read did not fill are zero. A shorter or longer sequence
/// than that of an arrow key is `Other`.
pub fn read_result(buffer: &[u8; 8]) -> (key: ReadResult)
    ensures
        key == key_of(buffer@),
{
    let escape = buffer[0] == 0x1B && buffer[1] == 0x5B && buffer[3] == 0 && buffer[4] == 0
        && buffer[5] == 0 && buffer[6] == 0 && buffer[7] == 0;
    proof {
        let arrow = seq![0x1Bu8, 0x5Bu8, buffer[2], 0u8, 0u8, 0u8, 0u8, 0u8];
        if escape {
            assert(buffer@ =~= arrow);
        } else {
            assert forall|last: u8| !is_arrow(buffer@, last) by {
                let other = seq![0x1Bu8, 0x5Bu8, last, 0u8, 0u8, 0u8, 0u8, 0u8];
                if buffer@ == other {
                    assert(other[0] == 0x1B && other[1] == 0x5B && other[3] == 0 && other[4] == 0
                        && other[5] == 0 && other[6] == 0 && other[7] == 0);
                }
            }
        }
        assert forall|last: u8| is_arrow(buffer@, last) implies last == buffer[2] by {}
    }
    if !escape {
        ReadResult::Other
    } else if buffer[2] == 0x41 {
        ReadResult::Up
    } else if buffer[2] == 0x42 {
        ReadResult::Down
    } else if buffer[2] == 0x43 {
        ReadResult::Right
    } else if buffer[2] == 0x44 {
        ReadResult::Left
    } else {
        ReadResult::Other
    }
}

} // verus!
