//! Decoding raw input bytes into logical key events.
//!
//! The decoder is a pure function over a byte sequence and a position: it
//! hands back the decoded event together with how many bytes it consumed, or
//! nothing when the bytes so far are an incomplete escape sequence.  The
//! caller owns the blocking reads and feeds the bytes in as they arrive, so
//! the session itself never sees a partial sequence.

use vstd::prelude::*;

verus! {

/// The escape byte that opens a multi-byte sequence.
pub const ESCAPE: u8 = 27;

/// One logical key event, as the session consumes it.
#[derive(Clone, Copy, Debug, PartialEq, Eq, Structural)]
pub enum KeyEvent {
    /// A printable character (byte 32 to 126).
    Character(u8),
    Enter,
    Backspace,
    ForwardDelete,
    Up,
    Down,
    Left,
    Right,
    Home,
    End,
    Quit,
    Save,
    SaveAs,
    /// A recognized but meaningless sequence; the session ignores it.
    Unknown,
}

/// What the bytes from `pos` on decode to: the event and the count of bytes
/// consumed, or `None` when more bytes are needed to finish the sequence.
pub open spec fn decode_event_spec(input: Seq<u8>, pos: int) -> Option<(KeyEvent, int)> {
    if pos < 0 || pos >= input.len() {
        None
    } else {
        let b = input[pos];
        if b == 17 {
            Some((KeyEvent::Quit, 1))
        } else if b == 19 {
            Some((KeyEvent::Save, 1))
        } else if b == 1 {
            Some((KeyEvent::SaveAs, 1))
        } else if b == 13 || b == 10 {
            Some((KeyEvent::Enter, 1))
        } else if b == 127 || b == 8 {
            Some((KeyEvent::Backspace, 1))
        } else if 32 <= b < 127 {
            Some((KeyEvent::Character(b), 1))
        } else if b == ESCAPE {
            decode_escape_spec(input, pos)
        } else {
            Some((KeyEvent::Unknown, 1))
        }
    }
}

/// The tail of an escape sequence: two bytes after the escape byte, and one
/// more for the four-byte forward-delete sequence `ESC [ 3 ~`.
pub open spec fn decode_escape_spec(input: Seq<u8>, pos: int) -> Option<(KeyEvent, int)> {
    if pos + 3 > input.len() {
        None
    } else if input[pos + 1] != 91 {
        Some((KeyEvent::Unknown, 3))
    } else {
        let b2 = input[pos + 2];
        if b2 == 65 {
            Some((KeyEvent::Up, 3))
        } else if b2 == 66 {
            Some((KeyEvent::Down, 3))
        } else if b2 == 67 {
            Some((KeyEvent::Right, 3))
        } else if b2 == 68 {
            Some((KeyEvent::Left, 3))
        } else if b2 == 72 {
            Some((KeyEvent::Home, 3))
        } else if b2 == 70 {
            Some((KeyEvent::End, 3))
        } else if b2 == 51 {
            if input.len() - pos < 4 {
                None
            } else if input[pos + 3] == 126 {
                Some((KeyEvent::ForwardDelete, 4))
            } else {
                Some((KeyEvent::Unknown, 4))
            }
        } else {
            Some((KeyEvent::Unknown, 3))
        }
    }
}

/// Decodes the next logical key event from `input` at `pos`.
///
/// Returns the event and the count of bytes consumed, or `None` when the
/// bytes from `pos` on are a not-yet-complete escape sequence (or `pos` is
/// past the end), in which case the caller reads more bytes and retries.
pub fn decode_event(input: &Vec<u8>, pos: usize) -> (r: Option<(KeyEvent, usize)>)
    ensures
        r matches Some(ev) ==> decode_event_spec(input@, pos as int)
            == Some((ev.0, ev.1 as int)),
        r is None ==> decode_event_spec(input@, pos as int) is None,
        r matches Some(ev) ==> 1 <= ev.1 && pos + ev.1 <= input@.len(),
{
    if pos >= input.len() {
        return None;
    }
    let b = input[pos];
    if b == 17 {
        Some((KeyEvent::Quit, 1))
    } else if b == 19 {
        Some((KeyEvent::Save, 1))
    } else if b == 1 {
        Some((KeyEvent::SaveAs, 1))
    } else if b == 13 || b == 10 {
        Some((KeyEvent::Enter, 1))
    } else if b == 127 || b == 8 {
        Some((KeyEvent::Backspace, 1))
    } else if 32 <= b && b < 127 {
        Some((KeyEvent::Character(b), 1))
    } else if b == ESCAPE {
        if input.len() - pos < 3 {
            return None;
        }
        if input[pos + 1] != 91 {
            return Some((KeyEvent::Unknown, 3));
        }
        let b2 = input[pos + 2];
        if b2 == 65 {
            Some((KeyEvent::Up, 3))
        } else if b2 == 66 {
            Some((KeyEvent::Down, 3))
        } else if b2 == 67 {
            Some((KeyEvent::Right, 3))
        } else if b2 == 68 {
            Some((KeyEvent::Left, 3))
        } else if b2 == 72 {
            Some((KeyEvent::Home, 3))
        } else if b2 == 70 {
            Some((KeyEvent::End, 3))
        } else if b2 == 51 {
            if input.len() - pos < 4 {
                None
            } else if input[pos + 3] == 126 {
                Some((KeyEvent::ForwardDelete, 4))
            } else {
                Some((KeyEvent::Unknown, 4))
            }
        } else {
            Some((KeyEvent::Unknown, 3))
        }
    } else {
        Some((KeyEvent::Unknown, 1))
    }
}

} // verus!
