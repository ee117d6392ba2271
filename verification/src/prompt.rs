//! The modal filename prompt: a short loop that accumulates printable
//! characters into a candidate name, one input byte at a time.
//!
//! The prompt owns no document state.  The caller reads bytes, feeds each one
//! to [`FilenamePrompt::step`], and stops when the step commits (Enter on a
//! non-empty name) or cancels (Escape); drawing the prompt line is the
//! caller's concern.

use vstd::prelude::*;

verus! {

/// What one prompt step decided.
#[derive(Clone, Copy, Debug, PartialEq, Eq, Structural)]
pub enum PromptStep {
    /// The loop goes on; the name may have changed.
    Pending,
    /// Enter on a non-empty name: the accumulated name is the answer.
    Committed,
    /// Escape: no name chosen.
    Cancelled,
}

/// The accumulating candidate name.
pub struct FilenamePrompt {
    name: Vec<u8>,
}

impl View for FilenamePrompt {
    type V = Seq<u8>;

    closed spec fn view(&self) -> Seq<u8> {
        self.name@
    }
}

impl FilenamePrompt {
    /// An empty prompt.
    pub fn new() -> (r: FilenamePrompt)
        ensures
            r@ == Seq::<u8>::empty(),
    {
        FilenamePrompt { name: Vec::new() }
    }

    /// Consumes one input byte: Enter commits only a non-empty name (an empty
    /// one is rejected and the loop goes on), Escape cancels, Backspace
    /// removes the last character, a printable byte is appended, and anything
    /// else is ignored.
    pub fn step(&mut self, byte: u8) -> (r: PromptStep)
        ensures
            byte == 13 || byte == 10 ==> final(self)@ == old(self)@ && r == (
            if old(self)@.len() > 0 {
                PromptStep::Committed
            } else {
                PromptStep::Pending
            }),
            byte == 27 ==> final(self)@ == old(self)@ && r == PromptStep::Cancelled,
            byte == 127 || byte == 8 ==> final(self)@ == (
            if old(self)@.len() > 0 {
                old(self)@.drop_last()
            } else {
                old(self)@
            }) && r == PromptStep::Pending,
            32 <= byte < 127 ==> final(self)@ == old(self)@.push(byte)
                && r == PromptStep::Pending,
            !(byte == 13 || byte == 10 || byte == 27 || byte == 127 || byte == 8 || 32 <= byte
                < 127) ==> final(self)@ == old(self)@ && r == PromptStep::Pending,
    {
        if byte == 13 || byte == 10 {
            if self.name.len() > 0 {
                PromptStep::Committed
            } else {
                PromptStep::Pending
            }
        } else if byte == 27 {
            PromptStep::Cancelled
        } else if byte == 127 || byte == 8 {
            let _ = self.name.pop();
            proof {
                if old(self)@.len() > 0 {
                    assert(self.name@ =~= old(self)@.drop_last());
                }
            }
            PromptStep::Pending
        } else if 32 <= byte && byte < 127 {
            self.name.push(byte);
            PromptStep::Pending
        } else {
            PromptStep::Pending
        }
    }

    /// The candidate accumulated so far, for drawing the prompt line.
    pub fn name(&self) -> (r: &Vec<u8>)
        ensures
            r@ == self@,
    {
        &self.name
    }

    /// The accumulated name, handed over when the prompt commits.
    pub fn into_name(self) -> (r: Vec<u8>)
        ensures
            r@ == self@,
    {
        self.name
    }
}

} // verus!
