//! Reading an I/O object until it would block or reaches its end.
//!
//! The state of the reading and what each poll does with the outcome of a
//! read stand here; the read itself is performed by the caller, which hands
//! its outcome back.

use vstd::prelude::*;

verus! {

/// The outcome of reading an I/O object to its end into a buffer.
#[derive(Debug, PartialEq, Eq, Clone, Copy, Structural)]
pub enum ReadOutcome {
    /// The end of the stream was reached.
    Eof,
    /// The read would block.
    WouldBlock,
    /// The read failed with another error.
    Failed,
}

/// What a poll of the reading answers.
#[derive(Debug, PartialEq, Eq, Clone, Copy, Structural)]
pub enum PollAction {
    /// The reading is done: the object and the buffer are handed back.
    Ready,
    /// Nothing was read yet and the read would block: poll again later.
    NotReady,
    /// The read failed: the error is handed back.
    Fail,
}

/// What a poll answers for a read outcome, given the length of the buffer
/// after the read.
pub open spec fn poll_action(outcome: ReadOutcome, buf_len: nat) -> PollAction {
    match outcome {
        ReadOutcome::Eof => PollAction::Ready,
        ReadOutcome::WouldBlock => if buf_len == 0 {
            PollAction::NotReady
        } else {
            PollAction::Ready
        },
        ReadOutcome::Failed => PollAction::Fail,
    }
}

/// Decides what a poll answers: done at the end of the stream, or when the
/// read would block after some bytes were read; not ready when it would
/// block before any; failed on any other error.
pub fn poll_step(outcome: ReadOutcome, buf_len: usize) -> (r: PollAction)
    ensures
        r == poll_action(outcome, buf_len as nat),
{
    match outcome {
        ReadOutcome::Eof => PollAction::Ready,
        ReadOutcome::WouldBlock => {
            if buf_len == 0 {
                PollAction::NotReady
            } else {
                PollAction::Ready
            }
        },
        ReadOutcome::Failed => PollAction::Fail,
    }
}

/// Where a reading stands.
#[derive(Debug)]
pub enum ReadToBlockState<A> {
    /// Still reading: the object and the bytes read so far.
    Reading { a: A, buf: Vec<u8> },
    /// Done: the object and the buffer were handed back.
    Empty,
}

/// A reading of all the bytes of an I/O object into a buffer, until either
/// a read would block or the end of the stream is reached.
#[derive(Debug)]
pub struct ReadToBlock<A> {
    pub state: ReadToBlockState<A>,
}

/// Starts reading the bytes of `a` into `buf`.
///
/// On success the object and the buffer are handed back, with the data
/// read appended to the buffer; on an error they are discarded and the
/// error is handed back.
pub fn read_to_block<A>(a: A, buf: Vec<u8>) -> (r: ReadToBlock<A>)
    ensures
        r.state == (ReadToBlockState::Reading { a, buf }),
{
    ReadToBlock { state: ReadToBlockState::Reading { a: a, buf: buf } }
}

impl<A> ReadToBlock<A> {
    /// Whether the object and the buffer were already handed back.
    pub fn is_done(&self) -> (r: bool)
        ensures
            r == (self.state is Empty),
    {
        match self.state {
            ReadToBlockState::Empty => true,
            ReadToBlockState::Reading { .. } => false,
        }
    }

    /// Takes the object and the buffer out for a read; `None` when the
    /// reading is already done.
    pub fn take(&mut self) -> (r: Option<(A, Vec<u8>)>)
        ensures
            final(self).state is Empty,
            match old(self).state {
                ReadToBlockState::Reading { a, buf } => r == Some((a, buf)),
                ReadToBlockState::Empty => r is None,
            },
    {
        let mut state = ReadToBlockState::Empty;
        std::mem::swap(&mut state, &mut self.state);
        match state {
            ReadToBlockState::Reading { a, buf } => Some((a, buf)),
            ReadToBlockState::Empty => None,
        }
    }

    /// Settles a poll after a read of `a` into `buf` had `outcome`.
    ///
    /// When the poll is done, the object and the buffer are handed back and
    /// the reading ends; when the read failed, they are discarded and the
    /// reading ends too; else they are kept for the next poll.
    pub fn settle(&mut self, a: A, buf: Vec<u8>, outcome: ReadOutcome) -> (r: (
        PollAction,
        Option<(A, Vec<u8>)>,
    ))
        ensures
            r.0 == poll_action(outcome, buf@.len()),
            r.0 == PollAction::Ready ==> r.1 == Some((a, buf)),
            r.0 != PollAction::Ready ==> r.1 is None,
            r.0 == PollAction::NotReady ==> final(self).state == (ReadToBlockState::Reading { a, buf }),
            r.0 != PollAction::NotReady ==> final(self).state is Empty,
    {
        let action = poll_step(outcome, buf.len());
        match action {
            PollAction::Ready => {
                self.state = ReadToBlockState::Empty;
                (action, Some((a, buf)))
            },
            PollAction::NotReady => {
                self.state = ReadToBlockState::Reading { a: a, buf: buf };
                (action, None)
            },
            PollAction::Fail => {
                self.state = ReadToBlockState::Empty;
                (action, None)
            },
        }
    }
}

} // verus!
