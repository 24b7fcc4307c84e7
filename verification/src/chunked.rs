//! The streaming processor: a file is worked through in chunks of fixed
//! size, each read, transformed in memory and written back to the offset it
//! came from.
//!
//! The processor performs no input or output itself. It is a state machine:
//! it names the next request to make of the file, is told what came of it,
//! and decides what follows. Whoever holds the file runs the loop.

use crate::buffer::{process_buffer, transform_bytes};
use crate::operations::Operations;
use vstd::prelude::*;

verus! {

/// The size of a chunk in bytes: 256 KiB.
pub const CHUNK_SIZE: usize = 262144;

/// Why a run was given up.
#[derive(Debug, Clone, Copy, PartialEq, Eq, Structural)]
pub enum Fault {
    /// A request failed: the position could not be told, or the read, the
    /// seek or the write did not succeed.
    Io,
    /// After a read the cursor was not where the read began plus the number
    /// of bytes read: the file changed underneath the run.
    PositionMismatch,
    /// Fewer bytes were written back than had been read.
    ShortWrite,
    /// What was reported cannot answer the request that was pending: an
    /// event of another kind, more bytes read than were asked for or than
    /// the buffer holds, or more bytes written than were handed over.
    Protocol,
    /// The count of bytes transformed no longer fits in 64 bits.
    CountOverflow,
}

/// What the processor asks of the holder of the file.
#[derive(Debug, Clone, Copy, PartialEq, Eq, Structural)]
pub enum Action {
    /// Report the current cursor position.
    QueryPosition,
    /// Read up to `max` bytes at the cursor into the front of the buffer.
    Read { max: usize },
    /// Move the cursor to `pos`, counted from the start of the file.
    Seek { pos: u64 },
    /// Write the first `len` bytes of the buffer at the cursor.
    Write { len: usize },
    /// The end of the file was reached; `total` bytes were transformed.
    Finish { total: u64 },
    /// The run is given up.
    Abort { fault: Fault },
}

/// What came of a request.
#[derive(Debug, Clone, Copy, PartialEq, Eq, Structural)]
pub enum Event {
    /// The cursor is at `pos`.
    Position { pos: u64 },
    /// `len` bytes were read; zero means the end of the file.
    Read { len: usize },
    /// The cursor was moved as asked.
    Sought,
    /// `len` bytes were written.
    Written { len: usize },
    /// The request failed.
    Failed,
}

/// Where a run stands within the cycle of one chunk.
#[derive(Debug, Clone, Copy, PartialEq, Eq, Structural)]
pub enum Phase {
    /// About to learn where the next chunk begins.
    Locate,
    /// About to read the chunk that begins at `pos`.
    Fill { pos: u64 },
    /// `nread` bytes were read from `pos`; about to confirm where the
    /// cursor went.
    Confirm { pos: u64, nread: usize },
    /// The chunk is transformed; about to move back to `pos`.
    Rewind { pos: u64, nread: usize },
    /// About to write the `nread` transformed bytes.
    Flush { nread: usize },
    /// The end of the file was reached.
    Finished,
    /// The run was given up.
    Aborted { fault: Fault },
}

/// One run of the streaming processor over one file.
#[derive(Debug, Clone, Copy, PartialEq, Eq, Structural)]
pub struct ChunkedRun {
    /// The step of the cycle that is due.
    pub phase: Phase,
    /// The number of bytes transformed and written back so far.
    pub total: u64,
}

impl ChunkedRun {
    /// This run, given up for `fault`; the count stays as it is.
    pub open spec fn aborted(&self, fault: Fault) -> ChunkedRun {
        ChunkedRun { phase: Phase::Aborted { fault }, total: self.total }
    }

    /// The request that is due in this state.
    pub open spec fn pending_spec(&self) -> Action {
        match self.phase {
            Phase::Locate => Action::QueryPosition,
            Phase::Fill { pos } => Action::Read { max: CHUNK_SIZE },
            Phase::Confirm { pos, nread } => Action::QueryPosition,
            Phase::Rewind { pos, nread } => Action::Seek { pos },
            Phase::Flush { nread } => Action::Write { len: nread },
            Phase::Finished => Action::Finish { total: self.total },
            Phase::Aborted { fault } => Action::Abort { fault },
        }
    }

    /// The state that follows when `event` is reported while the buffer
    /// holds `capacity` bytes.
    ///
    /// A chunk runs through `Locate`, `Fill`, `Confirm`, `Rewind` and
    /// `Flush` in turn. The run finishes when a read of zero bytes is
    /// confirmed. It is given up, at once and for good, when a request
    /// failed, when the cursor did not advance by what was read, when the
    /// write fell short, or when the event cannot answer the pending
    /// request. A run that has ended stays as it is.
    pub open spec fn after(&self, event: Event, capacity: nat) -> ChunkedRun {
        match (self.phase, event) {
            (Phase::Finished, _) => *self,
            (Phase::Aborted { fault }, _) => *self,
            (_, Event::Failed) => self.aborted(Fault::Io),
            (Phase::Locate, Event::Position { pos }) => ChunkedRun {
                phase: Phase::Fill { pos },
                total: self.total,
            },
            (Phase::Fill { pos }, Event::Read { len }) => if len > CHUNK_SIZE {
                self.aborted(Fault::Protocol)
            } else {
                ChunkedRun { phase: Phase::Confirm { pos, nread: len }, total: self.total }
            },
            (Phase::Confirm { pos, nread }, Event::Position { pos: now }) => if pos + nread
                != now {
                self.aborted(Fault::PositionMismatch)
            } else if nread == 0 {
                ChunkedRun { phase: Phase::Finished, total: self.total }
            } else if nread > capacity {
                self.aborted(Fault::Protocol)
            } else {
                ChunkedRun { phase: Phase::Rewind { pos, nread }, total: self.total }
            },
            (Phase::Rewind { pos, nread }, Event::Sought) => ChunkedRun {
                phase: Phase::Flush { nread },
                total: self.total,
            },
            (Phase::Flush { nread }, Event::Written { len }) => if len < nread {
                self.aborted(Fault::ShortWrite)
            } else if len > nread {
                self.aborted(Fault::Protocol)
            } else if self.total + nread > u64::MAX {
                self.aborted(Fault::CountOverflow)
            } else {
                ChunkedRun { phase: Phase::Locate, total: (self.total + nread) as u64 }
            },
            _ => self.aborted(Fault::Protocol),
        }
    }

    /// The number of bytes at the front of the buffer that are transformed
    /// when `event` is reported: the chunk just read, at the moment its
    /// position is confirmed, and nothing at any other step.
    pub open spec fn transformed(&self, event: Event, capacity: nat) -> nat {
        match (self.phase, self.after(event, capacity).phase) {
            (Phase::Confirm { pos, nread }, Phase::Rewind { pos: p, nread: n }) => nread as nat,
            _ => 0,
        }
    }

    /// A run at its start: nothing transformed yet, the first chunk still
    /// to be located.
    pub fn new() -> (run: ChunkedRun)
        ensures
            run == (ChunkedRun { phase: Phase::Locate, total: 0 }),
    {
        ChunkedRun { phase: Phase::Locate, total: 0 }
    }

    /// The request that is due.
    #[verifier::when_used_as_spec(pending_spec)]
    pub fn pending(&self) -> (action: Action)
        ensures
            action == self.pending_spec(),
    {
        match self.phase {
            Phase::Locate => Action::QueryPosition,
            Phase::Fill { pos: _ } => Action::Read { max: CHUNK_SIZE },
            Phase::Confirm { pos: _, nread: _ } => Action::QueryPosition,
            Phase::Rewind { pos, nread: _ } => Action::Seek { pos },
            Phase::Flush { nread } => Action::Write { len: nread },
            Phase::Finished => Action::Finish { total: self.total },
            Phase::Aborted { fault } => Action::Abort { fault },
        }
    }

    /// Takes what came of the pending request and moves to the next state;
    /// returns the request that is due then.
    ///
    /// `buffer` is the buffer that reads fill and writes drain. It is
    /// touched at one step only: when the position after a read of `n > 0`
    /// bytes is confirmed, its first `n` bytes are transformed under `ops`.
    pub fn step(&mut self, event: Event, buffer: &mut [u8], ops: &Operations) -> (action: Action)
        ensures
            *final(self) == old(self).after(event, old(buffer)@.len()),
            action == final(self).pending_spec(),
            final(buffer)@.len() == old(buffer)@.len(),
            ({
                let n = old(self).transformed(event, old(buffer)@.len()) as int;
                final(buffer)@ == transform_bytes(*ops, old(buffer)@.subrange(0, n)) + old(
                    buffer,
                )@.subrange(n, old(buffer)@.len() as int)
            }),
    {
        let total = self.total;
        let next = match (self.phase, event) {
            (Phase::Finished, _) => self.phase,
            (Phase::Aborted { fault }, _) => self.phase,
            (_, Event::Failed) => Phase::Aborted { fault: Fault::Io },
            (Phase::Locate, Event::Position { pos }) => Phase::Fill { pos },
            (Phase::Fill { pos }, Event::Read { len }) => {
                if len > CHUNK_SIZE {
                    Phase::Aborted { fault: Fault::Protocol }
                } else {
                    Phase::Confirm { pos, nread: len }
                }
            },
            (Phase::Confirm { pos, nread }, Event::Position { pos: now }) => {
                if pos.checked_add(nread as u64) != Some(now) {
                    Phase::Aborted { fault: Fault::PositionMismatch }
                } else if nread == 0 {
                    Phase::Finished
                } else if nread > buffer.len() {
                    Phase::Aborted { fault: Fault::Protocol }
                } else {
                    let (chunk, _rest) = buffer.split_at_mut(nread);
                    process_buffer(chunk, ops);
                    Phase::Rewind { pos, nread }
                }
            },
            (Phase::Rewind { pos, nread }, Event::Sought) => Phase::Flush { nread },
            (Phase::Flush { nread }, Event::Written { len }) => {
                if len < nread {
                    Phase::Aborted { fault: Fault::ShortWrite }
                } else if len > nread {
                    Phase::Aborted { fault: Fault::Protocol }
                } else {
                    match total.checked_add(nread as u64) {
                        Some(sum) => {
                            self.total = sum;
                            Phase::Locate
                        },
                        None => Phase::Aborted { fault: Fault::CountOverflow },
                    }
                }
            },
            _ => Phase::Aborted { fault: Fault::Protocol },
        };
        self.phase = next;
        proof {
            let s = old(buffer)@;
            if old(self).transformed(event, s.len()) == 0 {
                assert(transform_bytes(*ops, s.subrange(0, 0)) + s.subrange(0, s.len() as int)
                    =~= s);
            }
        }
        self.pending()
    }
}

} // verus!
