//! A model of a file under the streaming processor, and the proof that a
//! run against a well-behaved file transforms exactly the bytes from the
//! cursor to the end, once each, and leaves the file's length alone.
//!
//! Nothing here is executable. The model says what a file does on each
//! request; the theorems say what the processor then achieves.

use crate::buffer::transform_bytes;
use crate::chunked::{Action, ChunkedRun, Event, Phase, CHUNK_SIZE};
use crate::operations::Operations;
use vstd::prelude::*;

verus! {

/// A file as the processor sees it: its bytes and its cursor.
pub struct FileModel {
    /// What the file holds, from its first byte to its last.
    pub bytes: Seq<u8>,
    /// The offset at which the next read or write takes place; it may lie
    /// past the end.
    pub cursor: nat,
}

/// A run together with the file it works on and the buffer in between.
pub struct World {
    /// The state of the processor.
    pub run: ChunkedRun,
    /// The file.
    pub file: FileModel,
    /// The buffer that reads fill and writes drain.
    pub buffer: Seq<u8>,
}

/// The smaller of two numbers.
pub open spec fn least(a: nat, b: nat) -> nat {
    if a <= b {
        a
    } else {
        b
    }
}

/// How many bytes a read at the cursor delivers when at most `max` fit and
/// the file is inclined to give `want`: never more than are left, and at
/// least one unless none is left. Every short read is some `want`.
pub open spec fn read_len(file: FileModel, max: nat, want: nat) -> nat {
    let left = if file.cursor < file.bytes.len() {
        (file.bytes.len() - file.cursor) as nat
    } else {
        0
    };
    let most = least(left, max);
    if want == 0 {
        least(1, most)
    } else {
        least(want, most)
    }
}

/// The bytes of a file after `data` was written at `at`: the file grows
/// where the write reaches past its end, and a gap before `at` reads as
/// zeros.
pub open spec fn written(bytes: Seq<u8>, at: nat, data: Seq<u8>) -> Seq<u8> {
    let len = if bytes.len() >= at + data.len() {
        bytes.len()
    } else {
        at + data.len()
    };
    Seq::new(
        len,
        |i: int|
            if at <= i < at + data.len() {
                data[i - at]
            } else if i < bytes.len() {
                bytes[i]
            } else {
                0u8
            },
    )
}

/// What a well-behaved file does on `action`: the file and the buffer
/// afterwards, and the event it reports. No request fails, a read fills the
/// front of the buffer and leaves the rest, and a write takes all it is
/// given. A run that has ended asks for nothing, and the event is then of
/// no account.
pub open spec fn perform(file: FileModel, buffer: Seq<u8>, action: Action, want: nat) -> (
    FileModel,
    Seq<u8>,
    Event,
) {
    match action {
        Action::QueryPosition => (file, buffer, Event::Position { pos: file.cursor as u64 }),
        Action::Read { max } => {
            let n = read_len(file, least(max as nat, buffer.len()), want);
            (
                FileModel { bytes: file.bytes, cursor: file.cursor + n },
                Seq::new(
                    buffer.len(),
                    |i: int|
                        if i < n {
                            file.bytes[file.cursor + i]
                        } else {
                            buffer[i]
                        },
                ),
                Event::Read { len: n as usize },
            )
        },
        Action::Seek { pos } => (
            FileModel { bytes: file.bytes, cursor: pos as nat },
            buffer,
            Event::Sought,
        ),
        Action::Write { len } => {
            let n = least(len as nat, buffer.len());
            (
                FileModel {
                    bytes: written(file.bytes, file.cursor, buffer.subrange(0, n as int)),
                    cursor: file.cursor + n,
                },
                buffer,
                Event::Written { len: n as usize },
            )
        },
        Action::Finish { total } => (file, buffer, Event::Sought),
        Action::Abort { fault } => (file, buffer, Event::Sought),
    }
}

/// One turn of the loop: the pending request is performed on the file and
/// the processor takes the event, as `ChunkedRun::step` does.
pub open spec fn advance(w: World, ops: Operations, want: nat) -> World {
    let (file, filled, event) = perform(w.file, w.buffer, w.run.pending_spec(), want);
    let n = w.run.transformed(event, filled.len()) as int;
    World {
        run: w.run.after(event, filled.len()),
        file,
        buffer: transform_bytes(ops, filled.subrange(0, n)) + filled.subrange(
            n,
            filled.len() as int,
        ),
    }
}

/// The world after `turns` turns of the loop. `wants` gives, for each
/// cursor position, the number of bytes that a read there is inclined to
/// deliver.
pub open spec fn run_for(w: World, ops: Operations, wants: spec_fn(nat) -> nat, turns: nat) -> World
    decreases turns,
{
    if turns == 0 {
        w
    } else {
        run_for(advance(w, ops, wants(w.file.cursor)), ops, wants, (turns - 1) as nat)
    }
}

/// `bytes` with those from `from` up to `to` transformed under `ops` and
/// all others as they were.
pub open spec fn processed_between(bytes: Seq<u8>, from: nat, to: nat, ops: Operations) -> Seq<u8> {
    Seq::new(
        bytes.len(),
        |i: int|
            if from <= i < to {
                ops.image(bytes[i])
            } else {
                bytes[i]
            },
    )
}

/// `bytes` with all from `from` to the end transformed under `ops`.
pub open spec fn processed_from(bytes: Seq<u8>, from: nat, ops: Operations) -> Seq<u8> {
    processed_between(bytes, from, bytes.len(), ops)
}

/// The number of bytes between `from` and the end of a file of `len` bytes.
pub open spec fn bytes_left(len: nat, from: nat) -> nat {
    if from < len {
        (len - from) as nat
    } else {
        0
    }
}

/// The world in which a run starts: a fresh run, the file with its cursor
/// at `start`, and a buffer of any content.
pub open spec fn initial(bytes: Seq<u8>, start: nat, buffer: Seq<u8>) -> World {
    World {
        run: ChunkedRun { phase: Phase::Locate, total: 0 },
        file: FileModel { bytes, cursor: start },
        buffer,
    }
}

/// What holds of a run on a well-behaved file at every turn, where `bytes`
/// is what the file held at the start. The file holds `bytes` with those
/// from `start` up to the count transformed, and the phase tells where the
/// cursor is and what the buffer holds.
spec fn consistent(w: World, bytes: Seq<u8>, start: nat, capacity: nat, ops: Operations) -> bool {
    let total = w.run.total as nat;
    let at = start + total;
    let len = bytes.len();
    &&& len <= u64::MAX
    &&& start <= u64::MAX
    &&& total == 0 || at <= len
    &&& w.buffer.len() == capacity
    &&& capacity > 0
    &&& w.file.bytes == processed_between(bytes, start, at, ops)
    &&& match w.run.phase {
        Phase::Locate => w.file.cursor == at,
        Phase::Fill { pos } => pos == at && w.file.cursor == at,
        Phase::Confirm { pos, nread } => {
            &&& pos == at
            &&& w.file.cursor == at + nread
            &&& nread <= CHUNK_SIZE
            &&& nread <= capacity
            &&& nread == 0 <==> at >= len
            &&& at + nread <= len || nread == 0
            &&& nread > 0 ==> w.buffer.subrange(0, nread as int) == bytes.subrange(
                at as int,
                at + nread,
            )
        },
        Phase::Rewind { pos, nread } => {
            &&& pos == at
            &&& 0 < nread <= capacity
            &&& at + nread <= len
            &&& w.buffer.subrange(0, nread as int) == transform_bytes(
                ops,
                bytes.subrange(at as int, at + nread),
            )
        },
        Phase::Flush { nread } => {
            &&& w.file.cursor == at
            &&& 0 < nread <= capacity
            &&& at + nread <= len
            &&& w.buffer.subrange(0, nread as int) == transform_bytes(
                ops,
                bytes.subrange(at as int, at + nread),
            )
        },
        Phase::Finished => at >= len,
        Phase::Aborted { fault } => false,
    }
}

/// A bound on the turns that a consistent run still takes: five for each
/// chunk and three to find the end of the file.
spec fn turns_left(w: World, bytes: Seq<u8>, start: nat) -> nat {
    let left = bytes_left(bytes.len(), start + w.run.total as nat);
    match w.run.phase {
        Phase::Locate => 5 * left + 3,
        Phase::Fill { pos } => 5 * left + 2,
        Phase::Confirm { pos, nread } => if nread == 0 {
            1
        } else {
            (5 * (left - nread) + 6) as nat
        },
        Phase::Rewind { pos, nread } => (5 * (left - nread) + 5) as nat,
        Phase::Flush { nread } => (5 * (left - nread) + 4) as nat,
        Phase::Finished => 0,
        Phase::Aborted { fault } => 0,
    }
}

/// A turn keeps a consistent world consistent and, unless the run has
/// finished, brings it closer to the end.
proof fn lemma_advance(
    w: World,
    bytes: Seq<u8>,
    start: nat,
    capacity: nat,
    ops: Operations,
    want: nat,
)
    requires
        consistent(w, bytes, start, capacity, ops),
    ensures
        consistent(advance(w, ops, want), bytes, start, capacity, ops),
        w.run.phase != Phase::Finished ==> turns_left(advance(w, ops, want), bytes, start)
            < turns_left(w, bytes, start),
        w.run.phase == Phase::Finished ==> advance(w, ops, want) == w,
{
    let next = advance(w, ops, want);
    let total = w.run.total as nat;
    let at = start + total;
    let len = bytes.len();
    let (file, filled, event) = perform(w.file, w.buffer, w.run.pending_spec(), want);
    match w.run.phase {
        Phase::Locate => {
            assert(next.buffer =~= w.buffer);
        },
        Phase::Fill { pos } => {
            let n = read_len(w.file, least(CHUNK_SIZE as nat, capacity), want);
            assert(next.buffer =~= filled);
            if n > 0 {
                assert(next.buffer.subrange(0, n as int) =~= bytes.subrange(
                    at as int,
                    (at + n) as int,
                ));
            }
        },
        Phase::Confirm { pos, nread } => {
            if nread == 0 {
                assert(next.buffer =~= w.buffer);
            } else {
                assert(next.buffer.subrange(0, nread as int) =~= transform_bytes(
                    ops,
                    bytes.subrange(at as int, at + nread),
                ));
            }
        },
        Phase::Rewind { pos, nread } => {
            assert(next.buffer =~= w.buffer);
        },
        Phase::Flush { nread } => {
            assert(next.buffer =~= w.buffer);
            assert(next.file.bytes =~= processed_between(bytes, start, (at + nread) as nat, ops));
        },
        Phase::Finished => {
            assert(next.buffer =~= w.buffer);
        },
        Phase::Aborted { fault } => {},
    }
}

/// A consistent world that needs at most `turns` more turns has finished
/// after `turns` turns, and is still consistent.
proof fn lemma_run_finishes(
    w: World,
    bytes: Seq<u8>,
    start: nat,
    capacity: nat,
    ops: Operations,
    wants: spec_fn(nat) -> nat,
    turns: nat,
)
    requires
        consistent(w, bytes, start, capacity, ops),
        turns_left(w, bytes, start) <= turns,
    ensures
        consistent(run_for(w, ops, wants, turns), bytes, start, capacity, ops),
        run_for(w, ops, wants, turns).run.phase == Phase::Finished,
    decreases turns,
{
    if turns > 0 {
        lemma_advance(w, bytes, start, capacity, ops, wants(w.file.cursor));
        lemma_run_finishes(
            advance(w, ops, wants(w.file.cursor)),
            bytes,
            start,
            capacity,
            ops,
            wants,
            (turns - 1) as nat,
        );
    }
}

/// A run against a well-behaved file, from a cursor at `start`, however
/// short the reads turn out: after at most five turns for each byte left
/// and three more it has finished, never having been given up. The file
/// then has its old length, the bytes before `start` as they were and each
/// byte from `start` on transformed once, and the count reported is the
/// number of bytes from `start` to the end.
pub proof fn theorem_chunked_run(
    bytes: Seq<u8>,
    start: nat,
    buffer: Seq<u8>,
    ops: Operations,
    wants: spec_fn(nat) -> nat,
)
    requires
        bytes.len() <= u64::MAX,
        start <= u64::MAX,
        buffer.len() > 0,
    ensures
        ({
            let left = bytes_left(bytes.len(), start);
            let end = run_for(initial(bytes, start, buffer), ops, wants, 5 * left + 3);
            &&& end.run.pending_spec() == Action::Finish { total: left as u64 }
            &&& end.run.total == left
            &&& end.file.bytes == processed_from(bytes, start, ops)
            &&& end.file.bytes.len() == bytes.len()
        }),
{
    let left = bytes_left(bytes.len(), start);
    let begin = initial(bytes, start, buffer);
    assert(begin.file.bytes =~= processed_between(bytes, start, start, ops));
    lemma_run_finishes(begin, bytes, start, buffer.len(), ops, wants, 5 * left + 3);
    let end = run_for(begin, ops, wants, 5 * left + 3);
    assert(end.file.bytes =~= processed_from(bytes, start, ops));
}

/// The two strategies agree: a run from the start of a file leaves the
/// bytes that transforming the whole file in one pass leaves, which is what
/// `process_mapped` does to a mapped file, and both report the file's
/// length as their count.
pub proof fn lemma_chunked_equals_mapped(
    bytes: Seq<u8>,
    buffer: Seq<u8>,
    ops: Operations,
    wants: spec_fn(nat) -> nat,
)
    requires
        bytes.len() <= u64::MAX,
        buffer.len() > 0,
    ensures
        ({
            let end = run_for(initial(bytes, 0, buffer), ops, wants, 5 * bytes.len() + 3);
            &&& end.file.bytes == transform_bytes(ops, bytes)
            &&& end.run.pending_spec() == Action::Finish { total: bytes.len() as u64 }
        }),
{
    theorem_chunked_run(bytes, 0, buffer, ops, wants);
    assert(processed_from(bytes, 0, ops) =~= transform_bytes(ops, bytes));
}

/// A run with the empty set of operations leaves every byte of the file as
/// it was and still reports all bytes from the cursor to the end as
/// processed.
pub proof fn lemma_empty_set_run(
    bytes: Seq<u8>,
    start: nat,
    buffer: Seq<u8>,
    wants: spec_fn(nat) -> nat,
)
    requires
        bytes.len() <= u64::MAX,
        start <= u64::MAX,
        buffer.len() > 0,
    ensures
        ({
            let none = Operations { flip: false, reverse: false, swab: false };
            let left = bytes_left(bytes.len(), start);
            let end = run_for(initial(bytes, start, buffer), none, wants, 5 * left + 3);
            &&& end.file.bytes == bytes
            &&& end.run.pending_spec() == Action::Finish { total: left as u64 }
        }),
{
    let none = Operations { flip: false, reverse: false, swab: false };
    theorem_chunked_run(bytes, start, buffer, none, wants);
    assert(processed_from(bytes, start, none) =~= bytes);
}

} // verus!
