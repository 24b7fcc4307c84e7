use flipfile::chunked::{Action, ChunkedRun, Event, Fault, Phase, CHUNK_SIZE};
use flipfile::{process_mapped, Operations};

/// A file held in memory, whose reads deliver at most `short` bytes.
struct MemFile {
    bytes: Vec<u8>,
    cursor: usize,
    short: usize,
    reads: Vec<usize>,
    failing: bool,
}

fn mem_file(bytes: Vec<u8>, cursor: usize, short: usize) -> MemFile {
    MemFile { bytes, cursor, short, reads: Vec::new(), failing: false }
}

fn drive(file: &mut MemFile, ops: &Operations) -> Result<u64, Fault> {
    let mut buffer = vec![0u8; CHUNK_SIZE];
    let mut run = ChunkedRun::new();
    let mut action = run.pending();
    loop {
        let event = match action {
            Action::QueryPosition => Event::Position { pos: file.cursor as u64 },
            Action::Read { max } => {
                let left = file.bytes.len().saturating_sub(file.cursor);
                let len = left.min(max).min(file.short);
                if len > 0 {
                    buffer[..len].copy_from_slice(&file.bytes[file.cursor..file.cursor + len]);
                }
                file.cursor += len;
                file.reads.push(len);
                Event::Read { len }
            }
            Action::Seek { pos } => {
                file.cursor = pos as usize;
                Event::Sought
            }
            Action::Write { len } => {
                let end = file.cursor + len;
                if file.bytes.len() < end {
                    file.bytes.resize(end, 0);
                }
                file.bytes[file.cursor..end].copy_from_slice(&buffer[..len]);
                file.cursor = end;
                Event::Written { len }
            }
            Action::Finish { total } => return Ok(total),
            Action::Abort { fault } => return Err(fault),
        };
        let event = if file.failing { Event::Failed } else { event };
        action = run.step(event, &mut buffer, ops);
    }
}

fn pattern(len: usize) -> Vec<u8> {
    (0..len).map(|i| (i * 31 % 251) as u8).collect()
}

fn flip_only() -> Operations {
    Operations { flip: true, reverse: false, swab: false }
}

fn after_read(pos: u64, len: usize) -> ChunkedRun {
    ChunkedRun { phase: Phase::Confirm { pos, nread: len }, total: 0 }
}

#[test]
fn chunk_size_is_256_kib() {
    assert_eq!(CHUNK_SIZE, 256 * 1024);
}

#[test]
fn a_run_starts_by_locating() {
    let run = ChunkedRun::new();
    assert_eq!(run, ChunkedRun { phase: Phase::Locate, total: 0 });
    assert_eq!(run.pending(), Action::QueryPosition);
}

#[test]
fn one_chunk_cycle() {
    let ops = flip_only();
    let mut buffer = vec![0xB1u8, 0x00, 0x07];
    let mut run = ChunkedRun::new();
    assert_eq!(
        run.step(Event::Position { pos: 10 }, &mut buffer, &ops),
        Action::Read { max: CHUNK_SIZE }
    );
    assert_eq!(run.step(Event::Read { len: 2 }, &mut buffer, &ops), Action::QueryPosition);
    assert_eq!(buffer, vec![0xB1, 0x00, 0x07]);
    assert_eq!(
        run.step(Event::Position { pos: 12 }, &mut buffer, &ops),
        Action::Seek { pos: 10 }
    );
    assert_eq!(buffer, vec![0x4E, 0xFF, 0x07]);
    assert_eq!(run.step(Event::Sought, &mut buffer, &ops), Action::Write { len: 2 });
    assert_eq!(run.total, 0);
    assert_eq!(run.step(Event::Written { len: 2 }, &mut buffer, &ops), Action::QueryPosition);
    assert_eq!(run, ChunkedRun { phase: Phase::Locate, total: 2 });
    assert_eq!(buffer, vec![0x4E, 0xFF, 0x07]);
}

#[test]
fn an_empty_read_finishes_the_run() {
    let ops = flip_only();
    let mut buffer = vec![0x11u8; 4];
    let mut run = ChunkedRun { phase: Phase::Locate, total: 7 };
    run.step(Event::Position { pos: 7 }, &mut buffer, &ops);
    run.step(Event::Read { len: 0 }, &mut buffer, &ops);
    assert_eq!(
        run.step(Event::Position { pos: 7 }, &mut buffer, &ops),
        Action::Finish { total: 7 }
    );
    assert_eq!(run.phase, Phase::Finished);
    assert_eq!(buffer, vec![0x11u8; 4]);
}

#[test]
fn a_failed_request_gives_up_at_once() {
    let ops = flip_only();
    let mut buffer = vec![0x11u8; 4];
    let live = [
        Phase::Locate,
        Phase::Fill { pos: 3 },
        Phase::Confirm { pos: 3, nread: 2 },
        Phase::Rewind { pos: 3, nread: 2 },
        Phase::Flush { nread: 2 },
    ];
    for phase in live {
        let mut run = ChunkedRun { phase, total: 6 };
        assert_eq!(
            run.step(Event::Failed, &mut buffer, &ops),
            Action::Abort { fault: Fault::Io }
        );
        assert_eq!(run, ChunkedRun { phase: Phase::Aborted { fault: Fault::Io }, total: 6 });
    }
    assert_eq!(buffer, vec![0x11u8; 4]);
    let mut done = ChunkedRun { phase: Phase::Finished, total: 6 };
    assert_eq!(done.step(Event::Failed, &mut buffer, &ops), Action::Finish { total: 6 });
}

#[test]
fn a_failing_file_is_left_untouched() {
    let before = pattern(100);
    let mut file = mem_file(before.clone(), 0, usize::MAX);
    file.failing = true;
    assert_eq!(drive(&mut file, &flip_only()), Err(Fault::Io));
    assert_eq!(file.bytes, before);
}

#[test]
fn position_mismatch_gives_up() {
    let ops = flip_only();
    let mut buffer = vec![0x11u8; 4];
    let mut run = after_read(10, 2);
    assert_eq!(
        run.step(Event::Position { pos: 13 }, &mut buffer, &ops),
        Action::Abort { fault: Fault::PositionMismatch }
    );
    assert_eq!(buffer, vec![0x11u8; 4]);
}

#[test]
fn position_mismatch_is_checked_before_the_end_of_file() {
    let ops = flip_only();
    let mut buffer = vec![0x11u8; 4];
    let mut run = after_read(10, 0);
    assert_eq!(
        run.step(Event::Position { pos: 11 }, &mut buffer, &ops),
        Action::Abort { fault: Fault::PositionMismatch }
    );
}

#[test]
fn position_past_the_last_offset_is_a_mismatch() {
    let ops = flip_only();
    let mut buffer = vec![0x11u8; 4];
    let mut run = after_read(u64::MAX, 2);
    assert_eq!(
        run.step(Event::Position { pos: 1 }, &mut buffer, &ops),
        Action::Abort { fault: Fault::PositionMismatch }
    );
}

#[test]
fn short_write_gives_up() {
    let ops = flip_only();
    let mut buffer = vec![0x11u8; 4];
    let mut run = ChunkedRun { phase: Phase::Flush { nread: 3 }, total: 5 };
    assert_eq!(
        run.step(Event::Written { len: 2 }, &mut buffer, &ops),
        Action::Abort { fault: Fault::ShortWrite }
    );
    assert_eq!(run.total, 5);
}

#[test]
fn overlong_write_breaks_the_protocol() {
    let ops = flip_only();
    let mut buffer = vec![0x11u8; 4];
    let mut run = ChunkedRun { phase: Phase::Flush { nread: 3 }, total: 5 };
    assert_eq!(
        run.step(Event::Written { len: 4 }, &mut buffer, &ops),
        Action::Abort { fault: Fault::Protocol }
    );
}

#[test]
fn overlong_read_breaks_the_protocol() {
    let ops = flip_only();
    let mut buffer = vec![0x11u8; 4];
    let mut run = ChunkedRun { phase: Phase::Fill { pos: 0 }, total: 0 };
    assert_eq!(
        run.step(Event::Read { len: CHUNK_SIZE + 1 }, &mut buffer, &ops),
        Action::Abort { fault: Fault::Protocol }
    );
    let mut full = ChunkedRun { phase: Phase::Fill { pos: 0 }, total: 0 };
    assert_eq!(
        full.step(Event::Read { len: CHUNK_SIZE }, &mut buffer, &ops),
        Action::QueryPosition
    );
}

#[test]
fn read_beyond_the_buffer_breaks_the_protocol() {
    let ops = flip_only();
    let mut buffer = vec![0x11u8; 4];
    let mut run = after_read(0, 5);
    assert_eq!(
        run.step(Event::Position { pos: 5 }, &mut buffer, &ops),
        Action::Abort { fault: Fault::Protocol }
    );
    assert_eq!(buffer, vec![0x11u8; 4]);
}

#[test]
fn unexpected_event_breaks_the_protocol() {
    let ops = flip_only();
    let mut buffer = vec![0x11u8; 4];
    let mut run = ChunkedRun::new();
    assert_eq!(
        run.step(Event::Sought, &mut buffer, &ops),
        Action::Abort { fault: Fault::Protocol }
    );
    let mut run = ChunkedRun { phase: Phase::Rewind { pos: 0, nread: 1 }, total: 0 };
    assert_eq!(
        run.step(Event::Written { len: 1 }, &mut buffer, &ops),
        Action::Abort { fault: Fault::Protocol }
    );
    let mut run = ChunkedRun { phase: Phase::Fill { pos: 0 }, total: 0 };
    assert_eq!(
        run.step(Event::Position { pos: 0 }, &mut buffer, &ops),
        Action::Abort { fault: Fault::Protocol }
    );
}

#[test]
fn count_overflow_gives_up() {
    let ops = flip_only();
    let mut buffer = vec![0x11u8; 4];
    let mut run = ChunkedRun { phase: Phase::Flush { nread: 2 }, total: u64::MAX - 1 };
    assert_eq!(
        run.step(Event::Written { len: 2 }, &mut buffer, &ops),
        Action::Abort { fault: Fault::CountOverflow }
    );
    let mut run = ChunkedRun { phase: Phase::Flush { nread: 2 }, total: u64::MAX - 2 };
    assert_eq!(run.step(Event::Written { len: 2 }, &mut buffer, &ops), Action::QueryPosition);
    assert_eq!(run.total, u64::MAX);
}

#[test]
fn an_ended_run_stays_as_it_is() {
    let ops = flip_only();
    let mut buffer = vec![0x11u8; 4];
    let mut done = ChunkedRun { phase: Phase::Finished, total: 9 };
    assert_eq!(
        done.step(Event::Position { pos: 3 }, &mut buffer, &ops),
        Action::Finish { total: 9 }
    );
    assert_eq!(done.step(Event::Read { len: 2 }, &mut buffer, &ops), Action::Finish { total: 9 });
    let mut failed = ChunkedRun { phase: Phase::Aborted { fault: Fault::ShortWrite }, total: 4 };
    assert_eq!(
        failed.step(Event::Sought, &mut buffer, &ops),
        Action::Abort { fault: Fault::ShortWrite }
    );
    assert_eq!(failed.total, 4);
    assert_eq!(buffer, vec![0x11u8; 4]);
}

#[test]
fn file_of_one_chunk_and_one_byte() {
    let before = pattern(CHUNK_SIZE + 1);
    let ops = Operations { flip: true, reverse: true, swab: false };
    let mut file = mem_file(before.clone(), 0, usize::MAX);
    assert_eq!(drive(&mut file, &ops), Ok((CHUNK_SIZE + 1) as u64));
    assert_eq!(file.reads, vec![CHUNK_SIZE, 1, 0]);
    assert_eq!(file.bytes.len(), CHUNK_SIZE + 1);
    for i in 0..before.len() {
        assert_eq!(file.bytes[i], ops.apply(before[i]));
    }
}

#[test]
fn file_of_exactly_one_chunk() {
    let before = pattern(CHUNK_SIZE);
    let ops = Operations { flip: false, reverse: false, swab: true };
    let mut file = mem_file(before.clone(), 0, usize::MAX);
    assert_eq!(drive(&mut file, &ops), Ok(CHUNK_SIZE as u64));
    assert_eq!(file.reads, vec![CHUNK_SIZE, 0]);
    let expected: Vec<u8> = before.iter().map(|b| ops.apply(*b)).collect();
    assert_eq!(file.bytes, expected);
}

#[test]
fn empty_file_reports_zero() {
    let mut file = mem_file(Vec::new(), 0, usize::MAX);
    assert_eq!(drive(&mut file, &flip_only()), Ok(0));
    assert!(file.bytes.is_empty());
}

#[test]
fn run_starts_at_the_cursor() {
    let before = pattern(1000);
    let ops = flip_only();
    let mut file = mem_file(before.clone(), 400, usize::MAX);
    assert_eq!(drive(&mut file, &ops), Ok(600));
    assert_eq!(file.bytes.len(), 1000);
    assert_eq!(&file.bytes[..400], &before[..400]);
    for i in 400..1000 {
        assert_eq!(file.bytes[i], !before[i]);
    }
}

#[test]
fn cursor_past_the_end_changes_nothing() {
    let before = pattern(10);
    let mut file = mem_file(before.clone(), 25, usize::MAX);
    assert_eq!(drive(&mut file, &flip_only()), Ok(0));
    assert_eq!(file.bytes, before);
}

#[test]
fn short_reads_skip_and_repeat_nothing() {
    let before = pattern(10_000);
    let ops = Operations { flip: true, reverse: false, swab: true };
    for short in [1usize, 7, 4096] {
        let mut file = mem_file(before.clone(), 0, short);
        assert_eq!(drive(&mut file, &ops), Ok(10_000));
        let expected: Vec<u8> = before.iter().map(|b| ops.apply(*b)).collect();
        assert_eq!(file.bytes, expected);
    }
}

#[test]
fn chunked_and_mapped_agree() {
    let before = pattern(CHUNK_SIZE * 2 + 123);
    for bits in 0..8u8 {
        let ops = Operations { flip: bits & 1 != 0, reverse: bits & 2 != 0, swab: bits & 4 != 0 };
        let mut file = mem_file(before.clone(), 0, usize::MAX);
        let streamed = drive(&mut file, &ops);
        let mut region = before.clone();
        let mapped = process_mapped(&mut region, &ops);
        assert_eq!(streamed, Ok(mapped));
        assert_eq!(file.bytes, region);
    }
}

#[test]
fn empty_set_still_counts_every_byte() {
    let before = pattern(CHUNK_SIZE + 5);
    let mut file = mem_file(before.clone(), 0, usize::MAX);
    assert_eq!(drive(&mut file, &Operations::default()), Ok((CHUNK_SIZE + 5) as u64));
    assert_eq!(file.bytes, before);
}
