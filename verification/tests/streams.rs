use cstream::{
    CDest, CFile, CSource, Cursor, CursorMut, NativeCall, NativeReply, Replies, SeekFrom, Step,
    StreamError, Whence, EOF,
};

const HANDLE: usize = 0x7f00_1000;

/// A native layer that answers from a script and keeps a log of the calls.
struct Scripted {
    count: usize,
    status: i32,
    indicator: i32,
    position: i64,
    log: Vec<NativeCall>,
}

impl Scripted {
    fn new(count: usize, status: i32, indicator: i32, position: i64) -> Scripted {
        Scripted { count, status, indicator, position, log: Vec::new() }
    }

    fn perform(&mut self, handle: usize, call: NativeCall) -> NativeReply {
        assert_eq!(handle, HANDLE);
        assert!(self.log.len() < 3, "more than three native calls: {:?}", self.log);
        self.log.push(call);
        match call {
            NativeCall::Read { .. } | NativeCall::Write { .. } => NativeReply::Count(self.count),
            NativeCall::Seek { .. } | NativeCall::Flush => NativeReply::Status(self.status),
            NativeCall::ErrorIndicator => NativeReply::Indicator(self.indicator),
            NativeCall::Tell => NativeReply::Position(self.position),
        }
    }
}

fn run_read(source: &mut CSource, buf: &mut [u8], native: &mut Scripted) -> Result<usize, StreamError> {
    let mut replies = Replies::new();
    loop {
        match source.read(buf, &replies) {
            Step::Done(result) => return result,
            Step::Call { handle, call } => replies.record(native.perform(handle, call)),
        }
    }
}

fn run_source_seek(source: &mut CSource, to: SeekFrom, native: &mut Scripted) -> Result<u64, StreamError> {
    let mut replies = Replies::new();
    loop {
        match source.seek(to, &replies) {
            Step::Done(result) => return result,
            Step::Call { handle, call } => replies.record(native.perform(handle, call)),
        }
    }
}

fn run_write(dest: &mut CDest, buf: &[u8], native: &mut Scripted) -> Result<usize, StreamError> {
    let mut replies = Replies::new();
    loop {
        match dest.write(buf, &replies) {
            Step::Done(result) => return result,
            Step::Call { handle, call } => replies.record(native.perform(handle, call)),
        }
    }
}

fn run_dest_seek(dest: &mut CDest, to: SeekFrom, native: &mut Scripted) -> Result<u64, StreamError> {
    let mut replies = Replies::new();
    loop {
        match dest.seek(to, &replies) {
            Step::Done(result) => return result,
            Step::Call { handle, call } => replies.record(native.perform(handle, call)),
        }
    }
}

fn run_flush(dest: &mut CDest, native: &mut Scripted) -> Result<(), StreamError> {
    let mut replies = Replies::new();
    loop {
        match dest.flush(&replies) {
            Step::Done(result) => return result,
            Step::Call { handle, call } => replies.record(native.perform(handle, call)),
        }
    }
}

fn file_source() -> CSource<'static> {
    CSource::File(CFile::new_unchecked(HANDLE))
}

fn file_dest() -> CDest<'static> {
    CDest::File(CFile::new_unchecked(HANDLE))
}

fn position_of_source(source: &CSource) -> u64 {
    match source {
        CSource::Memory(cursor) => cursor.position(),
        CSource::File(_) => panic!("a handle-backed source keeps no position"),
    }
}

fn position_of_dest(dest: &CDest) -> u64 {
    match dest {
        CDest::Memory(cursor) => cursor.position(),
        CDest::File(_) => panic!("a handle-backed destination keeps no position"),
    }
}

#[test]
fn memory_source_reads_at_once() {
    let data = [1u8, 2, 3, 4, 5];
    let mut source = CSource::Memory(Cursor::new(&data));
    let mut buf = [0u8; 3];
    assert_eq!(source.read(&mut buf, &Replies::new()), Step::Done(Ok(3)));
    assert_eq!(buf, [1, 2, 3]);
    assert_eq!(position_of_source(&source), 3);
    assert_eq!(source.read(&mut buf, &Replies::new()), Step::Done(Ok(2)));
    assert_eq!(buf, [4, 5, 3]);
    assert_eq!(position_of_source(&source), 5);
    assert_eq!(source.read(&mut buf, &Replies::new()), Step::Done(Ok(0)));
}

#[test]
fn memory_source_pays_no_heed_to_replies() {
    let data = [1u8, 2, 3, 4, 5];
    let mut source = CSource::Memory(Cursor::new(&data));
    let mut buf = [0u8; 2];
    let mut replies = Replies::new();
    replies.record(NativeReply::Count(0));
    replies.record(NativeReply::Indicator(5));
    replies.record(NativeReply::Status(-1));
    assert_eq!(source.read(&mut buf, &replies), Step::Done(Ok(2)));
    assert_eq!(buf, [1, 2]);
    assert_eq!(source.seek(SeekFrom::Start(4), &replies), Step::Done(Ok(4)));
}

#[test]
fn memory_source_seeks_at_once() {
    let data = [1u8, 2, 3, 4, 5];
    let mut source = CSource::Memory(Cursor::new(&data));
    assert_eq!(source.seek(SeekFrom::End(-2), &Replies::new()), Step::Done(Ok(3)));
    assert_eq!(position_of_source(&source), 3);
    assert_eq!(
        source.seek(SeekFrom::Current(-4), &Replies::new()),
        Step::Done(Err(StreamError::InvalidSeek))
    );
    assert_eq!(position_of_source(&source), 3);
}

#[test]
fn memory_source_takes_offsets_beyond_the_native_range() {
    let data = [1u8, 2, 3];
    let mut source = CSource::Memory(Cursor::new(&data));
    assert_eq!(
        source.seek(SeekFrom::Start(0x1_0000_0000), &Replies::new()),
        Step::Done(Ok(0x1_0000_0000))
    );
    assert_eq!(
        source.seek(SeekFrom::Current(-0x8000_0000), &Replies::new()),
        Step::Done(Ok(0x8000_0000))
    );
}

#[test]
fn seek_then_read_yields_the_bytes_at_the_target() {
    let data: Vec<u8> = (0..20u8).map(|i| i * 3).collect();
    let len = data.len() as i64;
    for start in 0..=len {
        for target in 0..=len {
            for to in [
                SeekFrom::Start(target as u64),
                SeekFrom::End(target - len),
                SeekFrom::Current(target - start),
            ] {
                for want in [0usize, 1, 5, 20, 25] {
                    let mut source = CSource::Memory(Cursor { data: &data, pos: start as u64 });
                    assert_eq!(source.seek(to, &Replies::new()), Step::Done(Ok(target as u64)));
                    let mut buf = vec![0xeeu8; want];
                    let at = target as usize;
                    let n = want.min(data.len() - at);
                    assert_eq!(source.read(&mut buf, &Replies::new()), Step::Done(Ok(n)));
                    assert_eq!(&buf[..n], &data[at..at + n]);
                    assert!(buf[n..].iter().all(|b| *b == 0xee));
                    assert_eq!(position_of_source(&source), (at + n) as u64);
                }
            }
        }
    }
}

#[test]
fn memory_destination_writes_at_once() {
    let mut room = [0u8; 4];
    let mut dest = CDest::Memory(CursorMut::new(&mut room));
    assert_eq!(dest.write(&[9, 8, 7], &Replies::new()), Step::Done(Ok(3)));
    assert_eq!(position_of_dest(&dest), 3);
    assert_eq!(dest.write(&[6, 5, 4], &Replies::new()), Step::Done(Ok(1)));
    assert_eq!(position_of_dest(&dest), 4);
    assert_eq!(dest.write(&[3], &Replies::new()), Step::Done(Ok(0)));
    assert_eq!(room, [9, 8, 7, 6]);
}

#[test]
fn memory_destination_flush_always_succeeds() {
    let mut room = [1u8, 2];
    let mut dest = CDest::Memory(CursorMut { data: &mut room, pos: 1 });
    assert_eq!(dest.flush(&Replies::new()), Step::Done(Ok(())));
    let mut replies = Replies::new();
    replies.record(NativeReply::Status(EOF));
    replies.record(NativeReply::Indicator(5));
    assert_eq!(dest.flush(&replies), Step::Done(Ok(())));
    assert_eq!(position_of_dest(&dest), 1);
    assert_eq!(room, [1, 2]);
}

#[test]
fn memory_destination_seeks_at_once() {
    let mut room = [0u8; 6];
    let mut dest = CDest::Memory(CursorMut::new(&mut room));
    assert_eq!(dest.seek(SeekFrom::Start(4), &Replies::new()), Step::Done(Ok(4)));
    assert_eq!(dest.write(&[1, 2, 3], &Replies::new()), Step::Done(Ok(2)));
    assert_eq!(
        dest.seek(SeekFrom::End(-7), &Replies::new()),
        Step::Done(Err(StreamError::InvalidSeek))
    );
    assert_eq!(position_of_dest(&dest), 6);
    assert_eq!(dest.seek(SeekFrom::Current(0), &Replies::new()), Step::Done(Ok(6)));
    assert_eq!(room, [0, 0, 0, 0, 1, 2]);
}

#[test]
fn memory_round_trip_gives_the_bytes_back() {
    let mut seed: u32 = 0x2545_f491;
    for len in [0usize, 1, 2, 17, 256, 1000] {
        let bytes: Vec<u8> = (0..len)
            .map(|_| {
                seed ^= seed << 13;
                seed ^= seed >> 17;
                seed ^= seed << 5;
                (seed >> 8) as u8
            })
            .collect();
        let mut room = vec![0u8; len + 3];
        let mut dest = CDest::Memory(CursorMut::new(&mut room));
        assert_eq!(dest.write(&bytes, &Replies::new()), Step::Done(Ok(len)));
        assert_eq!(dest.flush(&Replies::new()), Step::Done(Ok(())));
        assert_eq!(position_of_dest(&dest), len as u64);
        let mut source = CSource::Memory(Cursor::new(&room));
        let mut back = vec![0u8; len];
        assert_eq!(source.read(&mut back, &Replies::new()), Step::Done(Ok(len)));
        assert_eq!(back, bytes);
        assert_eq!(position_of_source(&source), len as u64);
    }
}

#[test]
fn memory_round_trip_of_too_many_bytes_gives_the_part_that_fitted() {
    let bytes = [1u8, 2, 3, 4, 5, 6];
    let mut room = [0u8; 4];
    let mut dest = CDest::Memory(CursorMut::new(&mut room));
    assert_eq!(dest.write(&bytes, &Replies::new()), Step::Done(Ok(4)));
    let mut source = CSource::Memory(Cursor::new(&room));
    let mut back = [0u8; 6];
    assert_eq!(source.read(&mut back, &Replies::new()), Step::Done(Ok(4)));
    assert_eq!(back, [1, 2, 3, 4, 0, 0]);
    assert_eq!(position_of_source(&source), 4);
}

#[test]
fn file_source_takes_the_steps_of_its_adapter() {
    let file = CFile::new_unchecked(HANDLE);
    let mut source = CSource::File(file);
    let mut buf = [0x11u8; 8];
    let mut replies = Replies::new();
    assert_eq!(source.read(&mut buf, &replies), file.read(8, &replies));
    assert_eq!(
        source.read(&mut buf, &replies),
        Step::Call { handle: HANDLE, call: NativeCall::Read { len: 8 } }
    );
    replies.record(NativeReply::Count(3));
    assert_eq!(source.read(&mut buf, &replies), file.read(8, &replies));
    replies.record(NativeReply::Indicator(0));
    assert_eq!(source.read(&mut buf, &replies), Step::Done(Ok(3)));
    assert_eq!(buf, [0x11; 8]);
    let mut replies = Replies::new();
    assert_eq!(
        source.seek(SeekFrom::End(-3), &replies),
        Step::Call { handle: HANDLE, call: NativeCall::Seek { offset: -3, whence: Whence::End } }
    );
    replies.record(NativeReply::Status(0));
    assert_eq!(source.seek(SeekFrom::End(-3), &replies), file.seek(SeekFrom::End(-3), &replies));
    replies.record(NativeReply::Position(5));
    assert_eq!(source.seek(SeekFrom::End(-3), &replies), Step::Done(Ok(5)));
}

#[test]
fn file_destination_takes_the_steps_of_its_adapter() {
    let file = CFile::new_unchecked(HANDLE);
    let mut dest = CDest::File(file);
    let mut replies = Replies::new();
    assert_eq!(
        dest.write(&[1, 2, 3, 4], &replies),
        Step::Call { handle: HANDLE, call: NativeCall::Write { len: 4 } }
    );
    replies.record(NativeReply::Count(4));
    assert_eq!(dest.write(&[1, 2, 3, 4], &replies), Step::Done(Ok(4)));
    let mut replies = Replies::new();
    assert_eq!(dest.flush(&replies), Step::Call { handle: HANDLE, call: NativeCall::Flush });
    replies.record(NativeReply::Status(EOF));
    assert_eq!(dest.flush(&replies), file.flush(&replies));
    replies.record(NativeReply::Indicator(5));
    assert_eq!(dest.flush(&replies), Step::Done(Err(StreamError::Os(5))));
    let replies = Replies::new();
    assert_eq!(
        dest.seek(SeekFrom::Start(2), &replies),
        Step::Call { handle: HANDLE, call: NativeCall::Seek { offset: 2, whence: Whence::Start } }
    );
    assert_eq!(
        dest.seek(SeekFrom::Current(0), &replies),
        Step::Call { handle: HANDLE, call: NativeCall::Tell }
    );
}

#[test]
fn full_read_makes_one_native_call() {
    let mut native = Scripted::new(8, 0, 5, 0);
    let mut buf = [0u8; 8];
    assert_eq!(run_read(&mut file_source(), &mut buf, &mut native), Ok(8));
    assert_eq!(native.log, vec![NativeCall::Read { len: 8 }]);
}

#[test]
fn short_read_with_clear_indicator_returns_the_count() {
    let mut native = Scripted::new(3, 0, 0, 0);
    let mut buf = [0u8; 8];
    assert_eq!(run_read(&mut file_source(), &mut buf, &mut native), Ok(3));
    assert_eq!(native.log, vec![NativeCall::Read { len: 8 }, NativeCall::ErrorIndicator]);
}

#[test]
fn short_read_with_set_indicator_returns_the_matching_error() {
    let mut native = Scripted::new(3, 0, 5, 0);
    let mut buf = [0u8; 8];
    assert_eq!(run_read(&mut file_source(), &mut buf, &mut native), Err(StreamError::Os(5)));
    assert_eq!(native.log, vec![NativeCall::Read { len: 8 }, NativeCall::ErrorIndicator]);
}

#[test]
fn short_write_with_clear_indicator_returns_the_count() {
    let mut native = Scripted::new(2, 0, 0, 0);
    assert_eq!(run_write(&mut file_dest(), &[1, 2, 3, 4, 5], &mut native), Ok(2));
    assert_eq!(native.log, vec![NativeCall::Write { len: 5 }, NativeCall::ErrorIndicator]);
}

#[test]
fn short_write_with_set_indicator_returns_the_matching_error() {
    let mut native = Scripted::new(2, 0, 28, 0);
    assert_eq!(
        run_write(&mut file_dest(), &[1, 2, 3, 4, 5], &mut native),
        Err(StreamError::Os(28))
    );
    assert_eq!(native.log, vec![NativeCall::Write { len: 5 }, NativeCall::ErrorIndicator]);
}

#[test]
fn full_write_makes_one_native_call() {
    let mut native = Scripted::new(5, 0, 28, 0);
    assert_eq!(run_write(&mut file_dest(), &[1, 2, 3, 4, 5], &mut native), Ok(5));
    assert_eq!(native.log, vec![NativeCall::Write { len: 5 }]);
}

#[test]
fn position_query_never_issues_a_native_seek() {
    for status in [0, -1, 7] {
        for indicator in [0, 5] {
            for position in [0i64, 42, 0x7fff_ffff] {
                let mut native = Scripted::new(0, status, indicator, position);
                assert_eq!(
                    run_source_seek(&mut file_source(), SeekFrom::Current(0), &mut native),
                    Ok(position as u64)
                );
                assert_eq!(native.log, vec![NativeCall::Tell]);
                let mut native = Scripted::new(0, status, indicator, position);
                assert_eq!(
                    run_dest_seek(&mut file_dest(), SeekFrom::Current(0), &mut native),
                    Ok(position as u64)
                );
                assert_eq!(native.log, vec![NativeCall::Tell]);
            }
        }
    }
}

#[test]
fn position_query_twice_gives_the_same_position() {
    let mut source = file_source();
    let mut native = Scripted::new(0, 0, 0, 77);
    let first = run_source_seek(&mut source, SeekFrom::Current(0), &mut native);
    let mut native = Scripted::new(0, 0, 0, 77);
    let second = run_source_seek(&mut source, SeekFrom::Current(0), &mut native);
    assert_eq!(first, Ok(77));
    assert_eq!(second, first);
}

#[test]
fn successful_seek_seeks_and_then_queries() {
    let mut native = Scripted::new(0, 0, 9, 12);
    assert_eq!(run_source_seek(&mut file_source(), SeekFrom::End(-4), &mut native), Ok(12));
    assert_eq!(
        native.log,
        vec![NativeCall::Seek { offset: -4, whence: Whence::End }, NativeCall::Tell]
    );
    let mut native = Scripted::new(0, 0, 9, 0);
    assert_eq!(run_dest_seek(&mut file_dest(), SeekFrom::Start(0), &mut native), Ok(0));
    assert_eq!(
        native.log,
        vec![NativeCall::Seek { offset: 0, whence: Whence::Start }, NativeCall::Tell]
    );
    let mut native = Scripted::new(0, 0, 9, 30);
    assert_eq!(run_dest_seek(&mut file_dest(), SeekFrom::Current(10), &mut native), Ok(30));
    assert_eq!(
        native.log,
        vec![NativeCall::Seek { offset: 10, whence: Whence::Current }, NativeCall::Tell]
    );
}

#[test]
fn failed_seek_returns_the_indicator_and_queries_no_position() {
    let mut native = Scripted::new(0, -1, 22, 12);
    assert_eq!(
        run_source_seek(&mut file_source(), SeekFrom::Start(100), &mut native),
        Err(StreamError::Os(22))
    );
    assert_eq!(
        native.log,
        vec![NativeCall::Seek { offset: 100, whence: Whence::Start }, NativeCall::ErrorIndicator]
    );
}

#[test]
fn successful_flush_makes_one_native_call() {
    let mut native = Scripted::new(0, 0, 5, 0);
    assert_eq!(run_flush(&mut file_dest(), &mut native), Ok(()));
    assert_eq!(native.log, vec![NativeCall::Flush]);
}

#[test]
fn failed_flush_returns_the_indicator() {
    let mut native = Scripted::new(0, EOF, 5, 0);
    assert_eq!(run_flush(&mut file_dest(), &mut native), Err(StreamError::Os(5)));
    assert_eq!(native.log, vec![NativeCall::Flush, NativeCall::ErrorIndicator]);
}

#[test]
fn every_operation_ends_within_three_native_calls() {
    for count in [0usize, 3, 8, 9] {
        for status in [0, 1, EOF] {
            for indicator in [0, 5] {
                for position in [-1i64, 0, 9] {
                    let script = || Scripted::new(count, status, indicator, position);
                    let mut buf = [0u8; 8];
                    let mut native = script();
                    let _ = run_read(&mut file_source(), &mut buf, &mut native);
                    assert!(native.log.len() <= 2);
                    let mut native = script();
                    let _ = run_write(&mut file_dest(), &buf, &mut native);
                    assert!(native.log.len() <= 2);
                    let mut native = script();
                    let _ = run_flush(&mut file_dest(), &mut native);
                    assert!(native.log.len() <= 2);
                    for to in [SeekFrom::Start(0), SeekFrom::Current(0), SeekFrom::End(-1)] {
                        let mut native = script();
                        let _ = run_source_seek(&mut file_source(), to, &mut native);
                        assert!(native.log.len() <= 3);
                    }
                }
            }
        }
    }
}
