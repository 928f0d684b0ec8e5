use wasm_streams::{
    DriveAction, IntoSink, IntoUnderlyingSink, LockError, SinkAction, WritableStream,
    HIGH_WATER_MARK,
};

/// What a destination saw: each chunk written, and closes.
#[derive(Debug, PartialEq)]
enum Seen {
    Write(String),
    Close,
}

/// Sends `chunk` through `sink` to a destination that records every write and
/// answers each with `answer(index of the write)`.
fn send_recorded(
    sink: &mut IntoSink<String, u32>,
    chunk: &str,
    capacity: bool,
    seen: &mut Vec<Seen>,
    answer: &dyn Fn(usize) -> Result<(), u32>,
) -> SinkAction<String> {
    let mut action = sink.send(chunk.to_string(), capacity);
    loop {
        match action {
            SinkAction::AwaitReady => action = sink.ready_resolved(Ok(())),
            SinkAction::Write(c) => {
                let n = seen.len();
                seen.push(Seen::Write(c));
                action = sink.write_resolved(answer(n));
            }
            other => return other,
        }
    }
}

fn close_recorded(sink: &mut IntoSink<String, u32>, seen: &mut Vec<Seen>) -> SinkAction<String> {
    match sink.close() {
        SinkAction::Close => {
            seen.push(Seen::Close);
            sink.close_resolved(Ok(()))
        }
        other => other,
    }
}

/// Runs one callback of `driver` over a sink that records what it is handed
/// and whose polls are all ready; `close_result` answers its close polls.
fn drive(
    driver: &mut IntoUnderlyingSink<String, u32>,
    mut action: DriveAction<String, u32>,
    seen: &mut Vec<Seen>,
    close_result: Result<(), u32>,
) -> DriveAction<String, u32> {
    loop {
        action = match action {
            DriveAction::PollReady | DriveAction::PollFlush => driver.polled(Some(Ok(()))),
            DriveAction::StartSend(c) => {
                seen.push(Seen::Write(c));
                driver.sent(Ok(()))
            }
            DriveAction::PollClose => {
                seen.push(Seen::Close);
                driver.polled(Some(close_result))
            }
            done => return done,
        }
    }
}

#[test]
fn test_writable_stream_new() {
    let mut writable = WritableStream::new();
    assert!(!writable.is_locked());
    let writer = writable.get_writer().unwrap();
    assert!(writer.is_held());
    assert!(writable.is_locked());
}

#[test]
fn test_writable_stream_into_sink() {
    let mut writable = WritableStream::new();
    assert!(!writable.is_locked());
    let writer = writable.get_writer().unwrap();
    let mut sink: IntoSink<String, u32> = writer.into_sink();
    let mut seen = Vec::new();
    assert_eq!(send_recorded(&mut sink, "Hello", true, &mut seen, &|_| Ok(())), SinkAction::Done);
    assert_eq!(send_recorded(&mut sink, "world!", false, &mut seen, &|_| Ok(())), SinkAction::Done);
    assert_eq!(close_recorded(&mut sink, &mut seen), SinkAction::Done);
    assert!(sink.is_closed());
    assert_eq!(
        seen,
        vec![Seen::Write("Hello".to_string()), Seen::Write("world!".to_string()), Seen::Close]
    );
}

#[test]
fn test_writable_stream_from_sink() {
    let (mut writable, mut driver) = WritableStream::from_sink::<String, u32>();
    assert!(!writable.is_locked());
    let _writer = writable.get_writer().unwrap();
    let mut seen = Vec::new();
    let a = driver.write("Hello".to_string());
    assert_eq!(drive(&mut driver, a, &mut seen, Ok(())), DriveAction::Resolve);
    let a = driver.write("world!".to_string());
    assert_eq!(drive(&mut driver, a, &mut seen, Ok(())), DriveAction::Resolve);
    let a = driver.close();
    assert_eq!(drive(&mut driver, a, &mut seen, Ok(())), DriveAction::Resolve);
    assert!(!driver.is_busy());
    assert_eq!(
        seen,
        vec![Seen::Write("Hello".to_string()), Seen::Write("world!".to_string()), Seen::Close]
    );
}

#[test]
fn chunks_arrive_in_order() {
    let mut writable = WritableStream::new();
    let mut sink: IntoSink<String, u32> = writable.get_writer().unwrap().into_sink();
    let chunks = ["a", "b", "c", "d"];
    let mut seen = Vec::new();
    for (i, c) in chunks.iter().enumerate() {
        let r = send_recorded(&mut sink, c, i % 2 == 0, &mut seen, &|_| Ok(()));
        assert_eq!(r, SinkAction::Done);
    }
    assert_eq!(seen.len(), 4);
    for (i, c) in chunks.iter().enumerate() {
        assert_eq!(seen[i], Seen::Write(c.to_string()));
    }
    assert_eq!(close_recorded(&mut sink, &mut seen), SinkAction::Done);
    assert_eq!(seen[4], Seen::Close);
}

#[test]
fn send_waits_for_ready_without_capacity() {
    let mut writable = WritableStream::new();
    let mut sink: IntoSink<String, u32> = writable.get_writer().unwrap().into_sink();
    assert_eq!(sink.send("x".to_string(), false), SinkAction::AwaitReady);
    assert!(sink.is_busy());
    assert_eq!(sink.flush(), SinkAction::AwaitReady);
    assert_eq!(sink.ready_resolved(Ok(())), SinkAction::Write("x".to_string()));
    assert!(sink.is_busy());
    assert_eq!(sink.flush(), SinkAction::AwaitWrite);
    assert_eq!(sink.write_resolved(Ok(())), SinkAction::Done);
    assert!(!sink.is_busy());
    assert_eq!(sink.flush(), SinkAction::Done);
}

#[test]
fn second_write_failure_is_recorded() {
    let mut writable = WritableStream::new();
    let mut sink: IntoSink<String, u32> = writable.get_writer().unwrap().into_sink();
    let mut seen = Vec::new();
    let fail_second = |i: usize| if i == 1 { Err(7) } else { Ok(()) };
    assert_eq!(send_recorded(&mut sink, "one", true, &mut seen, &fail_second), SinkAction::Done);
    assert_eq!(send_recorded(&mut sink, "two", true, &mut seen, &fail_second), SinkAction::Failed);
    assert_eq!(sink.error(), Some(&7));
    assert_eq!(send_recorded(&mut sink, "three", true, &mut seen, &fail_second), SinkAction::Failed);
    assert_eq!(sink.error(), Some(&7));
    assert_eq!(seen.len(), 2);
    assert_eq!(sink.flush(), SinkAction::Done);
    assert_eq!(sink.error(), Some(&7));
    assert_eq!(sink.close(), SinkAction::Failed);
}

#[test]
fn ready_failure_errors_the_sink() {
    let mut writable = WritableStream::new();
    let mut sink: IntoSink<String, u32> = writable.get_writer().unwrap().into_sink();
    assert_eq!(sink.send("x".to_string(), false), SinkAction::AwaitReady);
    assert_eq!(sink.ready_resolved(Err(3)), SinkAction::Failed);
    assert_eq!(sink.error(), Some(&3));
    assert!(!sink.is_busy());
}

#[test]
fn close_failure_errors_the_sink() {
    let mut writable = WritableStream::new();
    let mut sink: IntoSink<String, u32> = writable.get_writer().unwrap().into_sink();
    assert_eq!(sink.close(), SinkAction::Close);
    assert_eq!(sink.close_resolved(Err(9)), SinkAction::Failed);
    assert_eq!(sink.error(), Some(&9));
    assert!(!sink.is_closed());
}

#[test]
fn closed_sink_refuses_sends() {
    let mut writable = WritableStream::new();
    let mut sink: IntoSink<String, u32> = writable.get_writer().unwrap().into_sink();
    let mut seen = Vec::new();
    assert_eq!(close_recorded(&mut sink, &mut seen), SinkAction::Done);
    assert_eq!(sink.send("late".to_string(), true), SinkAction::AlreadyClosed);
    assert_eq!(sink.close(), SinkAction::AlreadyClosed);
    assert_eq!(sink.error(), None);
    assert_eq!(seen, vec![Seen::Close]);
}

#[test]
fn get_writer_on_locked_stream_fails() {
    let mut writable = WritableStream::new();
    let _writer = writable.get_writer().unwrap();
    assert_eq!(writable.get_writer().err(), Some(LockError::AlreadyLocked));
    assert!(writable.is_locked());
    assert_eq!(writable.get_writer().err(), Some(LockError::AlreadyLocked));
    assert!(writable.is_locked());
}

#[test]
fn release_unlocks_the_stream() {
    let mut writable = WritableStream::new();
    let mut writer = writable.get_writer().unwrap();
    writer.release_lock(&mut writable);
    assert!(!writer.is_held());
    assert!(!writable.is_locked());
    writer.release_lock(&mut writable);
    assert!(!writable.is_locked());
    let mut again = writable.get_writer().unwrap();
    assert!(writable.is_locked());
    writer.release_lock(&mut writable);
    assert!(writable.is_locked());
    again.release_lock(&mut writable);
    assert!(!writable.is_locked());
}

#[test]
fn sink_adapter_release_returns_the_lock() {
    let mut writable = WritableStream::new();
    let mut sink: IntoSink<String, u32> = writable.get_writer().unwrap().into_sink();
    assert!(writable.is_locked());
    sink.release_lock(&mut writable);
    assert!(!writable.is_locked());
    assert!(writable.get_writer().is_ok());
}

#[test]
fn stream_into_sink_hands_back_a_locked_stream() {
    let mut writable = WritableStream::new();
    let _writer = writable.get_writer().unwrap();
    match writable.into_sink::<String, u32>() {
        Err((back, e)) => {
            assert_eq!(e, LockError::AlreadyLocked);
            assert!(back.is_locked());
        }
        Ok(_) => panic!("a locked stream gave a second writer"),
    }
    let free = WritableStream::new();
    let (mut sink, mut back) = free.into_sink::<String, u32>().ok().unwrap();
    assert!(!sink.is_busy());
    assert!(back.is_locked());
    sink.release_lock(&mut back);
    assert!(!back.is_locked());
}

#[test]
fn abort_without_writer_errors_later_writers() {
    let mut writable = WritableStream::new();
    let mut before = writable.get_writer().unwrap();
    assert!(!before.is_errored(&writable));
    before.release_lock(&mut writable);
    writable.abort();
    assert!(writable.is_aborted());
    assert!(!writable.is_locked());
    let later = writable.get_writer().unwrap();
    assert!(later.is_errored(&writable));
}

#[test]
fn abort_with_writer_held_errors_that_writer() {
    let mut writable = WritableStream::new();
    let mut held = writable.get_writer().unwrap();
    assert!(!held.is_errored(&writable));
    writable.abort();
    assert!(held.is_errored(&writable));
    assert!(writable.is_locked());
    held.release_lock(&mut writable);
    assert!(!writable.is_locked());
}

#[test]
fn round_trip_through_both_adapters() {
    let (mut writable, mut driver) = WritableStream::from_sink::<String, u32>();
    let mut sink: IntoSink<String, u32> = writable.get_writer().unwrap().into_sink();
    let mut received = Vec::new();
    for chunk in ["Hello", "world!"] {
        let mut action = sink.send(chunk.to_string(), true);
        loop {
            action = match action {
                SinkAction::AwaitReady => sink.ready_resolved(Ok(())),
                SinkAction::Write(c) => {
                    let a = driver.write(c);
                    match drive(&mut driver, a, &mut received, Ok(())) {
                        DriveAction::Resolve => sink.write_resolved(Ok(())),
                        DriveAction::Reject(e) => sink.write_resolved(Err(e)),
                        DriveAction::RejectRecorded => {
                            sink.write_resolved(Err(*driver.error().unwrap()))
                        }
                        _ => panic!("callback left unfinished"),
                    }
                }
                other => break assert_eq!(other, SinkAction::Done),
            }
        }
    }
    assert_eq!(sink.close(), SinkAction::Close);
    let a = driver.close();
    assert_eq!(drive(&mut driver, a, &mut received, Ok(())), DriveAction::Resolve);
    assert_eq!(sink.close_resolved(Ok(())), SinkAction::Done);
    assert_eq!(
        received,
        vec![Seen::Write("Hello".to_string()), Seen::Write("world!".to_string()), Seen::Close]
    );
}

#[test]
fn underlying_write_waits_on_pending_polls() {
    let mut driver: IntoUnderlyingSink<String, u32> = IntoUnderlyingSink::new();
    assert_eq!(driver.write("x".to_string()), DriveAction::PollReady);
    assert_eq!(driver.polled(None), DriveAction::PollReady);
    assert_eq!(driver.polled(Some(Ok(()))), DriveAction::StartSend("x".to_string()));
    assert_eq!(driver.sent(Ok(())), DriveAction::PollFlush);
    assert_eq!(driver.polled(None), DriveAction::PollFlush);
    assert_eq!(driver.polled(Some(Ok(()))), DriveAction::Resolve);
    assert!(!driver.is_busy());
}

#[test]
fn underlying_write_records_ready_error() {
    let mut driver: IntoUnderlyingSink<String, u32> = IntoUnderlyingSink::new();
    driver.write("x".to_string());
    assert_eq!(driver.polled(Some(Err(4u32))), DriveAction::RejectRecorded);
    assert_eq!(driver.error(), Some(&4));
    assert!(!driver.is_idle());
    assert_eq!(driver.write("y".to_string()), DriveAction::RejectRecorded);
    assert_eq!(driver.close(), DriveAction::RejectRecorded);
    assert_eq!(driver.error(), Some(&4));
}

#[test]
fn underlying_write_records_send_error() {
    let mut driver: IntoUnderlyingSink<String, u32> = IntoUnderlyingSink::new();
    driver.write("y".to_string());
    driver.polled(Some(Ok(())));
    assert_eq!(driver.sent(Err(5u32)), DriveAction::RejectRecorded);
    assert_eq!(driver.error(), Some(&5));
    let mut seen = Vec::new();
    let a = driver.abort();
    assert_eq!(a, DriveAction::PollClose);
    assert_eq!(drive(&mut driver, a, &mut seen, Ok(())), DriveAction::Resolve);
    assert_eq!(seen, vec![Seen::Close]);
    assert_eq!(driver.error(), None);
}

#[test]
fn underlying_write_records_flush_error() {
    let mut driver: IntoUnderlyingSink<String, u32> = IntoUnderlyingSink::new();
    driver.write("z".to_string());
    driver.polled(Some(Ok(())));
    driver.sent(Ok(()));
    assert_eq!(driver.polled(Some(Err(6u32))), DriveAction::RejectRecorded);
    assert_eq!(driver.error(), Some(&6));
    assert!(!driver.is_busy());
}

#[test]
fn underlying_close_rejects_sink_error() {
    let mut driver: IntoUnderlyingSink<String, u32> = IntoUnderlyingSink::new();
    assert_eq!(driver.close(), DriveAction::PollClose);
    assert_eq!(driver.polled(None), DriveAction::PollClose);
    assert_eq!(driver.polled(Some(Err(8u32))), DriveAction::Reject(8));
    assert_eq!(driver.abort(), DriveAction::Resolve);
}

#[test]
fn underlying_abort_ignores_close_failure() {
    let mut driver: IntoUnderlyingSink<String, u32> = IntoUnderlyingSink::new();
    let mut seen = Vec::new();
    let a = driver.abort();
    assert_eq!(a, DriveAction::PollClose);
    assert_eq!(drive(&mut driver, a, &mut seen, Err(2)), DriveAction::Resolve);
    assert_eq!(seen, vec![Seen::Close]);
    assert_eq!(driver.abort(), DriveAction::Resolve);
}

#[test]
fn high_water_mark_is_one_chunk() {
    assert_eq!(HIGH_WATER_MARK, 1);
}
