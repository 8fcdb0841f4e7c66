use siminau_rpc::future::{poll_step, read_to_block, PollAction, ReadOutcome, ReadToBlock};
use siminau_rpc::server::{
    receive_error_text, ControlPoll, ServerAction, ServerMessage, ServerState,
};
use std::io::{self, Cursor, Read};

// A reader that hands out one chunk per read, and says it would block in
// between chunks and once the chunks are used up.
struct MockRead {
    inner: Vec<String>,
    read_cursor: bool,
}

impl MockRead {
    fn new(buf: Vec<String>) -> MockRead {
        MockRead { inner: buf, read_cursor: false }
    }
}

impl Read for MockRead {
    fn read(&mut self, buf: &mut [u8]) -> io::Result<usize> {
        if self.read_cursor || self.inner.is_empty() {
            self.read_cursor = false;
            Err(io::Error::new(io::ErrorKind::WouldBlock, "would block"))
        } else {
            self.read_cursor = true;
            let data = self.inner.remove(0).into_bytes();
            let mut cur = Cursor::new(data);
            cur.read(buf)
        }
    }
}

// One poll of the reading, with the read performed here.
fn poll<R: Read>(fut: &mut ReadToBlock<R>) -> (PollAction, Option<(R, Vec<u8>)>) {
    let (mut a, mut buf) = fut.take().expect("poll ReadToBlock after it's done");
    let outcome = match a.read_to_end(&mut buf) {
        Ok(_) => ReadOutcome::Eof,
        Err(ref e) if e.kind() == io::ErrorKind::WouldBlock => ReadOutcome::WouldBlock,
        Err(_) => ReadOutcome::Failed,
    };
    fut.settle(a, buf, outcome)
}

#[test]
fn to_eof() {
    for val in ["a", "hello world"] {
        let cursor = Cursor::new(val.to_string().into_bytes());
        let mut fut = read_to_block(cursor, Vec::new());
        let (action, out) = poll(&mut fut);
        assert_eq!(action, PollAction::Ready);
        let (_, buf) = out.unwrap();
        assert_eq!(String::from_utf8(buf).unwrap(), val);
        assert!(fut.is_done());
    }
}

#[test]
fn would_block() {
    let val = vec![String::from("hello"), String::from("world")];
    let expected = val[0].clone();
    let reader = MockRead::new(val);
    let mut fut = read_to_block(reader, Vec::new());
    let (action, out) = poll(&mut fut);
    assert_eq!(action, PollAction::Ready);
    let (_, buf) = out.unwrap();
    let result = String::from_utf8(buf).unwrap();
    assert_eq!(result, expected);
}

#[test]
fn would_block_empty_buffer() {
    let reader = MockRead::new(Vec::new());
    let mut fut = read_to_block(reader, Vec::new());
    let (action, out) = poll(&mut fut);
    assert_eq!(action, PollAction::NotReady);
    assert!(out.is_none());
    assert!(!fut.is_done());
    // The reading is still pending, so the other future's buffer is taken.
    let buf = match action {
        PollAction::NotReady => vec![42],
        _ => unreachable!(),
    };
    assert_eq!(buf.len(), 1);
    assert_eq!(buf, vec![42]);
}

#[test]
fn poll_after_done_takes_nothing() {
    let mut fut = read_to_block(Cursor::new(vec![1u8]), Vec::new());
    let _ = poll(&mut fut);
    assert!(fut.is_done());
    assert!(fut.take().is_none());
}

#[test]
fn poll_step_decisions() {
    assert_eq!(poll_step(ReadOutcome::Eof, 0), PollAction::Ready);
    assert_eq!(poll_step(ReadOutcome::WouldBlock, 0), PollAction::NotReady);
    assert_eq!(poll_step(ReadOutcome::WouldBlock, 3), PollAction::Ready);
    assert_eq!(poll_step(ReadOutcome::Failed, 3), PollAction::Fail);
}

#[test]
fn failed_read_discards_object_and_buffer() {
    let mut fut = read_to_block(Cursor::new(vec![1u8]), vec![9]);
    let (a, buf) = fut.take().unwrap();
    let (action, out) = fut.settle(a, buf, ReadOutcome::Failed);
    assert_eq!(action, PollAction::Fail);
    assert!(out.is_none());
    assert!(fut.is_done());
}

#[test]
fn server_shutdown_ends_stream() {
    let mut state = ServerState::new();
    let step = state.poll(ControlPoll::NotReady);
    assert_eq!(step.action, ServerAction::PollListener);
    assert!(!step.close_channel);
    let step = state.poll(ControlPoll::Received(ServerMessage::Shutdown));
    assert_eq!(step.action, ServerAction::Finished);
    assert!(step.close_channel);
    assert!(state.shutdown);
    let step = state.poll(ControlPoll::NotReady);
    assert_eq!(step.action, ServerAction::Finished);
}

#[test]
fn server_control_failures() {
    let mut state = ServerState::new();
    assert_eq!(state.poll(ControlPoll::Failed).action, ServerAction::Fail);
    assert_eq!(state.poll(ControlPoll::Closed).action, ServerAction::Finished);
    assert!(!state.shutdown);
    let step = state.poll_msg(ControlPoll::Received(ServerMessage::Shutdown));
    assert_eq!(step.action, ServerAction::NotReady);
    assert!(step.close_channel);
    assert_eq!(receive_error_text(), "Error receiving server command");
}
