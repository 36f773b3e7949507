use buildkit_frontend::stdio::{
    poll_read_step, poll_write_step, HalfCloseState, RawRead, RawWrite, ReadPoll, WritePoll,
};

#[test]
fn read_would_block_is_pending_and_registers_interest() {
    let (poll, register) = poll_read_step(RawRead::WouldBlock);
    assert_eq!(poll, ReadPoll::Pending);
    assert!(register);
}

#[test]
fn read_data_is_ready_without_registration() {
    let (poll, register) = poll_read_step(RawRead::Data(b"abc".to_vec()));
    assert_eq!(poll, ReadPoll::Ready(b"abc".to_vec()));
    assert!(!register);
}

#[test]
fn end_of_stream_is_distinct_from_empty_read() {
    let (end_poll, register) = poll_read_step(RawRead::EndOfStream);
    assert_eq!(end_poll, ReadPoll::ReadyEnd);
    assert!(!register);

    let (empty_poll, _) = poll_read_step(RawRead::Data(vec![]));
    assert_ne!(empty_poll, ReadPoll::ReadyEnd);
}

#[test]
fn read_fatal_error_is_surfaced() {
    let (poll, register) = poll_read_step(RawRead::Fatal("bad file descriptor".to_string()));
    assert_eq!(poll, ReadPoll::ReadyError("bad file descriptor".to_string()));
    assert!(!register);
}

#[test]
fn write_would_block_is_pending_and_registers_interest() {
    let (poll, register) = poll_write_step(RawWrite::WouldBlock);
    assert_eq!(poll, WritePoll::Pending);
    assert!(register);

    let (poll, register) = poll_write_step(RawWrite::Accepted(7));
    assert_eq!(poll, WritePoll::Ready(7));
    assert!(!register);
}

#[test]
fn shutdown_is_idempotent_and_flushes_once() {
    let mut state = HalfCloseState::new();
    assert!(!state.write_closed);

    let first = state.shutdown_write();
    assert!(first);
    assert!(state.write_closed);

    let second = state.shutdown_write();
    assert!(!second);
    assert!(state.write_closed);
}
