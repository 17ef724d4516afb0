use named_pipe::codes;
use named_pipe::error::PipeError;
use named_pipe::handle::Handle;
use named_pipe::listener::{connect_wait_outcome, listener_open_flags};
use named_pipe::stream::{flush_outcome, read_outcome, write_outcome};

#[test]
fn platform_constant_values() {
    assert_eq!(codes::ERROR_PIPE_NOT_CONNECTED, 233);
    assert_eq!(codes::ERROR_PIPE_CONNECTED, 535);
    assert_eq!(codes::PIPE_ACCESS_DUPLEX, 3);
    assert_eq!(codes::FILE_FLAG_FIRST_PIPE_INSTANCE, 0x80000);
    assert_eq!(codes::INVALID_HANDLE_RAW, usize::MAX);
}

#[test]
fn read_success_returns_count() {
    assert_eq!(read_outcome(true, 5, None), Ok(5));
    assert_eq!(read_outcome(true, 0, Some(233)), Ok(0));
}

#[test]
fn read_disconnected_peer_is_end_of_stream() {
    assert_eq!(
        read_outcome(false, 99, Some(233)),
        Ok(0)
    );
}

#[test]
fn read_other_failure_keeps_code() {
    assert_eq!(read_outcome(false, 0, Some(5)), Err(PipeError::Os(5)));
    assert_eq!(
        read_outcome(false, 0, Some(109)),
        Err(PipeError::Os(109))
    );
}

#[test]
fn read_failure_without_code_is_transport() {
    assert_eq!(read_outcome(false, 0, None), Err(PipeError::Transport));
}

#[test]
fn write_success_returns_count() {
    assert_eq!(write_outcome(true, 6, None), Ok(6));
}

#[test]
fn write_failure_keeps_code() {
    assert_eq!(write_outcome(false, 0, Some(232)), Err(PipeError::Os(232)));
    assert_eq!(write_outcome(false, 0, None), Err(PipeError::Transport));
}

#[test]
fn flush_outcomes() {
    assert_eq!(flush_outcome(true, None), Ok(()));
    assert_eq!(flush_outcome(false, Some(6)), Err(PipeError::Os(6)));
    assert_eq!(flush_outcome(false, None), Err(PipeError::Transport));
}

#[test]
fn connect_wait_success() {
    assert_eq!(connect_wait_outcome(true, None), Ok(()));
}

#[test]
fn connect_wait_benign_race_is_success() {
    assert_eq!(
        connect_wait_outcome(false, Some(535)),
        Ok(())
    );
}

#[test]
fn connect_wait_failure_keeps_code() {
    assert_eq!(connect_wait_outcome(false, Some(2)), Err(PipeError::Os(2)));
    assert_eq!(connect_wait_outcome(false, None), Err(PipeError::Transport));
}

#[test]
fn opened_handle_valid() {
    let h = Handle::opened(42, 0).unwrap();
    assert_eq!(h.raw(), 42);
}

#[test]
fn opened_handle_invalid_carries_code() {
    let r = Handle::opened(usize::MAX, 5);
    assert!(matches!(r, Err(PipeError::Os(5))));
}

#[test]
fn open_flags_first_instance() {
    assert_eq!(
        listener_open_flags(true),
        3 | 0x80000
    );
}

#[test]
fn open_flags_further_instances() {
    assert_eq!(listener_open_flags(false), 3);
}
