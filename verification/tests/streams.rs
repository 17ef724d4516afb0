use named_pipe::handle::Handle;
use named_pipe::stream::PipeStream;

#[test]
fn accepted_stream_is_server_half() {
    let s = PipeStream::server(Handle::from_raw(7));
    assert!(s.server_half());
    assert_eq!(s.as_raw_handle(), 7);
}

#[test]
fn connected_stream_is_client_half() {
    let s = PipeStream::client(Handle::from_raw(8));
    assert!(!s.server_half());
    assert_eq!(s.as_raw_handle(), 8);
}

#[test]
fn raw_handle_roundtrip() {
    let s = PipeStream::from_raw_handle(9);
    assert!(!s.server_half());
    assert_eq!(s.as_raw_handle(), 9);
    assert_eq!(s.into_raw_handle(), 9);
}

#[test]
fn handle_identifier_transfers() {
    let h = Handle::from_raw(31);
    assert_eq!(h.raw(), 31);
    assert_eq!(h.into_raw(), 31);
}
