use named_pipe::error::PipeError;
use named_pipe::path::encode_pipe_path;

fn wide(s: &str) -> Vec<u16> {
    s.chars().map(|c| c as u16).collect()
}

#[test]
fn encode_appends_terminator() {
    let units = wide("//./pipe/basicsock");
    let mut expected = units.clone();
    expected.push(0);
    assert_eq!(encode_pipe_path(units), Ok(expected));
}

#[test]
fn encode_rejects_embedded_nul() {
    let mut units = wide("//./pipe/basicsock");
    units.insert(4, 0);
    assert_eq!(encode_pipe_path(units), Err(PipeError::InvalidPath));
}

#[test]
fn encode_rejects_trailing_nul() {
    let mut units = wide("//./pipe/itersock");
    units.push(0);
    assert_eq!(encode_pipe_path(units), Err(PipeError::InvalidPath));
}

#[test]
fn encode_empty_path() {
    assert_eq!(encode_pipe_path(Vec::new()), Ok(vec![0u16]));
}
