use whaleinit::lines::{read_step, LineSplitter, ReadStep, StreamRead};

fn split_all(chunks: &[&[u8]]) -> Vec<Vec<u8>> {
    let mut s = LineSplitter::new();
    let mut out = Vec::new();
    for c in chunks {
        out.extend(s.push(c));
    }
    if let Some(last) = s.finish() {
        out.push(last);
    }
    out
}

#[test]
fn lines_in_written_order() {
    let out = split_all(&[b"one\ntwo\nthree\n"]);
    assert_eq!(out, vec![b"one".to_vec(), b"two".to_vec(), b"three".to_vec()]);
}

#[test]
fn partial_final_line_is_emitted() {
    let out = split_all(&[b"first\nlast"]);
    assert_eq!(out, vec![b"first".to_vec(), b"last".to_vec()]);
}

#[test]
fn chunk_boundaries_do_not_matter() {
    let whole = split_all(&[b"alpha\nbeta\r\ngamma"]);
    let cut = split_all(&[b"al", b"pha\nbe", b"ta\r", b"\nga", b"mma"]);
    assert_eq!(whole, cut);
    assert_eq!(whole, vec![b"alpha".to_vec(), b"beta".to_vec(), b"gamma".to_vec()]);
}

#[test]
fn crlf_is_stripped_from_complete_lines_only() {
    let out = split_all(&[b"a\r\nb\r"]);
    assert_eq!(out, vec![b"a".to_vec(), b"b\r".to_vec()]);
}

#[test]
fn empty_stream_yields_nothing() {
    assert!(split_all(&[]).is_empty());
    assert!(split_all(&[b""]).is_empty());
}

#[test]
fn empty_lines_are_kept() {
    let out = split_all(&[b"\n\nx\n"]);
    assert_eq!(out, vec![Vec::new(), Vec::new(), b"x".to_vec()]);
}

#[test]
fn push_returns_only_completed_lines() {
    let mut s = LineSplitter::new();
    assert!(s.push(b"no newline yet").is_empty());
    assert_eq!(s.push(b" done\nnext"), vec![b"no newline yet done".to_vec()]);
    assert_eq!(s.finish(), Some(b"next".to_vec()));
}

#[test]
fn read_loop_ends_only_at_end_of_input() {
    assert_eq!(read_step(StreamRead::EndOfInput), ReadStep::End);
    assert_eq!(read_step(StreamRead::Data), ReadStep::Continue);
    assert_eq!(read_step(StreamRead::Interrupted), ReadStep::Continue);
}

#[test]
fn read_error_is_reported_and_reading_goes_on() {
    assert_eq!(read_step(StreamRead::Failed), ReadStep::ReportAndContinue);
}
