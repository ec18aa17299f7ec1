use termcore::adapter::append_frame;
use termcore::adapter::channel;
use termcore::adapter::deliver;
use termcore::adapter::drop_reader;
use termcore::adapter::drop_writer;
use termcore::adapter::encode_frame;
use termcore::adapter::WriteError;

#[test]
fn round_trip_preserves_frames_and_order() {
    let (mut w, mut r) = channel();
    assert_eq!(w.write(b"first frame"), Ok(11));
    assert_eq!(w.write(b"second"), Ok(6));
    deliver(&mut w, &mut r);

    let mut buf = String::new();
    assert_eq!(r.read_line(&mut buf), Some(11));
    assert_eq!(buf, "first frame");
    let mut buf2 = String::new();
    assert_eq!(r.read_line(&mut buf2), Some(6));
    assert_eq!(buf2, "second");
}

#[test]
fn read_line_appends_to_existing_buffer() {
    let (mut w, mut r) = channel();
    w.write("tail".as_bytes()).unwrap();
    deliver(&mut w, &mut r);
    let mut buf = String::from("head ");
    assert_eq!(r.read_line(&mut buf), Some(4));
    assert_eq!(buf, "head tail");
}

#[test]
fn multibyte_text_round_trips_by_byte_count() {
    let (mut w, mut r) = channel();
    // two characters, three bytes
    assert_eq!(w.write("é!".as_bytes()), Ok(3));
    deliver(&mut w, &mut r);
    let mut buf = String::new();
    assert_eq!(r.read_line(&mut buf), Some(3));
    assert_eq!(buf, "é!");
}

#[test]
fn read_without_pending_frame_is_refused() {
    let (_w, mut r) = channel();
    let mut buf = String::new();
    // writer still attached, nothing pending: retry later, not end-of-stream
    assert_eq!(r.read_line(&mut buf), None);
    assert_eq!(buf, "");
}

#[test]
fn dropped_writer_reports_end_of_stream() {
    let (mut w, mut r) = channel();
    w.write(b"last").unwrap();
    drop_writer(w, &mut r);
    let mut buf = String::new();
    // the frame already in flight still arrives
    assert_eq!(r.read_line(&mut buf), Some(4));
    assert_eq!(buf, "last");
    // then end-of-stream: zero, not an error, and not a refusal
    assert_eq!(r.read_line(&mut buf), Some(0));
    assert_eq!(buf, "last");
    assert_eq!(r.read_line(&mut buf), Some(0));
}

#[test]
fn invalid_text_is_an_encoding_error() {
    let (mut w, _r) = channel();
    let bad = [0xffu8, 0xfe, 0x41];
    assert_eq!(w.write(&bad), Err(WriteError::Encoding));
    // the failed write sent nothing: the reader later sees only valid frames
    assert_eq!(w.write(b"ok"), Ok(2));
}

#[test]
fn dropped_reader_is_a_transport_error() {
    let (mut w, r) = channel();
    drop_reader(r, &mut w);
    assert_eq!(w.write(b"anyone there"), Err(WriteError::Disconnected));
}

#[test]
fn flush_is_a_no_op() {
    let (w, _r) = channel();
    assert_eq!(w.flush(), Ok(()));
}

#[test]
fn encode_frame_validates_and_decodes() {
    assert_eq!(encode_frame("frame".as_bytes()), Ok(String::from("frame")));
    assert_eq!(encode_frame(&[0x80u8]), Err(WriteError::Encoding));
}

#[test]
fn append_frame_handles_closure_and_frames() {
    let mut buf = String::from("a");
    assert_eq!(append_frame(&mut buf, None), 0);
    assert_eq!(buf, "a");
    assert_eq!(append_frame(&mut buf, Some(String::from("bc"))), 2);
    assert_eq!(buf, "abc");
}
