use async_php::bytes_io::SeekTarget;
use async_php::io::{
    read_length, read_outcome, seek_call_args, seek_reply, seek_request, write_reply, FillStep,
    PhpIoError, PhpIoState, PhpReply, ReadStep,
};

#[test]
fn read_length_accepts_non_negative() {
    assert_eq!(read_length(0), Ok(0));
    assert_eq!(read_length(4096), Ok(4096));
}

#[test]
fn read_length_refuses_negative() {
    assert_eq!(read_length(-1), Err("read length must be non-negative".to_string()));
}

#[test]
fn read_outcome_truncates_or_ends() {
    assert_eq!(read_outcome(vec![1, 2, 3, 4], 0), None);
    assert_eq!(read_outcome(vec![1, 2, 3, 4], 2), Some(vec![1, 2]));
    assert_eq!(read_outcome(vec![1, 2, 3, 4], 4), Some(vec![1, 2, 3, 4]));
}

#[test]
fn seek_request_maps_whence() {
    assert_eq!(seek_request(5, 0), Ok(SeekTarget::Start(5)));
    assert_eq!(seek_request(-3, 1), Ok(SeekTarget::Current(-3)));
    assert_eq!(seek_request(-2, 2), Ok(SeekTarget::End(-2)));
}

#[test]
fn seek_request_errors() {
    assert_eq!(
        seek_request(-1, 0),
        Err("seek offset must be non-negative for SEEK_SET".to_string())
    );
    assert_eq!(seek_request(0, 7), Err("invalid whence value: 7".to_string()));
    assert_eq!(seek_request(0, -4), Err("invalid whence value: -4".to_string()));
}

#[test]
fn seek_call_args_numbers_whence() {
    assert_eq!(seek_call_args(SeekTarget::Start(10)), (10, 0));
    assert_eq!(seek_call_args(SeekTarget::Current(-5)), (-5, 1));
    assert_eq!(seek_call_args(SeekTarget::End(3)), (3, 2));
    assert_eq!(seek_call_args(SeekTarget::Start(u64::MAX)), (-1, 0));
}

#[test]
fn replies_of_write_and_seek() {
    assert_eq!(write_reply(PhpReply::Long(7)), Ok(7));
    assert_eq!(write_reply(PhpReply::Null), Err(PhpIoError::InvalidWrite));
    assert_eq!(seek_reply(PhpReply::Long(42)), Ok(42));
    assert_eq!(seek_reply(PhpReply::Bytes(vec![1])), Err(PhpIoError::InvalidSeek));
    assert_eq!(PhpIoError::InvalidSeek.message(), "Invalid seek response");
    assert_eq!(PhpIoError::NoPendingSeek.message(), "No pending seek");
}

#[test]
fn read_asks_php_then_hands_reply_on() {
    let mut io = PhpIoState::new();
    assert_eq!(io.poll_read(16), ReadStep::CallRead(16));
    assert_eq!(io.on_read_reply(PhpReply::Bytes(b"abc".to_vec()), 16), Ok(b"abc".to_vec()));
    assert_eq!(
        io.on_read_reply(PhpReply::Bytes(b"abcdef".to_vec()), 3),
        Err(PhpIoError::ReadTooLong)
    );
    assert_eq!(io.on_read_reply(PhpReply::Long(1), 3), Err(PhpIoError::InvalidRead));
    assert_eq!(PhpIoError::ReadTooLong.message(), "Read response exceeded requested length");
}

#[test]
fn null_reply_ends_the_stream() {
    let mut io = PhpIoState::new();
    assert_eq!(io.on_read_reply(PhpReply::Null, 8), Ok(vec![]));
    assert!(io.read_eof());
    assert_eq!(io.poll_read(8), ReadStep::Eof);
    assert_eq!(io.poll_fill_buf(), FillStep::Eof);
}

#[test]
fn read_line_buffers_and_reads_drain_in_order() {
    let mut io = PhpIoState::new();
    assert_eq!(io.poll_fill_buf(), FillStep::CallReadLine);
    assert_eq!(io.on_read_line_reply(PhpReply::Bytes(b"hello\n".to_vec())), Ok(()));
    assert_eq!(io.poll_fill_buf(), FillStep::Ready);
    assert_eq!(io.buffer(), b"hello\n");
    assert_eq!(io.poll_read(2), ReadStep::Deliver(b"he".to_vec()));
    assert_eq!(io.poll_read(10), ReadStep::Deliver(b"llo\n".to_vec()));
    assert_eq!(io.poll_read(10), ReadStep::CallRead(10));
}

#[test]
fn consume_drops_front_bytes() {
    let mut io = PhpIoState::new();
    io.on_read_line_reply(PhpReply::Bytes(b"line".to_vec())).unwrap();
    io.consume(1);
    assert_eq!(io.buffer(), b"ine");
    io.consume(100);
    assert_eq!(io.buffer(), b"");
}

#[test]
fn invalid_read_line_reply_is_refused() {
    let mut io = PhpIoState::new();
    assert_eq!(io.on_read_line_reply(PhpReply::Other), Err(PhpIoError::InvalidReadLine));
    assert_eq!(PhpIoError::InvalidReadLine.message(), "Invalid read_line response");
}

#[test]
fn seek_must_be_started_before_completed() {
    let mut io = PhpIoState::new();
    assert_eq!(io.begin_seek(), Err(PhpIoError::NoPendingSeek));
    io.start_seek(SeekTarget::End(-4));
    assert_eq!(io.begin_seek(), Ok((-4, 2)));
    assert_eq!(io.begin_seek(), Err(PhpIoError::NoPendingSeek));
}

#[test]
fn no_second_read_while_one_is_in_flight() {
    let mut io = PhpIoState::new();
    assert_eq!(io.poll_read(16), ReadStep::CallRead(16));
    assert_eq!(io.poll_read(16), ReadStep::AwaitRead);
    assert_eq!(io.poll_read(4), ReadStep::AwaitRead);
    assert_eq!(io.on_read_reply(PhpReply::Bytes(b"ab".to_vec()), 16), Ok(b"ab".to_vec()));
    assert_eq!(io.poll_read(8), ReadStep::CallRead(8));
    io.on_read_error();
    assert_eq!(io.poll_read(8), ReadStep::CallRead(8));
    assert_eq!(io.on_read_reply(PhpReply::Long(3), 8), Err(PhpIoError::InvalidRead));
    assert_eq!(io.poll_read(8), ReadStep::CallRead(8));
    assert_eq!(io.on_read_reply(PhpReply::Null, 8), Ok(vec![]));
    assert_eq!(io.poll_read(8), ReadStep::Eof);
    assert_eq!(io.poll_read(8), ReadStep::Eof);
}
