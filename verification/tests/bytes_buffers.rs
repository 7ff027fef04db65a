use async_php::bytes_io::{BytesCursor, BytesReader, BytesWriter, SeekError, SeekTarget};

#[test]
fn cursor_reads_and_advances() {
    let mut c = BytesCursor::new(vec![1, 2, 3, 4, 5]);
    assert_eq!(c.read(2), vec![1, 2]);
    assert_eq!(c.position(), 2);
    assert_eq!(c.read(10), vec![3, 4, 5]);
    assert_eq!(c.read(1), Vec::<u8>::new());
    assert_eq!(c.position(), 5);
}

#[test]
fn cursor_write_overwrites_and_extends() {
    let mut c = BytesCursor::new(vec![1, 2, 3]);
    c.set_position(2);
    assert_eq!(c.write(&[9, 9]), 2);
    assert_eq!(c.get_ref(), &vec![1, 2, 9, 9]);
    c.set_position(6);
    c.write(&[7]);
    assert_eq!(c.get_ref(), &vec![1, 2, 9, 9, 0, 0, 7]);
    assert_eq!(c.position(), 7);
}

#[test]
fn cursor_seek() {
    let mut c = BytesCursor::new(vec![0; 10]);
    assert_eq!(c.seek(SeekTarget::Start(4)), Ok(4));
    assert_eq!(c.seek(SeekTarget::Current(-2)), Ok(2));
    assert_eq!(c.seek(SeekTarget::End(-1)), Ok(9));
    assert_eq!(c.seek(SeekTarget::End(5)), Ok(15));
    assert_eq!(c.seek(SeekTarget::Current(-100)), Err(SeekError::InvalidPosition));
    assert_eq!(c.position(), 15);
}

#[test]
fn reader_over_string() {
    let mut r = BytesReader::from_string("hello".to_string());
    assert_eq!(r.len(), 5);
    assert_eq!(r.read(3), b"hel".to_vec());
    assert_eq!(r.position(), 3);
    assert_eq!(r.remaining(), 2);
    r.reset();
    assert_eq!(r.position(), 0);
    assert_eq!(r.read(10), b"hello".to_vec());
    assert_eq!(r.remaining(), 0);
}

#[test]
fn reader_from_bytes_seeks() {
    let mut r = BytesReader::from_bytes(&[10, 20, 30]);
    assert_eq!(r.seek(SeekTarget::End(-1)), Ok(2));
    assert_eq!(r.read(5), vec![30]);
}

#[test]
fn writer_collects_text() {
    let mut w = BytesWriter::new();
    assert_eq!(w.write(b"abc"), 3);
    assert_eq!(w.write(b"def"), 3);
    assert_eq!(w.len(), 6);
    assert_eq!(w.position(), 6);
    assert_eq!(w.to_string(), Some("abcdef".to_string()));
    assert_eq!(w.to_bytes(), b"abcdef".to_vec());
    w.seek(SeekTarget::Start(1)).unwrap();
    assert_eq!(w.read(2), b"bc".to_vec());
    w.clear();
    assert_eq!(w.len(), 0);
    assert_eq!(w.position(), 0);
}

#[test]
fn writer_invalid_utf8_has_no_string() {
    let mut w = BytesWriter::with_capacity(16);
    w.write(&[0xff, 0xfe]);
    assert_eq!(w.to_string(), None);
    let w2 = BytesWriter::with_capacity(-1);
    assert_eq!(w2.len(), 0);
}
