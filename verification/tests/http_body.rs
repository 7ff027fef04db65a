use async_php::http::io::HttpBody;
use async_php::http::server::{sent_status, status_from_php, BodyFrame, RequestBodyBuffer};

#[test]
fn open_empty_body_reads_empty_string() {
    let mut b = HttpBody::new();
    assert_eq!(b.read(10), Some(String::new()));
    assert_eq!(b.length(), 0);
}

#[test]
fn closed_empty_body_reads_none() {
    let mut b = HttpBody::new();
    assert!(b.close());
    assert_eq!(b.read(10), None);
}

#[test]
fn write_then_read_in_order() {
    let mut b = HttpBody::new();
    b.write("hello ".to_string());
    b.write("world".to_string());
    assert_eq!(b.length(), 11);
    assert_eq!(b.read(5), Some("hello".to_string()));
    assert_eq!(b.read(100), Some(" world".to_string()));
    assert_eq!(b.read(1), Some(String::new()));
    b.close();
    assert_eq!(b.read(1), None);
}

#[test]
fn from_string_is_closed() {
    let mut b = HttpBody::from_string("héllo".to_string());
    assert_eq!(b.length(), 6);
    assert_eq!(b.read(-1), Some("héllo".to_string()));
    assert_eq!(b.read(1), None);
}

#[test]
fn invalid_utf8_is_replaced() {
    let mut b = HttpBody::from_bytes(vec![b'a', 0xff, b'b']);
    assert_eq!(b.read(3), Some("a\u{FFFD}b".to_string()));
}

#[test]
fn split_multibyte_char_is_replaced() {
    let mut b = HttpBody::from_string("é".to_string());
    assert_eq!(b.read(1), Some("\u{FFFD}".to_string()));
    assert_eq!(b.length(), 1);
}

#[test]
fn zero_length_read_takes_nothing() {
    let mut b = HttpBody::from_bytes(vec![1, 2]);
    assert_eq!(b.read(0), Some(String::new()));
    assert_eq!(b.length(), 2);
}

#[test]
fn request_body_buffer_pulls_until_enough() {
    let mut buf = RequestBodyBuffer::new();
    assert!(buf.wants_more(4));
    assert!(buf.push_frame(BodyFrame::Data(b"ab".to_vec())));
    assert!(buf.wants_more(4));
    assert!(buf.push_frame(BodyFrame::Other));
    assert!(buf.push_frame(BodyFrame::Data(b"cdef".to_vec())));
    assert!(!buf.wants_more(4));
    assert_eq!(buf.take(4), "abcd");
    assert_eq!(buf.take(10), "ef");
    assert_eq!(buf.take(10), "");
}

#[test]
fn request_body_end_stops_pulling() {
    let mut buf = RequestBodyBuffer::new();
    assert!(!buf.push_frame(BodyFrame::End));
    assert_eq!(buf.take(8), "");
}

#[test]
fn response_status() {
    assert_eq!(status_from_php(404), 404);
    assert_eq!(status_from_php(65536 + 201), 201);
    assert_eq!(sent_status(404), 404);
    assert_eq!(sent_status(100), 100);
    assert_eq!(sent_status(999), 999);
    assert_eq!(sent_status(99), 200);
    assert_eq!(sent_status(1000), 200);
    assert_eq!(sent_status(0), 200);
}
