use async_php::http::server::{http1_settings, http2_settings, Http1Options, Http2Options, PhpOption};

fn no_h1() -> Http1Options {
    Http1Options {
        auto_date_header: None,
        half_close: None,
        keep_alive: None,
        title_case_headers: None,
        ignore_invalid_headers: None,
        preserve_header_case: None,
        max_headers: None,
        header_read_timeout: None,
        writev: None,
        max_buf_size: None,
        pipeline_flush: None,
    }
}

fn no_h2() -> Http2Options {
    Http2Options {
        max_pending_accept_reset_streams: None,
        max_local_error_reset_streams: None,
        initial_stream_window_size: None,
        initial_connection_window_size: None,
        adaptive_window: None,
        max_frame_size: None,
        max_concurrent_streams: None,
        keep_alive_interval: None,
        max_send_buf_size: None,
        enable_connect_protocol: None,
        max_header_list_size: None,
        auto_date_header: None,
    }
}

#[test]
fn http1_switches_take_booleans_only() {
    let mut o = no_h1();
    o.keep_alive = Some(PhpOption::Bool(false));
    o.half_close = Some(PhpOption::Long(1));
    o.writev = Some(PhpOption::Bool(true));
    let s = http1_settings(&o);
    assert_eq!(s.keep_alive, Some(false));
    assert_eq!(s.half_close, None);
    assert_eq!(s.writev, Some(true));
    assert_eq!(s.auto_date_header, None);
}

#[test]
fn http1_sizes_and_timeout() {
    let mut o = no_h1();
    o.max_headers = Some(PhpOption::Long(64));
    o.max_buf_size = Some(PhpOption::Bool(true));
    o.header_read_timeout = Some(PhpOption::Null);
    let s = http1_settings(&o);
    assert_eq!(s.max_headers, Some(64));
    assert_eq!(s.max_buf_size, None);
    assert!(s.clear_header_read_timeout);
    let s2 = http1_settings(&no_h1());
    assert!(!s2.clear_header_read_timeout);
}

#[test]
fn http2_limits() {
    let mut o = no_h2();
    o.max_concurrent_streams = Some(PhpOption::Long(100));
    o.max_frame_size = Some(PhpOption::Null);
    o.initial_stream_window_size = Some(PhpOption::Other);
    o.max_pending_accept_reset_streams = Some(PhpOption::Long(20));
    o.max_header_list_size = Some(PhpOption::Long(16384));
    let s = http2_settings(&o);
    assert_eq!(s.max_concurrent_streams, Some(Some(100)));
    assert_eq!(s.max_frame_size, Some(None));
    assert_eq!(s.initial_stream_window_size, None);
    assert_eq!(s.max_pending_accept_reset_streams, Some(Some(20)));
    assert_eq!(s.max_header_list_size, Some(16384));
}

#[test]
fn http2_flags() {
    let mut o = no_h2();
    o.enable_connect_protocol = Some(PhpOption::Bool(true));
    o.adaptive_window = Some(PhpOption::Bool(true));
    o.keep_alive_interval = Some(PhpOption::Null);
    let s = http2_settings(&o);
    assert!(s.enable_connect_protocol);
    assert_eq!(s.adaptive_window, Some(true));
    assert!(s.clear_keep_alive_interval);
    let mut o2 = no_h2();
    o2.enable_connect_protocol = Some(PhpOption::Bool(false));
    assert!(!http2_settings(&o2).enable_connect_protocol);
}
