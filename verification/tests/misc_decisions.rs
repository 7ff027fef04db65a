use async_php::context::ContextMap;
use async_php::http::metrics::{MetricsCollector, RequestDurations};
use async_php::util::{keys_form_list, PhpArrayKey, Shared};

#[test]
fn list_keys() {
    assert!(keys_form_list(&vec![]));
    assert!(keys_form_list(&vec![PhpArrayKey::Index(0), PhpArrayKey::Index(1), PhpArrayKey::Index(2)]));
    assert!(!keys_form_list(&vec![PhpArrayKey::Index(1)]));
    assert!(!keys_form_list(&vec![PhpArrayKey::Index(0), PhpArrayKey::Index(2)]));
    assert!(!keys_form_list(&vec![PhpArrayKey::Index(0), PhpArrayKey::Name("a".to_string())]));
}

#[test]
fn metrics_from_marks() {
    let mut c = MetricsCollector::new(1_000);
    c.mark_request_sent(1_010);
    c.mark_first_byte(1_020);
    c.mark_first_byte(1_030);
    c.increment_redirects();
    let d = c.build(1_050);
    assert_eq!(
        d,
        RequestDurations { total: 50, time_to_first_byte: 20, request_send: 10, redirect_count: 1 }
    );
}

#[test]
fn metrics_without_marks() {
    let c = MetricsCollector::new(5);
    let d = c.build(25);
    assert_eq!(
        d,
        RequestDurations { total: 20, time_to_first_byte: 20, request_send: 0, redirect_count: 0 }
    );
}

#[test]
fn shared_handles_see_same_value() {
    let a = Shared::new(vec![1, 2, 3]);
    let b = a.clone();
    assert_eq!(b.get_ref(), &vec![1, 2, 3]);
    assert_eq!(a.get_ref(), b.get_ref());
}

#[test]
fn context_get_after_set() {
    let mut m: ContextMap<i32> = ContextMap::new();
    assert_eq!(m.get("a"), None);
    m.set("a", 1);
    m.set("b", 2);
    assert_eq!(m.get("a"), Some(&1));
    assert_eq!(m.get("b"), Some(&2));
    m.set("a", 3);
    assert_eq!(m.get("a"), Some(&3));
    assert_eq!(m.get("b"), Some(&2));
    assert_eq!(m.get("c"), None);
}

#[test]
fn linger_values() {
    assert_eq!(async_php::net::linger_report(Some(5)), 5);
    assert_eq!(async_php::net::linger_report(None), -1);
    assert_eq!(async_php::net::linger_setting(7), Some(7));
    assert_eq!(async_php::net::linger_setting(0), Some(0));
    assert_eq!(async_php::net::linger_setting(-1), None);
}

#[test]
fn linger_set_then_read_back() {
    let set = async_php::net::linger_setting(30);
    assert_eq!(async_php::net::linger_report(set), 30);
}

#[test]
fn metrics_over_a_sequence_of_marks() {
    let mut c = MetricsCollector::new(100);
    c.mark_first_byte(150);
    c.increment_redirects();
    c.mark_request_sent(120);
    c.mark_first_byte(170);
    c.increment_redirects();
    c.mark_request_sent(130);
    c.increment_redirects();
    let d = c.build(200);
    assert_eq!(
        d,
        RequestDurations { total: 100, time_to_first_byte: 50, request_send: 30, redirect_count: 3 }
    );
    let d = MetricsCollector::new(7).build(9);
    assert_eq!(
        d,
        RequestDurations { total: 2, time_to_first_byte: 2, request_send: 0, redirect_count: 0 }
    );
}
