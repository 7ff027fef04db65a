use async_php::channel::{ChannelCapacity, ChannelState};

#[test]
fn default_channel_is_unbuffered() {
    let (state, kind) = ChannelState::new(None);
    assert_eq!(kind, ChannelCapacity::Bounded(0));
    assert_eq!(state.capacity(), 0);
    assert!(!state.is_closed());
}

#[test]
fn buffered_and_unbounded() {
    let (s1, k1) = ChannelState::new(Some(10));
    assert_eq!(k1, ChannelCapacity::Bounded(10));
    assert_eq!(s1.capacity(), 10);
    let (s2, k2) = ChannelState::new(Some(-1));
    assert_eq!(k2, ChannelCapacity::Unbounded);
    assert_eq!(s2.capacity(), -1);
}

#[test]
fn closed_channel_refuses_sends() {
    let (mut s, _) = ChannelState::new(Some(1));
    assert_eq!(s.check_send(), Ok(()));
    assert!(s.close());
    assert!(s.is_closed());
    assert_eq!(s.check_send(), Err("Cannot send to closed channel".to_string()));
}
