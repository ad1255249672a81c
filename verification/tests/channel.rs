use orchestrate::channel::{ChannelError, SignalChannel};

#[test]
fn sent_value_is_received_once() {
    let mut chan: SignalChannel<String> = SignalChannel::new();
    assert!(chan.send(String::from("Hello, world!")).is_ok());
    let got = chan.receive();
    assert_eq!(got, Ok(String::from("Hello, world!")));
    // The consumer end is used up: the channel records the delivery and no
    // second receive is possible.
    assert!(chan.delivered);
    assert!(!chan.consumer_alive);
    assert!(chan.slot.is_none());
}

#[test]
fn receive_after_producer_dropped_fails_with_channel_closed() {
    let mut chan: SignalChannel<String> = SignalChannel::new();
    chan.drop_producer();
    let got = chan.receive();
    assert_eq!(got, Err(ChannelError::ChannelClosed));
}

#[test]
fn send_after_consumer_dropped_fails_silently() {
    let mut chan: SignalChannel<u64> = SignalChannel::new();
    chan.drop_consumer();
    let r = chan.send(42);
    assert_eq!(r, Err(ChannelError::SendFailed));
    // The value was discarded; nothing was ever delivered.
    assert!(!chan.sent);
    assert!(!chan.delivered);
    assert!(chan.slot.is_none());
}

#[test]
fn producer_observes_consumer_disinterest() {
    let mut chan: SignalChannel<u64> = SignalChannel::new();
    assert!(!chan.consumer_gone());
    chan.drop_consumer();
    assert!(chan.consumer_gone());
}

#[test]
fn value_lost_when_consumer_dropped_after_send() {
    let mut chan: SignalChannel<u64> = SignalChannel::new();
    assert!(chan.send(7).is_ok());
    chan.drop_consumer();
    // The send succeeded, but the value can never be received now.
    assert!(chan.sent);
    assert!(!chan.delivered);
}
