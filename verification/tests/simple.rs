use spin_sync::SimpleChannel;

#[test]
fn new_queue_is_empty() {
    let mut channel: SimpleChannel<u8> = SimpleChannel::new();
    assert_eq!(channel.receive(), None);
    assert_eq!(channel.receive(), None);
}

#[test]
fn one_message_goes_through() {
    let mut channel = SimpleChannel::new();
    channel.send(String::from("only"));
    assert_eq!(channel.receive(), Some(String::from("only")));
    assert_eq!(channel.receive(), None);
}

#[test]
fn newest_message_is_received_first() {
    let mut channel = SimpleChannel::new();
    channel.send(1);
    channel.send(2);
    channel.send(3);
    assert_eq!(channel.receive(), Some(3));
    assert_eq!(channel.receive(), Some(2));
    channel.send(4);
    assert_eq!(channel.receive(), Some(4));
    assert_eq!(channel.receive(), Some(1));
    assert_eq!(channel.receive(), None);
}
