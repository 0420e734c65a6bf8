use scope_core::SampleChannel;

#[test]
fn receive_on_empty_channel_reports_empty() {
    let mut c = SampleChannel::new();
    assert!(c.is_empty());
    assert_eq!(c.try_receive(), None);
    assert_eq!(c.try_receive(), None);
}

#[test]
fn channel_is_fifo() {
    // Samples sent before any receive come back exactly, in send order,
    // and then the channel reports empty.
    let mut c = SampleChannel::new();
    c.send(10);
    c.send(-20);
    c.send(30);
    assert!(!c.is_empty());
    assert_eq!(c.try_receive(), Some(10));
    assert_eq!(c.try_receive(), Some(-20));
    assert_eq!(c.try_receive(), Some(30));
    assert_eq!(c.try_receive(), None);
    assert!(c.is_empty());
}

#[test]
fn sends_interleaved_with_receives_keep_order() {
    let mut c = SampleChannel::new();
    c.send(1);
    c.send(2);
    assert_eq!(c.try_receive(), Some(1));
    c.send(3);
    assert_eq!(c.try_receive(), Some(2));
    assert_eq!(c.try_receive(), Some(3));
    assert_eq!(c.try_receive(), None);
}
