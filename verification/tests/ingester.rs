use amplifier_relayer::ingester::{ack_after_publish, AckKind, Ingester};

#[test]
fn published_events_are_acked_and_failures_nacked() {
    assert_eq!(ack_after_publish(true), AckKind::Ack);
    assert_eq!(ack_after_publish(false), AckKind::Nak);
}

#[test]
fn ingester_keeps_its_parts() {
    let ingester = Ingester::new("client", vec![1u8, 2], "solana".to_owned());
    assert_eq!(*ingester.client(), "client");
    assert_eq!(**ingester.consumer(), vec![1u8, 2]);
    assert_eq!(ingester.chain(), "solana");
}
