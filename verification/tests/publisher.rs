use amplifier_relayer::publisher::{batch_needs_publishing, health_check_message, last_message, to_pubsub_message, PublishError, PublishMessage, MSG_ID};

#[test]
fn pubsub_message_carries_dedup_id() {
    let m = to_pubsub_message(vec![1, 2, 3], &"dedup-1".to_owned());
    assert_eq!(m.data, vec![1, 2, 3]);
    assert_eq!(m.attributes, vec![(MSG_ID.to_owned(), "dedup-1".to_owned())]);
    assert_eq!(MSG_ID, "Msg-Id");
}

#[test]
fn health_check_message_layout() {
    let m = health_check_message();
    assert_eq!(m.data, b"health_check".to_vec());
    assert_eq!(m.attributes, vec![("health_check".to_owned(), "true".to_owned())]);
}

#[test]
fn last_message_of_batch() {
    let empty: Vec<PublishMessage<u32>> = vec![];
    assert_eq!(last_message(&empty).err(), Some(PublishError::NoMsgToPublish));
    let batch = vec![
        PublishMessage { data: 1u32, deduplication_id: "a".to_owned() },
        PublishMessage { data: 2u32, deduplication_id: "b".to_owned() },
    ];
    let last = last_message(&batch).unwrap();
    assert_eq!(last.data, 2);
    assert_eq!(last.deduplication_id, "b");
}

#[test]
fn empty_batch_is_not_published() {
    let empty: Vec<PublishMessage<u32>> = vec![];
    assert!(!batch_needs_publishing(&empty));
    let one = vec![PublishMessage { data: 7u32, deduplication_id: "a".to_owned() }];
    assert!(batch_needs_publishing(&one));
}
