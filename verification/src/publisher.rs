//! The message framing of the Pub/Sub queue publisher.
use vstd::prelude::*;
use vstd::string::StringExecFns;
use vstd::string::StringSliceAdditionalSpecFns;

verus! {

/// The attribute that carries a message's deduplication id.
pub const MSG_ID: &'static str = "Msg-Id";

/// A message to publish: its payload and its deduplication id.
#[derive(Debug)]
pub struct PublishMessage<T> {
    pub data: T,
    pub deduplication_id: String,
}

/// A Pub/Sub message: its bytes and its string attributes.
#[derive(Debug)]
pub struct PubsubMessage {
    pub data: Vec<u8>,
    pub attributes: Vec<(String, String)>,
}

/// Why a batch could not be published.
#[derive(Debug, Clone, Copy, PartialEq, Eq)]
pub enum PublishError {
    /// The batch is empty, so it has no last message to remember.
    NoMsgToPublish,
}

/// The Pub/Sub message for a payload already encoded as `encoded_data`:
/// the bytes, and the deduplication id under the `Msg-Id` attribute.
pub fn to_pubsub_message(encoded_data: Vec<u8>, deduplication_id: &String) -> (r: PubsubMessage)
    ensures
        r.data@ == encoded_data@,
        r.attributes@.len() == 1,
        r.attributes@[0].0@ == MSG_ID@,
        r.attributes@[0].1@ == deduplication_id@,
{
    let mut attributes: Vec<(String, String)> = Vec::new();
    attributes.push((String::from_str(MSG_ID), deduplication_id.clone()));
    PubsubMessage { data: encoded_data, attributes }
}

/// The message a health check publishes: the bytes of `health_check`, with
/// the attribute `health_check` set to `true`.
pub fn health_check_message() -> (r: PubsubMessage)
    ensures
        r.data@ == "health_check".spec_bytes(),
        r.attributes@.len() == 1,
        r.attributes@[0].0@ == "health_check"@,
        r.attributes@[0].1@ == "true"@,
{
    let mut attributes: Vec<(String, String)> = Vec::new();
    attributes.push((String::from_str("health_check"), String::from_str("true")));
    let data = vstd::slice::slice_to_vec("health_check".as_bytes());
    PubsubMessage { data, attributes }
}

/// Whether a batch is sent to Pub/Sub at all: an empty batch is answered
/// with no message ids and nothing is published.
pub fn batch_needs_publishing<T>(batch: &Vec<PublishMessage<T>>) -> (r: bool)
    ensures
        r <==> batch@.len() > 0,
{
    batch.len() > 0
}

/// The last message of a batch, whose id is remembered once the batch is
/// published; an empty batch gives `NoMsgToPublish`.
pub fn last_message<T>(batch: &Vec<PublishMessage<T>>) -> (r: Result<&PublishMessage<T>, PublishError>)
    ensures
        r is Err <==> batch@.len() == 0,
        r matches Err(e) ==> e == PublishError::NoMsgToPublish,
        r matches Ok(m) ==> *m == batch@.last(),
{
    let n = batch.len();
    if n == 0 {
        return Err(PublishError::NoMsgToPublish);
    }
    Ok(&batch[n - 1])
}

} // verus!
