//! The Amplifier ingester: takes events from a queue, publishes each to the
//! Amplifier API and acknowledges it according to the outcome.
use vstd::prelude::*;
use std::sync::Arc;

verus! {

/// How a queue message is acknowledged.
#[derive(Debug, Clone, Copy, PartialEq, Eq)]
pub enum AckKind {
    /// Processed; remove it from the queue.
    Ack,
    /// Not processed; deliver it again.
    Nak,
    /// Still being processed.
    Progress,
}

/// The acknowledgement of an event after trying to publish it: `Ack` when
/// it was published, `Nak` (so that it is delivered again) when it was not.
pub fn ack_after_publish(published: bool) -> (r: AckKind)
    ensures
        r == if published { AckKind::Ack } else { AckKind::Nak },
{
    if published {
        AckKind::Ack
    } else {
        AckKind::Nak
    }
}

/// Moves events from a queue consumer to the Amplifier API for one chain.
pub struct Ingester<EventQueueConsumer, ApiClient> {
    ampf_client: ApiClient,
    event_queue_consumer: Arc<EventQueueConsumer>,
    chain: String,
}

impl<EventQueueConsumer, ApiClient> Ingester<EventQueueConsumer, ApiClient> {
    pub closed spec fn spec_client(&self) -> ApiClient {
        self.ampf_client
    }

    pub closed spec fn spec_consumer(&self) -> EventQueueConsumer {
        *self.event_queue_consumer
    }

    pub closed spec fn spec_chain(&self) -> Seq<char> {
        self.chain@
    }

    /// An ingester that publishes through `amplifier_client` the events
    /// that `event_queue_consumer` delivers, for `chain`.
    pub fn new(amplifier_client: ApiClient, event_queue_consumer: EventQueueConsumer, chain: String) -> (r: Self)
        ensures
            r.spec_client() == amplifier_client,
            r.spec_consumer() == event_queue_consumer,
            r.spec_chain() == chain@,
    {
        let event_queue_consumer = Arc::new(event_queue_consumer);
        Ingester { ampf_client: amplifier_client, event_queue_consumer, chain }
    }

    /// The Amplifier API client.
    pub fn client(&self) -> (r: &ApiClient)
        ensures
            *r == self.spec_client(),
    {
        &self.ampf_client
    }

    /// The queue consumer.
    pub fn consumer(&self) -> (r: &Arc<EventQueueConsumer>)
        ensures
            **r == self.spec_consumer(),
    {
        &self.event_queue_consumer
    }

    /// The chain the events belong to.
    pub fn chain(&self) -> (r: &str)
        ensures
            r@ == self.spec_chain(),
    {
        self.chain.as_str()
    }
}

} // verus!
