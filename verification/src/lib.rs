//! Verified core of an Axelar Amplifier relayer: the Borsh framing of the
//! records that travel through the relayer's queues, the retry policy, the
//! health-probe answers, configuration checks, telemetry settings, metrics
//! bookkeeping and throughput tracking.
use vstd::prelude::*;

pub mod codec;
pub mod retry;
pub mod health_check;
pub mod config;
pub mod telemetry;
pub mod metrics;
pub mod tracking;
pub mod ingester;
pub mod publisher;
pub mod propagation;
pub mod identity;
pub mod to_amplifier;

verus! {

} // verus!
