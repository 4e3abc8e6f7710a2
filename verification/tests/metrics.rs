use amplifier_relayer::metrics::{AmplifierIngesterMetrics, AmplifierSubscriberMetrics, GlobalMetrics};
use opentelemetry::KeyValue;
use opentelemetry_sdk::error::OTelSdkResult;
use opentelemetry_sdk::metrics::data::{ResourceMetrics, Sum};
use opentelemetry_sdk::metrics::reader::MetricReader;
use opentelemetry_sdk::metrics::{InstrumentKind, ManualReader, MetricResult, Pipeline, SdkMeterProvider, Temporality};
use opentelemetry_sdk::Resource;
use std::sync::{Arc, Weak};

/// A reader that the meter provider and the test share.
#[derive(Debug, Clone)]
struct SharedReader(Arc<ManualReader>);

impl MetricReader for SharedReader {
    fn register_pipeline(&self, pipeline: Weak<Pipeline>) {
        self.0.register_pipeline(pipeline);
    }
    fn collect(&self, rm: &mut ResourceMetrics) -> MetricResult<()> {
        self.0.collect(rm)
    }
    fn force_flush(&self) -> OTelSdkResult {
        self.0.force_flush()
    }
    fn shutdown(&self) -> OTelSdkResult {
        self.0.shutdown()
    }
    fn temporality(&self, kind: InstrumentKind) -> Temporality {
        self.0.temporality(kind)
    }
}

/// Installs a global meter provider read by the returned reader.
fn install_reader() -> SharedReader {
    let reader = SharedReader(Arc::new(ManualReader::builder().build()));
    let provider = SdkMeterProvider::builder().with_reader(reader.clone()).build();
    opentelemetry::global::set_meter_provider(provider);
    reader
}

/// The sums recorded under the meter `scope`: (counter name, attributes, value).
fn sums(reader: &SharedReader, scope: &str) -> Vec<(String, Vec<KeyValue>, u64)> {
    let mut rm = ResourceMetrics { resource: Resource::builder_empty().build(), scope_metrics: vec![] };
    reader.collect(&mut rm).unwrap();
    let mut out = Vec::new();
    for sm in rm.scope_metrics.iter().filter(|sm| sm.scope.name() == scope) {
        for metric in &sm.metrics {
            let sum = metric.data.as_any().downcast_ref::<Sum<u64>>().expect("a u64 sum");
            for point in &sum.data_points {
                out.push((metric.name.to_string(), point.attributes.clone(), point.value));
            }
        }
    }
    out.sort_by(|a, b| a.0.cmp(&b.0));
    out
}

fn value_of(sums: &[(String, Vec<KeyValue>, u64)], name: &str) -> Option<u64> {
    sums.iter().find(|s| s.0 == name).map(|s| s.2)
}

#[test]
fn metrics_reach_their_named_counters() {
    let reader = install_reader();

    // Global metrics: each recorded error adds 1 to `global.errors`, with no attributes.
    let mut global = GlobalMetrics::new("global_meter_under_test");
    global.record_error();
    global.record_error();
    global.record_error();
    let recorded = sums(&reader, "global_meter_under_test");
    assert_eq!(recorded, vec![("global.errors".to_owned(), vec![], 3)]);

    // Ingester: one counter per event kind, with the chain attribute.
    let chain = vec![KeyValue::new("chain", "solana")];
    let mut ingester = AmplifierIngesterMetrics::new("ingester_meter_under_test", chain.clone());
    ingester.record_cannot_execute_message_received();
    ingester.record_cannot_execute_message_received();
    ingester.record_gas_credit_processed();
    ingester.record_error();
    let recorded = sums(&reader, "ingester_meter_under_test");
    assert_eq!(value_of(&recorded, "amplifier.received.cannot_execute_message.count"), Some(2));
    assert_eq!(value_of(&recorded, "amplifier.processed.gas_credit.count"), Some(1));
    assert_eq!(value_of(&recorded, "errors.count"), Some(1));
    assert_eq!(value_of(&recorded, "amplifier.processed.cannot_execute_message.count"), None);
    assert_eq!(value_of(&recorded, "amplifier.received.gas_credit.count"), None);
    assert!(recorded.iter().all(|s| s.1 == chain));
    assert_eq!(recorded.len(), 3);

    // Subscriber: task counts add the count; each specific error also counts as an error.
    let mut subscriber = AmplifierSubscriberMetrics::new("subscriber_meter_under_test", vec![]);
    subscriber.record_tasks_fetched(5);
    subscriber.record_tasks_fetched(0);
    subscriber.record_tasks_published(4);
    subscriber.record_fetch_error();
    subscriber.record_publish_error();
    subscriber.record_health_check_error();
    subscriber.record_error();
    subscriber.record_empty_response();
    subscriber.record_fetch_request();
    subscriber.record_publish_batch();
    let recorded = sums(&reader, "subscriber_meter_under_test");
    assert_eq!(value_of(&recorded, "subscriber.tasks_fetched.count"), Some(5));
    assert_eq!(value_of(&recorded, "subscriber.tasks_published.count"), Some(4));
    assert_eq!(value_of(&recorded, "subscriber.fetch_errors.count"), Some(1));
    assert_eq!(value_of(&recorded, "subscriber.publish_errors.count"), Some(1));
    assert_eq!(value_of(&recorded, "subscriber.health_check_errors.count"), Some(1));
    assert_eq!(value_of(&recorded, "subscriber.empty_responses.count"), Some(1));
    assert_eq!(value_of(&recorded, "subscriber.fetch_requests.count"), Some(1));
    assert_eq!(value_of(&recorded, "subscriber.publish_batches.count"), Some(1));
    assert_eq!(value_of(&recorded, "errors.count"), Some(4));
}
