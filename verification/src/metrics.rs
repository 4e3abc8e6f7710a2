//! Metrics of the relayer's components, recorded through OpenTelemetry
//! counters.
//!
//! A counter is modelled by the instrumentation scope of the meter it was
//! built on, its name, and the additions made to it through this handle.
use vstd::prelude::*;
use opentelemetry::metrics::{Counter, Meter};
use opentelemetry::KeyValue;

verus! {

#[verifier::external_type_specification]
#[verifier::external_body]
#[verifier::reject_recursive_types(T)]
pub struct ExCounter<T>(Counter<T>);

#[verifier::external_type_specification]
#[verifier::external_body]
pub struct ExMeter(Meter);

#[verifier::external_type_specification]
#[verifier::external_body]
pub struct ExKeyValue(KeyValue);

/// The instrumentation scope (the meter name) a meter records under.
pub uninterp spec fn meter_scope(meter: Meter) -> Seq<char>;

/// The instrumentation scope of the meter a counter was built on.
pub uninterp spec fn counter_scope(counter: Counter<u64>) -> Seq<char>;

/// The name a counter was built with.
pub uninterp spec fn counter_name(counter: Counter<u64>) -> Seq<char>;

/// The additions made through this counter handle, oldest first: each value
/// with the attributes it was recorded with. Other handles with the same
/// scope and name add to the same exported sum; that sum is not modelled.
pub uninterp spec fn counter_adds(counter: Counter<u64>) -> Seq<(u64, Seq<KeyValue>)>;

/// Calls `opentelemetry::global::meter(name)`, which gives the meter of the
/// global provider for the instrumentation scope `name`.
#[verifier::external_body]
fn global_meter(name: &'static str) -> (r: Meter)
    ensures
        meter_scope(r) == name@,
{
    opentelemetry::global::meter(name)
}

/// Builds a `u64` counter on `meter` with `name` and `description`
/// (`Meter::u64_counter`, `with_description`, `build`). Claimed of
/// OpenTelemetry: the counter records under the meter's scope and the given
/// name, and nothing has been added through this handle yet. (`counter_adds`
/// is what went through one handle; the SDK sums instruments of the same
/// scope and name across handles, which is not modelled here.)
#[verifier::external_body]
fn build_u64_counter(meter: &Meter, name: &'static str, description: &'static str) -> (r: Counter<u64>)
    ensures
        counter_scope(r) == meter_scope(*meter),
        counter_name(r) == name@,
        counter_adds(r) == Seq::<(u64, Seq<KeyValue>)>::empty(),
{
    meter.u64_counter(name).with_description(description).build()
}

/// Calls `Counter::add(value, attributes)`: the counter records one more
/// addition of `value` with these attributes; its scope and name stay.
#[verifier::external_body]
fn counter_add(counter: &mut Counter<u64>, value: u64, attributes: &[KeyValue])
    ensures
        counter_adds(*final(counter)) == counter_adds(*old(counter)).push((value, attributes@)),
        counter_name(*final(counter)) == counter_name(*old(counter)),
        counter_scope(*final(counter)) == counter_scope(*old(counter)),
{
    counter.add(value, attributes)
}

/// The sum of the values added.
pub open spec fn adds_total(adds: Seq<(u64, Seq<KeyValue>)>) -> int
    decreases adds.len(),
{
    if adds.len() == 0 {
        0
    } else {
        adds_total(adds.drop_last()) + adds.last().0
    }
}

/// One more addition raises the total by its value.
pub proof fn lemma_adds_total_push(adds: Seq<(u64, Seq<KeyValue>)>, value: u64, attributes: Seq<KeyValue>)
    ensures
        adds_total(adds.push((value, attributes))) == adds_total(adds) + value,
{
    assert(adds.push((value, attributes)).drop_last() =~= adds);
}

/// `next` is `c` after one more addition of `value` with `attributes`, with
/// its scope and name unchanged.
pub open spec fn added(c: Counter<u64>, next: Counter<u64>, value: u64, attributes: Seq<KeyValue>) -> bool {
    &&& counter_adds(next) == counter_adds(c).push((value, attributes))
    &&& counter_name(next) == counter_name(c)
    &&& counter_scope(next) == counter_scope(c)
}

/// A run of additions of the same value and attributes: each counter in
/// `counters` is the one before it after one more addition. The last has
/// received all of them, in order, on top of what the first had, and keeps
/// the first one's scope and name.
pub proof fn lemma_repeated_additions(counters: Seq<Counter<u64>>, value: u64, attributes: Seq<KeyValue>)
    requires
        counters.len() >= 1,
        forall|i: int| 0 <= i < counters.len() - 1 ==> added(#[trigger] counters[i], counters[i + 1], value, attributes),
    ensures
        counter_adds(counters.last()) == counter_adds(counters[0]) + Seq::new(
            (counters.len() - 1) as nat,
            |j: int| (value, attributes),
        ),
        adds_total(counter_adds(counters.last())) == adds_total(counter_adds(counters[0])) + (counters.len() - 1) * value,
        counter_name(counters.last()) == counter_name(counters[0]),
        counter_scope(counters.last()) == counter_scope(counters[0]),
    decreases counters.len(),
{
    let n = counters.len();
    if n > 1 {
        let prefix = counters.drop_last();
        assert forall|i: int| 0 <= i < prefix.len() - 1 implies added(#[trigger] prefix[i], prefix[i + 1], value, attributes) by {
            assert(prefix[i] == counters[i] && prefix[i + 1] == counters[i + 1]);
            assert(added(counters[i], counters[i + 1], value, attributes));
        }
        lemma_repeated_additions(prefix, value, attributes);
        assert(added(counters[n - 2], counters[n - 1], value, attributes));
        lemma_adds_total_push(counter_adds(counters[n - 2]), value, attributes);
        assert(counter_adds(counters[0]) + Seq::new((n - 1) as nat, |j: int| (value, attributes)) =~= (
            counter_adds(counters[0]) + Seq::new((n - 2) as nat, |j: int| (value, attributes))).push((value, attributes)));
        assert((n - 2) * value + value == (n - 1) * value) by (nonlinear_arith);
    } else {
        assert(counter_adds(counters[0]) + Seq::new(0, |j: int| (value, attributes)) =~= counter_adds(counters[0]));
    }
}

/// Global metrics.
pub struct GlobalMetrics {
    /// Global count of errors.
    errors_counter: Counter<u64>,
}

impl GlobalMetrics {
    /// The counter of errors.
    pub closed spec fn errors_counter(&self) -> Counter<u64> {
        self.errors_counter
    }

    /// Metrics on the meter called `name`: one counter, `global.errors`,
    /// with nothing recorded yet.
    pub fn new(name: &'static str) -> (r: GlobalMetrics)
        ensures
            counter_scope(r.errors_counter()) == name@,
            counter_name(r.errors_counter()) == "global.errors"@,
            counter_adds(r.errors_counter()) == Seq::<(u64, Seq<KeyValue>)>::empty(),
    {
        let meter = global_meter(name);
        let errors_counter = build_u64_counter(
            &meter,
            "global.errors",
            "Total number of errors encountered during operation and not tracked by inner components",
        );
        GlobalMetrics { errors_counter }
    }

    /// Records one error: adds 1 to `global.errors`, with no attributes.
    pub fn record_error(&mut self)
        ensures
            added(old(self).errors_counter(), final(self).errors_counter(), 1, Seq::<KeyValue>::empty()),
    {
        let no_attributes: [KeyValue; 0] = [];
        counter_add(&mut self.errors_counter, 1, &no_attributes);
        proof {
            assert(no_attributes@ =~= Seq::<KeyValue>::empty());
        }
    }
}

/// `n` calls of `GlobalMetrics::record_error` on metrics just built: the
/// `global.errors` counter of the meter `name` has received exactly `n`
/// additions of 1, each with no attributes, and so counts `n` errors.
pub proof fn law_global_errors_count(name: &'static str, states: Seq<GlobalMetrics>)
    requires
        states.len() >= 1,
        counter_scope(states[0].errors_counter()) == name@,
        counter_name(states[0].errors_counter()) == "global.errors"@,
        counter_adds(states[0].errors_counter()) == Seq::<(u64, Seq<KeyValue>)>::empty(),
        forall|i: int| 0 <= i < states.len() - 1 ==> added(
            #[trigger] states[i].errors_counter(),
            states[i + 1].errors_counter(),
            1,
            Seq::<KeyValue>::empty(),
        ),
    ensures
        counter_scope(states.last().errors_counter()) == name@,
        counter_name(states.last().errors_counter()) == "global.errors"@,
        counter_adds(states.last().errors_counter()) == Seq::new(
            (states.len() - 1) as nat,
            |j: int| (1u64, Seq::<KeyValue>::empty()),
        ),
        adds_total(counter_adds(states.last().errors_counter())) == states.len() - 1,
{
    let counters = states.map_values(|g: GlobalMetrics| g.errors_counter());
    assert forall|i: int| 0 <= i < counters.len() - 1 implies added(
        #[trigger] counters[i],
        counters[i + 1],
        1,
        Seq::<KeyValue>::empty(),
    ) by {
        assert(added(states[i].errors_counter(), states[i + 1].errors_counter(), 1, Seq::<KeyValue>::empty()));
    }
    lemma_repeated_additions(counters, 1, Seq::<KeyValue>::empty());
    assert(counters.last() == states.last().errors_counter());
    assert(Seq::<(u64, Seq<KeyValue>)>::empty() + Seq::new((states.len() - 1) as nat, |j: int| (1u64, Seq::<KeyValue>::empty()))
        =~= Seq::new((states.len() - 1) as nat, |j: int| (1u64, Seq::<KeyValue>::empty())));
}

/// Each ingester counter has its own documented name: the `received` counter of an event kind is `amplifier.received.<kind>.count`, the `processed` one `amplifier.processed.<kind>.count`, and the error counter `errors.count`.
pub proof fn law_ingester_counter_names()
    ensures
        IngesterCounter::GasCreditReceived.metric_name() == "amplifier.received.gas_credit.count"@,
        IngesterCounter::GasRefundedReceived.metric_name() == "amplifier.received.gas_refunded.count"@,
        IngesterCounter::CallReceived.metric_name() == "amplifier.received.call.count"@,
        IngesterCounter::MessageApprovedReceived.metric_name() == "amplifier.received.message_approved.count"@,
        IngesterCounter::MessageExecutedReceived.metric_name() == "amplifier.received.message_executed.count"@,
        IngesterCounter::CannotExecuteMessageReceived.metric_name() == "amplifier.received.cannot_execute_message.count"@,
        IngesterCounter::SignersRotatedReceived.metric_name() == "amplifier.received.signers_rotated.count"@,
        IngesterCounter::GasCreditProcessed.metric_name() == "amplifier.processed.gas_credit.count"@,
        IngesterCounter::GasRefundedProcessed.metric_name() == "amplifier.processed.gas_refunded.count"@,
        IngesterCounter::CallProcessed.metric_name() == "amplifier.processed.call.count"@,
        IngesterCounter::MessageApprovedProcessed.metric_name() == "amplifier.processed.message_approved.count"@,
        IngesterCounter::MessageExecutedProcessed.metric_name() == "amplifier.processed.message_executed.count"@,
        IngesterCounter::CannotExecuteMessageProcessed.metric_name() == "amplifier.processed.cannot_execute_message.count"@,
        IngesterCounter::SignersRotatedProcessed.metric_name() == "amplifier.processed.signers_rotated.count"@,
        IngesterCounter::ErrorRaised.metric_name() == "errors.count"@,
{
}

/// The counters of `AmplifierIngesterMetrics`.
#[derive(Debug, Clone, Copy, PartialEq, Eq)]
pub enum IngesterCounter {
    /// `amplifier.received.gas_credit.count`.
    GasCreditReceived,
    /// `amplifier.received.gas_refunded.count`.
    GasRefundedReceived,
    /// `amplifier.received.call.count`.
    CallReceived,
    /// `amplifier.received.message_approved.count`.
    MessageApprovedReceived,
    /// `amplifier.received.message_executed.count`.
    MessageExecutedReceived,
    /// `amplifier.received.cannot_execute_message.count`.
    CannotExecuteMessageReceived,
    /// `amplifier.received.signers_rotated.count`.
    SignersRotatedReceived,
    /// `amplifier.processed.gas_credit.count`.
    GasCreditProcessed,
    /// `amplifier.processed.gas_refunded.count`.
    GasRefundedProcessed,
    /// `amplifier.processed.call.count`.
    CallProcessed,
    /// `amplifier.processed.message_approved.count`.
    MessageApprovedProcessed,
    /// `amplifier.processed.message_executed.count`.
    MessageExecutedProcessed,
    /// `amplifier.processed.cannot_execute_message.count`.
    CannotExecuteMessageProcessed,
    /// `amplifier.processed.signers_rotated.count`.
    SignersRotatedProcessed,
    /// `errors.count`.
    ErrorRaised,
}

impl IngesterCounter {
    /// The name the counter is built with.
    pub open spec fn metric_name(self) -> Seq<char> {
        match self {
            IngesterCounter::GasCreditReceived => "amplifier.received.gas_credit.count"@,
            IngesterCounter::GasRefundedReceived => "amplifier.received.gas_refunded.count"@,
            IngesterCounter::CallReceived => "amplifier.received.call.count"@,
            IngesterCounter::MessageApprovedReceived => "amplifier.received.message_approved.count"@,
            IngesterCounter::MessageExecutedReceived => "amplifier.received.message_executed.count"@,
            IngesterCounter::CannotExecuteMessageReceived => "amplifier.received.cannot_execute_message.count"@,
            IngesterCounter::SignersRotatedReceived => "amplifier.received.signers_rotated.count"@,
            IngesterCounter::GasCreditProcessed => "amplifier.processed.gas_credit.count"@,
            IngesterCounter::GasRefundedProcessed => "amplifier.processed.gas_refunded.count"@,
            IngesterCounter::CallProcessed => "amplifier.processed.call.count"@,
            IngesterCounter::MessageApprovedProcessed => "amplifier.processed.message_approved.count"@,
            IngesterCounter::MessageExecutedProcessed => "amplifier.processed.message_executed.count"@,
            IngesterCounter::CannotExecuteMessageProcessed => "amplifier.processed.cannot_execute_message.count"@,
            IngesterCounter::SignersRotatedProcessed => "amplifier.processed.signers_rotated.count"@,
            IngesterCounter::ErrorRaised => "errors.count"@,
        }
    }
}

/// Metrics of the Amplifier ingester: events received and processed, by
/// kind, and errors.
pub struct AmplifierIngesterMetrics {
    gas_credit_received: Counter<u64>,
    gas_refunded_received: Counter<u64>,
    call_received: Counter<u64>,
    message_approved_received: Counter<u64>,
    message_executed_received: Counter<u64>,
    cannot_execute_message_received: Counter<u64>,
    signers_rotated_received: Counter<u64>,
    gas_credit_processed: Counter<u64>,
    gas_refunded_processed: Counter<u64>,
    call_processed: Counter<u64>,
    message_approved_processed: Counter<u64>,
    message_executed_processed: Counter<u64>,
    cannot_execute_message_processed: Counter<u64>,
    signers_rotated_processed: Counter<u64>,
    error_raised: Counter<u64>,
    attributes: Vec<KeyValue>,
}

impl AmplifierIngesterMetrics {
    /// The counter `which`.
    pub closed spec fn counter(&self, which: IngesterCounter) -> Counter<u64> {
        match which {
            IngesterCounter::GasCreditReceived => self.gas_credit_received,
            IngesterCounter::GasRefundedReceived => self.gas_refunded_received,
            IngesterCounter::CallReceived => self.call_received,
            IngesterCounter::MessageApprovedReceived => self.message_approved_received,
            IngesterCounter::MessageExecutedReceived => self.message_executed_received,
            IngesterCounter::CannotExecuteMessageReceived => self.cannot_execute_message_received,
            IngesterCounter::SignersRotatedReceived => self.signers_rotated_received,
            IngesterCounter::GasCreditProcessed => self.gas_credit_processed,
            IngesterCounter::GasRefundedProcessed => self.gas_refunded_processed,
            IngesterCounter::CallProcessed => self.call_processed,
            IngesterCounter::MessageApprovedProcessed => self.message_approved_processed,
            IngesterCounter::MessageExecutedProcessed => self.message_executed_processed,
            IngesterCounter::CannotExecuteMessageProcessed => self.cannot_execute_message_processed,
            IngesterCounter::SignersRotatedProcessed => self.signers_rotated_processed,
            IngesterCounter::ErrorRaised => self.error_raised,
        }
    }

    /// The attributes attached to every addition.
    pub closed spec fn spec_attributes(&self) -> Seq<KeyValue> {
        self.attributes@
    }

    /// `next` is `self` after adding `value` to the counter `which`, with
    /// the stored attributes, and nothing else changed.
    pub open spec fn bumped(&self, next: &Self, which: IngesterCounter, value: u64) -> bool {
        &&& added(self.counter(which), next.counter(which), value, self.spec_attributes())
        &&& forall|w: IngesterCounter| w != which ==> #[trigger] next.counter(w) == self.counter(w)
        &&& next.spec_attributes() == self.spec_attributes()
    }

    /// Metrics on the meter called `name`, attaching `attributes` to every
    /// addition: one counter per kind, built with its own name, with
    /// nothing recorded yet.
    pub fn new(name: &'static str, attributes: Vec<KeyValue>) -> (r: AmplifierIngesterMetrics)
        ensures
            forall|w: IngesterCounter| {
                &&& counter_scope(#[trigger] r.counter(w)) == name@
                &&& counter_name(r.counter(w)) == w.metric_name()
                &&& counter_adds(r.counter(w)) == Seq::<(u64, Seq<KeyValue>)>::empty()
            },
            r.spec_attributes() == attributes@,
            counter_name(r.counter(IngesterCounter::GasCreditReceived)) == "amplifier.received.gas_credit.count"@,
            counter_name(r.counter(IngesterCounter::GasRefundedReceived)) == "amplifier.received.gas_refunded.count"@,
            counter_name(r.counter(IngesterCounter::CallReceived)) == "amplifier.received.call.count"@,
            counter_name(r.counter(IngesterCounter::MessageApprovedReceived)) == "amplifier.received.message_approved.count"@,
            counter_name(r.counter(IngesterCounter::MessageExecutedReceived)) == "amplifier.received.message_executed.count"@,
            counter_name(r.counter(IngesterCounter::CannotExecuteMessageReceived)) == "amplifier.received.cannot_execute_message.count"@,
            counter_name(r.counter(IngesterCounter::SignersRotatedReceived)) == "amplifier.received.signers_rotated.count"@,
            counter_name(r.counter(IngesterCounter::GasCreditProcessed)) == "amplifier.processed.gas_credit.count"@,
            counter_name(r.counter(IngesterCounter::GasRefundedProcessed)) == "amplifier.processed.gas_refunded.count"@,
            counter_name(r.counter(IngesterCounter::CallProcessed)) == "amplifier.processed.call.count"@,
            counter_name(r.counter(IngesterCounter::MessageApprovedProcessed)) == "amplifier.processed.message_approved.count"@,
            counter_name(r.counter(IngesterCounter::MessageExecutedProcessed)) == "amplifier.processed.message_executed.count"@,
            counter_name(r.counter(IngesterCounter::CannotExecuteMessageProcessed)) == "amplifier.processed.cannot_execute_message.count"@,
            counter_name(r.counter(IngesterCounter::SignersRotatedProcessed)) == "amplifier.processed.signers_rotated.count"@,
            counter_name(r.counter(IngesterCounter::ErrorRaised)) == "errors.count"@,
    {
        let meter = global_meter(name);
        let gas_credit_received = build_u64_counter(&meter, "amplifier.received.gas_credit.count", "Number of received GasCredit events");
        let gas_refunded_received = build_u64_counter(&meter, "amplifier.received.gas_refunded.count", "Number of received GasRefunded events");
        let call_received = build_u64_counter(&meter, "amplifier.received.call.count", "Number of received Call events");
        let message_approved_received = build_u64_counter(&meter, "amplifier.received.message_approved.count", "Number of received MessageApproved events");
        let message_executed_received = build_u64_counter(&meter, "amplifier.received.message_executed.count", "Number of received MessageExecuted events");
        let cannot_execute_message_received = build_u64_counter(&meter, "amplifier.received.cannot_execute_message.count", "Number of received CannotExecuteMessage events");
        let signers_rotated_received = build_u64_counter(&meter, "amplifier.received.signers_rotated.count", "Number of received SignersRotated events");
        let gas_credit_processed = build_u64_counter(&meter, "amplifier.processed.gas_credit.count", "Number of processed GasCredit events");
        let gas_refunded_processed = build_u64_counter(&meter, "amplifier.processed.gas_refunded.count", "Number of processed GasRefunded events");
        let call_processed = build_u64_counter(&meter, "amplifier.processed.call.count", "Number of processed Call events");
        let message_approved_processed = build_u64_counter(&meter, "amplifier.processed.message_approved.count", "Number of processed MessageApproved events");
        let message_executed_processed = build_u64_counter(&meter, "amplifier.processed.message_executed.count", "Number of processed MessageExecuted events");
        let cannot_execute_message_processed = build_u64_counter(&meter, "amplifier.processed.cannot_execute_message.count", "Number of processed CannotExecuteMessage events");
        let signers_rotated_processed = build_u64_counter(&meter, "amplifier.processed.signers_rotated.count", "Number of processed SignersRotated events");
        let error_raised = build_u64_counter(&meter, "errors.count", "Total number of errors encountered during operation");
        let r = AmplifierIngesterMetrics {
            gas_credit_received,
            gas_refunded_received,
            call_received,
            message_approved_received,
            message_executed_received,
            cannot_execute_message_received,
            signers_rotated_received,
            gas_credit_processed,
            gas_refunded_processed,
            call_processed,
            message_approved_processed,
            message_executed_processed,
            cannot_execute_message_processed,
            signers_rotated_processed,
            error_raised,
            attributes,
        };
        assert forall|w: IngesterCounter| {
            &&& counter_scope(#[trigger] r.counter(w)) == name@
            &&& counter_name(r.counter(w)) == w.metric_name()
            &&& counter_adds(r.counter(w)) == Seq::<(u64, Seq<KeyValue>)>::empty()
        } by {
            match w {
                IngesterCounter::GasCreditReceived => {},
                IngesterCounter::GasRefundedReceived => {},
                IngesterCounter::CallReceived => {},
                IngesterCounter::MessageApprovedReceived => {},
                IngesterCounter::MessageExecutedReceived => {},
                IngesterCounter::CannotExecuteMessageReceived => {},
                IngesterCounter::SignersRotatedReceived => {},
                IngesterCounter::GasCreditProcessed => {},
                IngesterCounter::GasRefundedProcessed => {},
                IngesterCounter::CallProcessed => {},
                IngesterCounter::MessageApprovedProcessed => {},
                IngesterCounter::MessageExecutedProcessed => {},
                IngesterCounter::CannotExecuteMessageProcessed => {},
                IngesterCounter::SignersRotatedProcessed => {},
                IngesterCounter::ErrorRaised => {},
            }
        }
        r
    }

    /// Records the receipt of a `GasCredit` event. Adds 1 to `amplifier.received.gas_credit.count`.
    pub fn record_gas_credit_received(&mut self)
        ensures
            old(self).bumped(final(self), IngesterCounter::GasCreditReceived, 1),
    {
        counter_add(&mut self.gas_credit_received, 1, self.attributes.as_slice());
    }

    /// Records the receipt of a `GasRefunded` event. Adds 1 to `amplifier.received.gas_refunded.count`.
    pub fn record_gas_refunded_received(&mut self)
        ensures
            old(self).bumped(final(self), IngesterCounter::GasRefundedReceived, 1),
    {
        counter_add(&mut self.gas_refunded_received, 1, self.attributes.as_slice());
    }

    /// Records the receipt of a `Call` event. Adds 1 to `amplifier.received.call.count`.
    pub fn record_call_received(&mut self)
        ensures
            old(self).bumped(final(self), IngesterCounter::CallReceived, 1),
    {
        counter_add(&mut self.call_received, 1, self.attributes.as_slice());
    }

    /// Records the receipt of a `MessageApproved` event. Adds 1 to `amplifier.received.message_approved.count`.
    pub fn record_message_approved_received(&mut self)
        ensures
            old(self).bumped(final(self), IngesterCounter::MessageApprovedReceived, 1),
    {
        counter_add(&mut self.message_approved_received, 1, self.attributes.as_slice());
    }

    /// Records the receipt of a `MessageExecuted` event. Adds 1 to `amplifier.received.message_executed.count`.
    pub fn record_message_executed_received(&mut self)
        ensures
            old(self).bumped(final(self), IngesterCounter::MessageExecutedReceived, 1),
    {
        counter_add(&mut self.message_executed_received, 1, self.attributes.as_slice());
    }

    /// Records the receipt of a `CannotExecuteMessage` event. Adds 1 to `amplifier.received.cannot_execute_message.count`.
    pub fn record_cannot_execute_message_received(&mut self)
        ensures
            old(self).bumped(final(self), IngesterCounter::CannotExecuteMessageReceived, 1),
    {
        counter_add(&mut self.cannot_execute_message_received, 1, self.attributes.as_slice());
    }

    /// Records the receipt of a `SignersRotated` event. Adds 1 to `amplifier.received.signers_rotated.count`.
    pub fn record_signers_rotated_received(&mut self)
        ensures
            old(self).bumped(final(self), IngesterCounter::SignersRotatedReceived, 1),
    {
        counter_add(&mut self.signers_rotated_received, 1, self.attributes.as_slice());
    }

    /// Records the successful processing of a `GasCredit` event. Adds 1 to `amplifier.processed.gas_credit.count`.
    pub fn record_gas_credit_processed(&mut self)
        ensures
            old(self).bumped(final(self), IngesterCounter::GasCreditProcessed, 1),
    {
        counter_add(&mut self.gas_credit_processed, 1, self.attributes.as_slice());
    }

    /// Records the successful processing of a `GasRefunded` event. Adds 1 to `amplifier.processed.gas_refunded.count`.
    pub fn record_gas_refunded_processed(&mut self)
        ensures
            old(self).bumped(final(self), IngesterCounter::GasRefundedProcessed, 1),
    {
        counter_add(&mut self.gas_refunded_processed, 1, self.attributes.as_slice());
    }

    /// Records the successful processing of a `Call` event. Adds 1 to `amplifier.processed.call.count`.
    pub fn record_call_processed(&mut self)
        ensures
            old(self).bumped(final(self), IngesterCounter::CallProcessed, 1),
    {
        counter_add(&mut self.call_processed, 1, self.attributes.as_slice());
    }

    /// Records the successful processing of a `MessageApproved` event. Adds 1 to `amplifier.processed.message_approved.count`.
    pub fn record_message_approved_processed(&mut self)
        ensures
            old(self).bumped(final(self), IngesterCounter::MessageApprovedProcessed, 1),
    {
        counter_add(&mut self.message_approved_processed, 1, self.attributes.as_slice());
    }

    /// Records the successful processing of a `MessageExecuted` event. Adds 1 to `amplifier.processed.message_executed.count`.
    pub fn record_message_executed_processed(&mut self)
        ensures
            old(self).bumped(final(self), IngesterCounter::MessageExecutedProcessed, 1),
    {
        counter_add(&mut self.message_executed_processed, 1, self.attributes.as_slice());
    }

    /// Records the successful processing of a `CannotExecuteMessage` event. Adds 1 to `amplifier.processed.cannot_execute_message.count`.
    pub fn record_cannot_execute_message_processed(&mut self)
        ensures
            old(self).bumped(final(self), IngesterCounter::CannotExecuteMessageProcessed, 1),
    {
        counter_add(&mut self.cannot_execute_message_processed, 1, self.attributes.as_slice());
    }

    /// Records the successful processing of a `SignersRotated` event. Adds 1 to `amplifier.processed.signers_rotated.count`.
    pub fn record_signers_rotated_processed(&mut self)
        ensures
            old(self).bumped(final(self), IngesterCounter::SignersRotatedProcessed, 1),
    {
        counter_add(&mut self.signers_rotated_processed, 1, self.attributes.as_slice());
    }

    /// Records an error encountered during task processing. Adds 1 to `errors.count`.
    pub fn record_error(&mut self)
        ensures
            old(self).bumped(final(self), IngesterCounter::ErrorRaised, 1),
    {
        counter_add(&mut self.error_raised, 1, self.attributes.as_slice());
    }
}

/// Each subscriber counter has its own documented name, `subscriber.<what>.count`, and the error counter `errors.count`.
pub proof fn law_subscriber_counter_names()
    ensures
        SubscriberCounter::TasksFetched.metric_name() == "subscriber.tasks_fetched.count"@,
        SubscriberCounter::TasksPublished.metric_name() == "subscriber.tasks_published.count"@,
        SubscriberCounter::EmptyResponses.metric_name() == "subscriber.empty_responses.count"@,
        SubscriberCounter::FetchRequests.metric_name() == "subscriber.fetch_requests.count"@,
        SubscriberCounter::PublishBatches.metric_name() == "subscriber.publish_batches.count"@,
        SubscriberCounter::FetchErrors.metric_name() == "subscriber.fetch_errors.count"@,
        SubscriberCounter::PublishErrors.metric_name() == "subscriber.publish_errors.count"@,
        SubscriberCounter::HealthCheckErrors.metric_name() == "subscriber.health_check_errors.count"@,
        SubscriberCounter::ErrorRaised.metric_name() == "errors.count"@,
{
}

/// The counters of `AmplifierSubscriberMetrics`.
#[derive(Debug, Clone, Copy, PartialEq, Eq)]
pub enum SubscriberCounter {
    /// `subscriber.tasks_fetched.count`.
    TasksFetched,
    /// `subscriber.tasks_published.count`.
    TasksPublished,
    /// `subscriber.empty_responses.count`.
    EmptyResponses,
    /// `subscriber.fetch_requests.count`.
    FetchRequests,
    /// `subscriber.publish_batches.count`.
    PublishBatches,
    /// `subscriber.fetch_errors.count`.
    FetchErrors,
    /// `subscriber.publish_errors.count`.
    PublishErrors,
    /// `subscriber.health_check_errors.count`.
    HealthCheckErrors,
    /// `errors.count`.
    ErrorRaised,
}

impl SubscriberCounter {
    /// The name the counter is built with.
    pub open spec fn metric_name(self) -> Seq<char> {
        match self {
            SubscriberCounter::TasksFetched => "subscriber.tasks_fetched.count"@,
            SubscriberCounter::TasksPublished => "subscriber.tasks_published.count"@,
            SubscriberCounter::EmptyResponses => "subscriber.empty_responses.count"@,
            SubscriberCounter::FetchRequests => "subscriber.fetch_requests.count"@,
            SubscriberCounter::PublishBatches => "subscriber.publish_batches.count"@,
            SubscriberCounter::FetchErrors => "subscriber.fetch_errors.count"@,
            SubscriberCounter::PublishErrors => "subscriber.publish_errors.count"@,
            SubscriberCounter::HealthCheckErrors => "subscriber.health_check_errors.count"@,
            SubscriberCounter::ErrorRaised => "errors.count"@,
        }
    }
}

/// Metrics of the Amplifier subscriber: tasks fetched and published,
/// requests, batches and errors.
pub struct AmplifierSubscriberMetrics {
    tasks_fetched: Counter<u64>,
    tasks_published: Counter<u64>,
    empty_responses: Counter<u64>,
    fetch_requests: Counter<u64>,
    publish_batches: Counter<u64>,
    fetch_errors: Counter<u64>,
    publish_errors: Counter<u64>,
    health_check_errors: Counter<u64>,
    error_raised: Counter<u64>,
    attributes: Vec<KeyValue>,
}

impl AmplifierSubscriberMetrics {
    /// The counter `which`.
    pub closed spec fn counter(&self, which: SubscriberCounter) -> Counter<u64> {
        match which {
            SubscriberCounter::TasksFetched => self.tasks_fetched,
            SubscriberCounter::TasksPublished => self.tasks_published,
            SubscriberCounter::EmptyResponses => self.empty_responses,
            SubscriberCounter::FetchRequests => self.fetch_requests,
            SubscriberCounter::PublishBatches => self.publish_batches,
            SubscriberCounter::FetchErrors => self.fetch_errors,
            SubscriberCounter::PublishErrors => self.publish_errors,
            SubscriberCounter::HealthCheckErrors => self.health_check_errors,
            SubscriberCounter::ErrorRaised => self.error_raised,
        }
    }

    /// The attributes attached to every addition.
    pub closed spec fn spec_attributes(&self) -> Seq<KeyValue> {
        self.attributes@
    }

    /// `next` is `self` after adding `value` to the counter `which`, with
    /// the stored attributes, and nothing else changed.
    pub open spec fn bumped(&self, next: &Self, which: SubscriberCounter, value: u64) -> bool {
        &&& added(self.counter(which), next.counter(which), value, self.spec_attributes())
        &&& forall|w: SubscriberCounter| w != which ==> #[trigger] next.counter(w) == self.counter(w)
        &&& next.spec_attributes() == self.spec_attributes()
    }

    /// Metrics on the meter called `name`, attaching `attributes` to every
    /// addition: one counter per kind, built with its own name, with
    /// nothing recorded yet.
    pub fn new(name: &'static str, attributes: Vec<KeyValue>) -> (r: AmplifierSubscriberMetrics)
        ensures
            forall|w: SubscriberCounter| {
                &&& counter_scope(#[trigger] r.counter(w)) == name@
                &&& counter_name(r.counter(w)) == w.metric_name()
                &&& counter_adds(r.counter(w)) == Seq::<(u64, Seq<KeyValue>)>::empty()
            },
            r.spec_attributes() == attributes@,
            r.wf(),
            counter_name(r.counter(SubscriberCounter::TasksFetched)) == "subscriber.tasks_fetched.count"@,
            counter_name(r.counter(SubscriberCounter::TasksPublished)) == "subscriber.tasks_published.count"@,
            counter_name(r.counter(SubscriberCounter::EmptyResponses)) == "subscriber.empty_responses.count"@,
            counter_name(r.counter(SubscriberCounter::FetchRequests)) == "subscriber.fetch_requests.count"@,
            counter_name(r.counter(SubscriberCounter::PublishBatches)) == "subscriber.publish_batches.count"@,
            counter_name(r.counter(SubscriberCounter::FetchErrors)) == "subscriber.fetch_errors.count"@,
            counter_name(r.counter(SubscriberCounter::PublishErrors)) == "subscriber.publish_errors.count"@,
            counter_name(r.counter(SubscriberCounter::HealthCheckErrors)) == "subscriber.health_check_errors.count"@,
            counter_name(r.counter(SubscriberCounter::ErrorRaised)) == "errors.count"@,
    {
        let meter = global_meter(name);
        let tasks_fetched = build_u64_counter(&meter, "subscriber.tasks_fetched.count", "Total number of tasks fetched from Amplifier API");
        let tasks_published = build_u64_counter(&meter, "subscriber.tasks_published.count", "Total number of tasks published to queue");
        let empty_responses = build_u64_counter(&meter, "subscriber.empty_responses.count", "Number of empty responses from Amplifier API");
        let fetch_requests = build_u64_counter(&meter, "subscriber.fetch_requests.count", "Total number of fetch requests made to Amplifier API");
        let publish_batches = build_u64_counter(&meter, "subscriber.publish_batches.count", "Total number of batches published to queue");
        let fetch_errors = build_u64_counter(&meter, "subscriber.fetch_errors.count", "Number of errors during task fetching");
        let publish_errors = build_u64_counter(&meter, "subscriber.publish_errors.count", "Number of errors during task publishing");
        let health_check_errors = build_u64_counter(&meter, "subscriber.health_check_errors.count", "Number of health check errors");
        let error_raised = build_u64_counter(&meter, "errors.count", "Total number of errors encountered during operation");
        let r = AmplifierSubscriberMetrics {
            tasks_fetched,
            tasks_published,
            empty_responses,
            fetch_requests,
            publish_batches,
            fetch_errors,
            publish_errors,
            health_check_errors,
            error_raised,
            attributes,
        };
        assert forall|w: SubscriberCounter| {
            &&& counter_scope(#[trigger] r.counter(w)) == name@
            &&& counter_name(r.counter(w)) == w.metric_name()
            &&& counter_adds(r.counter(w)) == Seq::<(u64, Seq<KeyValue>)>::empty()
        } by {
            match w {
                SubscriberCounter::TasksFetched => {},
                SubscriberCounter::TasksPublished => {},
                SubscriberCounter::EmptyResponses => {},
                SubscriberCounter::FetchRequests => {},
                SubscriberCounter::PublishBatches => {},
                SubscriberCounter::FetchErrors => {},
                SubscriberCounter::PublishErrors => {},
                SubscriberCounter::HealthCheckErrors => {},
                SubscriberCounter::ErrorRaised => {},
            }
        }
        r
    }

    /// Every fetch, publish or health-check error recorded has also been
    /// counted as an error: `errors.count` has received at least as much as
    /// the three specific error counters together.
    pub open spec fn wf(&self) -> bool {
        adds_total(counter_adds(self.counter(SubscriberCounter::ErrorRaised))) >= adds_total(
            counter_adds(self.counter(SubscriberCounter::FetchErrors)),
        ) + adds_total(counter_adds(self.counter(SubscriberCounter::PublishErrors))) + adds_total(
            counter_adds(self.counter(SubscriberCounter::HealthCheckErrors)),
        )
    }

    /// Records the number of tasks fetched from the Amplifier API: adds `count`
    /// to `subscriber.tasks_fetched.count`.
    pub fn record_tasks_fetched(&mut self, count: u64)
        requires
            old(self).wf(),
        ensures
            final(self).wf(),
            old(self).bumped(final(self), SubscriberCounter::TasksFetched, count),
    {
        counter_add(&mut self.tasks_fetched, count, self.attributes.as_slice());
    }

    /// Records the number of tasks published to the queue: adds `count` to
    /// `subscriber.tasks_published.count`.
    pub fn record_tasks_published(&mut self, count: u64)
        requires
            old(self).wf(),
        ensures
            final(self).wf(),
            old(self).bumped(final(self), SubscriberCounter::TasksPublished, count),
    {
        counter_add(&mut self.tasks_published, count, self.attributes.as_slice());
    }

    /// Records an empty response from the Amplifier API.
    pub fn record_empty_response(&mut self)
        requires
            old(self).wf(),
        ensures
            final(self).wf(),
            old(self).bumped(final(self), SubscriberCounter::EmptyResponses, 1),
    {
        counter_add(&mut self.empty_responses, 1, self.attributes.as_slice());
    }

    /// Records a fetch request made to the Amplifier API.
    pub fn record_fetch_request(&mut self)
        requires
            old(self).wf(),
        ensures
            final(self).wf(),
            old(self).bumped(final(self), SubscriberCounter::FetchRequests, 1),
    {
        counter_add(&mut self.fetch_requests, 1, self.attributes.as_slice());
    }

    /// Records a batch published to the queue.
    pub fn record_publish_batch(&mut self)
        requires
            old(self).wf(),
        ensures
            final(self).wf(),
            old(self).bumped(final(self), SubscriberCounter::PublishBatches, 1),
    {
        counter_add(&mut self.publish_batches, 1, self.attributes.as_slice());
    }

    /// Records an error during task fetching: adds 1 to
    /// `subscriber.fetch_errors.count`, then 1 to `errors.count`.
    pub fn record_fetch_error(&mut self)
        requires
            old(self).wf(),
        ensures
            final(self).wf(),
            exists|mid: Self| old(self).bumped(&mid, SubscriberCounter::FetchErrors, 1) && mid.bumped(final(self), SubscriberCounter::ErrorRaised, 1),
    {
        let ghost before = *self;
        counter_add(&mut self.fetch_errors, 1, self.attributes.as_slice());
        let ghost mid = *self;
        counter_add(&mut self.error_raised, 1, self.attributes.as_slice());
        proof {
            lemma_adds_total_push(counter_adds(before.counter(SubscriberCounter::FetchErrors)), 1, before.spec_attributes());
            lemma_adds_total_push(counter_adds(before.counter(SubscriberCounter::ErrorRaised)), 1, before.spec_attributes());
            assert(before.bumped(&mid, SubscriberCounter::FetchErrors, 1));
            assert(mid.bumped(&*self, SubscriberCounter::ErrorRaised, 1));
        }
    }

    /// Records an error during task publishing: adds 1 to
    /// `subscriber.publish_errors.count`, then 1 to `errors.count`.
    pub fn record_publish_error(&mut self)
        requires
            old(self).wf(),
        ensures
            final(self).wf(),
            exists|mid: Self| old(self).bumped(&mid, SubscriberCounter::PublishErrors, 1) && mid.bumped(final(self), SubscriberCounter::ErrorRaised, 1),
    {
        let ghost before = *self;
        counter_add(&mut self.publish_errors, 1, self.attributes.as_slice());
        let ghost mid = *self;
        counter_add(&mut self.error_raised, 1, self.attributes.as_slice());
        proof {
            lemma_adds_total_push(counter_adds(before.counter(SubscriberCounter::PublishErrors)), 1, before.spec_attributes());
            lemma_adds_total_push(counter_adds(before.counter(SubscriberCounter::ErrorRaised)), 1, before.spec_attributes());
            assert(before.bumped(&mid, SubscriberCounter::PublishErrors, 1));
            assert(mid.bumped(&*self, SubscriberCounter::ErrorRaised, 1));
        }
    }

    /// Records a health check error: adds 1 to
    /// `subscriber.health_check_errors.count`, then 1 to `errors.count`.
    pub fn record_health_check_error(&mut self)
        requires
            old(self).wf(),
        ensures
            final(self).wf(),
            exists|mid: Self| old(self).bumped(&mid, SubscriberCounter::HealthCheckErrors, 1) && mid.bumped(final(self), SubscriberCounter::ErrorRaised, 1),
    {
        let ghost before = *self;
        counter_add(&mut self.health_check_errors, 1, self.attributes.as_slice());
        let ghost mid = *self;
        counter_add(&mut self.error_raised, 1, self.attributes.as_slice());
        proof {
            lemma_adds_total_push(counter_adds(before.counter(SubscriberCounter::HealthCheckErrors)), 1, before.spec_attributes());
            lemma_adds_total_push(counter_adds(before.counter(SubscriberCounter::ErrorRaised)), 1, before.spec_attributes());
            assert(before.bumped(&mid, SubscriberCounter::HealthCheckErrors, 1));
            assert(mid.bumped(&*self, SubscriberCounter::ErrorRaised, 1));
        }
    }

    /// Records a general error: adds 1 to `errors.count`.
    pub fn record_error(&mut self)
        requires
            old(self).wf(),
        ensures
            final(self).wf(),
            old(self).bumped(final(self), SubscriberCounter::ErrorRaised, 1),
    {
        counter_add(&mut self.error_raised, 1, self.attributes.as_slice());
        proof {
            lemma_adds_total_push(counter_adds(old(self).counter(SubscriberCounter::ErrorRaised)), 1, old(self).spec_attributes());
        }
    }
}

} // verus!
