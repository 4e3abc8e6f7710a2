//! Telemetry settings and where the OTLP exporters send their data.
use vstd::prelude::*;
use vstd::string::StringExecFns;

verus! {

/// Tracing and metrics transport.
#[derive(Debug, Clone, Copy, PartialEq, Eq)]
pub enum Transport {
    /// HTTP, binary protobuf.
    Http,
    /// gRPC.
    Grpc,
}

/// Telemetry configuration.
#[derive(Debug)]
pub struct Config {
    /// Service name for metrics and traces.
    pub service_name: String,
    /// Per-crate log levels (e.g. `my_crate=debug`).
    pub filters: Option<Vec<String>>,
    /// OTLP endpoint URL.
    pub otlp_endpoint: String,
    /// Protocol to use for OTLP.
    pub otlp_transport: Transport,
}

/// The OTLP protocol an exporter speaks.
#[derive(Debug, Clone, Copy, PartialEq, Eq)]
pub enum Protocol {
    HttpBinary,
    Grpc,
}

/// Where and how the span and metric exporters send their data.
#[derive(Debug)]
pub struct ExporterSettings {
    pub protocol: Protocol,
    pub traces_endpoint: String,
    pub metrics_endpoint: String,
}

/// The span exporter's endpoint: over HTTP the OTLP endpoint followed by
/// `/v1/traces`, over gRPC the OTLP endpoint itself.
pub open spec fn spec_traces_endpoint(transport: Transport, endpoint: Seq<char>) -> Seq<char> {
    match transport {
        Transport::Http => endpoint + "/v1/traces"@,
        Transport::Grpc => endpoint,
    }
}

/// The metric exporter's endpoint: over HTTP the OTLP endpoint followed by
/// `/v1/metrics`, over gRPC the OTLP endpoint itself.
pub open spec fn spec_metrics_endpoint(transport: Transport, endpoint: Seq<char>) -> Seq<char> {
    match transport {
        Transport::Http => endpoint + "/v1/metrics"@,
        Transport::Grpc => endpoint,
    }
}

/// The exporter settings for `config`.
pub fn exporter_settings(config: &Config) -> (r: ExporterSettings)
    ensures
        r.protocol == (match config.otlp_transport {
            Transport::Http => Protocol::HttpBinary,
            Transport::Grpc => Protocol::Grpc,
        }),
        r.traces_endpoint@ == spec_traces_endpoint(config.otlp_transport, config.otlp_endpoint@),
        r.metrics_endpoint@ == spec_metrics_endpoint(config.otlp_transport, config.otlp_endpoint@),
{
    match config.otlp_transport {
        Transport::Http => {
            let mut traces = config.otlp_endpoint.clone();
            traces.append("/v1/traces");
            let mut metrics = config.otlp_endpoint.clone();
            metrics.append("/v1/metrics");
            ExporterSettings { protocol: Protocol::HttpBinary, traces_endpoint: traces, metrics_endpoint: metrics }
        },
        Transport::Grpc => ExporterSettings {
            protocol: Protocol::Grpc,
            traces_endpoint: config.otlp_endpoint.clone(),
            metrics_endpoint: config.otlp_endpoint.clone(),
        },
    }
}

} // verus!
