use amplifier_relayer::telemetry::{exporter_settings, Config, Protocol, Transport};

fn config(transport: Transport) -> Config {
    Config {
        service_name: "relayer".to_owned(),
        filters: Some(vec!["info".to_owned()]),
        otlp_endpoint: "http://collector:4318".to_owned(),
        otlp_transport: transport,
    }
}

#[test]
fn http_exporters_use_signal_paths() {
    let s = exporter_settings(&config(Transport::Http));
    assert_eq!(s.protocol, Protocol::HttpBinary);
    assert_eq!(s.traces_endpoint, "http://collector:4318/v1/traces");
    assert_eq!(s.metrics_endpoint, "http://collector:4318/v1/metrics");
}

#[test]
fn grpc_exporters_use_the_endpoint() {
    let s = exporter_settings(&config(Transport::Grpc));
    assert_eq!(s.protocol, Protocol::Grpc);
    assert_eq!(s.traces_endpoint, "http://collector:4318");
    assert_eq!(s.metrics_endpoint, "http://collector:4318");
}
