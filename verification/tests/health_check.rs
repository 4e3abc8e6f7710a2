use amplifier_relayer::health_check::{
    handle_healthz, handle_readyz, probe_response, Config, Probe, ProbeStatus, Server, STATUS_OK,
    STATUS_SERVICE_UNAVAILABLE,
};

fn body(status: ProbeStatus) -> String {
    let mut map = serde_json::Map::new();
    map.insert("status".to_owned(), serde_json::Value::String(status.as_str().to_owned()));
    serde_json::to_string(&serde_json::Value::Object(map)).unwrap()
}

#[test]
fn test_health_check_success() {
    let resp = handle_healthz(&Ok::<bool, String>(true));
    assert_eq!(resp.status_code, 200);
    assert_eq!(body(resp.status), r#"{"status":"HEALTHY"}"#);
}

#[test]
fn test_health_check_failure() {
    let resp = handle_healthz(&Err::<bool, String>("Health check failed".to_owned()));
    assert_eq!(resp.status_code, 503);
    assert_eq!(body(resp.status), r#"{"status":"UNHEALTHY"}"#);
}

#[test]
fn test_readyz_endpoint() {
    let resp = handle_readyz(&Ok::<bool, String>(true));
    assert_eq!(resp.status_code, 200);
    assert_eq!(body(resp.status), r#"{"status":"READY"}"#);
}

#[test]
fn failing_check_is_unready_and_unhealthy() {
    let r = probe_response(Probe::Readiness, &Ok::<bool, ()>(false));
    assert_eq!(r.status_code, STATUS_SERVICE_UNAVAILABLE);
    assert_eq!(r.status.as_str(), "UNREADY");
    let r = probe_response(Probe::Liveness, &Ok::<bool, ()>(false));
    assert_eq!(r.status_code, 503);
    assert_eq!(r.status, ProbeStatus::Unhealthy);
    let r = probe_response(Probe::Readiness, &Err::<bool, ()>(()));
    assert_eq!(r.status, ProbeStatus::Unready);
}

#[test]
fn probes_agree() {
    for health in [Ok::<bool, ()>(true), Ok(false), Err(())] {
        let live = handle_healthz(&health);
        let ready = handle_readyz(&health);
        assert_eq!(live.status_code, ready.status_code);
        assert_eq!(live.status_code == STATUS_OK, health == Ok(true));
    }
}

#[test]
fn server_keeps_port_and_checker() {
    let server = Server::new(8080, "checker");
    assert_eq!(server.port(), 8080);
    assert_eq!(*server.checker(), "checker");
    assert_eq!(server.into_parts(), (8080, "checker"));
    let config = Config { port: 9000 };
    assert_eq!(config.port, 9000);
}
