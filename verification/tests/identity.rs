use amplifier_relayer::identity::{authenticated_client, client_settings, Identity, TlsType, KEEP_ALIVE_INTERVAL_SECS};

#[test]
fn invalid_pem_is_refused() {
    assert!(Identity::new_from_pem_bytes(b"not a pem").is_err());
    assert!(Identity::new_from_pem_bytes(b"").is_err());
}

fn custom_tls() -> TlsType {
    let config = rustls::ClientConfig::builder()
        .with_root_certificates(rustls::RootCertStore::empty())
        .with_no_client_auth();
    TlsType::CustomProvider(Box::new(config))
}

#[test]
fn client_settings_are_json_with_keep_alive() {
    let settings = client_settings(custom_tls());
    assert_eq!(
        settings.default_headers,
        vec![
            ("Accept", "application/json"),
            ("Accept-Encoding", "gzip, deflate"),
            ("Content-Type", "application/json"),
        ]
    );
    assert_eq!(settings.keep_alive_secs, 15);
    assert_eq!(KEEP_ALIVE_INTERVAL_SECS, 15);
    assert!(settings.keep_alive_while_idle);
    assert!(matches!(settings.tls, TlsType::CustomProvider(_)));
}

#[test]
fn authenticated_client_builds_with_custom_tls() {
    assert!(authenticated_client(custom_tls()).is_ok());
}
