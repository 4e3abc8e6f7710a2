use std::time::Duration;

use amplifier_relayer::config::{
    amplifier_client_tls, validated, AmplifierComponentConfig, ConfigError, NatsConfig, NatsSectionConfig, SubscriberConfig, ValidateConfig,
};
use amplifier_relayer::health_check;
use amplifier_relayer::telemetry;
use url::Url;

fn nats(urls: Vec<Url>) -> NatsSectionConfig {
    NatsSectionConfig {
        nats: NatsConfig {
            urls,
            stream_name: "tasks".to_owned(),
            stream_subject: "tasks.subject".to_owned(),
            stream_description: "task stream".to_owned(),
        },
    }
}

fn subscriber(chain: &str) -> SubscriberConfig {
    SubscriberConfig {
        amplifier_component: AmplifierComponentConfig {
            url: Url::parse("https://amplifier.example").unwrap(),
            chain: chain.to_owned(),
            identity: None,
        },
        tickrate: Duration::from_secs(5),
        telemetry: telemetry::Config {
            service_name: "subscriber".to_owned(),
            filters: None,
            otlp_endpoint: "http://localhost:4317".to_owned(),
            otlp_transport: telemetry::Transport::Grpc,
        },
        health_check: health_check::Config { port: 8080 },
    }
}

#[test]
fn nats_section_needs_a_url() {
    assert_eq!(nats(vec![]).validate(), Err(ConfigError::NoNatsUrls));
    assert_eq!(ConfigError::NoNatsUrls.message(), "nats urls should have at least one connection");
    assert_eq!(nats(vec![Url::parse("nats://localhost:4222").unwrap()]).validate(), Ok(()));
}

#[test]
fn subscriber_chain_must_not_be_blank() {
    assert_eq!(subscriber("").validate(), Err(ConfigError::EmptyChain));
    assert_eq!(subscriber(" \t\n").validate(), Err(ConfigError::EmptyChain));
    assert_eq!(subscriber("\u{3000}").validate(), Err(ConfigError::EmptyChain));
    assert_eq!(subscriber(" solana ").validate(), Ok(()));
    assert_eq!(ConfigError::EmptyChain.message(), "chain could not be empty");
}

#[test]
fn validated_hands_back_valid_configs() {
    assert!(validated(subscriber("starknet")).is_ok());
    assert!(matches!(validated(subscriber("  ")), Err(ConfigError::EmptyChain)));
    assert!(matches!(validated(nats(vec![])), Err(ConfigError::NoNatsUrls)));
}

#[test]
fn client_needs_an_identity() {
    assert!(matches!(amplifier_client_tls(None), Err(ConfigError::IdentityNotSet)));
    assert_eq!(ConfigError::IdentityNotSet.message(), "identity not set");
}

#[test]
fn blank_chain_follows_unicode_white_space() {
    assert_eq!(subscriber("\u{85}\u{a0}\u{1680}\u{2000}\u{200a}\u{2028}\u{2029}\u{202f}\u{205f}\u{b}\u{c}\r").validate(), Err(ConfigError::EmptyChain));
    assert_eq!(subscriber("\u{200b}").validate(), Ok(()));
    assert_eq!(subscriber("\u{feff}").validate(), Ok(()));
}
