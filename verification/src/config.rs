//! Configuration checks run after a configuration has been loaded.
use vstd::prelude::*;
use core::time::Duration;
use url::Url;
use crate::identity::{Identity, TlsType};

verus! {

#[verifier::external_type_specification]
#[verifier::external_body]
pub struct ExUrl(Url);

/// Why a configuration was refused.
#[derive(Debug, Clone, Copy, PartialEq, Eq)]
pub enum ConfigError {
    /// The NATS section lists no server.
    NoNatsUrls,
    /// The chain name is empty or blank.
    EmptyChain,
    /// No client identity is configured.
    IdentityNotSet,
}

impl ConfigError {
    /// The message shown for the error.
    pub fn message(&self) -> (r: &'static str)
        ensures
            r@ == spec_config_error_message(*self),
    {
        match self {
            ConfigError::NoNatsUrls => "nats urls should have at least one connection",
            ConfigError::EmptyChain => "chain could not be empty",
            ConfigError::IdentityNotSet => "identity not set",
        }
    }
}

pub open spec fn spec_config_error_message(e: ConfigError) -> Seq<char> {
    match e {
        ConfigError::NoNatsUrls => "nats urls should have at least one connection"@,
        ConfigError::EmptyChain => "chain could not be empty"@,
        ConfigError::IdentityNotSet => "identity not set"@,
    }
}

/// A configuration that can check itself.
pub trait ValidateConfig {
    /// The outcome of the check: `Ok` for an acceptable configuration,
    /// else the reason it is refused.
    spec fn spec_validate(&self) -> Result<(), ConfigError>;

    /// Checks the configuration.
    fn validate(&self) -> (r: Result<(), ConfigError>)
        ensures
            r == self.spec_validate(),
    ;
}

/// Hands back a loaded configuration once it has passed its own check.
pub fn validated<T: ValidateConfig>(config: T) -> (r: Result<T, ConfigError>)
    ensures
        r is Ok <==> config.spec_validate() is Ok,
        r matches Ok(c) ==> c == config,
        r matches Err(e) ==> config.spec_validate() == Err::<(), ConfigError>(e),
{
    match config.validate() {
        Ok(()) => Ok(config),
        Err(e) => Err(e),
    }
}

/// The NATS connection settings.
pub struct NatsConfig {
    pub urls: Vec<Url>,
    pub stream_name: String,
    pub stream_subject: String,
    pub stream_description: String,
}

/// The `[nats]` section of the subscriber's configuration.
pub struct NatsSectionConfig {
    pub nats: NatsConfig,
}

impl ValidateConfig for NatsSectionConfig {
    /// At least one NATS server is listed; else `NoNatsUrls`.
    open spec fn spec_validate(&self) -> Result<(), ConfigError> {
        if self.nats.urls@.len() > 0 {
            Ok(())
        } else {
            Err(ConfigError::NoNatsUrls)
        }
    }

    /// Refuses an empty server list with `NoNatsUrls`.
    fn validate(&self) -> (r: Result<(), ConfigError>)
        ensures
            r is Ok <==> self.nats.urls@.len() > 0,
            r matches Err(e) ==> e == ConfigError::NoNatsUrls,
    {
        if self.nats.urls.len() == 0 {
            return Err(ConfigError::NoNatsUrls);
        }
        Ok(())
    }
}

/// A character with the Unicode property `White_Space`.
pub open spec fn unicode_white_space(c: char) -> bool {
    ||| '\u{9}' <= c <= '\u{d}'
    ||| c == ' ' || c == '\u{85}' || c == '\u{a0}' || c == '\u{1680}'
    ||| '\u{2000}' <= c <= '\u{200a}'
    ||| c == '\u{2028}' || c == '\u{2029}' || c == '\u{202f}' || c == '\u{205f}' || c == '\u{3000}'
}

/// `s` without its leading whitespace.
pub open spec fn trim_start(s: Seq<char>) -> Seq<char>
    decreases s.len(),
{
    if s.len() > 0 && unicode_white_space(s[0]) {
        trim_start(s.drop_first())
    } else {
        s
    }
}

/// `s` without its trailing whitespace.
pub open spec fn trim_end(s: Seq<char>) -> Seq<char>
    decreases s.len(),
{
    if s.len() > 0 && unicode_white_space(s.last()) {
        trim_end(s.drop_last())
    } else {
        s
    }
}

/// What `str::trim` leaves of a string: the string without its leading and
/// trailing whitespace.
pub open spec fn unicode_trim(s: Seq<char>) -> Seq<char> {
    trim_end(trim_start(s))
}

/// What `trim_start` leaves is a suffix of `s`: all that it drops is
/// whitespace, and what it keeps starts with a character that is not.
proof fn lemma_trim_start(s: Seq<char>)
    ensures
        trim_start(s).len() <= s.len(),
        trim_start(s) =~= s.subrange(s.len() - trim_start(s).len(), s.len() as int),
        forall|j: int| 0 <= j < s.len() - trim_start(s).len() ==> unicode_white_space(#[trigger] s[j]),
        trim_start(s).len() > 0 ==> !unicode_white_space(trim_start(s)[0]),
    decreases s.len(),
{
    if s.len() > 0 && unicode_white_space(s[0]) {
        let rest = s.drop_first();
        lemma_trim_start(rest);
        assert forall|j: int| 0 <= j < s.len() - trim_start(s).len() implies unicode_white_space(#[trigger] s[j]) by {
            if j > 0 {
                assert(s[j] == rest[j - 1]);
            }
        }
    }
}

/// `trim_end` keeps a first character that is not whitespace.
proof fn lemma_trim_end_keeps_first(t: Seq<char>)
    requires
        t.len() > 0,
        !unicode_white_space(t[0]),
    ensures
        trim_end(t).len() > 0,
    decreases t.len(),
{
    if unicode_white_space(t.last()) {
        assert(t.len() > 1);
        assert(t.drop_last()[0] == t[0]);
        lemma_trim_end_keeps_first(t.drop_last());
    }
}

/// A string trims to nothing exactly when every character of it is
/// whitespace.
pub proof fn lemma_trim_empty_iff_blank(s: Seq<char>)
    ensures
        unicode_trim(s).len() > 0 <==> exists|i: int| 0 <= i < s.len() && !unicode_white_space(#[trigger] s[i]),
{
    lemma_trim_start(s);
    let t = trim_start(s);
    if t.len() > 0 {
        lemma_trim_end_keeps_first(t);
        assert(t[0] == s[s.len() - t.len()]);
        assert(!unicode_white_space(s[s.len() - t.len()]));
    } else {
        assert(trim_end(t) == t);
        assert forall|i: int| 0 <= i < s.len() implies unicode_white_space(#[trigger] s[i]) by {}
    }
}

/// The NATS section is accepted exactly when it lists a server, and is
/// otherwise refused with `NoNatsUrls`.
pub proof fn law_nats_section_validation(config: NatsSectionConfig)
    ensures
        config.spec_validate() is Ok <==> config.nats.urls@.len() > 0,
        config.spec_validate() is Err ==> config.spec_validate() == Err::<(), ConfigError>(ConfigError::NoNatsUrls),
{
}

/// The subscriber configuration is accepted exactly when its chain name
/// holds a character that is not whitespace, and is otherwise refused with
/// `EmptyChain`.
pub proof fn law_subscriber_validation(config: SubscriberConfig)
    ensures
        config.spec_validate() is Ok <==> exists|i: int| 0 <= i < config.amplifier_component.chain@.len()
            && !unicode_white_space(#[trigger] config.amplifier_component.chain@[i]),
        config.spec_validate() is Err ==> config.spec_validate() == Err::<(), ConfigError>(ConfigError::EmptyChain),
{
    lemma_trim_empty_iff_blank(config.amplifier_component.chain@);
}

/// Calls `str::trim`. Claimed of std: it removes the leading and trailing
/// characters with the Unicode property `White_Space`.
#[verifier::external_body]
fn str_trim(s: &str) -> (r: &str)
    ensures
        r@ == unicode_trim(s@),
{
    s.trim()
}

/// The Amplifier API connection settings of a component.
pub struct AmplifierComponentConfig {
    /// The Amplifier API base URL.
    pub url: Url,
    /// The chain the component relays for.
    pub chain: String,
    /// The client certificate presented to the API.
    pub identity: Option<Identity>,
}

/// The TLS configuration of the Amplifier API client: the configured
/// certificate, which must be set.
pub fn amplifier_client_tls(identity: Option<Identity>) -> (r: Result<TlsType, ConfigError>)
    ensures
        r is Err <==> identity is None,
        r matches Err(e) ==> e == ConfigError::IdentityNotSet,
        r matches Ok(t) ==> t matches TlsType::Certificate(b) && identity == Some(*b),
{
    match identity {
        Some(id) => Ok(TlsType::Certificate(Box::new(id))),
        None => Err(ConfigError::IdentityNotSet),
    }
}

/// The Amplifier subscriber's configuration.
pub struct SubscriberConfig {
    /// Connection to the Amplifier API.
    pub amplifier_component: AmplifierComponentConfig,
    /// Wait between two polls of the API.
    pub tickrate: Duration,
    /// Telemetry settings.
    pub telemetry: crate::telemetry::Config,
    /// Health-check server settings.
    pub health_check: crate::health_check::Config,
}

impl ValidateConfig for SubscriberConfig {
    /// The chain name is not blank; else `EmptyChain`.
    open spec fn spec_validate(&self) -> Result<(), ConfigError> {
        if unicode_trim(self.amplifier_component.chain@).len() > 0 {
            Ok(())
        } else {
            Err(ConfigError::EmptyChain)
        }
    }

    /// Refuses a blank chain name with `EmptyChain`.
    fn validate(&self) -> (r: Result<(), ConfigError>)
        ensures
            r is Ok <==> unicode_trim(self.amplifier_component.chain@).len() > 0,
            r is Ok <==> exists|i: int| 0 <= i < self.amplifier_component.chain@.len()
                && !unicode_white_space(#[trigger] self.amplifier_component.chain@[i]),
            r matches Err(e) ==> e == ConfigError::EmptyChain,
    {
        proof {
            lemma_trim_empty_iff_blank(self.amplifier_component.chain@);
        }
        let chain = str_trim(self.amplifier_component.chain.as_str());
        if chain.is_empty() {
            return Err(ConfigError::EmptyChain);
        }
        Ok(())
    }
}

} // verus!
