//! Settings of the Kafka clients: the configuration record read from the
//! environment, its defaults, and the client settings made from it.
use vstd::prelude::*;

use crate::bindings::{
    client_config_entries, client_config_log_level, client_config_new, client_config_set,
    client_config_set_log_level, random_uuid_string,
};

verus! {

/// The environment variable that names the configuration file.
pub const DEFAULT_CONFIG_ENV_KEY: &'static str = "DOMAIN_WATCHER_CONFIG_PATH";

/// The prefix of the environment variables the configuration is read from.
pub const CONFIG_PREFIX: &'static str = "DOMAIN_WATCHER_";

/// The configuration file read when `DEFAULT_CONFIG_ENV_KEY` is not set.
pub const FALLBACK_CONFIG_FILE: &'static str = ".env";

/// The levels of the Kafka client's own log, most severe first.
#[derive(Debug, Clone, Copy, PartialEq, Eq, Structural)]
pub enum KafkaLogLevel {
    Emerg,
    Alert,
    Critical,
    Error,
    Warning,
    Notice,
    Info,
    Debug,
}

/// A lowercase hyphenated UUID: 36 characters, hyphens at positions 8, 13,
/// 18 and 23 and lowercase hexadecimal digits elsewhere.
pub open spec fn is_hyphenated_uuid(s: Seq<char>) -> bool {
    &&& s.len() == 36
    &&& forall|k: int|
        0 <= k < 36 ==> if k == 8 || k == 13 || k == 18 || k == 23 {
            s[k] == '-'
        } else {
            let n = #[trigger] s[k] as u32;
            (0x30 <= n <= 0x39) || (0x61 <= n <= 0x66)
        }
}

/// The defaults of the configuration fields that may be left unset.
pub struct ConfigFn {}

impl ConfigFn {
    /// Default of a flag that is off unless set.
    pub fn fn_false() -> (r: bool)
        ensures
            !r,
    {
        false
    }

    /// Default of a flag that is on unless set (`debug`).
    pub fn fn_true() -> (r: bool)
        ensures
            r,
    {
        true
    }

    /// Default address the web server binds on.
    pub fn fn_default_host() -> (r: String)
        ensures
            r@ == "0.0.0.0"@,
    {
        "0.0.0.0".to_owned()
    }

    /// Default port.
    pub fn fn_default_port() -> (r: String)
        ensures
            r@ == "8080"@,
    {
        "8080".to_owned()
    }
}

/// The application's configuration.
#[derive(Debug)]
pub struct Config {
    /// Run the app in debug mode.
    pub debug: bool,
    /// The address to bind the web server on.
    pub host: String,
    /// The port (soon deprecated).
    pub port: String,
    /// Kafka topic on which the data is published.
    pub kafka_topic: String,
    /// Kafka brokers to connect to.
    pub kafka_brokers: String,
    /// Kafka username for SASL authentication.
    pub kafka_username: Option<String>,
    /// Kafka password for SASL authentication.
    pub kafka_password: Option<String>,
    /// Kafka CA certificate path for SASL authentication.
    pub kafka_ca_cert_path: Option<String>,
    /// Postgres database url.
    pub postgres_database_url: Option<String>,
    /// Postgres path to the certificate.
    pub postgres_cert_path: Option<String>,
}

impl Default for Config {
    /// Every flag off, every text empty, every optional field absent.
    fn default() -> (r: Config)
        ensures
            !r.debug,
            r.host@ == Seq::<char>::empty(),
            r.port@ == Seq::<char>::empty(),
            r.kafka_topic@ == Seq::<char>::empty(),
            r.kafka_brokers@ == Seq::<char>::empty(),
            r.kafka_username is None,
            r.kafka_password is None,
            r.kafka_ca_cert_path is None,
            r.postgres_database_url is None,
            r.postgres_cert_path is None,
    {
        Config {
            debug: false,
            host: String::new(),
            port: String::new(),
            kafka_topic: String::new(),
            kafka_brokers: String::new(),
            kafka_username: None,
            kafka_password: None,
            kafka_ca_cert_path: None,
            postgres_database_url: None,
            postgres_cert_path: None,
        }
    }
}

/// The parameters of a consumer that authenticates over SASL/TLS.
pub open spec fn consumer_tls_entries(
    brokers: Seq<char>,
    username: Seq<char>,
    password: Seq<char>,
    ca_path: Seq<char>,
) -> Map<Seq<char>, Seq<char>> {
    Map::empty().insert("group.id"@, "some-random-id"@).insert(
        "bootstrap.servers"@,
        brokers,
    ).insert("enable.partition.eof"@, "false"@).insert("session.timeout.ms"@, "6000"@).insert(
        "enable.auto.commit"@,
        "true"@,
    ).insert("sasl.mechanisms"@, "PLAIN"@).insert("security.protocol"@, "SASL_SSL"@).insert(
        "sasl.username"@,
        username,
    ).insert("sasl.password"@, password).insert("ssl.ca.location"@, ca_path)
}

/// The parameters of a producer that authenticates over SASL/TLS.
pub open spec fn producer_tls_entries(
    brokers: Seq<char>,
    username: Seq<char>,
    password: Seq<char>,
    ca_path: Seq<char>,
) -> Map<Seq<char>, Seq<char>> {
    Map::empty().insert("bootstrap.servers"@, brokers).insert(
        "message.timeout.ms"@,
        "10000"@,
    ).insert("sasl.mechanisms"@, "PLAIN"@).insert("security.protocol"@, "SASL_SSL"@).insert(
        "sasl.username"@,
        username,
    ).insert("sasl.password"@, password).insert("ssl.ca.location"@, ca_path)
}

/// How the consumer is to be made.
pub enum ConsumerPlan {
    /// From these settings, subscribed to `topic`.
    Secure { config: rdkafka::ClientConfig, topic: String },
    /// Plainly, from the brokers and a consumer group, subscribed to `topic`.
    Plain { brokers: String, group_id: String, topic: String },
}

/// How the producer is to be made.
pub enum ProducerPlan {
    /// From these settings.
    Secure { config: rdkafka::ClientConfig },
    /// Plainly, from the brokers.
    Plain { brokers: String },
}

impl Config {
    /// The clients authenticate over TLS when a username, a password and a
    /// CA certificate path are all given.
    pub open spec fn tls_enabled(&self) -> bool {
        &&& self.kafka_ca_cert_path is Some
        &&& self.kafka_password is Some
        &&& self.kafka_username is Some
    }

    /// Whether the clients authenticate over TLS.
    pub fn is_tls(&self) -> (r: bool)
        ensures
            r == self.tls_enabled(),
    {
        self.kafka_ca_cert_path.is_some() && self.kafka_password.is_some()
            && self.kafka_username.is_some()
    }

    /// The configuration file to read: the value of `DEFAULT_CONFIG_ENV_KEY`
    /// where it is set, else `FALLBACK_CONFIG_FILE`.
    pub fn config_filename(env_value: Option<String>) -> (r: String)
        ensures
            match env_value {
                Some(path) => r@ == path@,
                None => r@ == FALLBACK_CONFIG_FILE@,
            },
    {
        match env_value {
            Some(path) => path,
            None => FALLBACK_CONFIG_FILE.to_owned(),
        }
    }
}

/// The settings of a consumer that authenticates over SASL/TLS, logging at
/// debug level.
pub fn secure_consumer_config(brokers: &str, username: &str, password: &str, ca_path: &str) -> (c:
    rdkafka::ClientConfig)
    ensures
        client_config_entries(c) == consumer_tls_entries(brokers@, username@, password@, ca_path@),
        client_config_log_level(c) == KafkaLogLevel::Debug,
{
    let mut c = client_config_new();
    client_config_set(&mut c, "group.id", "some-random-id");
    client_config_set(&mut c, "bootstrap.servers", brokers);
    client_config_set(&mut c, "enable.partition.eof", "false");
    client_config_set(&mut c, "session.timeout.ms", "6000");
    client_config_set(&mut c, "enable.auto.commit", "true");
    client_config_set(&mut c, "sasl.mechanisms", "PLAIN");
    client_config_set(&mut c, "security.protocol", "SASL_SSL");
    client_config_set(&mut c, "sasl.username", username);
    client_config_set(&mut c, "sasl.password", password);
    client_config_set(&mut c, "ssl.ca.location", ca_path);
    client_config_set_log_level(&mut c, KafkaLogLevel::Debug);
    c
}

/// The settings of a producer that authenticates over SASL/TLS.
pub fn secure_producer_config(brokers: &str, username: &str, password: &str, ca_path: &str) -> (c:
    rdkafka::ClientConfig)
    ensures
        client_config_entries(c) == producer_tls_entries(brokers@, username@, password@, ca_path@),
{
    let mut c = client_config_new();
    client_config_set(&mut c, "bootstrap.servers", brokers);
    client_config_set(&mut c, "message.timeout.ms", "10000");
    client_config_set(&mut c, "sasl.mechanisms", "PLAIN");
    client_config_set(&mut c, "security.protocol", "SASL_SSL");
    client_config_set(&mut c, "sasl.username", username);
    client_config_set(&mut c, "sasl.password", password);
    client_config_set(&mut c, "ssl.ca.location", ca_path);
    c
}

/// The parameters of a consumer that connects plainly: those of the TLS
/// consumer without the SASL ones, in the consumer group `group_id`.
pub open spec fn consumer_plain_entries(brokers: Seq<char>, group_id: Seq<char>) -> Map<
    Seq<char>,
    Seq<char>,
> {
    Map::empty().insert("group.id"@, group_id).insert("bootstrap.servers"@, brokers).insert(
        "enable.partition.eof"@,
        "false"@,
    ).insert("session.timeout.ms"@, "6000"@).insert("enable.auto.commit"@, "true"@)
}

/// The parameters of a producer that connects plainly: those of the TLS
/// producer without the SASL ones.
pub open spec fn producer_plain_entries(brokers: Seq<char>) -> Map<Seq<char>, Seq<char>> {
    Map::empty().insert("bootstrap.servers"@, brokers).insert("message.timeout.ms"@, "10000"@)
}

/// The settings of a consumer in group `group_id` that connects plainly.
pub fn plain_consumer_config(brokers: &str, group_id: &str) -> (c: rdkafka::ClientConfig)
    ensures
        client_config_entries(c) == consumer_plain_entries(brokers@, group_id@),
{
    let mut c = client_config_new();
    client_config_set(&mut c, "group.id", group_id);
    client_config_set(&mut c, "bootstrap.servers", brokers);
    client_config_set(&mut c, "enable.partition.eof", "false");
    client_config_set(&mut c, "session.timeout.ms", "6000");
    client_config_set(&mut c, "enable.auto.commit", "true");
    c
}

/// The settings of a producer that connects plainly.
pub fn plain_producer_config(brokers: &str) -> (c: rdkafka::ClientConfig)
    ensures
        client_config_entries(c) == producer_plain_entries(brokers@),
{
    let mut c = client_config_new();
    client_config_set(&mut c, "bootstrap.servers", brokers);
    client_config_set(&mut c, "message.timeout.ms", "10000");
    c
}

/// How to make the consumer of `conf.kafka_topic`: over TLS with the
/// configured credentials where all of them are given, else plainly from the
/// brokers, in a fresh consumer group named by a random UUID.
pub fn consumer_plan(conf: &Config) -> (r: ConsumerPlan)
    ensures
        r is Secure <==> conf.tls_enabled(),
        r matches ConsumerPlan::Secure { config, topic } ==> {
            &&& client_config_entries(config) == consumer_tls_entries(
                conf.kafka_brokers@,
                conf.kafka_username->0@,
                conf.kafka_password->0@,
                conf.kafka_ca_cert_path->0@,
            )
            &&& client_config_log_level(config) == KafkaLogLevel::Debug
            &&& topic@ == conf.kafka_topic@
        },
        r matches ConsumerPlan::Plain { brokers, group_id, topic } ==> {
            &&& brokers@ == conf.kafka_brokers@
            &&& is_hyphenated_uuid(group_id@)
            &&& topic@ == conf.kafka_topic@
        },
{
    if conf.is_tls() {
        let username = conf.kafka_username.as_ref().unwrap();
        let password = conf.kafka_password.as_ref().unwrap();
        let ca_path = conf.kafka_ca_cert_path.as_ref().unwrap();
        ConsumerPlan::Secure {
            config: secure_consumer_config(
                conf.kafka_brokers.as_str(),
                username.as_str(),
                password.as_str(),
                ca_path.as_str(),
            ),
            topic: conf.kafka_topic.clone(),
        }
    } else {
        ConsumerPlan::Plain {
            brokers: conf.kafka_brokers.clone(),
            group_id: random_uuid_string(),
            topic: conf.kafka_topic.clone(),
        }
    }
}

/// How to make the producer: over TLS with the configured credentials where
/// all of them are given, else plainly from the brokers.
pub fn producer_plan(conf: &Config) -> (r: ProducerPlan)
    ensures
        r is Secure <==> conf.tls_enabled(),
        r matches ProducerPlan::Secure { config } ==> client_config_entries(config)
            == producer_tls_entries(
            conf.kafka_brokers@,
            conf.kafka_username->0@,
            conf.kafka_password->0@,
            conf.kafka_ca_cert_path->0@,
        ),
        r matches ProducerPlan::Plain { brokers } ==> brokers@ == conf.kafka_brokers@,
{
    if conf.is_tls() {
        let username = conf.kafka_username.as_ref().unwrap();
        let password = conf.kafka_password.as_ref().unwrap();
        let ca_path = conf.kafka_ca_cert_path.as_ref().unwrap();
        ProducerPlan::Secure {
            config: secure_producer_config(
                conf.kafka_brokers.as_str(),
                username.as_str(),
                password.as_str(),
                ca_path.as_str(),
            ),
        }
    } else {
        ProducerPlan::Plain { brokers: conf.kafka_brokers.clone() }
    }
}

/// The settings of a consumer over TLS are exactly these ten parameters: the
/// fixed group, partition-end, session-timeout and auto-commit settings, SASL
/// over SSL with the PLAIN mechanism, and the brokers and credentials they
/// were made from.
pub proof fn lemma_consumer_tls_entries_carry_credentials(
    brokers: Seq<char>,
    username: Seq<char>,
    password: Seq<char>,
    ca_path: Seq<char>,
)
    ensures
        ({
            let m = consumer_tls_entries(brokers, username, password, ca_path);
            &&& m.dom() == set!["group.id"@, "bootstrap.servers"@, "enable.partition.eof"@, "session.timeout.ms"@, "enable.auto.commit"@, "sasl.mechanisms"@, "security.protocol"@, "sasl.username"@, "sasl.password"@, "ssl.ca.location"@]
            &&& m["group.id"@] == "some-random-id"@
            &&& m["bootstrap.servers"@] == brokers
            &&& m["enable.partition.eof"@] == "false"@
            &&& m["session.timeout.ms"@] == "6000"@
            &&& m["enable.auto.commit"@] == "true"@
            &&& m["sasl.mechanisms"@] == "PLAIN"@
            &&& m["security.protocol"@] == "SASL_SSL"@
            &&& m["sasl.username"@] == username
            &&& m["sasl.password"@] == password
            &&& m["ssl.ca.location"@] == ca_path
        }),
{
    reveal_strlit("group.id");
    reveal_strlit("bootstrap.servers");
    reveal_strlit("enable.partition.eof");
    reveal_strlit("session.timeout.ms");
    reveal_strlit("enable.auto.commit");
    reveal_strlit("sasl.mechanisms");
    reveal_strlit("security.protocol");
    reveal_strlit("sasl.username");
    reveal_strlit("sasl.password");
    reveal_strlit("ssl.ca.location");
    assert("group.id"@.len() != "bootstrap.servers"@.len());
    assert("group.id"@.len() != "enable.partition.eof"@.len());
    assert("group.id"@.len() != "session.timeout.ms"@.len());
    assert("group.id"@.len() != "enable.auto.commit"@.len());
    assert("group.id"@.len() != "sasl.mechanisms"@.len());
    assert("group.id"@.len() != "security.protocol"@.len());
    assert("group.id"@.len() != "sasl.username"@.len());
    assert("group.id"@.len() != "sasl.password"@.len());
    assert("group.id"@.len() != "ssl.ca.location"@.len());
    assert("bootstrap.servers"@.len() != "enable.partition.eof"@.len());
    assert("bootstrap.servers"@.len() != "session.timeout.ms"@.len());
    assert("bootstrap.servers"@.len() != "enable.auto.commit"@.len());
    assert("bootstrap.servers"@.len() != "sasl.mechanisms"@.len());
    assert("bootstrap.servers"@[0] != "security.protocol"@[0]);
    assert("bootstrap.servers"@.len() != "sasl.username"@.len());
    assert("bootstrap.servers"@.len() != "sasl.password"@.len());
    assert("bootstrap.servers"@.len() != "ssl.ca.location"@.len());
    assert("enable.partition.eof"@.len() != "session.timeout.ms"@.len());
    assert("enable.partition.eof"@.len() != "enable.auto.commit"@.len());
    assert("enable.partition.eof"@.len() != "sasl.mechanisms"@.len());
    assert("enable.partition.eof"@.len() != "security.protocol"@.len());
    assert("enable.partition.eof"@.len() != "sasl.username"@.len());
    assert("enable.partition.eof"@.len() != "sasl.password"@.len());
    assert("enable.partition.eof"@.len() != "ssl.ca.location"@.len());
    assert("session.timeout.ms"@[0] != "enable.auto.commit"@[0]);
    assert("session.timeout.ms"@.len() != "sasl.mechanisms"@.len());
    assert("session.timeout.ms"@.len() != "security.protocol"@.len());
    assert("session.timeout.ms"@.len() != "sasl.username"@.len());
    assert("session.timeout.ms"@.len() != "sasl.password"@.len());
    assert("session.timeout.ms"@.len() != "ssl.ca.location"@.len());
    assert("enable.auto.commit"@.len() != "sasl.mechanisms"@.len());
    assert("enable.auto.commit"@.len() != "security.protocol"@.len());
    assert("enable.auto.commit"@.len() != "sasl.username"@.len());
    assert("enable.auto.commit"@.len() != "sasl.password"@.len());
    assert("enable.auto.commit"@.len() != "ssl.ca.location"@.len());
    assert("sasl.mechanisms"@.len() != "security.protocol"@.len());
    assert("sasl.mechanisms"@.len() != "sasl.username"@.len());
    assert("sasl.mechanisms"@.len() != "sasl.password"@.len());
    assert("sasl.mechanisms"@[1] != "ssl.ca.location"@[1]);
    assert("security.protocol"@.len() != "sasl.username"@.len());
    assert("security.protocol"@.len() != "sasl.password"@.len());
    assert("security.protocol"@.len() != "ssl.ca.location"@.len());
    assert("sasl.username"@[5] != "sasl.password"@[5]);
    assert("sasl.username"@.len() != "ssl.ca.location"@.len());
    assert("sasl.password"@.len() != "ssl.ca.location"@.len());
    assert(consumer_tls_entries(brokers, username, password, ca_path).dom() =~= set!["group.id"@, "bootstrap.servers"@, "enable.partition.eof"@, "session.timeout.ms"@, "enable.auto.commit"@, "sasl.mechanisms"@, "security.protocol"@, "sasl.username"@, "sasl.password"@, "ssl.ca.location"@]);
}

/// The settings of a producer over TLS are exactly these seven parameters:
/// a message timeout of ten seconds, SASL over SSL with the PLAIN mechanism,
/// and the brokers and credentials they were made from.
pub proof fn lemma_producer_tls_entries_carry_credentials(
    brokers: Seq<char>,
    username: Seq<char>,
    password: Seq<char>,
    ca_path: Seq<char>,
)
    ensures
        ({
            let m = producer_tls_entries(brokers, username, password, ca_path);
            &&& m.dom() == set!["bootstrap.servers"@, "message.timeout.ms"@, "sasl.mechanisms"@, "security.protocol"@, "sasl.username"@, "sasl.password"@, "ssl.ca.location"@]
            &&& m["bootstrap.servers"@] == brokers
            &&& m["message.timeout.ms"@] == "10000"@
            &&& m["sasl.mechanisms"@] == "PLAIN"@
            &&& m["security.protocol"@] == "SASL_SSL"@
            &&& m["sasl.username"@] == username
            &&& m["sasl.password"@] == password
            &&& m["ssl.ca.location"@] == ca_path
        }),
{
    reveal_strlit("bootstrap.servers");
    reveal_strlit("message.timeout.ms");
    reveal_strlit("sasl.mechanisms");
    reveal_strlit("security.protocol");
    reveal_strlit("sasl.username");
    reveal_strlit("sasl.password");
    reveal_strlit("ssl.ca.location");
    assert("bootstrap.servers"@.len() != "message.timeout.ms"@.len());
    assert("bootstrap.servers"@.len() != "sasl.mechanisms"@.len());
    assert("bootstrap.servers"@[0] != "security.protocol"@[0]);
    assert("bootstrap.servers"@.len() != "sasl.username"@.len());
    assert("bootstrap.servers"@.len() != "sasl.password"@.len());
    assert("bootstrap.servers"@.len() != "ssl.ca.location"@.len());
    assert("message.timeout.ms"@.len() != "sasl.mechanisms"@.len());
    assert("message.timeout.ms"@.len() != "security.protocol"@.len());
    assert("message.timeout.ms"@.len() != "sasl.username"@.len());
    assert("message.timeout.ms"@.len() != "sasl.password"@.len());
    assert("message.timeout.ms"@.len() != "ssl.ca.location"@.len());
    assert("sasl.mechanisms"@.len() != "security.protocol"@.len());
    assert("sasl.mechanisms"@.len() != "sasl.username"@.len());
    assert("sasl.mechanisms"@.len() != "sasl.password"@.len());
    assert("sasl.mechanisms"@[1] != "ssl.ca.location"@[1]);
    assert("security.protocol"@.len() != "sasl.username"@.len());
    assert("security.protocol"@.len() != "sasl.password"@.len());
    assert("security.protocol"@.len() != "ssl.ca.location"@.len());
    assert("sasl.username"@[5] != "sasl.password"@[5]);
    assert("sasl.username"@.len() != "ssl.ca.location"@.len());
    assert("sasl.password"@.len() != "ssl.ca.location"@.len());
    assert(producer_tls_entries(brokers, username, password, ca_path).dom() =~= set!["bootstrap.servers"@, "message.timeout.ms"@, "sasl.mechanisms"@, "security.protocol"@, "sasl.username"@, "sasl.password"@, "ssl.ca.location"@]);
}

} // verus!
