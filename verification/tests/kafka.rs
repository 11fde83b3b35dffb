use domain_watcher::kafka::{
    consumer_plan, producer_plan, secure_consumer_config, Config, ConfigFn, ConsumerPlan,
    ProducerPlan,
};

fn tls_config() -> Config {
    Config {
        kafka_topic: "pings".to_string(),
        kafka_brokers: "broker:9093".to_string(),
        kafka_username: Some("user".to_string()),
        kafka_password: Some("secret".to_string()),
        kafka_ca_cert_path: Some("/ca.pem".to_string()),
        ..Config::default()
    }
}

#[test]
fn config_defaults() {
    assert!(!ConfigFn::fn_false());
    assert!(ConfigFn::fn_true());
    assert_eq!(ConfigFn::fn_default_host(), "0.0.0.0");
    assert_eq!(ConfigFn::fn_default_port(), "8080");
    let c = Config::default();
    assert!(!c.debug);
    assert!(c.kafka_brokers.is_empty());
    assert!(c.kafka_username.is_none());
}

#[test]
fn config_file_name() {
    assert_eq!(Config::config_filename(None), ".env");
    assert_eq!(Config::config_filename(Some("/etc/w.env".to_string())), "/etc/w.env");
}

#[test]
fn tls_needs_all_three_credentials() {
    assert!(tls_config().is_tls());
    let mut c = tls_config();
    c.kafka_ca_cert_path = None;
    assert!(!c.is_tls());
}

#[test]
fn secure_consumer_settings() {
    match consumer_plan(&tls_config()) {
        ConsumerPlan::Secure { config, topic } => {
            assert_eq!(topic, "pings");
            assert_eq!(config.get("bootstrap.servers"), Some("broker:9093"));
            assert_eq!(config.get("sasl.username"), Some("user"));
            assert_eq!(config.get("sasl.password"), Some("secret"));
            assert_eq!(config.get("ssl.ca.location"), Some("/ca.pem"));
            assert_eq!(config.get("group.id"), Some("some-random-id"));
            assert_eq!(config.get("security.protocol"), Some("SASL_SSL"));
            assert!(matches!(config.log_level, rdkafka::config::RDKafkaLogLevel::Debug));
        }
        ConsumerPlan::Plain { .. } => panic!("expected a secure consumer"),
    }
    let c = secure_consumer_config("b", "u", "p", "c");
    assert_eq!(c.get("session.timeout.ms"), Some("6000"));
}

#[test]
fn plain_consumer_gets_a_fresh_group() {
    let mut c = tls_config();
    c.kafka_password = None;
    match consumer_plan(&c) {
        ConsumerPlan::Plain { brokers, group_id, topic } => {
            assert_eq!(brokers, "broker:9093");
            assert_eq!(topic, "pings");
            assert_eq!(group_id.len(), 36);
            for (k, c) in group_id.chars().enumerate() {
                if k == 8 || k == 13 || k == 18 || k == 23 {
                    assert_eq!(c, '-');
                } else {
                    assert!(c.is_ascii_digit() || ('a'..='f').contains(&c));
                }
            }
        }
        ConsumerPlan::Secure { .. } => panic!("expected a plain consumer"),
    }
}

#[test]
fn producer_settings() {
    match producer_plan(&tls_config()) {
        ProducerPlan::Secure { config } => {
            assert_eq!(config.get("message.timeout.ms"), Some("10000"));
            assert_eq!(config.get("sasl.username"), Some("user"));
            assert_eq!(config.get("bootstrap.servers"), Some("broker:9093"));
        }
        ProducerPlan::Plain { .. } => panic!("expected a secure producer"),
    }
    let mut c = tls_config();
    c.kafka_username = None;
    match producer_plan(&c) {
        ProducerPlan::Plain { brokers } => assert_eq!(brokers, "broker:9093"),
        ProducerPlan::Secure { .. } => panic!("expected a plain producer"),
    }
}

#[test]
fn plain_settings_hold_no_credentials() {
    let c = domain_watcher::kafka::plain_consumer_config("b:1", "group-7");
    assert_eq!(c.get("group.id"), Some("group-7"));
    assert_eq!(c.get("bootstrap.servers"), Some("b:1"));
    assert_eq!(c.get("enable.auto.commit"), Some("true"));
    assert_eq!(c.get("sasl.username"), None);
    let p = domain_watcher::kafka::plain_producer_config("b:1");
    assert_eq!(p.get("bootstrap.servers"), Some("b:1"));
    assert_eq!(p.get("message.timeout.ms"), Some("10000"));
    assert_eq!(p.get("security.protocol"), None);
}
