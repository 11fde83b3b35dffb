use std::time::{Duration, SystemTime};

use domain_watcher::daemon::{
    batch_width, domain_list_path, kafka_brokers, rebuild_url, PingEvent, WatchConfig, WatchPool,
    WatchableResource, CONCURRENT_REQUESTS,
};
use domain_watcher::domains::{domain_urls, split_whitespace};
use domain_watcher::span::TimeSpan;

#[test]
fn daemon_resource_is_active_or_not_as_asked() {
    let r = WatchableResource::new("https://www.google.com", None, true);
    assert_eq!(r.url, "https://www.google.com/");
    assert!(r.active);
    assert!(r.last_ping_at.is_none());
    let q = WatchableResource::new("https://www.google.com", None, false);
    assert!(!q.active);
}

#[test]
fn daemon_resources_compare_the_active_flag() {
    let t = SystemTime::now();
    let a = WatchableResource::new("https://a.example/", Some(t), true);
    let b = WatchableResource::new("https://a.example/", Some(t), false);
    assert!(a == a.clone());
    assert!(a != b);
    let never = WatchableResource::new("https://a.example/", None, true);
    assert!(never != never.clone());
}

#[test]
fn daemon_event_now_is_pinged_at_its_start() {
    let e = PingEvent::now("https://www.google.com");
    assert_eq!(e.resource.url, "https://www.google.com/");
    assert!(e.resource.active);
    assert!(e.request_init.is_some());
    assert_eq!(e.request_init, e.resource.last_ping_at);
    assert_eq!(e.response_time, None);
    assert_eq!(e.response_code, None);
    assert!(e != e.clone());
}

#[test]
fn daemon_event_with_a_response_equals_its_clone() {
    let t = SystemTime::now();
    let r = WatchableResource::new("https://a.example/", Some(t), true);
    let e = PingEvent::new(r, Some(t), Some(TimeSpan::new(0, 5)), Some(200));
    assert!(e == e.clone());
    let other = PingEvent::new(e.resource.clone(), Some(t), Some(TimeSpan::new(0, 5)), Some(503));
    assert!(e != other);
    let empty = PingEvent::new_empty(e.resource.clone());
    assert_eq!(empty.response_code, None);
    assert!(empty != e);
}

#[test]
fn daemon_failed_request_event() {
    let e = PingEvent::for_failed_request("https", "www.google.com", "/search").unwrap();
    assert_eq!(e.resource.url, "https://www.google.com/search");
    assert_eq!(e.request_init, e.resource.last_ping_at);
    assert!(PingEvent::for_failed_request("", "", "").is_none());
    assert_eq!(rebuild_url("http", "a.example", "/x"), "http://a.example/x");
}

#[test]
fn daemon_default_config() {
    let c = WatchConfig::default();
    assert_eq!(c.ttl, TimeSpan::from_secs(5));
    assert_eq!(c.max_attempts, Some(2));
    assert_eq!(c.concurrent_requests, 16);
}

#[test]
fn daemon_pool_from_urls() {
    let urls = vec!["https://a.example".to_string(), "https://b.example/p".to_string()];
    let p = WatchPool::with_subjects_and_config(&urls, WatchConfig::default());
    let got: Vec<&str> = p.subjects.iter().map(|r| r.url.as_str()).collect();
    assert_eq!(got, vec!["https://a.example/", "https://b.example/p"]);
    assert!(p.subjects.iter().all(|r| r.active && r.last_ping_at.is_none()));
    let mut q = WatchPool::new();
    assert!(q.subjects.is_empty());
    let r = q.add_subject("https://c.example");
    assert_eq!(r.url, "https://c.example/");
    q.add_subjects(&urls);
    assert_eq!(q.subjects.len(), 3);
    assert!(WatchPool::try_with_subjects(&["bad".to_string()]).is_none());
    assert!(q.try_add_subjects(&["bad".to_string()]).is_none());
    assert_eq!(q.subjects.len(), 3);
    assert!(WatchPool::default().subjects.is_empty());
    assert_eq!(WatchPool::with_subjects(&urls).subjects.len(), 2);
}

#[test]
fn domain_list_becomes_https_addresses() {
    let text = "google.com  amazon.com\n\tnews.ycombinator.com \n";
    assert_eq!(
        domain_urls(text),
        vec!["https://google.com", "https://amazon.com", "https://news.ycombinator.com"]
    );
    assert!(domain_urls("").is_empty());
    assert!(domain_urls(" \n\t ").is_empty());
}

#[test]
fn split_whitespace_agrees_with_std() {
    for text in [
        "",
        "a",
        "  a  b ",
        "a\u{3000}b\u{85}c\u{a0}d\u{2028}e",
        "x\u{200b}y",
        "\u{1680}lead and trail\u{202f}",
    ] {
        let std_words: Vec<String> = text.split_whitespace().map(|w| w.to_string()).collect();
        assert_eq!(split_whitespace(text), std_words);
    }
}

#[test]
fn batch_width_is_capped() {
    assert_eq!(batch_width(3), 3);
    assert_eq!(batch_width(0), 0);
    assert_eq!(batch_width(100), CONCURRENT_REQUESTS);
}

#[test]
fn environment_defaults() {
    assert_eq!(kafka_brokers(None), "kafka:9092");
    assert_eq!(kafka_brokers(Some("b:1".to_string())), "b:1");
    assert_eq!(domain_list_path(None), "domains.txt");
    assert_eq!(domain_list_path(Some("x.txt".to_string())), "x.txt");
}

#[test]
fn time_span_holds_duration_parts() {
    let d = Duration::new(3, 7);
    let s = TimeSpan::new(d.as_secs(), d.subsec_nanos());
    assert_eq!(s.secs, 3);
    assert_eq!(s.nanos, 7);
}

#[test]
fn daemon_resources_pinged_at_different_times_differ() {
    let t = SystemTime::now();
    let a = WatchableResource::new("https://a.example/", Some(t), true);
    let b = WatchableResource::new("https://a.example/", Some(t + Duration::from_secs(1)), true);
    assert!(a != b && b != a);
}
