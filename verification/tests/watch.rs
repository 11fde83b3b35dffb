use std::time::Instant;

use domain_watcher::span::TimeSpan;
use domain_watcher::watch::{parses_all, PingEvent, WatchConfig, WatchPool, WatchableResource};
use reqwest::StatusCode;

fn request_error() -> reqwest::Error {
    reqwest::Client::new().get("not a url").build().unwrap_err()
}

#[test]
fn create_google_watchable_resource() {
    let google_resource = WatchableResource::new("https://www.google.com/", None);

    assert_eq!(google_resource.url.as_str(), "https://www.google.com/");
    assert_eq!(google_resource.last_ping_at, None);
}

#[test]
fn create_google_ping_event_empty() {
    let google_resource = WatchableResource::new("https://www.google.com/", None);
    let ping_event_empty = PingEvent::new_empty(google_resource);
    assert_eq!(ping_event_empty.request_init, None);
    assert_eq!(ping_event_empty.response_code, None);
    assert_eq!(ping_event_empty.response_time, None);
}

#[test]
fn create_dummy_google_ping_event() {
    let google_resource = WatchableResource::new("https://www.google.com/", None);

    let _ping_event = PingEvent::new(
        google_resource,
        Some(Instant::now()),
        Some(TimeSpan::from_secs(2)),
        Some(StatusCode::OK),
        None,
    );
}

#[test]
fn create_watcher() {
    let domains = ["https://www.google.com/", "https://www.amazon.com/"];

    let watcher = WatchPool::try_with_subjects(&domains);
    assert!(watcher.is_some());
}

#[test]
fn resource_url_is_normalized_by_the_parser() {
    let r = WatchableResource::new("HTTPS://www.Google.com", None);
    assert_eq!(r.url.as_str(), "https://www.google.com/");
}

#[test]
fn a_relative_address_is_refused() {
    assert!(!parses_all(&["www.google.com"]));
    assert!(parses_all(&["https://www.google.com", "http://x.example/a?b"]));
    assert!(WatchPool::try_with_subjects(&["www.google.com"]).is_none());
}

#[test]
fn resource_never_pinged_equals_nothing() {
    let a = WatchableResource::new("https://a.example/", None);
    let b = a.clone();
    assert!(a != b);
    assert!(a != a.clone());
}

#[test]
fn pinged_resources_compare_by_url_and_instant() {
    let t = Instant::now();
    let a = WatchableResource::new("https://a.example/", Some(t));
    let b = WatchableResource::new("https://a.example", Some(t));
    let c = WatchableResource::new("https://b.example/", Some(t));
    assert!(a == b && b == a);
    assert!(a != c && c != a);
    let later = WatchableResource::new("https://a.example/", Some(t + std::time::Duration::from_millis(1)));
    assert!(a != later);
}

#[test]
fn record_ping_with_a_response() {
    let mut r = WatchableResource::new("https://a.example/", None);
    let start = Instant::now();
    let e = r.record_ping(start, TimeSpan::new(0, 250_000_000), Ok(StatusCode::NOT_FOUND));
    assert_eq!(r.last_ping_at, Some(start));
    assert_eq!(e.request_init, Some(start));
    assert_eq!(e.response_time, Some(TimeSpan::new(0, 250_000_000)));
    assert_eq!(e.response_code, Some(StatusCode::NOT_FOUND));
    assert!(e.error.is_none());
    assert!(e.resource == r);
    assert!(e == e);
}

#[test]
fn record_ping_with_an_error() {
    let mut r = WatchableResource::new("https://a.example/", None);
    let start = Instant::now();
    let e = r.record_ping(start, TimeSpan::from_secs(1), Err(request_error()));
    assert_eq!(r.last_ping_at, Some(start));
    assert_eq!(e.response_code, None);
    assert!(e.error.is_some());
    assert!(e.resource == r);
    assert!(e != e);
}

#[test]
fn ping_events_compare_without_the_error() {
    let t = Instant::now();
    let r = WatchableResource::new("https://a.example/", Some(t));
    let a = PingEvent::new(r.clone(), Some(t), Some(TimeSpan::from_secs(1)), Some(StatusCode::OK), None);
    let b = PingEvent::new(r.clone(), Some(t), Some(TimeSpan::from_secs(1)), Some(StatusCode::OK), Some(request_error()));
    let c = PingEvent::new(r.clone(), Some(t), Some(TimeSpan::from_secs(2)), Some(StatusCode::OK), None);
    let d = PingEvent::new(r, Some(t), Some(TimeSpan::from_secs(1)), Some(StatusCode::BAD_GATEWAY), None);
    assert!(a == b && b == a);
    assert!(a != c);
    assert!(a != d);
}

#[test]
fn default_watch_config() {
    let c = WatchConfig::default();
    assert_eq!(c.ttl, TimeSpan::from_secs(5));
    assert_eq!(c.max_attempts, Some(2));
}

#[test]
fn new_pool_watches_nothing() {
    let p = WatchPool::new();
    assert!(p.subjects.is_empty());
    assert_eq!(p.config, WatchConfig::default());
    assert!(WatchPool::default().subjects.is_empty());
}

#[test]
fn pool_keeps_subjects_in_order() {
    let cfg = WatchConfig { ttl: TimeSpan::from_secs(9), max_attempts: None };
    let p = WatchPool::with_subjects_and_config(&["https://b.example", "http://a.example/x"], cfg);
    let urls: Vec<&str> = p.subjects.iter().map(|r| r.url.as_str()).collect();
    assert_eq!(urls, vec!["https://b.example/", "http://a.example/x"]);
    assert!(p.subjects.iter().all(|r| r.last_ping_at.is_none()));
    assert_eq!(p.config, cfg);
}

#[test]
fn adding_subjects_appends_them() {
    let mut p = WatchPool::with_subjects(&["https://a.example/"]);
    let r = p.add_subject("https://b.example");
    assert_eq!(r.url, "https://b.example/");
    let added = p.add_subjects(&["https://c.example", "https://d.example"]);
    assert_eq!(added.len(), 2);
    let urls: Vec<&str> = p.subjects.iter().map(|r| r.url.as_str()).collect();
    assert_eq!(
        urls,
        vec!["https://a.example/", "https://b.example/", "https://c.example/", "https://d.example/"]
    );
}

#[test]
fn building_at_once_or_in_two_steps_agrees() {
    let at_once = WatchPool::with_subjects(&["https://a.example", "https://b.example", "https://c.example"]);
    let mut two_steps = WatchPool::with_subjects(&["https://a.example"]);
    two_steps.add_subjects(&["https://b.example", "https://c.example"]);
    let u1: Vec<&str> = at_once.subjects.iter().map(|r| r.url.as_str()).collect();
    let u2: Vec<&str> = two_steps.subjects.iter().map(|r| r.url.as_str()).collect();
    assert_eq!(u1, u2);
}

#[test]
fn invalid_subjects_are_refused() {
    assert!(WatchPool::try_with_subjects(&["https://a.example", "nope"]).is_none());
    let mut p = WatchPool::with_subjects(&["https://a.example"]);
    assert!(p.try_add_subjects(&["https://b.example", "::"]).is_none());
    assert_eq!(p.subjects.len(), 1);
    assert!(p.try_add_subjects(&["https://b.example"]).is_some());
    assert_eq!(p.subjects.len(), 2);
}

#[test]
fn record_pings_gives_one_event_per_subject_in_order() {
    let mut p = WatchPool::with_subjects(&["https://a.example", "https://b.example"]);
    let t0 = Instant::now();
    let t1 = t0 + std::time::Duration::from_millis(3);
    let events = p.record_pings(vec![
        (t0, TimeSpan::from_secs(1), Ok(StatusCode::OK)),
        (t1, TimeSpan::from_secs(2), Err(request_error())),
    ]);
    assert_eq!(events.len(), 2);
    assert_eq!(events[0].resource.url, "https://a.example/");
    assert_eq!(events[0].response_code, Some(StatusCode::OK));
    assert_eq!(events[1].resource.url, "https://b.example/");
    assert!(events[1].error.is_some());
    assert_eq!(p.subjects[0].last_ping_at, Some(t0));
    assert_eq!(p.subjects[1].last_ping_at, Some(t1));
    assert!(events[0].resource == p.subjects[0]);
}
