//! The watcher service: its settings, the resources it watches, the events
//! it publishes for them and the pool they are kept in.
use vstd::prelude::*;

use std::time::SystemTime;

use crate::bindings::{parse_url, system_time_eq, system_time_now, url_serialization};
use crate::span::TimeSpan;

verus! {

/// How many requests are in flight at once, at most.
pub const CONCURRENT_REQUESTS: usize = 16;

/// How long the service waits between two rounds of pings, in seconds.
pub const WAIT_SECONDS_BEFORE_NEXT_BATCH: u64 = 5;

/// The Kafka topic the ping events are published on.
pub const PING_EVENTS_TOPIC: &'static str = "pingevents";

/// The environment variable that names the Kafka brokers.
pub const BROKERS_ENV_KEY: &'static str = "DOMAIN_WATCHER_KAFKA_BROKERS";

/// The brokers used when `BROKERS_ENV_KEY` is not set.
pub const DEFAULT_BROKERS: &'static str = "kafka:9092";

/// The environment variable that names the domain list file.
pub const DOMAIN_LIST_ENV_KEY: &'static str = "DOMAIN_WATCHER_DOMAIN_LIST";

/// The domain list file read when `DOMAIN_LIST_ENV_KEY` is not set.
pub const DEFAULT_DOMAIN_LIST: &'static str = "domains.txt";

/// The Kafka brokers to publish to: the value of `BROKERS_ENV_KEY` where it
/// is set, else `DEFAULT_BROKERS`.
pub fn kafka_brokers(env_value: Option<String>) -> (r: String)
    ensures
        match env_value {
            Some(v) => r@ == v@,
            None => r@ == DEFAULT_BROKERS@,
        },
{
    match env_value {
        Some(v) => v,
        None => DEFAULT_BROKERS.to_owned(),
    }
}

/// The domain list file to read: the value of `DOMAIN_LIST_ENV_KEY` where it
/// is set, else `DEFAULT_DOMAIN_LIST`.
pub fn domain_list_path(env_value: Option<String>) -> (r: String)
    ensures
        match env_value {
            Some(v) => r@ == v@,
            None => r@ == DEFAULT_DOMAIN_LIST@,
        },
{
    match env_value {
        Some(v) => v,
        None => DEFAULT_DOMAIN_LIST.to_owned(),
    }
}

/// How many pings of `n_urls` addresses are in flight at once: the cap, or
/// fewer where there are fewer addresses.
pub fn batch_width(n_urls: usize) -> (r: usize)
    ensures
        r == if n_urls < CONCURRENT_REQUESTS {
            n_urls
        } else {
            CONCURRENT_REQUESTS
        },
{
    if n_urls < CONCURRENT_REQUESTS {
        n_urls
    } else {
        CONCURRENT_REQUESTS
    }
}

/// How resources are watched.
#[derive(Debug, Copy, Clone, PartialEq, Eq, Structural)]
pub struct WatchConfig {
    /// How long a result stays fresh.
    pub ttl: TimeSpan,
    /// How many times a resource is tried, when limited.
    pub max_attempts: Option<usize>,
    /// How many requests are in flight at once, at most.
    pub concurrent_requests: usize,
}

/// The default configuration: results stay fresh for five seconds, a
/// resource is tried twice and sixteen requests are in flight at most.
pub open spec fn default_watch_config() -> WatchConfig {
    WatchConfig {
        ttl: TimeSpan { secs: 5, nanos: 0 },
        max_attempts: Some(2),
        concurrent_requests: 16,
    }
}

impl Default for WatchConfig {
    /// Results stay fresh for five seconds, a resource is tried twice and
    /// sixteen requests are in flight at most.
    fn default() -> (r: WatchConfig)
        ensures
            r == default_watch_config(),
    {
        WatchConfig { ttl: TimeSpan::from_secs(5), max_attempts: Some(2), concurrent_requests: 16 }
    }
}

/// An address under watch: the parsed URL (held as its serialization), when
/// it was last pinged and whether it is active.
#[derive(Debug, Eq)]
pub struct WatchableResource {
    pub url: String,
    pub last_ping_at: Option<SystemTime>,
    pub active: bool,
}

/// What a resource is, seen as values.
pub ghost struct ResourceView {
    pub url: Seq<char>,
    pub last_ping_at: Option<SystemTime>,
    pub active: bool,
}

impl View for WatchableResource {
    type V = ResourceView;

    open spec fn view(&self) -> ResourceView {
        ResourceView { url: self.url@, last_ping_at: self.last_ping_at, active: self.active }
    }
}

impl Clone for WatchableResource {
    fn clone(&self) -> (r: Self)
        ensures
            r == *self,
    {
        WatchableResource {
            url: self.url.clone(),
            last_ping_at: self.last_ping_at,
            active: self.active,
        }
    }
}

/// Two resources are equal when they have the same URL, are both active or
/// both not, and have both been pinged, at the same time. A resource never
/// pinged equals no resource, itself included.
impl PartialEq for WatchableResource {
    fn eq(&self, other: &Self) -> (r: bool) {
        self.url == other.url && self.active == other.active && self.last_ping_at.is_some()
            && other.last_ping_at.is_some() && system_time_eq(
            &self.last_ping_at.unwrap(),
            &other.last_ping_at.unwrap(),
        )
    }
}

impl vstd::std_specs::cmp::PartialEqSpecImpl for WatchableResource {
    open spec fn obeys_eq_spec() -> bool {
        true
    }

    open spec fn eq_spec(&self, other: &Self) -> bool {
        self.equals(other)
    }
}

/// The active resource made from the address `input`, not yet pinged.
pub open spec fn fresh_view(input: Seq<char>) -> ResourceView {
    ResourceView { url: url_serialization(input)->0, last_ping_at: None, active: true }
}

/// The resources made from the addresses `inputs`, in order.
pub open spec fn fresh_views(inputs: Seq<Seq<char>>) -> Seq<ResourceView> {
    inputs.map_values(|input: Seq<char>| fresh_view(input))
}

/// Every one of `inputs` is an address the URL parser accepts.
pub open spec fn all_parse(inputs: Seq<Seq<char>>) -> bool {
    forall|i: int| 0 <= i < inputs.len() ==> (#[trigger] url_serialization(inputs[i])) is Some
}

/// The texts of a list of strings.
pub open spec fn input_texts(inputs: Seq<String>) -> Seq<Seq<char>> {
    inputs.map_values(|s: String| s@)
}

/// What a list of resources is, seen as values.
pub open spec fn resource_views(resources: Seq<WatchableResource>) -> Seq<ResourceView> {
    resources.map_values(|r: WatchableResource| r@)
}

/// The address rebuilt from the parts of a URL: scheme, `://`, host, path.
pub open spec fn rebuilt_url(scheme: Seq<char>, host: Seq<char>, path: Seq<char>) -> Seq<char> {
    scheme + "://"@ + host + path
}

/// The address rebuilt from the parts of a URL: scheme, `://`, host, path.
pub fn rebuild_url(scheme: &str, host: &str, path: &str) -> (r: String)
    ensures
        r@ == rebuilt_url(scheme@, host@, path@),
{
    scheme.to_owned().concat("://").concat(host).concat(path)
}

impl WatchableResource {
    /// What `==` computes on resources.
    pub open spec fn equals(&self, other: &Self) -> bool {
        &&& self.url@ == other.url@
        &&& self.active == other.active
        &&& self.last_ping_at is Some
        &&& self.last_ping_at == other.last_ping_at
    }

    /// The resource at address `url`, last pinged at `last_ping_at`, active
    /// or not. The address must be one the URL parser accepts.
    pub fn new(url: &str, last_ping_at: Option<SystemTime>, active: bool) -> (r: Self)
        requires
            url_serialization(url@) is Some,
        ensures
            r.url@ == url_serialization(url@)->0,
            r.last_ping_at == last_ping_at,
            r.active == active,
    {
        let parsed = parse_url(url).unwrap();
        WatchableResource { url: parsed, last_ping_at, active }
    }
}

/// What one ping of a resource gave; the record published on Kafka.
#[derive(Debug)]
pub struct PingEvent {
    pub resource: WatchableResource,
    pub request_init: Option<SystemTime>,
    pub response_time: Option<TimeSpan>,
    pub response_code: Option<u16>,
}

impl Clone for PingEvent {
    fn clone(&self) -> (r: Self)
        ensures
            r == *self,
    {
        PingEvent {
            resource: self.resource.clone(),
            request_init: self.request_init,
            response_time: self.response_time,
            response_code: self.response_code,
        }
    }
}

impl PingEvent {
    /// What `==` computes on events.
    pub open spec fn equals(&self, other: &Self) -> bool {
        &&& self.resource.equals(&other.resource)
        &&& self.request_init is Some
        &&& self.request_init == other.request_init
        &&& self.response_time is Some
        &&& self.response_time == other.response_time
        &&& self.response_code is Some
        &&& self.response_code == other.response_code
    }

    /// The event made of the given parts.
    pub fn new(
        resource: WatchableResource,
        request_init: Option<SystemTime>,
        response_time: Option<TimeSpan>,
        response_code: Option<u16>,
    ) -> (r: Self)
        ensures
            r.resource == resource,
            r.request_init == request_init,
            r.response_time == response_time,
            r.response_code == response_code,
    {
        PingEvent { resource, request_init, response_time, response_code }
    }

    /// The event of a resource that holds nothing else.
    pub fn new_empty(resource: WatchableResource) -> (r: Self)
        ensures
            r.resource == resource,
            r.request_init is None,
            r.response_time is None,
            r.response_code is None,
    {
        Self::new(resource, None, None, None)
    }

    /// The event of a request to `url` made now that got no response: the
    /// active resource at `url`, marked as pinged now, and the same time as
    /// the start of the request. The address must be one the URL parser
    /// accepts.
    pub fn now(url: &str) -> (r: Self)
        requires
            url_serialization(url@) is Some,
        ensures
            r.resource.url@ == url_serialization(url@)->0,
            r.resource.active,
            r.resource.last_ping_at is Some,
            r.request_init == r.resource.last_ping_at,
            r.response_time is None,
            r.response_code is None,
    {
        let curr_time = Some(system_time_now());
        Self::new(WatchableResource::new(url, curr_time, true), curr_time, None, None)
    }

    /// The event of a failed request whose URL has the parts `scheme`,
    /// `host` and `path`: the event `now` makes for the address rebuilt from
    /// them, or `None` where the URL parser refuses that address.
    pub fn for_failed_request(scheme: &str, host: &str, path: &str) -> (r: Option<Self>)
        ensures
            r is Some <==> url_serialization(rebuilt_url(scheme@, host@, path@)) is Some,
            r matches Some(e) ==> {
                &&& e.resource.url@ == url_serialization(rebuilt_url(scheme@, host@, path@))->0
                &&& e.resource.active
                &&& e.resource.last_ping_at is Some
                &&& e.request_init == e.resource.last_ping_at
                &&& e.response_time is None
                &&& e.response_code is None
            },
    {
        let full_url = rebuild_url(scheme, host, path);
        match parse_url(full_url.as_str()) {
            Some(_) => Some(Self::now(full_url.as_str())),
            None => None,
        }
    }
}

/// Two events are equal when their resources are equal and each of start,
/// time taken and status is present in both and the same.
impl PartialEq for PingEvent {
    fn eq(&self, other: &Self) -> (r: bool) {
        self.resource == other.resource && self.request_init.is_some()
            && other.request_init.is_some() && system_time_eq(
            &self.request_init.unwrap(),
            &other.request_init.unwrap(),
        ) && self.response_time.is_some() && other.response_time.is_some()
            && self.response_time.unwrap() == other.response_time.unwrap()
            && self.response_code.is_some() && other.response_code.is_some()
            && self.response_code.unwrap() == other.response_code.unwrap()
    }
}

impl vstd::std_specs::cmp::PartialEqSpecImpl for PingEvent {
    open spec fn obeys_eq_spec() -> bool {
        true
    }

    open spec fn eq_spec(&self, other: &Self) -> bool {
        self.equals(other)
    }
}

impl Eq for PingEvent {

}

/// The resources under watch and how they are watched.
#[derive(Debug)]
pub struct WatchPool {
    pub subjects: Vec<WatchableResource>,
    pub config: WatchConfig,
}

/// Whether the URL parser accepts every one of `subjects`.
pub fn parses_all(subjects: &[String]) -> (r: bool)
    ensures
        r == all_parse(input_texts(subjects@)),
{
    let mut i: usize = 0;
    while i < subjects.len()
        invariant
            i <= subjects@.len(),
            forall|k: int| 0 <= k < i ==> (#[trigger] url_serialization(subjects@[k]@)) is Some,
        decreases subjects@.len() - i,
    {
        if parse_url(subjects[i].as_str()).is_none() {
            assert(input_texts(subjects@)[i as int] == subjects@[i as int]@);
            return false;
        }
        i = i + 1;
    }
    assert forall|k: int| 0 <= k < input_texts(subjects@).len() implies (#[trigger] url_serialization(
        input_texts(subjects@)[k],
    )) is Some by {
        assert(input_texts(subjects@)[k] == subjects@[k]@);
    }
    true
}

impl WatchPool {
    /// A pool that watches nothing, with the default configuration.
    pub fn new() -> (r: Self)
        ensures
            r.subjects@.len() == 0,
            r.config == default_watch_config(),
    {
        let empty: Vec<String> = Vec::new();
        let r = Self::with_subjects_and_config(empty.as_slice(), WatchConfig::default());
        assert(resource_views(r.subjects@).len() == r.subjects@.len());
        r
    }

    /// The same as `new`.
    pub fn default() -> (r: Self)
        ensures
            r.subjects@.len() == 0,
            r.config == default_watch_config(),
    {
        Self::new()
    }

    /// A pool that watches `subjects`, with the default configuration.
    pub fn with_subjects(subjects: &[String]) -> (r: Self)
        requires
            all_parse(input_texts(subjects@)),
        ensures
            resource_views(r.subjects@) == fresh_views(input_texts(subjects@)),
            r.config == default_watch_config(),
    {
        Self::with_subjects_and_config(subjects, WatchConfig::default())
    }

    /// A pool that watches `subjects`, in order, all active and none of them
    /// pinged yet.
    pub fn with_subjects_and_config(subjects: &[String], config: WatchConfig) -> (r: WatchPool)
        requires
            all_parse(input_texts(subjects@)),
        ensures
            resource_views(r.subjects@) == fresh_views(input_texts(subjects@)),
            r.config == config,
    {
        let mut resources: Vec<WatchableResource> = Vec::new();
        let mut i: usize = 0;
        while i < subjects.len()
            invariant
                i <= subjects@.len(),
                all_parse(input_texts(subjects@)),
                resources@.len() == i,
                forall|k: int| 0 <= k < i ==> #[trigger] resources@[k]@ == fresh_view(
                    subjects@[k]@,
                ),
            decreases subjects@.len() - i,
        {
            assert(input_texts(subjects@)[i as int] == subjects@[i as int]@);
            assert(url_serialization(input_texts(subjects@)[i as int]) is Some);
            resources.push(WatchableResource::new(subjects[i].as_str(), None, true));
            i = i + 1;
        }
        assert(resource_views(resources@) =~= fresh_views(input_texts(subjects@))) by {
            assert forall|k: int| 0 <= k < resources@.len() implies #[trigger] resource_views(
                resources@,
            )[k] == fresh_views(input_texts(subjects@))[k] by {
                assert(input_texts(subjects@)[k] == subjects@[k]@);
            }
        }
        WatchPool { subjects: resources, config }
    }

    /// A pool that watches `subjects` with the default configuration, or
    /// `None` where the URL parser refuses one of them.
    pub fn try_with_subjects(subjects: &[String]) -> (r: Option<Self>)
        ensures
            r is Some <==> all_parse(input_texts(subjects@)),
            r matches Some(pool) ==> resource_views(pool.subjects@) == fresh_views(
                input_texts(subjects@),
            ) && pool.config == default_watch_config(),
    {
        if parses_all(subjects) {
            Some(Self::with_subjects(subjects))
        } else {
            None
        }
    }

    /// A pool that watches `subjects` with the configuration `config`, or
    /// `None` where the URL parser refuses one of them.
    pub fn try_with_subjects_and_config(subjects: &[String], config: WatchConfig) -> (r: Option<
        Self,
    >)
        ensures
            r is Some <==> all_parse(input_texts(subjects@)),
            r matches Some(pool) ==> resource_views(pool.subjects@) == fresh_views(
                input_texts(subjects@),
            ) && pool.config == config,
    {
        if parses_all(subjects) {
            Some(Self::with_subjects_and_config(subjects, config))
        } else {
            None
        }
    }

    /// Puts `subject` under watch, active, after the resources already
    /// watched, and returns the resource so added.
    pub fn add_subject(&mut self, subject: &str) -> (r: WatchableResource)
        requires
            url_serialization(subject@) is Some,
        ensures
            r@ == fresh_view(subject@),
            final(self).subjects@ == old(self).subjects@.push(r),
            final(self).config == old(self).config,
    {
        let resource = WatchableResource::new(subject, None, true);
        self.subjects.push(resource.clone());
        resource
    }

    /// Puts each of `subjects` under watch, in order, after the resources
    /// already watched, and returns the resources so added.
    pub fn add_subjects(&mut self, subjects: &[String]) -> (r: Vec<WatchableResource>)
        requires
            all_parse(input_texts(subjects@)),
        ensures
            resource_views(r@) == fresh_views(input_texts(subjects@)),
            final(self).subjects@ == old(self).subjects@ + r@,
            final(self).config == old(self).config,
    {
        let mut added: Vec<WatchableResource> = Vec::new();
        let mut i: usize = 0;
        while i < subjects.len()
            invariant
                i <= subjects@.len(),
                all_parse(input_texts(subjects@)),
                added@.len() == i,
                forall|k: int| 0 <= k < i ==> #[trigger] added@[k]@ == fresh_view(subjects@[k]@),
                self.subjects@ == old(self).subjects@ + added@,
                self.config == old(self).config,
            decreases subjects@.len() - i,
        {
            assert(input_texts(subjects@)[i as int] == subjects@[i as int]@);
            assert(url_serialization(input_texts(subjects@)[i as int]) is Some);
            let resource = self.add_subject(subjects[i].as_str());
            added.push(resource);
            i = i + 1;
        }
        assert(resource_views(added@) =~= fresh_views(input_texts(subjects@))) by {
            assert forall|k: int| 0 <= k < added@.len() implies #[trigger] resource_views(
                added@,
            )[k] == fresh_views(input_texts(subjects@))[k] by {
                assert(input_texts(subjects@)[k] == subjects@[k]@);
            }
        }
        added
    }

    /// Puts each of `subjects` under watch as `add_subjects` does, or leaves
    /// the pool unchanged and returns `None` where the URL parser refuses one
    /// of them.
    pub fn try_add_subjects(&mut self, subjects: &[String]) -> (r: Option<Vec<WatchableResource>>)
        ensures
            r is Some <==> all_parse(input_texts(subjects@)),
            r matches Some(added) ==> resource_views(added@) == fresh_views(input_texts(subjects@))
                && final(self).subjects@ == old(self).subjects@ + added@,
            r is None ==> final(self).subjects@ == old(self).subjects@,
            final(self).config == old(self).config,
    {
        if parses_all(subjects) {
            Some(self.add_subjects(subjects))
        } else {
            None
        }
    }
}

/// Equality of resources is symmetric.
pub proof fn lemma_resource_eq_symmetric(a: WatchableResource, b: WatchableResource)
    ensures
        a.equals(&b) == b.equals(&a),
{
}

/// Equality of resources is transitive.
pub proof fn lemma_resource_eq_transitive(
    a: WatchableResource,
    b: WatchableResource,
    c: WatchableResource,
)
    requires
        a.equals(&b),
        b.equals(&c),
    ensures
        a.equals(&c),
{
}

/// A resource equals itself exactly when it has been pinged.
pub proof fn lemma_resource_eq_self(a: WatchableResource)
    ensures
        a.equals(&a) <==> a.last_ping_at is Some,
{
}

/// Equality of events is symmetric.
pub proof fn lemma_event_eq_symmetric(a: PingEvent, b: PingEvent)
    ensures
        a.equals(&b) == b.equals(&a),
{
}

/// Equality of events is transitive.
pub proof fn lemma_event_eq_transitive(a: PingEvent, b: PingEvent, c: PingEvent)
    requires
        a.equals(&b),
        b.equals(&c),
    ensures
        a.equals(&c),
{
}

/// An event equals itself exactly when its resource has been pinged and it
/// holds a start, a time taken and a status.
pub proof fn lemma_event_eq_self(e: PingEvent)
    ensures
        e.equals(&e) <==> {
            &&& e.resource.last_ping_at is Some
            &&& e.request_init is Some
            &&& e.response_time is Some
            &&& e.response_code is Some
        },
{
}

/// Watching the addresses `a + b` gives the resources that watching `a` and
/// then adding `b` gives, in the same order.
pub proof fn lemma_fresh_views_concat(a: Seq<Seq<char>>, b: Seq<Seq<char>>)
    ensures
        fresh_views(a + b) == fresh_views(a) + fresh_views(b),
{
    assert(fresh_views(a + b) =~= fresh_views(a) + fresh_views(b));
}

/// An event that holds no status, as the event of a failed request, equals
/// no event, itself included.
pub proof fn lemma_statusless_event_equals_nothing(e: PingEvent, other: PingEvent)
    requires
        e.response_code is None,
    ensures
        !e.equals(&other),
        !other.equals(&e),
{
}


/// What `==` on resources answers, from their fields: two resources are
/// equal exactly when they have the same URL, the same active flag and were
/// both pinged, at the same time.
pub proof fn lemma_resource_eq_fields(a: WatchableResource, b: WatchableResource)
    ensures
        vstd::std_specs::cmp::PartialEqSpec::eq_spec(&a, &b) <==> {
            &&& a.url@ == b.url@
            &&& a.active == b.active
            &&& a.last_ping_at is Some
            &&& b.last_ping_at is Some
            &&& a.last_ping_at->0 == b.last_ping_at->0
        },
{
}

/// What `==` on events answers, from their fields: two events are equal
/// exactly when their resources are equal and they hold the same start, the
/// same time taken and the same status, all three present.
pub proof fn lemma_event_eq_fields(a: PingEvent, b: PingEvent)
    ensures
        vstd::std_specs::cmp::PartialEqSpec::eq_spec(&a, &b) <==> {
            &&& a.resource.url@ == b.resource.url@
            &&& a.resource.active == b.resource.active
            &&& a.resource.last_ping_at is Some
            &&& a.resource.last_ping_at == b.resource.last_ping_at
            &&& a.request_init is Some
            &&& b.request_init is Some
            &&& a.request_init->0 == b.request_init->0
            &&& a.response_time is Some
            &&& b.response_time is Some
            &&& a.response_time->0 == b.response_time->0
            &&& a.response_code is Some
            &&& b.response_code is Some
            &&& a.response_code->0 == b.response_code->0
        },
{
}

} // verus!
