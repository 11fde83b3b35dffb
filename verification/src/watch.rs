//! The watch pool of the library: the resources watched, the events their
//! pings give, and how a ping changes a resource.
use vstd::prelude::*;

use reqwest::StatusCode;
use std::time::Instant;

use crate::bindings::{instant_eq, parse_url, status_code_eq, url_serialization};
use crate::span::TimeSpan;

verus! {

/// How resources are watched.
#[derive(Debug, Copy, Clone, PartialEq, Eq, Structural)]
pub struct WatchConfig {
    /// How long a result stays fresh.
    pub ttl: TimeSpan,
    /// How many times a resource is tried, when limited.
    pub max_attempts: Option<usize>,
}

/// The default configuration: results stay fresh for five seconds and a
/// resource is tried twice.
pub open spec fn default_watch_config() -> WatchConfig {
    WatchConfig { ttl: TimeSpan { secs: 5, nanos: 0 }, max_attempts: Some(2) }
}

impl Default for WatchConfig {
    /// Results stay fresh for five seconds; a resource is tried twice.
    fn default() -> (r: WatchConfig)
        ensures
            r == default_watch_config(),
    {
        WatchConfig { ttl: TimeSpan::from_secs(5), max_attempts: Some(2) }
    }
}

/// An address under watch: the parsed URL (held as its serialization) and
/// when it was last pinged.
#[derive(Debug, Eq)]
pub struct WatchableResource {
    pub url: String,
    pub last_ping_at: Option<Instant>,
}

/// What a resource is, seen as values.
pub ghost struct ResourceView {
    pub url: Seq<char>,
    pub last_ping_at: Option<Instant>,
}

impl View for WatchableResource {
    type V = ResourceView;

    open spec fn view(&self) -> ResourceView {
        ResourceView { url: self.url@, last_ping_at: self.last_ping_at }
    }
}

impl Clone for WatchableResource {
    fn clone(&self) -> (r: Self)
        ensures
            r == *self,
    {
        WatchableResource { url: self.url.clone(), last_ping_at: self.last_ping_at }
    }
}

/// Two resources are equal when they have the same URL and have both been
/// pinged, at the same instant. A resource never pinged equals no resource,
/// itself included.
impl PartialEq for WatchableResource {
    fn eq(&self, other: &Self) -> (r: bool) {
        self.url == other.url && self.last_ping_at.is_some() && other.last_ping_at.is_some()
            && instant_eq(&self.last_ping_at.unwrap(), &other.last_ping_at.unwrap())
    }
}

impl vstd::std_specs::cmp::PartialEqSpecImpl for WatchableResource {
    open spec fn obeys_eq_spec() -> bool {
        true
    }

    open spec fn eq_spec(&self, other: &Self) -> bool {
        self.equals(other)
    }
}

/// The resource made from the address `input`, not yet pinged.
pub open spec fn fresh_view(input: Seq<char>) -> ResourceView {
    ResourceView { url: url_serialization(input)->0, last_ping_at: None }
}

/// The resources made from the addresses `inputs`, in order.
pub open spec fn fresh_views(inputs: Seq<Seq<char>>) -> Seq<ResourceView> {
    inputs.map_values(|input: Seq<char>| fresh_view(input))
}

/// Every one of `inputs` is an address the URL parser accepts.
pub open spec fn all_parse(inputs: Seq<Seq<char>>) -> bool {
    forall|i: int| 0 <= i < inputs.len() ==> (#[trigger] url_serialization(inputs[i])) is Some
}

/// The texts of a list of `&str`.
pub open spec fn input_texts(inputs: Seq<&str>) -> Seq<Seq<char>> {
    inputs.map_values(|s: &str| s@)
}

/// What a list of resources is, seen as values.
pub open spec fn resource_views(resources: Seq<WatchableResource>) -> Seq<ResourceView> {
    resources.map_values(|r: WatchableResource| r@)
}

impl WatchableResource {
    /// What `==` computes on resources.
    pub open spec fn equals(&self, other: &Self) -> bool {
        &&& self.url@ == other.url@
        &&& self.last_ping_at is Some
        &&& self.last_ping_at == other.last_ping_at
    }

    /// The resource at address `url`, last pinged at `last_ping_at`.
    /// The address must be one the URL parser accepts.
    pub fn new(url: &str, last_ping_at: Option<Instant>) -> (r: Self)
        requires
            url_serialization(url@) is Some,
        ensures
            r.url@ == url_serialization(url@)->0,
            r.last_ping_at == last_ping_at,
    {
        let parsed = parse_url(url).unwrap();
        WatchableResource { url: parsed, last_ping_at }
    }

    /// Records a ping of this resource that started at `start`, took
    /// `elapsed` and ended with `outcome`: the resource is marked as pinged
    /// at `start`, and the event carries the resource so marked, the start,
    /// the time taken and either the response's status or the error.
    pub fn record_ping(
        &mut self,
        start: Instant,
        elapsed: TimeSpan,
        outcome: Result<StatusCode, reqwest::Error>,
    ) -> (e: PingEvent)
        ensures
            final(self).url == old(self).url,
            final(self).last_ping_at == Some(start),
            e.resource == *final(self),
            e.request_init == Some(start),
            e.response_time == Some(elapsed),
            match outcome {
                Ok(code) => e.response_code == Some(code) && e.error is None,
                Err(error) => e.response_code is None && e.error == Some(error),
            },
    {
        self.last_ping_at = Some(start);
        match outcome {
            Ok(code) => PingEvent::new(self.clone(), Some(start), Some(elapsed), Some(code), None),
            Err(error) => PingEvent::new(
                self.clone(),
                Some(start),
                Some(elapsed),
                None,
                Some(error),
            ),
        }
    }
}

/// How one ping of a resource went: when it started, how long it took, and
/// the response's status or the error.
pub type PingOutcome = (Instant, TimeSpan, Result<StatusCode, reqwest::Error>);

/// `after` and `e` are what recording the ping `outcome` of `before` gives
/// (as `WatchableResource::record_ping` states it).
pub open spec fn ping_recorded(
    before: WatchableResource,
    after: WatchableResource,
    outcome: PingOutcome,
    e: PingEvent,
) -> bool {
    &&& after.url == before.url
    &&& after.last_ping_at == Some(outcome.0)
    &&& e.resource == after
    &&& e.request_init == Some(outcome.0)
    &&& e.response_time == Some(outcome.1)
    &&& match outcome.2 {
        Ok(code) => e.response_code == Some(code) && e.error is None,
        Err(error) => e.response_code is None && e.error == Some(error),
    }
}

/// What one ping of a resource gave.
#[derive(Debug)]
pub struct PingEvent {
    pub resource: WatchableResource,
    pub request_init: Option<Instant>,
    pub response_time: Option<TimeSpan>,
    pub response_code: Option<StatusCode>,
    pub error: Option<reqwest::Error>,
}

impl PingEvent {
    /// The event made of the given parts.
    pub fn new(
        resource: WatchableResource,
        request_init: Option<Instant>,
        response_time: Option<TimeSpan>,
        response_code: Option<StatusCode>,
        error: Option<reqwest::Error>,
    ) -> (r: Self)
        ensures
            r.resource == resource,
            r.request_init == request_init,
            r.response_time == response_time,
            r.response_code == response_code,
            r.error == error,
    {
        PingEvent { resource: resource.clone(), request_init, response_time, response_code, error }
    }

    /// The event of a resource that holds nothing else.
    pub fn new_empty(resource: WatchableResource) -> (r: Self)
        ensures
            r.resource == resource,
            r.request_init is None,
            r.response_time is None,
            r.response_code is None,
            r.error is None,
    {
        Self::new(resource, None, None, None, None)
    }
}

/// Two events are equal when their resources are equal and each of start,
/// time taken and status is present in both and the same; the error is not
/// compared.
impl PartialEq for PingEvent {
    fn eq(&self, other: &Self) -> (r: bool) {
        self.resource == other.resource && self.request_init.is_some()
            && other.request_init.is_some() && instant_eq(
            &self.request_init.unwrap(),
            &other.request_init.unwrap(),
        ) && self.response_time.is_some() && other.response_time.is_some()
            && self.response_time.unwrap() == other.response_time.unwrap()
            && self.response_code.is_some() && other.response_code.is_some() && status_code_eq(
            &self.response_code.unwrap(),
            &other.response_code.unwrap(),
        )
    }
}

impl vstd::std_specs::cmp::PartialEqSpecImpl for PingEvent {
    open spec fn obeys_eq_spec() -> bool {
        true
    }

    open spec fn eq_spec(&self, other: &Self) -> bool {
        self.equals(other)
    }
}

impl PingEvent {
    /// What `==` computes on events.
    pub open spec fn equals(&self, other: &Self) -> bool {
        &&& self.resource.equals(&other.resource)
        &&& self.request_init is Some
        &&& self.request_init == other.request_init
        &&& self.response_time is Some
        &&& self.response_time == other.response_time
        &&& self.response_code is Some
        &&& self.response_code == other.response_code
    }
}

impl Eq for PingEvent {

}

/// The resources under watch and how they are watched.
#[derive(Debug)]
pub struct WatchPool {
    pub subjects: Vec<WatchableResource>,
    pub config: WatchConfig,
}

/// Whether the URL parser accepts every one of `subjects`.
pub fn parses_all(subjects: &[&str]) -> (r: bool)
    ensures
        r == all_parse(input_texts(subjects@)),
{
    let mut i: usize = 0;
    while i < subjects.len()
        invariant
            i <= subjects@.len(),
            forall|k: int| 0 <= k < i ==> (#[trigger] url_serialization(subjects@[k]@)) is Some,
        decreases subjects@.len() - i,
    {
        if parse_url(subjects[i]).is_none() {
            assert(input_texts(subjects@)[i as int] == subjects@[i as int]@);
            return false;
        }
        i = i + 1;
    }
    assert forall|k: int| 0 <= k < input_texts(subjects@).len() implies (#[trigger] url_serialization(
        input_texts(subjects@)[k],
    )) is Some by {
        assert(input_texts(subjects@)[k] == subjects@[k]@);
    }
    true
}

impl WatchPool {
    /// A pool that watches nothing, with the default configuration.
    pub fn new() -> (r: Self)
        ensures
            r.subjects@.len() == 0,
            r.config == default_watch_config(),
    {
        let empty: Vec<&str> = Vec::new();
        let r = Self::with_subjects_and_config(empty.as_slice(), WatchConfig::default());
        assert(resource_views(r.subjects@).len() == r.subjects@.len());
        r
    }

    /// The same as `new`.
    pub fn default() -> (r: Self)
        ensures
            r.subjects@.len() == 0,
            r.config == default_watch_config(),
    {
        Self::new()
    }

    /// A pool that watches `subjects`, with the default configuration.
    pub fn with_subjects(subjects: &[&str]) -> (r: Self)
        requires
            all_parse(input_texts(subjects@)),
        ensures
            resource_views(r.subjects@) == fresh_views(input_texts(subjects@)),
            r.config == default_watch_config(),
    {
        Self::with_subjects_and_config(subjects, WatchConfig::default())
    }

    /// A pool that watches `subjects`, in order, none of them pinged yet.
    pub fn with_subjects_and_config(subjects: &[&str], config: WatchConfig) -> (r: WatchPool)
        requires
            all_parse(input_texts(subjects@)),
        ensures
            resource_views(r.subjects@) == fresh_views(input_texts(subjects@)),
            r.config == config,
    {
        let mut resources: Vec<WatchableResource> = Vec::new();
        let mut i: usize = 0;
        while i < subjects.len()
            invariant
                i <= subjects@.len(),
                all_parse(input_texts(subjects@)),
                resources@.len() == i,
                forall|k: int| 0 <= k < i ==> #[trigger] resources@[k]@ == fresh_view(
                    subjects@[k]@,
                ),
            decreases subjects@.len() - i,
        {
            assert(input_texts(subjects@)[i as int] == subjects@[i as int]@);
            assert(url_serialization(input_texts(subjects@)[i as int]) is Some);
            resources.push(WatchableResource::new(subjects[i], None));
            i = i + 1;
        }
        assert(resource_views(resources@) =~= fresh_views(input_texts(subjects@))) by {
            assert forall|k: int| 0 <= k < resources@.len() implies #[trigger] resource_views(
                resources@,
            )[k] == fresh_views(input_texts(subjects@))[k] by {
                assert(input_texts(subjects@)[k] == subjects@[k]@);
            }
        }
        WatchPool { subjects: resources, config }
    }

    /// A pool that watches `subjects` with the default configuration, or
    /// `None` where the URL parser refuses one of them.
    pub fn try_with_subjects(subjects: &[&str]) -> (r: Option<Self>)
        ensures
            r is Some <==> all_parse(input_texts(subjects@)),
            r matches Some(pool) ==> resource_views(pool.subjects@) == fresh_views(
                input_texts(subjects@),
            ) && pool.config == default_watch_config(),
    {
        if parses_all(subjects) {
            Some(Self::with_subjects(subjects))
        } else {
            None
        }
    }

    /// A pool that watches `subjects` with the configuration `config`, or
    /// `None` where the URL parser refuses one of them.
    pub fn try_with_subjects_and_config(subjects: &[&str], config: WatchConfig) -> (r: Option<
        Self,
    >)
        ensures
            r is Some <==> all_parse(input_texts(subjects@)),
            r matches Some(pool) ==> resource_views(pool.subjects@) == fresh_views(
                input_texts(subjects@),
            ) && pool.config == config,
    {
        if parses_all(subjects) {
            Some(Self::with_subjects_and_config(subjects, config))
        } else {
            None
        }
    }

    /// Records one ping per watched resource: `outcomes[i]` is how the ping
    /// of the `i`-th resource went. Each resource is marked as pinged, and the
    /// events come back in the order of the resources.
    pub fn record_pings(&mut self, outcomes: Vec<PingOutcome>) -> (events: Vec<PingEvent>)
        requires
            outcomes@.len() == old(self).subjects@.len(),
        ensures
            events@.len() == outcomes@.len(),
            final(self).subjects@.len() == old(self).subjects@.len(),
            final(self).config == old(self).config,
            forall|i: int|
                0 <= i < outcomes@.len() ==> ping_recorded(
                    old(self).subjects@[i],
                    #[trigger] final(self).subjects@[i],
                    outcomes@[i],
                    events@[i],
                ),
    {
        let ghost all = outcomes@;
        let mut rest = outcomes;
        let mut events: Vec<PingEvent> = Vec::new();
        let n = self.subjects.len();
        let mut i: usize = 0;
        while i < n
            invariant
                n == old(self).subjects@.len(),
                all.len() == n,
                i <= n,
                rest@ == all.subrange(i as int, n as int),
                events@.len() == i,
                self.subjects@.len() == n,
                self.config == old(self).config,
                forall|k: int|
                    0 <= k < i ==> ping_recorded(
                        old(self).subjects@[k],
                        #[trigger] self.subjects@[k],
                        all[k],
                        events@[k],
                    ),
                forall|k: int| i <= k < n ==> #[trigger] self.subjects@[k] == old(self).subjects@[k],
            decreases n - i,
        {
            let (start, elapsed, outcome) = rest.remove(0);
            let mut subject = self.subjects[i].clone();
            let e = subject.record_ping(start, elapsed, outcome);
            self.subjects.set(i, subject);
            events.push(e);
            assert(rest@ =~= all.subrange(i + 1, n as int));
            i = i + 1;
        }
        events
    }

    /// Puts `subject` under watch, after the resources already watched, and
    /// returns the resource so added.
    pub fn add_subject(&mut self, subject: &str) -> (r: WatchableResource)
        requires
            url_serialization(subject@) is Some,
        ensures
            r@ == fresh_view(subject@),
            final(self).subjects@ == old(self).subjects@.push(r),
            final(self).config == old(self).config,
    {
        let resource = WatchableResource::new(subject, None);
        self.subjects.push(resource.clone());
        resource
    }

    /// Puts each of `subjects` under watch, in order, after the resources
    /// already watched, and returns the resources so added.
    pub fn add_subjects(&mut self, subjects: &[&str]) -> (r: Vec<WatchableResource>)
        requires
            all_parse(input_texts(subjects@)),
        ensures
            resource_views(r@) == fresh_views(input_texts(subjects@)),
            final(self).subjects@ == old(self).subjects@ + r@,
            final(self).config == old(self).config,
    {
        let mut added: Vec<WatchableResource> = Vec::new();
        let mut i: usize = 0;
        while i < subjects.len()
            invariant
                i <= subjects@.len(),
                all_parse(input_texts(subjects@)),
                added@.len() == i,
                forall|k: int| 0 <= k < i ==> #[trigger] added@[k]@ == fresh_view(subjects@[k]@),
                self.subjects@ == old(self).subjects@ + added@,
                self.config == old(self).config,
            decreases subjects@.len() - i,
        {
            assert(input_texts(subjects@)[i as int] == subjects@[i as int]@);
            assert(url_serialization(input_texts(subjects@)[i as int]) is Some);
            let resource = self.add_subject(subjects[i]);
            added.push(resource);
            i = i + 1;
        }
        assert(resource_views(added@) =~= fresh_views(input_texts(subjects@))) by {
            assert forall|k: int| 0 <= k < added@.len() implies #[trigger] resource_views(
                added@,
            )[k] == fresh_views(input_texts(subjects@))[k] by {
                assert(input_texts(subjects@)[k] == subjects@[k]@);
            }
        }
        added
    }

    /// Puts each of `subjects` under watch as `add_subjects` does, or leaves
    /// the pool unchanged and returns `None` where the URL parser refuses one
    /// of them.
    pub fn try_add_subjects(&mut self, subjects: &[&str]) -> (r: Option<Vec<WatchableResource>>)
        ensures
            r is Some <==> all_parse(input_texts(subjects@)),
            r matches Some(added) ==> resource_views(added@) == fresh_views(input_texts(subjects@))
                && final(self).subjects@ == old(self).subjects@ + added@,
            r is None ==> final(self).subjects@ == old(self).subjects@,
            final(self).config == old(self).config,
    {
        if parses_all(subjects) {
            Some(self.add_subjects(subjects))
        } else {
            None
        }
    }
}

/// Equality of resources is symmetric.
pub proof fn lemma_resource_eq_symmetric(a: WatchableResource, b: WatchableResource)
    ensures
        a.equals(&b) == b.equals(&a),
{
}

/// Equality of resources is transitive.
pub proof fn lemma_resource_eq_transitive(
    a: WatchableResource,
    b: WatchableResource,
    c: WatchableResource,
)
    requires
        a.equals(&b),
        b.equals(&c),
    ensures
        a.equals(&c),
{
}

/// A resource equals itself exactly when it has been pinged.
pub proof fn lemma_resource_eq_self(a: WatchableResource)
    ensures
        a.equals(&a) <==> a.last_ping_at is Some,
{
}

/// Equality of events is symmetric.
pub proof fn lemma_event_eq_symmetric(a: PingEvent, b: PingEvent)
    ensures
        a.equals(&b) == b.equals(&a),
{
}

/// Equality of events is transitive.
pub proof fn lemma_event_eq_transitive(a: PingEvent, b: PingEvent, c: PingEvent)
    requires
        a.equals(&b),
        b.equals(&c),
    ensures
        a.equals(&c),
{
}

/// An event equals itself exactly when its resource has been pinged and it
/// holds a start, a time taken and a status.
pub proof fn lemma_event_eq_self(e: PingEvent)
    ensures
        e.equals(&e) <==> {
            &&& e.resource.last_ping_at is Some
            &&& e.request_init is Some
            &&& e.response_time is Some
            &&& e.response_code is Some
        },
{
}

/// Watching the addresses `a + b` gives the resources that watching `a` and
/// then adding `b` gives, in the same order.
pub proof fn lemma_fresh_views_concat(a: Seq<Seq<char>>, b: Seq<Seq<char>>)
    ensures
        fresh_views(a + b) == fresh_views(a) + fresh_views(b),
{
    assert(fresh_views(a + b) =~= fresh_views(a) + fresh_views(b));
}

/// After a ping the resource equals the copy of it its event carries, and an
/// event that holds a status equals itself.
pub proof fn lemma_ping_record_comparable(after: WatchableResource, start: Instant, e: PingEvent)
    requires
        after.last_ping_at == Some(start),
        e.resource == after,
        e.request_init == Some(start),
        e.response_time is Some,
        e.response_code is Some,
    ensures
        after.equals(&e.resource),
        e.resource.equals(&after),
        e.equals(&e),
{
}


/// What `==` on resources answers, from their fields: two resources are
/// equal exactly when they have the same URL and were both pinged, at the
/// same instant.
pub proof fn lemma_resource_eq_fields(a: WatchableResource, b: WatchableResource)
    ensures
        vstd::std_specs::cmp::PartialEqSpec::eq_spec(&a, &b) <==> {
            &&& a.url@ == b.url@
            &&& a.last_ping_at is Some
            &&& b.last_ping_at is Some
            &&& a.last_ping_at->0 == b.last_ping_at->0
        },
{
}

/// What `==` on events answers, from their fields: two events are equal
/// exactly when their resources are equal and they hold the same start, the
/// same time taken and the same status, all three present; the error does
/// not count.
pub proof fn lemma_event_eq_fields(a: PingEvent, b: PingEvent)
    ensures
        vstd::std_specs::cmp::PartialEqSpec::eq_spec(&a, &b) <==> {
            &&& a.resource.url@ == b.resource.url@
            &&& a.resource.last_ping_at is Some
            &&& a.resource.last_ping_at == b.resource.last_ping_at
            &&& a.request_init is Some
            &&& b.request_init is Some
            &&& a.request_init->0 == b.request_init->0
            &&& a.response_time is Some
            &&& b.response_time is Some
            &&& a.response_time->0 == b.response_time->0
            &&& a.response_code is Some
            &&& b.response_code is Some
            &&& a.response_code->0 == b.response_code->0
        },
{
}

} // verus!
