//! Publishes domain events for harvested resources.
//!
//! A message from the harvest queue carries a list of harvest reports. Each
//! changed or removed resource in them is resolved into an event of the
//! deployed resource kind, whose content may be fetched from an upstream API,
//! and the event is then published to a log topic keyed by resource id.
use vstd::prelude::*;

pub mod concept;
pub mod data_service;
pub mod dataset;
pub mod event;
pub mod information_model;
pub mod service;
pub mod time;
pub mod error;
pub mod kafka;
pub mod pipeline;
pub mod rabbit;
pub mod utils;

use crate::error::Error;
use crate::kafka::{Event, EventRecord};
use crate::utils::NotFoundPolicy;

verus! {

/// Which list of a harvest report a resource was found in.
#[derive(Clone, Copy, Debug, PartialEq, Eq, Structural)]
pub enum ChangeType {
    CreateOrUpdate,
    Remove,
}

/// The queue side of a deployed pipeline.
pub struct ResourceConfig {
    /// The name of the queue, and of the consumer on it.
    pub consumer_name: String,
    /// The routing keys that the queue is bound with.
    pub routing_keys: Vec<String>,
    /// What happens to a resource that the upstream API does not know.
    pub not_found: NotFoundPolicy,
}

/// The log side of a deployed pipeline.
#[derive(Clone, Debug)]
pub struct EventConfig {
    /// The fully qualified name of the event schema.
    pub name: String,
    /// The log topic that events are written to.
    pub topic: String,
    /// The wire schema document.
    pub schema: String,
}

/// The base URLs of the upstream APIs that serve resource content.
#[derive(Clone, Debug)]
pub struct ApiUrls {
    pub harvester: String,
    pub reasoning: String,
}

/// The view of a fetch decision: a URL to fetch, or none.
pub open spec fn source_view(r: Result<Option<String>, Error>) -> Result<Option<Seq<char>>, Error> {
    match r {
        Ok(Some(url)) => Ok(Some(url@)),
        Ok(None) => Ok(None),
        Err(e) => Err(e),
    }
}

/// A kind of resource: the routing keys it handles, where the content of its
/// events comes from, and how its events are built.
///
/// Resolving a resource takes three steps: the event type follows from the
/// routing key and the change; the event type decides whether content is
/// fetched, and from where; the event is then built from the content.
pub trait Resource {
    type EventType: Copy;

    type Event: Event;

    spec fn spec_event_type(routing_key: Seq<char>, change: ChangeType) -> Result<Self::EventType, Error>;

    spec fn spec_source(event_type: Self::EventType, apis: ApiUrls, id: Seq<char>) -> Result<Option<Seq<char>>, Error>;

    spec fn spec_event(event_type: Self::EventType, id: Seq<char>, graph: Seq<char>, timestamp: i64) -> EventRecord;

    /// The event type of a change delivered under `routing_key`.
    fn event_type(routing_key: &str, change: ChangeType) -> (r: Result<Self::EventType, Error>)
        ensures
            r == Self::spec_event_type(routing_key@, change),
    ;

    /// The URL that the content of an event of `event_type` is fetched
    /// from, or none when the event carries no content.
    fn source(event_type: Self::EventType, apis: &ApiUrls, id: &str) -> (r: Result<Option<String>, Error>)
        ensures
            source_view(r) == Self::spec_source(event_type, *apis, id@),
    ;

    /// Builds the event of a resource from its content.
    fn event(event_type: Self::EventType, id: String, graph: String, timestamp: i64) -> (r: Self::Event)
        ensures
            r.record() == Self::spec_event(event_type, id@, graph@, timestamp),
    ;

    /// A removed resource always has an event type, and its event carries
    /// no content, so nothing is fetched for it.
    proof fn lemma_remove_needs_no_content(routing_key: Seq<char>, apis: ApiUrls, id: Seq<char>)
        ensures
            Self::spec_event_type(routing_key, ChangeType::Remove) is Ok,
            Self::spec_source(Self::spec_event_type(routing_key, ChangeType::Remove)->Ok_0, apis, id) == Ok::<Option<Seq<char>>, Error>(None),
    ;

    /// An event carries the resource id, content and timestamp it was built from.
    proof fn lemma_event_fields(event_type: Self::EventType, id: Seq<char>, graph: Seq<char>, timestamp: i64)
        ensures
            Self::spec_event(event_type, id, graph, timestamp).fdk_id == id,
            Self::spec_event(event_type, id, graph, timestamp).graph == graph,
            Self::spec_event(event_type, id, graph, timestamp).timestamp == timestamp,
    ;
}

/// The event type that resolving a change yields once its content source
/// is settled: an error when the routing key or the source is refused.
pub open spec fn spec_resolved_type<R: Resource>(routing_key: Seq<char>, change: ChangeType, apis: ApiUrls, id: Seq<char>) -> Result<R::EventType, Error> {
    match R::spec_event_type(routing_key, change) {
        Err(e) => Err(e),
        Ok(t) => match R::spec_source(t, apis, id) {
            Err(e) => Err(e),
            Ok(_) => Ok(t),
        },
    }
}

} // verus!
