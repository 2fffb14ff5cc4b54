use vstd::prelude::*;

use crate::error::Error;
use crate::kafka::{Event, EventRecord, WireEvent};
use crate::utils::str_eq;
use crate::{spec_resolved_type, ApiUrls, ChangeType, Resource};

verus! {

/// Events (the resource kind): only harvested ones are handled, with content and catalog records from the harvester API.
pub struct EventResource {}

/// The event types of events.
#[derive(Clone, Copy, Debug, PartialEq, Eq, Structural)]
pub enum EventEventType {
    EventHarvested,
    EventReasoned,
    EventRemoved,
}

impl EventEventType {
    /// The event type that a created or updated event resource gets under a routing key.
    pub open spec fn spec_from_routing_key(routing_key: Seq<char>) -> Result<Self, Error> {
        if routing_key == "events.harvested"@ {
            Ok(Self::EventHarvested)
        } else if routing_key == "events.reasoned"@ {
            Ok(Self::EventReasoned)
        } else {
            Err(Error::UnknownRoutingKey)
        }
    }

    pub fn from_routing_key(routing_key: &str) -> (r: Result<Self, Error>)
        ensures
            r == Self::spec_from_routing_key(routing_key@),
    {
        if str_eq(routing_key, "events.harvested") {
            Ok(Self::EventHarvested)
        } else if str_eq(routing_key, "events.reasoned") {
            Ok(Self::EventReasoned)
        } else {
            Err(Error::UnknownRoutingKey)
        }
    }

    /// The symbol of the event type in the wire schema.
    pub open spec fn spec_symbol(self) -> Seq<char> {
        match self {
            Self::EventHarvested => "EVENT_HARVESTED"@,
            Self::EventReasoned => "EVENT_REASONED"@,
            Self::EventRemoved => "EVENT_REMOVED"@,
        }
    }

    pub fn symbol(&self) -> (r: &'static str)
        ensures
            r@ == self.spec_symbol(),
    {
        match self {
            Self::EventHarvested => "EVENT_HARVESTED",
            Self::EventReasoned => "EVENT_REASONED",
            Self::EventRemoved => "EVENT_REMOVED",
        }
    }

    /// The event type that a wire symbol stands for.
    pub open spec fn spec_from_symbol(symbol: Seq<char>) -> Option<Self> {
        if symbol == "EVENT_HARVESTED"@ {
            Some(Self::EventHarvested)
        } else if symbol == "EVENT_REASONED"@ {
            Some(Self::EventReasoned)
        } else if symbol == "EVENT_REMOVED"@ {
            Some(Self::EventRemoved)
        } else {
            None
        }
    }

    pub fn from_symbol(symbol: &str) -> (r: Option<Self>)
        ensures
            r == Self::spec_from_symbol(symbol@),
    {
        if str_eq(symbol, "EVENT_HARVESTED") {
            Some(Self::EventHarvested)
        } else if str_eq(symbol, "EVENT_REASONED") {
            Some(Self::EventReasoned)
        } else if str_eq(symbol, "EVENT_REMOVED") {
            Some(Self::EventRemoved)
        } else {
            None
        }
    }
}

/// Every event type is read back from its own symbol.
pub proof fn lemma_event_symbol_round_trip(t: EventEventType)
    ensures
        EventEventType::spec_from_symbol(t.spec_symbol()) == Some(t),
{
    reveal_strlit("EVENT_HARVESTED");
    reveal_strlit("EVENT_REASONED");
    reveal_strlit("EVENT_REMOVED");
    assert("EVENT_HARVESTED"@.len() != "EVENT_REASONED"@.len());
    assert("EVENT_HARVESTED"@.len() != "EVENT_REMOVED"@.len());
    assert("EVENT_REASONED"@.len() != "EVENT_REMOVED"@.len());
}

/// An event about a event resource.
#[derive(Debug)]
pub struct EventEvent {
    pub event_type: EventEventType,
    pub fdk_id: String,
    pub graph: String,
    pub timestamp: i64,
}

impl EventEvent {
    /// Reads an event back from its wire form; none when the symbol names no
    /// event type of events.
    pub fn from_wire(wire: &WireEvent) -> (r: Option<EventEvent>)
        ensures
            r is Some <==> EventEventType::spec_from_symbol(wire.event_type@) is Some,
            r is Some ==> r->Some_0.event_type == EventEventType::spec_from_symbol(wire.event_type@)->Some_0
                && r->Some_0.record() == wire@,
    {
        match EventEventType::from_symbol(wire.event_type.as_str()) {
            Some(event_type) => {
                proof {
                    lemma_event_symbol_round_trip(event_type);
                }
                Some(EventEvent {
                    event_type,
                    fdk_id: wire.fdk_id.clone(),
                    graph: wire.graph.clone(),
                    timestamp: wire.timestamp,
                })
            },
            None => None,
        }
    }
}

impl Event for EventEvent {
    open spec fn record(&self) -> EventRecord {
        EventRecord {
            event_type: self.event_type.spec_symbol(),
            fdk_id: self.fdk_id@,
            graph: self.graph@,
            timestamp: self.timestamp,
        }
    }

    fn key(&self) -> (r: String) {
        self.fdk_id.clone()
    }

    fn to_wire(&self) -> (r: WireEvent) {
        WireEvent {
            event_type: self.event_type.symbol().to_owned(),
            fdk_id: self.fdk_id.clone(),
            graph: self.graph.clone(),
            timestamp: self.timestamp,
        }
    }
}

/// An event read back from the wire form of a event resource event has the same
/// field values as the event.
pub proof fn lemma_event_wire_round_trip(e: EventEvent, wire: WireEvent)
    requires
        wire@ == e.record(),
    ensures
        EventEventType::spec_from_symbol(wire.event_type@) == Some(e.event_type),
        wire.fdk_id@ == e.fdk_id@,
        wire.graph@ == e.graph@,
        wire.timestamp == e.timestamp,
{
    lemma_event_symbol_round_trip(e.event_type);
}

impl Resource for EventResource {
    type EventType = EventEventType;

    type Event = EventEvent;

    open spec fn spec_event_type(routing_key: Seq<char>, change: ChangeType) -> Result<EventEventType, Error> {
        match change {
            ChangeType::CreateOrUpdate => EventEventType::spec_from_routing_key(routing_key),
            ChangeType::Remove => Ok(EventEventType::EventRemoved),
        }
    }

    open spec fn spec_source(event_type: EventEventType, apis: ApiUrls, id: Seq<char>) -> Result<Option<Seq<char>>, Error> {
        match event_type {
            EventEventType::EventHarvested => Ok(Some(apis.harvester@ + "/events/"@ + id + "?catalogrecords=true"@)),
            EventEventType::EventReasoned => Err(Error::UnknownRoutingKey),
            EventEventType::EventRemoved => Ok(None),
        }
    }

    open spec fn spec_event(event_type: EventEventType, id: Seq<char>, graph: Seq<char>, timestamp: i64) -> EventRecord {
        EventRecord { event_type: event_type.spec_symbol(), fdk_id: id, graph, timestamp }
    }

    fn event_type(routing_key: &str, change: ChangeType) -> (r: Result<EventEventType, Error>) {
        match change {
            ChangeType::CreateOrUpdate => EventEventType::from_routing_key(routing_key),
            ChangeType::Remove => Ok(EventEventType::EventRemoved),
        }
    }

    fn source(event_type: EventEventType, apis: &ApiUrls, id: &str) -> (r: Result<Option<String>, Error>) {
        match event_type {
            EventEventType::EventHarvested => {
                let mut url = apis.harvester.clone();
                url.append("/events/");
                url.append(id);
                url.append("?catalogrecords=true");
                Ok(Some(url))
            },
            // reasoned content is not published for this kind
            EventEventType::EventReasoned => Err(Error::UnknownRoutingKey),
            EventEventType::EventRemoved => Ok(None),
        }
    }

    fn event(event_type: EventEventType, id: String, graph: String, timestamp: i64) -> (r: EventEvent) {
        EventEvent { event_type, fdk_id: id, graph, timestamp }
    }

    proof fn lemma_remove_needs_no_content(routing_key: Seq<char>, apis: ApiUrls, id: Seq<char>) {
    }

    proof fn lemma_event_fields(event_type: Self::EventType, id: Seq<char>, graph: Seq<char>, timestamp: i64) {
    }
}

/// Resolving a created or updated resource under the harvested routing key
/// gives the harvested event type; under any other routing key, the reasoned
/// one included, it fails.
pub proof fn lemma_event_routing(routing_key: Seq<char>, apis: ApiUrls, id: Seq<char>)
    ensures
        routing_key == "events.harvested"@ ==> spec_resolved_type::<EventResource>(routing_key, ChangeType::CreateOrUpdate, apis, id)
            == Ok::<EventEventType, Error>(EventEventType::EventHarvested),
        routing_key != "events.harvested"@
            ==> spec_resolved_type::<EventResource>(routing_key, ChangeType::CreateOrUpdate, apis, id)
            == Err::<EventEventType, Error>(Error::UnknownRoutingKey),
{
}

} // verus!
