use vstd::prelude::*;

use crate::error::Error;
use crate::kafka::{Event, EventRecord, WireEvent};
use crate::utils::str_eq;
use crate::{spec_resolved_type, ApiUrls, ChangeType, Resource};

verus! {

/// Public services: only harvested ones are handled, with content and catalog records from the harvester API.
pub struct Service {}

/// The event types of public_services.
#[derive(Clone, Copy, Debug, PartialEq, Eq, Structural)]
pub enum ServiceEventType {
    ServiceHarvested,
    ServiceReasoned,
    ServiceRemoved,
}

impl ServiceEventType {
    /// The event type that a created or updated service gets under a routing key.
    pub open spec fn spec_from_routing_key(routing_key: Seq<char>) -> Result<Self, Error> {
        if routing_key == "public_services.harvested"@ {
            Ok(Self::ServiceHarvested)
        } else if routing_key == "public_services.reasoned"@ {
            Ok(Self::ServiceReasoned)
        } else {
            Err(Error::UnknownRoutingKey)
        }
    }

    pub fn from_routing_key(routing_key: &str) -> (r: Result<Self, Error>)
        ensures
            r == Self::spec_from_routing_key(routing_key@),
    {
        if str_eq(routing_key, "public_services.harvested") {
            Ok(Self::ServiceHarvested)
        } else if str_eq(routing_key, "public_services.reasoned") {
            Ok(Self::ServiceReasoned)
        } else {
            Err(Error::UnknownRoutingKey)
        }
    }

    /// The symbol of the event type in the wire schema.
    pub open spec fn spec_symbol(self) -> Seq<char> {
        match self {
            Self::ServiceHarvested => "SERVICE_HARVESTED"@,
            Self::ServiceReasoned => "SERVICE_REASONED"@,
            Self::ServiceRemoved => "SERVICE_REMOVED"@,
        }
    }

    pub fn symbol(&self) -> (r: &'static str)
        ensures
            r@ == self.spec_symbol(),
    {
        match self {
            Self::ServiceHarvested => "SERVICE_HARVESTED",
            Self::ServiceReasoned => "SERVICE_REASONED",
            Self::ServiceRemoved => "SERVICE_REMOVED",
        }
    }

    /// The event type that a wire symbol stands for.
    pub open spec fn spec_from_symbol(symbol: Seq<char>) -> Option<Self> {
        if symbol == "SERVICE_HARVESTED"@ {
            Some(Self::ServiceHarvested)
        } else if symbol == "SERVICE_REASONED"@ {
            Some(Self::ServiceReasoned)
        } else if symbol == "SERVICE_REMOVED"@ {
            Some(Self::ServiceRemoved)
        } else {
            None
        }
    }

    pub fn from_symbol(symbol: &str) -> (r: Option<Self>)
        ensures
            r == Self::spec_from_symbol(symbol@),
    {
        if str_eq(symbol, "SERVICE_HARVESTED") {
            Some(Self::ServiceHarvested)
        } else if str_eq(symbol, "SERVICE_REASONED") {
            Some(Self::ServiceReasoned)
        } else if str_eq(symbol, "SERVICE_REMOVED") {
            Some(Self::ServiceRemoved)
        } else {
            None
        }
    }
}

/// Every event type is read back from its own symbol.
pub proof fn lemma_service_symbol_round_trip(t: ServiceEventType)
    ensures
        ServiceEventType::spec_from_symbol(t.spec_symbol()) == Some(t),
{
    reveal_strlit("SERVICE_HARVESTED");
    reveal_strlit("SERVICE_REASONED");
    reveal_strlit("SERVICE_REMOVED");
    assert("SERVICE_HARVESTED"@.len() != "SERVICE_REASONED"@.len());
    assert("SERVICE_HARVESTED"@.len() != "SERVICE_REMOVED"@.len());
    assert("SERVICE_REASONED"@.len() != "SERVICE_REMOVED"@.len());
}

/// An event about a service.
#[derive(Debug)]
pub struct ServiceEvent {
    pub event_type: ServiceEventType,
    pub fdk_id: String,
    pub graph: String,
    pub timestamp: i64,
}

impl ServiceEvent {
    /// Reads an event back from its wire form; none when the symbol names no
    /// event type of public_services.
    pub fn from_wire(wire: &WireEvent) -> (r: Option<ServiceEvent>)
        ensures
            r is Some <==> ServiceEventType::spec_from_symbol(wire.event_type@) is Some,
            r is Some ==> r->Some_0.event_type == ServiceEventType::spec_from_symbol(wire.event_type@)->Some_0
                && r->Some_0.record() == wire@,
    {
        match ServiceEventType::from_symbol(wire.event_type.as_str()) {
            Some(event_type) => {
                proof {
                    lemma_service_symbol_round_trip(event_type);
                }
                Some(ServiceEvent {
                    event_type,
                    fdk_id: wire.fdk_id.clone(),
                    graph: wire.graph.clone(),
                    timestamp: wire.timestamp,
                })
            },
            None => None,
        }
    }
}

impl Event for ServiceEvent {
    open spec fn record(&self) -> EventRecord {
        EventRecord {
            event_type: self.event_type.spec_symbol(),
            fdk_id: self.fdk_id@,
            graph: self.graph@,
            timestamp: self.timestamp,
        }
    }

    fn key(&self) -> (r: String) {
        self.fdk_id.clone()
    }

    fn to_wire(&self) -> (r: WireEvent) {
        WireEvent {
            event_type: self.event_type.symbol().to_owned(),
            fdk_id: self.fdk_id.clone(),
            graph: self.graph.clone(),
            timestamp: self.timestamp,
        }
    }
}

/// An event read back from the wire form of a service event has the same
/// field values as the event.
pub proof fn lemma_service_wire_round_trip(e: ServiceEvent, wire: WireEvent)
    requires
        wire@ == e.record(),
    ensures
        ServiceEventType::spec_from_symbol(wire.event_type@) == Some(e.event_type),
        wire.fdk_id@ == e.fdk_id@,
        wire.graph@ == e.graph@,
        wire.timestamp == e.timestamp,
{
    lemma_service_symbol_round_trip(e.event_type);
}

impl Resource for Service {
    type EventType = ServiceEventType;

    type Event = ServiceEvent;

    open spec fn spec_event_type(routing_key: Seq<char>, change: ChangeType) -> Result<ServiceEventType, Error> {
        match change {
            ChangeType::CreateOrUpdate => ServiceEventType::spec_from_routing_key(routing_key),
            ChangeType::Remove => Ok(ServiceEventType::ServiceRemoved),
        }
    }

    open spec fn spec_source(event_type: ServiceEventType, apis: ApiUrls, id: Seq<char>) -> Result<Option<Seq<char>>, Error> {
        match event_type {
            ServiceEventType::ServiceHarvested => Ok(Some(apis.harvester@ + "/public-services/"@ + id + "?catalogrecords=true"@)),
            ServiceEventType::ServiceReasoned => Err(Error::UnknownRoutingKey),
            ServiceEventType::ServiceRemoved => Ok(None),
        }
    }

    open spec fn spec_event(event_type: ServiceEventType, id: Seq<char>, graph: Seq<char>, timestamp: i64) -> EventRecord {
        EventRecord { event_type: event_type.spec_symbol(), fdk_id: id, graph, timestamp }
    }

    fn event_type(routing_key: &str, change: ChangeType) -> (r: Result<ServiceEventType, Error>) {
        match change {
            ChangeType::CreateOrUpdate => ServiceEventType::from_routing_key(routing_key),
            ChangeType::Remove => Ok(ServiceEventType::ServiceRemoved),
        }
    }

    fn source(event_type: ServiceEventType, apis: &ApiUrls, id: &str) -> (r: Result<Option<String>, Error>) {
        match event_type {
            ServiceEventType::ServiceHarvested => {
                let mut url = apis.harvester.clone();
                url.append("/public-services/");
                url.append(id);
                url.append("?catalogrecords=true");
                Ok(Some(url))
            },
            // reasoned content is not published for this kind
            ServiceEventType::ServiceReasoned => Err(Error::UnknownRoutingKey),
            ServiceEventType::ServiceRemoved => Ok(None),
        }
    }

    fn event(event_type: ServiceEventType, id: String, graph: String, timestamp: i64) -> (r: ServiceEvent) {
        ServiceEvent { event_type, fdk_id: id, graph, timestamp }
    }

    proof fn lemma_remove_needs_no_content(routing_key: Seq<char>, apis: ApiUrls, id: Seq<char>) {
    }

    proof fn lemma_event_fields(event_type: Self::EventType, id: Seq<char>, graph: Seq<char>, timestamp: i64) {
    }
}

/// Resolving a created or updated resource under the harvested routing key
/// gives the harvested event type; under any other routing key, the reasoned
/// one included, it fails.
pub proof fn lemma_service_routing(routing_key: Seq<char>, apis: ApiUrls, id: Seq<char>)
    ensures
        routing_key == "public_services.harvested"@ ==> spec_resolved_type::<Service>(routing_key, ChangeType::CreateOrUpdate, apis, id)
            == Ok::<ServiceEventType, Error>(ServiceEventType::ServiceHarvested),
        routing_key != "public_services.harvested"@
            ==> spec_resolved_type::<Service>(routing_key, ChangeType::CreateOrUpdate, apis, id)
            == Err::<ServiceEventType, Error>(Error::UnknownRoutingKey),
{
}

} // verus!
