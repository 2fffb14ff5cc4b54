use vstd::prelude::*;

use crate::error::Error;
use crate::kafka::{Event, EventRecord, WireEvent};
use crate::utils::str_eq;
use crate::{spec_resolved_type, ApiUrls, ChangeType, Resource};

verus! {

/// Concepts: harvested and reasoned, with content from both upstream APIs.
pub struct Concept {}

/// The event types of concepts.
#[derive(Clone, Copy, Debug, PartialEq, Eq, Structural)]
pub enum ConceptEventType {
    ConceptHarvested,
    ConceptReasoned,
    ConceptRemoved,
}

impl ConceptEventType {
    /// The event type that a created or updated concept gets under a routing key.
    pub open spec fn spec_from_routing_key(routing_key: Seq<char>) -> Result<Self, Error> {
        if routing_key == "concepts.harvested"@ {
            Ok(Self::ConceptHarvested)
        } else if routing_key == "concepts.reasoned"@ {
            Ok(Self::ConceptReasoned)
        } else {
            Err(Error::UnknownRoutingKey)
        }
    }

    pub fn from_routing_key(routing_key: &str) -> (r: Result<Self, Error>)
        ensures
            r == Self::spec_from_routing_key(routing_key@),
    {
        if str_eq(routing_key, "concepts.harvested") {
            Ok(Self::ConceptHarvested)
        } else if str_eq(routing_key, "concepts.reasoned") {
            Ok(Self::ConceptReasoned)
        } else {
            Err(Error::UnknownRoutingKey)
        }
    }

    /// The symbol of the event type in the wire schema.
    pub open spec fn spec_symbol(self) -> Seq<char> {
        match self {
            Self::ConceptHarvested => "CONCEPT_HARVESTED"@,
            Self::ConceptReasoned => "CONCEPT_REASONED"@,
            Self::ConceptRemoved => "CONCEPT_REMOVED"@,
        }
    }

    pub fn symbol(&self) -> (r: &'static str)
        ensures
            r@ == self.spec_symbol(),
    {
        match self {
            Self::ConceptHarvested => "CONCEPT_HARVESTED",
            Self::ConceptReasoned => "CONCEPT_REASONED",
            Self::ConceptRemoved => "CONCEPT_REMOVED",
        }
    }

    /// The event type that a wire symbol stands for.
    pub open spec fn spec_from_symbol(symbol: Seq<char>) -> Option<Self> {
        if symbol == "CONCEPT_HARVESTED"@ {
            Some(Self::ConceptHarvested)
        } else if symbol == "CONCEPT_REASONED"@ {
            Some(Self::ConceptReasoned)
        } else if symbol == "CONCEPT_REMOVED"@ {
            Some(Self::ConceptRemoved)
        } else {
            None
        }
    }

    pub fn from_symbol(symbol: &str) -> (r: Option<Self>)
        ensures
            r == Self::spec_from_symbol(symbol@),
    {
        if str_eq(symbol, "CONCEPT_HARVESTED") {
            Some(Self::ConceptHarvested)
        } else if str_eq(symbol, "CONCEPT_REASONED") {
            Some(Self::ConceptReasoned)
        } else if str_eq(symbol, "CONCEPT_REMOVED") {
            Some(Self::ConceptRemoved)
        } else {
            None
        }
    }
}

/// Every event type is read back from its own symbol.
pub proof fn lemma_concept_symbol_round_trip(t: ConceptEventType)
    ensures
        ConceptEventType::spec_from_symbol(t.spec_symbol()) == Some(t),
{
    reveal_strlit("CONCEPT_HARVESTED");
    reveal_strlit("CONCEPT_REASONED");
    reveal_strlit("CONCEPT_REMOVED");
    assert("CONCEPT_HARVESTED"@.len() != "CONCEPT_REASONED"@.len());
    assert("CONCEPT_HARVESTED"@.len() != "CONCEPT_REMOVED"@.len());
    assert("CONCEPT_REASONED"@.len() != "CONCEPT_REMOVED"@.len());
}

/// An event about a concept.
#[derive(Debug)]
pub struct ConceptEvent {
    pub event_type: ConceptEventType,
    pub fdk_id: String,
    pub graph: String,
    pub timestamp: i64,
}

impl ConceptEvent {
    /// Reads an event back from its wire form; none when the symbol names no
    /// event type of concepts.
    pub fn from_wire(wire: &WireEvent) -> (r: Option<ConceptEvent>)
        ensures
            r is Some <==> ConceptEventType::spec_from_symbol(wire.event_type@) is Some,
            r is Some ==> r->Some_0.event_type == ConceptEventType::spec_from_symbol(wire.event_type@)->Some_0
                && r->Some_0.record() == wire@,
    {
        match ConceptEventType::from_symbol(wire.event_type.as_str()) {
            Some(event_type) => {
                proof {
                    lemma_concept_symbol_round_trip(event_type);
                }
                Some(ConceptEvent {
                    event_type,
                    fdk_id: wire.fdk_id.clone(),
                    graph: wire.graph.clone(),
                    timestamp: wire.timestamp,
                })
            },
            None => None,
        }
    }
}

impl Event for ConceptEvent {
    open spec fn record(&self) -> EventRecord {
        EventRecord {
            event_type: self.event_type.spec_symbol(),
            fdk_id: self.fdk_id@,
            graph: self.graph@,
            timestamp: self.timestamp,
        }
    }

    fn key(&self) -> (r: String) {
        self.fdk_id.clone()
    }

    fn to_wire(&self) -> (r: WireEvent) {
        WireEvent {
            event_type: self.event_type.symbol().to_owned(),
            fdk_id: self.fdk_id.clone(),
            graph: self.graph.clone(),
            timestamp: self.timestamp,
        }
    }
}

/// An event read back from the wire form of a concept event has the same
/// field values as the event.
pub proof fn lemma_concept_wire_round_trip(e: ConceptEvent, wire: WireEvent)
    requires
        wire@ == e.record(),
    ensures
        ConceptEventType::spec_from_symbol(wire.event_type@) == Some(e.event_type),
        wire.fdk_id@ == e.fdk_id@,
        wire.graph@ == e.graph@,
        wire.timestamp == e.timestamp,
{
    lemma_concept_symbol_round_trip(e.event_type);
}

impl Resource for Concept {
    type EventType = ConceptEventType;

    type Event = ConceptEvent;

    open spec fn spec_event_type(routing_key: Seq<char>, change: ChangeType) -> Result<ConceptEventType, Error> {
        match change {
            ChangeType::CreateOrUpdate => ConceptEventType::spec_from_routing_key(routing_key),
            ChangeType::Remove => Ok(ConceptEventType::ConceptRemoved),
        }
    }

    open spec fn spec_source(event_type: ConceptEventType, apis: ApiUrls, id: Seq<char>) -> Result<Option<Seq<char>>, Error> {
        match event_type {
            ConceptEventType::ConceptHarvested => Ok(Some(apis.harvester@ + "/concepts/"@ + id)),
            ConceptEventType::ConceptReasoned => Ok(Some(apis.reasoning@ + "/concepts/"@ + id)),
            ConceptEventType::ConceptRemoved => Ok(None),
        }
    }

    open spec fn spec_event(event_type: ConceptEventType, id: Seq<char>, graph: Seq<char>, timestamp: i64) -> EventRecord {
        EventRecord { event_type: event_type.spec_symbol(), fdk_id: id, graph, timestamp }
    }

    fn event_type(routing_key: &str, change: ChangeType) -> (r: Result<ConceptEventType, Error>) {
        match change {
            ChangeType::CreateOrUpdate => ConceptEventType::from_routing_key(routing_key),
            ChangeType::Remove => Ok(ConceptEventType::ConceptRemoved),
        }
    }

    fn source(event_type: ConceptEventType, apis: &ApiUrls, id: &str) -> (r: Result<Option<String>, Error>) {
        let mut url = match event_type {
            ConceptEventType::ConceptHarvested => apis.harvester.clone(),
            ConceptEventType::ConceptReasoned => apis.reasoning.clone(),
            ConceptEventType::ConceptRemoved => {
                return Ok(None);
            },
        };
        url.append("/concepts/");
        url.append(id);
        Ok(Some(url))
    }

    fn event(event_type: ConceptEventType, id: String, graph: String, timestamp: i64) -> (r: ConceptEvent) {
        ConceptEvent { event_type, fdk_id: id, graph, timestamp }
    }

    proof fn lemma_remove_needs_no_content(routing_key: Seq<char>, apis: ApiUrls, id: Seq<char>) {
    }

    proof fn lemma_event_fields(event_type: Self::EventType, id: Seq<char>, graph: Seq<char>, timestamp: i64) {
    }
}

/// Resolving a created or updated resource under one of the two routing keys
/// gives its event type; under any other routing key it fails.
pub proof fn lemma_concept_routing(routing_key: Seq<char>, apis: ApiUrls, id: Seq<char>)
    ensures
        routing_key == "concepts.harvested"@ ==> spec_resolved_type::<Concept>(routing_key, ChangeType::CreateOrUpdate, apis, id)
            == Ok::<ConceptEventType, Error>(ConceptEventType::ConceptHarvested),
        routing_key == "concepts.reasoned"@ ==> spec_resolved_type::<Concept>(routing_key, ChangeType::CreateOrUpdate, apis, id)
            == Ok::<ConceptEventType, Error>(ConceptEventType::ConceptReasoned),
        routing_key != "concepts.harvested"@ && routing_key != "concepts.reasoned"@
            ==> spec_resolved_type::<Concept>(routing_key, ChangeType::CreateOrUpdate, apis, id)
            == Err::<ConceptEventType, Error>(Error::UnknownRoutingKey),
{
    reveal_strlit("concepts.harvested");
    reveal_strlit("concepts.reasoned");
    assert("concepts.harvested"@.len() != "concepts.reasoned"@.len());
}

} // verus!
