use vstd::prelude::*;

use crate::error::Error;
use crate::kafka::{Event, EventRecord, WireEvent};
use crate::utils::str_eq;
use crate::{spec_resolved_type, ApiUrls, ChangeType, Resource};

verus! {

/// Information models: harvested and reasoned, with content from both upstream APIs.
pub struct InformationModel {}

/// The event types of informationmodels.
#[derive(Clone, Copy, Debug, PartialEq, Eq, Structural)]
pub enum InformationModelEventType {
    InformationModelHarvested,
    InformationModelReasoned,
    InformationModelRemoved,
}

impl InformationModelEventType {
    /// The event type that a created or updated information model gets under a routing key.
    pub open spec fn spec_from_routing_key(routing_key: Seq<char>) -> Result<Self, Error> {
        if routing_key == "informationmodels.harvested"@ {
            Ok(Self::InformationModelHarvested)
        } else if routing_key == "informationmodels.reasoned"@ {
            Ok(Self::InformationModelReasoned)
        } else {
            Err(Error::UnknownRoutingKey)
        }
    }

    pub fn from_routing_key(routing_key: &str) -> (r: Result<Self, Error>)
        ensures
            r == Self::spec_from_routing_key(routing_key@),
    {
        if str_eq(routing_key, "informationmodels.harvested") {
            Ok(Self::InformationModelHarvested)
        } else if str_eq(routing_key, "informationmodels.reasoned") {
            Ok(Self::InformationModelReasoned)
        } else {
            Err(Error::UnknownRoutingKey)
        }
    }

    /// The symbol of the event type in the wire schema.
    pub open spec fn spec_symbol(self) -> Seq<char> {
        match self {
            Self::InformationModelHarvested => "INFORMATION_MODEL_HARVESTED"@,
            Self::InformationModelReasoned => "INFORMATION_MODEL_REASONED"@,
            Self::InformationModelRemoved => "INFORMATION_MODEL_REMOVED"@,
        }
    }

    pub fn symbol(&self) -> (r: &'static str)
        ensures
            r@ == self.spec_symbol(),
    {
        match self {
            Self::InformationModelHarvested => "INFORMATION_MODEL_HARVESTED",
            Self::InformationModelReasoned => "INFORMATION_MODEL_REASONED",
            Self::InformationModelRemoved => "INFORMATION_MODEL_REMOVED",
        }
    }

    /// The event type that a wire symbol stands for.
    pub open spec fn spec_from_symbol(symbol: Seq<char>) -> Option<Self> {
        if symbol == "INFORMATION_MODEL_HARVESTED"@ {
            Some(Self::InformationModelHarvested)
        } else if symbol == "INFORMATION_MODEL_REASONED"@ {
            Some(Self::InformationModelReasoned)
        } else if symbol == "INFORMATION_MODEL_REMOVED"@ {
            Some(Self::InformationModelRemoved)
        } else {
            None
        }
    }

    pub fn from_symbol(symbol: &str) -> (r: Option<Self>)
        ensures
            r == Self::spec_from_symbol(symbol@),
    {
        if str_eq(symbol, "INFORMATION_MODEL_HARVESTED") {
            Some(Self::InformationModelHarvested)
        } else if str_eq(symbol, "INFORMATION_MODEL_REASONED") {
            Some(Self::InformationModelReasoned)
        } else if str_eq(symbol, "INFORMATION_MODEL_REMOVED") {
            Some(Self::InformationModelRemoved)
        } else {
            None
        }
    }
}

/// Every event type is read back from its own symbol.
pub proof fn lemma_information_model_symbol_round_trip(t: InformationModelEventType)
    ensures
        InformationModelEventType::spec_from_symbol(t.spec_symbol()) == Some(t),
{
    reveal_strlit("INFORMATION_MODEL_HARVESTED");
    reveal_strlit("INFORMATION_MODEL_REASONED");
    reveal_strlit("INFORMATION_MODEL_REMOVED");
    assert("INFORMATION_MODEL_HARVESTED"@.len() != "INFORMATION_MODEL_REASONED"@.len());
    assert("INFORMATION_MODEL_HARVESTED"@.len() != "INFORMATION_MODEL_REMOVED"@.len());
    assert("INFORMATION_MODEL_REASONED"@.len() != "INFORMATION_MODEL_REMOVED"@.len());
}

/// An event about a information model.
#[derive(Debug)]
pub struct InformationModelEvent {
    pub event_type: InformationModelEventType,
    pub fdk_id: String,
    pub graph: String,
    pub timestamp: i64,
}

impl InformationModelEvent {
    /// Reads an event back from its wire form; none when the symbol names no
    /// event type of informationmodels.
    pub fn from_wire(wire: &WireEvent) -> (r: Option<InformationModelEvent>)
        ensures
            r is Some <==> InformationModelEventType::spec_from_symbol(wire.event_type@) is Some,
            r is Some ==> r->Some_0.event_type == InformationModelEventType::spec_from_symbol(wire.event_type@)->Some_0
                && r->Some_0.record() == wire@,
    {
        match InformationModelEventType::from_symbol(wire.event_type.as_str()) {
            Some(event_type) => {
                proof {
                    lemma_information_model_symbol_round_trip(event_type);
                }
                Some(InformationModelEvent {
                    event_type,
                    fdk_id: wire.fdk_id.clone(),
                    graph: wire.graph.clone(),
                    timestamp: wire.timestamp,
                })
            },
            None => None,
        }
    }
}

impl Event for InformationModelEvent {
    open spec fn record(&self) -> EventRecord {
        EventRecord {
            event_type: self.event_type.spec_symbol(),
            fdk_id: self.fdk_id@,
            graph: self.graph@,
            timestamp: self.timestamp,
        }
    }

    fn key(&self) -> (r: String) {
        self.fdk_id.clone()
    }

    fn to_wire(&self) -> (r: WireEvent) {
        WireEvent {
            event_type: self.event_type.symbol().to_owned(),
            fdk_id: self.fdk_id.clone(),
            graph: self.graph.clone(),
            timestamp: self.timestamp,
        }
    }
}

/// An event read back from the wire form of a information model event has the same
/// field values as the event.
pub proof fn lemma_information_model_wire_round_trip(e: InformationModelEvent, wire: WireEvent)
    requires
        wire@ == e.record(),
    ensures
        InformationModelEventType::spec_from_symbol(wire.event_type@) == Some(e.event_type),
        wire.fdk_id@ == e.fdk_id@,
        wire.graph@ == e.graph@,
        wire.timestamp == e.timestamp,
{
    lemma_information_model_symbol_round_trip(e.event_type);
}

impl Resource for InformationModel {
    type EventType = InformationModelEventType;

    type Event = InformationModelEvent;

    open spec fn spec_event_type(routing_key: Seq<char>, change: ChangeType) -> Result<InformationModelEventType, Error> {
        match change {
            ChangeType::CreateOrUpdate => InformationModelEventType::spec_from_routing_key(routing_key),
            ChangeType::Remove => Ok(InformationModelEventType::InformationModelRemoved),
        }
    }

    open spec fn spec_source(event_type: InformationModelEventType, apis: ApiUrls, id: Seq<char>) -> Result<Option<Seq<char>>, Error> {
        match event_type {
            InformationModelEventType::InformationModelHarvested => Ok(Some(apis.harvester@ + "/informationmodels/"@ + id)),
            InformationModelEventType::InformationModelReasoned => Ok(Some(apis.reasoning@ + "/information-models/"@ + id)),
            InformationModelEventType::InformationModelRemoved => Ok(None),
        }
    }

    open spec fn spec_event(event_type: InformationModelEventType, id: Seq<char>, graph: Seq<char>, timestamp: i64) -> EventRecord {
        EventRecord { event_type: event_type.spec_symbol(), fdk_id: id, graph, timestamp }
    }

    fn event_type(routing_key: &str, change: ChangeType) -> (r: Result<InformationModelEventType, Error>) {
        match change {
            ChangeType::CreateOrUpdate => InformationModelEventType::from_routing_key(routing_key),
            ChangeType::Remove => Ok(InformationModelEventType::InformationModelRemoved),
        }
    }

    fn source(event_type: InformationModelEventType, apis: &ApiUrls, id: &str) -> (r: Result<Option<String>, Error>) {
        match event_type {
            InformationModelEventType::InformationModelHarvested => {
                let mut url = apis.harvester.clone();
                url.append("/informationmodels/");
                url.append(id);
                Ok(Some(url))
            },
            InformationModelEventType::InformationModelReasoned => {
                let mut url = apis.reasoning.clone();
                url.append("/information-models/");
                url.append(id);
                Ok(Some(url))
            },
            InformationModelEventType::InformationModelRemoved => Ok(None),
        }
    }

    fn event(event_type: InformationModelEventType, id: String, graph: String, timestamp: i64) -> (r: InformationModelEvent) {
        InformationModelEvent { event_type, fdk_id: id, graph, timestamp }
    }

    proof fn lemma_remove_needs_no_content(routing_key: Seq<char>, apis: ApiUrls, id: Seq<char>) {
    }

    proof fn lemma_event_fields(event_type: Self::EventType, id: Seq<char>, graph: Seq<char>, timestamp: i64) {
    }
}

/// Resolving a created or updated resource under one of the two routing keys
/// gives its event type; under any other routing key it fails.
pub proof fn lemma_information_model_routing(routing_key: Seq<char>, apis: ApiUrls, id: Seq<char>)
    ensures
        routing_key == "informationmodels.harvested"@ ==> spec_resolved_type::<InformationModel>(routing_key, ChangeType::CreateOrUpdate, apis, id)
            == Ok::<InformationModelEventType, Error>(InformationModelEventType::InformationModelHarvested),
        routing_key == "informationmodels.reasoned"@ ==> spec_resolved_type::<InformationModel>(routing_key, ChangeType::CreateOrUpdate, apis, id)
            == Ok::<InformationModelEventType, Error>(InformationModelEventType::InformationModelReasoned),
        routing_key != "informationmodels.harvested"@ && routing_key != "informationmodels.reasoned"@
            ==> spec_resolved_type::<InformationModel>(routing_key, ChangeType::CreateOrUpdate, apis, id)
            == Err::<InformationModelEventType, Error>(Error::UnknownRoutingKey),
{
    reveal_strlit("informationmodels.harvested");
    reveal_strlit("informationmodels.reasoned");
    assert("informationmodels.harvested"@.len() != "informationmodels.reasoned"@.len());
}

} // verus!
