use vstd::prelude::*;

use crate::error::Error;
use crate::kafka::{Event, EventRecord, WireEvent};
use crate::utils::str_eq;
use crate::{spec_resolved_type, ApiUrls, ChangeType, Resource};

verus! {

/// Data services: harvested and reasoned, with content from both upstream APIs.
pub struct DataService {}

/// The event types of dataservices.
#[derive(Clone, Copy, Debug, PartialEq, Eq, Structural)]
pub enum DataServiceEventType {
    DataServiceHarvested,
    DataServiceReasoned,
    DataServiceRemoved,
}

impl DataServiceEventType {
    /// The event type that a created or updated data service gets under a routing key.
    pub open spec fn spec_from_routing_key(routing_key: Seq<char>) -> Result<Self, Error> {
        if routing_key == "dataservices.harvested"@ {
            Ok(Self::DataServiceHarvested)
        } else if routing_key == "dataservices.reasoned"@ {
            Ok(Self::DataServiceReasoned)
        } else {
            Err(Error::UnknownRoutingKey)
        }
    }

    pub fn from_routing_key(routing_key: &str) -> (r: Result<Self, Error>)
        ensures
            r == Self::spec_from_routing_key(routing_key@),
    {
        if str_eq(routing_key, "dataservices.harvested") {
            Ok(Self::DataServiceHarvested)
        } else if str_eq(routing_key, "dataservices.reasoned") {
            Ok(Self::DataServiceReasoned)
        } else {
            Err(Error::UnknownRoutingKey)
        }
    }

    /// The symbol of the event type in the wire schema.
    pub open spec fn spec_symbol(self) -> Seq<char> {
        match self {
            Self::DataServiceHarvested => "DATA_SERVICE_HARVESTED"@,
            Self::DataServiceReasoned => "DATA_SERVICE_REASONED"@,
            Self::DataServiceRemoved => "DATA_SERVICE_REMOVED"@,
        }
    }

    pub fn symbol(&self) -> (r: &'static str)
        ensures
            r@ == self.spec_symbol(),
    {
        match self {
            Self::DataServiceHarvested => "DATA_SERVICE_HARVESTED",
            Self::DataServiceReasoned => "DATA_SERVICE_REASONED",
            Self::DataServiceRemoved => "DATA_SERVICE_REMOVED",
        }
    }

    /// The event type that a wire symbol stands for.
    pub open spec fn spec_from_symbol(symbol: Seq<char>) -> Option<Self> {
        if symbol == "DATA_SERVICE_HARVESTED"@ {
            Some(Self::DataServiceHarvested)
        } else if symbol == "DATA_SERVICE_REASONED"@ {
            Some(Self::DataServiceReasoned)
        } else if symbol == "DATA_SERVICE_REMOVED"@ {
            Some(Self::DataServiceRemoved)
        } else {
            None
        }
    }

    pub fn from_symbol(symbol: &str) -> (r: Option<Self>)
        ensures
            r == Self::spec_from_symbol(symbol@),
    {
        if str_eq(symbol, "DATA_SERVICE_HARVESTED") {
            Some(Self::DataServiceHarvested)
        } else if str_eq(symbol, "DATA_SERVICE_REASONED") {
            Some(Self::DataServiceReasoned)
        } else if str_eq(symbol, "DATA_SERVICE_REMOVED") {
            Some(Self::DataServiceRemoved)
        } else {
            None
        }
    }
}

/// Every event type is read back from its own symbol.
pub proof fn lemma_data_service_symbol_round_trip(t: DataServiceEventType)
    ensures
        DataServiceEventType::spec_from_symbol(t.spec_symbol()) == Some(t),
{
    reveal_strlit("DATA_SERVICE_HARVESTED");
    reveal_strlit("DATA_SERVICE_REASONED");
    reveal_strlit("DATA_SERVICE_REMOVED");
    assert("DATA_SERVICE_HARVESTED"@.len() != "DATA_SERVICE_REASONED"@.len());
    assert("DATA_SERVICE_HARVESTED"@.len() != "DATA_SERVICE_REMOVED"@.len());
    assert("DATA_SERVICE_REASONED"@.len() != "DATA_SERVICE_REMOVED"@.len());
}

/// An event about a data service.
#[derive(Debug)]
pub struct DataServiceEvent {
    pub event_type: DataServiceEventType,
    pub fdk_id: String,
    pub graph: String,
    pub timestamp: i64,
}

impl DataServiceEvent {
    /// Reads an event back from its wire form; none when the symbol names no
    /// event type of dataservices.
    pub fn from_wire(wire: &WireEvent) -> (r: Option<DataServiceEvent>)
        ensures
            r is Some <==> DataServiceEventType::spec_from_symbol(wire.event_type@) is Some,
            r is Some ==> r->Some_0.event_type == DataServiceEventType::spec_from_symbol(wire.event_type@)->Some_0
                && r->Some_0.record() == wire@,
    {
        match DataServiceEventType::from_symbol(wire.event_type.as_str()) {
            Some(event_type) => {
                proof {
                    lemma_data_service_symbol_round_trip(event_type);
                }
                Some(DataServiceEvent {
                    event_type,
                    fdk_id: wire.fdk_id.clone(),
                    graph: wire.graph.clone(),
                    timestamp: wire.timestamp,
                })
            },
            None => None,
        }
    }
}

impl Event for DataServiceEvent {
    open spec fn record(&self) -> EventRecord {
        EventRecord {
            event_type: self.event_type.spec_symbol(),
            fdk_id: self.fdk_id@,
            graph: self.graph@,
            timestamp: self.timestamp,
        }
    }

    fn key(&self) -> (r: String) {
        self.fdk_id.clone()
    }

    fn to_wire(&self) -> (r: WireEvent) {
        WireEvent {
            event_type: self.event_type.symbol().to_owned(),
            fdk_id: self.fdk_id.clone(),
            graph: self.graph.clone(),
            timestamp: self.timestamp,
        }
    }
}

/// An event read back from the wire form of a data service event has the same
/// field values as the event.
pub proof fn lemma_data_service_wire_round_trip(e: DataServiceEvent, wire: WireEvent)
    requires
        wire@ == e.record(),
    ensures
        DataServiceEventType::spec_from_symbol(wire.event_type@) == Some(e.event_type),
        wire.fdk_id@ == e.fdk_id@,
        wire.graph@ == e.graph@,
        wire.timestamp == e.timestamp,
{
    lemma_data_service_symbol_round_trip(e.event_type);
}

impl Resource for DataService {
    type EventType = DataServiceEventType;

    type Event = DataServiceEvent;

    open spec fn spec_event_type(routing_key: Seq<char>, change: ChangeType) -> Result<DataServiceEventType, Error> {
        match change {
            ChangeType::CreateOrUpdate => DataServiceEventType::spec_from_routing_key(routing_key),
            ChangeType::Remove => Ok(DataServiceEventType::DataServiceRemoved),
        }
    }

    open spec fn spec_source(event_type: DataServiceEventType, apis: ApiUrls, id: Seq<char>) -> Result<Option<Seq<char>>, Error> {
        match event_type {
            DataServiceEventType::DataServiceHarvested => Ok(Some(apis.harvester@ + "/dataservices/"@ + id)),
            DataServiceEventType::DataServiceReasoned => Ok(Some(apis.reasoning@ + "/data-services/"@ + id)),
            DataServiceEventType::DataServiceRemoved => Ok(None),
        }
    }

    open spec fn spec_event(event_type: DataServiceEventType, id: Seq<char>, graph: Seq<char>, timestamp: i64) -> EventRecord {
        EventRecord { event_type: event_type.spec_symbol(), fdk_id: id, graph, timestamp }
    }

    fn event_type(routing_key: &str, change: ChangeType) -> (r: Result<DataServiceEventType, Error>) {
        match change {
            ChangeType::CreateOrUpdate => DataServiceEventType::from_routing_key(routing_key),
            ChangeType::Remove => Ok(DataServiceEventType::DataServiceRemoved),
        }
    }

    fn source(event_type: DataServiceEventType, apis: &ApiUrls, id: &str) -> (r: Result<Option<String>, Error>) {
        match event_type {
            DataServiceEventType::DataServiceHarvested => {
                let mut url = apis.harvester.clone();
                url.append("/dataservices/");
                url.append(id);
                Ok(Some(url))
            },
            DataServiceEventType::DataServiceReasoned => {
                let mut url = apis.reasoning.clone();
                url.append("/data-services/");
                url.append(id);
                Ok(Some(url))
            },
            DataServiceEventType::DataServiceRemoved => Ok(None),
        }
    }

    fn event(event_type: DataServiceEventType, id: String, graph: String, timestamp: i64) -> (r: DataServiceEvent) {
        DataServiceEvent { event_type, fdk_id: id, graph, timestamp }
    }

    proof fn lemma_remove_needs_no_content(routing_key: Seq<char>, apis: ApiUrls, id: Seq<char>) {
    }

    proof fn lemma_event_fields(event_type: Self::EventType, id: Seq<char>, graph: Seq<char>, timestamp: i64) {
    }
}

/// Resolving a created or updated resource under one of the two routing keys
/// gives its event type; under any other routing key it fails.
pub proof fn lemma_data_service_routing(routing_key: Seq<char>, apis: ApiUrls, id: Seq<char>)
    ensures
        routing_key == "dataservices.harvested"@ ==> spec_resolved_type::<DataService>(routing_key, ChangeType::CreateOrUpdate, apis, id)
            == Ok::<DataServiceEventType, Error>(DataServiceEventType::DataServiceHarvested),
        routing_key == "dataservices.reasoned"@ ==> spec_resolved_type::<DataService>(routing_key, ChangeType::CreateOrUpdate, apis, id)
            == Ok::<DataServiceEventType, Error>(DataServiceEventType::DataServiceReasoned),
        routing_key != "dataservices.harvested"@ && routing_key != "dataservices.reasoned"@
            ==> spec_resolved_type::<DataService>(routing_key, ChangeType::CreateOrUpdate, apis, id)
            == Err::<DataServiceEventType, Error>(Error::UnknownRoutingKey),
{
    reveal_strlit("dataservices.harvested");
    reveal_strlit("dataservices.reasoned");
    assert("dataservices.harvested"@.len() != "dataservices.reasoned"@.len());
}

} // verus!
