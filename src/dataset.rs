use vstd::prelude::*;

use crate::error::Error;
use crate::kafka::{Event, EventRecord, WireEvent};
use crate::utils::str_eq;
use crate::{spec_resolved_type, ApiUrls, ChangeType, Resource};

verus! {

/// Datasets: only harvested ones are handled, with content and catalog records from the harvester API.
pub struct Dataset {}

/// The event types of datasets.
#[derive(Clone, Copy, Debug, PartialEq, Eq, Structural)]
pub enum DatasetEventType {
    DatasetHarvested,
    DatasetReasoned,
    DatasetRemoved,
}

impl DatasetEventType {
    /// The event type that a created or updated dataset gets under a routing key.
    pub open spec fn spec_from_routing_key(routing_key: Seq<char>) -> Result<Self, Error> {
        if routing_key == "datasets.harvested"@ {
            Ok(Self::DatasetHarvested)
        } else if routing_key == "datasets.reasoned"@ {
            Ok(Self::DatasetReasoned)
        } else {
            Err(Error::UnknownRoutingKey)
        }
    }

    pub fn from_routing_key(routing_key: &str) -> (r: Result<Self, Error>)
        ensures
            r == Self::spec_from_routing_key(routing_key@),
    {
        if str_eq(routing_key, "datasets.harvested") {
            Ok(Self::DatasetHarvested)
        } else if str_eq(routing_key, "datasets.reasoned") {
            Ok(Self::DatasetReasoned)
        } else {
            Err(Error::UnknownRoutingKey)
        }
    }

    /// The symbol of the event type in the wire schema.
    pub open spec fn spec_symbol(self) -> Seq<char> {
        match self {
            Self::DatasetHarvested => "DATASET_HARVESTED"@,
            Self::DatasetReasoned => "DATASET_REASONED"@,
            Self::DatasetRemoved => "DATASET_REMOVED"@,
        }
    }

    pub fn symbol(&self) -> (r: &'static str)
        ensures
            r@ == self.spec_symbol(),
    {
        match self {
            Self::DatasetHarvested => "DATASET_HARVESTED",
            Self::DatasetReasoned => "DATASET_REASONED",
            Self::DatasetRemoved => "DATASET_REMOVED",
        }
    }

    /// The event type that a wire symbol stands for.
    pub open spec fn spec_from_symbol(symbol: Seq<char>) -> Option<Self> {
        if symbol == "DATASET_HARVESTED"@ {
            Some(Self::DatasetHarvested)
        } else if symbol == "DATASET_REASONED"@ {
            Some(Self::DatasetReasoned)
        } else if symbol == "DATASET_REMOVED"@ {
            Some(Self::DatasetRemoved)
        } else {
            None
        }
    }

    pub fn from_symbol(symbol: &str) -> (r: Option<Self>)
        ensures
            r == Self::spec_from_symbol(symbol@),
    {
        if str_eq(symbol, "DATASET_HARVESTED") {
            Some(Self::DatasetHarvested)
        } else if str_eq(symbol, "DATASET_REASONED") {
            Some(Self::DatasetReasoned)
        } else if str_eq(symbol, "DATASET_REMOVED") {
            Some(Self::DatasetRemoved)
        } else {
            None
        }
    }
}

impl std::str::FromStr for DatasetEventType {
    type Err = Error;

    /// Reads the event type of a created or updated dataset from a routing key.
    fn from_str(s: &str) -> (r: Result<Self, Error>)
        ensures
            r == Self::spec_from_routing_key(s@),
    {
        Self::from_routing_key(s)
    }
}

/// Every event type is read back from its own symbol.
pub proof fn lemma_dataset_symbol_round_trip(t: DatasetEventType)
    ensures
        DatasetEventType::spec_from_symbol(t.spec_symbol()) == Some(t),
{
    reveal_strlit("DATASET_HARVESTED");
    reveal_strlit("DATASET_REASONED");
    reveal_strlit("DATASET_REMOVED");
    assert("DATASET_HARVESTED"@.len() != "DATASET_REASONED"@.len());
    assert("DATASET_HARVESTED"@.len() != "DATASET_REMOVED"@.len());
    assert("DATASET_REASONED"@.len() != "DATASET_REMOVED"@.len());
}

/// An event about a dataset.
#[derive(Debug)]
pub struct DatasetEvent {
    pub event_type: DatasetEventType,
    pub fdk_id: String,
    pub graph: String,
    pub timestamp: i64,
}

impl DatasetEvent {
    /// Reads an event back from its wire form; none when the symbol names no
    /// event type of datasets.
    pub fn from_wire(wire: &WireEvent) -> (r: Option<DatasetEvent>)
        ensures
            r is Some <==> DatasetEventType::spec_from_symbol(wire.event_type@) is Some,
            r is Some ==> r->Some_0.event_type == DatasetEventType::spec_from_symbol(wire.event_type@)->Some_0
                && r->Some_0.record() == wire@,
    {
        match DatasetEventType::from_symbol(wire.event_type.as_str()) {
            Some(event_type) => {
                proof {
                    lemma_dataset_symbol_round_trip(event_type);
                }
                Some(DatasetEvent {
                    event_type,
                    fdk_id: wire.fdk_id.clone(),
                    graph: wire.graph.clone(),
                    timestamp: wire.timestamp,
                })
            },
            None => None,
        }
    }
}

impl Event for DatasetEvent {
    open spec fn record(&self) -> EventRecord {
        EventRecord {
            event_type: self.event_type.spec_symbol(),
            fdk_id: self.fdk_id@,
            graph: self.graph@,
            timestamp: self.timestamp,
        }
    }

    fn key(&self) -> (r: String) {
        self.fdk_id.clone()
    }

    fn to_wire(&self) -> (r: WireEvent) {
        WireEvent {
            event_type: self.event_type.symbol().to_owned(),
            fdk_id: self.fdk_id.clone(),
            graph: self.graph.clone(),
            timestamp: self.timestamp,
        }
    }
}

/// An event read back from the wire form of a dataset event has the same
/// field values as the event.
pub proof fn lemma_dataset_wire_round_trip(e: DatasetEvent, wire: WireEvent)
    requires
        wire@ == e.record(),
    ensures
        DatasetEventType::spec_from_symbol(wire.event_type@) == Some(e.event_type),
        wire.fdk_id@ == e.fdk_id@,
        wire.graph@ == e.graph@,
        wire.timestamp == e.timestamp,
{
    lemma_dataset_symbol_round_trip(e.event_type);
}

impl Resource for Dataset {
    type EventType = DatasetEventType;

    type Event = DatasetEvent;

    open spec fn spec_event_type(routing_key: Seq<char>, change: ChangeType) -> Result<DatasetEventType, Error> {
        match change {
            ChangeType::CreateOrUpdate => DatasetEventType::spec_from_routing_key(routing_key),
            ChangeType::Remove => Ok(DatasetEventType::DatasetRemoved),
        }
    }

    open spec fn spec_source(event_type: DatasetEventType, apis: ApiUrls, id: Seq<char>) -> Result<Option<Seq<char>>, Error> {
        match event_type {
            DatasetEventType::DatasetHarvested => Ok(Some(apis.harvester@ + "/datasets/"@ + id + "?catalogrecords=true"@)),
            DatasetEventType::DatasetReasoned => Err(Error::UnknownRoutingKey),
            DatasetEventType::DatasetRemoved => Ok(None),
        }
    }

    open spec fn spec_event(event_type: DatasetEventType, id: Seq<char>, graph: Seq<char>, timestamp: i64) -> EventRecord {
        EventRecord { event_type: event_type.spec_symbol(), fdk_id: id, graph, timestamp }
    }

    fn event_type(routing_key: &str, change: ChangeType) -> (r: Result<DatasetEventType, Error>) {
        match change {
            ChangeType::CreateOrUpdate => DatasetEventType::from_routing_key(routing_key),
            ChangeType::Remove => Ok(DatasetEventType::DatasetRemoved),
        }
    }

    fn source(event_type: DatasetEventType, apis: &ApiUrls, id: &str) -> (r: Result<Option<String>, Error>) {
        match event_type {
            DatasetEventType::DatasetHarvested => {
                let mut url = apis.harvester.clone();
                url.append("/datasets/");
                url.append(id);
                url.append("?catalogrecords=true");
                Ok(Some(url))
            },
            // reasoned content is not published for this kind
            DatasetEventType::DatasetReasoned => Err(Error::UnknownRoutingKey),
            DatasetEventType::DatasetRemoved => Ok(None),
        }
    }

    fn event(event_type: DatasetEventType, id: String, graph: String, timestamp: i64) -> (r: DatasetEvent) {
        DatasetEvent { event_type, fdk_id: id, graph, timestamp }
    }

    proof fn lemma_remove_needs_no_content(routing_key: Seq<char>, apis: ApiUrls, id: Seq<char>) {
    }

    proof fn lemma_event_fields(event_type: Self::EventType, id: Seq<char>, graph: Seq<char>, timestamp: i64) {
    }
}

/// Resolving a created or updated resource under the harvested routing key
/// gives the harvested event type; under any other routing key, the reasoned
/// one included, it fails.
pub proof fn lemma_dataset_routing(routing_key: Seq<char>, apis: ApiUrls, id: Seq<char>)
    ensures
        routing_key == "datasets.harvested"@ ==> spec_resolved_type::<Dataset>(routing_key, ChangeType::CreateOrUpdate, apis, id)
            == Ok::<DatasetEventType, Error>(DatasetEventType::DatasetHarvested),
        routing_key != "datasets.harvested"@
            ==> spec_resolved_type::<Dataset>(routing_key, ChangeType::CreateOrUpdate, apis, id)
            == Err::<DatasetEventType, Error>(Error::UnknownRoutingKey),
{
}

/// Datasets, harvested and reasoned: the content of each comes from the
/// upstream API that the routing key names, without catalog records.
pub struct DatasetWithReasoning {}

impl Resource for DatasetWithReasoning {
    type EventType = DatasetEventType;

    type Event = DatasetEvent;

    open spec fn spec_event_type(routing_key: Seq<char>, change: ChangeType) -> Result<DatasetEventType, Error> {
        Dataset::spec_event_type(routing_key, change)
    }

    open spec fn spec_source(event_type: DatasetEventType, apis: ApiUrls, id: Seq<char>) -> Result<Option<Seq<char>>, Error> {
        match event_type {
            DatasetEventType::DatasetHarvested => Ok(Some(apis.harvester@ + "/datasets/"@ + id)),
            DatasetEventType::DatasetReasoned => Ok(Some(apis.reasoning@ + "/datasets/"@ + id)),
            DatasetEventType::DatasetRemoved => Ok(None),
        }
    }

    open spec fn spec_event(event_type: DatasetEventType, id: Seq<char>, graph: Seq<char>, timestamp: i64) -> EventRecord {
        Dataset::spec_event(event_type, id, graph, timestamp)
    }

    fn event_type(routing_key: &str, change: ChangeType) -> (r: Result<DatasetEventType, Error>) {
        Dataset::event_type(routing_key, change)
    }

    fn source(event_type: DatasetEventType, apis: &ApiUrls, id: &str) -> (r: Result<Option<String>, Error>) {
        let mut url = match event_type {
            DatasetEventType::DatasetHarvested => apis.harvester.clone(),
            DatasetEventType::DatasetReasoned => apis.reasoning.clone(),
            DatasetEventType::DatasetRemoved => {
                return Ok(None);
            },
        };
        url.append("/datasets/");
        url.append(id);
        Ok(Some(url))
    }

    fn event(event_type: DatasetEventType, id: String, graph: String, timestamp: i64) -> (r: DatasetEvent) {
        Dataset::event(event_type, id, graph, timestamp)
    }

    proof fn lemma_remove_needs_no_content(routing_key: Seq<char>, apis: ApiUrls, id: Seq<char>) {
    }

    proof fn lemma_event_fields(event_type: Self::EventType, id: Seq<char>, graph: Seq<char>, timestamp: i64) {
    }
}

/// Resolving a created or updated dataset with reasoning under one of the
/// two dataset routing keys gives its event type; under any other routing
/// key it fails.
pub proof fn lemma_dataset_with_reasoning_routing(routing_key: Seq<char>, apis: ApiUrls, id: Seq<char>)
    ensures
        routing_key == "datasets.harvested"@ ==> spec_resolved_type::<DatasetWithReasoning>(routing_key, ChangeType::CreateOrUpdate, apis, id)
            == Ok::<DatasetEventType, Error>(DatasetEventType::DatasetHarvested),
        routing_key == "datasets.reasoned"@ ==> spec_resolved_type::<DatasetWithReasoning>(routing_key, ChangeType::CreateOrUpdate, apis, id)
            == Ok::<DatasetEventType, Error>(DatasetEventType::DatasetReasoned),
        routing_key != "datasets.harvested"@ && routing_key != "datasets.reasoned"@
            ==> spec_resolved_type::<DatasetWithReasoning>(routing_key, ChangeType::CreateOrUpdate, apis, id)
            == Err::<DatasetEventType, Error>(Error::UnknownRoutingKey),
{
    reveal_strlit("datasets.harvested");
    reveal_strlit("datasets.reasoned");
    assert("datasets.harvested"@.len() != "datasets.reasoned"@.len());
}

} // verus!
