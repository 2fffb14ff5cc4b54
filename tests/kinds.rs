use fdk_kafka_event_publisher::concept::{Concept, ConceptEvent, ConceptEventType};
use fdk_kafka_event_publisher::data_service::{DataService, DataServiceEventType};
use fdk_kafka_event_publisher::dataset::{Dataset, DatasetEvent, DatasetEventType};
use fdk_kafka_event_publisher::error::Error;
use fdk_kafka_event_publisher::event::{EventEventType, EventResource};
use fdk_kafka_event_publisher::information_model::{InformationModel, InformationModelEventType};
use fdk_kafka_event_publisher::kafka::{Event, WireEvent};
use fdk_kafka_event_publisher::service::{Service, ServiceEvent, ServiceEventType};
use fdk_kafka_event_publisher::{ApiUrls, ChangeType, Resource};

fn apis() -> ApiUrls {
    ApiUrls { harvester: "http://harvester".to_string(), reasoning: "http://reasoning".to_string() }
}

#[test]
fn concept_routing_keys_map_to_event_types() {
    assert_eq!(ConceptEventType::from_routing_key("concepts.harvested").unwrap(), ConceptEventType::ConceptHarvested);
    assert_eq!(ConceptEventType::from_routing_key("concepts.reasoned").unwrap(), ConceptEventType::ConceptReasoned);
    assert!(matches!(ConceptEventType::from_routing_key("datasets.harvested"), Err(Error::UnknownRoutingKey)));
    assert!(matches!(ConceptEventType::from_routing_key(""), Err(Error::UnknownRoutingKey)));
}

#[test]
fn every_kind_maps_its_routing_keys() {
    assert_eq!(DataServiceEventType::from_routing_key("dataservices.harvested").unwrap(), DataServiceEventType::DataServiceHarvested);
    assert_eq!(DataServiceEventType::from_routing_key("dataservices.reasoned").unwrap(), DataServiceEventType::DataServiceReasoned);
    assert_eq!(DatasetEventType::from_routing_key("datasets.harvested").unwrap(), DatasetEventType::DatasetHarvested);
    assert_eq!(DatasetEventType::from_routing_key("datasets.reasoned").unwrap(), DatasetEventType::DatasetReasoned);
    assert_eq!(EventEventType::from_routing_key("events.harvested").unwrap(), EventEventType::EventHarvested);
    assert_eq!(EventEventType::from_routing_key("events.reasoned").unwrap(), EventEventType::EventReasoned);
    assert_eq!(
        InformationModelEventType::from_routing_key("informationmodels.harvested").unwrap(),
        InformationModelEventType::InformationModelHarvested
    );
    assert_eq!(
        InformationModelEventType::from_routing_key("informationmodels.reasoned").unwrap(),
        InformationModelEventType::InformationModelReasoned
    );
    assert_eq!(ServiceEventType::from_routing_key("public_services.harvested").unwrap(), ServiceEventType::ServiceHarvested);
    assert_eq!(ServiceEventType::from_routing_key("public_services.reasoned").unwrap(), ServiceEventType::ServiceReasoned);
    assert!(matches!(ServiceEventType::from_routing_key("public-services.harvested"), Err(Error::UnknownRoutingKey)));
    assert!(matches!(DatasetEventType::from_routing_key("concepts.harvested"), Err(Error::UnknownRoutingKey)));
}

#[test]
fn remove_never_needs_content() {
    let a = apis();
    let t = Concept::event_type("anything", ChangeType::Remove).unwrap();
    assert_eq!(t, ConceptEventType::ConceptRemoved);
    assert!(Concept::source(t, &a, "x").unwrap().is_none());
    let t = Dataset::event_type("unknown.key", ChangeType::Remove).unwrap();
    assert!(Dataset::source(t, &a, "x").unwrap().is_none());
    let t = Service::event_type("", ChangeType::Remove).unwrap();
    assert!(Service::source(t, &a, "x").unwrap().is_none());
    let t = EventResource::event_type("events.harvested", ChangeType::Remove).unwrap();
    assert_eq!(t, EventEventType::EventRemoved);
    let t = InformationModel::event_type("x", ChangeType::Remove).unwrap();
    assert!(InformationModel::source(t, &a, "x").unwrap().is_none());
    let t = DataService::event_type("x", ChangeType::Remove).unwrap();
    assert!(DataService::source(t, &a, "x").unwrap().is_none());
}

#[test]
fn content_urls_of_each_kind() {
    let a = apis();
    let url = |r: Result<Option<String>, Error>| r.unwrap().unwrap();
    assert_eq!(url(Concept::source(ConceptEventType::ConceptHarvested, &a, "abc-123")), "http://harvester/concepts/abc-123");
    assert_eq!(url(Concept::source(ConceptEventType::ConceptReasoned, &a, "abc-123")), "http://reasoning/concepts/abc-123");
    assert_eq!(
        url(DataService::source(DataServiceEventType::DataServiceHarvested, &a, "d1")),
        "http://harvester/dataservices/d1"
    );
    assert_eq!(
        url(DataService::source(DataServiceEventType::DataServiceReasoned, &a, "d1")),
        "http://reasoning/data-services/d1"
    );
    assert_eq!(
        url(InformationModel::source(InformationModelEventType::InformationModelHarvested, &a, "m1")),
        "http://harvester/informationmodels/m1"
    );
    assert_eq!(
        url(InformationModel::source(InformationModelEventType::InformationModelReasoned, &a, "m1")),
        "http://reasoning/information-models/m1"
    );
    assert_eq!(
        url(Dataset::source(DatasetEventType::DatasetHarvested, &a, "s1")),
        "http://harvester/datasets/s1?catalogrecords=true"
    );
    assert_eq!(
        url(EventResource::source(EventEventType::EventHarvested, &a, "e1")),
        "http://harvester/events/e1?catalogrecords=true"
    );
    assert_eq!(
        url(Service::source(ServiceEventType::ServiceHarvested, &a, "p1")),
        "http://harvester/public-services/p1?catalogrecords=true"
    );
}

#[test]
fn harvest_only_kinds_refuse_reasoned_content() {
    let a = apis();
    assert!(matches!(Dataset::source(DatasetEventType::DatasetReasoned, &a, "x"), Err(Error::UnknownRoutingKey)));
    assert!(matches!(EventResource::source(EventEventType::EventReasoned, &a, "x"), Err(Error::UnknownRoutingKey)));
    assert!(matches!(Service::source(ServiceEventType::ServiceReasoned, &a, "x"), Err(Error::UnknownRoutingKey)));
}

#[test]
fn symbols_of_event_types() {
    assert_eq!(ConceptEventType::ConceptHarvested.symbol(), "CONCEPT_HARVESTED");
    assert_eq!(DataServiceEventType::DataServiceReasoned.symbol(), "DATA_SERVICE_REASONED");
    assert_eq!(DatasetEventType::DatasetRemoved.symbol(), "DATASET_REMOVED");
    assert_eq!(EventEventType::EventHarvested.symbol(), "EVENT_HARVESTED");
    assert_eq!(InformationModelEventType::InformationModelRemoved.symbol(), "INFORMATION_MODEL_REMOVED");
    assert_eq!(ServiceEventType::ServiceHarvested.symbol(), "SERVICE_HARVESTED");
    assert_eq!(ConceptEventType::from_symbol("CONCEPT_REMOVED"), Some(ConceptEventType::ConceptRemoved));
    assert_eq!(ConceptEventType::from_symbol("DATASET_REMOVED"), None);
}

#[test]
fn event_wire_round_trip() {
    let event = ConceptEvent {
        event_type: ConceptEventType::ConceptReasoned,
        fdk_id: "abc-123".to_string(),
        graph: "<rdf>...</rdf>".to_string(),
        timestamp: 1685620800000,
    };
    let wire = event.to_wire();
    assert_eq!(wire.event_type, "CONCEPT_REASONED");
    assert_eq!(event.key(), "abc-123");
    let back = ConceptEvent::from_wire(&wire).unwrap();
    assert_eq!(back.event_type, event.event_type);
    assert_eq!(back.fdk_id, event.fdk_id);
    assert_eq!(back.graph, event.graph);
    assert_eq!(back.timestamp, event.timestamp);

    let removed = Dataset::event(DatasetEventType::DatasetRemoved, "s1".to_string(), String::new(), -5);
    let back: DatasetEvent = DatasetEvent::from_wire(&removed.to_wire()).unwrap();
    assert_eq!(back.event_type, DatasetEventType::DatasetRemoved);
    assert_eq!(back.graph, "");
    assert_eq!(back.timestamp, -5);

    let service = Service::event(ServiceEventType::ServiceHarvested, "p1".to_string(), "g".to_string(), 7);
    let back: ServiceEvent = ServiceEvent::from_wire(&service.to_wire()).unwrap();
    assert_eq!(back.event_type, ServiceEventType::ServiceHarvested);
}

#[test]
fn wire_with_foreign_symbol_is_refused() {
    let wire = WireEvent {
        event_type: "SERVICE_HARVESTED".to_string(),
        fdk_id: "x".to_string(),
        graph: String::new(),
        timestamp: 0,
    };
    assert!(ConceptEvent::from_wire(&wire).is_none());
    assert!(ServiceEvent::from_wire(&wire).is_some());
}

#[test]
fn dataset_event_type_parses_from_routing_key() {
    assert_eq!("datasets.harvested".parse::<DatasetEventType>().unwrap(), DatasetEventType::DatasetHarvested);
    assert_eq!("datasets.reasoned".parse::<DatasetEventType>().unwrap(), DatasetEventType::DatasetReasoned);
    assert!(matches!("datasets.removed".parse::<DatasetEventType>(), Err(Error::UnknownRoutingKey)));
}
