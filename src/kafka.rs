use vstd::prelude::*;

verus! {

/// The field values of an event as its wire schema lays them out: the
/// symbol of its event type, the resource id, the embedded graph and the
/// timestamp in epoch milliseconds.
pub struct EventRecord {
    pub event_type: Seq<char>,
    pub fdk_id: Seq<char>,
    pub graph: Seq<char>,
    pub timestamp: i64,
}

/// An event in the form that is encoded against the registered schema.
#[derive(Clone, Debug)]
pub struct WireEvent {
    pub event_type: String,
    pub fdk_id: String,
    pub graph: String,
    pub timestamp: i64,
}

impl View for WireEvent {
    type V = EventRecord;

    open spec fn view(&self) -> EventRecord {
        EventRecord {
            event_type: self.event_type@,
            fdk_id: self.fdk_id@,
            graph: self.graph@,
            timestamp: self.timestamp,
        }
    }
}

/// An event that can be published to a log topic.
pub trait Event: Sized {
    /// The field values that the event is published with.
    spec fn record(&self) -> EventRecord;

    /// The key of the event on the log topic: its resource id.
    fn key(&self) -> (r: String)
        ensures
            r@ == self.record().fdk_id,
    ;

    /// The event in the form that is encoded against its schema.
    fn to_wire(&self) -> (r: WireEvent)
        ensures
            r@ == self.record(),
    ;
}

} // verus!
