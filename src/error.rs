use vstd::prelude::*;

verus! {

/// Why fetching the content of a resource failed.
#[derive(Clone, Debug)]
pub enum FetchFailure {
    /// The upstream API answered with a status other than success.
    Status { status: u16, body: String },
    /// The upstream API could not be reached, or its answer could not be read.
    Transport(String),
}

/// The errors of handling one message, and of setting the pipeline up.
#[derive(Clone, Debug)]
pub enum Error {
    /// The routing key is not one that the resource kind handles.
    UnknownRoutingKey,
    /// The content that the event embeds could not be fetched.
    EnrichmentFailure(FetchFailure),
    /// The message payload is not a list of harvest reports.
    MalformedPayload(String),
    /// The start time of a harvest report does not have the expected format.
    InvalidTimestamp,
    /// The event could not be encoded against its registered schema.
    EncodingFailure(String),
    /// The encoded event could not be written to the log topic.
    PublishFailure(String),
    /// The schema registry refused the event schema.
    SchemaRejected(String),
}

} // verus!
