use vstd::prelude::*;

verus! {

/// A resource named in a harvest report.
#[derive(Clone, Debug)]
pub struct HarvestReportChange {
    pub fdk_id: String,
}

/// A batch notification of the resources that one harvest changed or removed.
#[derive(Clone, Debug)]
pub struct HarvestReport {
    pub start_time: String,
    pub changed_resources: Vec<HarvestReportChange>,
    pub removed_resources: Option<Vec<HarvestReportChange>>,
}

/// The AMQP URI of the broker, on the default virtual host.
pub open spec fn spec_connection_string(user: Seq<char>, pass: Seq<char>, host: Seq<char>, port: Seq<char>) -> Seq<char> {
    "amqp://"@ + user + ":"@ + pass + "@"@ + host + ":"@ + port + "/%2f"@
}

/// Builds the AMQP URI of the broker from its credentials and address.
pub fn connection_string(user: &str, pass: &str, host: &str, port: &str) -> (r: String)
    ensures
        r@ == spec_connection_string(user@, pass@, host@, port@),
{
    let mut uri = "amqp://".to_owned();
    uri.append(user);
    uri.append(":");
    uri.append(pass);
    uri.append("@");
    uri.append(host);
    uri.append(":");
    uri.append(port);
    uri.append("/%2f");
    uri
}

} // verus!
