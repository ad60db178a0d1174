//! The provider's own health, as reported to whoever asks.

use vstd::prelude::*;
use crate::upstream::{is_request_to, Provider, UpstreamRequest};

verus! {

/// The provider's report on one of its services.
#[derive(Default, Debug, Clone, PartialEq, Eq)]
pub struct ServiceStatus {
    pub service: String,
    pub status: String,
}

/// What asking the provider for its health came to.
#[derive(Debug, Clone, PartialEq, Eq)]
pub enum HealthReply {
    /// No response came.
    Unreachable,
    /// A response came, but it holds no report.
    Unparsable,
    /// The provider's report.
    Report(ServiceStatus),
}

/// The address of the health report: the endpoint followed by
/// `/health/services/feeds/FlightSchedules`.
pub open spec fn health_target_of(endpoint: Seq<char>) -> Seq<char> {
    endpoint + "/health/services/feeds/FlightSchedules"@
}

/// The status reported for each reply.
pub open spec fn health_status_of(reply: HealthReply) -> Seq<char> {
    match reply {
        HealthReply::Unreachable => "Network Issue"@,
        HealthReply::Unparsable => "API Down"@,
        HealthReply::Report(report) => report.status@,
    }
}

/// Builds the address of the provider's health report.
pub fn health_url(endpoint: &str) -> (url: String)
    ensures
        url@ == health_target_of(endpoint@),
{
    let mut url = String::from_str(endpoint);
    url.append("/health/services/feeds/FlightSchedules");
    url
}

/// The request that asks the provider for its health: it goes to the
/// health address as it stands, without a query, carries the API key in
/// the key header and forbids redirects.
pub fn health_request(provider: &Provider) -> (request: UpstreamRequest)
    ensures
        is_request_to(request, health_target_of(provider.endpoint@), provider.api_key@),
{
    UpstreamRequest::new(health_url(provider.endpoint.as_str()), provider.api_key.as_str())
}

/// The status to report: the provider's own where it sent one, and a fixed
/// text for each way of getting none.
pub fn health_check(reply: HealthReply) -> (status: String)
    ensures
        status@ == health_status_of(reply),
{
    match reply {
        HealthReply::Unreachable => String::from_str("Network Issue"),
        HealthReply::Unparsable => String::from_str("API Down"),
        HealthReply::Report(report) => report.status,
    }
}

} // verus!
