//! The service boundary's plain data: the inbound research request and the
//! shaping of the outbound response.  Transport and routing live outside
//! this crate; this is the part of the boundary that is pure data.

use vstd::prelude::*;

verus! {

/// One inbound research request: a topic.
#[derive(Debug, Clone)]
pub struct ResearchRequest {
    pub topic: String,
}

/// One outbound response: the summary text and a human-readable status.
#[derive(Debug, Clone)]
pub struct ResearchResponse {
    pub summary: String,
    pub status: String,
}

/// Shapes a request's outcome into the outbound response: a successful
/// pipeline run carries its summary, a fatal error carries a readable
/// message and a failure status, and nothing else is ever reported.
pub fn research_response_of(outcome: Result<String, String>) -> (r: ResearchResponse)
    ensures
        outcome matches Ok(summary) ==> r.summary@ == summary@ && r.status@
            == "Research completed"@,
        outcome matches Err(message) ==> r.summary@ == "Error: "@ + message@ && r.status@
            == "Error occurred"@,
{
    match outcome {
        Ok(summary) => ResearchResponse {
            summary,
            status: "Research completed".to_string(),
        },
        Err(message) => {
            let mut summary = "Error: ".to_string();
            summary.append(message.as_str());
            ResearchResponse { summary, status: "Error occurred".to_string() }
        },
    }
}

} // verus!
