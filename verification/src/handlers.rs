use vstd::prelude::*;

use crate::build_info::BUILD_DATE;
use crate::build_info::BuildInfo;
use crate::build_info::COMMIT;
use crate::build_info::VERSION;
use crate::response::ProblemDetails;
use crate::response::TYPE_BAD_REQUEST;
use crate::response::TYPE_INTERNAL_ERROR;
use crate::response::TYPE_NOT_FOUND;
use crate::response::bad_request;
use crate::response::internal_error;
use crate::response::not_found;

verus! {

/// The liveness check: always status 200 with the plain acknowledgment.
pub fn livez() -> (r: (u16, &'static str))
    ensures
        r.0 == 200,
        r.1@ == "ok"@,
{
    (200, "ok")
}

/// The readiness check: always status 200 with the plain acknowledgment.
pub fn readyz() -> (r: (u16, &'static str))
    ensures
        r.0 == 200,
        r.1@ == "ok"@,
{
    (200, "ok")
}

/// The payload of the version endpoint: the build metadata, every field
/// carrying its build-time value and none of them empty.
pub fn version() -> (r: BuildInfo)
    ensures
        r.version@ == VERSION@,
        r.commit@ == COMMIT@,
        r.build_date@ == BUILD_DATE@,
        r.version@.len() > 0,
        r.commit@.len() > 0,
        r.build_date@.len() > 0,
{
    BuildInfo::new()
}

/// Placeholder domain record; it has no fields yet.
#[derive(Debug, Clone)]
pub struct Agent {}

/// The payload of the agents listing.
#[derive(Debug, Clone)]
pub struct AgentsResponse {
    pub agents: Vec<Agent>,
}

/// The agents listing: an empty collection until real domain logic exists.
pub fn list_agents() -> (r: AgentsResponse)
    ensures
        r.agents@.len() == 0,
{
    AgentsResponse { agents: Vec::new() }
}

/// The sample failing handler for the bad-request category.
pub fn example_bad_request() -> (r: ProblemDetails)
    ensures
        r@.type_uri == TYPE_BAD_REQUEST@,
        r@.title == "Bad Request"@,
        r@.status == 400,
        r@.detail == Some("{\"message\":\"example bad request\"}"@),
        r@.instance is None,
{
    bad_request("{\"message\":\"example bad request\"}")
}

/// The sample failing handler for the not-found category.
pub fn example_not_found() -> (r: ProblemDetails)
    ensures
        r@.type_uri == TYPE_NOT_FOUND@,
        r@.title == "Not Found"@,
        r@.status == 404,
        r@.detail == Some("example not found"@),
        r@.instance == Some("/example-not-found"@),
{
    not_found("example not found").with_instance("/example-not-found")
}

/// The sample failing handler for the internal-error category.
pub fn example_internal_error() -> (r: ProblemDetails)
    ensures
        r@.type_uri == TYPE_INTERNAL_ERROR@,
        r@.title == "Internal Server Error"@,
        r@.status == 500,
        r@.detail == Some("example internal error"@),
        r@.instance == Some("/example-internal-error"@),
{
    internal_error("example internal error").with_instance("/example-internal-error")
}

} // verus!
