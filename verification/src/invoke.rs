//! The invocation forwarding path.  Unlike chat, invocation failures are
//! not masked: the caller must learn that the action did not execute, so
//! a transport failure becomes a failure envelope naming the agent, and
//! an unreadable reply becomes a server-error envelope.

use vstd::prelude::*;

use crate::upstream::{json_check, json_check_of, parse_error_text, UpstreamResult};

verus! {

use vstd::string::StringExecFns;

/// One inbound agent invocation.  `params` is an arbitrary structured
/// payload, opaque to the gateway and passed through unmodified; it is
/// held as its JSON text.
pub struct InvokeRequest {
    pub action: String,
    pub params: String,
}

/// The client-facing invocation envelope: either the upstream's JSON
/// reply passed through unchanged, or a failure with its status class.
pub enum InvokeResponse {
    /// The upstream's reply body, verbatim.
    Success { body: String },
    /// The invocation did not execute: `status` is 503 when the upstream
    /// was unreachable and 500 when its reply could not be read.
    Failure { status: u16, error: String },
}

impl InvokeResponse {
    /// A failure carries one of the two failure status classes.
    pub open spec fn well_formed(self) -> bool {
        match self {
            InvokeResponse::Success { .. } => true,
            InvokeResponse::Failure { status, .. } => status == 500 || status == 503,
        }
    }

    /// The HTTP status the envelope is served under.
    pub fn status_code(&self) -> (r: u16)
        ensures
            r == (match *self {
                InvokeResponse::Success { .. } => 200u16,
                InvokeResponse::Failure { status, .. } => status,
            }),
    {
        match self {
            InvokeResponse::Success { .. } => 200,
            InvokeResponse::Failure { status, .. } => *status,
        }
    }
}

/// The error description of an invocation whose upstream never answered:
/// it names the requested agent and the transport error.
pub open spec fn invoke_unavailable_text(agent_id: Seq<char>, detail: Seq<char>) -> Seq<char> {
    "Agent "@ + agent_id + " unavailable: "@ + detail
}

/// Builds the failure envelope for an unreachable upstream: a 503-class
/// failure whose text interpolates the agent id and the transport error.
pub fn build_invoke_failure(agent_id: &str, transport_error: &str) -> (r: InvokeResponse)
    ensures
        r matches InvokeResponse::Failure { status, error } && status == 503 && error@
            == invoke_unavailable_text(agent_id@, transport_error@),
{
    let mut text = "Agent ".to_owned();
    text.append(agent_id);
    text.append(" unavailable: ");
    text.append(transport_error);
    InvokeResponse::Failure { status: 503, error: text }
}

/// How an invocation envelope relates to the requested agent and to what
/// the one outbound call produced: an unreachable upstream gives the
/// 503-class failure naming the agent, an unreadable body gives the
/// 500-class parse failure, and a body that is JSON passes through
/// verbatim.
pub open spec fn invoke_response_matches(
    agent_id: Seq<char>,
    upstream: UpstreamResult,
    r: InvokeResponse,
) -> bool {
    match upstream {
        UpstreamResult::Unreachable(e) => r matches InvokeResponse::Failure { status, error }
            && status == 503 && error@ == invoke_unavailable_text(agent_id, e@),
        UpstreamResult::Body(t) => {
            match json_check_of(t@) {
                Ok(_) => r matches InvokeResponse::Success { body } && body@ == t@,
                Err(e) => r matches InvokeResponse::Failure { status, error } && status == 500
                    && error@ == parse_error_text(e),
            }
        },
    }
}

/// Decides the client-facing envelope for an invocation of `agent_id`,
/// given what the one outbound call to the upstream produced.  The agent
/// id is not validated against the registry: the upstream is the sole
/// authority on validity.
pub fn forward_invoke(agent_id: &str, upstream: UpstreamResult) -> (r: InvokeResponse)
    ensures
        r.well_formed(),
        invoke_response_matches(agent_id@, upstream, r),
        upstream is Unreachable ==> r is Failure,
{
    match upstream {
        UpstreamResult::Unreachable(e) => build_invoke_failure(agent_id, e.as_str()),
        UpstreamResult::Body(t) => {
            match json_check(t.as_str()) {
                Ok(_) => InvokeResponse::Success { body: t },
                Err(e) => {
                    let mut text = "Failed to parse response: ".to_owned();
                    text.append(e.as_str());
                    InvokeResponse::Failure { status: 500, error: text }
                },
            }
        },
    }
}

/// One text occurs inside another.
pub open spec fn text_contains(hay: Seq<char>, needle: Seq<char>) -> bool {
    exists|i: int|
        0 <= i && i + needle.len() <= hay.len() && #[trigger] hay.subrange(i, i + needle.len())
            == needle
}

/// When the upstream is unreachable, the invocation envelope is a
/// failure whose error text contains the requested agent id.
pub proof fn lemma_invoke_failure_names_agent(
    agent_id: Seq<char>,
    detail: String,
    r: InvokeResponse,
)
    ensures
        invoke_response_matches(agent_id, UpstreamResult::Unreachable(detail), r) ==> (r matches
            InvokeResponse::Failure { status, error } && status == 503 && text_contains(
            error@,
            agent_id,
        )),
{
    if invoke_response_matches(agent_id, UpstreamResult::Unreachable(detail), r) {
        reveal_strlit("Agent ");
        let p = "Agent "@;
        let full = invoke_unavailable_text(agent_id, detail@);
        assert(p.len() == 6);
        assert(full.subrange(6, 6 + agent_id.len() as int) =~= agent_id) by {
            assert forall|k: int| 0 <= k < agent_id.len() implies full[6 + k] == agent_id[k] by {
                assert(full[6 + k] == (p + agent_id)[6 + k]);
            };
        }
        assert(full.subrange(6, 6 + agent_id.len() as int) == agent_id);
    }
}

/// Round trip: when the upstream echoes the request body and that body
/// is JSON, the invocation envelope carries back exactly the text that
/// was sent.
pub proof fn lemma_invoke_round_trip(agent_id: Seq<char>, sent: String, r: InvokeResponse)
    ensures
        invoke_response_matches(agent_id, UpstreamResult::Body(sent), r) && json_check_of(sent@)
            is Ok ==> (r matches InvokeResponse::Success { body } && body@ == sent@),
{
}

} // verus!
