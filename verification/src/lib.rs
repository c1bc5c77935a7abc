//! HTTP gateway in front of a set of conversational agent services.
//!
//! The verified core is the request-forwarding and fallback-response
//! logic: resolving the target agent, building the outbound payload and
//! upstream URL, classifying the upstream's reply (or its absence), and
//! producing a normalized client-facing envelope.  The HTTP plumbing
//! around it lives outside the library.

use vstd::prelude::*;

pub mod chat;
pub mod health;
pub mod invoke;
pub mod registry;
pub mod upstream;

verus! {

use vstd::string::StringExecFns;

/// Read-only configuration fixed at startup: the upstream orchestrator's
/// base URL and a signing secret that is loaded but not used yet.
pub struct AppState {
    pub agent_url: String,
    pub jwt_secret: String,
}

impl AppState {
    /// Upstream endpoint for a chat turn addressed to `agent_id`.
    pub fn chat_url(&self, agent_id: &str) -> (r: String)
        ensures
            r@ == self.agent_url@ + "/agents/"@ + agent_id@ + "/chat"@,
    {
        let mut url = self.agent_url.clone();
        url.append("/agents/");
        url.append(agent_id);
        url.append("/chat");
        url
    }

    /// Upstream endpoint for an invocation addressed to `agent_id`.
    pub fn invoke_url(&self, agent_id: &str) -> (r: String)
        ensures
            r@ == self.agent_url@ + "/agents/"@ + agent_id@ + "/invoke"@,
    {
        let mut url = self.agent_url.clone();
        url.append("/agents/");
        url.append(agent_id);
        url.append("/invoke");
        url
    }
}

} // verus!
