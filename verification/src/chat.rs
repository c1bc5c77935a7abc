//! The chat forwarding path: resolving the target agent and language,
//! building the outbound payload, and normalizing the upstream's reply
//! (or its absence) into the client-facing envelope.
//!
//! Chat degrades gracefully: a transport failure is never surfaced as an
//! error; the client receives a canned success reply attributed to the
//! default agent instead.

use vstd::prelude::*;

use crate::upstream::{
    json_string_field, json_string_field_of, now_rfc3339, parse_error_text, to_upper, upper_of,
    UpstreamResult,
};

verus! {

use vstd::string::StringExecFns;

/// One inbound chat turn.  `session_id` is an opaque client-chosen
/// string, passed through without validation; `language` and `agent`
/// fall back to configured defaults when absent.
pub struct ChatRequest {
    pub message: String,
    pub session_id: String,
    pub language: Option<String>,
    pub agent: Option<String>,
}

/// The success payload of a chat envelope.
pub struct ChatData {
    /// The agent's reply text.
    pub message: String,
    /// The resolved agent id, upper-cased.
    pub agent: String,
    /// The inbound session id, echoed verbatim.
    pub session_id: String,
    /// The time of the call, RFC 3339.
    pub timestamp: String,
}

/// The client-facing chat envelope: a tagged result carrying either
/// success data or an error description, never both and never neither.
pub struct ChatResponse {
    pub success: bool,
    pub data: Option<ChatData>,
    pub error: Option<String>,
}

impl ChatResponse {
    /// Exactly one of the success data and the error is populated, and
    /// the `success` flag tells which.
    pub open spec fn well_formed(self) -> bool {
        &&& self.success <==> self.data is Some
        &&& self.success <==> self.error is None
    }

    /// The HTTP status class the envelope is served under: parse
    /// failures are client-visible server errors, everything else
    /// (including the masked fallback) is plain success.
    pub fn status_code(&self) -> (r: u16)
        ensures
            r == (if self.error is Some {
                500u16
            } else {
                200u16
            }),
    {
        if self.error.is_some() {
            500
        } else {
            200
        }
    }
}

/// The agent id a chat request addresses: the request's choice when
/// present and non-empty, else the default agent.
pub open spec fn resolved_agent_spec(req: ChatRequest) -> Seq<char> {
    match req.agent {
        Some(a) => if a@.len() > 0 {
            a@
        } else {
            "marie"@
        },
        None => "marie"@,
    }
}

/// The language a chat turn is forwarded under: the request's choice
/// when present, else the default locale.
pub open spec fn resolved_language_spec(req: ChatRequest) -> Seq<char> {
    match req.language {
        Some(l) => l@,
        None => "fr"@,
    }
}

/// Resolves the target agent id for a chat request.
pub fn resolve_agent(req: &ChatRequest) -> (r: String)
    ensures
        r@ == resolved_agent_spec(*req),
{
    match &req.agent {
        Some(a) => if a.as_str().is_empty() {
            "marie".to_owned()
        } else {
            a.clone()
        },
        None => "marie".to_owned(),
    }
}

/// Resolves the language for a chat request.
pub fn resolve_language(req: &ChatRequest) -> (r: String)
    ensures
        r@ == resolved_language_spec(*req),
{
    match &req.language {
        Some(l) => l.clone(),
        None => "fr".to_owned(),
    }
}

/// The body POSTed to the upstream for a chat turn.
pub struct ChatOutbound {
    pub message: String,
    pub session_id: String,
    pub language: String,
}

/// Builds the outbound chat payload: the message and session id pass
/// through verbatim, the language is resolved against the default.
pub fn chat_outbound(req: &ChatRequest) -> (r: ChatOutbound)
    ensures
        r.message@ == req.message@,
        r.session_id@ == req.session_id@,
        r.language@ == resolved_language_spec(*req),
{
    ChatOutbound {
        message: req.message.clone(),
        session_id: req.session_id.clone(),
        language: resolve_language(req),
    }
}

/// A chat request must carry a non-empty message; the check names the
/// offending field so the caller can answer with a client-error status.
pub fn validate_chat_request(req: &ChatRequest) -> (r: Result<(), String>)
    ensures
        r is Ok <==> req.message@.len() > 0,
        r matches Err(e) ==> e@ == "message must not be empty"@,
{
    if req.message.as_str().is_empty() {
        Err("message must not be empty".to_owned())
    } else {
        Ok(())
    }
}

/// The canned reply served while the upstream is unreachable, always
/// attributed to the default agent.
pub open spec fn fallback_message_spec() -> Seq<char> {
    "Je suis MARIE, l'assistante de Web Shop. Les services Python sont en cours de démarrage. En attendant, comment puis-je vous aider ?"@
}

/// Builds the success envelope from an extracted upstream reply: a
/// missing or non-string `message` member becomes the empty string, the
/// resolved agent id is upper-cased, the session id is echoed, and the
/// envelope is stamped with the current call time.
pub fn build_chat_success(message: Option<String>, resolved_agent: &str, session_id: &str) -> (r:
    ChatResponse)
    ensures
        r.well_formed(),
        r.success,
        r.error is None,
        r.data matches Some(d) && {
            &&& d.message@ == (match message {
                Some(m) => m@,
                None => Seq::<char>::empty(),
            })
            &&& d.agent@ == upper_of(resolved_agent@)
            &&& d.session_id@ == session_id@
            &&& d.timestamp@.len() > 0
        },
{
    let text = match message {
        Some(m) => m,
        None => String::new(),
    };
    ChatResponse {
        success: true,
        data: Some(
            ChatData {
                message: text,
                agent: to_upper(resolved_agent),
                session_id: session_id.to_owned(),
                timestamp: now_rfc3339(),
            },
        ),
        error: None,
    }
}

/// Builds the degraded-mode envelope served when the upstream is
/// unreachable: a fixed non-empty canned message attributed to the
/// default agent, whichever agent was originally requested.
pub fn build_chat_fallback(session_id: &str) -> (r: ChatResponse)
    ensures
        r.well_formed(),
        r.success,
        r.error is None,
        r.data matches Some(d) && {
            &&& d.message@ == fallback_message_spec()
            &&& d.message@.len() > 0
            &&& d.agent@ == "MARIE"@
            &&& d.session_id@ == session_id@
            &&& d.timestamp@.len() > 0
        },
{
    proof {
        reveal_strlit(
            "Je suis MARIE, l'assistante de Web Shop. Les services Python sont en cours de démarrage. En attendant, comment puis-je vous aider ?",
        );
    }
    ChatResponse {
        success: true,
        data: Some(
            ChatData {
                message: "Je suis MARIE, l'assistante de Web Shop. Les services Python sont en cours de démarrage. En attendant, comment puis-je vous aider ?".to_owned(),
                agent: "MARIE".to_owned(),
                session_id: session_id.to_owned(),
                timestamp: now_rfc3339(),
            },
        ),
        error: None,
    }
}

/// Builds the failure envelope for an upstream reply that could not be
/// read as JSON.
pub fn build_chat_parse_failure(detail: &str) -> (r: ChatResponse)
    ensures
        r.well_formed(),
        !r.success,
        r.data is None,
        r.error matches Some(e) && e@ == parse_error_text(detail@),
{
    let mut text = "Failed to parse response: ".to_owned();
    text.append(detail);
    ChatResponse { success: false, data: None, error: Some(text) }
}

/// Classifies an already-read upstream chat reply: a parse failure
/// becomes an error envelope, anything that parsed becomes a success
/// envelope whose message is the extracted field (empty when absent).
pub fn chat_outcome(parsed: Result<Option<String>, String>, resolved_agent: &str, session_id: &str)
    -> (r: ChatResponse)
    ensures
        r.well_formed(),
        parsed matches Ok(m) ==> {
            &&& r.success
            &&& r.data matches Some(d) && {
                &&& d.message@ == (match m {
                    Some(t) => t@,
                    None => Seq::<char>::empty(),
                })
                &&& d.agent@ == upper_of(resolved_agent@)
                &&& d.session_id@ == session_id@
                &&& d.timestamp@.len() > 0
            }
        },
        parsed matches Err(e) ==> {
            &&& !r.success
            &&& r.error matches Some(t) && t@ == parse_error_text(e@)
        },
{
    match parsed {
        Ok(m) => build_chat_success(m, resolved_agent, session_id),
        Err(e) => build_chat_parse_failure(e.as_str()),
    }
}

/// How a chat envelope relates to the request and to what the one
/// outbound call produced.  A transport failure is masked by the canned
/// fallback; a body is read through `json_string_field_of` and either
/// yields the extracted message or a parse-failure error.
pub open spec fn chat_response_matches(req: ChatRequest, upstream: UpstreamResult, r: ChatResponse)
    -> bool {
    match upstream {
        UpstreamResult::Unreachable(_) => {
            &&& r.success
            &&& r.data matches Some(d) && {
                &&& d.message@ == fallback_message_spec()
                &&& d.message@.len() > 0
                &&& d.agent@ == "MARIE"@
                &&& d.session_id@ == req.session_id@
            }
        },
        UpstreamResult::Body(t) => {
            match json_string_field_of(t@, "message"@) {
                Ok(m) => {
                    &&& r.success
                    &&& r.data matches Some(d) && {
                        &&& d.message@ == (match m {
                            Some(w) => w,
                            None => Seq::<char>::empty(),
                        })
                        &&& d.agent@ == upper_of(resolved_agent_spec(req))
                        &&& d.session_id@ == req.session_id@
                    }
                },
                Err(e) => {
                    &&& !r.success
                    &&& r.error matches Some(t2) && t2@ == parse_error_text(e)
                },
            }
        },
    }
}

/// Decides the client-facing envelope for a chat request, given what the
/// one outbound call to the upstream produced.  The envelope always
/// carries exactly one of success data and error; a transport failure
/// never surfaces as an error.
pub fn forward_chat(req: &ChatRequest, upstream: UpstreamResult) -> (r: ChatResponse)
    ensures
        r.well_formed(),
        chat_response_matches(*req, upstream, r),
        upstream is Unreachable ==> r.success,
{
    match upstream {
        UpstreamResult::Unreachable(_) => build_chat_fallback(req.session_id.as_str()),
        UpstreamResult::Body(t) => {
            let agent = resolve_agent(req);
            let parsed = json_string_field(t.as_str(), "message");
            chat_outcome(parsed, agent.as_str(), req.session_id.as_str())
        },
    }
}

/// The stub reply of the history listing endpoint: no store exists, so
/// the history of any session is empty.
pub struct HistoryResponse {
    pub session_id: String,
    pub messages: Vec<String>,
    pub count: u64,
}

/// Returns the (empty) conversation history of a session.  The session
/// id is pure passthrough: any id is echoed back, none is an error.
pub fn get_history(session_id: String) -> (r: HistoryResponse)
    ensures
        r.session_id@ == session_id@,
        r.messages@.len() == 0,
        r.count == 0,
{
    HistoryResponse { session_id, messages: Vec::new(), count: 0 }
}

/// The acknowledgment of the history clearing endpoint.
pub struct ClearHistoryResponse {
    pub success: bool,
    pub message: String,
}

/// Acknowledges clearing a session's (nonexistent) history.  Total for
/// any session id; nothing is stored, so nothing fails.
pub fn clear_history(session_id: String) -> (r: ClearHistoryResponse)
    ensures
        r.success,
        r.message@ == "Session "@ + session_id@ + " cleared"@,
{
    let mut text = "Session ".to_owned();
    text.append(session_id.as_str());
    text.append(" cleared");
    ClearHistoryResponse { success: true, message: text }
}

} // verus!
