use agent_gateway::chat::{
    chat_outbound, clear_history, forward_chat, get_history, validate_chat_request, ChatRequest,
};
use agent_gateway::upstream::UpstreamResult;

fn request(agent: Option<&str>, language: Option<&str>) -> ChatRequest {
    ChatRequest {
        message: "bonjour".to_string(),
        session_id: "s1".to_string(),
        language: language.map(|l| l.to_string()),
        agent: agent.map(|a| a.to_string()),
    }
}

const FALLBACK: &str = "Je suis MARIE, l'assistante de Web Shop. Les services Python sont en cours de démarrage. En attendant, comment puis-je vous aider ?";

#[test]
fn chat_fallback_when_upstream_unreachable() {
    let req = request(None, None);
    let r = forward_chat(
        &req,
        UpstreamResult::Unreachable("error sending request: connection refused".to_string()),
    );
    assert!(r.success);
    assert!(r.error.is_none());
    assert_eq!(r.status_code(), 200);
    let d = r.data.expect("fallback carries data");
    assert_eq!(d.agent, "MARIE");
    assert_eq!(d.session_id, "s1");
    assert_eq!(d.message, FALLBACK);
    assert!(!d.message.is_empty());
}

#[test]
fn chat_fallback_masks_whichever_agent_was_requested() {
    let req = request(Some("hugo"), None);
    let r = forward_chat(&req, UpstreamResult::Unreachable("timeout".to_string()));
    assert!(r.success);
    let d = r.data.expect("fallback carries data");
    assert_eq!(d.agent, "MARIE");
    assert_eq!(d.message, FALLBACK);
}

#[test]
fn chat_success_extracts_message_and_uppercases_agent() {
    let req = request(Some("marie"), None);
    let r = forward_chat(
        &req,
        UpstreamResult::Body("{\"message\":\"Bonjour, comment puis-je aider ?\"}".to_string()),
    );
    assert!(r.success);
    assert!(r.error.is_none());
    assert_eq!(r.status_code(), 200);
    let d = r.data.expect("success carries data");
    assert_eq!(d.message, "Bonjour, comment puis-je aider ?");
    assert_eq!(d.agent, "MARIE");
    assert_eq!(d.session_id, "s1");
}

#[test]
fn chat_success_missing_message_field_becomes_empty() {
    let req = request(None, None);
    let r = forward_chat(&req, UpstreamResult::Body("{\"reply\":\"x\"}".to_string()));
    assert!(r.success);
    assert_eq!(r.data.expect("success carries data").message, "");
}

#[test]
fn chat_success_non_string_message_becomes_empty() {
    let req = request(None, None);
    let r = forward_chat(&req, UpstreamResult::Body("{\"message\":5}".to_string()));
    assert!(r.success);
    assert_eq!(r.data.expect("success carries data").message, "");
}

#[test]
fn chat_parse_failure_is_error_envelope() {
    let req = request(None, None);
    let r = forward_chat(&req, UpstreamResult::Body("not json at all".to_string()));
    assert!(!r.success);
    assert!(r.data.is_none());
    assert_eq!(r.status_code(), 500);
    let e = r.error.expect("parse failure carries an error");
    assert!(e.starts_with("Failed to parse response: "));
}

#[test]
fn chat_envelope_has_exactly_one_side_populated() {
    let req = request(None, None);
    let ok = forward_chat(&req, UpstreamResult::Body("{\"message\":\"hi\"}".to_string()));
    assert!(ok.success && ok.data.is_some() && ok.error.is_none());
    let masked = forward_chat(&req, UpstreamResult::Unreachable("down".to_string()));
    assert!(masked.success && masked.data.is_some() && masked.error.is_none());
    let bad = forward_chat(&req, UpstreamResult::Body("{".to_string()));
    assert!(!bad.success && bad.data.is_none() && bad.error.is_some());
}

#[test]
fn chat_agent_resolution_defaults_and_uppercases() {
    let body = "{\"message\":\"ok\"}";
    let none = forward_chat(&request(None, None), UpstreamResult::Body(body.to_string()));
    assert_eq!(none.data.expect("data").agent, "MARIE");
    let empty = forward_chat(&request(Some(""), None), UpstreamResult::Body(body.to_string()));
    assert_eq!(empty.data.expect("data").agent, "MARIE");
    let hugo = forward_chat(&request(Some("hugo"), None), UpstreamResult::Body(body.to_string()));
    assert_eq!(hugo.data.expect("data").agent, "HUGO");
}

#[test]
fn chat_outbound_passes_through_and_resolves_language() {
    let default_lang = chat_outbound(&request(None, None));
    assert_eq!(default_lang.message, "bonjour");
    assert_eq!(default_lang.session_id, "s1");
    assert_eq!(default_lang.language, "fr");
    let english = chat_outbound(&request(None, Some("en")));
    assert_eq!(english.language, "en");
}

#[test]
fn chat_timestamp_is_rfc3339() {
    let req = request(None, None);
    let r = forward_chat(&req, UpstreamResult::Unreachable("down".to_string()));
    let ts = r.data.expect("data").timestamp;
    assert!(chrono::DateTime::parse_from_rfc3339(&ts).is_ok());
}

#[test]
fn validate_chat_request_rejects_empty_message() {
    let mut req = request(None, None);
    req.message = String::new();
    let e = validate_chat_request(&req).expect_err("empty message is rejected");
    assert_eq!(e, "message must not be empty");
}

#[test]
fn validate_chat_request_accepts_nonempty_message() {
    assert!(validate_chat_request(&request(None, None)).is_ok());
}

#[test]
fn get_history_is_empty_for_any_session() {
    let h = get_history("abc".to_string());
    assert_eq!(h.session_id, "abc");
    assert!(h.messages.is_empty());
    assert_eq!(h.count, 0);
}

#[test]
fn clear_history_acknowledges_without_storing() {
    let c = clear_history("abc".to_string());
    assert!(c.success);
    assert_eq!(c.message, "Session abc cleared");
}
