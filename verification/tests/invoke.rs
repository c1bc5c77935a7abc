use agent_gateway::invoke::{build_invoke_failure, forward_invoke, InvokeResponse};
use agent_gateway::upstream::UpstreamResult;

#[test]
fn invoke_unreachable_gives_503_naming_the_agent() {
    let r = forward_invoke(
        "hugo",
        UpstreamResult::Unreachable("error sending request: connection refused".to_string()),
    );
    assert_eq!(r.status_code(), 503);
    match r {
        InvokeResponse::Failure { status, error } => {
            assert_eq!(status, 503);
            assert_eq!(error, "Agent hugo unavailable: error sending request: connection refused");
            assert!(error.contains("hugo"));
        }
        InvokeResponse::Success { .. } => panic!("an unreachable upstream must not succeed"),
    }
}

#[test]
fn invoke_round_trip_echoes_the_sent_body() {
    // An upstream that echoes its request body as its response body:
    // the client receives exactly the body it sent.
    let sent = "{\"action\":\"draft\",\"params\":{}}".to_string();
    let r = forward_invoke("hugo", UpstreamResult::Body(sent.clone()));
    match r {
        InvokeResponse::Success { body } => {
            assert_eq!(body, sent);
            let sent_value: serde_json::Value = serde_json::from_str(&sent).unwrap();
            let got_value: serde_json::Value = serde_json::from_str(&body).unwrap();
            assert_eq!(sent_value, got_value);
        }
        InvokeResponse::Failure { .. } => panic!("a JSON body must pass through"),
    }
}

#[test]
fn invoke_passes_any_valid_json_through_verbatim() {
    let body = "{\"result\":\"done\",\"items\":[1,2,3]}".to_string();
    let r = forward_invoke("lucas", UpstreamResult::Body(body.clone()));
    assert_eq!(r.status_code(), 200);
    match r {
        InvokeResponse::Success { body: got } => assert_eq!(got, body),
        InvokeResponse::Failure { .. } => panic!("a JSON body must pass through"),
    }
}

#[test]
fn invoke_unparsable_reply_gives_500() {
    let r = forward_invoke("hugo", UpstreamResult::Body("<html>bad gateway</html>".to_string()));
    assert_eq!(r.status_code(), 500);
    match r {
        InvokeResponse::Failure { status, error } => {
            assert_eq!(status, 500);
            assert!(error.starts_with("Failed to parse response: "));
        }
        InvokeResponse::Success { .. } => panic!("an unparsable body must not succeed"),
    }
}

#[test]
fn invoke_failure_builder_interpolates_agent_and_error() {
    let r = build_invoke_failure("emma", "timeout");
    match r {
        InvokeResponse::Failure { status, error } => {
            assert_eq!(status, 503);
            assert_eq!(error, "Agent emma unavailable: timeout");
        }
        InvokeResponse::Success { .. } => panic!("the builder builds failures"),
    }
}
