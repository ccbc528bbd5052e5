use flickr_api::callback::CallbackQuery;
use flickr_api::get_token::{
    access_token_url, authorization_url, on_access_token_answer, on_callback,
    on_request_token_answer, request_token_url, FlowAction, FlowError, FlowEvent, FlowState,
    TokenExchangeFlow,
};
use flickr_api::oauth::{ApiKey, Token};

fn api() -> ApiKey {
    ApiKey { key: "K".to_string(), secret: "S".to_string() }
}

fn payload(token: &str, verifier: &str) -> CallbackQuery {
    CallbackQuery { oauth_token: token.to_string(), oauth_verifier: verifier.to_string() }
}

fn response(body: &str) -> FlowEvent {
    FlowEvent::Response { body: body.to_string() }
}

const GRANT: &str = "oauth_callback_confirmed=true&oauth_token=RT1&oauth_token_secret=RS1";
const ACCESS: &str =
    "fullname=Jane%20Doe&oauth_token=AT1&oauth_token_secret=AS1&user_nsid=12%40N01&username=jane";

fn url_of(action: FlowAction) -> String {
    match action {
        FlowAction::SendRequest { url } => url,
        other => panic!("expected a request, got {other:?}"),
    }
}

fn failure_of(flow: &TokenExchangeFlow) -> FlowError {
    flow.failure().expect("the flow has not failed")
}

/// A flow that holds the request token RT1 and awaits the redirect.
fn awaiting_callback() -> TokenExchangeFlow {
    let mut flow = TokenExchangeFlow::new(api(), 120);
    let first = flow.advance_with(FlowEvent::ListenerStarted { port: 8200 }, 1_700_000_000, "n1");
    assert!(matches!(first, FlowAction::SendRequest { .. }));
    let second = flow.advance_with(response(GRANT), 1_700_000_000, "unused");
    assert!(matches!(second, FlowAction::PresentAuthorization { .. }));
    let third = flow.advance_with(FlowEvent::AuthorizationPresented, 1_700_000_000, "unused");
    assert!(matches!(third, FlowAction::AwaitCallback { timeout_seconds: 120 }));
    assert!(matches!(flow.state(), FlowState::AwaitingCallback { .. }));
    flow
}

#[test]
fn request_token_url_is_signed_and_names_the_callback() {
    assert_eq!(
        request_token_url(&api(), 8200, 1_700_000_000, "abcdef0123456789").unwrap(),
        "https://www.flickr.com/services/oauth/request_token?oauth_callback=http%3A%2F%2Flocalhost%3A8200%2Fauthorization&oauth_consumer_key=K&oauth_nonce=abcdef0123456789&oauth_signature_method=HMAC-SHA1&oauth_timestamp=1700000000&oauth_version=1.0&oauth_signature=5ZMBkIHgDiZC8h4qlAxbQanPhHg%3D"
    );
}

#[test]
fn access_token_url_is_signed_with_the_request_token() {
    let request_token = Token { token: "RT1".to_string(), secret: "RS1".to_string() };
    assert_eq!(
        access_token_url(&api(), &request_token, "V1", 1_700_000_001, "n2").unwrap(),
        "https://www.flickr.com/services/oauth/access_token?oauth_consumer_key=K&oauth_nonce=n2&oauth_signature_method=HMAC-SHA1&oauth_timestamp=1700000001&oauth_token=RT1&oauth_verifier=V1&oauth_version=1.0&oauth_signature=yzBc1HzIbgo%2BrLDaWhJR%2BcHmwcw%3D"
    );
}

#[test]
fn authorization_url_embeds_the_request_token_and_the_permission() {
    let plain = Token { token: "RT1".to_string(), secret: "RS1".to_string() };
    assert_eq!(
        authorization_url(&plain).unwrap(),
        "https://www.flickr.com/services/oauth/authorize?oauth_token=RT1&perms=write"
    );
    let odd = Token { token: "RT 1/~*".to_string(), secret: String::new() };
    assert_eq!(
        authorization_url(&odd).unwrap(),
        "https://www.flickr.com/services/oauth/authorize?oauth_token=RT+1%2F%7E*&perms=write"
    );
}

#[test]
fn a_new_flow_is_idle() {
    let flow = TokenExchangeFlow::new(api(), 30);
    assert!(matches!(flow.state(), FlowState::Idle));
    assert!(flow.access_token().is_none());
    assert!(flow.failure().is_none());
}

#[test]
fn bound_listener_leads_to_the_request_for_a_request_token() {
    let mut flow = TokenExchangeFlow::new(api(), 30);
    let action =
        flow.advance_with(FlowEvent::ListenerStarted { port: 8200 }, 1_700_000_000, "abcdef0123456789");
    assert_eq!(
        url_of(action),
        request_token_url(&api(), 8200, 1_700_000_000, "abcdef0123456789").unwrap()
    );
    assert!(matches!(flow.state(), FlowState::AwaitingRequestToken));
}

#[test]
fn occupied_port_fails_the_flow_with_port_unavailable() {
    let mut flow = TokenExchangeFlow::new(api(), 30);
    let action = flow.advance_with(FlowEvent::ListenerFailed, 0, "n");
    assert!(matches!(action, FlowAction::Finish));
    assert!(matches!(failure_of(&flow), FlowError::PortUnavailable));
}

#[test]
fn granted_request_token_leads_to_user_authorization() {
    let mut flow = TokenExchangeFlow::new(api(), 30);
    flow.advance_with(FlowEvent::ListenerStarted { port: 8200 }, 1_700_000_000, "n1");
    let action = flow.advance_with(
        response("oauth_token=RT1&oauth_token_secret=RS1&oauth_callback_confirmed=true"),
        1_700_000_000,
        "n1",
    );
    match action {
        FlowAction::PresentAuthorization { url } => assert_eq!(
            url,
            "https://www.flickr.com/services/oauth/authorize?oauth_token=RT1&perms=write"
        ),
        other => panic!("unexpected action {other:?}"),
    }
    match flow.state() {
        FlowState::AwaitingUserAuthorization { request_token } => {
            assert_eq!(request_token.token, "RT1");
            assert_eq!(request_token.secret, "RS1");
        }
        other => panic!("unexpected state {other:?}"),
    }
}

#[test]
fn rejected_request_token_fails_the_flow_and_never_waits() {
    let mut flow = TokenExchangeFlow::new(api(), 30);
    flow.advance_with(FlowEvent::ListenerStarted { port: 8200 }, 1_700_000_000, "n1");
    let action = flow.advance_with(response("oauth_problem=token_rejected"), 1_700_000_000, "n1");
    assert!(matches!(action, FlowAction::Finish));
    match failure_of(&flow) {
        FlowError::ProviderRejected(problem) => assert_eq!(problem, "token_rejected"),
        other => panic!("unexpected failure {other:?}"),
    }
    let later = vec![
        FlowEvent::AuthorizationPresented,
        FlowEvent::Callback { payload: payload("RT1", "V1") },
        FlowEvent::TimedOut,
        FlowEvent::Cancelled,
        response(GRANT),
        FlowEvent::ListenerStarted { port: 8200 },
    ];
    for event in later {
        let action = flow.advance_with(event, 1_700_000_002, "n3");
        assert!(matches!(action, FlowAction::Ignore));
        assert!(matches!(failure_of(&flow), FlowError::ProviderRejected(_)));
    }
}

#[test]
fn provider_problem_is_kept_word_for_word() {
    let (state, action) =
        on_request_token_answer("oauth_problem=signature_invalid%3A+bad+%26+worse&debug_sbs=GET%26x");
    assert!(matches!(action, FlowAction::Finish));
    match state {
        FlowState::Failed { error: FlowError::ProviderRejected(problem) } => {
            assert_eq!(problem, "signature_invalid: bad & worse")
        }
        other => panic!("unexpected state {other:?}"),
    }
    assert_eq!(
        FlowError::ProviderRejected("token_rejected".to_string()).to_text(),
        "the provider rejected the request: token_rejected"
    );
}

#[test]
fn answer_of_neither_shape_fails_the_flow_with_an_encoding_error() {
    for body in ["", "<html>busy</html>", "oauth_token=RT1", "oauth_problem=a&oauth_problem=b"] {
        let (state, action) = on_request_token_answer(body);
        assert!(matches!(action, FlowAction::Finish), "{body}");
        assert!(matches!(state, FlowState::Failed { error: FlowError::EncodingError }), "{body}");
        let (state, action) = on_access_token_answer(body);
        assert!(matches!(action, FlowAction::Finish), "{body}");
        assert!(matches!(state, FlowState::Failed { error: FlowError::EncodingError }), "{body}");
    }
}

#[test]
fn transport_failure_fails_the_flow() {
    let mut flow = TokenExchangeFlow::new(api(), 30);
    flow.advance_with(FlowEvent::ListenerStarted { port: 8200 }, 1_700_000_000, "n1");
    let action = flow.advance_with(FlowEvent::TransportFailed, 1_700_000_000, "n1");
    assert!(matches!(action, FlowAction::Finish));
    assert!(matches!(failure_of(&flow), FlowError::TransportError));

    let mut flow = awaiting_callback();
    flow.advance_with(FlowEvent::Callback { payload: payload("RT1", "V1") }, 1_700_000_001, "n2");
    let action = flow.advance_with(FlowEvent::TransportFailed, 1_700_000_001, "n2");
    assert!(matches!(action, FlowAction::Finish));
    assert!(matches!(failure_of(&flow), FlowError::TransportError));
}

#[test]
fn wait_for_the_callback_carries_the_configured_timeout() {
    let mut flow = TokenExchangeFlow::new(api(), 77);
    flow.advance_with(FlowEvent::ListenerStarted { port: 8200 }, 1_700_000_000, "n1");
    flow.advance_with(response(GRANT), 1_700_000_000, "n1");
    let action = flow.advance_with(FlowEvent::AuthorizationPresented, 1_700_000_000, "n1");
    assert!(matches!(action, FlowAction::AwaitCallback { timeout_seconds: 77 }));
}

#[test]
fn timeout_fails_the_flow_with_authorization_timeout() {
    let mut flow = awaiting_callback();
    let action = flow.advance_with(FlowEvent::TimedOut, 1_700_000_500, "n");
    assert!(matches!(action, FlowAction::Finish));
    assert!(matches!(failure_of(&flow), FlowError::AuthorizationTimeout));
    let late = flow.advance_with(
        FlowEvent::Callback { payload: payload("RT1", "V1") },
        1_700_000_501,
        "n",
    );
    assert!(matches!(late, FlowAction::Ignore));
    assert!(matches!(failure_of(&flow), FlowError::AuthorizationTimeout));
}

#[test]
fn callback_leads_to_the_exchange_with_its_verifier() {
    let mut flow = awaiting_callback();
    let action = flow.advance_with(
        FlowEvent::Callback { payload: payload("RT1", "V1") },
        1_700_000_001,
        "n2",
    );
    assert_eq!(
        url_of(action),
        "https://www.flickr.com/services/oauth/access_token?oauth_consumer_key=K&oauth_nonce=n2&oauth_signature_method=HMAC-SHA1&oauth_timestamp=1700000001&oauth_token=RT1&oauth_verifier=V1&oauth_version=1.0&oauth_signature=yzBc1HzIbgo%2BrLDaWhJR%2BcHmwcw%3D"
    );
    match flow.state() {
        FlowState::ExchangingAccessToken { request_token } => {
            assert_eq!(request_token.token, "RT1")
        }
        other => panic!("unexpected state {other:?}"),
    }
}

#[test]
fn callback_that_echoes_another_token_is_rejected() {
    for echoed in ["RT2", "", "rt1", "RT1 "] {
        let mut flow = awaiting_callback();
        let action = flow.advance_with(
            FlowEvent::Callback { payload: payload(echoed, "V1") },
            1_700_000_001,
            "n2",
        );
        assert!(matches!(action, FlowAction::Finish), "{echoed}");
        assert!(matches!(failure_of(&flow), FlowError::CallbackMismatch), "{echoed}");
    }
    let request_token = Token { token: "RT1".to_string(), secret: "RS1".to_string() };
    let (state, _) = on_callback(&api(), &request_token, &payload("other", "V1"), 1, "n");
    assert!(matches!(state, FlowState::Failed { error: FlowError::CallbackMismatch }));
}

#[test]
fn second_callback_is_ignored() {
    let mut flow = awaiting_callback();
    flow.advance_with(FlowEvent::Callback { payload: payload("RT1", "V1") }, 1_700_000_001, "n2");
    let again = flow.advance_with(
        FlowEvent::Callback { payload: payload("RT1", "V2") },
        1_700_000_002,
        "n3",
    );
    assert!(matches!(again, FlowAction::Ignore));
    assert!(matches!(flow.state(), FlowState::ExchangingAccessToken { .. }));
}

#[test]
fn no_exchange_is_issued_before_a_callback() {
    let events = || {
        vec![
            FlowEvent::ListenerStarted { port: 8200 },
            response(GRANT),
            response(ACCESS),
            FlowEvent::AuthorizationPresented,
            response(ACCESS),
            FlowEvent::ListenerStarted { port: 8200 },
            FlowEvent::AuthorizationPresented,
            response(GRANT),
        ]
    };
    let mut flow = TokenExchangeFlow::new(api(), 30);
    let mut requests = 0;
    for event in events() {
        if let FlowAction::SendRequest { url } = flow.advance_with(event, 1_700_000_000, "n") {
            requests += 1;
            assert!(url.starts_with("https://www.flickr.com/services/oauth/request_token?"));
        }
        assert!(!matches!(flow.state(), FlowState::ExchangingAccessToken { .. }));
        assert!(!matches!(flow.state(), FlowState::Complete { .. }));
    }
    assert_eq!(requests, 1);
    assert!(matches!(flow.state(), FlowState::AwaitingCallback { .. }));
}

#[test]
fn granted_access_token_completes_the_flow() {
    let mut flow = awaiting_callback();
    flow.advance_with(FlowEvent::Callback { payload: payload("RT1", "V1") }, 1_700_000_001, "n2");
    let action = flow.advance_with(response(ACCESS), 1_700_000_002, "n3");
    assert!(matches!(action, FlowAction::Finish));
    let token = flow.access_token().expect("the flow is complete");
    assert_eq!(token.token, "AT1");
    assert_eq!(token.secret, "AS1");
    assert!(flow.failure().is_none());
    let after = flow.advance_with(FlowEvent::Cancelled, 1_700_000_003, "n4");
    assert!(matches!(after, FlowAction::Ignore));
    assert_eq!(flow.access_token().unwrap().token, "AT1");
}

#[test]
fn access_token_and_secret_alone_complete_the_flow() {
    for body in [
        "oauth_token=AT&oauth_token_secret=AS",
        "oauth_token_secret=AS&unknown=1&oauth_token=AT&fullname=a&fullname=b",
    ] {
        let mut flow = awaiting_callback();
        flow.advance_with(FlowEvent::Callback { payload: payload("RT1", "V1") }, 1_700_000_001, "n2");
        let action = flow.advance_with(response(body), 1_700_000_002, "n3");
        assert!(matches!(action, FlowAction::Finish), "{body}");
        let token = flow.access_token().expect("the flow is complete");
        assert_eq!((token.token.as_str(), token.secret.as_str()), ("AT", "AS"), "{body}");
    }
}

#[test]
fn request_token_and_secret_alone_lead_to_user_authorization() {
    let (state, action) = on_request_token_answer("oauth_token_secret=RS1&oauth_token=RT1");
    assert!(matches!(action, FlowAction::PresentAuthorization { .. }));
    match state {
        FlowState::AwaitingUserAuthorization { request_token } => {
            assert_eq!((request_token.token.as_str(), request_token.secret.as_str()), ("RT1", "RS1"))
        }
        other => panic!("unexpected state {other:?}"),
    }
}

#[test]
fn problem_beside_a_repeated_base_string_is_surfaced() {
    for body in ["oauth_problem=nonce_used&debug_sbs=a&debug_sbs=b", "x=1&oauth_problem=nonce_used"] {
        let (state, _) = on_access_token_answer(body);
        match state {
            FlowState::Failed { error: FlowError::ProviderRejected(problem) } => {
                assert_eq!(problem, "nonce_used")
            }
            other => panic!("unexpected state {other:?}"),
        }
    }
}

#[test]
fn rejected_exchange_fails_the_flow() {
    let mut flow = awaiting_callback();
    flow.advance_with(FlowEvent::Callback { payload: payload("RT1", "V1") }, 1_700_000_001, "n2");
    let action = flow.advance_with(response("oauth_problem=verifier_invalid"), 1_700_000_002, "n3");
    assert!(matches!(action, FlowAction::Finish));
    match failure_of(&flow) {
        FlowError::ProviderRejected(problem) => assert_eq!(problem, "verifier_invalid"),
        other => panic!("unexpected failure {other:?}"),
    }
}

#[test]
fn cancellation_fails_a_running_flow_from_any_state() {
    let mut idle = TokenExchangeFlow::new(api(), 30);
    assert!(matches!(idle.advance_with(FlowEvent::Cancelled, 0, "n"), FlowAction::Finish));
    assert!(matches!(failure_of(&idle), FlowError::Cancelled));

    let mut waiting = awaiting_callback();
    assert!(matches!(waiting.advance_with(FlowEvent::Cancelled, 0, "n"), FlowAction::Finish));
    assert!(matches!(failure_of(&waiting), FlowError::Cancelled));

    let mut exchanging = awaiting_callback();
    exchanging.advance_with(FlowEvent::Callback { payload: payload("RT1", "V1") }, 1, "n");
    assert!(matches!(exchanging.advance_with(FlowEvent::Cancelled, 0, "n"), FlowAction::Finish));
    assert!(matches!(failure_of(&exchanging), FlowError::Cancelled));
}

#[test]
fn events_that_do_not_fit_the_state_change_nothing() {
    let mut flow = TokenExchangeFlow::new(api(), 30);
    for event in [
        response(GRANT),
        FlowEvent::TransportFailed,
        FlowEvent::AuthorizationPresented,
        FlowEvent::Callback { payload: payload("RT1", "V1") },
        FlowEvent::TimedOut,
    ] {
        assert!(matches!(flow.advance_with(event, 0, "n"), FlowAction::Ignore));
        assert!(matches!(flow.state(), FlowState::Idle));
    }
    let mut waiting = awaiting_callback();
    for event in [
        response(GRANT),
        FlowEvent::TransportFailed,
        FlowEvent::AuthorizationPresented,
        FlowEvent::ListenerStarted { port: 1 },
        FlowEvent::ListenerFailed,
    ] {
        assert!(matches!(waiting.advance_with(event, 0, "n"), FlowAction::Ignore));
        assert!(matches!(waiting.state(), FlowState::AwaitingCallback { .. }));
    }
}

#[test]
fn advance_reads_the_clock_and_draws_a_nonce() {
    let mut flow = TokenExchangeFlow::new(api(), 30);
    let url = url_of(flow.advance(FlowEvent::ListenerStarted { port: 8200 }));
    assert!(url.starts_with(
        "https://www.flickr.com/services/oauth/request_token?oauth_callback=http%3A%2F%2Flocalhost%3A8200%2Fauthorization&oauth_consumer_key=K&oauth_nonce="
    ));
    assert!(url.contains("&oauth_signature="));
    let mut other = TokenExchangeFlow::new(api(), 30);
    assert_ne!(url_of(other.advance(FlowEvent::ListenerStarted { port: 8200 })), url);
    assert!(matches!(flow.advance(FlowEvent::TimedOut), FlowAction::Ignore));
}

#[test]
fn failures_have_their_line_of_text() {
    assert_eq!(FlowError::EncodingError.to_text(), "a request or an answer could not be encoded");
    assert_eq!(FlowError::PortUnavailable.to_text(), "the callback port is unavailable");
    assert_eq!(FlowError::AuthorizationTimeout.to_text(), "no authorization arrived in time");
    assert_eq!(FlowError::TransportError.to_text(), "the provider could not be reached");
    assert_eq!(FlowError::CallbackMismatch.to_text(), "the callback echoed another token");
    assert_eq!(FlowError::Cancelled.to_text(), "the attempt was cancelled");
}
