use flickr_api::callback::{
    callback_url, CallbackListener, CallbackQuery, ListenerReply, CALLBACK_PATH, CALLBACK_PORT,
    CONFIRMATION_PAGE, REPLY_CONTENT_TYPE,
};

#[test]
fn callback_url_names_the_loopback_port_and_path() {
    assert_eq!(callback_url(CALLBACK_PORT), "http://localhost:8200/authorization");
    assert_eq!(callback_url(0), "http://localhost:0/authorization");
    assert_eq!(callback_url(u32::MAX), "http://localhost:4294967295/authorization");
    assert_eq!(CALLBACK_PATH, "/authorization");
    assert_eq!(REPLY_CONTENT_TYPE, "text/html");
}

#[test]
fn callback_query_holds_the_verifier_and_the_echoed_token() {
    let payload = CallbackQuery::parse("oauth_verifier=V1&oauth_token=RT1").unwrap();
    assert_eq!(payload.oauth_verifier, "V1");
    assert_eq!(payload.oauth_token, "RT1");
}

#[test]
fn callback_query_decodes_its_values_and_ignores_other_fields() {
    let payload =
        CallbackQuery::parse("state=x&oauth_token=a%2Fb+c&other=1&oauth_verifier=%C3%A9").unwrap();
    assert_eq!(payload.oauth_token, "a/b c");
    assert_eq!(payload.oauth_verifier, "é");
}

#[test]
fn missing_callback_fields_are_empty() {
    let empty = CallbackQuery::parse("").unwrap();
    assert_eq!(empty.oauth_token, "");
    assert_eq!(empty.oauth_verifier, "");
    let half = CallbackQuery::parse("oauth_verifier=V1").unwrap();
    assert_eq!(half.oauth_token, "");
    assert_eq!(half.oauth_verifier, "V1");
    let default = CallbackQuery::default();
    assert_eq!(default.oauth_token, "");
    assert_eq!(default.oauth_verifier, "");
}

#[test]
fn repeated_callback_field_is_no_payload() {
    assert!(CallbackQuery::parse("oauth_token=a&oauth_token=b&oauth_verifier=V1").is_none());
    assert!(CallbackQuery::parse("oauth_verifier=V1&oauth_token=a&oauth_verifier=V1").is_none());
    let pairs = vec![
        ("oauth_token".to_string(), "a".to_string()),
        ("oauth_token".to_string(), "a".to_string()),
    ];
    assert!(CallbackQuery::from_pairs(&pairs).is_none());
}

#[test]
fn first_redirect_is_delivered_and_confirmed() {
    let mut listener = CallbackListener::new();
    assert!(listener.is_accepting());
    let (reply, delivered) =
        listener.handle("GET", "/authorization", "oauth_verifier=V1&oauth_token=RT1");
    assert_eq!(reply, ListenerReply::Confirmation);
    assert_eq!(reply.status(), 200);
    assert_eq!(reply.body(), CONFIRMATION_PAGE);
    assert!(reply.body().contains("You may close this window."));
    let payload = delivered.unwrap();
    assert_eq!(payload.oauth_token, "RT1");
    assert_eq!(payload.oauth_verifier, "V1");
    assert!(!listener.is_accepting());
}

#[test]
fn later_redirects_are_confirmed_but_not_delivered() {
    let mut listener = CallbackListener::new();
    let (_, first) = listener.handle("GET", "/authorization", "oauth_verifier=V1&oauth_token=RT1");
    assert!(first.is_some());
    for query in ["oauth_verifier=V1&oauth_token=RT1", "oauth_verifier=V2&oauth_token=RT2", ""] {
        let (reply, delivered) = listener.handle("GET", "/authorization", query);
        assert_eq!(reply, ListenerReply::Confirmation);
        assert!(delivered.is_none());
        assert!(!listener.is_accepting());
    }
}

#[test]
fn at_most_one_payload_is_delivered_among_many_requests() {
    let requests = [
        ("GET", "/", "oauth_verifier=V0&oauth_token=RT0"),
        ("POST", "/authorization", "oauth_verifier=V0&oauth_token=RT0"),
        ("GET", "/authorization", "oauth_token=a&oauth_token=b"),
        ("GET", "/authorization", "oauth_verifier=V1&oauth_token=RT1"),
        ("GET", "/authorization", "oauth_verifier=V2&oauth_token=RT2"),
        ("GET", "/authorization/", "oauth_verifier=V3&oauth_token=RT3"),
        ("GET", "/authorization", "oauth_verifier=V4&oauth_token=RT4"),
    ];
    let mut listener = CallbackListener::new();
    let mut delivered = Vec::new();
    for (method, path, query) in requests {
        if let (_, Some(payload)) = listener.handle(method, path, query) {
            delivered.push(payload.oauth_verifier);
        }
    }
    assert_eq!(delivered, vec!["V1".to_string()]);
}

#[test]
fn other_requests_are_refused_and_deliver_nothing() {
    let mut listener = CallbackListener::new();
    let (reply, delivered) = listener.handle("GET", "/favicon.ico", "");
    assert_eq!((reply, delivered.is_none()), (ListenerReply::NotFound, true));
    assert_eq!(reply.status(), 404);
    assert_eq!(reply.body(), "");
    let (reply, delivered) = listener.handle("POST", "/authorization", "oauth_verifier=V1");
    assert_eq!((reply, delivered.is_none()), (ListenerReply::MethodNotAllowed, true));
    assert_eq!(reply.status(), 405);
    let (reply, delivered) = listener.handle("get", "/authorization", "oauth_verifier=V1");
    assert_eq!((reply, delivered.is_none()), (ListenerReply::MethodNotAllowed, true));
    let (reply, delivered) =
        listener.handle("GET", "/authorization", "oauth_verifier=V1&oauth_verifier=V2");
    assert_eq!((reply, delivered.is_none()), (ListenerReply::BadRequest, true));
    assert_eq!(reply.status(), 400);
    let (reply, _) = listener.handle("POST", "/elsewhere", "oauth_verifier=V1&oauth_verifier=V2");
    assert_eq!(reply, ListenerReply::NotFound);
    assert!(listener.is_accepting());
}
