use discord_interaction_handler::discord::{
    Interaction, InteractionCallbackType, InteractionData, InteractionType,
};
use discord_interaction_handler::handler::{
    authenticate_request, build_error_response, AuthenticatedRequest, build_json_response, complete_invocation,
    dispatch_interaction, HandlerAction, HttpResponse,
};
use discord_interaction_handler::lambda_invoker::{LambdaInvokerError, LambdaReply};
use ed25519_dalek::{Signer, SigningKey};

fn hex_of(bytes: &[u8]) -> String {
    bytes.iter().map(|b| format!("{:02x}", b)).collect()
}

fn interaction(kind: InteractionType, name: Option<&str>) -> Interaction {
    Interaction {
        id: "1".to_string(),
        application_id: "2".to_string(),
        interaction_type: kind,
        data: name.map(|n| InteractionData {
            id: None,
            name: Some(n.to_string()),
            command_type: None,
            resolved: None,
            options: None,
            custom_id: None,
            component_type: None,
            values: None,
            target_id: None,
            components: None,
            guild_id: None,
        }),
        guild_id: None,
        channel_id: None,
        member: None,
        user: None,
        token: "t".to_string(),
        version: 1,
        message: None,
        app_permissions: None,
        locale: None,
        guild_locale: None,
    }
}

fn rejected(r: Result<AuthenticatedRequest, HttpResponse>) -> HttpResponse {
    match r {
        Err(response) => response,
        Ok(_) => panic!("expected a rejection"),
    }
}

fn signed_request(body: &[u8]) -> AuthenticatedRequest {
    let signing = SigningKey::from_bytes(&[5u8; 32]);
    let public_key = hex_of(signing.verifying_key().as_bytes());
    let sig = hex_of(&signing.sign(&[b"1".as_slice(), body].concat()).to_bytes());
    match authenticate_request(&public_key, &sig, "1", body) {
        Ok(request) => request,
        Err(r) => panic!("rejected: {}", r.body),
    }
}

fn assert_apology(action: HandlerAction) {
    match action {
        HandlerAction::ReplyWith { status, response: r } => {
            assert_eq!(status, 200);
            assert_eq!(r.response_type, InteractionCallbackType::ChannelMessageWithSource);
            let d = r.data.expect("a message");
            assert_eq!(
                d.content.as_deref(),
                Some("An error occurred while processing your interaction. Please try again later.")
            );
            assert_eq!(d.flags, Some(64));
        }
        _ => panic!("expected the apology"),
    }
}

#[test]
fn test_build_error_response() {
    let response = build_error_response(400, "Test error".to_string());
    assert_eq!(response.status(), 400);
}

#[test]
fn test_build_json_response() {
    let mut data = serde_json::Map::new();
    data.insert("test".to_string(), serde_json::Value::String("value".to_string()));
    let data = serde_json::Value::Object(data);
    let response = build_json_response(200, serde_json::to_string(&data));
    assert_eq!(response.status(), 200);
    assert_eq!(response.body, r#"{"test":"value"}"#);
    assert_eq!(response.content_type, "application/json");
}

#[test]
fn error_body_is_an_escaped_json_object() {
    let response = build_error_response(401, "Test error".to_string());
    assert_eq!(response.body, r#"{"error":"Test error"}"#);
    let response = build_error_response(500, "a \"b\"\\\n\u{1}é".to_string());
    assert_eq!(response.body, "{\"error\":\"a \\\"b\\\"\\\\\\n\\u0001é\"}");
}

#[test]
fn failed_serialization_gives_the_empty_object() {
    let failed: Result<String, serde_json::Error> = serde_json::from_str::<String>("nope");
    let response = build_json_response(200, failed);
    assert_eq!(response.body, "{}");
}

#[test]
fn missing_headers_are_unauthorized() {
    let r = rejected(authenticate_request(&"0".repeat(64), "", "1", b"{}"));
    assert_eq!(r.status(), 401);
    assert_eq!(r.body, r#"{"error":"Missing signature header"}"#);
    let r = rejected(authenticate_request(&"0".repeat(64), "00", "", b"{}"));
    assert_eq!(r.status(), 401);
    assert_eq!(r.body, r#"{"error":"Missing timestamp header"}"#);
    let r = rejected(authenticate_request(&"0".repeat(64), "00", "1", b"{}"));
    assert_eq!(r.status(), 401);
    assert_eq!(r.body, r#"{"error":"Invalid request signature"}"#);
}

#[test]
fn signed_request_is_let_through() {
    let signing = SigningKey::from_bytes(&[9u8; 32]);
    let public_key = hex_of(signing.verifying_key().as_bytes());
    let body = br#"{"type":1}"#;
    let sig = hex_of(&signing.sign(&[b"42".as_slice(), body.as_slice()].concat()).to_bytes());
    let request = match authenticate_request(&public_key, &sig, "42", body) {
        Ok(request) => request,
        Err(r) => panic!("rejected: {}", r.body),
    };
    assert_eq!(request.body(), r#"{"type":1}"#);
    let forged = rejected(authenticate_request(&public_key, &sig, "43", body));
    assert_eq!(forged.status(), 401);
}

#[test]
fn unreadable_body_is_a_bad_request() {
    match dispatch_interaction(&signed_request(b"nope"), None) {
        HandlerAction::Reply(r) => {
            assert_eq!(r.status(), 400);
            assert_eq!(r.body, r#"{"error":"Invalid request body"}"#);
        }
        _ => panic!("expected a 400"),
    }
}

#[test]
fn ping_gets_pong() {
    match dispatch_interaction(&signed_request(b"{}"), Some(&interaction(InteractionType::Ping, None))) {
        HandlerAction::ReplyWith { status, response: r } => {
            assert_eq!(status, 200);
            assert_eq!(r.response_type, InteractionCallbackType::Pong);
            assert!(r.data.is_none());
        }
        _ => panic!("expected a pong"),
    }
}

#[test]
fn commands_are_handed_to_lambda() {
    let i = interaction(InteractionType::ApplicationCommand, Some("ping"));
    match dispatch_interaction(&signed_request(b"{}"), Some(&i)) {
        HandlerAction::Invoke(f) => assert_eq!(f, "discord-command-ping"),
        _ => panic!("expected an invocation"),
    }
}

#[test]
fn unroutable_interaction_gets_the_apology() {
    let i = interaction(InteractionType::ApplicationCommand, None);
    assert_apology(dispatch_interaction(&signed_request(b"{}"), Some(&i)));
}

#[test]
fn invocation_outcomes() {
    match complete_invocation(Ok(LambdaReply::Empty)) {
        HandlerAction::Reply(r) => {
            assert_eq!(r.status(), 200);
            assert_eq!(r.body, "null");
        }
        _ => panic!("expected a reply"),
    }
    match complete_invocation(Ok(LambdaReply::Payload(r#"{"type":4}"#.to_string()))) {
        HandlerAction::Reply(r) => {
            assert_eq!(r.status(), 200);
            assert_eq!(r.body, r#"{"type":4}"#);
        }
        _ => panic!("expected a reply"),
    }
    assert_apology(complete_invocation(Err(LambdaInvokerError::NoCustomId)));
    assert_apology(complete_invocation(Err(LambdaInvokerError::AwsSdkError("down".to_string()))));
}
