use kiro::completion::{
    build_send_message_request, count_tokens, countdown_label, join_messages, map_api_error_to_completion_error,
    map_chat_event_to_completion_event, map_kiro_error_to_completion_error, CompletionError, CompletionEvent,
    RequestMessage, Role,
};
use kiro::chat_stream::ChatEvent;
use kiro::device_flow::{DeviceAuthorizationResponse, PollError, PollSchedule, START_URL};
use kiro::endpoints::{get_endpoint, get_oidc_endpoint};
use kiro::error::{status_text, ApiError, AuthError, KiroError};
use kiro::models::{list_models_url, ListModelsRequest, TokenLimits};
use kiro::provider::{
    available_regions, scopes, text_contains, AuthStatus, DeviceFlowPrompt, KiroModel, KiroModelDefinition, KiroState, Pane, TokenPlan,
    ToolChoice,
};
use kiro::text::{decimal_i64, decimal_u64};
use kiro::token::{BuilderIdToken, DeviceRegistration, Timestamp};
use kiro::user_context::OperatingSystem;

fn ts(secs: i64, nanos: u32) -> Timestamp {
    Timestamp { secs, nanos }
}

fn registration() -> DeviceRegistration {
    DeviceRegistration::registered("cid".into(), "secret".into(), 10, 20, &["a:b", "c:d"])
}

fn token(expires_at: Timestamp) -> BuilderIdToken {
    BuilderIdToken::issued(
        "access".into(),
        Some("refresh".into()),
        0,
        expires_at,
        "us-east-1".into(),
        &registration(),
    )
}

fn def(id: &str) -> KiroModelDefinition {
    KiroModelDefinition { id: id.into(), name: format!("{} name", id), rate_multiplier_bits: 1.0f64.to_bits() }
}

#[test]
fn decimal_and_hex_text() {
    assert_eq!(decimal_u64(0), "0");
    assert_eq!(decimal_u64(u64::MAX), "18446744073709551615");
    assert_eq!(decimal_i64(i64::MIN), "-9223372036854775808");
    assert_eq!(decimal_i64(-7), "-7");
}

#[test]
fn endpoints_by_region() {
    assert_eq!(get_endpoint("us-east-1"), "https://q.us-east-1.amazonaws.com");
    assert_eq!(get_endpoint("eu-central-1"), "https://q.eu-central-1.amazonaws.com");
    assert_eq!(get_endpoint("ap-south-1"), "https://q.us-east-1.amazonaws.com");
    assert_eq!(get_oidc_endpoint("eu-central-1"), "https://oidc.eu-central-1.amazonaws.com");
    assert_eq!(list_models_url("eu-central-1"), "https://q.eu-central-1.amazonaws.com?origin=KIRO_CLI");
    assert_eq!(ListModelsRequest::default().origin, "KIRO_CLI");
    assert_eq!(TokenLimits::default().max_input_tokens, None);
}

#[test]
fn http_status_errors() {
    let m = |s: u16| KiroError::from_http_status(s, "body".into()).message();
    assert_eq!(m(429), "API error: throttling: body");
    assert_eq!(m(400), "API error: validation error: body");
    assert_eq!(m(401), "API error: access denied: body");
    assert_eq!(m(403), "API error: access denied: body");
    assert_eq!(m(500), "API error: internal server error");
    assert_eq!(m(503), "API error: service unavailable");
    assert_eq!(m(404), "network error: HTTP 404 Not Found: body");
    assert_eq!(m(599), "network error: HTTP 599 <unknown status code>: body");
    assert_eq!(status_text(502), "502 Bad Gateway");
}

#[test]
fn error_messages() {
    assert_eq!(KiroError::Auth(AuthError::NotAuthenticated).message(), "authentication error: not authenticated");
    assert_eq!(KiroError::Auth(AuthError::TokenExpired).message(), "authentication error: token expired");
    assert_eq!(AuthError::RefreshFailed("x".into()).message(), "refresh failed: x");
    assert_eq!(AuthError::DeviceFlowFailed("y".into()).message(), "device flow failed: y");
    assert_eq!(KiroError::Io("disk".into()).message(), "IO error: disk");
    assert_eq!(KiroError::Other("plain".into()).message(), "plain");
    assert_eq!(ApiError::InternalServerError.message(), "internal server error");
}

#[test]
fn token_expiry() {
    let t = token(ts(1000, 500));
    assert!(!t.is_expired_at(ts(999, 999)));
    assert!(!t.is_expired_at(ts(1000, 499)));
    assert!(t.is_expired_at(ts(1000, 500)));
    assert!(t.expires_soon_at(ts(700, 500), 300));
    assert!(!t.expires_soon_at(ts(699, 999_999_999), 300));
    assert!(!t.expires_soon_at(ts(700, 499), 300));
    assert_eq!(t.expires_soon_at(ts(1000, 500), 0), t.is_expired_at(ts(1000, 500)));
    let long_lived = token(ts(4_000_000_000, 0));
    assert!(!long_lived.is_expired());
    assert!(token(ts(1, 0)).is_expired());
    assert!(token(ts(1, 0)).expires_soon(300));
}

#[test]
fn token_issue_and_refresh() {
    let reg = registration();
    assert_eq!(reg.start_url, START_URL);
    assert_eq!(reg.scopes, vec!["a:b".to_string(), "c:d".to_string()]);
    let t = BuilderIdToken::issued("a1".into(), None, 3600, ts(100, 7), "eu-central-1".into(), &reg);
    assert_eq!(t.refresh_token, "");
    assert_eq!(t.expires_at, ts(3700, 7));
    assert_eq!(t.region, "eu-central-1");
    assert_eq!(t.scopes, reg.scopes);
    let kept = t.refreshed("a2".into(), None, 60, ts(5000, 0));
    assert_eq!(kept.access_token, "a2");
    assert_eq!(kept.refresh_token, "");
    assert_eq!(kept.expires_at, ts(5060, 0));
    let renewed = t.refreshed("a3".into(), Some("r3".into()), -10, ts(5000, 1));
    assert_eq!(renewed.refresh_token, "r3");
    assert_eq!(renewed.expires_at, ts(4990, 1));
    assert_eq!(renewed.start_url, reg.start_url);
}

#[test]
fn oidc_errors_and_polling() {
    assert!(matches!(PollError::from_oidc_error("authorization_pending".into(), None), PollError::AuthorizationPending));
    assert!(matches!(PollError::from_oidc_error("slow_down".into(), None), PollError::SlowDown));
    assert!(matches!(PollError::from_oidc_error("expired_token".into(), None), PollError::ExpiredToken));
    assert!(matches!(PollError::from_oidc_error("access_denied".into(), None), PollError::AccessDenied));
    let e = PollError::from_oidc_error("invalid_grant".into(), Some("bad \"code\"".into()));
    assert_eq!(e.message(), "Token creation failed: invalid_grant - Some(\"bad \\\"code\\\"\")");
    let e2 = PollError::from_oidc_error("x".into(), None);
    assert_eq!(e2.message(), "Token creation failed: x - None");
    assert_eq!(PollError::ExpiredToken.message(), "token expired");

    let mut s = PollSchedule::new(5, ts(100, 0));
    assert!(s.before_attempt_at(ts(99, 0)).is_none());
    assert!(matches!(s.before_attempt_at(ts(100, 0)), Some(PollError::ExpiredToken)));
    assert!(s.after_attempt(Err(PollError::AuthorizationPending)).is_none());
    assert_eq!(s.interval_secs, 5);
    assert!(s.after_attempt(Err(PollError::SlowDown)).is_none());
    assert!(s.after_attempt(Err(PollError::SlowDown)).is_none());
    assert_eq!(s.interval_secs, 15);
    assert!(matches!(s.after_attempt(Err(PollError::AccessDenied)), Some(Err(PollError::AccessDenied))));
    let done = s.after_attempt(Ok(token(ts(1, 0))));
    assert!(matches!(done, Some(Ok(t)) if t.access_token == "access"));
    assert!(matches!(PollSchedule::new(1, ts(0, 0)).before_attempt(), Some(PollError::ExpiredToken)));
}

#[test]
fn provider_state_and_models() {
    let mut st = KiroState::new();
    assert_eq!(st.region, "us-east-1");
    assert!(matches!(st.auth_status, AuthStatus::SignedOut));
    assert!(!st.is_authenticated_at(ts(0, 0)));
    assert_eq!(st.token_plan_at(ts(0, 0)), TokenPlan::Unavailable);
    st.set_token(Some(token(ts(1000, 0))));
    assert!(matches!(st.auth_status, AuthStatus::Authenticated));
    assert!(st.is_authenticated_at(ts(999, 0)));
    assert!(!st.is_authenticated_at(ts(1000, 0)));
    assert_eq!(st.token_plan_at(ts(0, 0)), TokenPlan::Unavailable);
    st.set_registration(Some(registration()));
    assert_eq!(st.token_plan_at(ts(0, 0)), TokenPlan::Use);
    assert_eq!(st.token_plan_at(ts(700, 0)), TokenPlan::Refresh);
    st.set_auth_status(AuthStatus::Error("bad".into()));
    assert!(matches!(st.auth_status, AuthStatus::Error(ref m) if m == "bad"));
    st.set_token(None);
    assert!(matches!(st.auth_status, AuthStatus::SignedOut));
    st.set_region("eu-central-1".into());
    assert_eq!(st.region, "eu-central-1");

    let auto = st.default_model();
    assert_eq!((auto.model_id.as_str(), auto.model_name.as_str(), auto.max_tokens), ("auto", "Auto", 200000));
    assert_eq!(st.provided_models().len(), 1);
    st.set_available_models(vec![def("sonnet"), def("x-haiku-4"), def("auto")], Some("sonnet".into()));
    assert!(st.models_loaded);
    assert_eq!(st.default_model().model_id, "sonnet");
    assert_eq!(st.default_model().model_name, "sonnet name");
    assert_eq!(st.default_fast_model().model_id, "x-haiku-4");
    let ids: Vec<String> = st.provided_models().into_iter().map(|m| m.model_id).collect();
    assert_eq!(ids, vec!["sonnet", "x-haiku-4", "auto"]);
    st.set_available_models(vec![def("opus")], Some("missing".into()));
    assert_eq!(st.default_model().model_id, "auto");
    assert_eq!(st.default_fast_model().model_id, "auto");
}

#[test]
fn device_flow_prompt() {
    let auth = DeviceAuthorizationResponse {
        device_code: "dc".into(),
        user_code: "ABCD-EFGH".into(),
        verification_uri: "https://device.sso.us-east-1.amazonaws.com/".into(),
        verification_uri_complete: None,
        expires_in: 600,
        interval: 5,
    };
    let p = DeviceFlowPrompt::for_authorization(&auth, ts(1000, 5));
    assert_eq!(p.user_code, "ABCD-EFGH");
    assert_eq!(p.verification_uri, "https://device.sso.us-east-1.amazonaws.com/");
    assert_eq!(p.expires_at, ts(1600, 5));
    assert_eq!(countdown_label(p.expires_at, ts(1000, 5)), "Expires in 10:00");
}

#[test]
fn settings_pane() {
    let mut st = KiroState::new();
    assert!(matches!(st.pane_at(ts(0, 0)), Pane::SignIn));
    let prompt = DeviceFlowPrompt { user_code: "WXYZ".into(), verification_uri: "https://v".into(), expires_at: ts(60, 0) };
    st.set_auth_status(AuthStatus::SigningIn { prompt });
    match st.pane_at(ts(0, 0)) {
        Pane::DeviceCode { prompt } => {
            assert_eq!(prompt.user_code, "WXYZ");
            assert_eq!(prompt.verification_uri, "https://v");
            assert_eq!(prompt.expires_at, ts(60, 0));
        }
        other => panic!("unexpected pane {:?}", other),
    }
    st.set_token(Some(token(ts(100, 0))));
    assert!(matches!(st.pane_at(ts(99, 0)), Pane::SignedIn));
    assert!(matches!(st.pane_at(ts(100, 0)), Pane::SignIn));
    st.set_auth_status(AuthStatus::Error("access denied".into()));
    assert!(matches!(st.pane_at(ts(0, 0)), Pane::Error { ref message } if message == "access denied"));
}

#[test]
fn refresh_outcomes() {
    let mut st = KiroState::new();
    st.set_registration(Some(registration()));
    st.set_token(Some(token(ts(1000, 0))));
    // A refreshed token is stored and used.
    assert!(st.after_refresh_at(ts(1000, 0), Some(token(ts(5000, 0))), ts(900, 0)));
    assert_eq!(st.token.as_ref().map(|t| t.expires_at), Some(ts(5000, 0)));
    assert!(matches!(st.auth_status, AuthStatus::Authenticated));
    // A failed refresh keeps the old token while it has not expired.
    assert!(st.after_refresh_at(ts(5000, 0), None, ts(4999, 999_999_999)));
    assert_eq!(st.token.as_ref().map(|t| t.expires_at), Some(ts(5000, 0)));
    // ... and signs out once it has.
    assert!(!st.after_refresh_at(ts(5000, 0), None, ts(5000, 0)));
    assert!(st.token.is_none());
    assert!(matches!(st.auth_status, AuthStatus::SignedOut));
    assert!(st.registration.is_some());
}

#[test]
fn model_identity() {
    let m = KiroModel::from_definition(&def("sonnet"));
    assert_eq!(m.id(), "kiro-sonnet");
    assert_eq!(m.telemetry_id(), "kiro/sonnet");
    assert_eq!(m.name(), "sonnet name");
    assert_eq!(m.max_token_count(), 200000);
    assert_eq!(m.max_output_tokens(), Some(8192));
    assert!(m.supports_tools() && m.supports_images() && m.supports_streaming_tools());
    assert!(m.supports_tool_choice(ToolChoice::Auto));
    assert!(m.supports_tool_choice(ToolChoice::NoTool));
    assert!(!m.supports_tool_choice(ToolChoice::Any));
    assert_eq!(KiroModel::auto().id(), "kiro-auto");
}

#[test]
fn config_values() {
    assert_eq!(scopes(), vec!["codewhisperer:completions", "codewhisperer:analysis", "codewhisperer:conversations"]);
    assert_eq!(available_regions()[1], ("eu-central-1", "EU (Frankfurt)"));
    assert!(text_contains("model-haiku-4.5", "haiku"));
    assert!(text_contains("haiku", "haiku"));
    assert!(!text_contains("haik", "haiku"));
    assert!(text_contains("ünïcode", "ïc"));
}

#[test]
fn request_text_from_messages() {
    let msgs = vec![
        RequestMessage { role: Role::System, text: "be brief".into() },
        RequestMessage { role: Role::User, text: "hi".into() },
        RequestMessage { role: Role::Assistant, text: "hello".into() },
    ];
    assert_eq!(join_messages(&msgs), "System: be brief\n\nhi\n\nAssistant: hello");
    assert_eq!(join_messages(&Vec::new()), "");
    let r = build_send_message_request(&msgs, Some("thread".into()), "auto", OperatingSystem::Windows, None);
    let m = &r.conversation_state.current_message.user_input_message;
    assert_eq!(m.model_id, None);
    assert_eq!(m.content, "System: be brief\n\nhi\n\nAssistant: hello");
    assert_eq!(r.conversation_state.conversation_id, "thread");
    assert_eq!(m.user_input_message_context.env_state.operating_system, "windows");
    let r2 = build_send_message_request(&msgs, None, "sonnet", OperatingSystem::Linux, Some("/w".into()));
    assert_eq!(r2.conversation_state.current_message.user_input_message.model_id.as_deref(), Some("sonnet"));
    assert_eq!(r2.conversation_state.conversation_id.len(), 36);
}

#[test]
fn completion_mapping() {
    assert!(matches!(
        map_api_error_to_completion_error(ApiError::Throttling { message: "m".into(), retry_after: Some(7) }),
        CompletionError::RateLimitExceeded { retry_after_secs: Some(7) }
    ));
    assert!(matches!(
        map_api_error_to_completion_error(ApiError::ServiceUnavailable),
        CompletionError::ServerOverloaded { retry_after_secs: None }
    ));
    assert!(matches!(
        map_api_error_to_completion_error(ApiError::InternalServerError),
        CompletionError::ApiInternalServerError { message } if message == "Internal server error"
    ));
    assert!(matches!(
        map_kiro_error_to_completion_error(KiroError::Auth(AuthError::TokenExpired)),
        CompletionError::AuthenticationError { message } if message == "token expired"
    ));
    assert!(matches!(
        map_kiro_error_to_completion_error(KiroError::Network("down".into())),
        CompletionError::HttpSend { message } if message == "down"
    ));
    assert!(matches!(
        map_chat_event_to_completion_event(Ok(ChatEvent::TextDelta { content: "t".into() })),
        Ok(CompletionEvent::Text(t)) if t == "t"
    ));
    assert!(matches!(map_chat_event_to_completion_event(Ok(ChatEvent::End)), Ok(CompletionEvent::Stop)));
    assert!(matches!(
        map_chat_event_to_completion_event(Ok(ChatEvent::Metadata { conversation_id: "c".into(), message_id: "m".into() })),
        Ok(CompletionEvent::Started)
    ));
    let e = map_chat_event_to_completion_event(Ok(ChatEvent::Error { message: "oops".into(), code: Some("E1".into()) }));
    assert!(matches!(e, Err(CompletionError::Other { message }) if message == "Kiro API error: oops (code: Some(\"E1\"))"));
    let e = map_chat_event_to_completion_event(Ok(ChatEvent::Error { message: "oops".into(), code: None }));
    assert!(matches!(e, Err(CompletionError::Other { message }) if message == "Kiro API error: oops (code: None)"));
}

#[test]
fn countdown() {
    assert_eq!(countdown_label(ts(165, 0), ts(100, 0)), "Expires in 1:05");
    assert_eq!(countdown_label(ts(165, 0), ts(100, 1)), "Expires in 1:04");
    assert_eq!(countdown_label(ts(100, 0), ts(200, 0)), "Expires in 0:00");
    assert_eq!(countdown_label(ts(100 + 3600 + 59, 0), ts(100, 0)), "Expires in 60:59");
}

#[test]
fn token_counting() {
    let msgs = vec![RequestMessage { role: Role::User, text: "hello".into() }];
    assert_eq!(count_tokens(&msgs), Some(8));
    assert_eq!(count_tokens(&Vec::new()), Some(3));
}
