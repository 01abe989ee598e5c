//! The login state machine: validation, reply classification, the captcha
//! fallback, and the commit of a won token.

use oxycord::data::Data;
use oxycord::login::{
    classify, initial_state, on_captcha, on_reply, submit, Action, FormIssue, LoginAttempt,
    LoginOutcome, ServerReply, State, TokenField,
};

fn attempt(email: &str, password: &str) -> LoginAttempt {
    LoginAttempt { email: email.to_string(), password: password.to_string() }
}

fn token_reply(token: &str) -> ServerReply {
    ServerReply::Object {
        has_captcha_key: false,
        token: TokenField::Text(token.to_string()),
        has_errors: false,
    }
}

fn errors_reply() -> ServerReply {
    ServerReply::Object { has_captcha_key: false, token: TokenField::Absent, has_errors: true }
}

fn captcha_reply() -> ServerReply {
    ServerReply::Object { has_captcha_key: true, token: TokenField::Absent, has_errors: false }
}

/// A store as the driver sees it: the last written bytes, if any.
struct FakeStore {
    written: Option<Vec<u8>>,
}

impl FakeStore {
    fn contents(&self) -> Option<&[u8]> {
        self.written.as_deref()
    }
}

/// Performs the machine's one persisting action the way the driver does.
fn run_action(action: Action, data: &mut Data, store: &mut FakeStore) {
    if let Action::PersistToken { token } = action {
        store.written = Some(data.commit_token(token));
    }
}

#[test]
fn empty_email_is_rejected_locally() {
    let step = submit(String::new(), "hunter2".to_string());
    match step.state {
        State::Form { email, password, issue } => {
            assert_eq!(email, "");
            assert_eq!(password, "hunter2");
            assert_eq!(issue, Some(FormIssue::EmptyEmail));
        }
        _ => panic!("expected the form to be redisplayed"),
    }
    assert!(matches!(step.action, Action::Idle));
}

#[test]
fn empty_password_is_rejected_locally() {
    let step = submit("a@b.c".to_string(), String::new());
    match step.state {
        State::Form { issue, .. } => assert_eq!(issue, Some(FormIssue::EmptyPassword)),
        _ => panic!("expected the form to be redisplayed"),
    }
    assert!(matches!(step.action, Action::Idle));
}

#[test]
fn filled_form_is_submitted_with_fixed_fields() {
    let step = submit("a@b.c".to_string(), "hunter2".to_string());
    assert!(matches!(step.state, State::Submitting { .. }));
    match step.action {
        Action::SendLogin { request } => {
            assert_eq!(request.email, "a@b.c");
            assert_eq!(request.password, "hunter2");
            assert!(!request.undelete);
            assert_eq!(request.captcha_key, None);
            assert_eq!(request.login_source, None);
            assert_eq!(request.gift_code_sku_id, None);
        }
        _ => panic!("expected a login POST"),
    }
}

#[test]
fn captcha_key_takes_precedence_over_everything() {
    let reply = ServerReply::Object {
        has_captcha_key: true,
        token: TokenField::Text("t".to_string()),
        has_errors: true,
    };
    assert!(matches!(classify(reply), LoginOutcome::CaptchaRequired));
}

#[test]
fn token_takes_precedence_over_errors() {
    let reply = ServerReply::Object {
        has_captcha_key: false,
        token: TokenField::Text("t".to_string()),
        has_errors: true,
    };
    match classify(reply) {
        LoginOutcome::Success(t) => assert_eq!(t, "t"),
        _ => panic!("expected success"),
    }
}

#[test]
fn non_string_token_is_a_protocol_error() {
    let reply = ServerReply::Object {
        has_captcha_key: false,
        token: TokenField::NotText,
        has_errors: false,
    };
    assert!(matches!(classify(reply), LoginOutcome::ProtocolError(_)));
}

#[test]
fn unrecognized_object_is_a_protocol_error() {
    let reply = ServerReply::Object {
        has_captcha_key: false,
        token: TokenField::Absent,
        has_errors: false,
    };
    assert!(matches!(classify(reply), LoginOutcome::ProtocolError(_)));
}

#[test]
fn non_object_body_is_a_transport_error() {
    assert!(matches!(classify(ServerReply::NonObject), LoginOutcome::TransportError(_)));
}

#[test]
fn transport_failure_keeps_its_description() {
    match classify(ServerReply::Failed("connection refused".to_string())) {
        LoginOutcome::TransportError(d) => assert_eq!(d, "connection refused"),
        _ => panic!("expected a transport error"),
    }
}

#[test]
fn session_with_stored_token_skips_the_form() {
    let d = Data { discord_token: Some("t0".to_string()) };
    assert!(matches!(initial_state(&d), State::Success));
}

#[test]
fn session_without_stored_token_starts_at_the_empty_form() {
    let d = Data { discord_token: None };
    match initial_state(&d) {
        State::Form { email, password, issue } => {
            assert_eq!(email, "");
            assert_eq!(password, "");
            assert_eq!(issue, None);
        }
        _ => panic!("expected the empty form"),
    }
}

#[test]
fn token_reply_ends_in_success_and_persists() {
    // the flow for a reply of {"token": "abc123"}
    let mut data = Data::default();
    let mut store = FakeStore { written: None };

    let step = on_reply(attempt("a@b.c", "hunter2"), token_reply("abc123"));
    assert!(matches!(step.state, State::Success));
    run_action(step.action, &mut data, &mut store);

    assert_eq!(data.discord_token, Some("abc123".to_string()));
    let reloaded = Data::load(store.contents()).unwrap();
    assert_eq!(reloaded.discord_token, Some("abc123".to_string()));
}

#[test]
fn valid_credentials_scenario() {
    // submit, server grants {"token": "t1"}
    let mut data = Data::default();
    let mut store = FakeStore { written: None };

    let step = submit("a@b.c".to_string(), "hunter2".to_string());
    let att = match step.state {
        State::Submitting { attempt } => attempt,
        _ => panic!("expected an in-flight submission"),
    };
    let step = on_reply(att, token_reply("t1"));
    assert!(matches!(step.state, State::Success));
    run_action(step.action, &mut data, &mut store);

    let reloaded = Data::load(store.contents()).unwrap();
    assert_eq!(reloaded.discord_token, Some("t1".to_string()));
}

#[test]
fn errors_reply_redisplays_form_and_persists_nothing() {
    // the flow for a reply of {"errors": {"password": ["invalid"]}}
    let mut data = Data::default();
    let mut store = FakeStore { written: None };

    let step = on_reply(attempt("a@b.c", "hunter2"), errors_reply());
    match step.state {
        State::Form { email, password, issue } => {
            assert_eq!(email, "a@b.c");
            assert_eq!(password, "hunter2");
            assert_eq!(issue, Some(FormIssue::BadCredentials));
        }
        _ => panic!("expected the form back"),
    }
    run_action(step.action, &mut data, &mut store);

    assert_eq!(data.discord_token, None);
    assert_eq!(store.written, None);
    let reloaded = Data::load(store.contents()).unwrap();
    assert_eq!(reloaded.discord_token, None);
}

#[test]
fn captcha_reply_opens_the_captcha_flow_once() {
    let mut data = Data::default();
    let mut store = FakeStore { written: None };

    let step = on_reply(attempt("a@b.c", "hunter2"), captcha_reply());
    assert!(matches!(step.state, State::CaptchaPending));
    assert!(matches!(step.action, Action::OpenCaptcha));
    run_action(step.action, &mut data, &mut store);

    // not treated as success or wrong credentials: nothing persisted,
    // no form redisplayed
    assert_eq!(store.written, None);
    assert_eq!(data.discord_token, None);
}

#[test]
fn completed_captcha_scenario() {
    // server responds {"captcha_key": "x"}, the embedded flow yields "t2"
    let mut data = Data::default();
    let mut store = FakeStore { written: None };

    let step = on_reply(attempt("a@b.c", "hunter2"), captcha_reply());
    assert!(matches!(step.action, Action::OpenCaptcha));

    let step = on_captcha(Some("t2".to_string()));
    assert!(matches!(step.state, State::Success));
    run_action(step.action, &mut data, &mut store);

    let reloaded = Data::load(store.contents()).unwrap();
    assert_eq!(reloaded.discord_token, Some("t2".to_string()));
}

#[test]
fn abandoned_captcha_scenario() {
    // server responds {"captcha_key": "x"}, the window closes uncompleted
    let mut data = Data::default();
    let mut store = FakeStore { written: None };

    let step = on_reply(attempt("a@b.c", "hunter2"), captcha_reply());
    assert!(matches!(step.action, Action::OpenCaptcha));

    let step = on_captcha(None);
    match step.state {
        State::Terminated { code, .. } => assert_eq!(code, 0),
        _ => panic!("expected a deliberate termination"),
    }
    run_action(step.action, &mut data, &mut store);
    assert_eq!(store.written, None);
    assert_eq!(data.discord_token, None);
}

#[test]
fn protocol_fault_terminates_with_code_one() {
    let step = on_reply(
        attempt("a@b.c", "hunter2"),
        ServerReply::Object {
            has_captcha_key: false,
            token: TokenField::NotText,
            has_errors: false,
        },
    );
    match step.state {
        State::Terminated { code, .. } => assert_eq!(code, 1),
        _ => panic!("expected termination"),
    }
}

#[test]
fn transport_fault_terminates_with_code_one() {
    let step = on_reply(attempt("a@b.c", "hunter2"), ServerReply::Failed("timed out".to_string()));
    match step.state {
        State::Terminated { code, note } => {
            assert_eq!(code, 1);
            assert_eq!(note, "timed out");
        }
        _ => panic!("expected termination"),
    }
}
