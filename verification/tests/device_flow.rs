use iasql::device::{
    flow_start, flow_step, poll_request_body, FlowAction, FlowEvent, FlowState,
};
use iasql::error::AuthError;
use iasql::login::complete_login;
use iasql::session::SessionTokenProvider;
use iasql::store::CredentialStore;

const CODE_RESPONSE: &str = "{\"device_code\":\"abc\",\"user_code\":\"WXYZ-1234\",\"verification_uri_complete\":\"https://auth.example/confirm?x=abc\",\"interval\":5}";

fn start_polling() -> (FlowState, u64) {
    let (state, action) = flow_start();
    assert_eq!(action, FlowAction::RequestDeviceCode);
    let (state, action) = flow_step(
        state,
        FlowEvent::CodeResponse(Ok(CODE_RESPONSE.to_string())),
    );
    assert_eq!(action, FlowAction::ShowUserCode);
    let (state, action) = flow_step(state, FlowEvent::ConfirmOutcome(true));
    let delay = match action {
        FlowAction::PollAfter(d) => d,
        other => panic!("expected a poll to be scheduled, got {:?}", other),
    };
    (state, delay)
}

#[test]
fn device_code_response_opens_a_session() {
    let (state, _) = flow_start();
    let (state, action) = flow_step(
        state,
        FlowEvent::CodeResponse(Ok(CODE_RESPONSE.to_string())),
    );
    assert_eq!(action, FlowAction::ShowUserCode);
    match state {
        FlowState::AwaitingConfirmation(sess) => {
            assert_eq!(sess.device_code, "abc");
            assert_eq!(sess.user_code, "WXYZ-1234");
            assert_eq!(sess.verification_uri, "https://auth.example/confirm?x=abc");
            assert_eq!(sess.interval, 5);
            assert_eq!(sess.poll_delay, 6);
        }
        other => panic!("expected the confirmation state, got {:?}", state_name(&other)),
    }
}

#[test]
fn first_poll_waits_a_full_interval_plus_one() {
    // A declared interval of 5 seconds means no poll sooner than 6
    // seconds after entering the polling state.
    let (_, delay) = start_polling();
    assert_eq!(delay, 6);
}

#[test]
fn pending_twice_then_granted_makes_exactly_three_polls() {
    let (state, first_delay) = start_polling();
    let mut polls_requested: u32 = 1; // the poll the confirmation scheduled
    assert_eq!(first_delay, 6);

    let pending = "{\"error\":\"authorization_pending\"}".to_string();
    let (state, action) = flow_step(state, FlowEvent::PollResponse(Ok(pending.clone())));
    assert_eq!(action, FlowAction::PollAfter(6));
    polls_requested += 1;
    let (state, action) = flow_step(state, FlowEvent::PollResponse(Ok(pending)));
    assert_eq!(action, FlowAction::PollAfter(6));
    polls_requested += 1;

    let granted = "{\"access_token\":\"tok123\"}".to_string();
    let (state, action) = flow_step(state, FlowEvent::PollResponse(Ok(granted)));
    assert_eq!(action, FlowAction::Stop);
    assert_eq!(polls_requested, 3);

    let token = match state {
        FlowState::Granted(t) => t,
        other => panic!("expected a granted flow, got {:?}", state_name(&other)),
    };
    assert_eq!(token, "tok123");

    // On grant the token is persisted before it is published.
    let mut store = CredentialStore::new();
    let mut provider = SessionTokenProvider::new();
    complete_login(&mut store, &mut provider, &token);
    assert_eq!(store.load(), Some("tok123".to_string()));
    assert_eq!(provider.get_token(), "tok123".to_string());
}

#[test]
fn expired_token_stops_polling_for_good() {
    let (state, _) = start_polling();
    let expired = "{\"error\":\"expired_token\"}".to_string();
    let (state, action) = flow_step(state, FlowEvent::PollResponse(Ok(expired)));
    assert_eq!(action, FlowAction::Stop);
    match &state {
        FlowState::Failed(AuthError::GrantExpired) => {}
        other => panic!("expected expiry, got {:?}", state_name(other)),
    }

    // Zero further polls: whatever comes back later, the machine stays
    // failed and directs nothing.
    let again = "{\"error\":\"authorization_pending\"}".to_string();
    let (state, action) = flow_step(state, FlowEvent::PollResponse(Ok(again)));
    assert_eq!(action, FlowAction::Stop);
    match &state {
        FlowState::Failed(AuthError::GrantExpired) => {}
        other => panic!("expected the failure to stay, got {:?}", state_name(other)),
    }
}

#[test]
fn any_other_error_is_a_denial_with_the_reason_verbatim() {
    let (state, _) = start_polling();
    let denied = "{\"error\":\"access_denied\"}".to_string();
    let (state, action) = flow_step(state, FlowEvent::PollResponse(Ok(denied)));
    assert_eq!(action, FlowAction::Stop);
    match state {
        FlowState::Failed(AuthError::GrantDenied(reason)) => {
            assert_eq!(reason, "access_denied");
        }
        other => panic!("expected a denial, got {:?}", state_name(&other)),
    }
}

#[test]
fn answer_with_neither_field_keeps_polling() {
    let (state, _) = start_polling();
    let (state, action) = flow_step(state, FlowEvent::PollResponse(Ok("{}".to_string())));
    assert_eq!(action, FlowAction::PollAfter(6));
    assert!(matches!(state, FlowState::Polling(_)));
}

#[test]
fn malformed_answers_are_fatal() {
    let (state, _) = flow_start();
    let (state, action) = flow_step(
        state,
        FlowEvent::CodeResponse(Ok("not json at all".to_string())),
    );
    assert_eq!(action, FlowAction::Stop);
    assert!(matches!(state, FlowState::Failed(AuthError::MalformedResponse)));

    let (polling, _) = start_polling();
    let (state, action) = flow_step(
        polling,
        FlowEvent::PollResponse(Ok("garbage".to_string())),
    );
    assert_eq!(action, FlowAction::Stop);
    assert!(matches!(state, FlowState::Failed(AuthError::MalformedResponse)));
}

#[test]
fn transport_failures_are_fatal() {
    let (state, _) = flow_start();
    let (state, action) = flow_step(
        state,
        FlowEvent::CodeResponse(Err("connection refused".to_string())),
    );
    assert_eq!(action, FlowAction::Stop);
    match state {
        FlowState::Failed(AuthError::Transport(m)) => assert_eq!(m, "connection refused"),
        other => panic!("expected a transport failure, got {:?}", state_name(&other)),
    }

    let (polling, _) = start_polling();
    let (state, action) = flow_step(
        polling,
        FlowEvent::PollResponse(Err("reset by peer".to_string())),
    );
    assert_eq!(action, FlowAction::Stop);
    assert!(matches!(state, FlowState::Failed(AuthError::Transport(_))));
}

#[test]
fn declined_confirmation_aborts_without_error() {
    let (state, _) = flow_start();
    let (state, _) = flow_step(
        state,
        FlowEvent::CodeResponse(Ok(CODE_RESPONSE.to_string())),
    );
    let (state, action) = flow_step(state, FlowEvent::ConfirmOutcome(false));
    assert_eq!(action, FlowAction::Stop);
    assert!(matches!(state, FlowState::Aborted));
}

#[test]
fn giant_declared_interval_does_not_overflow() {
    let body = format!(
        "{{\"device_code\":\"abc\",\"user_code\":\"U\",\
         \"verification_uri_complete\":\"https://a\",\"interval\":{}}}",
        u64::MAX
    );
    let (state, _) = flow_start();
    let (state, _) = flow_step(state, FlowEvent::CodeResponse(Ok(body)));
    match state {
        FlowState::AwaitingConfirmation(sess) => {
            assert_eq!(sess.interval, u64::MAX);
            assert_eq!(sess.poll_delay, u64::MAX);
        }
        other => panic!("expected the confirmation state, got {:?}", state_name(&other)),
    }
}

#[test]
fn poll_body_carries_the_session_device_code() {
    let body = poll_request_body("abc");
    assert_eq!(
        body,
        "{\"client_id\":\"FWIYK0GhLdMCLid0hxjmEEwxaifdAkpQ\",\"device_code\":\"abc\",\"grant_type\":\"urn:ietf:params:oauth:grant-type:device_code\"}"
    );
}

fn state_name(state: &FlowState) -> &'static str {
    match state {
        FlowState::RequestingCode => "requesting a code",
        FlowState::AwaitingConfirmation(_) => "awaiting confirmation",
        FlowState::Polling(_) => "polling",
        FlowState::Granted(_) => "granted",
        FlowState::Aborted => "aborted",
        FlowState::Failed(_) => "failed",
    }
}
