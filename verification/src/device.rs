use vstd::prelude::*;
use crate::error::AuthError;
use crate::error::AuthErrorView;

verus! {

// ---------------------------------------------------------------------------
// What the two authorization endpoints answer.
// ---------------------------------------------------------------------------

/// The fields this client consumes out of a device-code response.
pub struct DeviceCodeResponse {
    pub device_code: String,
    pub user_code: String,
    pub verification_uri: String,
    /// The polling interval the server declares, in seconds.
    pub interval: u64,
}

/// The mathematical shape of a [`DeviceCodeResponse`].
pub struct DeviceFieldsView {
    pub device_code: Seq<char>,
    pub user_code: Seq<char>,
    pub verification_uri: Seq<char>,
    pub interval: u64,
}

impl View for DeviceCodeResponse {
    type V = DeviceFieldsView;

    open spec fn view(&self) -> DeviceFieldsView {
        DeviceFieldsView {
            device_code: self.device_code@,
            user_code: self.user_code@,
            verification_uri: self.verification_uri@,
            interval: self.interval,
        }
    }
}

/// The fields this client consumes out of a token-endpoint response: a
/// token on success, an error code otherwise, either possibly absent.
pub struct TokenResponse {
    pub access_token: Option<String>,
    pub error: Option<String>,
}

/// The mathematical shape of a [`TokenResponse`].
pub struct TokenFieldsView {
    pub access_token: Option<Seq<char>>,
    pub error: Option<Seq<char>>,
}

impl View for TokenResponse {
    type V = TokenFieldsView;

    open spec fn view(&self) -> TokenFieldsView {
        TokenFieldsView {
            access_token: match self.access_token {
                Some(t) => Some(t@),
                None => None,
            },
            error: match self.error {
                Some(e) => Some(e@),
                None => None,
            },
        }
    }
}

/// What parsing a device-code response body yields: a function of the text
/// alone, `None` when the text is not JSON carrying all four fields.
pub uninterp spec fn parsed_device_fields(s: Seq<char>) -> Option<DeviceFieldsView>;

/// What parsing a token-endpoint response body yields: a function of the
/// text alone, `None` when the text is not JSON.
pub uninterp spec fn parsed_token_fields(s: Seq<char>) -> Option<TokenFieldsView>;

/// Relies on serde_json: `from_str` parses the response body, and
/// `Value::get`, `as_str` and `as_u64` read the four consumed fields, all
/// functions of the text alone. Absence of any field is a parse failure,
/// as is text that is not JSON.
#[verifier::external_body]
fn parse_device_response(s: &str) -> (r: Option<DeviceCodeResponse>)
    ensures
        r matches Some(f) ==> parsed_device_fields(s@) == Some(f@),
        r is None ==> parsed_device_fields(s@) is None,
{
    let v: serde_json::Value = serde_json::from_str(s).ok()?;
    Some(DeviceCodeResponse {
        device_code: v.get("device_code")?.as_str()?.to_owned(),
        user_code: v.get("user_code")?.as_str()?.to_owned(),
        verification_uri: v.get("verification_uri_complete")?.as_str()?.to_owned(),
        interval: v.get("interval")?.as_u64()?,
    })
}

/// Relies on serde_json: `from_str` parses the response body, and
/// `Value::get` and `as_str` read the `access_token` and `error` fields,
/// all functions of the text alone. A missing field is `None`; text that
/// is not JSON is a parse failure.
#[verifier::external_body]
fn parse_token_response(s: &str) -> (r: Option<TokenResponse>)
    ensures
        r matches Some(f) ==> parsed_token_fields(s@) == Some(f@),
        r is None ==> parsed_token_fields(s@) is None,
{
    let v: serde_json::Value = serde_json::from_str(s).ok()?;
    Some(TokenResponse {
        access_token: v.get("access_token").and_then(|t| t.as_str()).map(|t| t.to_owned()),
        error: v.get("error").and_then(|e| e.as_str()).map(|e| e.to_owned()),
    })
}

// ---------------------------------------------------------------------------
// The fixed authorization server and the two request bodies.
// ---------------------------------------------------------------------------

/// The device-code endpoint of the fixed authorization server.
pub fn code_url() -> (r: &'static str)
    ensures
        r@ == "https://auth.iasql.com/oauth/device/code"@,
{
    "https://auth.iasql.com/oauth/device/code"
}

/// The token endpoint of the fixed authorization server.
pub fn poll_url() -> (r: &'static str)
    ensures
        r@ == "https://auth.iasql.com/oauth/token"@,
{
    "https://auth.iasql.com/oauth/token"
}

/// The device-code request body: the fixed client identifier, scope and
/// audience.
pub fn device_code_request_body() -> (r: &'static str)
    ensures
        r@ == "{\"client_id\": \"FWIYK0GhLdMCLid0hxjmEEwxaifdAkpQ\",\"scope\": \"openid+profile+offline_access\",\"audience\": \"https://api.iasql.com\"}"@,
{
    "{\"client_id\": \"FWIYK0GhLdMCLid0hxjmEEwxaifdAkpQ\",\"scope\": \"openid+profile+offline_access\",\"audience\": \"https://api.iasql.com\"}"
}

/// What serde_json's object serialization yields for a token-endpoint
/// request body of the three given field values: a function of those
/// values alone.
pub uninterp spec fn poll_body_of(
    client_id: Seq<char>,
    grant_type: Seq<char>,
    device_code: Seq<char>,
) -> Seq<char>;

/// Relies on serde_json: a `Map` of the three fields, serialized by
/// `Value`'s `to_string`; the map keeps its keys ordered, so the text is a
/// function of the three values alone.
#[verifier::external_body]
fn encode_poll_body(client_id: &str, grant_type: &str, device_code: &str) -> (r: String)
    ensures
        r@ == poll_body_of(client_id@, grant_type@, device_code@),
{
    let mut m = serde_json::Map::new();
    m.insert("client_id".to_owned(), serde_json::Value::String(client_id.to_owned()));
    m.insert("grant_type".to_owned(), serde_json::Value::String(grant_type.to_owned()));
    m.insert("device_code".to_owned(), serde_json::Value::String(device_code.to_owned()));
    serde_json::Value::Object(m).to_string()
}

/// The token-endpoint request body for a session: the fixed client
/// identifier, the device-code grant type, and the session's device code.
pub fn poll_request_body(device_code: &str) -> (r: String)
    ensures
        r@ == poll_body_of(
            "FWIYK0GhLdMCLid0hxjmEEwxaifdAkpQ"@,
            "urn:ietf:params:oauth:grant-type:device_code"@,
            device_code@,
        ),
{
    encode_poll_body(
        "FWIYK0GhLdMCLid0hxjmEEwxaifdAkpQ",
        "urn:ietf:params:oauth:grant-type:device_code",
        device_code,
    )
}

// ---------------------------------------------------------------------------
// One login attempt's session.
// ---------------------------------------------------------------------------

/// Transient data of one login attempt, from the device-code response;
/// never persisted.
pub struct DeviceSession {
    pub device_code: String,
    pub user_code: String,
    pub verification_uri: String,
    /// The polling interval the server declared, in seconds.
    pub interval: u64,
    /// The wait between polls this client honors: one second more than the
    /// declared interval, to stay clear of server-side rate-limit edges.
    pub poll_delay: u64,
}

/// The mathematical shape of a [`DeviceSession`].
pub struct DeviceSessionView {
    pub device_code: Seq<char>,
    pub user_code: Seq<char>,
    pub verification_uri: Seq<char>,
    pub interval: u64,
    pub poll_delay: u64,
}

impl View for DeviceSession {
    type V = DeviceSessionView;

    open spec fn view(&self) -> DeviceSessionView {
        DeviceSessionView {
            device_code: self.device_code@,
            user_code: self.user_code@,
            verification_uri: self.verification_uri@,
            interval: self.interval,
            poll_delay: self.poll_delay,
        }
    }
}

/// The wait this client puts between polls, given the declared interval:
/// one second more, saturating at the top of the type.
pub open spec fn spec_poll_delay(interval: u64) -> u64 {
    if interval == u64::MAX {
        interval
    } else {
        (interval + 1) as u64
    }
}

/// A session is well-formed when its polling cadence is the one derived
/// from the server-declared interval.
pub open spec fn session_wf(s: DeviceSessionView) -> bool {
    s.poll_delay == spec_poll_delay(s.interval)
}

/// The session a device-code response opens.
pub open spec fn spec_session_of(f: DeviceFieldsView) -> DeviceSessionView {
    DeviceSessionView {
        device_code: f.device_code,
        user_code: f.user_code,
        verification_uri: f.verification_uri,
        interval: f.interval,
        poll_delay: spec_poll_delay(f.interval),
    }
}

/// Open the per-attempt session a device-code response describes.
pub fn session_of_response(f: DeviceCodeResponse) -> (s: DeviceSession)
    ensures
        s@ == spec_session_of(f@),
        session_wf(s@),
{
    let poll_delay: u64 = if f.interval == u64::MAX {
        f.interval
    } else {
        f.interval + 1
    };
    DeviceSession {
        device_code: f.device_code,
        user_code: f.user_code,
        verification_uri: f.verification_uri,
        interval: f.interval,
        poll_delay,
    }
}

// ---------------------------------------------------------------------------
// The state machine of one device-authorization attempt.
// ---------------------------------------------------------------------------

/// Where one login attempt stands. The flow runs
/// requesting a code, awaiting the user's confirmation, then polling,
/// until it is granted, aborted by the user, or failed.
pub enum FlowState {
    /// The device-code request is out.
    RequestingCode,
    /// The user is being shown the one-time code and the verification
    /// address.
    AwaitingConfirmation(DeviceSession),
    /// The token endpoint is being polled on the session's cadence.
    Polling(DeviceSession),
    /// The grant completed; the token is ready to persist and publish.
    Granted(String),
    /// The user declined to proceed; no token, no error.
    Aborted,
    /// The attempt ended with the error carried here.
    Failed(AuthError),
}

/// The mathematical shape of a [`FlowState`].
pub enum FlowStateView {
    RequestingCode,
    AwaitingConfirmation(DeviceSessionView),
    Polling(DeviceSessionView),
    Granted(Seq<char>),
    Aborted,
    Failed(AuthErrorView),
}

impl View for FlowState {
    type V = FlowStateView;

    open spec fn view(&self) -> FlowStateView {
        match self {
            FlowState::RequestingCode => FlowStateView::RequestingCode,
            FlowState::AwaitingConfirmation(s) => FlowStateView::AwaitingConfirmation(s@),
            FlowState::Polling(s) => FlowStateView::Polling(s@),
            FlowState::Granted(t) => FlowStateView::Granted(t@),
            FlowState::Aborted => FlowStateView::Aborted,
            FlowState::Failed(e) => FlowStateView::Failed(e@),
        }
    }
}

/// What the surrounding process reports back into the machine: each
/// response body as raw text, or the transport error that kept one from
/// arriving, and the outcome of the confirmation prompt.
pub enum FlowEvent {
    CodeResponse(Result<String, String>),
    ConfirmOutcome(bool),
    PollResponse(Result<String, String>),
}

/// The mathematical shape of a [`FlowEvent`].
pub enum FlowEventView {
    CodeResponse(Result<Seq<char>, Seq<char>>),
    ConfirmOutcome(bool),
    PollResponse(Result<Seq<char>, Seq<char>>),
}

impl View for FlowEvent {
    type V = FlowEventView;

    open spec fn view(&self) -> FlowEventView {
        match self {
            FlowEvent::CodeResponse(r) => FlowEventView::CodeResponse(
                match r {
                    Ok(b) => Ok(b@),
                    Err(m) => Err(m@),
                },
            ),
            FlowEvent::ConfirmOutcome(ok) => FlowEventView::ConfirmOutcome(*ok),
            FlowEvent::PollResponse(r) => FlowEventView::PollResponse(
                match r {
                    Ok(b) => Ok(b@),
                    Err(m) => Err(m@),
                },
            ),
        }
    }
}

/// What the surrounding process must do next. Only it performs network
/// and terminal work; the machine only ever directs it.
#[derive(PartialEq, Eq, Structural, Clone, Copy, Debug)]
pub enum FlowAction {
    /// Post the fixed client identifier, scope and audience to the
    /// device-code endpoint.
    RequestDeviceCode,
    /// Show the session's one-time code and verification address to the
    /// user; opening a browser is a convenience, never a requirement.
    ShowUserCode,
    /// Wait the carried number of seconds, then post the device code to
    /// the token endpoint.
    PollAfter(u64),
    /// The flow is over; make no further request.
    Stop,
}

/// Where one poll answer takes the machine: a token is a grant; an
/// `authorization_pending` error — or an answer carrying neither field —
/// keeps it polling on the same cadence; `expired_token` and every other
/// error end the attempt; a body that is not JSON is malformed.
pub open spec fn spec_poll_outcome(sess: DeviceSessionView, body: Seq<char>) -> (
    FlowStateView,
    FlowAction,
) {
    match parsed_token_fields(body) {
        None => (FlowStateView::Failed(AuthErrorView::MalformedResponse), FlowAction::Stop),
        Some(f) => match f.access_token {
            Some(token) => (FlowStateView::Granted(token), FlowAction::Stop),
            None => match f.error {
                Some(e) => if e == "authorization_pending"@ {
                    (FlowStateView::Polling(sess), FlowAction::PollAfter(sess.poll_delay))
                } else if e == "expired_token"@ {
                    (FlowStateView::Failed(AuthErrorView::GrantExpired), FlowAction::Stop)
                } else {
                    (FlowStateView::Failed(AuthErrorView::GrantDenied(e)), FlowAction::Stop)
                },
                None => (FlowStateView::Polling(sess), FlowAction::PollAfter(sess.poll_delay)),
            },
        },
    }
}

/// One step of the machine. A transport failure is fatal wherever it
/// happens; a malformed device-code response is fatal; a declined
/// confirmation aborts; terminal states stay where they are and direct
/// nothing further. An event that does not belong to the current state
/// changes nothing and directs nothing.
pub open spec fn spec_flow_step(state: FlowStateView, event: FlowEventView) -> (
    FlowStateView,
    FlowAction,
) {
    match (state, event) {
        (FlowStateView::RequestingCode, FlowEventView::CodeResponse(r)) => match r {
            Ok(body) => match parsed_device_fields(body) {
                Some(f) => (
                    FlowStateView::AwaitingConfirmation(spec_session_of(f)),
                    FlowAction::ShowUserCode,
                ),
                None => (
                    FlowStateView::Failed(AuthErrorView::MalformedResponse),
                    FlowAction::Stop,
                ),
            },
            Err(m) => (FlowStateView::Failed(AuthErrorView::Transport(m)), FlowAction::Stop),
        },
        (FlowStateView::AwaitingConfirmation(sess), FlowEventView::ConfirmOutcome(ok)) => if ok {
            (FlowStateView::Polling(sess), FlowAction::PollAfter(sess.poll_delay))
        } else {
            (FlowStateView::Aborted, FlowAction::Stop)
        },
        (FlowStateView::Polling(sess), FlowEventView::PollResponse(r)) => match r {
            Ok(body) => spec_poll_outcome(sess, body),
            Err(m) => (FlowStateView::Failed(AuthErrorView::Transport(m)), FlowAction::Stop),
        },
        (s, _) => (s, FlowAction::Stop),
    }
}

/// Begin a login attempt.
pub fn flow_start() -> (r: (FlowState, FlowAction))
    ensures
        r.0 is RequestingCode,
        r.1 == FlowAction::RequestDeviceCode,
{
    (FlowState::RequestingCode, FlowAction::RequestDeviceCode)
}

/// Drive the machine by one event, exactly as [`spec_flow_step`] says.
pub fn flow_step(state: FlowState, event: FlowEvent) -> (r: (FlowState, FlowAction))
    ensures
        (r.0@, r.1) == spec_flow_step(state@, event@),
{
    match (state, event) {
        (FlowState::RequestingCode, FlowEvent::CodeResponse(res)) => match res {
            Ok(body) => match parse_device_response(body.as_str()) {
                Some(f) => {
                    let sess = session_of_response(f);
                    (FlowState::AwaitingConfirmation(sess), FlowAction::ShowUserCode)
                },
                None => (FlowState::Failed(AuthError::MalformedResponse), FlowAction::Stop),
            },
            Err(m) => (FlowState::Failed(AuthError::Transport(m)), FlowAction::Stop),
        },
        (FlowState::AwaitingConfirmation(sess), FlowEvent::ConfirmOutcome(ok)) => if ok {
            let delay = sess.poll_delay;
            (FlowState::Polling(sess), FlowAction::PollAfter(delay))
        } else {
            (FlowState::Aborted, FlowAction::Stop)
        },
        (FlowState::Polling(sess), FlowEvent::PollResponse(res)) => match res {
            Ok(body) => poll_step(sess, body),
            Err(m) => (FlowState::Failed(AuthError::Transport(m)), FlowAction::Stop),
        },
        (s, _) => (s, FlowAction::Stop),
    }
}

/// Take one poll answer, exactly as [`spec_poll_outcome`] says.
pub fn poll_step(sess: DeviceSession, body: String) -> (r: (FlowState, FlowAction))
    ensures
        (r.0@, r.1) == spec_poll_outcome(sess@, body@),
{
    match parse_token_response(body.as_str()) {
        None => (FlowState::Failed(AuthError::MalformedResponse), FlowAction::Stop),
        Some(f) => match f.access_token {
            Some(token) => (FlowState::Granted(token), FlowAction::Stop),
            None => match f.error {
                Some(e) => {
                    let pending: String = "authorization_pending".to_owned();
                    if e == pending {
                        let delay = sess.poll_delay;
                        (FlowState::Polling(sess), FlowAction::PollAfter(delay))
                    } else {
                        let expired: String = "expired_token".to_owned();
                        if e == expired {
                            (FlowState::Failed(AuthError::GrantExpired), FlowAction::Stop)
                        } else {
                            (FlowState::Failed(AuthError::GrantDenied(e)), FlowAction::Stop)
                        }
                    }
                },
                None => {
                    let delay = sess.poll_delay;
                    (FlowState::Polling(sess), FlowAction::PollAfter(delay))
                },
            },
        },
    }
}

// ---------------------------------------------------------------------------
// Laws of the machine.
// ---------------------------------------------------------------------------

/// The session carried by a state, where there is one.
pub open spec fn state_session(s: FlowStateView) -> Option<DeviceSessionView> {
    match s {
        FlowStateView::AwaitingConfirmation(x) => Some(x),
        FlowStateView::Polling(x) => Some(x),
        _ => None,
    }
}

/// A state is well-formed when the session it carries, if any, is.
pub open spec fn flow_state_wf(s: FlowStateView) -> bool {
    match state_session(s) {
        Some(x) => session_wf(x),
        None => true,
    }
}

/// Every step of the machine keeps its state well-formed.
pub proof fn lemma_flow_step_preserves_wf(s: FlowStateView, e: FlowEventView)
    requires
        flow_state_wf(s),
    ensures
        flow_state_wf(spec_flow_step(s, e).0),
{
}

/// Polling backoff honored: a poll is only ever scheduled out of a state
/// that carries a session, after a wait no shorter than the interval that
/// session's server declared — and exactly one second longer whenever that
/// fits — so no two consecutive poll requests are issued less than the
/// declared interval apart.
pub proof fn lemma_polling_backoff_honored(s: FlowStateView, e: FlowEventView, d: u64)
    requires
        flow_state_wf(s),
        spec_flow_step(s, e).1 == FlowAction::PollAfter(d),
    ensures
        state_session(s) is Some,
        state_session(s) matches Some(sess) ==> {
            &&& d == sess.poll_delay
            &&& d >= sess.interval
            &&& sess.interval < u64::MAX ==> d == sess.interval + 1
        },
{
}

/// Pending and terminal token-endpoint answers part ways: an
/// `authorization_pending` error keeps the machine polling and schedules
/// exactly one more poll after the full wait, while an `expired_token`
/// error ends the attempt at once with the expiry surfaced.
pub proof fn lemma_pending_vs_terminal(sess: DeviceSessionView, body: Seq<char>)
    ensures
        (parsed_token_fields(body) matches Some(f) && f.access_token is None && f.error
            == Some("authorization_pending"@)) ==> spec_flow_step(
            FlowStateView::Polling(sess),
            FlowEventView::PollResponse(Ok(body)),
        ) == (FlowStateView::Polling(sess), FlowAction::PollAfter(sess.poll_delay)),
        (parsed_token_fields(body) matches Some(f) && f.access_token is None && f.error
            == Some("expired_token"@)) ==> spec_flow_step(
            FlowStateView::Polling(sess),
            FlowEventView::PollResponse(Ok(body)),
        ) == (FlowStateView::Failed(AuthErrorView::GrantExpired), FlowAction::Stop),
{
    reveal_strlit("authorization_pending");
    reveal_strlit("expired_token");
    assert("authorization_pending"@.len() == 21);
    assert("expired_token"@.len() == 13);
    assert("expired_token"@ != "authorization_pending"@);
}

/// A finished attempt stays finished: from a granted, aborted or failed
/// state, every event leaves the state unchanged and directs nothing — in
/// particular, no further poll is ever scheduled.
pub proof fn lemma_terminal_state_stays(s: FlowStateView, e: FlowEventView)
    requires
        s is Granted || s is Aborted || s is Failed,
    ensures
        spec_flow_step(s, e) == (s, FlowAction::Stop),
{
}

} // verus!
