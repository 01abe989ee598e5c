//! The login state machine.
//!
//! One submission runs: local validation of the typed form, a POST of the
//! credentials (performed outside this crate), classification of the parsed
//! reply, and either success, a redisplayed form, the embedded-browser
//! captcha flow, or orderly termination. The machine itself is a family of
//! pure transition functions from state and event to the next state and the
//! action the driver must perform; the driver owns every effect. The
//! machine itself holds no lock against a second submission while one is in
//! flight: a driver must submit only from the form state.

use vstd::prelude::*;
use crate::data::{Data, spec_encode};

verus! {

/// One transient email/password pair typed by the user.
pub struct LoginAttempt {
    pub email: String,
    pub password: String,
}

/// The mathematical value of a [`LoginAttempt`].
pub struct LoginAttemptView {
    pub email: Seq<char>,
    pub password: Seq<char>,
}

impl View for LoginAttempt {
    type V = LoginAttemptView;

    open spec fn view(&self) -> LoginAttemptView {
        LoginAttemptView { email: self.email@, password: self.password@ }
    }
}

/// The body of the login POST. The three trailing fields are always sent
/// and always hold nothing, as the endpoint expects.
pub struct LoginRequest {
    pub email: String,
    pub password: String,
    pub undelete: bool,
    pub captcha_key: Option<String>,
    pub login_source: Option<String>,
    pub gift_code_sku_id: Option<String>,
}

/// The mathematical value of a [`LoginRequest`].
pub struct LoginRequestView {
    pub email: Seq<char>,
    pub password: Seq<char>,
    pub undelete: bool,
    pub captcha_key: Option<Seq<char>>,
    pub login_source: Option<Seq<char>>,
    pub gift_code_sku_id: Option<Seq<char>>,
}

impl View for LoginRequest {
    type V = LoginRequestView;

    open spec fn view(&self) -> LoginRequestView {
        LoginRequestView {
            email: self.email@,
            password: self.password@,
            undelete: self.undelete,
            captcha_key: opt_string_view(self.captcha_key),
            login_source: opt_string_view(self.login_source),
            gift_code_sku_id: opt_string_view(self.gift_code_sku_id),
        }
    }
}

/// The value of an optional string.
pub open spec fn opt_string_view(s: Option<String>) -> Option<Seq<char>> {
    match s {
        Option::None => Option::<Seq<char>>::None,
        Option::Some(t) => Option::Some(t@),
    }
}

/// The request a given attempt is submitted as.
pub open spec fn spec_request_for(attempt: LoginAttemptView) -> LoginRequestView {
    LoginRequestView {
        email: attempt.email,
        password: attempt.password,
        undelete: false,
        captcha_key: Option::<Seq<char>>::None,
        login_source: Option::<Seq<char>>::None,
        gift_code_sku_id: Option::<Seq<char>>::None,
    }
}

/// What the reply's `token` field held.
pub enum TokenField {
    /// No `token` field.
    Absent,
    /// A string-valued `token` field.
    Text(String),
    /// A `token` field of some other JSON type.
    NotText,
}

/// The mathematical value of a [`TokenField`].
pub enum TokenFieldView {
    Absent,
    Text(Seq<char>),
    NotText,
}

impl View for TokenField {
    type V = TokenFieldView;

    open spec fn view(&self) -> TokenFieldView {
        match self {
            TokenField::Absent => TokenFieldView::Absent,
            TokenField::Text(t) => TokenFieldView::Text(t@),
            TokenField::NotText => TokenFieldView::NotText,
        }
    }
}

/// What came back from the login POST, reduced to the facts the machine
/// reads: whether the body was a JSON object, which of the distinguishing
/// fields it carried, and the `token` field's value where it was a string.
pub enum ServerReply {
    /// The body parsed as a JSON object.
    Object { has_captcha_key: bool, token: TokenField, has_errors: bool },
    /// The body parsed as JSON, but not as an object.
    NonObject,
    /// The transport failed: a connection error or a malformed body, with
    /// the transport's description of it.
    Failed(String),
}

/// The mathematical value of a [`ServerReply`].
pub enum ServerReplyView {
    Object { has_captcha_key: bool, token: TokenFieldView, has_errors: bool },
    NonObject,
    Failed(Seq<char>),
}

impl View for ServerReply {
    type V = ServerReplyView;

    open spec fn view(&self) -> ServerReplyView {
        match self {
            ServerReply::Object { has_captcha_key, token, has_errors } => (
                ServerReplyView::Object {
                    has_captcha_key: *has_captcha_key,
                    token: token@,
                    has_errors: *has_errors,
                }
            ),
            ServerReply::NonObject => ServerReplyView::NonObject,
            ServerReply::Failed(d) => ServerReplyView::Failed(d@),
        }
    }
}

/// The classified result of one submission.
pub enum LoginOutcome {
    /// The endpoint granted a token.
    Success(String),
    /// The endpoint reported the credentials wrong.
    InvalidCredentials,
    /// The endpoint demands an interactive challenge.
    CaptchaRequired,
    /// The reply's shape is unrecognized, or a field has the wrong type.
    ProtocolError(String),
    /// The transport failed or the body was not a JSON object.
    TransportError(String),
}

/// The mathematical value of a [`LoginOutcome`].
pub enum LoginOutcomeView {
    Success(Seq<char>),
    InvalidCredentials,
    CaptchaRequired,
    ProtocolError(Seq<char>),
    TransportError(Seq<char>),
}

impl View for LoginOutcome {
    type V = LoginOutcomeView;

    open spec fn view(&self) -> LoginOutcomeView {
        match self {
            LoginOutcome::Success(t) => LoginOutcomeView::Success(t@),
            LoginOutcome::InvalidCredentials => LoginOutcomeView::InvalidCredentials,
            LoginOutcome::CaptchaRequired => LoginOutcomeView::CaptchaRequired,
            LoginOutcome::ProtocolError(d) => LoginOutcomeView::ProtocolError(d@),
            LoginOutcome::TransportError(d) => LoginOutcomeView::TransportError(d@),
        }
    }
}

/// How a reply is classified, in the endpoint's order of precedence:
/// a `captcha_key` field first, then `token`, then `errors`; a present but
/// non-string `token`, or an object with none of the three, is a protocol
/// error; anything that was no object at all is a transport error.
pub open spec fn spec_classify(reply: ServerReplyView) -> LoginOutcomeView {
    match reply {
        ServerReplyView::Object { has_captcha_key, token, has_errors } => {
            if has_captcha_key {
                LoginOutcomeView::CaptchaRequired
            } else {
                match token {
                    TokenFieldView::Text(t) => LoginOutcomeView::Success(t),
                    TokenFieldView::NotText => LoginOutcomeView::ProtocolError(
                        "token field is not a string"@,
                    ),
                    TokenFieldView::Absent => {
                        if has_errors {
                            LoginOutcomeView::InvalidCredentials
                        } else {
                            LoginOutcomeView::ProtocolError("unknown login response"@)
                        }
                    }
                }
            }
        }
        ServerReplyView::NonObject => LoginOutcomeView::TransportError(
            "unknown login response structure"@,
        ),
        ServerReplyView::Failed(d) => LoginOutcomeView::TransportError(d),
    }
}

/// Classifies one reply, exactly as [`spec_classify`] states.
pub fn classify(reply: ServerReply) -> (outcome: LoginOutcome)
    ensures
        outcome@ == spec_classify(reply@),
{
    match reply {
        ServerReply::Object { has_captcha_key, token, has_errors } => {
            if has_captcha_key {
                LoginOutcome::CaptchaRequired
            } else {
                match token {
                    TokenField::Text(t) => LoginOutcome::Success(t),
                    TokenField::NotText => LoginOutcome::ProtocolError(
                        "token field is not a string".to_owned(),
                    ),
                    TokenField::Absent => {
                        if has_errors {
                            LoginOutcome::InvalidCredentials
                        } else {
                            LoginOutcome::ProtocolError("unknown login response".to_owned())
                        }
                    }
                }
            }
        }
        ServerReply::NonObject => LoginOutcome::TransportError(
            "unknown login response structure".to_owned(),
        ),
        ServerReply::Failed(d) => LoginOutcome::TransportError(d),
    }
}

/// The inline note a redisplayed form carries.
#[derive(Clone, Copy, Debug, PartialEq, Eq, Structural)]
pub enum FormIssue {
    /// The email field was left empty; no submission was made.
    EmptyEmail,
    /// The password field was left empty; no submission was made.
    EmptyPassword,
    /// The endpoint reported the credentials wrong.
    BadCredentials,
}

/// Where one login session stands.
pub enum State {
    /// The form is shown, prefilled with what the user last typed, together
    /// with an inline note where something went wrong.
    Form { email: String, password: String, issue: Option<FormIssue> },
    /// A submission is in flight.
    Submitting { attempt: LoginAttempt },
    /// The endpoint demanded a challenge; the embedded-browser flow runs.
    CaptchaPending,
    /// A token was won; the session proceeds authenticated.
    Success,
    /// The session is over; the driver exits the process with this code.
    Terminated { code: i32, note: String },
}

/// The mathematical value of a [`State`].
pub enum StateView {
    Form { email: Seq<char>, password: Seq<char>, issue: Option<FormIssue> },
    Submitting { attempt: LoginAttemptView },
    CaptchaPending,
    Success,
    Terminated { code: i32, note: Seq<char> },
}

impl View for State {
    type V = StateView;

    open spec fn view(&self) -> StateView {
        match self {
            State::Form { email, password, issue } => (StateView::Form {
                email: email@,
                password: password@,
                issue: *issue,
            }),
            State::Submitting { attempt } => (StateView::Submitting { attempt: attempt@ }),
            State::CaptchaPending => StateView::CaptchaPending,
            State::Success => StateView::Success,
            State::Terminated { code, note } => (StateView::Terminated {
                code: *code,
                note: note@,
            }),
        }
    }
}

/// What the driver must do after a transition. Every effect the machine
/// asks for is one of these; the machine itself performs none.
pub enum Action {
    /// Nothing beyond rendering the new state.
    Idle,
    /// POST this request to the login endpoint and hand back the reply.
    SendLogin { request: LoginRequest },
    /// Run the embedded-browser captcha flow and hand back its result.
    OpenCaptcha,
    /// Write this token into the session record and persist it.
    PersistToken { token: String },
}

/// The mathematical value of an [`Action`].
pub enum ActionView {
    Idle,
    SendLogin { request: LoginRequestView },
    OpenCaptcha,
    PersistToken { token: Seq<char> },
}

impl View for Action {
    type V = ActionView;

    open spec fn view(&self) -> ActionView {
        match self {
            Action::Idle => ActionView::Idle,
            Action::SendLogin { request } => (ActionView::SendLogin { request: request@ }),
            Action::OpenCaptcha => ActionView::OpenCaptcha,
            Action::PersistToken { token } => (ActionView::PersistToken { token: token@ }),
        }
    }
}

/// One transition's result: the next state and the driver's duty.
pub struct Step {
    pub state: State,
    pub action: Action,
}

/// The mathematical value of a [`Step`].
pub struct StepView {
    pub state: StateView,
    pub action: ActionView,
}

impl View for Step {
    type V = StepView;

    open spec fn view(&self) -> StepView {
        StepView { state: self.state@, action: self.action@ }
    }
}

/// Where a session starts: straight to the authenticated state where a
/// token is already stored, otherwise at the empty form.
pub open spec fn spec_initial_state(stored_token: Option<Seq<char>>) -> StateView {
    match stored_token {
        Option::Some(_) => StateView::Success,
        Option::None => StateView::Form {
            email: Seq::<char>::empty(),
            password: Seq::<char>::empty(),
            issue: Option::<FormIssue>::None,
        },
    }
}

/// What submitting the form yields: an inline note and no submission where
/// a field is empty (the email checked first), otherwise the in-flight
/// state and the request to POST.
pub open spec fn spec_submit(email: Seq<char>, password: Seq<char>) -> StepView {
    if email.len() == 0 {
        StepView {
            state: StateView::Form { email, password, issue: Option::Some(FormIssue::EmptyEmail) },
            action: ActionView::Idle,
        }
    } else if password.len() == 0 {
        StepView {
            state: StateView::Form {
                email,
                password,
                issue: Option::Some(FormIssue::EmptyPassword),
            },
            action: ActionView::Idle,
        }
    } else {
        StepView {
            state: StateView::Submitting { attempt: LoginAttemptView { email, password } },
            action: ActionView::SendLogin {
                request: spec_request_for(LoginAttemptView { email, password }),
            },
        }
    }
}

/// Where one classified outcome sends the machine: success commits the
/// token; wrong credentials redisplay the form with what the user had
/// typed; a challenge opens the captcha flow; protocol and transport
/// faults terminate the session with exit code 1 and the diagnostic.
pub open spec fn spec_step_for_outcome(
    attempt: LoginAttemptView,
    outcome: LoginOutcomeView,
) -> StepView {
    match outcome {
        LoginOutcomeView::Success(token) => StepView {
            state: StateView::Success,
            action: ActionView::PersistToken { token },
        },
        LoginOutcomeView::InvalidCredentials => StepView {
            state: StateView::Form {
                email: attempt.email,
                password: attempt.password,
                issue: Option::Some(FormIssue::BadCredentials),
            },
            action: ActionView::Idle,
        },
        LoginOutcomeView::CaptchaRequired => StepView {
            state: StateView::CaptchaPending,
            action: ActionView::OpenCaptcha,
        },
        LoginOutcomeView::ProtocolError(note) => StepView {
            state: StateView::Terminated { code: 1, note },
            action: ActionView::Idle,
        },
        LoginOutcomeView::TransportError(note) => StepView {
            state: StateView::Terminated { code: 1, note },
            action: ActionView::Idle,
        },
    }
}

/// How the machine reacts to the reply of an in-flight submission.
pub open spec fn spec_on_reply(attempt: LoginAttemptView, reply: ServerReplyView) -> StepView {
    spec_step_for_outcome(attempt, spec_classify(reply))
}

/// How the machine reacts to the captcha flow's result: a captured token is
/// treated exactly like a granted one; a window closed without a capture
/// ends the session deliberately, with exit code 0.
pub open spec fn spec_on_captcha(captured: Option<Seq<char>>) -> StepView {
    match captured {
        Option::Some(token) => StepView {
            state: StateView::Success,
            action: ActionView::PersistToken { token },
        },
        Option::None => StepView {
            state: StateView::Terminated { code: 0, note: "login window closed"@ },
            action: ActionView::Idle,
        },
    }
}

/// The state a session opens in, exactly as [`spec_initial_state`] states.
pub fn initial_state(data: &Data) -> (s: State)
    ensures
        s@ == spec_initial_state(data@),
{
    match &data.discord_token {
        Option::Some(_) => State::Success,
        Option::None => State::Form {
            email: String::new(),
            password: String::new(),
            issue: None,
        },
    }
}

/// Validates the typed form and either rejects it locally or moves to the
/// in-flight state, exactly as [`spec_submit`] states.
pub fn submit(email: String, password: String) -> (step: Step)
    ensures
        step@ == spec_submit(email@, password@),
{
    if email.as_str().is_empty() {
        Step {
            state: State::Form { email, password, issue: Some(FormIssue::EmptyEmail) },
            action: Action::Idle,
        }
    } else if password.as_str().is_empty() {
        Step {
            state: State::Form { email, password, issue: Some(FormIssue::EmptyPassword) },
            action: Action::Idle,
        }
    } else {
        let request = LoginRequest {
            email: email.clone(),
            password: password.clone(),
            undelete: false,
            captcha_key: None,
            login_source: None,
            gift_code_sku_id: None,
        };
        Step {
            state: State::Submitting { attempt: LoginAttempt { email, password } },
            action: Action::SendLogin { request },
        }
    }
}

/// Reacts to the reply of an in-flight submission, exactly as
/// [`spec_on_reply`] states.
pub fn on_reply(attempt: LoginAttempt, reply: ServerReply) -> (step: Step)
    ensures
        step@ == spec_on_reply(attempt@, reply@),
{
    let outcome = classify(reply);
    match outcome {
        LoginOutcome::Success(token) => Step {
            state: State::Success,
            action: Action::PersistToken { token },
        },
        LoginOutcome::InvalidCredentials => Step {
            state: State::Form {
                email: attempt.email,
                password: attempt.password,
                issue: Some(FormIssue::BadCredentials),
            },
            action: Action::Idle,
        },
        LoginOutcome::CaptchaRequired => Step {
            state: State::CaptchaPending,
            action: Action::OpenCaptcha,
        },
        LoginOutcome::ProtocolError(note) => Step {
            state: State::Terminated { code: 1, note },
            action: Action::Idle,
        },
        LoginOutcome::TransportError(note) => Step {
            state: State::Terminated { code: 1, note },
            action: Action::Idle,
        },
    }
}

/// Reacts to the captcha flow's result, exactly as [`spec_on_captcha`]
/// states.
pub fn on_captcha(captured: Option<String>) -> (step: Step)
    ensures
        step@ == spec_on_captcha(opt_string_view(captured)),
{
    match captured {
        Option::Some(token) => Step {
            state: State::Success,
            action: Action::PersistToken { token },
        },
        Option::None => Step {
            state: State::Terminated { code: 0, note: "login window closed".to_owned() },
            action: Action::Idle,
        },
    }
}

impl Data {
    /// Writes a won token into the session record — the one mutation a
    /// successful login makes — and returns the serialized record, which
    /// the driver persists at once.
    pub fn commit_token(&mut self, token: String) -> (bytes: Vec<u8>)
        ensures
            final(self)@ == Some(token@),
            final(self).discord_token == Some(token),
            bytes@ == spec_encode(final(self)@),
    {
        self.discord_token = Some(token);
        self.save()
    }
}

/// Law: a reply whose object carries a `captcha_key` field sends the
/// machine into the captcha flow — its one action is to open that flow —
/// and is treated neither as a success nor as wrong credentials: nothing
/// is persisted and the form is not redisplayed.
pub proof fn lemma_captcha_reply_opens_captcha_flow(
    attempt: LoginAttemptView,
    reply: ServerReplyView,
)
    requires
        reply matches ServerReplyView::Object { has_captcha_key, .. } && has_captcha_key,
    ensures
        spec_classify(reply) is CaptchaRequired,
        !(spec_classify(reply) is Success),
        !(spec_classify(reply) is InvalidCredentials),
        spec_on_reply(attempt, reply).state is CaptchaPending,
        spec_on_reply(attempt, reply).action is OpenCaptcha,
        !(spec_on_reply(attempt, reply).action is PersistToken),
{
}

/// Law: a reply whose object carries an `errors` field (and neither a
/// `captcha_key` nor a `token` field) redisplays the form with exactly the
/// email and password the user had typed, notes the bad credentials
/// inline, and persists nothing.
pub proof fn lemma_errors_reply_redisplays_form(
    attempt: LoginAttemptView,
    reply: ServerReplyView,
)
    requires
        reply matches ServerReplyView::Object { has_captcha_key, token, has_errors }
            && !has_captcha_key && token is Absent && has_errors,
    ensures
        spec_on_reply(attempt, reply).state matches StateView::Form { email, password, issue }
            && email == attempt.email && password == attempt.password
            && issue == Some(FormIssue::BadCredentials),
        spec_on_reply(attempt, reply).action is Idle,
        !(spec_on_reply(attempt, reply).action is PersistToken),
{
}

/// Law: a reply whose object carries a string `token` field (and no
/// `captcha_key`) ends the machine in the success state, and its one
/// action is to persist exactly that token.
pub proof fn lemma_token_reply_persists_token(
    attempt: LoginAttemptView,
    reply: ServerReplyView,
)
    requires
        reply matches ServerReplyView::Object { has_captcha_key, token, .. }
            && !has_captcha_key && token matches TokenFieldView::Text(_),
    ensures
        spec_on_reply(attempt, reply).state is Success,
        reply matches ServerReplyView::Object { token: TokenFieldView::Text(t), .. }
            ==> spec_on_reply(attempt, reply).action == (ActionView::PersistToken { token: t }),
{
}

} // verus!

