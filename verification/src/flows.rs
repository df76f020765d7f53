//! The sequences of requests behind restoring a saved session, signing in
//! and registering. Each is a state machine: a step takes the state and
//! what happened, and gives the next state and what to do. The caller
//! sends the requests and hands their outcome back.

use vstd::prelude::*;
use vstd::string::*;

use crate::forms::{
    check_login_form, check_register_form, login_form_error, register_form_error,
};
use crate::api::{action_reply, failure_text, text_view, Action, HttpReply};
use crate::models::{User, UserView};
use crate::text::trimmed;

verus! {

/// Where restoring a saved session stands.
#[derive(Clone, PartialEq, Debug)]
pub enum RestoreState {
    /// Nothing done yet.
    Start,
    /// The saved token was sent for renewal.
    AwaitRefresh,
    /// The renewed token was sent to load the account.
    AwaitUser { token: String },
    /// Done.
    Finished,
}

/// What happened while restoring a session.
pub enum RestoreEvent {
    /// The token kept from an earlier visit, if any.
    Saved(Option<String>),
    /// The renewal's outcome: the new token, or a message.
    Refreshed(Result<String, String>),
    /// The account's outcome, or a message.
    UserLoaded(Result<User, String>),
}

/// What to do next while restoring a session.
pub enum RestoreCommand {
    Nothing,
    /// Ask the server to renew `token`.
    Refresh { token: String },
    /// Load the account that `token` belongs to.
    FetchUser { token: String },
    /// Sign in with `token` and `user`.
    SignIn { token: String, user: User },
    /// Sign out.
    SignOut,
}

/// One step of restoring a session: a saved token is renewed, the renewed
/// token loads the account, and the session is opened with both; any
/// failure signs out. Events that do not fit the state change nothing.
pub open spec fn restore_next(state: RestoreState, event: RestoreEvent) -> (
    RestoreState,
    RestoreCommand,
) {
    match (state, event) {
        (RestoreState::Start, RestoreEvent::Saved(Some(t))) => (
            RestoreState::AwaitRefresh,
            RestoreCommand::Refresh { token: t },
        ),
        (RestoreState::Start, RestoreEvent::Saved(None)) => (
            RestoreState::Finished,
            RestoreCommand::Nothing,
        ),
        (RestoreState::AwaitRefresh, RestoreEvent::Refreshed(Ok(t))) => (
            RestoreState::AwaitUser { token: t },
            RestoreCommand::FetchUser { token: t },
        ),
        (RestoreState::AwaitRefresh, RestoreEvent::Refreshed(Err(_))) => (
            RestoreState::Finished,
            RestoreCommand::SignOut,
        ),
        (RestoreState::AwaitUser { token }, RestoreEvent::UserLoaded(Ok(u))) => (
            RestoreState::Finished,
            RestoreCommand::SignIn { token, user: u },
        ),
        (RestoreState::AwaitUser { .. }, RestoreEvent::UserLoaded(Err(_))) => (
            RestoreState::Finished,
            RestoreCommand::SignOut,
        ),
        (s, _) => (s, RestoreCommand::Nothing),
    }
}

/// One step of restoring a session (see [`restore_next`]).
pub fn restore_step(state: RestoreState, event: RestoreEvent) -> (r: (RestoreState, RestoreCommand))
    ensures
        r == restore_next(state, event),
{
    match state {
        RestoreState::Start => match event {
            RestoreEvent::Saved(Some(t)) => (
                RestoreState::AwaitRefresh,
                RestoreCommand::Refresh { token: t },
            ),
            RestoreEvent::Saved(None) => (RestoreState::Finished, RestoreCommand::Nothing),
            _ => (RestoreState::Start, RestoreCommand::Nothing),
        },
        RestoreState::AwaitRefresh => match event {
            RestoreEvent::Refreshed(Ok(t)) => {
                let t2 = t.clone();
                (RestoreState::AwaitUser { token: t }, RestoreCommand::FetchUser { token: t2 })
            },
            RestoreEvent::Refreshed(Err(_)) => (RestoreState::Finished, RestoreCommand::SignOut),
            _ => (RestoreState::AwaitRefresh, RestoreCommand::Nothing),
        },
        RestoreState::AwaitUser { token } => match event {
            RestoreEvent::UserLoaded(Ok(u)) => (
                RestoreState::Finished,
                RestoreCommand::SignIn { token, user: u },
            ),
            RestoreEvent::UserLoaded(Err(_)) => (RestoreState::Finished, RestoreCommand::SignOut),
            _ => (RestoreState::AwaitUser { token }, RestoreCommand::Nothing),
        },
        RestoreState::Finished => (RestoreState::Finished, RestoreCommand::Nothing),
    }
}

/// A law of restoring: when renewal and loading succeed, the session is
/// opened with the renewed token, never the saved one, and the account
/// loaded with it.
pub proof fn law_restore_uses_renewed_token(saved: String, renewed: String, user: User)
    ensures
        ({
            let (s1, c1) = restore_next(RestoreState::Start, RestoreEvent::Saved(Some(saved)));
            let (s2, c2) = restore_next(s1, RestoreEvent::Refreshed(Ok(renewed)));
            let (s3, c3) = restore_next(s2, RestoreEvent::UserLoaded(Ok(user)));
            &&& c1 == RestoreCommand::Refresh { token: saved }
            &&& c2 == RestoreCommand::FetchUser { token: renewed }
            &&& c3 == RestoreCommand::SignIn { token: renewed, user }
            &&& s3 == RestoreState::Finished
        }),
{
}

/// A law of restoring: a failed renewal, or a failed load after it, signs
/// out and ends the restore.
pub proof fn law_restore_failure_signs_out(saved: String, renewed: String, e: String)
    ensures
        ({
            let (s1, _) = restore_next(RestoreState::Start, RestoreEvent::Saved(Some(saved)));
            let (a, ca) = restore_next(s1, RestoreEvent::Refreshed(Err(e)));
            let (s2, _) = restore_next(s1, RestoreEvent::Refreshed(Ok(renewed)));
            let (b, cb) = restore_next(s2, RestoreEvent::UserLoaded(Err(e)));
            &&& ca == RestoreCommand::SignOut && a == RestoreState::Finished
            &&& cb == RestoreCommand::SignOut && b == RestoreState::Finished
        }),
{
}

/// Where signing in or registering stands.
#[derive(Clone, PartialEq, Debug)]
pub enum AuthFlow {
    /// The form can be submitted.
    Idle,
    /// The registration was sent.
    AwaitRegistration { username: String, password: String },
    /// The credentials were sent to sign in; `fresh` when the account was
    /// just registered.
    AwaitToken { username: String, password: String, fresh: bool },
    /// The token was sent to load the account.
    AwaitUser { token: String, fresh: bool },
}

/// What to do next while signing in or registering.
pub enum AuthCommand {
    Nothing,
    /// Show `message` as an error.
    Fail { message: String },
    /// Send the registration.
    SendRegistration { username: String, password: String },
    /// Send the credentials to sign in.
    SendLogin { username: String, password: String },
    /// Load the account that `token` belongs to.
    FetchUser { token: String },
    /// Open the session, show `message` as a success and go to the
    /// catalogue.
    SignedIn { token: String, user: User, message: String },
    /// Show `message` as a success and go to the sign-in page.
    RegisteredOnly { message: String },
}

/// The view of an [`AuthFlow`].
pub enum AuthStage {
    Idle,
    AwaitRegistration { username: Seq<char>, password: Seq<char> },
    AwaitToken { username: Seq<char>, password: Seq<char>, fresh: bool },
    AwaitUser { token: Seq<char>, fresh: bool },
}

/// The view of an [`AuthCommand`].
pub enum AuthStep {
    Nothing,
    Fail(Seq<char>),
    SendRegistration(Seq<char>, Seq<char>),
    SendLogin(Seq<char>, Seq<char>),
    FetchUser(Seq<char>),
    SignedIn(Seq<char>, UserView, Seq<char>),
    RegisteredOnly(Seq<char>),
}

impl View for AuthFlow {
    type V = AuthStage;

    open spec fn view(&self) -> AuthStage {
        match self {
            AuthFlow::Idle => AuthStage::Idle,
            AuthFlow::AwaitRegistration { username, password } => AuthStage::AwaitRegistration {
                username: username@,
                password: password@,
            },
            AuthFlow::AwaitToken { username, password, fresh } => AuthStage::AwaitToken {
                username: username@,
                password: password@,
                fresh: *fresh,
            },
            AuthFlow::AwaitUser { token, fresh } => AuthStage::AwaitUser {
                token: token@,
                fresh: *fresh,
            },
        }
    }
}

impl View for AuthCommand {
    type V = AuthStep;

    open spec fn view(&self) -> AuthStep {
        match self {
            AuthCommand::Nothing => AuthStep::Nothing,
            AuthCommand::Fail { message } => AuthStep::Fail(message@),
            AuthCommand::SendRegistration { username, password } => AuthStep::SendRegistration(
                username@,
                password@,
            ),
            AuthCommand::SendLogin { username, password } => AuthStep::SendLogin(
                username@,
                password@,
            ),
            AuthCommand::FetchUser { token } => AuthStep::FetchUser(token@),
            AuthCommand::SignedIn { token, user, message } => AuthStep::SignedIn(
                token@,
                user@,
                message@,
            ),
            AuthCommand::RegisteredOnly { message } => AuthStep::RegisteredOnly(message@),
        }
    }
}

/// Submitting the sign-in form: ignored while a request is under way;
/// refused with a message when the form is incomplete; else the trimmed
/// user name and the password are sent.
pub open spec fn login_submitted(f: AuthStage, username: Seq<char>, password: Seq<char>) -> (
    AuthStage,
    AuthStep,
) {
    if !(f is Idle) {
        (f, AuthStep::Nothing)
    } else {
        match login_form_error(username, password) {
            Some(e) => (AuthStage::Idle, AuthStep::Fail(e)),
            None => (
                AuthStage::AwaitToken { username: trimmed(username), password, fresh: false },
                AuthStep::SendLogin(trimmed(username), password),
            ),
        }
    }
}

/// Submitting the registration form: ignored while a request is under way;
/// refused with a message when the form is not acceptable; else the
/// trimmed user name and the password are sent for registration.
pub open spec fn register_submitted(
    f: AuthStage,
    username: Seq<char>,
    password: Seq<char>,
    confirm: Seq<char>,
) -> (AuthStage, AuthStep) {
    if !(f is Idle) {
        (f, AuthStep::Nothing)
    } else {
        match register_form_error(username, password, confirm) {
            Some(e) => (AuthStage::Idle, AuthStep::Fail(e)),
            None => (
                AuthStage::AwaitRegistration { username: trimmed(username), password },
                AuthStep::SendRegistration(trimmed(username), password),
            ),
        }
    }
}

/// The registration's outcome: on success the same credentials are sent
/// to sign in; a failure is shown.
pub open spec fn registration_answered(f: AuthStage, ok: bool, message: Seq<char>) -> (
    AuthStage,
    AuthStep,
) {
    match f {
        AuthStage::AwaitRegistration { username, password } => if ok {
            (
                AuthStage::AwaitToken { username, password, fresh: true },
                AuthStep::SendLogin(username, password),
            )
        } else {
            (AuthStage::Idle, AuthStep::Fail(message))
        },
        _ => (f, AuthStep::Nothing),
    }
}

/// The sign-in's outcome: a token loads the account; a failure is shown,
/// except right after registering, where the user is sent to sign in by
/// hand.
pub open spec fn token_answered(f: AuthStage, r: Result<Seq<char>, Seq<char>>) -> (
    AuthStage,
    AuthStep,
) {
    match f {
        AuthStage::AwaitToken { fresh, .. } => match r {
            Ok(t) => (AuthStage::AwaitUser { token: t, fresh }, AuthStep::FetchUser(t)),
            Err(e) => if fresh {
                (AuthStage::Idle, AuthStep::RegisteredOnly("注册成功，请登录"@))
            } else {
                (AuthStage::Idle, AuthStep::Fail(e))
            },
        },
        _ => (f, AuthStep::Nothing),
    }
}

/// The account's outcome: the session is opened with a greeting that says
/// whether the account is new; a failure is shown.
pub open spec fn user_answered(f: AuthStage, r: Result<UserView, Seq<char>>) -> (
    AuthStage,
    AuthStep,
) {
    match f {
        AuthStage::AwaitUser { token, fresh } => match r {
            Ok(u) => (
                AuthStage::Idle,
                AuthStep::SignedIn(
                    token,
                    u,
                    if fresh {
                        "注册成功，已自动登录"@
                    } else {
                        "登录成功"@
                    },
                ),
            ),
            Err(e) => (AuthStage::Idle, AuthStep::Fail(e)),
        },
        _ => (f, AuthStep::Nothing),
    }
}

impl AuthFlow {
    /// Whether a request is under way (the form's button is disabled).
    pub fn is_busy(&self) -> (r: bool)
        ensures
            r == !(self@ is Idle),
    {
        !matches!(self, AuthFlow::Idle)
    }
}

/// Submits the sign-in form (see [`login_submitted`]).
pub fn login_submit(flow: AuthFlow, username: &str, password: &str) -> (r: (AuthFlow, AuthCommand))
    ensures
        (r.0@, r.1@) == login_submitted(flow@, username@, password@),
{
    if flow.is_busy() {
        return (flow, AuthCommand::Nothing);
    }
    match check_login_form(username, password) {
        Err(message) => (AuthFlow::Idle, AuthCommand::Fail { message }),
        Ok(c) => {
            let username = c.username.clone();
            let password = c.password.clone();
            (
                AuthFlow::AwaitToken { username: c.username, password: c.password, fresh: false },
                AuthCommand::SendLogin { username, password },
            )
        },
    }
}

/// Submits the registration form (see [`register_submitted`]).
pub fn register_submit(flow: AuthFlow, username: &str, password: &str, confirm: &str) -> (r: (
    AuthFlow,
    AuthCommand,
))
    ensures
        (r.0@, r.1@) == register_submitted(flow@, username@, password@, confirm@),
{
    if flow.is_busy() {
        return (flow, AuthCommand::Nothing);
    }
    match check_register_form(username, password, confirm) {
        Err(message) => (AuthFlow::Idle, AuthCommand::Fail { message }),
        Ok(c) => {
            let username = c.username.clone();
            let password = c.password.clone();
            (
                AuthFlow::AwaitRegistration { username: c.username, password: c.password },
                AuthCommand::SendRegistration { username, password },
            )
        },
    }
}

/// Hands the registration's outcome on (see [`registration_answered`]).
pub fn registration_reply(flow: AuthFlow, outcome: Result<String, String>) -> (r: (
    AuthFlow,
    AuthCommand,
))
    ensures
        (r.0@, r.1@) == registration_answered(
            flow@,
            outcome is Ok,
            match outcome {
                Ok(_) => Seq::empty(),
                Err(e) => e@,
            },
        ),
        match (flow, outcome) {
            (AuthFlow::AwaitRegistration { .. }, Err(e)) => r.0 is Idle && r.1@ == AuthStep::Fail(
                e@,
            ),
            (AuthFlow::AwaitRegistration { username, password }, Ok(_)) => r.1@
                == AuthStep::SendLogin(username@, password@),
            _ => true,
        },
{
    match flow {
        AuthFlow::AwaitRegistration { username, password } => match outcome {
            Ok(_) => {
                let u = username.clone();
                let p = password.clone();
                (
                    AuthFlow::AwaitToken { username, password, fresh: true },
                    AuthCommand::SendLogin { username: u, password: p },
                )
            },
            Err(message) => (AuthFlow::Idle, AuthCommand::Fail { message }),
        },
        other => (other, AuthCommand::Nothing),
    }
}

/// Hands the sign-in's outcome on (see [`token_answered`]).
pub fn token_reply(flow: AuthFlow, outcome: Result<String, String>) -> (r: (AuthFlow, AuthCommand))
    ensures
        (r.0@, r.1@) == token_answered(
            flow@,
            match outcome {
                Ok(t) => Ok(t@),
                Err(e) => Err(e@),
            },
        ),
        match (flow, outcome) {
            (AuthFlow::AwaitToken { fresh: false, .. }, Err(e)) => r.0 is Idle && r.1@
                == AuthStep::Fail(e@),
            (AuthFlow::AwaitToken { .. }, Ok(t)) => r.1@ == AuthStep::FetchUser(t@),
            _ => true,
        },
{
    match flow {
        AuthFlow::AwaitToken { username, password, fresh } => match outcome {
            Ok(t) => {
                let t2 = t.clone();
                (AuthFlow::AwaitUser { token: t, fresh }, AuthCommand::FetchUser { token: t2 })
            },
            Err(message) => if fresh {
                (
                    AuthFlow::Idle,
                    AuthCommand::RegisteredOnly { message: String::from_str("注册成功，请登录") },
                )
            } else {
                (AuthFlow::Idle, AuthCommand::Fail { message })
            },
        },
        other => (other, AuthCommand::Nothing),
    }
}

/// Hands the account's outcome on (see [`user_answered`]).
pub fn user_reply(flow: AuthFlow, outcome: Result<User, String>) -> (r: (AuthFlow, AuthCommand))
    ensures
        (r.0@, r.1@) == user_answered(
            flow@,
            match outcome {
                Ok(u) => Ok(u@),
                Err(e) => Err(e@),
            },
        ),
        match (flow, outcome) {
            (AuthFlow::AwaitUser { .. }, Err(e)) => r.0 is Idle && r.1@ == AuthStep::Fail(e@),
            (AuthFlow::AwaitUser { token, .. }, Ok(u)) => r.0 is Idle && (r.1@ matches AuthStep::SignedIn(
                t,
                v,
                _,
            ) && t == token@ && v == u@),
            _ => true,
        },
        !(flow is AwaitUser) ==> r.0@ == flow@ && r.1 is Nothing,
{
    match flow {
        AuthFlow::AwaitUser { token, fresh } => match outcome {
            Ok(user) => {
                let message = if fresh {
                    String::from_str("注册成功，已自动登录")
                } else {
                    String::from_str("登录成功")
                };
                (AuthFlow::Idle, AuthCommand::SignedIn { token, user, message })
            },
            Err(message) => (AuthFlow::Idle, AuthCommand::Fail { message }),
        },
        other => (other, AuthCommand::Nothing),
    }
}

/// A law of registering: an acceptable form, accepted by the server, signs
/// in with the same credentials and opens the session with the token and
/// account the server gives, greeting a new account.
pub proof fn law_register_then_sign_in(
    username: Seq<char>,
    password: Seq<char>,
    token: Seq<char>,
    user: UserView,
)
    requires
        register_form_error(username, password, password) is None,
    ensures
        ({
            let (f1, c1) = register_submitted(AuthStage::Idle, username, password, password);
            let (f2, c2) = registration_answered(f1, true, Seq::empty());
            let (f3, c3) = token_answered(f2, Ok(token));
            let (f4, c4) = user_answered(f3, Ok(user));
            &&& c1 == AuthStep::SendRegistration(trimmed(username), password)
            &&& c2 == AuthStep::SendLogin(trimmed(username), password)
            &&& c3 == AuthStep::FetchUser(token)
            &&& c4 == AuthStep::SignedIn(token, user, "注册成功，已自动登录"@)
            &&& f4 is Idle
        }),
{
}

/// A law of registering: when signing in fails right after a successful
/// registration, the user is told the account exists and is sent to sign
/// in, not shown the failure.
pub proof fn law_register_sign_in_failure(
    username: Seq<char>,
    password: Seq<char>,
    failure: Seq<char>,
)
    requires
        register_form_error(username, password, password) is None,
    ensures
        ({
            let (f1, _) = register_submitted(AuthStage::Idle, username, password, password);
            let (f2, _) = registration_answered(f1, true, Seq::empty());
            let (f3, c3) = token_answered(f2, Err(failure));
            &&& c3 == AuthStep::RegisteredOnly("注册成功，请登录"@)
            &&& f3 is Idle
        }),
{
}

/// A law of both forms: while a request is under way, submitting again
/// changes nothing and sends nothing.
pub proof fn law_busy_form_ignores_submit(
    f: AuthStage,
    username: Seq<char>,
    password: Seq<char>,
    confirm: Seq<char>,
)
    requires
        !(f is Idle),
    ensures
        login_submitted(f, username, password) == (f, AuthStep::Nothing),
        register_submitted(f, username, password, confirm) == (f, AuthStep::Nothing),
{
}

/// A law of signing in: once the credentials were accepted, a failure to
/// load the account is shown as it came and leaves the form usable again;
/// a failure to get the token is shown the same way.
pub proof fn law_sign_in_failures_shown(
    username: Seq<char>,
    password: Seq<char>,
    token: Seq<char>,
    failure: Seq<char>,
)
    requires
        login_form_error(username, password) is None,
    ensures
        ({
            let (f1, c1) = login_submitted(AuthStage::Idle, username, password);
            let (f2, c2) = token_answered(f1, Ok(token));
            let (f3, c3) = user_answered(f2, Err(failure));
            &&& c1 == AuthStep::SendLogin(trimmed(username), password)
            &&& c2 == AuthStep::FetchUser(token)
            &&& c3 == AuthStep::Fail(failure)
            &&& f3 is Idle
        }),
        ({
            let (f1, _) = login_submitted(AuthStage::Idle, username, password);
            let (f2, c2) = token_answered(f1, Err(failure));
            &&& c2 == AuthStep::Fail(failure)
            &&& f2 is Idle
        }),
{
}

/// A law of signing in: acceptable credentials, answered with a token and
/// then an account, open the session with that very token and account and
/// greet with a plain sign-in message.
pub proof fn law_sign_in_opens_session(
    username: Seq<char>,
    password: Seq<char>,
    token: Seq<char>,
    user: UserView,
)
    requires
        login_form_error(username, password) is None,
    ensures
        ({
            let (f1, _) = login_submitted(AuthStage::Idle, username, password);
            let (f2, _) = token_answered(f1, Ok(token));
            let (f3, c3) = user_answered(f2, Ok(user));
            &&& c3 == AuthStep::SignedIn(token, user, "登录成功"@)
            &&& f3 is Idle
        }),
{
}

/// A law of every step that waits on the server: a failure while loading
/// the account, or while registering, ends idle and shows that failure,
/// whatever was being waited for.
pub proof fn law_failed_answers_shown(
    token: Seq<char>,
    fresh: bool,
    username: Seq<char>,
    password: Seq<char>,
    failure: Seq<char>,
)
    ensures
        user_answered(AuthStage::AwaitUser { token, fresh }, Err(failure)) == (
            AuthStage::Idle,
            AuthStep::Fail(failure),
        ),
        registration_answered(AuthStage::AwaitRegistration { username, password }, false, failure)
            == (AuthStage::Idle, AuthStep::Fail(failure)),
        token_answered(
            AuthStage::AwaitToken { username, password, fresh: false },
            Err(failure),
        ) == (AuthStage::Idle, AuthStep::Fail(failure)),
{
}

/// A law of registering: a reply that refuses the registration is shown
/// with the server's reason and nothing more is sent; in particular the
/// flow never goes on to sign in with the refused credentials.
pub proof fn law_refused_registration_shown(
    username: Seq<char>,
    password: Seq<char>,
    reply: HttpReply,
)
    requires
        !reply.ok,
    ensures
        ({
            let outcome = action_reply(reply, Action::Register);
            let message = match outcome {
                Ok(_) => Seq::empty(),
                Err(e) => e,
            };
            &&& outcome == Err::<Seq<char>, Seq<char>>(failure_text(reply.status, text_view(reply.body)))
            &&& registration_answered(
                AuthStage::AwaitRegistration { username, password },
                outcome is Ok,
                message,
            ) == (AuthStage::Idle, AuthStep::Fail(failure_text(reply.status, text_view(reply.body))))
        }),
{
}

} // verus!
