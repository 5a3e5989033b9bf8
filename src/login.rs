use vstd::prelude::*;
use crate::audit::{AuditRecord, is_creation_record, is_login_record};
use crate::error::{ApiError, ErrorCode};
use crate::profile::{LoginPayload, OAuthConfig, ProviderProfile, TokenRequest};
use crate::user::{Role, User, complete, new_user, provisioned_from};

verus! {

/// How a call to the identity provider failed.
#[derive(Clone, Debug)]
pub enum HttpFailure {
    /// No response came back; the transport's error text.
    Connect(String),
    /// The provider answered with a failure status; the body it sent.
    ErrorResponse(String),
}

/// The outcome of the outside step a login was waiting for.
#[derive(Debug)]
pub enum Event {
    AccessToken(Result<String, HttpFailure>),
    Profile(Result<ProviderProfile, HttpFailure>),
    Pool(Result<(), String>),
    Connection(Result<(), String>),
    UserLookup(Result<Option<User>, String>),
    UserCreated(Result<(), String>),
    Appended(Result<(), String>),
    RoleLookup(Result<Option<Role>, String>),
    TokenIssued(String),
}

/// What a successful login hands back.
#[derive(Clone, Debug)]
pub struct LoginResponse {
    pub token: String,
    pub user: User,
    pub role: Role,
}

/// A login in progress. Each non-final state names the outside step to perform next,
/// with what that step needs.
#[derive(Clone, Debug)]
pub enum LoginState {
    /// Post `request` to the provider's token endpoint.
    ExchangingCode { request: TokenRequest },
    /// Fetch the profile with `access_token`.
    FetchingProfile { access_token: String },
    /// Get the database pool.
    OpeningPool { profile: ProviderProfile },
    /// Get a connection from the pool.
    OpeningConnection { profile: ProviderProfile },
    /// Look up the user by `profile.cid`.
    FindingUser { profile: ProviderProfile },
    /// Store the new `user`. Any failure here, a duplicate insert by a racing first login
    /// included, ends the login with `database_error_create_user`; the next attempt finds
    /// the stored user by its lookup.
    CreatingUser { user: User },
    /// Append `AuditRecord::user_created(&user)`.
    LoggingCreation { user: User },
    /// Look up the role `user.role`.
    FindingRole { user: User },
    /// Sign a session token for `user` and `role`.
    IssuingToken { user: User, role: Role },
    /// Append `AuditRecord::logged_in(&user)`.
    LoggingLogin { user: User, role: Role, token: String },
    /// The login succeeded.
    Done { response: LoginResponse },
    /// The login failed.
    Failed { error: ApiError },
}

/// Whether `e` is the outcome of the step that `s` waits for; final states wait for none.
pub open spec fn accepts_spec(s: LoginState, e: Event) -> bool {
    match s {
        LoginState::ExchangingCode { .. } => e is AccessToken,
        LoginState::FetchingProfile { .. } => e is Profile,
        LoginState::OpeningPool { .. } => e is Pool,
        LoginState::OpeningConnection { .. } => e is Connection,
        LoginState::FindingUser { .. } => e is UserLookup,
        LoginState::CreatingUser { .. } => e is UserCreated,
        LoginState::LoggingCreation { .. } => e is Appended,
        LoginState::FindingRole { .. } => e is RoleLookup,
        LoginState::IssuingToken { .. } => e is TokenIssued,
        LoginState::LoggingLogin { .. } => e is Appended,
        LoginState::Done { .. } | LoginState::Failed { .. } => false,
    }
}

pub open spec fn failure(kind: ErrorCode, detail: Option<String>) -> LoginState {
    LoginState::Failed { error: ApiError { kind, detail } }
}

pub open spec fn http_failure(connect: ErrorCode, response: ErrorCode, f: HttpFailure) -> LoginState {
    match f {
        HttpFailure::Connect(d) => failure(connect, Some(d)),
        HttpFailure::ErrorResponse(d) => failure(response, Some(d)),
    }
}

/// The state a login starts in, given the request body as read: `Err` where it did not
/// parse, `Ok(None)` where there was none.
pub open spec fn start_spec(config: OAuthConfig, payload: Result<Option<LoginPayload>, ()>) -> LoginState {
    match payload {
        Err(_) => failure(ErrorCode::InvalidPayload, None),
        Ok(None) => failure(ErrorCode::MissingPayload, None),
        Ok(Some(p)) => LoginState::ExchangingCode { request: config.token_request_spec(p) },
    }
}

/// The login protocol: `t` is the state that follows `s` on the outcome `e`.
pub open spec fn transition(s: LoginState, e: Event, t: LoginState) -> bool {
    match (s, e) {
        (LoginState::ExchangingCode { .. }, Event::AccessToken(Ok(access_token))) =>
            t == LoginState::FetchingProfile { access_token },
        (LoginState::ExchangingCode { .. }, Event::AccessToken(Err(f))) =>
            t == http_failure(ErrorCode::VatsimTokenConnectError, ErrorCode::VatsimTokenErrorResponse, f),
        (LoginState::FetchingProfile { .. }, Event::Profile(Ok(profile))) =>
            t == LoginState::OpeningPool { profile },
        (LoginState::FetchingProfile { .. }, Event::Profile(Err(f))) =>
            t == http_failure(ErrorCode::VatsimUserConnectError, ErrorCode::VatsimUserErrorResponse, f),
        (LoginState::OpeningPool { profile }, Event::Pool(Ok(_))) =>
            t == LoginState::OpeningConnection { profile },
        (LoginState::OpeningPool { .. }, Event::Pool(Err(d))) =>
            t == failure(ErrorCode::DatabaseErrorGetPool, Some(d)),
        (LoginState::OpeningConnection { profile }, Event::Connection(Ok(_))) =>
            t == LoginState::FindingUser { profile },
        (LoginState::OpeningConnection { .. }, Event::Connection(Err(d))) =>
            t == failure(ErrorCode::DatabaseErrorGetConn, Some(d)),
        (LoginState::FindingUser { .. }, Event::UserLookup(Ok(Some(user)))) =>
            t == LoginState::FindingRole { user },
        (LoginState::FindingUser { profile }, Event::UserLookup(Ok(None))) =>
            if complete(profile) {
                t matches LoginState::CreatingUser { user } && provisioned_from(user, profile)
            } else {
                t == failure(ErrorCode::VatsimUserIncompleteProfile, None)
            },
        (LoginState::FindingUser { .. }, Event::UserLookup(Err(d))) =>
            t == failure(ErrorCode::DatabaseErrorFindUser, Some(d)),
        (LoginState::CreatingUser { user }, Event::UserCreated(Ok(_))) =>
            t == LoginState::LoggingCreation { user },
        (LoginState::CreatingUser { .. }, Event::UserCreated(Err(d))) =>
            t == failure(ErrorCode::DatabaseErrorCreateUser, Some(d)),
        (LoginState::LoggingCreation { user }, Event::Appended(Ok(_))) =>
            t == LoginState::FindingRole { user },
        (LoginState::LoggingCreation { .. }, Event::Appended(Err(d))) =>
            t == failure(ErrorCode::DatabaseErrorCreateUserLog, Some(d)),
        (LoginState::FindingRole { user }, Event::RoleLookup(Ok(Some(role)))) =>
            t == LoginState::IssuingToken { user, role },
        (LoginState::FindingRole { .. }, Event::RoleLookup(Ok(None))) =>
            t == failure(ErrorCode::RoleMissing, None),
        (LoginState::FindingRole { .. }, Event::RoleLookup(Err(d))) =>
            t == failure(ErrorCode::DatabaseErrorFindRole, Some(d)),
        (LoginState::IssuingToken { user, role }, Event::TokenIssued(token)) =>
            t == LoginState::LoggingLogin { user, role, token },
        (LoginState::LoggingLogin { user, role, token }, Event::Appended(Ok(_))) =>
            t == LoginState::Done { response: LoginResponse { token, user, role } },
        (LoginState::LoggingLogin { .. }, Event::Appended(Err(d))) =>
            t == failure(ErrorCode::DatabaseErrorCreateLog, Some(d)),
        _ => false,
    }
}

/// `states` is a run of the protocol on `events`: each state accepted the next outcome and
/// moved on as `transition` says.
pub open spec fn is_run(states: Seq<LoginState>, events: Seq<Event>) -> bool {
    &&& states.len() == events.len() + 1
    &&& forall|i: int|
        0 <= i < events.len() ==> accepts_spec(#[trigger] states[i], events[i]) && transition(
            states[i],
            events[i],
            states[i + 1],
        )
}

/// The states in which the role is not yet known.
pub open spec fn before_role_lookup(s: LoginState) -> bool {
    !(s is IssuingToken || s is LoggingLogin || s is Done || s is Failed)
}

/// A login whose lookup finds the member stores no user and appends no creation entry;
/// where it succeeds, it passes through the session-logging state exactly once, so it
/// appends exactly one session entry.
pub proof fn lemma_returning_user(states: Seq<LoginState>, events: Seq<Event>, user: User)
    requires
        is_run(states, events),
        events.len() >= 1,
        states[0] is FindingUser,
        events[0] == Event::UserLookup(Ok(Some(user))),
    ensures
        forall|i: int|
            0 <= i < states.len() ==> !(#[trigger] states[i] is CreatingUser) && !(states[i] is LoggingCreation),
        states.last() is Done ==> {
            &&& states.len() == 5
            &&& states[3] is LoggingLogin
            &&& forall|i: int| 0 <= i < states.len() && i != 3 ==> !(#[trigger] states[i] is LoggingLogin)
        },
{
    let n = events.len() as int;
    assert(accepts_spec(states[0], events[0]));
    assert(states[1] == LoginState::FindingRole { user });
    if n >= 2 {
        assert(accepts_spec(states[1], events[1]));
        assert(states[2] is IssuingToken || states[2] is Failed);
        if states[2] is Failed {
            if n >= 3 {
                assert(accepts_spec(states[2], events[2]));
            }
        } else {
            if n >= 3 {
                assert(accepts_spec(states[2], events[2]));
                assert(states[3] is LoggingLogin);
                if n >= 4 {
                    assert(accepts_spec(states[3], events[3]));
                    assert(states[4] is Done || states[4] is Failed);
                    if n >= 5 {
                        assert(accepts_spec(states[4], events[4]));
                    }
                }
            }
        }
    }
    assert(n <= 4);
}

/// Every successful login hands back the role that the role lookup returned, and the
/// token was signed in a state holding that same user and role.
pub proof fn lemma_token_role_matches_lookup(
    states: Seq<LoginState>,
    events: Seq<Event>,
    response: LoginResponse,
)
    requires
        is_run(states, events),
        before_role_lookup(states[0]),
        states.last() == (LoginState::Done { response }),
    ensures
        exists|i: int|
            0 <= i < events.len() && #[trigger] events[i] == Event::RoleLookup(Ok(Some(response.role)))
                && states[i + 1] == (LoginState::IssuingToken { user: response.user, role: response.role }),
{
    let n = events.len() as int;
    assert(n >= 1);
    assert(accepts_spec(states[n - 1], events[n - 1]));
    assert(states[n - 1] == (LoginState::LoggingLogin {
        user: response.user,
        role: response.role,
        token: response.token,
    }));
    assert(n >= 2);
    assert(accepts_spec(states[n - 2], events[n - 2]));
    assert(states[n - 2] == (LoginState::IssuingToken { user: response.user, role: response.role }));
    assert(n >= 3);
    assert(accepts_spec(states[n - 3], events[n - 3]));
    assert(events[n - 3] == Event::RoleLookup(Ok(Some(response.role))));
}

fn http_failed(connect: ErrorCode, response: ErrorCode, f: HttpFailure) -> (t: LoginState)
    ensures
        t == http_failure(connect, response, f),
{
    match f {
        HttpFailure::Connect(d) => LoginState::Failed { error: ApiError { kind: connect, detail: Some(d) } },
        HttpFailure::ErrorResponse(d) => LoginState::Failed { error: ApiError { kind: response, detail: Some(d) } },
    }
}

fn failed(kind: ErrorCode, detail: String) -> (t: LoginState)
    ensures
        t == failure(kind, Some(detail)),
{
    LoginState::Failed { error: ApiError { kind, detail: Some(detail) } }
}

impl LoginState {
    /// Validates the request body and begins the exchange; nothing outside is called for a
    /// body that is missing or did not parse.
    pub fn start(config: &OAuthConfig, payload: Result<Option<LoginPayload>, ()>) -> (t: LoginState)
        ensures
            t == start_spec(*config, payload),
    {
        match payload {
            Err(_) => LoginState::Failed { error: ApiError { kind: ErrorCode::InvalidPayload, detail: None } },
            Ok(None) => LoginState::Failed { error: ApiError { kind: ErrorCode::MissingPayload, detail: None } },
            Ok(Some(p)) => LoginState::ExchangingCode { request: config.token_request(p) },
        }
    }

    pub fn accepts(&self, e: &Event) -> (r: bool)
        ensures
            r == accepts_spec(*self, *e),
    {
        match self {
            LoginState::ExchangingCode { .. } => matches!(e, Event::AccessToken(_)),
            LoginState::FetchingProfile { .. } => matches!(e, Event::Profile(_)),
            LoginState::OpeningPool { .. } => matches!(e, Event::Pool(_)),
            LoginState::OpeningConnection { .. } => matches!(e, Event::Connection(_)),
            LoginState::FindingUser { .. } => matches!(e, Event::UserLookup(_)),
            LoginState::CreatingUser { .. } => matches!(e, Event::UserCreated(_)),
            LoginState::LoggingCreation { .. } => matches!(e, Event::Appended(_)),
            LoginState::FindingRole { .. } => matches!(e, Event::RoleLookup(_)),
            LoginState::IssuingToken { .. } => matches!(e, Event::TokenIssued(_)),
            LoginState::LoggingLogin { .. } => matches!(e, Event::Appended(_)),
            LoginState::Done { .. } | LoginState::Failed { .. } => false,
        }
    }

    /// Whether the login has ended, in success or failure.
    pub fn is_finished(&self) -> (r: bool)
        ensures
            r == (*self is Done || *self is Failed),
    {
        matches!(self, LoginState::Done { .. } | LoginState::Failed { .. })
    }

    /// Advances the login on the outcome of the step it was waiting for.
    pub fn step(self, e: Event) -> (t: LoginState)
        requires
            accepts_spec(self, e),
        ensures
            transition(self, e, t),
    {
        match (self, e) {
            (LoginState::ExchangingCode { .. }, Event::AccessToken(Ok(access_token))) =>
                LoginState::FetchingProfile { access_token },
            (LoginState::ExchangingCode { .. }, Event::AccessToken(Err(f))) =>
                http_failed(ErrorCode::VatsimTokenConnectError, ErrorCode::VatsimTokenErrorResponse, f),
            (LoginState::FetchingProfile { .. }, Event::Profile(Ok(profile))) =>
                LoginState::OpeningPool { profile },
            (LoginState::FetchingProfile { .. }, Event::Profile(Err(f))) =>
                http_failed(ErrorCode::VatsimUserConnectError, ErrorCode::VatsimUserErrorResponse, f),
            (LoginState::OpeningPool { profile }, Event::Pool(Ok(_))) =>
                LoginState::OpeningConnection { profile },
            (LoginState::OpeningPool { .. }, Event::Pool(Err(d))) =>
                failed(ErrorCode::DatabaseErrorGetPool, d),
            (LoginState::OpeningConnection { profile }, Event::Connection(Ok(_))) =>
                LoginState::FindingUser { profile },
            (LoginState::OpeningConnection { .. }, Event::Connection(Err(d))) =>
                failed(ErrorCode::DatabaseErrorGetConn, d),
            (LoginState::FindingUser { .. }, Event::UserLookup(Ok(Some(user)))) =>
                LoginState::FindingRole { user },
            (LoginState::FindingUser { profile }, Event::UserLookup(Ok(None))) =>
                match new_user(&profile) {
                    Some(user) => LoginState::CreatingUser { user },
                    None => LoginState::Failed {
                        error: ApiError { kind: ErrorCode::VatsimUserIncompleteProfile, detail: None },
                    },
                },
            (LoginState::FindingUser { .. }, Event::UserLookup(Err(d))) =>
                failed(ErrorCode::DatabaseErrorFindUser, d),
            (LoginState::CreatingUser { user }, Event::UserCreated(Ok(_))) =>
                LoginState::LoggingCreation { user },
            (LoginState::CreatingUser { .. }, Event::UserCreated(Err(d))) =>
                failed(ErrorCode::DatabaseErrorCreateUser, d),
            (LoginState::LoggingCreation { user }, Event::Appended(Ok(_))) =>
                LoginState::FindingRole { user },
            (LoginState::LoggingCreation { .. }, Event::Appended(Err(d))) =>
                failed(ErrorCode::DatabaseErrorCreateUserLog, d),
            (LoginState::FindingRole { user }, Event::RoleLookup(Ok(Some(role)))) =>
                LoginState::IssuingToken { user, role },
            (LoginState::FindingRole { .. }, Event::RoleLookup(Ok(None))) =>
                LoginState::Failed { error: ApiError { kind: ErrorCode::RoleMissing, detail: None } },
            (LoginState::FindingRole { .. }, Event::RoleLookup(Err(d))) =>
                failed(ErrorCode::DatabaseErrorFindRole, d),
            (LoginState::IssuingToken { user, role }, Event::TokenIssued(token)) =>
                LoginState::LoggingLogin { user, role, token },
            (LoginState::LoggingLogin { user, role, token }, Event::Appended(Ok(_))) =>
                LoginState::Done { response: LoginResponse { token, user, role } },
            (LoginState::LoggingLogin { .. }, Event::Appended(Err(d))) =>
                failed(ErrorCode::DatabaseErrorCreateLog, d),
            (s, _) => {
                proof {
                    assert(false);
                }
                s
            },
        }
    }

    /// The audit entry to append in a logging state; `None` in every other state.
    pub fn pending_audit(&self) -> (r: Option<AuditRecord>)
        ensures
            match *self {
                LoginState::LoggingCreation { user } => r matches Some(a) && is_creation_record(a, user),
                LoginState::LoggingLogin { user, .. } => r matches Some(a) && is_login_record(a, user),
                _ => r is None,
            },
    {
        match self {
            LoginState::LoggingCreation { user } => Some(AuditRecord::user_created(user)),
            LoginState::LoggingLogin { user, .. } => Some(AuditRecord::logged_in(user)),
            _ => None,
        }
    }
}

} // verus!
