use vstd::prelude::*;

verus! {

/// Every way a login can fail, one variant per failing step.
#[derive(Clone, Copy, Debug, PartialEq, Eq, Structural)]
pub enum ErrorCode {
    InvalidPayload,
    MissingPayload,
    VatsimTokenConnectError,
    VatsimTokenErrorResponse,
    VatsimUserConnectError,
    VatsimUserErrorResponse,
    VatsimUserIncompleteProfile,
    DatabaseErrorGetPool,
    DatabaseErrorGetConn,
    DatabaseErrorFindUser,
    DatabaseErrorCreateUser,
    DatabaseErrorCreateUserLog,
    DatabaseErrorFindRole,
    DatabaseErrorCreateLog,
    RoleMissing,
}

/// The machine-readable code of an error kind.
pub open spec fn code_text(c: ErrorCode) -> Seq<char> {
    match c {
        ErrorCode::InvalidPayload => "invalid_payload"@,
        ErrorCode::MissingPayload => "missing_payload"@,
        ErrorCode::VatsimTokenConnectError => "vatsim_token_connect_error"@,
        ErrorCode::VatsimTokenErrorResponse => "vatsim_token_error_response"@,
        ErrorCode::VatsimUserConnectError => "vatsim_user_connect_error"@,
        ErrorCode::VatsimUserErrorResponse => "vatsim_user_error_response"@,
        ErrorCode::VatsimUserIncompleteProfile => "vatsim_user_incomplete_profile"@,
        ErrorCode::DatabaseErrorGetPool => "database_error_get_pool"@,
        ErrorCode::DatabaseErrorGetConn => "database_error_get_conn"@,
        ErrorCode::DatabaseErrorFindUser => "database_error_find_user"@,
        ErrorCode::DatabaseErrorCreateUser => "database_error_create_user"@,
        ErrorCode::DatabaseErrorCreateUserLog => "database_error_create_user_log"@,
        ErrorCode::DatabaseErrorFindRole => "database_error_find_role"@,
        ErrorCode::DatabaseErrorCreateLog => "database_error_create_log"@,
        ErrorCode::RoleMissing => "role_missing"@,
    }
}

/// Errors caused by the client's request, as opposed to the server or its upstreams.
pub open spec fn is_client_error_spec(c: ErrorCode) -> bool {
    c is InvalidPayload || c is MissingPayload
}

/// The human-readable message of a kind, before any upstream detail.
pub open spec fn message_prefix(c: ErrorCode) -> Seq<char> {
    match c {
        ErrorCode::InvalidPayload => "Invalid payload"@,
        ErrorCode::MissingPayload => "Missing payload"@,
        ErrorCode::RoleMissing => "user role is missing"@,
        ErrorCode::VatsimUserIncompleteProfile => "VATSIM profile lacks region or division"@,
        ErrorCode::VatsimTokenConnectError | ErrorCode::VatsimTokenErrorResponse
        | ErrorCode::VatsimUserConnectError | ErrorCode::VatsimUserErrorResponse =>
            "VATSIM returned error: "@,
        _ => "database error: "@,
    }
}

impl ErrorCode {
    pub fn code(&self) -> (r: String)
        ensures
            r@ == code_text(*self),
    {
        let s: &str = match self {
            ErrorCode::InvalidPayload => "invalid_payload",
            ErrorCode::MissingPayload => "missing_payload",
            ErrorCode::VatsimTokenConnectError => "vatsim_token_connect_error",
            ErrorCode::VatsimTokenErrorResponse => "vatsim_token_error_response",
            ErrorCode::VatsimUserConnectError => "vatsim_user_connect_error",
            ErrorCode::VatsimUserErrorResponse => "vatsim_user_error_response",
            ErrorCode::VatsimUserIncompleteProfile => "vatsim_user_incomplete_profile",
            ErrorCode::DatabaseErrorGetPool => "database_error_get_pool",
            ErrorCode::DatabaseErrorGetConn => "database_error_get_conn",
            ErrorCode::DatabaseErrorFindUser => "database_error_find_user",
            ErrorCode::DatabaseErrorCreateUser => "database_error_create_user",
            ErrorCode::DatabaseErrorCreateUserLog => "database_error_create_user_log",
            ErrorCode::DatabaseErrorFindRole => "database_error_find_role",
            ErrorCode::DatabaseErrorCreateLog => "database_error_create_log",
            ErrorCode::RoleMissing => "role_missing",
        };
        String::from_str(s)
    }

    pub fn is_client_error(&self) -> (r: bool)
        ensures
            r == is_client_error_spec(*self),
    {
        matches!(self, ErrorCode::InvalidPayload | ErrorCode::MissingPayload)
    }

    /// The HTTP status class: 400 for a bad request, 500 for everything else.
    pub fn status(&self) -> (r: u16)
        ensures
            r == (if is_client_error_spec(*self) { 400u16 } else { 500u16 }),
    {
        if self.is_client_error() {
            400
        } else {
            500
        }
    }
}

/// A failed login: which step failed, and the upstream error text where there is one.
#[derive(Clone, Debug)]
pub struct ApiError {
    pub kind: ErrorCode,
    pub detail: Option<String>,
}

impl ApiError {
    pub open spec fn message_spec(&self) -> Seq<char> {
        match self.detail {
            Some(d) => message_prefix(self.kind) + d@,
            None => message_prefix(self.kind),
        }
    }

    pub fn code(&self) -> (r: String)
        ensures
            r@ == code_text(self.kind),
    {
        self.kind.code()
    }

    pub fn status(&self) -> (r: u16)
        ensures
            r == (if is_client_error_spec(self.kind) { 400u16 } else { 500u16 }),
    {
        self.kind.status()
    }

    pub fn message(&self) -> (r: String)
        ensures
            r@ == self.message_spec(),
    {
        let prefix: &str = match self.kind {
            ErrorCode::InvalidPayload => "Invalid payload",
            ErrorCode::MissingPayload => "Missing payload",
            ErrorCode::RoleMissing => "user role is missing",
            ErrorCode::VatsimUserIncompleteProfile => "VATSIM profile lacks region or division",
            ErrorCode::VatsimTokenConnectError | ErrorCode::VatsimTokenErrorResponse
            | ErrorCode::VatsimUserConnectError | ErrorCode::VatsimUserErrorResponse =>
                "VATSIM returned error: ",
            _ => "database error: ",
        };
        let head = String::from_str(prefix);
        match &self.detail {
            Some(d) => head.concat(d.as_str()),
            None => head,
        }
    }
}

} // verus!
