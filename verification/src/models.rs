//! Core data model: the error taxonomy and the value objects exchanged with
//! callers.

use vstd::prelude::*;
use vstd::string::StringExecFns;

verus! {

/// Typed failure of any core operation.  Every collaborator failure is
/// wrapped into `Unknown`; all domain-meaningful failures use the named
/// kinds.
#[derive(Debug, Clone, PartialEq)]
pub enum ServiceError {
    Unknown { detail: String },
    UserNotFound,
    AuthorizationFailed,
    IncorrectPassword,
    IncorrectVerifyCode,
    UserAlreadyExists,
    UserNotVerified,
    LoginMethodNotSupported,
    TooFrequent,
    RedirectToSignup { sid: String, nickname: Option<String> },
    UpstreamRequestFailed { url: String },
}

impl ServiceError {
    /// The stable tag of this error kind.
    pub open spec fn name_spec(&self) -> Seq<char> {
        match self {
            ServiceError::Unknown { .. } => "Unknown"@,
            ServiceError::UserNotFound => "UserNotFound"@,
            ServiceError::AuthorizationFailed => "AuthorizationFailed"@,
            ServiceError::IncorrectPassword => "IncorrectPassword"@,
            ServiceError::IncorrectVerifyCode => "IncorrectVerifyCode"@,
            ServiceError::UserAlreadyExists => "UserAlreadyExists"@,
            ServiceError::UserNotVerified => "UserNotVerified"@,
            ServiceError::LoginMethodNotSupported => "LoginMethodNotSupported"@,
            ServiceError::TooFrequent => "TooFrequent"@,
            ServiceError::RedirectToSignup { .. } => "RedirectToSignup"@,
            ServiceError::UpstreamRequestFailed { .. } => "UpstreamRequestFailed"@,
        }
    }

    pub fn name(&self) -> (r: String)
        ensures
            r@ == self.name_spec(),
    {
        match self {
            ServiceError::Unknown { .. } => String::from_str("Unknown"),
            ServiceError::UserNotFound => String::from_str("UserNotFound"),
            ServiceError::AuthorizationFailed => String::from_str("AuthorizationFailed"),
            ServiceError::IncorrectPassword => String::from_str("IncorrectPassword"),
            ServiceError::IncorrectVerifyCode => String::from_str("IncorrectVerifyCode"),
            ServiceError::UserAlreadyExists => String::from_str("UserAlreadyExists"),
            ServiceError::UserNotVerified => String::from_str("UserNotVerified"),
            ServiceError::LoginMethodNotSupported => String::from_str("LoginMethodNotSupported"),
            ServiceError::TooFrequent => String::from_str("TooFrequent"),
            ServiceError::RedirectToSignup { .. } => String::from_str("RedirectToSignup"),
            ServiceError::UpstreamRequestFailed { .. } => String::from_str("UpstreamRequestFailed"),
        }
    }

    /// The HTTP status code a transport layer maps this error to.
    pub open spec fn status_code_spec(&self) -> u16 {
        match self {
            ServiceError::Unknown { .. } => 500,
            ServiceError::UserNotFound => 404,
            ServiceError::AuthorizationFailed => 401,
            ServiceError::IncorrectPassword => 401,
            ServiceError::IncorrectVerifyCode => 401,
            ServiceError::UserAlreadyExists => 401,
            ServiceError::UserNotVerified => 401,
            ServiceError::LoginMethodNotSupported => 501,
            ServiceError::TooFrequent => 429,
            ServiceError::RedirectToSignup { .. } => 401,
            ServiceError::UpstreamRequestFailed { .. } => 408,
        }
    }

    pub fn status_code(&self) -> (r: u16)
        ensures
            r == self.status_code_spec(),
    {
        match self {
            ServiceError::Unknown { .. } => 500,
            ServiceError::UserNotFound => 404,
            ServiceError::AuthorizationFailed => 401,
            ServiceError::IncorrectPassword => 401,
            ServiceError::IncorrectVerifyCode => 401,
            ServiceError::UserAlreadyExists => 401,
            ServiceError::UserNotVerified => 401,
            ServiceError::LoginMethodNotSupported => 501,
            ServiceError::TooFrequent => 429,
            ServiceError::RedirectToSignup { .. } => 401,
            ServiceError::UpstreamRequestFailed { .. } => 408,
        }
    }
}

/// Body of an error reply, ready for a transport layer to serialise.
#[derive(Debug, Clone, PartialEq)]
pub struct ErrorResponse {
    pub code: u16,
    pub error: String,
    pub message: String,
    pub detail: Option<String>,
    pub sid: Option<String>,
    pub nickname: Option<String>,
}

impl ServiceError {
    /// Build the reply body for this error: status code and tag, the
    /// redirect fields only for `RedirectToSignup`, the diagnostic detail
    /// only for `Unknown`.
    pub fn to_error_response(&self) -> (r: ErrorResponse)
        ensures
            r.code == self.status_code_spec(),
            r.error@ == self.name_spec(),
            r.message@ == self.name_spec(),
            (match *self {
                ServiceError::RedirectToSignup { sid, nickname } => r.sid == Some(sid)
                    && r.nickname == nickname,
                _ => r.sid is None && r.nickname is None,
            }),
            (match *self {
                ServiceError::Unknown { detail } => r.detail == Some(detail),
                _ => r.detail is None,
            }),
    {
        let (sid, nickname) = match self {
            ServiceError::RedirectToSignup { sid, nickname } => (
                Some(sid.clone()),
                clone_opt_string(nickname),
            ),
            _ => (None, None),
        };
        let detail = match self {
            ServiceError::Unknown { detail } => Some(detail.clone()),
            _ => None,
        };
        ErrorResponse {
            code: self.status_code(),
            error: self.name(),
            message: self.name(),
            detail: detail,
            sid: sid,
            nickname: nickname,
        }
    }
}

/// One voter record per principal, as held by the record store.
///
/// The stable identifier is assigned by the store at creation and rendered
/// as a string; `created_at` is a unix timestamp in seconds.  Exactly one of
/// {`password_hashed` with `salt`, `password_hashed` without `salt`, no
/// `password_hashed`} holds: legacy, modern and passwordless accounts.
#[derive(Debug, PartialEq)]
pub struct Voter {
    pub _id: Option<String>,
    pub phone: Option<String>,
    pub phone_verified: bool,
    pub email: Option<String>,
    pub email_verified: bool,
    /// Not required if a federated login or a one-time code is used.
    pub password_hashed: Option<String>,
    /// Present only while the stored hash still uses the legacy scheme.
    pub salt: Option<String>,
    pub created_at: u64,
    pub nickname: Option<String>,
    pub signup_ip: Option<String>,
    pub qq_openid: Option<String>,
    pub pfp: Option<String>,
    pub thbwiki_uid: Option<String>,
    /// Soft-delete flag; the row persists for audit.
    pub removed: bool,
}

/// Clone an optional string, preserving its value.
pub fn clone_opt_string(o: &Option<String>) -> (r: Option<String>)
    ensures
        r == *o,
{
    match o {
        Some(s) => Some(s.clone()),
        None => None,
    }
}

impl Clone for Voter {
    fn clone(&self) -> (res: Self)
        ensures
            res == *self,
    {
        Voter {
            _id: clone_opt_string(&self._id),
            phone: clone_opt_string(&self.phone),
            phone_verified: self.phone_verified,
            email: clone_opt_string(&self.email),
            email_verified: self.email_verified,
            password_hashed: clone_opt_string(&self.password_hashed),
            salt: clone_opt_string(&self.salt),
            created_at: self.created_at,
            nickname: clone_opt_string(&self.nickname),
            signup_ip: clone_opt_string(&self.signup_ip),
            qq_openid: clone_opt_string(&self.qq_openid),
            pfp: clone_opt_string(&self.pfp),
            thbwiki_uid: clone_opt_string(&self.thbwiki_uid),
            removed: self.removed,
        }
    }
}

/// Voter projection handed to the caller on success.
#[derive(Clone, Debug, PartialEq)]
pub struct VoterFE {
    pub username: Option<String>,
    pub pfp: Option<String>,
    pub password: bool,
    pub phone: Option<String>,
    pub email: Option<String>,
    pub thbwiki: bool,
    pub patchyvideo: bool,
}

/// Custom claim set carried by both token kinds.
#[derive(Debug, Clone, PartialEq)]
pub struct VoteTokenClaim {
    pub vote_id: Option<String>,
}

/// Empty success payload.
#[derive(Clone, Debug, PartialEq)]
pub struct EmptyJSON {}

impl EmptyJSON {
    pub fn new() -> (r: EmptyJSON)
        ensures
            r == (EmptyJSON {}),
    {
        EmptyJSON {}
    }
}

/// Request metadata forwarded for audit logging.
#[derive(Clone, Debug, PartialEq)]
pub struct UserEventMeta {
    pub user_ip: String,
    pub additional_fingureprint: Option<String>,
}

#[derive(Clone, Debug, PartialEq)]
pub struct SendPhoneVerifyCodeRequest {
    pub phone: String,
    pub meta: UserEventMeta,
}

#[derive(Clone, Debug, PartialEq)]
pub struct SendEmailVerifyCodeRequest {
    pub email: String,
    pub meta: UserEventMeta,
}

#[derive(Clone, Debug, PartialEq)]
pub struct EmailLoginInputsForExistingVoters {
    pub email: String,
    pub password: String,
    pub meta: UserEventMeta,
}

#[derive(Clone, Debug, PartialEq)]
pub struct EmailLoginInputs {
    pub email: String,
    pub nickname: Option<String>,
    pub verify_code: String,
    pub meta: UserEventMeta,
}

#[derive(Clone, Debug, PartialEq)]
pub struct UpdateEmailInputs {
    pub user_token: String,
    pub email: String,
    pub verify_code: String,
    pub meta: UserEventMeta,
}

#[derive(Clone, Debug, PartialEq)]
pub struct UpdatePhoneInputs {
    pub user_token: String,
    pub phone: String,
    pub verify_code: String,
    pub meta: UserEventMeta,
}

#[derive(Clone, Debug, PartialEq)]
pub struct UpdatePasswordInputs {
    pub user_token: String,
    pub old_password: String,
    pub new_password: String,
    pub meta: UserEventMeta,
}

#[derive(Clone, Debug, PartialEq)]
pub struct PhoneLoginInputs {
    pub phone: String,
    pub nickname: Option<String>,
    pub verify_code: String,
    pub meta: UserEventMeta,
}

/// Success payload of every login operation.
#[derive(Clone, Debug, PartialEq)]
pub struct LoginResults {
    pub user: VoterFE,
    pub vote_token: String,
    pub session_token: String,
}

/// Audit-log entry written beside a mutation; timestamps are unix seconds.
#[derive(Debug, Clone, PartialEq)]
pub enum ActivityLogEntry {
    SendEmail {
        created_at: u64,
        target_email: String,
        code: String,
        requester_ip: Option<String>,
        requester_additional_fingerprint: Option<String>,
    },
    SendSMS {
        created_at: u64,
        target_phone: String,
        code: String,
        requester_ip: Option<String>,
        requester_additional_fingerprint: Option<String>,
    },
    VoterCreation {
        created_at: u64,
        uid: String,
        email: Option<String>,
        phone: Option<String>,
        nickname: Option<String>,
        requester_ip: Option<String>,
        requester_additional_fingerprint: Option<String>,
    },
    VoterLogin {
        created_at: u64,
        uid: String,
        email: Option<String>,
        phone: Option<String>,
        requester_ip: Option<String>,
        requester_additional_fingerprint: Option<String>,
    },
}

} // verus!
