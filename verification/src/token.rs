//! Token issuance: a vote-scoped token bound to an eligibility id, and a
//! general session token, both signed with the process-wide ES256k key.

use vstd::prelude::*;
use vstd::string::StringExecFns;
use jwt_simple::prelude::ECDSAP256kKeyPairLike;

use crate::models::{clone_opt_string, LoginResults, ServiceError, Voter, VoterFE};
use crate::strfmt::dec_digits;
use crate::strfmt::u64_to_dec;

verus! {

/// Instant the vote-token validity window opens (campaign start).
pub const VOTE_TOKEN_NOT_BEFORE: u64 = 1633060800;

/// Validity span of both token kinds: seven days, in seconds.
pub const TOKEN_VALIDITY_SECONDS: u64 = 604800;

#[verifier::external_type_specification]
#[verifier::external_body]
pub struct ExES256kKeyPair(jwt_simple::algorithms::ES256kKeyPair);

/// Relies on jwt_simple's `ECDSAP256kKeyPairLike::sign` over a claim set
/// carrying `vote_id` as custom claim, the given audience, and the
/// validity window `[not_before, expires_at]`.  The token depends on a
/// random signing nonce, so nothing is assumed of the returned string.
#[verifier::external_body]
fn sign_window_claims(
    key: &jwt_simple::algorithms::ES256kKeyPair,
    vote_id: &String,
    audience: &str,
    not_before: u64,
    expires_at: u64,
) -> (r: Option<String>) {
    let mut custom = serde_json::Map::new();
    custom.insert("vote_id".to_string(), serde_json::Value::String(vote_id.clone()));
    let nbf = Some(jwt_simple::prelude::UnixTimeStamp::from_secs(not_before));
    let claims = jwt_simple::claims::JWTClaims {
        issued_at: nbf, expires_at: Some(jwt_simple::prelude::UnixTimeStamp::from_secs(expires_at)),
        invalid_before: nbf, audiences: None, issuer: None, jwt_id: None, subject: None,
        nonce: None, custom: serde_json::Value::Object(custom),
    }.with_audience(audience);
    key.sign(claims).ok()
}

/// Relies on jwt_simple's `Claims::with_custom_claims` and
/// `ECDSAP256kKeyPairLike::sign`: a claim set carrying `vote_id`, the
/// given audience, and a validity window starting now, for the given
/// span.  The token depends on the clock and a random signing nonce, so
/// nothing is assumed of the returned string.
#[verifier::external_body]
fn sign_claims_from_now(
    key: &jwt_simple::algorithms::ES256kKeyPair,
    vote_id: &String,
    audience: &str,
    duration_seconds: u64,
) -> (r: Option<String>) {
    let mut custom = serde_json::Map::new();
    custom.insert("vote_id".to_string(), serde_json::Value::String(vote_id.clone()));
    let claims = jwt_simple::prelude::Claims::with_custom_claims(
        serde_json::Value::Object(custom),
        jwt_simple::prelude::Duration::from_secs(duration_seconds),
    ).with_audience(audience);
    key.sign(claims).ok()
}

/// The voter projection handed back to callers.
pub open spec fn fe_projection(v: Voter) -> VoterFE {
    VoterFE {
        username: v.nickname,
        pfp: v.pfp,
        password: v.password_hashed is Some,
        phone: v.phone,
        email: v.email,
        thbwiki: false,
        patchyvideo: false,
    }
}

impl Voter {
    /// Whether at least one channel of this record is verified, the
    /// precondition of vote eligibility.
    pub open spec fn is_verified(&self) -> bool {
        self.phone_verified || self.email_verified
    }

    /// The deterministic eligibility id for this voter and year.
    pub open spec fn spec_vote_id(&self, vote_year: u32) -> Seq<char>
        recommends
            self._id is Some,
    {
        "thvote-"@ + dec_digits(vote_year as int) + "-"@ + self._id->0@
    }

    /// Generate the unique eligibility id tying this voter to a vote
    /// year; requires at least one verified channel.
    pub fn generate_vote_id(&self, vote_year: u32) -> (r: Result<String, ServiceError>)
        requires
            self._id is Some,
        ensures
            self.is_verified() ==> (r matches Ok(id) && id@ == self.spec_vote_id(vote_year)),
            !self.is_verified() ==> r matches Err(ServiceError::UserNotVerified),
    {
        if self.phone_verified || self.email_verified {
            let id = match &self._id {
                Some(id) => id,
                None => {
                    return Err(ServiceError::UserNotVerified);
                },
            };
            let mut s = String::from_str("thvote-");
            let year_str = u64_to_dec(vote_year as u64);
            s.append(year_str.as_str());
            s.append("-");
            s.append(id.as_str());
            Ok(s)
        } else {
            Err(ServiceError::UserNotVerified)
        }
    }

    /// Generate a signed vote token: audience `"vote"`, the eligibility
    /// id under `vote_id`, validity from the campaign start for seven
    /// days.  Fails with `UserNotVerified` exactly when no channel is
    /// verified; a signing failure surfaces as `Unknown`.
    pub fn generate_vote_token(&self, vote_year: u32, key: &jwt_simple::algorithms::ES256kKeyPair)
        -> (r: Result<String, ServiceError>)
        requires
            self._id is Some,
        ensures
            !self.is_verified() ==> r matches Err(ServiceError::UserNotVerified),
            self.is_verified() ==> (r is Ok || r matches Err(ServiceError::Unknown { .. })),
    {
        let vote_id = match self.generate_vote_id(vote_year) {
            Ok(id) => id,
            Err(e) => {
                return Err(e);
            },
        };
        match sign_window_claims(
            key,
            &vote_id,
            "vote",
            VOTE_TOKEN_NOT_BEFORE,
            VOTE_TOKEN_NOT_BEFORE + TOKEN_VALIDITY_SECONDS,
        ) {
            Some(t) => Ok(t),
            None => Err(ServiceError::Unknown {
                detail: String::from_str("vote token signing failed"),
            }),
        }
    }

    /// Generate a signed session token: audience `"userspace"`, the
    /// voter identifier under `vote_id`, valid from now for seven days.
    /// A signing failure surfaces as `Unknown`.
    pub fn generate_user_auth(&self, key: &jwt_simple::algorithms::ES256kKeyPair) -> (r: Result<
        String,
        ServiceError,
    >)
        requires
            self._id is Some,
        ensures
            r is Ok || r matches Err(ServiceError::Unknown { .. }),
    {
        let id = match &self._id {
            Some(id) => id,
            None => {
                return Err(ServiceError::Unknown {
                    detail: String::from_str("voter has no identifier"),
                });
            },
        };
        match sign_claims_from_now(key, id, "userspace", TOKEN_VALIDITY_SECONDS) {
            Some(t) => Ok(t),
            None => Err(ServiceError::Unknown {
                detail: String::from_str("session token signing failed"),
            }),
        }
    }

    /// Project this record into the caller-facing shape.
    pub fn to_fe_voter(&self, key: &jwt_simple::algorithms::ES256kKeyPair) -> (r: VoterFE)
        ensures
            r == fe_projection(*self),
    {
        let _ = key;
        VoterFE {
            username: clone_opt_string(&self.nickname),
            pfp: clone_opt_string(&self.pfp),
            password: self.password_hashed.is_some(),
            phone: clone_opt_string(&self.phone),
            email: clone_opt_string(&self.email),
            thbwiki: false,
            patchyvideo: false,
        }
    }
}

/// Assemble the full success payload for a resolved, authenticated
/// voter: both tokens and the projection.  Fails with `UserNotVerified`
/// exactly when no channel is verified; a signing failure surfaces as
/// `Unknown`.
pub fn make_login_results(
    voter: &Voter,
    vote_year: u32,
    key: &jwt_simple::algorithms::ES256kKeyPair,
) -> (r: Result<LoginResults, ServiceError>)
    requires
        voter._id is Some,
    ensures
        !voter.is_verified() ==> r matches Err(ServiceError::UserNotVerified),
        voter.is_verified() ==> (r matches Err(ServiceError::Unknown { .. }) || (r matches Ok(lr)
            && lr.user == fe_projection(*voter))),
{
    let vote_token = match voter.generate_vote_token(vote_year, key) {
        Ok(t) => t,
        Err(e) => {
            return Err(e);
        },
    };
    let session_token = match voter.generate_user_auth(key) {
        Ok(t) => t,
        Err(e) => {
            return Err(e);
        },
    };
    Ok(LoginResults { user: voter.to_fe_voter(key), vote_token, session_token })
}

} // verus!
