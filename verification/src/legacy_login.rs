//! Password login for existing voters: verification against the stored
//! hash, the mandatory legacy-to-modern migration, and the merge of a
//! pending federated session.

use vstd::prelude::*;

use crate::entropy::random_bytes16;
use crate::models::{ServiceError, Voter};
use crate::password::{
    argon2_encode, argon2_inputs_ok, is_migration_of, legacy_accepts, legacy_scheme,
    modern_check, verify_and_upgrade,
};
use crate::session::{apply_session, merged_with_session, resolve, LoginSession};
use crate::store::{spec_find, spec_find_idx, VoterFilter, VoterStore};
use crate::ttlmap::TtlMap;

verus! {

/// A session id was supplied and still resolves at `now`.
pub open spec fn session_resolves(
    sessions: Map<Seq<char>, (LoginSession, u64)>,
    sid: Option<String>,
    now: u64,
) -> bool {
    sid matches Some(s) && sessions.contains_key(s@) && now < sessions[s@].1
}

/// `v3` is `v2` with the resolved session's claims merged in, or `v2`
/// unchanged when no session was supplied or it has expired.
pub open spec fn session_applied(
    v3: Voter,
    v2: Voter,
    sessions: Map<Seq<char>, (LoginSession, u64)>,
    sid: Option<String>,
    now: u64,
) -> bool {
    if session_resolves(sessions, sid, now) {
        merged_with_session(v3, v2, sessions[sid->0@].0)
    } else {
        v3 == v2
    }
}

/// Full outcome of `login_email_password` given the fresh salt `salt`
/// drawn for a possible hash migration.
pub open spec fn login_email_password_post(
    voters0: Seq<Voter>,
    voters1: Seq<Voter>,
    sessions: Map<Seq<char>, (LoginSession, u64)>,
    email: String,
    password: String,
    sid: Option<String>,
    now: u64,
    salt: Seq<u8>,
    r: Result<Voter, ServiceError>,
) -> bool {
    let idx = spec_find_idx(voters0, VoterFilter::ByEmail(email));
    match spec_find(voters0, VoterFilter::ByEmail(email)) {
        None => r matches Err(ServiceError::UserNotFound) && voters1 == voters0,
        Some(v) => {
            if v.password_hashed is None {
                r matches Err(ServiceError::LoginMethodNotSupported) && voters1 == voters0
            } else if v.salt is Some {
                if !legacy_accepts(v, password@) {
                    r matches Err(ServiceError::IncorrectPassword) && voters1 == voters0
                } else if argon2_encode(password@, salt) is None {
                    r matches Err(ServiceError::Unknown { .. }) && voters1 == voters0
                } else {
                    // Verified legacy login: the stored record is migrated to
                    // the modern scheme and persisted, never left behind.
                    r matches Ok(v3) && is_migration_of(
                        (Voter { password_hashed: v3.password_hashed, salt: None, ..v }),
                        v,
                        password@,
                        salt,
                    ) && session_applied(
                        v3,
                        (Voter { password_hashed: v3.password_hashed, salt: None, ..v }),
                        sessions,
                        sid,
                        now,
                    ) && voters1 == voters0.update(idx, v3)
                }
            } else {
                match modern_check(v, password@) {
                    Some(true) => r matches Ok(v3) && session_applied(v3, v, sessions, sid, now)
                        && (if session_resolves(sessions, sid, now) {
                        voters1 == voters0.update(idx, v3)
                    } else {
                        voters1 == voters0
                    }),
                    Some(false) => r matches Err(ServiceError::IncorrectPassword) && voters1
                        == voters0,
                    None => r matches Err(ServiceError::Unknown { .. }) && voters1 == voters0,
                }
            }
        },
    }
}

/// `login-with-password(email, password)` against the record store, with
/// the fresh migration salt supplied by the caller.
pub fn login_email_password_with_salt(
    voters: &mut VoterStore,
    sessions: &TtlMap<LoginSession>,
    email: &String,
    password: &String,
    sid: &Option<String>,
    now: u64,
    fresh_salt: &Vec<u8>,
) -> (r: Result<Voter, ServiceError>)
    ensures
        login_email_password_post(
            old(voters)@,
            final(voters)@,
            sessions@,
            *email,
            *password,
            *sid,
            now,
            fresh_salt@,
            r,
        ),
        final(voters).spec_next_id() == old(voters).spec_next_id(),
        ({
            let found = spec_find(old(voters)@, VoterFilter::ByEmail(*email));
            (found is Some && legacy_scheme(found->0) && legacy_accepts(found->0, password@)
                && argon2_inputs_ok(password@, fresh_salt@)) ==> r is Ok
        }),
{
    let filter = VoterFilter::ByEmail(email.clone());
    let voter = match voters.find_one(&filter) {
        Some(v) => v.clone(),
        None => {
            return Err(ServiceError::UserNotFound);
        },
    };
    match verify_and_upgrade(&voter, password, fresh_salt) {
        Err(e) => Err(e),
        Ok((mut v2, migrated)) => {
            if migrated {
                if let Some(sid_s) = sid {
                    if let Some(sess) = resolve(sessions, sid_s, now) {
                        apply_session(&mut v2, sess);
                    }
                }
                voters.replace_one(&filter, v2.clone());
                Ok(v2)
            } else {
                let resolved = match sid {
                    Some(sid_s) => resolve(sessions, sid_s, now),
                    None => None,
                };
                match resolved {
                    Some(sess) => {
                        apply_session(&mut v2, sess);
                        voters.replace_one(&filter, v2.clone());
                        Ok(v2)
                    },
                    None => Ok(v2),
                }
            }
        },
    }
}

/// `login-with-password(email, password)`: as above, drawing the fresh
/// migration salt from the operating-system generator.
pub fn login_email_password(
    voters: &mut VoterStore,
    sessions: &TtlMap<LoginSession>,
    email: &String,
    password: &String,
    sid: &Option<String>,
    now: u64,
) -> (r: Result<Voter, ServiceError>)
    ensures
        exists|salt: Seq<u8>|
            salt.len() == 16 && login_email_password_post(
                old(voters)@,
                final(voters)@,
                sessions@,
                *email,
                *password,
                *sid,
                now,
                salt,
                r,
            ),
        final(voters).spec_next_id() == old(voters).spec_next_id(),
        ({
            let found = spec_find(old(voters)@, VoterFilter::ByEmail(*email));
            (found is Some && legacy_scheme(found->0) && legacy_accepts(found->0, password@)
                && password@.len() <= 0x3FFF_FFFF) ==> r is Ok
        }),
{
    let fresh_salt = random_bytes16();
    let r = login_email_password_with_salt(
        voters,
        sessions,
        email,
        password,
        sid,
        now,
        &fresh_salt,
    );
    r
}

} // verus!
