//! Self-service account updates: changing the email, phone or password of
//! an authenticated voter, and soft-deleting a record.  A soft-deleted
//! record behaves as if absent.

use vstd::prelude::*;

use crate::codes::{code_matches, consume, Channel};
use crate::entropy::random_bytes16;
use crate::models::{ServiceError, Voter};
use crate::password::{
    argon2_encode, argon2_inputs_ok, change_password, is_migration_of, legacy_accepts,
    legacy_scheme, modern_check, modern_scheme,
};
use crate::store::{spec_find, spec_find_idx, VoterFilter, VoterStore};
use crate::ttlmap::TtlMap;

verus! {

/// Outcome of `update_email`: the one-time code sent to the new address
/// authorises the change.
pub open spec fn update_email_post(
    voters0: Seq<Voter>,
    voters1: Seq<Voter>,
    kv: Map<Seq<char>, (String, u64)>,
    uid: String,
    email: String,
    verify_code: String,
    now: u64,
    r: Result<(), ServiceError>,
) -> bool {
    let idx = spec_find_idx(voters0, VoterFilter::ById(uid));
    if !code_matches(kv, Channel::Email, email@, verify_code@, now) {
        r matches Err(ServiceError::IncorrectVerifyCode) && voters1 == voters0
    } else {
        match spec_find(voters0, VoterFilter::ById(uid)) {
            None => r matches Err(ServiceError::UserNotFound) && voters1 == voters0,
            Some(v) => {
                if v.removed {
                    r matches Err(ServiceError::UserNotFound) && voters1 == voters0
                } else {
                    r is Ok && voters1 == voters0.update(
                        idx,
                        (Voter { email: Some(email), email_verified: true, ..v }),
                    )
                }
            },
        }
    }
}

/// `update-email(identifier, new email, code)`.
pub fn update_email(
    voters: &mut VoterStore,
    kv: &TtlMap<String>,
    uid: &String,
    email: &String,
    verify_code: &String,
    now: u64,
) -> (r: Result<(), ServiceError>)
    ensures
        update_email_post(
            old(voters)@,
            final(voters)@,
            kv@,
            *uid,
            *email,
            *verify_code,
            now,
            r,
        ),
        final(voters).spec_next_id() == old(voters).spec_next_id(),
{
    if let Err(e) = consume(kv, Channel::Email, email, verify_code, now) {
        return Err(e);
    }
    let filter = VoterFilter::ById(uid.clone());
    let voter = match voters.find_one(&filter) {
        Some(v) => v.clone(),
        None => {
            return Err(ServiceError::UserNotFound);
        },
    };
    if voter.removed {
        return Err(ServiceError::UserNotFound);
    }
    let updated = Voter { email: Some(email.clone()), email_verified: true, ..voter };
    voters.replace_one(&filter, updated);
    Ok(())
}

/// Outcome of `update_phone`.
pub open spec fn update_phone_post(
    voters0: Seq<Voter>,
    voters1: Seq<Voter>,
    kv: Map<Seq<char>, (String, u64)>,
    uid: String,
    phone: String,
    verify_code: String,
    now: u64,
    r: Result<(), ServiceError>,
) -> bool {
    let idx = spec_find_idx(voters0, VoterFilter::ById(uid));
    if !code_matches(kv, Channel::Phone, phone@, verify_code@, now) {
        r matches Err(ServiceError::IncorrectVerifyCode) && voters1 == voters0
    } else {
        match spec_find(voters0, VoterFilter::ById(uid)) {
            None => r matches Err(ServiceError::UserNotFound) && voters1 == voters0,
            Some(v) => {
                if v.removed {
                    r matches Err(ServiceError::UserNotFound) && voters1 == voters0
                } else {
                    r is Ok && voters1 == voters0.update(
                        idx,
                        (Voter { phone: Some(phone), phone_verified: true, ..v }),
                    )
                }
            },
        }
    }
}

/// `update-phone(identifier, new phone, code)`.
pub fn update_phone(
    voters: &mut VoterStore,
    kv: &TtlMap<String>,
    uid: &String,
    phone: &String,
    verify_code: &String,
    now: u64,
) -> (r: Result<(), ServiceError>)
    ensures
        update_phone_post(
            old(voters)@,
            final(voters)@,
            kv@,
            *uid,
            *phone,
            *verify_code,
            now,
            r,
        ),
        final(voters).spec_next_id() == old(voters).spec_next_id(),
{
    if let Err(e) = consume(kv, Channel::Phone, phone, verify_code, now) {
        return Err(e);
    }
    let filter = VoterFilter::ById(uid.clone());
    let voter = match voters.find_one(&filter) {
        Some(v) => v.clone(),
        None => {
            return Err(ServiceError::UserNotFound);
        },
    };
    if voter.removed {
        return Err(ServiceError::UserNotFound);
    }
    let updated = Voter { phone: Some(phone.clone()), phone_verified: true, ..voter };
    voters.replace_one(&filter, updated);
    Ok(())
}

/// Outcome of `update_password` with the fresh salt `salt`: proof of the
/// current password is always required where one exists, and the stored
/// hash is always rewritten to the modern scheme.  A missing record, and
/// a soft-deleted one, fail with `UserNotFound`.
pub open spec fn update_password_post(
    voters0: Seq<Voter>,
    voters1: Seq<Voter>,
    uid: String,
    old_password: Option<String>,
    new_password: String,
    salt: Seq<u8>,
    r: Result<(), ServiceError>,
) -> bool {
    let idx = spec_find_idx(voters0, VoterFilter::ById(uid));
    match spec_find(voters0, VoterFilter::ById(uid)) {
        None => r matches Err(ServiceError::UserNotFound) && voters1 == voters0,
        Some(v) => {
            if v.removed {
                r matches Err(ServiceError::UserNotFound) && voters1 == voters0
            } else if v.password_hashed is None {
                r matches Err(ServiceError::LoginMethodNotSupported) && voters1 == voters0
            } else if old_password is None {
                r matches Err(ServiceError::IncorrectPassword) && voters1 == voters0
            } else if v.salt is Some {
                if !legacy_accepts(v, old_password->0@) {
                    r matches Err(ServiceError::IncorrectPassword) && voters1 == voters0
                } else if argon2_encode(new_password@, salt) is None {
                    r matches Err(ServiceError::Unknown { .. }) && voters1 == voters0
                } else {
                    r is Ok && voters1.len() == voters0.len() && is_migration_of(
                        voters1[idx],
                        v,
                        new_password@,
                        salt,
                    ) && voters1 == voters0.update(idx, voters1[idx])
                }
            } else {
                match modern_check(v, old_password->0@) {
                    Some(true) => {
                        if argon2_encode(new_password@, salt) is None {
                            r matches Err(ServiceError::Unknown { .. }) && voters1 == voters0
                        } else {
                            r is Ok && voters1.len() == voters0.len() && is_migration_of(
                                voters1[idx],
                                v,
                                new_password@,
                                salt,
                            ) && voters1 == voters0.update(idx, voters1[idx])
                        }
                    },
                    Some(false) => r matches Err(ServiceError::IncorrectPassword) && voters1
                        == voters0,
                    None => r matches Err(ServiceError::Unknown { .. }) && voters1 == voters0,
                }
            }
        },
    }
}

/// `update-password(identifier, old password?, new password)` with the
/// fresh salt supplied by the caller.
pub fn update_password_with_salt(
    voters: &mut VoterStore,
    uid: &String,
    old_password: &Option<String>,
    new_password: &String,
    fresh_salt: &Vec<u8>,
) -> (r: Result<(), ServiceError>)
    ensures
        update_password_post(
            old(voters)@,
            final(voters)@,
            *uid,
            *old_password,
            *new_password,
            fresh_salt@,
            r,
        ),
        final(voters).spec_next_id() == old(voters).spec_next_id(),
        ({
            let found = spec_find(old(voters)@, VoterFilter::ById(*uid));
            (found is Some && !found->0.removed && legacy_scheme(found->0) && old_password
                is Some && legacy_accepts(found->0, old_password->0@) && argon2_inputs_ok(
                new_password@,
                fresh_salt@,
            )) ==> r is Ok
        }),
        ({
            let found = spec_find(old(voters)@, VoterFilter::ById(*uid));
            (found is Some && !found->0.removed && modern_scheme(found->0) && old_password
                is Some && modern_check(found->0, old_password->0@) == Some(true)
                && argon2_inputs_ok(new_password@, fresh_salt@)) ==> r is Ok
        }),
{
    let filter = VoterFilter::ById(uid.clone());
    let voter = match voters.find_one(&filter) {
        Some(v) => v.clone(),
        None => {
            return Err(ServiceError::UserNotFound);
        },
    };
    if voter.removed {
        return Err(ServiceError::UserNotFound);
    }
    match change_password(&voter, old_password, new_password, fresh_salt) {
        Err(e) => Err(e),
        Ok(updated) => {
            proof {
                crate::store::lemma_find_idx_valid(voters@, VoterFilter::ById(*uid));
            }
            voters.replace_one(&filter, updated);
            Ok(())
        },
    }
}

/// `update-password(identifier, old password?, new password)`, drawing
/// the fresh salt from the operating-system generator.
pub fn update_password(
    voters: &mut VoterStore,
    uid: &String,
    old_password: &Option<String>,
    new_password: &String,
) -> (r: Result<(), ServiceError>)
    ensures
        exists|salt: Seq<u8>|
            salt.len() == 16 && update_password_post(
                old(voters)@,
                final(voters)@,
                *uid,
                *old_password,
                *new_password,
                salt,
                r,
            ),
        final(voters).spec_next_id() == old(voters).spec_next_id(),
        ({
            let found = spec_find(old(voters)@, VoterFilter::ById(*uid));
            (found is Some && !found->0.removed && legacy_scheme(found->0) && old_password
                is Some && legacy_accepts(found->0, old_password->0@) && new_password@.len()
                <= 0x3FFF_FFFF) ==> r is Ok
        }),
        ({
            let found = spec_find(old(voters)@, VoterFilter::ById(*uid));
            (found is Some && !found->0.removed && modern_scheme(found->0) && old_password
                is Some && modern_check(found->0, old_password->0@) == Some(true)
                && new_password@.len() <= 0x3FFF_FFFF) ==> r is Ok
        }),
{
    let fresh_salt = random_bytes16();
    update_password_with_salt(voters, uid, old_password, new_password, &fresh_salt)
}

/// Outcome of `remove_voter`: the record is soft-deleted, its contact
/// channels cleared; it persists for audit.
pub open spec fn remove_voter_post(
    voters0: Seq<Voter>,
    voters1: Seq<Voter>,
    uid: String,
    r: Result<(), ServiceError>,
) -> bool {
    let idx = spec_find_idx(voters0, VoterFilter::ById(uid));
    match spec_find(voters0, VoterFilter::ById(uid)) {
        None => r is Ok && voters1 == voters0,
        Some(v) => r is Ok && voters1 == voters0.update(
            idx,
            (Voter {
                removed: true,
                email: None,
                email_verified: false,
                phone: None,
                phone_verified: false,
                ..v
            }),
        ),
    }
}

/// Soft-delete a voter record.
pub fn remove_voter(voters: &mut VoterStore, uid: &String) -> (r: Result<(), ServiceError>)
    ensures
        remove_voter_post(old(voters)@, final(voters)@, *uid, r),
        final(voters).spec_next_id() == old(voters).spec_next_id(),
{
    let filter = VoterFilter::ById(uid.clone());
    let voter = match voters.find_one(&filter) {
        Some(v) => v.clone(),
        None => {
            return Ok(());
        },
    };
    let cleared = Voter {
        removed: true,
        email: None,
        email_verified: false,
        phone: None,
        phone_verified: false,
        ..voter
    };
    voters.replace_one(&filter, cleared);
    Ok(())
}

} // verus!
