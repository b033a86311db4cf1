//! Credential verification against a stored password hash, and the
//! mandatory migration of a verified legacy hash to the modern
//! self-salting scheme.

use vstd::prelude::*;
use vstd::string::StringExecFns;

use crate::models::{ServiceError, Voter};

verus! {

/// Whether bcrypt accepts `password` against the encoded `hash`; a
/// function of the two strings alone.  An unparsable hash counts as a
/// mismatch.
pub uninterp spec fn bcrypt_accepts(password: Seq<char>, hash: Seq<char>) -> bool;

/// What argon2 verification of `password` against the encoded `hash`
/// returns: `None` models an unparsable encoded hash.
pub uninterp spec fn argon2_check(hash: Seq<char>, password: Seq<char>) -> Option<bool>;

/// The encoded argon2 hash of `password` under `salt` with the default
/// configuration; `None` models a rejected input (such as a short salt).
pub uninterp spec fn argon2_encode(password: Seq<char>, salt: Seq<u8>) -> Option<Seq<char>>;

/// Inputs on which argon2 hashing under the default configuration is
/// guaranteed to succeed: the salt within the algorithm's byte-length
/// bounds, and the password short enough that its UTF-8 form (at most
/// four bytes per character) stays within them.
pub open spec fn argon2_inputs_ok(password: Seq<char>, salt: Seq<u8>) -> bool {
    &&& 8 <= salt.len() <= 0xFFFF_FFFF
    &&& password.len() <= 0x3FFF_FFFF
}

/// Relies on bcrypt::verify: acceptance is computed from the password and
/// the encoded hash alone; a decoding error is folded into a mismatch, as
/// the stored hash is then not a hash of the supplied password.
#[verifier::external_body]
fn bcrypt_verify(password: &String, hash: &String) -> (r: bool)
    ensures
        r == bcrypt_accepts(password@, hash@),
{
    bcrypt::verify(password.as_str(), hash.as_str()).ok().unwrap_or(false)
}

/// Relies on argon2::verify_encoded: it decodes the encoded hash,
/// recomputes and compares, so the result is a function of the two
/// arguments; a decoding error becomes `None`.
#[verifier::external_body]
fn argon2_verify(hash: &String, password: &String) -> (r: Option<bool>)
    ensures
        r == argon2_check(hash@, password@),
{
    argon2::verify_encoded(hash.as_str(), password.as_bytes()).ok()
}

/// Relies on argon2::hash_encoded with the default configuration: the
/// encoded hash is computed from password and salt alone, and
/// argon2::verify_encoded accepts the same password against it.  Under
/// the default configuration the only rejected inputs are out-of-range
/// password and salt lengths, so hashing succeeds on `argon2_inputs_ok`.
#[verifier::external_body]
fn argon2_hash(password: &String, salt: &Vec<u8>) -> (r: Option<String>)
    ensures
        match r {
            Some(h) => argon2_encode(password@, salt@) == Some(h@) && argon2_check(h@, password@)
                == Some(true),
            None => argon2_encode(password@, salt@) is None,
        },
        argon2_inputs_ok(password@, salt@) ==> r is Some,
{
    argon2::hash_encoded(password.as_bytes(), salt.as_slice(), &argon2::Config::default()).ok()
}

/// Legacy account: stored hash must be combined with the stored salt.
pub open spec fn legacy_scheme(v: Voter) -> bool {
    v.password_hashed is Some && v.salt is Some
}

/// Modern account: self-salting hash, no separate salt.
pub open spec fn modern_scheme(v: Voter) -> bool {
    v.password_hashed is Some && v.salt is None
}

/// Passwordless (federated-only) account.
pub open spec fn passwordless(v: Voter) -> bool {
    v.password_hashed is None
}

/// Whether the legacy scheme accepts `pw`: bcrypt over `pw ++ salt`.
pub open spec fn legacy_accepts(v: Voter, pw: Seq<char>) -> bool
    recommends
        legacy_scheme(v),
{
    bcrypt_accepts(pw + v.salt->0@, v.password_hashed->0@)
}

/// Whether the modern scheme accepts `pw`, if the stored hash decodes.
pub open spec fn modern_check(v: Voter, pw: Seq<char>) -> Option<bool>
    recommends
        modern_scheme(v),
{
    argon2_check(v.password_hashed->0@, pw)
}

/// The two voters agree on everything but the password fields.
pub open spec fn same_except_password(a: Voter, b: Voter) -> bool {
    (Voter { password_hashed: None, salt: None, ..a }) == (Voter {
        password_hashed: None,
        salt: None,
        ..b
    })
}

/// `v2` is `v` after its hash was replaced by the modern hash of `pw`
/// under `salt`: the separate salt is gone and the new hash verifies.
pub open spec fn is_migration_of(v2: Voter, v: Voter, pw: Seq<char>, salt: Seq<u8>) -> bool {
    &&& v2.salt is None
    &&& v2.password_hashed matches Some(h) && argon2_encode(pw, salt) == Some(h@)
    &&& argon2_check(v2.password_hashed->0@, pw) == Some(true)
    &&& same_except_password(v2, v)
}

/// `verify_and_upgrade(voter, supplied_password)`: validate the password
/// against the stored hash and, on a verified legacy login, rewrite the
/// record to the modern scheme using the supplied fresh salt.  The flag in
/// the success value says whether the record changed and must be
/// persisted.
pub fn verify_and_upgrade(voter: &Voter, password: &String, fresh_salt: &Vec<u8>) -> (r: Result<
    (Voter, bool),
    ServiceError,
>)
    ensures
        passwordless(*voter) ==> r matches Err(ServiceError::LoginMethodNotSupported),
        legacy_scheme(*voter) && !legacy_accepts(*voter, password@) ==> r matches Err(
            ServiceError::IncorrectPassword,
        ),
        legacy_scheme(*voter) && legacy_accepts(*voter, password@) && argon2_encode(
            password@,
            fresh_salt@,
        ) is None ==> r matches Err(ServiceError::Unknown { .. }),
        legacy_scheme(*voter) && legacy_accepts(*voter, password@) && argon2_encode(
            password@,
            fresh_salt@,
        ) is Some ==> (r matches Ok(p) && p.1 == true && is_migration_of(
            p.0,
            *voter,
            password@,
            fresh_salt@,
        )),
        modern_scheme(*voter) ==> match modern_check(*voter, password@) {
            Some(true) => r matches Ok(p) && p.0 == *voter && p.1 == false,
            Some(false) => r matches Err(ServiceError::IncorrectPassword),
            None => r matches Err(ServiceError::Unknown { .. }),
        },
        legacy_scheme(*voter) && legacy_accepts(*voter, password@) && argon2_inputs_ok(
            password@,
            fresh_salt@,
        ) ==> r is Ok,
{
    match &voter.password_hashed {
        None => Err(ServiceError::LoginMethodNotSupported),
        Some(hash) => {
            match &voter.salt {
                Some(salt) => {
                    let mut combined = password.clone();
                    combined.append(salt.as_str());
                    if !bcrypt_verify(&combined, hash) {
                        Err(ServiceError::IncorrectPassword)
                    } else {
                        match argon2_hash(password, fresh_salt) {
                            None => Err(ServiceError::Unknown {
                                detail: String::from_str("password hashing failed"),
                            }),
                            Some(h) => {
                                let mut upgraded = voter.clone();
                                upgraded.salt = None;
                                upgraded.password_hashed = Some(h);
                                Ok((upgraded, true))
                            },
                        }
                    }
                },
                None => {
                    match argon2_verify(hash, password) {
                        Some(true) => Ok((voter.clone(), false)),
                        Some(false) => Err(ServiceError::IncorrectPassword),
                        None => Err(ServiceError::Unknown {
                            detail: String::from_str("stored hash is unreadable"),
                        }),
                    }
                },
            }
        },
    }
}

/// Password change: always writes the modern scheme and clears the legacy
/// salt.  Proof of the old password is required whenever one exists; a
/// missing old password fails with `IncorrectPassword`.
pub fn change_password(
    voter: &Voter,
    old_password: &Option<String>,
    new_password: &String,
    fresh_salt: &Vec<u8>,
) -> (r: Result<Voter, ServiceError>)
    ensures
        passwordless(*voter) ==> r matches Err(ServiceError::LoginMethodNotSupported),
        !passwordless(*voter) && old_password is None ==> r matches Err(
            ServiceError::IncorrectPassword,
        ),
        legacy_scheme(*voter) && old_password is Some && !legacy_accepts(
            *voter,
            old_password->0@,
        ) ==> r matches Err(ServiceError::IncorrectPassword),
        legacy_scheme(*voter) && old_password is Some && legacy_accepts(
            *voter,
            old_password->0@,
        ) ==> (match argon2_encode(new_password@, fresh_salt@) {
            Some(_) => r matches Ok(v2) && is_migration_of(v2, *voter, new_password@, fresh_salt@),
            None => r matches Err(ServiceError::Unknown { .. }),
        }),
        modern_scheme(*voter) && old_password is Some ==> match modern_check(
            *voter,
            old_password->0@,
        ) {
            Some(true) => (match argon2_encode(new_password@, fresh_salt@) {
                Some(_) => r matches Ok(v2) && is_migration_of(
                    v2,
                    *voter,
                    new_password@,
                    fresh_salt@,
                ),
                None => r matches Err(ServiceError::Unknown { .. }),
            }),
            Some(false) => r matches Err(ServiceError::IncorrectPassword),
            None => r matches Err(ServiceError::Unknown { .. }),
        },
        legacy_scheme(*voter) && old_password is Some && legacy_accepts(
            *voter,
            old_password->0@,
        ) && argon2_inputs_ok(new_password@, fresh_salt@) ==> r is Ok,
        modern_scheme(*voter) && old_password is Some && modern_check(*voter, old_password->0@)
            == Some(true) && argon2_inputs_ok(new_password@, fresh_salt@) ==> r is Ok,
{
    match &voter.password_hashed {
        None => Err(ServiceError::LoginMethodNotSupported),
        Some(hash) => {
            match old_password {
                None => Err(ServiceError::IncorrectPassword),
                Some(op) => {
                    let accepted: bool = match &voter.salt {
                        Some(salt) => {
                            let mut combined = op.clone();
                            combined.append(salt.as_str());
                            bcrypt_verify(&combined, hash)
                        },
                        None => {
                            match argon2_verify(hash, op) {
                                Some(true) => true,
                                Some(false) => false,
                                None => {
                                    return Err(ServiceError::Unknown {
                                        detail: String::from_str("stored hash is unreadable"),
                                    });
                                },
                            }
                        },
                    };
                    if !accepted {
                        return Err(ServiceError::IncorrectPassword);
                    }
                    match argon2_hash(new_password, fresh_salt) {
                        None => Err(ServiceError::Unknown {
                            detail: String::from_str("password hashing failed"),
                        }),
                        Some(h) => {
                            let mut updated = voter.clone();
                            updated.salt = None;
                            updated.password_hashed = Some(h);
                            Ok(updated)
                        },
                    }
                },
            }
        },
    }
}

} // verus!
