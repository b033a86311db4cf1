//! The guarantees the library is built around, each proved from the
//! contracts the modules state.

use vstd::prelude::*;

use crate::codes::{
    code_matches, guard_live, send_effect, Channel, CODE_TTL_SECONDS, GUARD_TTL_SECONDS,
};
use crate::legacy_login::{login_email_password_post, session_applied, session_resolves};
use crate::models::{ServiceError, Voter};
use crate::password::{
    argon2_encode, is_migration_of, legacy_accepts, legacy_scheme, modern_check, modern_scheme,
};
use crate::session::LoginSession;
use crate::store::{
    filter_matches, lemma_find_idx_at, lemma_find_idx_prefix, lemma_find_idx_valid, spec_find,
    spec_find_idx, VoterFilter,
};
use crate::strfmt::code6_digits;

verus! {

/// A migrated record is a modern record that still accepts the password
/// that was verified: the legacy salt is gone and the modern check
/// succeeds.
pub proof fn lemma_migration_enables_modern(v: Voter, v2: Voter, pw: Seq<char>, salt: Seq<u8>)
    requires
        is_migration_of(v2, v, pw, salt),
    ensures
        modern_scheme(v2),
        modern_check(v2, pw) == Some(true),
{
}

/// For a voter with a legacy hash, one correct-password login migrates
/// the stored record to the modern scheme, and a second login with the
/// same password succeeds through the modern path.  The hashing-success
/// hypothesis is discharged at the call level: `login_email_password`
/// promises `Ok` outright for an in-range salt and password.
pub proof fn lemma_legacy_login_then_modern_relogin(
    voters0: Seq<Voter>,
    voters1: Seq<Voter>,
    voters2: Seq<Voter>,
    sessions: Map<Seq<char>, (LoginSession, u64)>,
    email: String,
    password: String,
    sid1: Option<String>,
    sid2: Option<String>,
    now1: u64,
    now2: u64,
    salt1: Seq<u8>,
    salt2: Seq<u8>,
    r1: Result<Voter, ServiceError>,
    r2: Result<Voter, ServiceError>,
)
    requires
        spec_find(voters0, VoterFilter::ByEmail(email)) matches Some(v) && legacy_scheme(v)
            && legacy_accepts(v, password@),
        argon2_encode(password@, salt1) is Some,
        login_email_password_post(
            voters0,
            voters1,
            sessions,
            email,
            password,
            sid1,
            now1,
            salt1,
            r1,
        ),
        login_email_password_post(
            voters1,
            voters2,
            sessions,
            email,
            password,
            sid2,
            now2,
            salt2,
            r2,
        ),
    ensures
        r1 is Ok,
        spec_find(voters1, VoterFilter::ByEmail(email)) matches Some(v1) && modern_scheme(v1)
            && modern_check(v1, password@) == Some(true),
        r2 is Ok,
{
    let f = VoterFilter::ByEmail(email);
    let v = spec_find(voters0, f)->0;
    let idx = spec_find_idx(voters0, f);
    lemma_find_idx_valid(voters0, f);
    lemma_find_idx_prefix(voters0, f);
    let v3 = r1->Ok_0;
    assert(voters1 == voters0.update(idx, v3));
    assert(v3.email == v.email);
    assert(filter_matches(f, v3));
    assert(forall|j: int| 0 <= j < idx ==> voters1[j] == voters0[j]);
    lemma_find_idx_at(voters1, f, idx);
    assert(spec_find(voters1, f) == Some(v3));
    assert(modern_scheme(v3));
    assert(modern_check(v3, password@) == Some(true));
}

/// A failed login attempt never mutates the record store, whatever the
/// error was.
pub proof fn lemma_failed_login_never_mutates(
    voters0: Seq<Voter>,
    voters1: Seq<Voter>,
    sessions: Map<Seq<char>, (LoginSession, u64)>,
    email: String,
    password: String,
    sid: Option<String>,
    now: u64,
    salt: Seq<u8>,
    r: Result<Voter, ServiceError>,
)
    requires
        login_email_password_post(voters0, voters1, sessions, email, password, sid, now, salt, r),
        r is Err,
    ensures
        voters1 == voters0,
{
}

/// After a successful `send`, the stored code validates at any instant
/// inside the one-hour window — validation is read-only, so repeatedly —
/// and no code validates once the window has passed.
pub proof fn lemma_code_lifetime(
    kv0: Map<Seq<char>, (String, u64)>,
    kv1: Map<Seq<char>, (String, u64)>,
    c: Channel,
    addr: Seq<char>,
    now: u64,
    n: u32,
    t: u64,
)
    requires
        send_effect(kv0, kv1, c, addr, now, n),
        now + CODE_TTL_SECONDS <= u64::MAX,
    ensures
        t < now + CODE_TTL_SECONDS ==> code_matches(kv1, c, addr, code6_digits(n as int), t),
        t >= now + CODE_TTL_SECONDS ==> forall|code: Seq<char>| !code_matches(kv1, c, addr, code, t),
{
}

/// After a successful `send`, the guard holds for the following minute —
/// a second `send` in that window fails with `TooFrequent` by the `send`
/// contract — and is gone at the minute's end, when `send` succeeds
/// again.
pub proof fn lemma_resend_guard(
    kv0: Map<Seq<char>, (String, u64)>,
    kv1: Map<Seq<char>, (String, u64)>,
    c: Channel,
    addr: Seq<char>,
    now: u64,
    n: u32,
    t: u64,
)
    requires
        send_effect(kv0, kv1, c, addr, now, n),
        now + CODE_TTL_SECONDS <= u64::MAX,
    ensures
        t < now + GUARD_TTL_SECONDS ==> guard_live(kv1, c, addr, t),
        t >= now + GUARD_TTL_SECONDS ==> !guard_live(kv1, c, addr, t),
{
}

/// A login that resolves a pending session carries its federated uid
/// onto the voter.
pub proof fn lemma_resolved_session_links_uid(
    v3: Voter,
    v2: Voter,
    sessions: Map<Seq<char>, (LoginSession, u64)>,
    sid: Option<String>,
    now: u64,
)
    requires
        session_resolves(sessions, sid, now),
        session_applied(v3, v2, sessions, sid, now),
        sessions[sid->0@].0.thbwiki_uid is Some,
    ensures
        v3.thbwiki_uid == sessions[sid->0@].0.thbwiki_uid,
{
}

} // verus!
