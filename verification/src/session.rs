//! Pending-identity bridge: short-lived login sessions carrying claims
//! proven by a federated identity provider, stored until a signup or
//! login flow merges them into a voter record.

use vstd::prelude::*;

use crate::models::{clone_opt_string, Voter};
use crate::strfmt::{bytes_to_hex, hex_of};
use crate::ttlmap::TtlMap;

verus! {

/// Lifetime of a pending login session, in seconds.
pub const SESSION_TTL_SECONDS: u64 = 3600;

/// Claims proven by a federated identity provider, pending merge.
#[derive(Debug, PartialEq)]
pub struct LoginSession {
    pub thbwiki_uid: Option<String>,
    pub qq_openid: Option<String>,
    pub signup_ip: Option<String>,
}

impl Clone for LoginSession {
    fn clone(&self) -> (res: Self)
        ensures
            res == *self,
    {
        LoginSession {
            thbwiki_uid: clone_opt_string(&self.thbwiki_uid),
            qq_openid: clone_opt_string(&self.qq_openid),
            signup_ip: clone_opt_string(&self.signup_ip),
        }
    }
}

/// `begin(federated_claims)`: store the session under a fresh session id
/// derived from the supplied random bytes, and return that id.
pub fn begin(
    sessions: &mut TtlMap<LoginSession>,
    sess: LoginSession,
    now: u64,
    sid_bytes: &Vec<u8>,
) -> (sid: String)
    requires
        now + SESSION_TTL_SECONDS <= u64::MAX,
    ensures
        sid@ == hex_of(sid_bytes@),
        final(sessions)@ == old(sessions)@.insert(
            sid@,
            (sess, (now + SESSION_TTL_SECONDS) as u64),
        ),
{
    let sid = bytes_to_hex(sid_bytes);
    sessions.set_ex(sid.clone(), sess, now, SESSION_TTL_SECONDS);
    sid
}

/// `begin` with a random session id from the operating-system generator.
pub fn begin_random(sessions: &mut TtlMap<LoginSession>, sess: LoginSession, now: u64) -> (sid:
    String)
    requires
        now + SESSION_TTL_SECONDS <= u64::MAX,
    ensures
        final(sessions)@ == old(sessions)@.insert(
            sid@,
            (sess, (now + SESSION_TTL_SECONDS) as u64),
        ),
{
    let bytes = crate::entropy::random_bytes16();
    begin(sessions, sess, now, &bytes)
}

/// `resolve(session_id)`: read-only lookup; expiry is purely the store's
/// TTL, and resolution never consumes the session.
pub fn resolve<'a>(sessions: &'a TtlMap<LoginSession>, sid: &String, now: u64) -> (r: Option<
    &'a LoginSession,
>)
    ensures
        match r {
            Some(s) => sessions@.contains_key(sid@) && now < sessions@[sid@].1 && *s
                == sessions@[sid@].0,
            None => !sessions@.contains_key(sid@) || now >= sessions@[sid@].1,
        },
{
    sessions.get(sid, now)
}

/// `v2` is `v` with the federated identifiers of `s` copied over; a claim
/// absent from the session leaves the voter's field alone.
pub open spec fn merged_with_session(v2: Voter, v: Voter, s: LoginSession) -> bool {
    v2 == (Voter {
        thbwiki_uid: if s.thbwiki_uid is Some {
            s.thbwiki_uid
        } else {
            v.thbwiki_uid
        },
        qq_openid: if s.qq_openid is Some {
            s.qq_openid
        } else {
            v.qq_openid
        },
        ..v
    })
}

/// Copy the federated identifiers found in a resolved session onto the
/// voter being created or updated.
pub fn apply_session(voter: &mut Voter, sess: &LoginSession)
    ensures
        merged_with_session(*final(voter), *old(voter), *sess),
{
    if let Some(u) = &sess.thbwiki_uid {
        voter.thbwiki_uid = Some(u.clone());
    }
    if let Some(q) = &sess.qq_openid {
        voter.qq_openid = Some(q.clone());
    }
}

} // verus!
