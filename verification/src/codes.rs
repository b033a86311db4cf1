//! One-time verification codes per channel: rate-limited issuance and
//! validation against the ephemeral store.

use vstd::prelude::*;
use vstd::string::StringExecFns;

use crate::entropy::random_code_num;
use crate::models::ServiceError;
use crate::strfmt::{code6_digits, format_code};
use crate::ttlmap::TtlMap;

verus! {

/// Lifetime of a stored one-time code, in seconds.
pub const CODE_TTL_SECONDS: u64 = 3600;

/// Lifetime of the resend guard, in seconds.
pub const GUARD_TTL_SECONDS: u64 = 60;

/// A verification channel the principal proves access to.
#[derive(Clone, Copy, Debug, PartialEq, Eq, Structural)]
pub enum Channel {
    Email,
    Phone,
}

/// Key under which the code for `addr` is stored.
pub open spec fn verify_key(c: Channel, addr: Seq<char>) -> Seq<char> {
    match c {
        Channel::Email => "email-verify-"@ + addr,
        Channel::Phone => "phone-verify-"@ + addr,
    }
}

/// Key of the resend guard for `addr`.
pub open spec fn guard_key(c: Channel, addr: Seq<char>) -> Seq<char> {
    match c {
        Channel::Email => "email-verify-guard-"@ + addr,
        Channel::Phone => "phone-verify-guard-"@ + addr,
    }
}

pub fn verify_key_exec(c: Channel, addr: &String) -> (r: String)
    ensures
        r@ == verify_key(c, addr@),
{
    let mut s = match c {
        Channel::Email => String::from_str("email-verify-"),
        Channel::Phone => String::from_str("phone-verify-"),
    };
    s.append(addr.as_str());
    s
}

pub fn guard_key_exec(c: Channel, addr: &String) -> (r: String)
    ensures
        r@ == guard_key(c, addr@),
{
    let mut s = match c {
        Channel::Email => String::from_str("email-verify-guard-"),
        Channel::Phone => String::from_str("phone-verify-guard-"),
    };
    s.append(addr.as_str());
    s
}

/// A live resend guard for this channel and address at time `now`.
pub open spec fn guard_live(
    kv: Map<Seq<char>, (String, u64)>,
    c: Channel,
    addr: Seq<char>,
    now: u64,
) -> bool {
    &&& kv.contains_key(guard_key(c, addr))
    &&& now < kv[guard_key(c, addr)].1
    &&& kv[guard_key(c, addr)].0@ == "guard"@
}

/// The stored code for this channel and address is live at `now` and
/// reads `code`.
pub open spec fn code_matches(
    kv: Map<Seq<char>, (String, u64)>,
    c: Channel,
    addr: Seq<char>,
    code: Seq<char>,
    now: u64,
) -> bool {
    &&& kv.contains_key(verify_key(c, addr))
    &&& now < kv[verify_key(c, addr)].1
    &&& kv[verify_key(c, addr)].0@ == code
}

/// Effect of a successful `send` at time `now` with code number `n`: the
/// six-digit code is stored for an hour, the guard for a minute, and no
/// other key changes.
pub open spec fn send_effect(
    old_kv: Map<Seq<char>, (String, u64)>,
    new_kv: Map<Seq<char>, (String, u64)>,
    c: Channel,
    addr: Seq<char>,
    now: u64,
    n: u32,
) -> bool {
    &&& new_kv.contains_key(verify_key(c, addr))
    &&& new_kv[verify_key(c, addr)].0@ == code6_digits(n as int)
    &&& new_kv[verify_key(c, addr)].1 == now + CODE_TTL_SECONDS
    &&& new_kv.contains_key(guard_key(c, addr))
    &&& new_kv[guard_key(c, addr)].0@ == "guard"@
    &&& new_kv[guard_key(c, addr)].1 == now + GUARD_TTL_SECONDS
    &&& forall|k: Seq<char>| #![auto]
        k != verify_key(c, addr) && k != guard_key(c, addr) ==> (new_kv.contains_key(k)
            <==> old_kv.contains_key(k)) && (old_kv.contains_key(k) ==> new_kv[k] == old_kv[k])
}

/// The issuance decision alone: fail when a guard is present, otherwise
/// render the six-digit code to store and send.
pub fn send_decision(guard: Option<&String>, code_num: u32) -> (r: Result<String, ServiceError>)
    requires
        code_num <= 999999,
    ensures
        match guard {
            Some(g) => {
                if g@ == "guard"@ {
                    r matches Err(ServiceError::TooFrequent)
                } else {
                    r matches Ok(code) && code@ == code6_digits(code_num as int)
                }
            },
            None => r matches Ok(code) && code@ == code6_digits(code_num as int),
        },
{
    match guard {
        Some(g) => {
            let sentinel = String::from_str("guard");
            if sentinel == *g {
                Err(ServiceError::TooFrequent)
            } else {
                Ok(format_code(code_num))
            }
        },
        None => Ok(format_code(code_num)),
    }
}

/// The validation decision alone: a missing and a mismatched stored code
/// are indistinguishable to the caller.
pub fn consume_decision(stored: Option<&String>, supplied: &String) -> (r: Result<
    (),
    ServiceError,
>)
    ensures
        match stored {
            Some(s) => {
                if s@ == supplied@ {
                    r is Ok
                } else {
                    r matches Err(ServiceError::IncorrectVerifyCode)
                }
            },
            None => r matches Err(ServiceError::IncorrectVerifyCode),
        },
{
    match stored {
        Some(s) => {
            if *s == *supplied {
                Ok(())
            } else {
                Err(ServiceError::IncorrectVerifyCode)
            }
        },
        None => Err(ServiceError::IncorrectVerifyCode),
    }
}

/// `send(channel, address)` with the code number fixed by the caller:
/// fails with `TooFrequent` while a guard is live, otherwise stores the
/// zero-padded code under the verify key for one hour and arms the guard
/// for one minute.
pub fn send_with_code(
    store: &mut TtlMap<String>,
    channel: Channel,
    address: &String,
    now: u64,
    code_num: u32,
) -> (r: Result<(), ServiceError>)
    requires
        code_num <= 999999,
        now + CODE_TTL_SECONDS <= u64::MAX,
    ensures
        guard_live(old(store)@, channel, address@, now) ==> (r matches Err(
            ServiceError::TooFrequent,
        ) && final(store)@ == old(store)@),
        !guard_live(old(store)@, channel, address@, now) ==> r is Ok && send_effect(
            old(store)@,
            final(store)@,
            channel,
            address@,
            now,
            code_num,
        ),
{
    let gkey = guard_key_exec(channel, address);
    let guard = store.get(&gkey, now);
    let code = match send_decision(guard, code_num) {
        Ok(code) => code,
        Err(e) => {
            return Err(e);
        },
    };
    let vkey = verify_key_exec(channel, address);
    proof {
        reveal_strlit("email-verify-");
        reveal_strlit("email-verify-guard-");
        reveal_strlit("phone-verify-");
        reveal_strlit("phone-verify-guard-");
        assert(verify_key(channel, address@).len() != guard_key(channel, address@).len());
    }
    store.set_ex(vkey, code, now, CODE_TTL_SECONDS);
    store.set_ex(gkey, String::from_str("guard"), now, GUARD_TTL_SECONDS);
    Ok(())
}

/// `send(channel, address)`: as `send_with_code`, with a uniformly random
/// six-digit code.
pub fn send(store: &mut TtlMap<String>, channel: Channel, address: &String, now: u64) -> (r:
    Result<(), ServiceError>)
    requires
        now + CODE_TTL_SECONDS <= u64::MAX,
    ensures
        guard_live(old(store)@, channel, address@, now) ==> (r matches Err(
            ServiceError::TooFrequent,
        ) && final(store)@ == old(store)@),
        !guard_live(old(store)@, channel, address@, now) ==> r is Ok && (exists|n: u32|
            n <= 999999 && send_effect(old(store)@, final(store)@, channel, address@, now, n)),
{
    let code_num = random_code_num();
    send_with_code(store, channel, address, now, code_num)
}

/// `consume(channel, address, code)`: read-only validation of a supplied
/// code; success is repeatable while the stored code lives.
pub fn consume(
    store: &TtlMap<String>,
    channel: Channel,
    address: &String,
    code: &String,
    now: u64,
) -> (r: Result<(), ServiceError>)
    ensures
        code_matches(store@, channel, address@, code@, now) ==> r is Ok,
        !code_matches(store@, channel, address@, code@, now) ==> r matches Err(
            ServiceError::IncorrectVerifyCode,
        ),
{
    let vkey = verify_key_exec(channel, address);
    let stored = store.get(&vkey, now);
    consume_decision(stored, code)
}

} // verus!
