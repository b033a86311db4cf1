//! Trusted access to the operating-system random generator.  Nothing is
//! assumed about the sampled values beyond their range and length; every
//! caller must be correct for every outcome.

use vstd::prelude::*;
use rand::Rng;
use rand::RngCore;

verus! {

/// Relies on rand's `Rng::gen_range` over the operating-system generator
/// `OsRng`: the sample lies within the requested inclusive range.
#[verifier::external_body]
pub fn random_code_num() -> (r: u32)
    ensures
        r <= 999999,
{
    rand::rngs::OsRng.gen_range(0u32..=999999u32)
}

/// Relies on rand's `RngCore::fill_bytes` over the operating-system
/// generator `OsRng`: it fills the whole buffer, here 16 bytes.
#[verifier::external_body]
pub fn random_bytes16() -> (r: Vec<u8>)
    ensures
        r@.len() == 16,
{
    let mut buf = [0u8; 16];
    rand::rngs::OsRng.fill_bytes(&mut buf);
    buf.to_vec()
}

} // verus!
