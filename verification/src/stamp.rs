//! What a token needs that no input determines: the current time and a
//! fresh identifier.

use vstd::prelude::*;
use vstd::string::*;

verus! {

/// The time of issue and the identifier (`jti`) of one token.
#[derive(Debug)]
pub struct Stamp {
    /// Unix time, in seconds.
    pub now: i64,
    /// An identifier that no other token carries.
    pub jti: String,
}

/// What one attempt at an authorization server's endpoint needs: the time
/// and two identifiers, one for the client assertion and one for the DPoP
/// proof.
#[derive(Debug)]
pub struct Stamps {
    /// Unix time, in seconds.
    pub now: i64,
    pub assertion_jti: String,
    pub proof_jti: String,
}

/// Reads the clock with `chrono::Utc::now` and returns
/// `DateTime::timestamp`, the seconds since the Unix epoch. Nothing is
/// claimed of the value.
#[verifier::external_body]
fn unix_now() -> (r: i64) {
    chrono::Utc::now().timestamp()
}

/// Draws a random identifier with `uuid::Uuid::new_v4` and writes it with
/// its `Display` impl: 32 lower-case hexadecimal digits in five groups
/// separated by hyphens, 36 characters in all.
#[verifier::external_body]
fn random_uuid() -> (r: String)
    ensures
        r@.len() == 36,
{
    uuid::Uuid::new_v4().to_string()
}

impl Stamp {
    /// A stamp for a token issued now.
    pub fn fresh() -> (r: Stamp)
        ensures
            r.jti@.len() == 36,
    {
        Stamp { now: unix_now(), jti: random_uuid() }
    }

    /// The current Unix time, in seconds.
    pub fn now() -> i64 {
        unix_now()
    }

    /// A new random session identifier, in the hyphenated form of a UUID.
    pub fn new_id() -> (r: String)
        ensures
            r@.len() == 36,
    {
        random_uuid()
    }
}

impl Stamps {
    /// Stamps for an attempt made now.
    pub fn fresh() -> (r: Stamps)
        ensures
            r.assertion_jti@.len() == 36,
            r.proof_jti@.len() == 36,
    {
        Stamps { now: unix_now(), assertion_jti: random_uuid(), proof_jti: random_uuid() }
    }
}

} // verus!
