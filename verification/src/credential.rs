//! The expiry rule for issued credential tokens.  The hosting runtime stores
//! each token's expiration timestamp and reads the clock; the rule itself is
//! a pure function of the two values.

use vstd::prelude::*;

verus! {

/// Whether a credential token is expired at time `now`.  An expiration of
/// zero means the token never expires; otherwise the token is expired
/// strictly after its expiration timestamp.
pub fn is_expired(expiration: u64, now: u64) -> (r: bool)
    ensures
        r == (expiration != 0 && now > expiration),
{
    expiration != 0 && now > expiration
}

} // verus!
