use vstd::prelude::*;

verus! {

/// A token handed to a call must stay valid at least this long, in seconds.
pub const MIN_TOKEN_VALIDITY_SECS: u64 = 120;

/// Whether a cached token with `remaining_secs` of validity left may still be
/// handed out, or must be refreshed first.
pub fn token_is_usable(remaining_secs: u64) -> (r: bool)
    ensures
        r == (remaining_secs >= MIN_TOKEN_VALIDITY_SECS),
{
    remaining_secs >= MIN_TOKEN_VALIDITY_SECS
}

} // verus!
