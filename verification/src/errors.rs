use vstd::prelude::*;

verus! {

/// Failures of the token codec. Issuance can only fail with
/// `TimestampOverflow`; decoding can fail with any of the other three.
#[derive(Clone, Copy, Debug, PartialEq, Eq, Structural)]
pub enum CodecError {
    /// The signature does not verify under the secret for the requested kind.
    SignatureInvalid,
    /// The claims decoded, but their expiry lies before the supplied time.
    Expired,
    /// The token is structurally invalid.
    Malformed,
    /// Adding the configured lifetime to the issuance time overflows a `u64`.
    TimestampOverflow,
}

/// Failures of the session store.
#[derive(Clone, Copy, Debug, PartialEq, Eq, Structural)]
pub enum StoreError {
    /// A compare-and-set lost against the current state of the store: the
    /// addressed row is gone, or a token value is already taken by another row.
    Conflict,
    /// The row could not be persisted (a new token value is already taken, or
    /// the row-id space is exhausted).
    PersistenceError,
}

/// Failures of the refresh coordinator, as surfaced to its caller. A lost
/// rotation race and a missing session both collapse into `Invalid` so that
/// the client learns nothing beyond "log in again".
#[derive(Clone, Copy, Debug, PartialEq, Eq, Structural)]
pub enum RefreshError {
    /// The refresh token failed to decode, was not bound to the presented
    /// access token, or the rotation lost a race.
    Invalid,
    /// The refresh token itself is past its expiry.
    Expired,
}

} // verus!
