//! The errors that a request, a page fetch or a bulk collection ends with.

use vstd::prelude::*;

verus! {

/// Why a request, a page fetch or a bulk collection failed.
#[derive(Clone, Debug, PartialEq)]
pub enum Error {
    /// The request could not be carried out: connectivity, name lookup or
    /// timeout. Carries the transport's message.
    TransportFailure(String),
    /// The server answered with a failure status other than "too many
    /// requests".
    NonRetryableStatus(u16),
    /// The server kept throttling without a usable wait hint until the
    /// last allowed attempt.
    MissingRetryHint,
    /// Every allowed attempt was throttled.
    RetryBudgetExhausted,
    /// The body did not decode as a page, on every allowed attempt. Carries
    /// the last decoder message.
    DecodeFailure(String),
}

} // verus!
