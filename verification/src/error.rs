//! What can go wrong in a lookup.

use vstd::prelude::*;
use vstd::std_specs::convert::FromSpecImpl;
use crate::validate::ValidationError;

verus! {

/// Why no response came back from the upstream service. The caller that
/// talks to the service reports one of the two.
#[derive(Clone, Copy, Debug, PartialEq, Eq, Structural)]
pub enum DispatchError {
    /// The request did not complete: connection, TLS or timeout. Trying
    /// again may help.
    Transport,
    /// The body of the response is not the JSON that was expected. Trying
    /// again does not help.
    Decode,
}

/// Why a lookup gave no profile. Tells a player that does not exist from an
/// upstream service that is broken.
#[derive(Clone, Copy, Debug, PartialEq, Eq, Structural)]
pub enum LookupError {
    /// The upstream service could not be asked, or its answer not read.
    Upstream(DispatchError),
    /// The upstream service knows no such player.
    NotFound,
    /// The upstream service answered without a payload.
    BadUpstream,
}

/// The lookup error that a validation error becomes.
pub open spec fn lookup_error_of(e: ValidationError) -> LookupError {
    match e {
        ValidationError::NoData => LookupError::BadUpstream,
        ValidationError::NotFound => LookupError::NotFound,
    }
}

impl From<DispatchError> for LookupError {
    fn from(e: DispatchError) -> (r: LookupError) {
        LookupError::Upstream(e)
    }
}

impl FromSpecImpl<DispatchError> for LookupError {
    open spec fn obeys_from_spec() -> bool {
        true
    }

    open spec fn from_spec(e: DispatchError) -> LookupError {
        LookupError::Upstream(e)
    }
}

impl From<ValidationError> for LookupError {
    fn from(e: ValidationError) -> (r: LookupError) {
        match e {
            ValidationError::NoData => LookupError::BadUpstream,
            ValidationError::NotFound => LookupError::NotFound,
        }
    }
}

impl FromSpecImpl<ValidationError> for LookupError {
    open spec fn obeys_from_spec() -> bool {
        true
    }

    open spec fn from_spec(e: ValidationError) -> LookupError {
        lookup_error_of(e)
    }
}

impl DispatchError {
    /// Whether asking again may succeed: only a transport failure is worth
    /// another try.
    pub fn is_retryable(&self) -> (r: bool)
        ensures
            r == (*self == DispatchError::Transport),
    {
        match self {
            DispatchError::Transport => true,
            DispatchError::Decode => false,
        }
    }
}

impl LookupError {
    /// Whether asking again may succeed.
    pub fn is_retryable(&self) -> (r: bool)
        ensures
            r == (*self == LookupError::Upstream(DispatchError::Transport)),
    {
        match self {
            LookupError::Upstream(e) => e.is_retryable(),
            _ => false,
        }
    }
}

} // verus!
