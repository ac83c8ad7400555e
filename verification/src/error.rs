//! The typed failures of the flow.

use vstd::prelude::*;

verus! {

/// What went wrong, as far as a caller needs to tell the cases apart.
#[derive(Debug, Clone, Copy, PartialEq, Eq, Structural)]
pub enum ErrorKind {
    /// A configuration field is missing, empty or malformed.
    ConfigError,
    /// An authorization or token URI is not a valid absolute URI.
    InvalidUri,
    /// The callback's state is absent or is not the pending one.
    StateMismatch,
    /// The callback carries neither a code nor a provider error.
    MissingCode,
    /// The provider answered the authorization request with an error.
    ProviderDenied,
    /// The token endpoint answered with a status outside 200..=299.
    ExchangeError(u16),
    /// The exchange failed in transport, or its answer could not be read.
    ExchangeFailure,
}

/// A failure of the flow: its kind, and a free-form detail for diagnostics.
#[derive(Debug, Clone, PartialEq, Eq)]
pub struct Error {
    kind: ErrorKind,
    detail: String,
}

impl Error {
    /// The kind of this error.
    pub closed spec fn spec_kind(&self) -> ErrorKind {
        self.kind
    }

    /// The detail text of this error.
    pub closed spec fn spec_detail(&self) -> Seq<char> {
        self.detail@
    }

    /// An error of the given kind with a detail text.
    pub fn new(kind: ErrorKind, detail: String) -> (e: Error)
        ensures
            e.spec_kind() == kind,
            e.spec_detail() == detail@,
    {
        Error { kind, detail }
    }

    /// An error of the given kind without detail.
    pub fn bare(kind: ErrorKind) -> (e: Error)
        ensures
            e.spec_kind() == kind,
            e.spec_detail() == Seq::<char>::empty(),
    {
        Error { kind, detail: String::new() }
    }

    #[verifier::when_used_as_spec(spec_kind)]
    pub fn kind(&self) -> (k: ErrorKind)
        ensures
            k == self.spec_kind(),
    {
        self.kind
    }

    /// The detail text: the offending URI, the provider's error code, or the cause.
    pub fn detail(&self) -> (d: &str)
        ensures
            d@ == self.spec_detail(),
    {
        self.detail.as_str()
    }
}

/// Whether `result` is an error of the given kind.
pub open spec fn fails_with<T>(result: Result<T, Error>, kind: ErrorKind) -> bool {
    result matches Err(e) && e.spec_kind() == kind
}

/// Whether `result` is an error of the given kind with the given detail.
pub open spec fn fails_about<T>(result: Result<T, Error>, kind: ErrorKind, detail: Seq<char>) -> bool {
    result matches Err(e) && e.spec_kind() == kind && e.spec_detail() == detail
}

} // verus!
