use vstd::prelude::*;

verus! {

/// Every way a fetch or a client creation can fail.
#[derive(Debug, Clone, Copy, PartialEq, Eq, Structural)]
pub enum FetchError {
    /// A bad method token, an unparseable URL, or a wrong number of body chunks.
    MalformedInput,
    /// The URL's scheme is neither `http` nor `https`.
    UnsupportedScheme,
    /// A handle that names no resource, or one of the wrong kind.
    InvalidHandle,
    /// A request header whose name or value breaks the header grammar.
    MalformedHeader,
    /// The permission policy refused the host or the file.
    PermissionDenied,
    /// The exchange failed below HTTP, or its response could not be read.
    NetworkError,
    /// The trust-anchor material could not be turned into a client.
    ConfigurationError,
    /// Every handle value has been given out.
    HandlesExhausted,
}

} // verus!
