//! Error kinds of symcache computation and access.
use vstd::prelude::*;

verus! {

/// What went wrong while producing or reading a symcache.
#[derive(Debug, Clone, Copy, PartialEq, Eq, Structural)]
pub enum SymCacheErrorKind {
    /// A local file could not be created or written.
    Io,
    /// The object retrieval reported a failure fetching the object.
    Fetching,
    /// The request could not be delivered to a collaborator.
    Mailbox,
    /// Persisted bytes claim to be a symcache but fail format validation.
    Parsing,
    /// The object is durably known to be malformed.
    ObjectParsing,
    /// The computation exceeded its deadline.
    Timeout,
}

impl SymCacheErrorKind {
    /// A short human-readable description of the kind.
    pub fn description(&self) -> (r: &'static str)
        ensures
            *self == SymCacheErrorKind::Io ==> r@ == "failed to read or write a local file"@,
            *self == SymCacheErrorKind::Fetching ==> r@ == "failed to download object"@,
            *self == SymCacheErrorKind::Mailbox ==> r@ == "failed sending message to objects actor"@,
            *self == SymCacheErrorKind::Parsing ==> r@ == "failed to parse symcache"@,
            *self == SymCacheErrorKind::ObjectParsing ==> r@ == "failed to parse object"@,
            *self == SymCacheErrorKind::Timeout ==> r@ == "symcache building took too long"@,
    {
        match self {
            SymCacheErrorKind::Io => "failed to read or write a local file",
            SymCacheErrorKind::Fetching => "failed to download object",
            SymCacheErrorKind::Mailbox => "failed sending message to objects actor",
            SymCacheErrorKind::Parsing => "failed to parse symcache",
            SymCacheErrorKind::ObjectParsing => "failed to parse object",
            SymCacheErrorKind::Timeout => "symcache building took too long",
        }
    }
}

/// An error of symcache computation or access, tagged with its kind.
#[derive(Debug, Clone, Copy, PartialEq, Eq, Structural)]
pub struct SymCacheError {
    pub kind: SymCacheErrorKind,
}

impl SymCacheError {
    /// The kind of this error.
    pub fn kind(&self) -> (r: SymCacheErrorKind)
        ensures
            r == self.kind,
    {
        self.kind
    }
}

impl From<SymCacheErrorKind> for SymCacheError {
    fn from(kind: SymCacheErrorKind) -> (r: SymCacheError) {
        SymCacheError { kind }
    }
}

impl vstd::std_specs::convert::FromSpecImpl<SymCacheErrorKind> for SymCacheError {
    open spec fn obeys_from_spec() -> bool {
        true
    }

    open spec fn from_spec(kind: SymCacheErrorKind) -> SymCacheError {
        SymCacheError { kind }
    }
}

} // verus!
