//! A loaded cache slot and lazy access to the symcache it holds.
use vstd::prelude::*;

use crate::error::{SymCacheError, SymCacheErrorKind};
use crate::outcome::{has_symcache_magic, is_malformed_marker, malformed_marker};
use crate::types::{FetchSymCache, Scope};
use symbolic::common::ByteView;
use symbolic::symcache::SymCache as ParsedSymCache;

verus! {

#[verifier::external_type_specification]
#[verifier::external_body]
pub struct ExParsedSymCache<'data>(ParsedSymCache<'data>);

#[verifier::external_type_specification]
#[verifier::external_body]
pub struct ExByteView<'a>(ByteView<'a>);

/// The bytes a byte view holds.
pub uninterp spec fn byte_view_data(v: ByteView<'static>) -> Seq<u8>;

/// Relies on `symbolic::common::ByteView::as_slice`: the bytes the view holds.
#[verifier::external_body]
fn view_bytes<'v>(v: &'v ByteView<'static>) -> (r: &'v [u8])
    ensures
        r@ == byte_view_data(*v),
{
    v.as_slice()
}

/// Relies on `symbolic::symcache::SymCache::parse`: it succeeds only on data
/// that begins with the `SYMC` magic preamble. Whether it succeeds is not a
/// function of the bytes alone: it also rejects a buffer whose address is not
/// 8-aligned.
#[verifier::external_body]
fn parse_symcache<'data>(data: &'data [u8]) -> (r: Option<ParsedSymCache<'data>>)
    ensures
        r.is_some() ==> has_symcache_magic(data@),
{
    ParsedSymCache::parse(data).ok()
}

/// How a request for the parsed view of a slot is answered.
#[derive(Debug, Clone, Copy, PartialEq, Eq, Structural)]
pub enum Access {
    /// The slot records that no object exists: there is no artifact.
    NoArtifact,
    /// The slot records that the object is malformed.
    KnownMalformed,
    /// The slot holds bytes that the symcache parser must decide on.
    Decode,
}

/// The answer to an access of a slot whose loaded bytes are `inner`.
pub open spec fn access_of(inner: Option<Seq<u8>>) -> Access {
    match inner {
        None => Access::NoArtifact,
        Some(b) => if b == malformed_marker() {
            Access::KnownMalformed
        } else {
            Access::Decode
        },
    }
}

/// What a slot holding `data` keeps once loaded: nothing where `data` is
/// empty.
pub open spec fn loaded_inner(data: Seq<u8>) -> Option<Seq<u8>> {
    if data.len() == 0 {
        None
    } else {
        Some(data)
    }
}

/// Turns the parser's answer on a slot's bytes into the access result.
pub fn parsed_or_error<T>(parsed: Option<T>) -> (r: Result<Option<T>, SymCacheError>)
    ensures
        parsed.is_some() ==> r == Ok::<Option<T>, SymCacheError>(parsed),
        parsed.is_none() ==> r == Err::<Option<T>, SymCacheError>(
            SymCacheError { kind: SymCacheErrorKind::Parsing },
        ),
{
    match parsed {
        Some(p) => Ok(Some(p)),
        None => Err(SymCacheError { kind: SymCacheErrorKind::Parsing }),
    }
}

/// Two loads of the same persisted bytes are answered alike: no object, a
/// malformed object, or the same bytes for the symcache parser.
pub proof fn lemma_load_idempotent(data: Seq<u8>, first: SymCache, second: SymCache)
    requires
        first.inner_view() == loaded_inner(data),
        second.inner_view() == loaded_inner(data),
    ensures
        access_of(first.inner_view()) == access_of(second.inner_view()),
        first.inner_view() == second.inner_view(),
{
}

/// A loaded cache slot: its bytes (as the cache engine hands them over, a
/// memory-mapped file where it reads one), the scope it was resolved under and the
/// request that produced it.
#[derive(Debug, Clone)]
pub struct SymCache {
    inner: Option<ByteView<'static>>,
    scope: Scope,
    request: FetchSymCache,
}

impl SymCache {
    /// The bytes this handle holds, `None` where the slot was empty.
    pub closed spec fn inner_view(&self) -> Option<Seq<u8>> {
        match self.inner {
            Some(v) => Some(byte_view_data(v)),
            None => None,
        }
    }

    /// The scope the artifact was resolved under.
    pub closed spec fn scope_view(&self) -> Scope {
        self.scope
    }

    /// The request that produced this slot.
    pub closed spec fn request_view(&self) -> FetchSymCache {
        self.request
    }

    /// Builds the handle of a slot holding `data`, resolved under `scope`.
    pub fn new(request: FetchSymCache, scope: Scope, data: ByteView<'static>) -> (r: SymCache)
        ensures
            r.inner_view() == loaded_inner(byte_view_data(data)),
            r.scope_view() == scope,
            r.request_view() == request,
    {
        let inner = if view_bytes(&data).len() != 0 {
            Some(data)
        } else {
            None
        };
        SymCache { inner, scope, request }
    }

    /// The scope the artifact was resolved under.
    pub fn scope(&self) -> (r: &Scope)
        ensures
            *r == self.scope_view(),
    {
        &self.scope
    }

    /// The request that produced this slot.
    pub fn request(&self) -> (r: &FetchSymCache)
        ensures
            *r == self.request_view(),
    {
        &self.request
    }

    /// How an access of this slot is answered.
    pub fn access(&self) -> (r: Access)
        ensures
            r == access_of(self.inner_view()),
    {
        match &self.inner {
            None => Access::NoArtifact,
            Some(v) => if is_malformed_marker(view_bytes(v)) {
                Access::KnownMalformed
            } else {
                Access::Decode
            },
        }
    }

    /// The parsed symcache of this slot. `Ok(None)` where the slot records
    /// that no object exists; `ObjectParsing` where it records that the object
    /// is malformed; otherwise the bytes are parsed, and `Parsing` is returned
    /// where the parser rejects them, always so where they lack the magic
    /// preamble.
    pub fn get_symcache(&self) -> (r: Result<Option<ParsedSymCache<'_>>, SymCacheError>)
        ensures
            access_of(self.inner_view()) == Access::NoArtifact ==> r matches Ok(None),
            access_of(self.inner_view()) == Access::KnownMalformed ==> r == Err::<
                Option<ParsedSymCache<'_>>,
                SymCacheError,
            >(SymCacheError { kind: SymCacheErrorKind::ObjectParsing }),
            access_of(self.inner_view()) == Access::Decode ==> {
                &&& self.inner_view() matches Some(b)
                &&& (r matches Ok(Some(_))) ==> has_symcache_magic(b)
                &&& (r is Err ==> r == Err::<
                    Option<ParsedSymCache<'_>>,
                    SymCacheError,
                >(SymCacheError { kind: SymCacheErrorKind::Parsing }))
            },
            r matches Ok(None) <==> access_of(self.inner_view()) == Access::NoArtifact,
    {
        match &self.inner {
            None => Ok(None),
            Some(v) => {
                let bytes = view_bytes(v);
                if is_malformed_marker(bytes) {
                    return Err(SymCacheError { kind: SymCacheErrorKind::ObjectParsing });
                }
                parsed_or_error(parse_symcache(bytes))
            },
        }
    }
}

} // verus!
