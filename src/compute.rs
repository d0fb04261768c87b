//! The computation of one cache slot: from the retrieval's answer to the
//! bytes to persist and the scope the object resolved under.
use vstd::prelude::*;

use crate::error::{SymCacheError, SymCacheErrorKind};
use crate::outcome::{
    has_written_magic, lemma_magic_avoids_marker, malformed_marker, starts_with_marker, Outcome,
};
use crate::symcache::{access_of, byte_view_data, loaded_inner, Access, SymCache};
use crate::types::{
    clone_object_id, clone_scope, clone_sources, derive_key, file_types_from_object_type,
    file_types_of, is_key_of, source_ids, CacheKey, FetchSymCache, FileType, ObjectId, Scope,
    SourceConfig,
};
use symbolic::common::ByteView;
use symbolic::debuginfo::Object as DebugObject;
use symbolic::symcache::SymCacheWriter;

verus! {

/// Whether the debug object parser accepts `data`.
pub uninterp spec fn object_parses(data: Seq<u8>) -> bool;

/// The symcache written from the object that `data` parses as, `None` where
/// the writer fails.
pub uninterp spec fn symcache_bytes_of(data: Seq<u8>) -> Option<Seq<u8>>;

/// Relies on `symbolic::debuginfo::Object::parse`: whether it succeeds
/// depends on the bytes alone.
#[verifier::external_body]
fn parses_as_object(data: &[u8]) -> (r: bool)
    ensures
        r == object_parses(data@),
{
    DebugObject::parse(data).is_ok()
}

/// Relies on `symbolic::symcache::SymCacheWriter::write_object`, applied to
/// the object that `symbolic::debuginfo::Object::parse` reads from `data` and
/// writing into an empty in-memory cursor. The writer's output and its failure
/// depend on the object alone; on success the cursor holds the serialized
/// symcache, whose header begins with the magic word.
#[verifier::external_body]
fn write_symcache(data: &[u8]) -> (r: Option<Vec<u8>>)
    requires
        object_parses(data@),
    ensures
        r is Some == symcache_bytes_of(data@) is Some,
        r matches Some(b) ==> symcache_bytes_of(data@) == Some(b@) && has_written_magic(b@),
{
    match DebugObject::parse(data) {
        Ok(object) => match SymCacheWriter::write_object(&object, std::io::Cursor::new(Vec::new())) {
            Ok(cursor) => Some(cursor.into_inner()),
            Err(_) => None,
        },
        Err(_) => None,
    }
}

/// The longest a computation may take, in seconds.
pub const COMPUTE_TIMEOUT_SECS: u64 = 300;

/// An object the retrieval answered with.
#[derive(Debug)]
pub struct FetchedObject {
    /// The raw object bytes, `None` where no object exists for the request.
    pub data: Option<Vec<u8>>,
    /// The scope the object resolved under.
    pub scope: Scope,
}

/// The answer of the object retrieval to one request.
#[derive(Debug)]
pub enum Retrieval {
    /// The request could not be delivered.
    Undelivered,
    /// The retrieval reported a failure fetching the object.
    Failed,
    /// The retrieval answered.
    Fetched(FetchedObject),
}

/// What a successful computation produced: the bytes to persist, and the
/// scope the object resolved under.
#[derive(Debug)]
pub struct Computed {
    pub bytes: Vec<u8>,
    pub scope: Scope,
}

/// `r` is an error of kind `kind`.
pub open spec fn fails_with(r: Result<Computed, SymCacheError>, kind: SymCacheErrorKind) -> bool {
    r == Err::<Computed, SymCacheError>(SymCacheError { kind })
}

/// `r` persists `bytes` under `scope`.
pub open spec fn persists(r: Result<Computed, SymCacheError>, bytes: Seq<u8>, scope: Scope) -> bool {
    r matches Ok(c) && c.bytes@ == bytes && c.scope == scope
}

/// What a computation answers on `retrieval`. Where the object parses, the
/// symcache writer decides: its failure is an `Io` error, else exactly what
/// it wrote is persisted, which begins with the symcache magic.
pub open spec fn computed_from(retrieval: Retrieval, r: Result<Computed, SymCacheError>) -> bool {
    match retrieval {
        Retrieval::Undelivered => fails_with(r, SymCacheErrorKind::Mailbox),
        Retrieval::Failed => fails_with(r, SymCacheErrorKind::Fetching),
        Retrieval::Fetched(o) => match o.data {
            None => persists(r, Seq::empty(), o.scope),
            Some(d) => if !object_parses(d@) {
                persists(r, malformed_marker(), o.scope)
            } else {
                match symcache_bytes_of(d@) {
                    None => fails_with(r, SymCacheErrorKind::Io),
                    Some(b) => persists(r, b, o.scope) && has_written_magic(b),
                }
            },
        },
    }
}

/// The outcome for an object that parsed, given what the symcache writer
/// returned: its bytes, or an `Io` error where it failed.
pub fn written_outcome(written: Option<Vec<u8>>) -> (r: Result<Outcome, SymCacheError>)
    ensures
        written matches Some(b) ==> (r matches Ok(Outcome::Artifact(a)) && a@ == b@),
        written is None ==> r == Err::<Outcome, SymCacheError>(
            SymCacheError { kind: SymCacheErrorKind::Io },
        ),
{
    match written {
        Some(b) => Ok(Outcome::Artifact(b)),
        None => Err(SymCacheError { kind: SymCacheErrorKind::Io }),
    }
}

/// Converts raw object bytes: `Malformed` where they do not parse as an
/// object, else the written symcache.
fn convert_object(data: &[u8]) -> (r: Result<Outcome, SymCacheError>)
    ensures
        !object_parses(data@) ==> r matches Ok(Outcome::Malformed),
        object_parses(data@) && symcache_bytes_of(data@) is None ==> r == Err::<
            Outcome,
            SymCacheError,
        >(SymCacheError { kind: SymCacheErrorKind::Io }),
        object_parses(data@) ==> (symcache_bytes_of(data@) matches Some(b) ==> (r matches Ok(
            Outcome::Artifact(a),
        ) && a@ == b && has_written_magic(b))),
{
    if parses_as_object(data) {
        written_outcome(write_symcache(data))
    } else {
        Ok(Outcome::Malformed)
    }
}

/// What a computation that produced `result` in `elapsed_secs` seconds
/// answers: `Timeout` past the deadline, else `result`.
pub open spec fn deadline_applied(
    elapsed_secs: u64,
    result: Result<Computed, SymCacheError>,
    r: Result<Computed, SymCacheError>,
) -> bool {
    if elapsed_secs > COMPUTE_TIMEOUT_SECS {
        fails_with(r, SymCacheErrorKind::Timeout)
    } else {
        r == result
    }
}

/// Applies the deadline to a computation that took `elapsed_secs` seconds:
/// past the deadline it fails with `Timeout` and persists nothing.
pub fn within_deadline(elapsed_secs: u64, result: Result<Computed, SymCacheError>) -> (r: Result<
    Computed,
    SymCacheError,
>)
    ensures
        deadline_applied(elapsed_secs, result, r),
{
    if elapsed_secs > COMPUTE_TIMEOUT_SECS {
        Err(SymCacheError { kind: SymCacheErrorKind::Timeout })
    } else {
        result
    }
}

/// The request issued to the object retrieval for one computation.
#[derive(Debug, Clone)]
pub struct FetchObject {
    pub filetypes: Vec<FileType>,
    pub identifier: ObjectId,
    pub sources: Vec<SourceConfig>,
    pub scope: Scope,
}

/// A symcache request as the cache engine computes and loads it.
#[derive(Debug, Clone)]
pub struct FetchSymCacheInternal {
    pub request: FetchSymCache,
}

impl FetchSymCacheInternal {
    /// The key of this request's slot: from its identifier and scope alone.
    pub fn get_cache_key(&self) -> (r: CacheKey)
        ensures
            is_key_of(r, self.request.identifier, self.request.scope),
    {
        derive_key(&self.request)
    }

    /// The retrieval request of this computation: the file types of the
    /// requested object type, and the request's identifier, sources and scope.
    pub fn fetch_request(&self) -> (r: FetchObject)
        ensures
            r.filetypes@ == file_types_of(self.request.object_type),
            r.identifier.id_view() == self.request.identifier.id_view(),
            source_ids(r.sources@) == source_ids(self.request.sources@),
            r.scope == self.request.scope,
    {
        FetchObject {
            filetypes: file_types_from_object_type(self.request.object_type),
            identifier: clone_object_id(&self.request.identifier),
            sources: clone_sources(&self.request.sources),
            scope: clone_scope(&self.request.scope),
        }
    }

    /// Computes the slot's bytes from the retrieval's answer: nothing where
    /// no object exists, the marker where the object does not parse, else the
    /// written symcache; the scope is the one the object resolved under.
    pub fn compute(&self, retrieval: Retrieval) -> (r: Result<Computed, SymCacheError>)
        ensures
            computed_from(retrieval, r),
    {
        match retrieval {
            Retrieval::Undelivered => Err(SymCacheError { kind: SymCacheErrorKind::Mailbox }),
            Retrieval::Failed => Err(SymCacheError { kind: SymCacheErrorKind::Fetching }),
            Retrieval::Fetched(object) => {
                let outcome = match &object.data {
                    None => Outcome::Absent,
                    Some(d) => match convert_object(d.as_slice()) {
                        Ok(o) => o,
                        Err(e) => {
                            return Err(e);
                        },
                    },
                };
                Ok(Computed { bytes: outcome.encode(), scope: object.scope })
            },
        }
    }

    /// Builds the handle of a slot holding `data`, resolved under `scope`.
    /// Loading never fails: the bytes decide what later accesses answer.
    pub fn load(self, scope: Scope, data: ByteView<'static>) -> (r: Result<SymCache, SymCacheError>)
        ensures
            r matches Ok(s) && s.inner_view() == loaded_inner(byte_view_data(data)) && s.scope_view() == scope
                && s.request_view() == self.request,
    {
        Ok(SymCache::new(self.request, scope, data))
    }
}

/// Where no object exists, the slot is persisted empty under the object's
/// scope, and a load of it answers that there is no artifact.
pub proof fn lemma_absence_cached(scope: Scope, r: Result<Computed, SymCacheError>)
    requires
        computed_from(Retrieval::Fetched(FetchedObject { data: None, scope }), r),
    ensures
        r matches Ok(c) && c.bytes@.len() == 0 && c.scope == scope && access_of(
            loaded_inner(c.bytes@),
        ) == Access::NoArtifact,
{
}

/// Where the object does not parse, the slot is persisted as exactly the
/// marker, and a load of it answers that the object is malformed.
pub proof fn lemma_malformed_cached(data: Vec<u8>, scope: Scope, r: Result<Computed, SymCacheError>)
    requires
        !object_parses(data@),
        computed_from(Retrieval::Fetched(FetchedObject { data: Some(data), scope }), r),
    ensures
        r matches Ok(c) && c.bytes@ == malformed_marker() && access_of(loaded_inner(c.bytes@))
            == Access::KnownMalformed,
{
}

/// Where the object parses and the symcache writer succeeds on it, the
/// computation succeeds and persists exactly the writer's bytes: not empty,
/// never beginning with the marker, and handed unchanged to the symcache
/// parser by a load of the slot.
pub proof fn lemma_artifact_cached(data: Vec<u8>, scope: Scope, r: Result<Computed, SymCacheError>)
    requires
        object_parses(data@),
        symcache_bytes_of(data@) is Some,
        computed_from(Retrieval::Fetched(FetchedObject { data: Some(data), scope }), r),
    ensures
        r matches Ok(c) && c.scope == scope && symcache_bytes_of(data@) == Some(c.bytes@)
            && c.bytes@.len() > 0 && !starts_with_marker(c.bytes@) && loaded_inner(c.bytes@)
            == Some(c.bytes@) && access_of(loaded_inner(c.bytes@)) == Access::Decode,
{
    let c = r->Ok_0;
    lemma_magic_avoids_marker(c.bytes@);
}

/// Where the object parses but the symcache writer fails on it, the
/// computation fails with `Io` and persists nothing.
pub proof fn lemma_writer_failure_is_io(data: Vec<u8>, scope: Scope, r: Result<Computed, SymCacheError>)
    requires
        object_parses(data@),
        symcache_bytes_of(data@) is None,
        computed_from(Retrieval::Fetched(FetchedObject { data: Some(data), scope }), r),
    ensures
        fails_with(r, SymCacheErrorKind::Io),
{
}

/// A computation that overruns its deadline fails with `Timeout`, whatever it
/// would have produced: nothing is persisted as a valid slot.
pub proof fn lemma_timeout_persists_nothing(
    elapsed_secs: u64,
    result: Result<Computed, SymCacheError>,
    r: Result<Computed, SymCacheError>,
)
    requires
        elapsed_secs > COMPUTE_TIMEOUT_SECS,
        deadline_applied(elapsed_secs, result, r),
    ensures
        r is Err,
        r->Err_0.kind == SymCacheErrorKind::Timeout,
{
}

} // verus!
