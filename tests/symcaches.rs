use symbolic::common::ByteView;
use symcaches::compute::{
    Computed, FetchSymCacheInternal, FetchedObject, Retrieval, COMPUTE_TIMEOUT_SECS,
    within_deadline,
};
use symcaches::coordinator::{memoized_request, settle_response};
use symcaches::error::{SymCacheError, SymCacheErrorKind};
use symcaches::outcome::{classify, is_malformed_marker, malformed_marker_bytes, Outcome, SlotKind};
use symcaches::symcache::{parsed_or_error, Access, SymCache};
use symcaches::types::{
    derive_key, file_types_from_object_type, FetchSymCache, FileType, ObjectId, ObjectType, Scope,
    SourceConfig,
};

const BREAKPAD_SYMBOLS: &str = "MODULE Linux x86_64 492E2DD23CC306CA9C494EEF1533A3810 crash\n\
FILE 0 /tmp/crash.c\n\
FUNC 1000 10 0 main\n\
1000 10 3 0\n";

fn id(debug: &str, code: Option<&str>) -> ObjectId {
    ObjectId {
        debug_id: Some(debug.to_string()),
        code_id: code.map(|c| c.to_string()),
    }
}

fn request(identifier: ObjectId, scope: Scope) -> FetchSymCache {
    FetchSymCache {
        object_type: ObjectType::Elf,
        identifier,
        sources: vec![SourceConfig { id: "microsoft".to_string() }],
        scope,
    }
}

fn internal(identifier: &str, scope: Scope) -> FetchSymCacheInternal {
    FetchSymCacheInternal { request: request(id(identifier, None), scope) }
}

fn fetched(data: Option<Vec<u8>>, scope: Scope) -> Retrieval {
    Retrieval::Fetched(FetchedObject { data, scope })
}

fn load(req: FetchSymCacheInternal, c: Computed) -> SymCache {
    req.load(c.scope, ByteView::from_vec(c.bytes)).unwrap()
}

fn kind_of<T>(r: Result<T, SymCacheError>) -> SymCacheErrorKind {
    match r {
        Ok(_) => panic!("expected an error"),
        Err(e) => e.kind(),
    }
}

#[test]
fn cache_key_joins_debug_and_code_id() {
    let key = derive_key(&request(id("dfb8e43a", Some("5ab380779000")), Scope::Global));
    assert_eq!(key.cache_key, "+dfb8e43a/+5ab380779000/");
    assert_eq!(key.scope, Scope::Global);
}

#[test]
fn cache_key_with_absent_parts() {
    let only_debug = ObjectId { debug_id: Some("abc".to_string()), code_id: None };
    let only_code = ObjectId { debug_id: None, code_id: Some("abc".to_string()) };
    assert_eq!(only_debug.get_cache_key(), "+abc/-");
    assert_eq!(only_code.get_cache_key(), "-+abc/");
    assert_ne!(only_debug.get_cache_key(), only_code.get_cache_key());
}

#[test]
fn cache_key_ignores_sources_and_object_type() {
    let a = request(id("abc", None), Scope::Scoped("acme".to_string()));
    let mut b = request(id("abc", None), Scope::Scoped("acme".to_string()));
    b.sources.clear();
    b.object_type = ObjectType::Macho;
    let ka = FetchSymCacheInternal { request: a }.get_cache_key();
    let kb = FetchSymCacheInternal { request: b }.get_cache_key();
    assert_eq!(ka.cache_key, kb.cache_key);
    assert_eq!(ka.scope, kb.scope);
}

#[test]
fn cache_key_differs_by_scope() {
    let a = derive_key(&request(id("abc", None), Scope::Global));
    let b = derive_key(&request(id("abc", None), Scope::Scoped("acme".to_string())));
    assert_eq!(a.cache_key, b.cache_key);
    assert_ne!(a.scope, b.scope);
}

#[test]
fn marker_is_malformed_text() {
    assert_eq!(malformed_marker_bytes(), b"malformed".to_vec());
    assert!(is_malformed_marker(b"malformed"));
    assert!(!is_malformed_marker(b"malformed!"));
    assert!(!is_malformed_marker(b"malformes"));
    assert!(!is_malformed_marker(b""));
}

#[test]
fn classify_three_kinds() {
    assert_eq!(classify(b""), SlotKind::Empty);
    assert_eq!(classify(b"malformed"), SlotKind::Malformed);
    assert_eq!(classify(b"malformedX"), SlotKind::Data);
    assert_eq!(classify(b"SYMC"), SlotKind::Data);
}

#[test]
fn outcome_round_trip() {
    assert!(matches!(Outcome::decode(Outcome::Absent.encode()), Outcome::Absent));
    assert!(matches!(Outcome::decode(Outcome::Malformed.encode()), Outcome::Malformed));
    match Outcome::decode(Outcome::Artifact(b"SYMCdata".to_vec()).encode()) {
        Outcome::Artifact(b) => assert_eq!(b, b"SYMCdata".to_vec()),
        other => panic!("unexpected {:?}", other),
    }
}

#[test]
fn decode_twice_gives_same_kind() {
    for bytes in [b"".to_vec(), b"malformed".to_vec(), b"xyz".to_vec()] {
        let first = classify(&bytes);
        let second = classify(&bytes);
        assert_eq!(first, second);
    }
}

#[test]
fn undelivered_retrieval_is_mailbox_error() {
    let r = internal("a", Scope::Global).compute(Retrieval::Undelivered);
    assert_eq!(kind_of(r), SymCacheErrorKind::Mailbox);
}

#[test]
fn failed_retrieval_is_fetching_error() {
    let r = internal("a", Scope::Global).compute(Retrieval::Failed);
    assert_eq!(kind_of(r), SymCacheErrorKind::Fetching);
}

#[test]
fn well_formed_object_gives_usable_symcache() {
    let req = internal("X", Scope::Global);
    let c = req
        .compute(fetched(Some(BREAKPAD_SYMBOLS.as_bytes().to_vec()), Scope::Global))
        .unwrap();
    assert!(!c.bytes.is_empty());
    assert_eq!(&c.bytes[..4], b"SYMC");
    assert!(!c.bytes.starts_with(b"malformed"));
    assert_eq!(c.scope, Scope::Global);
    let cache = load(req.clone(), c);
    assert_eq!(cache.access(), Access::Decode);
    assert_eq!(*cache.scope(), Scope::Global);
    let parsed = cache.get_symcache().unwrap().expect("a symcache");
    let lines: Vec<_> = parsed.lookup(0x1000).unwrap().map(|l| l.unwrap()).collect();
    assert_eq!(lines.len(), 1);
    assert_eq!(lines[0].function_name().as_str(), "main");
}

#[test]
fn resolved_scope_is_the_objects() {
    let req = internal("X", Scope::Scoped("acme".to_string()));
    let c = req.compute(fetched(None, Scope::Global)).unwrap();
    assert_eq!(c.scope, Scope::Global);
}

#[test]
fn absent_object_gives_no_artifact() {
    let req = internal("Y", Scope::Global);
    let c = req.compute(fetched(None, Scope::Global)).unwrap();
    assert!(c.bytes.is_empty());
    let cache = load(req, c);
    assert_eq!(cache.access(), Access::NoArtifact);
    assert!(cache.get_symcache().unwrap().is_none());
}

#[test]
fn corrupt_object_gives_object_parsing_twice() {
    let req = internal("Z", Scope::Global);
    let c = req
        .compute(fetched(Some(b"this is not a debug file".to_vec()), Scope::Global))
        .unwrap();
    assert_eq!(c.bytes, b"malformed".to_vec());
    let cache = load(req, c);
    assert_eq!(cache.access(), Access::KnownMalformed);
    assert_eq!(kind_of(cache.get_symcache()), SymCacheErrorKind::ObjectParsing);
    assert_eq!(kind_of(cache.get_symcache()), SymCacheErrorKind::ObjectParsing);
}

#[test]
fn load_keeps_request_and_scope() {
    let req = internal("Q", Scope::Global);
    let cache = req.clone().load(Scope::Scoped("acme".to_string()), ByteView::from_vec(b"abc".to_vec())).unwrap();
    assert_eq!(*cache.scope(), Scope::Scoped("acme".to_string()));
    assert_eq!(cache.request().identifier.debug_id, Some("Q".to_string()));
}

#[test]
fn corrupt_persisted_bytes_give_parsing_error() {
    let req = internal("P", Scope::Global);
    let cache = req.load(Scope::Global, ByteView::from_vec(b"not a symcache".to_vec())).unwrap();
    assert_eq!(cache.access(), Access::Decode);
    assert_eq!(kind_of(cache.get_symcache()), SymCacheErrorKind::Parsing);
}

#[test]
fn parsed_or_error_maps_absence_to_parsing() {
    assert_eq!(parsed_or_error(Some(5u8)), Ok(Some(5u8)));
    assert_eq!(
        parsed_or_error::<u8>(None),
        Err(SymCacheError { kind: SymCacheErrorKind::Parsing })
    );
}

#[test]
fn deadline_overrun_is_timeout() {
    let ok = Ok(Computed { bytes: b"SYMC".to_vec(), scope: Scope::Global });
    assert_eq!(COMPUTE_TIMEOUT_SECS, 300);
    assert_eq!(kind_of(within_deadline(301, ok)), SymCacheErrorKind::Timeout);
    let ok = Ok(Computed { bytes: b"SYMC".to_vec(), scope: Scope::Global });
    let kept = within_deadline(300, ok).unwrap();
    assert_eq!(kept.bytes, b"SYMC".to_vec());
    let err = Err(SymCacheError { kind: SymCacheErrorKind::Fetching });
    assert_eq!(kind_of(within_deadline(10, err)), SymCacheErrorKind::Fetching);
}

#[test]
fn error_descriptions() {
    assert_eq!(SymCacheErrorKind::Io.description(), "failed to read or write a local file");
    assert_eq!(SymCacheErrorKind::Timeout.description(), "symcache building took too long");
    assert_eq!(SymCacheErrorKind::ObjectParsing.description(), "failed to parse object");
    let e: SymCacheError = SymCacheErrorKind::Mailbox.into();
    assert_eq!(e.kind(), SymCacheErrorKind::Mailbox);
}

#[test]
fn undelivered_request_is_shared_mailbox_error() {
    let r = settle_response(None);
    match r {
        Err(e) => assert_eq!(e.kind(), SymCacheErrorKind::Mailbox),
        Ok(_) => panic!("expected an error"),
    }
}

#[test]
fn engine_answer_is_passed_on_shared() {
    let req = internal("S", Scope::Global);
    let cache = std::sync::Arc::new(req.load(Scope::Global, ByteView::from_vec(Vec::new())).unwrap());
    let r = settle_response(Some(Ok(cache.clone()))).unwrap();
    assert!(std::sync::Arc::ptr_eq(&r, &cache));
    let err = std::sync::Arc::new(SymCacheError { kind: SymCacheErrorKind::Timeout });
    match settle_response(Some(Err(err.clone()))) {
        Err(e) => assert!(std::sync::Arc::ptr_eq(&e, &err)),
        Ok(_) => panic!("expected an error"),
    }
}

#[test]
fn memoized_request_keeps_request() {
    let unit = memoized_request(request(id("M", Some("c0de")), Scope::Global));
    assert_eq!(unit.get_cache_key().cache_key, "+M/+c0de/");
    assert_eq!(unit.request.scope, Scope::Global);
}

#[test]
fn cache_key_absent_differs_from_empty() {
    let absent = ObjectId { debug_id: None, code_id: None };
    let empty = ObjectId { debug_id: Some(String::new()), code_id: None };
    assert_eq!(absent.get_cache_key(), "--");
    assert_eq!(empty.get_cache_key(), "+/-");
}

#[test]
fn cache_key_escapes_separator_and_escape() {
    let a = ObjectId { debug_id: Some("a/".to_string()), code_id: None };
    let b = ObjectId { debug_id: Some("a".to_string()), code_id: Some("/".to_string()) };
    assert_eq!(a.get_cache_key(), "+a\\//-");
    assert_eq!(b.get_cache_key(), "+a/+\\//");
    assert_ne!(a.get_cache_key(), b.get_cache_key());
    let c = ObjectId { debug_id: Some("x\\y".to_string()), code_id: None };
    assert_eq!(c.get_cache_key(), "+x\\\\y/-");
}

#[test]
fn file_types_per_object_type() {
    assert_eq!(
        file_types_from_object_type(ObjectType::Elf),
        vec![FileType::ElfDebug, FileType::ElfCode, FileType::Breakpad]
    );
    assert_eq!(
        file_types_from_object_type(ObjectType::Macho),
        vec![FileType::MachDebug, FileType::MachCode, FileType::Breakpad]
    );
    assert_eq!(
        file_types_from_object_type(ObjectType::Pe),
        vec![FileType::Pdb, FileType::Pe, FileType::Breakpad]
    );
    assert_eq!(file_types_from_object_type(ObjectType::Unknown).len(), 7);
}

#[test]
fn fetch_request_carries_request() {
    let mut req = request(id("dbg", Some("code")), Scope::Scoped("acme".to_string()));
    req.object_type = ObjectType::Pe;
    req.sources.push(SourceConfig { id: "local".to_string() });
    let fetch = FetchSymCacheInternal { request: req }.fetch_request();
    assert_eq!(fetch.filetypes, vec![FileType::Pdb, FileType::Pe, FileType::Breakpad]);
    assert_eq!(fetch.identifier.debug_id, Some("dbg".to_string()));
    assert_eq!(fetch.identifier.code_id, Some("code".to_string()));
    let ids: Vec<&str> = fetch.sources.iter().map(|s| s.id.as_str()).collect();
    assert_eq!(ids, vec!["microsoft", "local"]);
    assert_eq!(fetch.scope, Scope::Scoped("acme".to_string()));
}

#[test]
fn bytes_without_magic_give_parsing_error() {
    let req = internal("M", Scope::Global);
    let cache = req.load(Scope::Global, ByteView::from_vec(b"SYMX0000000000000000".to_vec())).unwrap();
    assert_eq!(kind_of(cache.get_symcache()), SymCacheErrorKind::Parsing);
}
