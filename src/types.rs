//! Requests, scopes and cache keys.
use vstd::prelude::*;
use vstd::string::{StrSliceExecFns, StringExecFns};

verus! {

/// The visibility class of a request and of a resolved artifact.
#[derive(Debug, Clone, PartialEq, Eq)]
pub enum Scope {
    /// Publicly available objects.
    Global,
    /// Objects private to the named organisation.
    Scoped(String),
}

/// The kind of debug object requested.
#[derive(Debug, Clone, Copy, PartialEq, Eq, Structural)]
pub enum ObjectType {
    Elf,
    Macho,
    Pe,
    Unknown,
}

/// The kind of file the retrieval searches for.
#[derive(Debug, Clone, Copy, PartialEq, Eq, Structural)]
pub enum FileType {
    MachDebug,
    MachCode,
    ElfDebug,
    ElfCode,
    Pdb,
    Pe,
    Breakpad,
}

/// The file types searched for an object of type `t`: the debug and code
/// files of its format and Breakpad symbols; every type where the format is
/// unknown.
pub open spec fn file_types_of(t: ObjectType) -> Seq<FileType> {
    match t {
        ObjectType::Macho => seq![FileType::MachDebug, FileType::MachCode, FileType::Breakpad],
        ObjectType::Elf => seq![FileType::ElfDebug, FileType::ElfCode, FileType::Breakpad],
        ObjectType::Pe => seq![FileType::Pdb, FileType::Pe, FileType::Breakpad],
        ObjectType::Unknown => seq![
            FileType::MachDebug,
            FileType::MachCode,
            FileType::ElfDebug,
            FileType::ElfCode,
            FileType::Pdb,
            FileType::Pe,
            FileType::Breakpad,
        ],
    }
}

/// The file types searched for an object of type `t`.
pub fn file_types_from_object_type(t: ObjectType) -> (r: Vec<FileType>)
    ensures
        r@ == file_types_of(t),
{
    let r = match t {
        ObjectType::Macho => vec![FileType::MachDebug, FileType::MachCode, FileType::Breakpad],
        ObjectType::Elf => vec![FileType::ElfDebug, FileType::ElfCode, FileType::Breakpad],
        ObjectType::Pe => vec![FileType::Pdb, FileType::Pe, FileType::Breakpad],
        ObjectType::Unknown => vec![
            FileType::MachDebug,
            FileType::MachCode,
            FileType::ElfDebug,
            FileType::ElfCode,
            FileType::Pdb,
            FileType::Pe,
            FileType::Breakpad,
        ],
    };
    assert(r@ =~= file_types_of(t));
    r
}

/// A candidate location to search for the raw object.
#[derive(Debug, Clone)]
pub struct SourceConfig {
    pub id: String,
}

/// Whether `c` is escaped in key text: the part terminator `/` and the
/// escape character itself.
pub open spec fn is_special(c: char) -> bool {
    c == '/' || c == '\\'
}

/// The key text of one character: special characters are preceded by `\`.
pub open spec fn escape_char(c: char) -> Seq<char> {
    if is_special(c) {
        seq!['\\', c]
    } else {
        seq![c]
    }
}

/// The key text of a string: each character escaped.
pub open spec fn escape(s: Seq<char>) -> Seq<char>
    decreases s.len(),
{
    if s.len() == 0 {
        Seq::empty()
    } else {
        escape(s.drop_last()) + escape_char(s.last())
    }
}

/// The key text of an optional identifier part: `-` where it is absent,
/// else `+`, the escaped text and the terminator `/`.
pub open spec fn part_text(p: Option<String>) -> Seq<char> {
    match p {
        None => seq!['-'],
        Some(s) => seq!['+'] + escape(s@) + seq!['/'],
    }
}

/// The text of an optional part, as a value.
pub open spec fn part_view(p: Option<String>) -> Option<Seq<char>> {
    match p {
        None => None,
        Some(s) => Some(s@),
    }
}

/// Identifies a debug object.
#[derive(Debug, Clone)]
pub struct ObjectId {
    pub debug_id: Option<String>,
    pub code_id: Option<String>,
}

impl ObjectId {
    /// The identifier as a value: its two optional parts.
    pub open spec fn id_view(&self) -> (Option<Seq<char>>, Option<Seq<char>>) {
        (part_view(self.debug_id), part_view(self.code_id))
    }

    /// The key text of this identifier: the debug id part, then the code id
    /// part.
    pub open spec fn key_text(&self) -> Seq<char> {
        part_text(self.debug_id) + part_text(self.code_id)
    }

    /// The key text of this identifier.
    pub fn get_cache_key(&self) -> (r: String)
        ensures
            r@ == self.key_text(),
    {
        let mut r = String::new();
        append_part(&mut r, &self.debug_id);
        append_part(&mut r, &self.code_id);
        proof {
            assert(r@ =~= self.key_text());
        }
        r
    }
}

/// Appends the escaped text of `s` to `r`.
fn append_escaped(r: &mut String, s: &str)
    ensures
        final(r)@ == old(r)@ + escape(s@),
{
    let ghost start = r@;
    let n = s.unicode_len();
    let mut i: usize = 0;
    proof {
        assert(s@.subrange(0, 0) =~= Seq::<char>::empty());
        assert(r@ =~= start + escape(s@.subrange(0, 0)));
    }
    while i < n
        invariant
            n == s@.len(),
            i <= n,
            r@ == start + escape(s@.subrange(0, i as int)),
        decreases n - i,
    {
        let c = s.get_char(i);
        if c == '/' || c == '\\' {
            r.append("\\");
        }
        r.append(s.substring_char(i, i + 1));
        proof {
            reveal_strlit("\\");
            let next = s@.subrange(0, i + 1);
            assert(next.drop_last() =~= s@.subrange(0, i as int));
            assert(next.last() == c);
            assert(s@.subrange(i as int, i + 1) =~= seq![c]);
            assert(r@ =~= start + escape(next));
        }
        i = i + 1;
    }
    proof {
        assert(s@.subrange(0, n as int) =~= s@);
    }
}

/// Appends the key text of part `p` to `r`.
fn append_part(r: &mut String, p: &Option<String>)
    ensures
        final(r)@ == old(r)@ + part_text(*p),
{
    let ghost start = r@;
    match p {
        None => {
            r.append("-");
            proof {
                reveal_strlit("-");
                assert(r@ =~= start + part_text(*p));
            }
        },
        Some(s) => {
            r.append("+");
            append_escaped(r, s.as_str());
            r.append("/");
            proof {
                reveal_strlit("+");
                reveal_strlit("/");
                assert(r@ =~= start + part_text(*p));
            }
        },
    }
}

/// Escaping distributes over concatenation.
proof fn lemma_escape_concat(a: Seq<char>, b: Seq<char>)
    ensures
        escape(a + b) == escape(a) + escape(b),
    decreases b.len(),
{
    if b.len() == 0 {
        assert(a + b =~= a);
        assert(escape(a) + escape(b) =~= escape(a));
    } else {
        lemma_escape_concat(a, b.drop_last());
        assert((a + b).drop_last() =~= a + b.drop_last());
        assert((a + b).last() == b.last());
        assert(escape(a + b) =~= escape(a) + escape(b));
    }
}

/// The escaped text of a non-empty string begins with its first character's.
proof fn lemma_escape_front(s: Seq<char>)
    requires
        s.len() > 0,
    ensures
        escape(s) == escape_char(s[0]) + escape(s.drop_first()),
{
    let head = seq![s[0]];
    assert(s =~= head + s.drop_first());
    lemma_escape_concat(head, s.drop_first());
    assert(head.drop_last() =~= Seq::<char>::empty());
    assert(head.last() == s[0]);
    assert(escape(head.drop_last()) == Seq::<char>::empty());
    assert(escape(head) == escape(head.drop_last()) + escape_char(head.last()));
    assert(escape(head) =~= escape_char(s[0]));
}

/// An escaped text followed by the terminator can be read back in one way
/// only.
proof fn lemma_escape_unique(a: Seq<char>, b: Seq<char>, x: Seq<char>, y: Seq<char>)
    requires
        escape(a) + seq!['/'] + x == escape(b) + seq!['/'] + y,
    ensures
        a == b,
        x == y,
    decreases a.len(),
{
    let l = escape(a) + seq!['/'] + x;
    if a.len() == 0 {
        if b.len() > 0 {
            lemma_escape_front(b);
            assert(l[0] == '/');
            assert((escape(b) + seq!['/'] + y)[0] == escape_char(b[0])[0]);
        }
        assert(b.len() == 0);
        assert(a =~= b);
        assert(x =~= l.subrange(1, l.len() as int));
        assert(y =~= l.subrange(1, l.len() as int));
    } else {
        lemma_escape_front(a);
        assert(l[0] == escape_char(a[0])[0]);
        if b.len() == 0 {
            assert(l[0] == '/');
        }
        assert(b.len() > 0);
        lemma_escape_front(b);
        let ea = escape_char(a[0]);
        let eb = escape_char(b[0]);
        let ra = escape(a.drop_first()) + seq!['/'] + x;
        let rb = escape(b.drop_first()) + seq!['/'] + y;
        assert(l =~= ea + ra);
        assert(l =~= eb + rb);
        assert(l[0] == eb[0]);
        if is_special(a[0]) {
            assert(l[1] == a[0]);
            assert(is_special(b[0]));
            assert(l[1] == b[0]);
        } else {
            assert(!is_special(b[0]));
        }
        assert(a[0] == b[0]);
        assert(ra =~= l.subrange(ea.len() as int, l.len() as int));
        assert(rb =~= l.subrange(eb.len() as int, l.len() as int));
        lemma_escape_unique(a.drop_first(), b.drop_first(), x, y);
        assert(a =~= seq![a[0]] + a.drop_first());
        assert(b =~= seq![b[0]] + b.drop_first());
    }
}

/// A part's key text followed by more text can be read back in one way only.
proof fn lemma_part_unique(p: Option<String>, q: Option<String>, x: Seq<char>, y: Seq<char>)
    requires
        part_text(p) + x == part_text(q) + y,
    ensures
        part_view(p) == part_view(q),
        x == y,
{
    let l = part_text(p) + x;
    assert(l[0] == part_text(p)[0]);
    assert(l[0] == part_text(q)[0]);
    match p {
        None => {
            assert(q is None);
            assert(x =~= l.subrange(1, l.len() as int));
            assert(y =~= l.subrange(1, l.len() as int));
        },
        Some(s) => {
            let t = q->Some_0;
            let rest = l.subrange(1, l.len() as int);
            assert(rest =~= escape(s@) + seq!['/'] + x);
            assert(rest =~= escape(t@) + seq!['/'] + y);
            lemma_escape_unique(s@, t@, x, y);
        },
    }
}

/// Identifiers with the same key text are the same identifier.
pub proof fn lemma_key_text_injective(a: ObjectId, b: ObjectId)
    requires
        a.key_text() == b.key_text(),
    ensures
        a.id_view() == b.id_view(),
{
    lemma_part_unique(a.debug_id, b.debug_id, part_text(a.code_id), part_text(b.code_id));
    assert(part_text(a.code_id) =~= part_text(a.code_id) + Seq::<char>::empty());
    assert(part_text(b.code_id) =~= part_text(b.code_id) + Seq::<char>::empty());
    lemma_part_unique(a.code_id, b.code_id, Seq::<char>::empty(), Seq::<char>::empty());
}

/// Information for fetching the symbols of one symcache.
#[derive(Debug, Clone)]
pub struct FetchSymCache {
    pub object_type: ObjectType,
    pub identifier: ObjectId,
    pub sources: Vec<SourceConfig>,
    pub scope: Scope,
}

/// The key of one cache slot.
#[derive(Debug, Clone)]
pub struct CacheKey {
    pub cache_key: String,
    pub scope: Scope,
}

/// Whether `k` is the key of identifier `id` under scope `scope`.
pub open spec fn is_key_of(k: CacheKey, id: ObjectId, scope: Scope) -> bool {
    k.cache_key@ == id.key_text() && k.scope == scope
}

/// A copy of the optional part `p`.
fn clone_part(p: &Option<String>) -> (r: Option<String>)
    ensures
        part_view(r) == part_view(*p),
{
    match p {
        None => None,
        Some(s) => Some(s.clone()),
    }
}

/// A copy of `id`.
pub fn clone_object_id(id: &ObjectId) -> (r: ObjectId)
    ensures
        r.id_view() == id.id_view(),
{
    ObjectId { debug_id: clone_part(&id.debug_id), code_id: clone_part(&id.code_id) }
}

/// The source ids of `sources`, in order.
pub open spec fn source_ids(sources: Seq<SourceConfig>) -> Seq<Seq<char>> {
    sources.map_values(|c: SourceConfig| c.id@)
}

/// A copy of `sources`, in order.
pub fn clone_sources(sources: &Vec<SourceConfig>) -> (r: Vec<SourceConfig>)
    ensures
        source_ids(r@) == source_ids(sources@),
{
    let mut r: Vec<SourceConfig> = Vec::new();
    let mut i: usize = 0;
    while i < sources.len()
        invariant
            i <= sources@.len(),
            r@.len() == i,
            source_ids(r@) =~= source_ids(sources@.subrange(0, i as int)),
        decreases sources@.len() - i,
    {
        let id = sources[i].id.clone();
        let ghost before = r@;
        r.push(SourceConfig { id });
        proof {
            let next = sources@.subrange(0, i + 1);
            assert forall|j: int| 0 <= j < i + 1 implies #[trigger] source_ids(r@)[j] == source_ids(
                next,
            )[j] by {
                if j < i {
                    assert(r@[j] == before[j]);
                    assert(source_ids(before)[j] == source_ids(sources@.subrange(0, i as int))[j]);
                }
            }
            assert(source_ids(r@) =~= source_ids(next));
        }
        i = i + 1;
    }
    proof {
        assert(sources@.subrange(0, sources@.len() as int) =~= sources@);
    }
    r
}

/// Derives the cache key of `request`: from its identifier and scope alone.
pub fn derive_key(request: &FetchSymCache) -> (r: CacheKey)
    ensures
        is_key_of(r, request.identifier, request.scope),
{
    CacheKey { cache_key: request.identifier.get_cache_key(), scope: clone_scope(&request.scope) }
}

/// A copy of `s`.
pub fn clone_scope(s: &Scope) -> (r: Scope)
    ensures
        r == *s,
{
    match s {
        Scope::Global => Scope::Global,
        Scope::Scoped(name) => {
            let n = name.clone();
            proof {
                assert(n@ == name@);
            }
            Scope::Scoped(n)
        },
    }
}

/// Two requests with the same identifier and scope have the same key,
/// whatever their sources and object types.
pub proof fn lemma_key_ignores_sources(a: FetchSymCache, b: FetchSymCache, ka: CacheKey, kb: CacheKey)
    requires
        a.identifier == b.identifier,
        a.scope == b.scope,
        is_key_of(ka, a.identifier, a.scope),
        is_key_of(kb, b.identifier, b.scope),
    ensures
        ka.cache_key@ == kb.cache_key@,
        ka.scope == kb.scope,
{
}

/// Keys are collision-free: two equal keys come from the same identifier
/// under the same scope.
pub proof fn lemma_keys_collision_free(ka: CacheKey, kb: CacheKey, a: ObjectId, b: ObjectId, sa: Scope, sb: Scope)
    requires
        is_key_of(ka, a, sa),
        is_key_of(kb, b, sb),
        ka.cache_key@ == kb.cache_key@,
        ka.scope == kb.scope,
    ensures
        a.id_view() == b.id_view(),
        sa == sb,
{
    lemma_key_text_injective(a, b);
}

} // verus!
