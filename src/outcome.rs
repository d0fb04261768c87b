//! The three-way byte convention of a persisted cache slot.
//!
//! A slot holds either nothing (the object does not exist), exactly the
//! marker bytes `malformed` (the object exists but cannot be parsed), or the
//! bytes of an encoded symcache. The marker is defined here once, for the
//! writer and for the reader.
use vstd::prelude::*;

verus! {

/// The marker bytes: the ASCII text `malformed`.
pub open spec fn malformed_marker() -> Seq<u8> {
    seq![109u8, 97, 108, 102, 111, 114, 109, 101, 100]
}

/// The magic preamble with which every encoded symcache begins: the ASCII
/// text `SYMC`.
pub open spec fn symcache_magic() -> Seq<u8> {
    seq![83u8, 89, 77, 67]
}

/// Whether `b` begins with the symcache magic preamble.
pub open spec fn has_symcache_magic(b: Seq<u8>) -> bool {
    b.len() >= 4 && b.subrange(0, 4) == symcache_magic()
}

/// Whether `b` begins with the symcache magic preamble as a writer stores it:
/// the magic is one little-endian word, so on a big-endian machine its bytes
/// come reversed.
pub open spec fn has_written_magic(b: Seq<u8>) -> bool {
    b.len() >= 4 && (b.subrange(0, 4) == symcache_magic() || b.subrange(0, 4)
        == symcache_magic().reverse())
}

/// Whether `b` begins with the marker bytes.
pub open spec fn starts_with_marker(b: Seq<u8>) -> bool {
    b.len() >= malformed_marker().len() && b.subrange(0, malformed_marker().len() as int)
        == malformed_marker()
}

/// What a slot's bytes stand for.
#[derive(Debug, Clone, Copy, PartialEq, Eq, Structural)]
pub enum SlotKind {
    /// No object exists for the key.
    Empty,
    /// The object exists but is permanently unusable.
    Malformed,
    /// The bytes are an encoded symcache.
    Data,
}

/// The kind of a slot that holds `b`: decided by length and by equality to
/// the marker alone.
pub open spec fn slot_kind(b: Seq<u8>) -> SlotKind {
    if b.len() == 0 {
        SlotKind::Empty
    } else if b == malformed_marker() {
        SlotKind::Malformed
    } else {
        SlotKind::Data
    }
}

/// The outcome of a computation, before it is turned into bytes.
#[derive(Debug)]
pub enum Outcome {
    /// The object was not found.
    Absent,
    /// The object was found but could not be parsed.
    Malformed,
    /// The object was converted; these are the encoded bytes.
    Artifact(Vec<u8>),
}

impl Outcome {
    /// The bytes persisted for this outcome.
    pub open spec fn encoding(&self) -> Seq<u8> {
        match self {
            Outcome::Absent => Seq::empty(),
            Outcome::Malformed => malformed_marker(),
            Outcome::Artifact(b) => b@,
        }
    }

    /// Whether this outcome can be told apart from the other two once persisted:
    /// an artifact's bytes are neither empty nor the marker.
    pub open spec fn distinguishable(&self) -> bool {
        match self {
            Outcome::Artifact(b) => b@.len() > 0 && b@ != malformed_marker(),
            _ => true,
        }
    }

    /// Whether `self` is what bytes `b` read back as.
    pub open spec fn read_from(&self, b: Seq<u8>) -> bool {
        match self {
            Outcome::Absent => slot_kind(b) == SlotKind::Empty,
            Outcome::Malformed => slot_kind(b) == SlotKind::Malformed,
            Outcome::Artifact(a) => slot_kind(b) == SlotKind::Data && a@ == b,
        }
    }

    /// The bytes to persist for this outcome.
    pub fn encode(self) -> (r: Vec<u8>)
        ensures
            r@ == self.encoding(),
    {
        match self {
            Outcome::Absent => Vec::new(),
            Outcome::Malformed => malformed_marker_bytes(),
            Outcome::Artifact(b) => b,
        }
    }

    /// Reads persisted bytes back as an outcome.
    pub fn decode(bytes: Vec<u8>) -> (r: Outcome)
        ensures
            r.read_from(bytes@),
    {
        match classify(bytes.as_slice()) {
            SlotKind::Empty => Outcome::Absent,
            SlotKind::Malformed => Outcome::Malformed,
            SlotKind::Data => Outcome::Artifact(bytes),
        }
    }
}

/// The marker bytes, for writing.
pub fn malformed_marker_bytes() -> (r: Vec<u8>)
    ensures
        r@ == malformed_marker(),
{
    let r = vec![109u8, 97, 108, 102, 111, 114, 109, 101, 100];
    assert(r@ =~= malformed_marker());
    r
}

/// Whether `bytes` are exactly the marker bytes.
pub fn is_malformed_marker(bytes: &[u8]) -> (r: bool)
    ensures
        r == (bytes@ == malformed_marker()),
{
    let marker = malformed_marker_bytes();
    if bytes.len() != marker.len() {
        return false;
    }
    let mut i: usize = 0;
    while i < bytes.len()
        invariant
            marker@ == malformed_marker(),
            bytes@.len() == marker@.len(),
            i <= bytes@.len(),
            forall|j: int| 0 <= j < i ==> bytes@[j] == marker@[j],
        decreases bytes@.len() - i,
    {
        if bytes[i] != marker[i] {
            return false;
        }
        i = i + 1;
    }
    assert(bytes@ =~= marker@);
    true
}

/// The kind of a slot holding `bytes`.
pub fn classify(bytes: &[u8]) -> (r: SlotKind)
    ensures
        r == slot_kind(bytes@),
{
    if bytes.len() == 0 {
        SlotKind::Empty
    } else if is_malformed_marker(bytes) {
        SlotKind::Malformed
    } else {
        SlotKind::Data
    }
}

/// Encoding a distinguishable outcome and reading the bytes back gives the
/// same outcome.
pub proof fn lemma_round_trip(o: Outcome)
    requires
        o.distinguishable(),
    ensures
        o.read_from(o.encoding()),
{
}

/// Reading is a function of the bytes: two reads of the same bytes give
/// outcomes of the same kind, and equal artifact bytes.
pub proof fn lemma_read_deterministic(b: Seq<u8>, o1: Outcome, o2: Outcome)
    requires
        o1.read_from(b),
        o2.read_from(b),
    ensures
        o1 == o2 || (o1 matches Outcome::Artifact(x) && o2 matches Outcome::Artifact(y) && x@
            == y@),
{
}

/// Bytes that begin with the symcache magic, in either byte order, never
/// begin with the marker, are not empty and are not the marker: an encoded
/// symcache is always read back as data.
pub proof fn lemma_magic_avoids_marker(b: Seq<u8>)
    requires
        has_written_magic(b),
    ensures
        !starts_with_marker(b),
        slot_kind(b) == SlotKind::Data,
{
    assert(b.subrange(0, 4)[0] == 83u8 || b.subrange(0, 4)[0] == 67u8);
    assert(b[0] == 83u8 || b[0] == 67u8);
    if starts_with_marker(b) {
        assert(b.subrange(0, 9)[0] == 109u8);
    }
    if b == malformed_marker() {
        assert(b[0] == 109u8);
    }
}

} // verus!
