//! The scan driver: classify each candidate file and fold the outcomes
//! into the final tally.

use vstd::prelude::*;

use crate::counts::Counts;
use crate::counts::ObjectKind;
use crate::counts::Outcome;
use crate::header::classify_header;
use crate::header::header_kind;
use crate::inflate::inflate_prefix;
use crate::inflate::inflated_prefix;

verus! {

/// Ceiling on how many decompressed bytes are inspected while looking
/// for the header's null terminator.
pub const HEADER_WINDOW: usize = 1024;

/// What classification says of one candidate file's raw (compressed)
/// bytes: an I/O-layer failure when they do not inflate, otherwise the
/// verdict of `header_kind` on the inflated window.
pub open spec fn classify_spec(data: Seq<u8>) -> Outcome {
    match inflated_prefix(data, HEADER_WINDOW as nat) {
        Option::None => Outcome::IoError,
        Option::Some(h) => match header_kind(h) {
            Option::Some(k) => Outcome::Recognized(k),
            Option::None => Outcome::Malformed,
        },
    }
}

/// Classify the raw bytes of one candidate loose-object file.
pub fn classify_bytes(data: &Vec<u8>) -> (r: Outcome)
    ensures
        r == classify_spec(data@),
{
    match inflate_prefix(data, HEADER_WINDOW) {
        Option::None => Outcome::IoError,
        Option::Some(h) => match classify_header(&h) {
            Option::Some(k) => Outcome::Recognized(k),
            Option::None => Outcome::Malformed,
        },
    }
}

/// Number of outcomes in `s` recognized as kind `k`.
pub open spec fn count_of(s: Seq<Outcome>, k: ObjectKind) -> int
    decreases s.len(),
{
    if s.len() == 0 {
        0int
    } else {
        count_of(s.drop_last(), k) + if s.last() == Outcome::Recognized(k) {
            1int
        } else {
            0int
        }
    }
}

/// Appending one outcome raises the count of the kind it recognizes by
/// one and no other.
pub proof fn lemma_count_of_push(s: Seq<Outcome>, o: Outcome, k: ObjectKind)
    ensures
        count_of(s.push(o), k) == count_of(s, k) + if o == Outcome::Recognized(k) {
            1int
        } else {
            0int
        },
{
    assert(s.push(o).drop_last() =~= s);
}

/// Fold a sequence of per-path outcomes into the final tally.
pub fn tally(outcomes: &Vec<Outcome>) -> (r: Counts)
    ensures
        forall|k: ObjectKind| r.count(k) == count_of(outcomes@, k),
{
    let mut c = Counts::new();
    let mut i: usize = 0;
    while i < outcomes.len()
        invariant
            i <= outcomes@.len(),
            c.total() <= i,
            c.blob == count_of(outcomes@.take(i as int), ObjectKind::Blob),
            c.tree == count_of(outcomes@.take(i as int), ObjectKind::Tree),
            c.commit == count_of(outcomes@.take(i as int), ObjectKind::Commit),
            c.tag == count_of(outcomes@.take(i as int), ObjectKind::Tag),
        decreases outcomes@.len() - i,
    {
        proof {
            assert(outcomes@.take(i + 1).drop_last() =~= outcomes@.take(i as int));
            assert(outcomes@.take(i + 1).last() == outcomes@[i as int]);
        }
        c.record(outcomes[i]);
        i = i + 1;
    }
    proof {
        assert(outcomes@.take(outcomes@.len() as int) =~= outcomes@);
    }
    c
}

/// Occurrences of kind `k` in a sequence of kinds, as a delegated
/// enumeration reports them.
pub open spec fn kind_count_of(s: Seq<ObjectKind>, k: ObjectKind) -> int
    decreases s.len(),
{
    if s.len() == 0 {
        0int
    } else {
        kind_count_of(s.drop_last(), k) + if s.last() == k {
            1int
        } else {
            0int
        }
    }
}

/// Appending one reported kind raises its own count by one and no other.
pub proof fn lemma_kind_count_of_push(s: Seq<ObjectKind>, x: ObjectKind, k: ObjectKind)
    ensures
        kind_count_of(s.push(x), k) == kind_count_of(s, k) + if x == k {
            1int
        } else {
            0int
        },
{
    assert(s.push(x).drop_last() =~= s);
}

/// The kinds that classification recognizes among a sequence of
/// outcomes, kept in order; rejected outcomes leave no trace.
pub open spec fn kinds_of(s: Seq<Outcome>) -> Seq<ObjectKind>
    decreases s.len(),
{
    if s.len() == 0 {
        Seq::empty()
    } else {
        match s.last() {
            Outcome::Recognized(k) => kinds_of(s.drop_last()).push(k),
            Outcome::Malformed => kinds_of(s.drop_last()),
            Outcome::IoError => kinds_of(s.drop_last()),
        }
    }
}

/// Fold the kinds a delegated enumeration reports into a tally. This is
/// the alternative strategy's driver: an object database hands back one
/// kind per object, and the fold is the same commutative count.
pub fn tally_kinds(kinds: &Vec<ObjectKind>) -> (r: Counts)
    ensures
        forall|k: ObjectKind| r.count(k) == kind_count_of(kinds@, k),
{
    let mut c = Counts::new();
    let mut i: usize = 0;
    while i < kinds.len()
        invariant
            i <= kinds@.len(),
            c.total() <= i,
            c.blob == kind_count_of(kinds@.take(i as int), ObjectKind::Blob),
            c.tree == kind_count_of(kinds@.take(i as int), ObjectKind::Tree),
            c.commit == kind_count_of(kinds@.take(i as int), ObjectKind::Commit),
            c.tag == kind_count_of(kinds@.take(i as int), ObjectKind::Tag),
        decreases kinds@.len() - i,
    {
        proof {
            assert(kinds@.take(i + 1).drop_last() =~= kinds@.take(i as int));
            assert(kinds@.take(i + 1).last() == kinds@[i as int]);
        }
        c.record(Outcome::Recognized(kinds[i]));
        i = i + 1;
    }
    proof {
        assert(kinds@.take(kinds@.len() as int) =~= kinds@);
    }
    c
}

/// The per-file outcomes of a whole store of raw file contents.
pub open spec fn outcomes_of(store: Seq<Seq<u8>>) -> Seq<Outcome> {
    store.map_values(|d: Seq<u8>| classify_spec(d))
}

/// The census a store owes: how many of its files classify as kind `k`.
pub open spec fn scan_count(store: Seq<Seq<u8>>, k: ObjectKind) -> int {
    count_of(outcomes_of(store), k)
}

/// Scan a store held in memory: classify every file's raw bytes and
/// tally the recognized kinds. Malformed and undecodable files are
/// dropped, never fatal.
pub fn scan_store(store: &Vec<Vec<u8>>) -> (r: Counts)
    ensures
        forall|k: ObjectKind| r.count(k) == scan_count(store.deep_view(), k),
{
    let mut outcomes: Vec<Outcome> = Vec::new();
    let mut i: usize = 0;
    while i < store.len()
        invariant
            i <= store@.len(),
            outcomes@ =~= outcomes_of(store.deep_view().take(i as int)),
        decreases store@.len() - i,
    {
        let o = classify_bytes(&store[i]);
        proof {
            assert(store@[i as int].deep_view() =~= store@[i as int]@);
            assert(outcomes@.push(o) =~= outcomes_of(store.deep_view().take(i + 1)));
        }
        outcomes.push(o);
        i = i + 1;
    }
    proof {
        assert(store.deep_view().take(store@.len() as int) =~= store.deep_view());
    }
    tally(&outcomes)
}

} // verus!
