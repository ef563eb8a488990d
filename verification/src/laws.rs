//! The general properties of the census, stated and proved once for all
//! stores: what one recognized or rejected file does to the tally, that
//! the tally is a function of the store's contents alone, that it does
//! not depend on enumeration order, and that a delegated enumeration
//! reporting the same kinds yields the same tally.

use vstd::multiset::Multiset;
use vstd::prelude::*;

use crate::counts::ObjectKind;
use crate::counts::Outcome;
use crate::scan::classify_spec;
use crate::scan::count_of;
use crate::scan::kind_count_of;
use crate::scan::kinds_of;
use crate::scan::lemma_count_of_push;
use crate::scan::lemma_kind_count_of_push;
use crate::scan::outcomes_of;
use crate::scan::scan_count;

verus! {

/// A count over a sequence of outcomes equals the matching count over
/// its multiset, so it forgets the order of the sequence.
pub proof fn lemma_count_of_is_multiset_count(s: Seq<Outcome>, k: ObjectKind)
    ensures
        count_of(s, k) == s.to_multiset().count(Outcome::Recognized(k)),
    decreases s.len(),
{
    broadcast use vstd::seq_lib::group_to_multiset_ensures;
    broadcast use vstd::multiset::group_multiset_axioms;

    if s.len() == 0 {
        assert(s.to_multiset() =~= Multiset::empty());
    } else {
        lemma_count_of_is_multiset_count(s.drop_last(), k);
        assert(s =~= s.drop_last().push(s.last()));
        assert(s.to_multiset() =~= s.drop_last().to_multiset().insert(s.last()));
    }
}

/// Order-independence: two outcome sequences that are permutations of
/// one another yield the same count of every kind.
pub proof fn lemma_order_independent(s1: Seq<Outcome>, s2: Seq<Outcome>, k: ObjectKind)
    requires
        s1.to_multiset() == s2.to_multiset(),
    ensures
        count_of(s1, k) == count_of(s2, k),
{
    lemma_count_of_is_multiset_count(s1, k);
    lemma_count_of_is_multiset_count(s2, k);
}

/// Idempotence: the census is a function of the store's contents alone,
/// so scanning an unmodified store a second time yields the same count
/// of every kind.
pub proof fn lemma_scan_idempotent(first: Seq<Seq<u8>>, second: Seq<Seq<u8>>, k: ObjectKind)
    requires
        first == second,
    ensures
        scan_count(first, k) == scan_count(second, k),
{
}

/// A store extended by one file whose bytes classify as kind `k` counts
/// exactly one more object of that kind and the same number of every
/// other kind — whatever the header's size field holds.
pub proof fn lemma_recognized_file_adds_one(store: Seq<Seq<u8>>, file: Seq<u8>, k: ObjectKind)
    requires
        classify_spec(file) == Outcome::Recognized(k),
    ensures
        scan_count(store.push(file), k) == scan_count(store, k) + 1,
        forall|other: ObjectKind|
            other != k ==> scan_count(store.push(file), other) == scan_count(store, other),
{
    assert(outcomes_of(store.push(file)) =~= outcomes_of(store).push(Outcome::Recognized(k)));
    lemma_count_of_push(outcomes_of(store), Outcome::Recognized(k), k);
    assert forall|other: ObjectKind|
        other != k implies scan_count(store.push(file), other) == scan_count(store, other) by {
        lemma_count_of_push(outcomes_of(store), Outcome::Recognized(k), other);
    }
}

/// A store extended by one file whose bytes do not inflate, or whose
/// inflated window carries no recognized header, counts the same number
/// of every kind as before.
pub proof fn lemma_rejected_file_changes_nothing(store: Seq<Seq<u8>>, file: Seq<u8>)
    requires
        classify_spec(file) == Outcome::Malformed || classify_spec(file) == Outcome::IoError,
    ensures
        forall|k: ObjectKind| scan_count(store.push(file), k) == scan_count(store, k),
{
    assert(outcomes_of(store.push(file)) =~= outcomes_of(store).push(classify_spec(file)));
    assert forall|k: ObjectKind|
        scan_count(store.push(file), k) == scan_count(store, k) by {
        lemma_count_of_push(outcomes_of(store), classify_spec(file), k);
    }
}

/// A count over a sequence of kinds equals the matching count over its
/// multiset, so it forgets the order of the sequence.
pub proof fn lemma_kind_count_of_is_multiset_count(s: Seq<ObjectKind>, k: ObjectKind)
    ensures
        kind_count_of(s, k) == s.to_multiset().count(k),
    decreases s.len(),
{
    broadcast use vstd::seq_lib::group_to_multiset_ensures;
    broadcast use vstd::multiset::group_multiset_axioms;

    if s.len() == 0 {
        assert(s.to_multiset() =~= Multiset::empty());
    } else {
        lemma_kind_count_of_is_multiset_count(s.drop_last(), k);
        assert(s =~= s.drop_last().push(s.last()));
        assert(s.to_multiset() =~= s.drop_last().to_multiset().insert(s.last()));
    }
}

/// The kinds that classification recognizes carry the same counts as
/// the outcomes they were read from.
pub proof fn lemma_kinds_of_counts(s: Seq<Outcome>, k: ObjectKind)
    ensures
        kind_count_of(kinds_of(s), k) == count_of(s, k),
    decreases s.len(),
{
    if s.len() > 0 {
        lemma_kinds_of_counts(s.drop_last(), k);
        match s.last() {
            Outcome::Recognized(x) => {
                lemma_kind_count_of_push(kinds_of(s.drop_last()), x, k);
            },
            Outcome::Malformed => {},
            Outcome::IoError => {},
        }
    }
}

/// Cross-strategy agreement on loose-only stores: when a delegated
/// enumeration reports, in any order, exactly the kinds that header
/// classification recognizes in the store's files, the two strategies'
/// tallies are equal for every kind.
pub proof fn lemma_strategies_agree(store: Seq<Seq<u8>>, reported: Seq<ObjectKind>, k: ObjectKind)
    requires
        reported.to_multiset() == kinds_of(outcomes_of(store)).to_multiset(),
    ensures
        kind_count_of(reported, k) == scan_count(store, k),
{
    lemma_kind_count_of_is_multiset_count(reported, k);
    lemma_kind_count_of_is_multiset_count(kinds_of(outcomes_of(store)), k);
    lemma_kinds_of_counts(outcomes_of(store), k);
}

} // verus!
