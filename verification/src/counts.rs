//! The object kinds, the per-path classification outcome, and the tally.

use vstd::prelude::*;

verus! {

/// The four recognized loose-object kinds.
#[derive(Clone, Copy, PartialEq, Eq, Structural, Debug)]
pub enum ObjectKind {
    Blob,
    Tree,
    Commit,
    Tag,
}

/// The outcome of classifying one candidate file: a recognized header,
/// a decompressed stream whose header is not one of the four kinds (or
/// has no null terminator in the lookahead window), or a failure to
/// read or decompress the bytes at all.
#[derive(Clone, Copy, PartialEq, Eq, Structural, Debug)]
pub enum Outcome {
    Recognized(ObjectKind),
    Malformed,
    IoError,
}

/// The scan accumulator: one non-negative counter per recognized kind.
/// Malformed and unreadable paths contribute to no counter.
#[derive(Clone, Copy, PartialEq, Eq, Structural, Debug)]
pub struct Counts {
    pub blob: usize,
    pub tree: usize,
    pub commit: usize,
    pub tag: usize,
}

impl Counts {
    /// The counter that belongs to kind `k`, as a mathematical integer.
    pub open spec fn count(self, k: ObjectKind) -> int {
        match k {
            ObjectKind::Blob => self.blob as int,
            ObjectKind::Tree => self.tree as int,
            ObjectKind::Commit => self.commit as int,
            ObjectKind::Tag => self.tag as int,
        }
    }

    /// Sum of the four counters.
    pub open spec fn total(self) -> int {
        self.blob + self.tree + self.commit + self.tag
    }

    /// A fresh accumulator with every counter at zero.
    pub fn new() -> (r: Counts)
        ensures
            r.blob == 0 && r.tree == 0 && r.commit == 0 && r.tag == 0,
    {
        Counts { blob: 0, tree: 0, commit: 0, tag: 0 }
    }

    /// Fold one classification outcome into the tally: the counter of a
    /// recognized kind rises by exactly one, every other counter and
    /// every non-recognized outcome leaves the tally unchanged.
    pub fn record(&mut self, o: Outcome)
        requires
            old(self).total() < usize::MAX,
        ensures
            final(self).blob == old(self).blob
                + (if o == Outcome::Recognized(ObjectKind::Blob) { 1int } else { 0int }),
            final(self).tree == old(self).tree
                + (if o == Outcome::Recognized(ObjectKind::Tree) { 1int } else { 0int }),
            final(self).commit == old(self).commit
                + (if o == Outcome::Recognized(ObjectKind::Commit) { 1int } else { 0int }),
            final(self).tag == old(self).tag
                + (if o == Outcome::Recognized(ObjectKind::Tag) { 1int } else { 0int }),
    {
        match o {
            Outcome::Recognized(ObjectKind::Blob) => {
                self.blob = self.blob + 1;
            }
            Outcome::Recognized(ObjectKind::Tree) => {
                self.tree = self.tree + 1;
            }
            Outcome::Recognized(ObjectKind::Commit) => {
                self.commit = self.commit + 1;
            }
            Outcome::Recognized(ObjectKind::Tag) => {
                self.tag = self.tag + 1;
            }
            Outcome::Malformed => {}
            Outcome::IoError => {}
        }
    }
}

} // verus!
