//! Classification of a decompressed loose-object header.
//!
//! A loose object's decompressed byte stream begins with `"<type> <size>\0"`.
//! Only the leading type token matters for the census; the token is matched
//! as a prefix of the stream, and a null byte must appear somewhere in the
//! lookahead window for the header to be recognized at all.

use vstd::prelude::*;

use crate::counts::ObjectKind;

verus! {

/// `p` is a prefix of `h`.
pub open spec fn spec_starts_with(h: Seq<u8>, p: Seq<u8>) -> bool {
    p.len() <= h.len() && (forall|i: int| 0 <= i < p.len() ==> h[i] == p[i])
}

/// The ASCII bytes of `"blob"`.
pub open spec fn blob_token() -> Seq<u8> {
    seq![98u8, 108u8, 111u8, 98u8]
}

/// The ASCII bytes of `"tree"`.
pub open spec fn tree_token() -> Seq<u8> {
    seq![116u8, 114u8, 101u8, 101u8]
}

/// The ASCII bytes of `"commit"`.
pub open spec fn commit_token() -> Seq<u8> {
    seq![99u8, 111u8, 109u8, 109u8, 105u8, 116u8]
}

/// The ASCII bytes of `"tag"`.
pub open spec fn tag_token() -> Seq<u8> {
    seq![116u8, 97u8, 103u8]
}

/// Some byte of `h` is the null terminator.
pub open spec fn has_null(h: Seq<u8>) -> bool {
    exists|i: int| 0 <= i < h.len() && h[i] == 0u8
}

/// The kind a decompressed prefix declares: one of the four literal type
/// tokens at the very start, with a null byte somewhere in the window.
/// Anything else — no null byte, or an unrecognized leading token — is
/// no header. The size field is never inspected, so a non-numeric size
/// does not disqualify an otherwise recognized token.
pub open spec fn header_kind(h: Seq<u8>) -> Option<ObjectKind> {
    if !has_null(h) {
        Option::None
    } else if spec_starts_with(h, blob_token()) {
        Option::Some(ObjectKind::Blob)
    } else if spec_starts_with(h, tree_token()) {
        Option::Some(ObjectKind::Tree)
    } else if spec_starts_with(h, commit_token()) {
        Option::Some(ObjectKind::Commit)
    } else if spec_starts_with(h, tag_token()) {
        Option::Some(ObjectKind::Tag)
    } else {
        Option::None
    }
}

/// Whether the window holds a null terminator.
fn contains_null(h: &Vec<u8>) -> (r: bool)
    ensures
        r == has_null(h@),
{
    let mut i: usize = 0;
    while i < h.len()
        invariant
            i <= h@.len(),
            forall|j: int| 0 <= j < i ==> h@[j] != 0u8,
        decreases h@.len() - i,
    {
        if h[i] == 0 {
            assert(h@[i as int] == 0u8);
            return true;
        }
        i = i + 1;
    }
    false
}

/// Classify a decompressed window: `Some(kind)` exactly when the window
/// holds a null byte and starts with one of the four type tokens.
pub fn classify_header(h: &Vec<u8>) -> (r: Option<ObjectKind>)
    ensures
        r == header_kind(h@),
{
    if !contains_null(h) {
        return Option::None;
    }
    if h.len() >= 4 && h[0] == 98 && h[1] == 108 && h[2] == 111 && h[3] == 98 {
        return Option::Some(ObjectKind::Blob);
    }
    assert(!spec_starts_with(h@, blob_token()));
    if h.len() >= 4 && h[0] == 116 && h[1] == 114 && h[2] == 101 && h[3] == 101 {
        return Option::Some(ObjectKind::Tree);
    }
    assert(!spec_starts_with(h@, tree_token()));
    if h.len() >= 6 && h[0] == 99 && h[1] == 111 && h[2] == 109 && h[3] == 109 && h[4] == 105
        && h[5] == 116 {
        return Option::Some(ObjectKind::Commit);
    }
    assert(!spec_starts_with(h@, commit_token()));
    if h.len() >= 3 && h[0] == 116 && h[1] == 97 && h[2] == 103 {
        return Option::Some(ObjectKind::Tag);
    }
    assert(!spec_starts_with(h@, tag_token()));
    Option::None
}

} // verus!
