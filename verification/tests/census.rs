use std::io::Write;

use object_census::classify_bytes;
use object_census::classify_header;
use object_census::scan_store;
use object_census::tally;
use object_census::tally_kinds;
use object_census::Counts;
use object_census::ObjectKind;
use object_census::Outcome;

fn compress(data: &[u8]) -> Vec<u8> {
    let mut encoder =
        flate2::write::ZlibEncoder::new(Vec::new(), flate2::Compression::default());
    encoder.write_all(data).unwrap();
    encoder.finish().unwrap()
}

fn counts(blob: usize, tree: usize, commit: usize, tag: usize) -> Counts {
    Counts {
        blob,
        tree,
        commit,
        tag,
    }
}

#[test]
fn scan_single_blob() {
    let store = vec![compress(b"blob 5\0hello")];
    assert_eq!(scan_store(&store), counts(1, 0, 0, 0));
}

#[test]
fn scan_single_commit() {
    let store = vec![compress(b"commit 120\0tree abcd1234\0")];
    assert_eq!(scan_store(&store), counts(0, 0, 1, 0));
}

#[test]
fn scan_single_tree() {
    let store = vec![compress(b"tree 30\0100644 a")];
    assert_eq!(scan_store(&store), counts(0, 1, 0, 0));
}

#[test]
fn scan_single_tag() {
    let store = vec![compress(b"tag 9\0object x")];
    assert_eq!(scan_store(&store), counts(0, 0, 0, 1));
}

#[test]
fn invalid_stream_is_io_error() {
    let junk = vec![0x13u8, 0x37, 0xde, 0xad, 0xbe, 0xef, 0x01, 0x02];
    assert_eq!(classify_bytes(&junk), Outcome::IoError);
    assert_eq!(scan_store(&vec![junk]), counts(0, 0, 0, 0));
}

#[test]
fn unrecognized_token_is_malformed() {
    let data = compress(b"widget 3\0xyz");
    assert_eq!(classify_bytes(&data), Outcome::Malformed);
    assert_eq!(scan_store(&vec![data]), counts(0, 0, 0, 0));
}

#[test]
fn size_field_is_never_validated() {
    let store = vec![compress(b"blob notanumber\0payload")];
    assert_eq!(scan_store(&store), counts(1, 0, 0, 0));
}

#[test]
fn missing_null_is_malformed() {
    let data = compress(b"blob 4");
    assert_eq!(classify_bytes(&data), Outcome::Malformed);
}

#[test]
fn null_outside_window_is_malformed() {
    let mut long = b"blob 99999".to_vec();
    long.extend(std::iter::repeat(b'a').take(2000));
    long.push(0);
    let data = compress(&long);
    assert_eq!(classify_bytes(&data), Outcome::Malformed);
}

#[test]
fn truncated_stream_is_io_error() {
    let mut data = compress(b"blob 5\0hello");
    data.truncate(data.len() / 2);
    assert_eq!(classify_bytes(&data), Outcome::IoError);
}

#[test]
fn one_corrupt_file_does_not_abort_the_scan() {
    let mut truncated = compress(b"blob 11\0lorem ipsum");
    truncated.truncate(3);
    let store = vec![
        compress(b"blob 5\0hello"),
        truncated,
        compress(b"commit 42\0tree ffff\0"),
        compress(b"tree 8\0e"),
    ];
    assert_eq!(scan_store(&store), counts(1, 1, 1, 0));
}

#[test]
fn scan_is_idempotent() {
    let store = vec![
        compress(b"blob 1\0a"),
        compress(b"tag 2\0bb"),
        vec![0xffu8, 0x00],
    ];
    let first = scan_store(&store);
    let second = scan_store(&store);
    assert_eq!(first, second);
    assert_eq!(first, counts(1, 0, 0, 1));
}

#[test]
fn scan_is_order_independent() {
    let a = compress(b"blob 1\0a");
    let b = compress(b"tree 1\0b");
    let c = compress(b"commit 1\0c");
    let d = compress(b"nonsense\0");
    let one = vec![a.clone(), b.clone(), c.clone(), d.clone()];
    let two = vec![d, c, a, b];
    assert_eq!(scan_store(&one), scan_store(&two));
}

#[test]
fn empty_store_counts_nothing() {
    let store: Vec<Vec<u8>> = Vec::new();
    assert_eq!(scan_store(&store), counts(0, 0, 0, 0));
}

#[test]
fn strategies_agree_on_a_loose_only_store() {
    let store = vec![
        compress(b"blob 5\0hello"),
        compress(b"tree 8\0e"),
        compress(b"commit 42\0tree ffff\0"),
        compress(b"tag 9\0object x"),
        compress(b"blob 0\0"),
    ];
    let reported = vec![
        ObjectKind::Tag,
        ObjectKind::Blob,
        ObjectKind::Commit,
        ObjectKind::Blob,
        ObjectKind::Tree,
    ];
    assert_eq!(scan_store(&store), tally_kinds(&reported));
}

#[test]
fn classify_header_matches_each_token() {
    assert_eq!(classify_header(&b"blob 5\0".to_vec()), Some(ObjectKind::Blob));
    assert_eq!(classify_header(&b"tree 1\0".to_vec()), Some(ObjectKind::Tree));
    assert_eq!(classify_header(&b"commit 1\0".to_vec()), Some(ObjectKind::Commit));
    assert_eq!(classify_header(&b"tag 1\0".to_vec()), Some(ObjectKind::Tag));
    assert_eq!(classify_header(&b"taggy 1\0".to_vec()), Some(ObjectKind::Tag));
    assert_eq!(classify_header(&b"treasure\0".to_vec()), None);
    assert_eq!(classify_header(&b"commitment\0".to_vec()), Some(ObjectKind::Commit));
    assert_eq!(classify_header(&b"BLOB 5\0".to_vec()), None);
    assert_eq!(classify_header(&b"blo\0b".to_vec()), None);
    assert_eq!(classify_header(&b"".to_vec()), None);
}

#[test]
fn tally_counts_only_recognized_outcomes() {
    let outcomes = vec![
        Outcome::Recognized(ObjectKind::Blob),
        Outcome::IoError,
        Outcome::Recognized(ObjectKind::Blob),
        Outcome::Malformed,
        Outcome::Recognized(ObjectKind::Tag),
    ];
    assert_eq!(tally(&outcomes), counts(2, 0, 0, 1));
}
