//! Census of a version-control object store: classify each loose-object
//! file by the type token of its decompressed header and tally the four
//! recognized kinds (blob, tree, commit, tag).

pub mod counts;
pub mod header;
pub mod inflate;
pub mod laws;
pub mod scan;

pub use counts::Counts;
pub use counts::ObjectKind;
pub use counts::Outcome;
pub use header::classify_header;
pub use scan::classify_bytes;
pub use scan::scan_store;
pub use scan::tally;
pub use scan::tally_kinds;
pub use scan::HEADER_WINDOW;
