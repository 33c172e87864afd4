//! A road-graph tile engine: read access to a hierarchical, tiled routing
//! graph together with a mutable live-traffic overlay aligned with it.
//!
//! The crate decodes graph tiles and traffic tiles out of POSIX tar archives,
//! exposes typed navigation over nodes, directed edges and hierarchy
//! transitions, resolves edge speeds from several sources, evaluates per-mode
//! costing predicates, and prepares and classifies requests for a routing
//! backend. All archive and record layouts are fixed binary formats; the
//! accessors and codecs here are specified and verified against them.
use vstd::prelude::*;
use vstd::slice::slice_index_get;

pub mod access;
pub mod actor;
pub mod bytes;
pub mod config;
pub mod costing;
pub mod graphid;
pub mod json;
pub mod reader;
pub mod records;
pub mod speed;
pub mod tar;
pub mod text;
pub mod tile;
pub mod traffic;

verus! {

/// Errors surfaced by the tile engine.
#[derive(Clone, Copy, PartialEq, Eq, Structural, Debug)]
pub enum Error {
    /// Configuration is missing a required entry or is malformed.
    ConfigError,
    /// An archive is malformed or one of its member names cannot be read.
    ArchiveError,
    /// No tile with the requested identifier exists in the archive.
    TileNotFound,
    /// A by-index accessor was called with an index past the cardinality.
    OutOfRange,
    /// A record taken from one tile was handed to another tile's accessor.
    WrongTile,
    /// A request document could not be lowered to the typed request form.
    ParseError,
    /// The routing backend rejected the request.
    BackendError,
    /// A read or write on the underlying storage failed.
    IoError,
}

/// Relies on `core::ptr::eq`: a true result means the two references carry
/// the same address, and one address holds one value.
#[verifier::external_body]
fn same_address<T>(a: &T, b: &T) -> (r: bool)
    ensures
        r ==> a == b,
{
    core::ptr::eq(a, b)
}

/// Whether `item` is a reference to one of `slice`'s own elements. The
/// check is by address: a reference to an equal value stored elsewhere is
/// not within the slice.
pub fn ref_within_slice<T>(slice: &[T], item: &T) -> (r: bool)
    ensures
        r ==> exists|i: int| 0 <= i < slice@.len() && slice@[i] == *item,
{
    let n = slice.len();
    let mut k: usize = 0;
    while k < n
        invariant
            n == slice@.len(),
            k <= n,
        decreases n - k,
    {
        if same_address(slice_index_get(slice, k), item) {
            proof {
                assert(0 <= k < slice@.len() && slice@[k as int] == *item);
            }
            return true;
        }
        k = k + 1;
    }
    false
}

} // verus!
