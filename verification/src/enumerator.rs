//! The enumeration of the host's connection table: what is asked of the
//! host, how its answers are read, and the search of a page for a path.
//!
//! The enumeration fails open. An answer that is no page, or a page that
//! cannot be decoded, ends it without a match: a caller then goes on as if
//! the path were not connected.

use vstd::prelude::*;
use crate::path_matcher::path_matches;
use crate::record::{decode_record, record_at, AddressWidth};

verus! {

/// The status with which the host reports success.
pub const STATUS_SUCCESS: u32 = 0;

/// The status with which the host reports that an enumeration is exhausted.
pub const STATUS_NO_MORE_ITEMS: u32 = 259;

/// The scope that selects the resources that are connected now.
pub const SCOPE_CONNECTED: u32 = 1;

/// The resource type of a disk share.
pub const TYPE_DISK: u32 = 1;

/// The size of the buffer that one page is fetched into.
pub const PAGE_BYTES: u32 = 16384;

/// The entry count that asks for as many entries as the buffer takes.
pub const ALL_ENTRIES: u32 = 0xFFFF_FFFF;

/// What the host is asked when the enumeration is opened.
#[derive(Clone, Copy, Debug, PartialEq, Eq, Structural)]
pub struct EnumerationRequest {
    pub scope: u32,
    pub resource_type: u32,
    pub usage: u32,
}

/// What the host is asked for each page.
#[derive(Clone, Copy, Debug, PartialEq, Eq, Structural)]
pub struct PageRequest {
    pub capacity: u32,
    pub entries: u32,
}

/// How the host answered a request for a page.
#[derive(Clone, Copy, Debug, PartialEq, Eq, Structural)]
pub enum PageStatus {
    /// A page was delivered.
    Delivered,
    /// The table holds no more entries.
    Exhausted,
    /// The request failed.
    Failed,
}

/// What the search of one page for a path found.
#[derive(Clone, Copy, Debug, PartialEq, Eq, Structural)]
pub enum PageScan {
    /// A record of the page names the path.
    Found,
    /// The page was read to its end and no record names the path.
    Absent,
    /// A record could not be decoded before any record named the path.
    Malformed,
}

/// The request that opens the enumeration: connected resources, disks only.
pub fn enumeration_request() -> (request: EnumerationRequest)
    ensures
        request == (EnumerationRequest {
            scope: SCOPE_CONNECTED,
            resource_type: TYPE_DISK,
            usage: 0,
        }),
{
    EnumerationRequest { scope: SCOPE_CONNECTED, resource_type: TYPE_DISK, usage: 0 }
}

/// The request for one page: a buffer of `PAGE_BYTES`, filled with as many
/// entries as fit.
pub fn page_request() -> (request: PageRequest)
    ensures
        request == (PageRequest { capacity: PAGE_BYTES, entries: ALL_ENTRIES }),
{
    PageRequest { capacity: PAGE_BYTES, entries: ALL_ENTRIES }
}

/// Whether a status reports that the host did what it was asked.
pub fn succeeded(status: u32) -> (done: bool)
    ensures
        done == (status == STATUS_SUCCESS),
{
    status == STATUS_SUCCESS
}

/// How a status answers a request for a page.
pub open spec fn page_status_of(status: u32) -> PageStatus {
    if status == STATUS_SUCCESS {
        PageStatus::Delivered
    } else if status == STATUS_NO_MORE_ITEMS {
        PageStatus::Exhausted
    } else {
        PageStatus::Failed
    }
}

/// Reads the status with which the host answered a request for a page.
pub fn page_status(status: u32) -> (answer: PageStatus)
    ensures
        answer == page_status_of(status),
{
    if status == STATUS_SUCCESS {
        PageStatus::Delivered
    } else if status == STATUS_NO_MORE_ITEMS {
        PageStatus::Exhausted
    } else {
        PageStatus::Failed
    }
}

/// Whether the record at `index` names the path `target`.
pub open spec fn names_at(
    page: Seq<u8>,
    origin: int,
    width: AddressWidth,
    target: Seq<char>,
    index: int,
) -> bool {
    match record_at(page, origin, index, width) {
        Ok(Some(record)) => path_matches(target, record.remote_path),
        _ => false,
    }
}

/// Whether the record at `index` cannot be decoded.
pub open spec fn broken_at(page: Seq<u8>, origin: int, width: AddressWidth, index: int) -> bool {
    record_at(page, origin, index, width) is Err
}

/// Whether every record before `index` can be decoded.
pub open spec fn sound_before(page: Seq<u8>, origin: int, width: AddressWidth, index: int) -> bool {
    forall|earlier: int| 0 <= earlier < index ==> !#[trigger] broken_at(page, origin, width, earlier)
}

/// Whether one of the first `count` records names the path, and every record
/// before it can be decoded.
pub open spec fn page_names(
    page: Seq<u8>,
    origin: int,
    count: int,
    width: AddressWidth,
    target: Seq<char>,
) -> bool {
    exists|index: int|
        0 <= index < count && #[trigger] names_at(page, origin, width, target, index)
            && sound_before(page, origin, width, index)
}

/// Whether one of the first `count` records cannot be decoded.
pub open spec fn page_broken(page: Seq<u8>, origin: int, count: int, width: AddressWidth) -> bool {
    exists|index: int| 0 <= index < count && #[trigger] broken_at(page, origin, width, index)
}

/// What the search of a page for `target` finds. Records are read in order,
/// and the search ends at the first that names the path or cannot be decoded.
#[verifier::opaque]
pub open spec fn scan_of(
    page: Seq<u8>,
    origin: int,
    count: int,
    width: AddressWidth,
    target: Seq<char>,
) -> PageScan {
    if page_names(page, origin, count, width, target) {
        PageScan::Found
    } else if page_broken(page, origin, count, width) {
        PageScan::Malformed
    } else {
        PageScan::Absent
    }
}

/// Searches the first `count` records of a page for one that names `target`.
/// `origin` is the address at which the page's first byte stood when the
/// host filled it. A record without a remote name is passed over.
pub fn scan_page(page: &[u8], origin: u64, count: u32, width: AddressWidth, target: &str) -> (scan:
    PageScan)
    ensures
        scan == scan_of(page@, origin as int, count as int, width, target@),
{
    let mut index: u32 = 0;
    while index < count
        invariant
            index <= count,
            forall|earlier: int|
                0 <= earlier < index ==> !#[trigger] broken_at(page@, origin as int, width, earlier),
            forall|earlier: int|
                0 <= earlier < index ==> !#[trigger] names_at(
                    page@,
                    origin as int,
                    width,
                    target@,
                    earlier,
                ),
        decreases count - index,
    {
        match decode_record(page, origin, index, width) {
            Err(_) => {
                proof {
                    reveal(scan_of);
                    assert(broken_at(page@, origin as int, width, index as int));
                }
                return PageScan::Malformed;
            },
            Ok(None) => {},
            Ok(Some(record)) => {
                if crate::path_matcher::matches(target, record.remote_path.as_str()) {
                    proof {
                        reveal(scan_of);
                        assert(names_at(page@, origin as int, width, target@, index as int));
                    }
                    return PageScan::Found;
                }
            },
        }
        index = index + 1;
    }
    proof {
        reveal(scan_of);
    }
    PageScan::Absent
}

} // verus!
