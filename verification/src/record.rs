//! Decoding of one page of the host's connection table.
//!
//! A page is a run of bytes that the host filled: fixed-size records at its
//! start, and behind them the wide strings that the records point to by
//! address. Every read is checked against the page's bounds.

use vstd::prelude::*;
use crate::wide::{wcstr_to_string, wide_text, WideError};

verus! {

/// How wide an address is in the records of a page.
#[derive(Clone, Copy, Debug, PartialEq, Eq, Structural)]
pub enum AddressWidth {
    Bits32,
    Bits64,
}

impl AddressWidth {
    /// The number of bytes that an address takes.
    pub open spec fn bytes(self) -> int {
        match self {
            AddressWidth::Bits32 => 4,
            AddressWidth::Bits64 => 8,
        }
    }

    /// The width of the addresses of the machine that runs this code.
    pub fn native() -> (width: AddressWidth)
        ensures
            width == (if usize::BITS == 64 {
                AddressWidth::Bits64
            } else {
                AddressWidth::Bits32
            }),
    {
        if usize::BITS == 64 {
            AddressWidth::Bits64
        } else {
            AddressWidth::Bits32
        }
    }
}

/// The size of one record: four 32-bit numbers, then four addresses.
pub open spec fn record_size(width: AddressWidth) -> int {
    16 + 4 * width.bytes()
}

/// Where in a record the address of the remote name stands.
pub open spec fn remote_name_field(width: AddressWidth) -> int {
    16 + width.bytes()
}

/// Where in a record the address of the comment stands.
pub open spec fn comment_field(width: AddressWidth) -> int {
    16 + 2 * width.bytes()
}

/// Where in a record the address of the provider's name stands.
pub open spec fn provider_field(width: AddressWidth) -> int {
    16 + 3 * width.bytes()
}

/// The 32-bit number that four bytes hold, the lowest byte first.
pub open spec fn u32_at(bytes: Seq<u8>, at: int) -> int
    recommends
        0 <= at,
        at + 4 <= bytes.len(),
{
    bytes[at] as int + 256 * (bytes[at + 1] as int) + 65536 * (bytes[at + 2] as int) + 16777216 * (
    bytes[at + 3] as int)
}

/// The address that stands at byte `at`, the lowest byte first.
pub open spec fn address_at(bytes: Seq<u8>, at: int, width: AddressWidth) -> int
    recommends
        0 <= at,
        at + width.bytes() <= bytes.len(),
{
    match width {
        AddressWidth::Bits32 => u32_at(bytes, at),
        AddressWidth::Bits64 => u32_at(bytes, at) + 4294967296 * u32_at(bytes, at + 4),
    }
}

/// One record of a page as it stands there: four numbers and four
/// addresses, of which zero means that there is no string.
#[derive(Clone, Copy, Debug, PartialEq, Eq, Structural)]
pub struct RawRecord {
    pub scope: u32,
    pub resource_type: u32,
    pub display_type: u32,
    pub usage: u32,
    pub local_name: u64,
    pub remote_name: u64,
    pub comment: u64,
    pub provider: u64,
}

/// The record at `index` of a page, or `None` where the page ends before
/// the record does.
pub open spec fn raw_record_at(page: Seq<u8>, index: int, width: AddressWidth) -> Option<RawRecord> {
    let start = index * record_size(width);
    if start + record_size(width) > page.len() {
        None
    } else {
        Some(
            RawRecord {
                scope: u32_at(page, start) as u32,
                resource_type: u32_at(page, start + 4) as u32,
                display_type: u32_at(page, start + 8) as u32,
                usage: u32_at(page, start + 12) as u32,
                local_name: address_at(page, start + 16, width) as u64,
                remote_name: address_at(page, start + remote_name_field(width), width) as u64,
                comment: address_at(page, start + comment_field(width), width) as u64,
                provider: address_at(page, start + provider_field(width), width) as u64,
            },
        )
    }
}

/// One entry of the connection table that names a remote path.
#[derive(Clone, Debug)]
pub struct ConnectionRecord {
    pub remote_path: String,
    pub provider: Option<String>,
    pub display_type: u32,
    pub usage: u32,
    pub scope: u32,
}

/// What a `ConnectionRecord` holds, as plain values.
pub struct ConnectionRecordView {
    pub remote_path: Seq<char>,
    pub provider: Option<Seq<char>>,
    pub display_type: u32,
    pub usage: u32,
    pub scope: u32,
}

impl View for ConnectionRecord {
    type V = ConnectionRecordView;

    open spec fn view(&self) -> ConnectionRecordView {
        ConnectionRecordView {
            remote_path: self.remote_path@,
            provider: match self.provider {
                Some(name) => Some(name@),
                None => None,
            },
            display_type: self.display_type,
            usage: self.usage,
            scope: self.scope,
        }
    }
}

/// Why a record could not be decoded.
#[derive(Clone, Copy, Debug, PartialEq, Eq, Structural)]
pub enum RecordError {
    /// The page ends before the record does.
    Truncated,
    /// The remote name's address lies outside the page.
    NameOutsidePage,
    /// The page ends before the remote name does.
    NameUnterminated,
    /// The remote name is not well-formed UTF-16.
    NameMalformed,
}

/// The byte of the page that an address points to, if it points into the page.
pub open spec fn offset_in_page(len: int, origin: int, address: int) -> Option<int> {
    if origin <= address && address - origin < len {
        Some(address - origin)
    } else {
        None
    }
}

/// The provider's name of a record. It is informative only: one that cannot
/// be read counts as absent.
pub open spec fn provider_at(page: Seq<u8>, origin: int, address: int) -> Option<Seq<char>> {
    if address == 0 {
        None
    } else {
        match offset_in_page(page.len() as int, origin, address) {
            None => None,
            Some(at) => match wide_text(page, at) {
                Ok(text) => Some(text),
                Err(_) => None,
            },
        }
    }
}

/// What a record decodes to, in a page whose first byte stood at the
/// address `origin`: an error, a record without a remote name (`Ok(None)`),
/// or a named record.
pub open spec fn named_record(page: Seq<u8>, origin: int, raw: RawRecord) -> Result<
    Option<ConnectionRecordView>,
    RecordError,
> {
    if raw.remote_name == 0 {
        Ok(None)
    } else {
        match offset_in_page(page.len() as int, origin, raw.remote_name as int) {
            None => Err(RecordError::NameOutsidePage),
            Some(at) => match wide_text(page, at) {
                Err(WideError::Unterminated) => Err(RecordError::NameUnterminated),
                Err(WideError::Malformed) => Err(RecordError::NameMalformed),
                Ok(path) => Ok(
                    Some(
                        ConnectionRecordView {
                            remote_path: path,
                            provider: provider_at(page, origin, raw.provider as int),
                            display_type: raw.display_type,
                            usage: raw.usage,
                            scope: raw.scope,
                        },
                    ),
                ),
            },
        }
    }
}

/// What the record at `index` of a page decodes to.
pub open spec fn record_at(page: Seq<u8>, origin: int, index: int, width: AddressWidth) -> Result<
    Option<ConnectionRecordView>,
    RecordError,
> {
    match raw_record_at(page, index, width) {
        None => Err(RecordError::Truncated),
        Some(raw) => named_record(page, origin, raw),
    }
}

fn read_u32(bytes: &[u8], at: usize) -> (value: u32)
    requires
        at + 4 <= bytes.len(),
    ensures
        value == u32_at(bytes@, at as int),
{
    let low: u32 = bytes[at] as u32 + 256 * (bytes[at + 1] as u32);
    let high: u32 = bytes[at + 2] as u32 + 256 * (bytes[at + 3] as u32);
    low + 65536 * high
}

fn read_address(bytes: &[u8], at: usize, width: AddressWidth) -> (address: u64)
    requires
        at + width.bytes() <= bytes.len(),
    ensures
        address == address_at(bytes@, at as int, width),
{
    match width {
        AddressWidth::Bits32 => read_u32(bytes, at) as u64,
        AddressWidth::Bits64 => {
            let low = read_u32(bytes, at) as u64;
            let high = read_u32(bytes, at + 4) as u64;
            low + 4294967296 * high
        },
    }
}

/// The byte of a page of `len` bytes that an address points to.
pub fn locate(len: usize, origin: u64, address: u64) -> (at: Option<usize>)
    ensures
        match at {
            Some(offset) => offset_in_page(len as int, origin as int, address as int) == Some(
                offset as int,
            ),
            None => offset_in_page(len as int, origin as int, address as int) is None,
        },
{
    if address < origin {
        None
    } else {
        let offset = address - origin;
        if offset < len as u64 {
            Some(offset as usize)
        } else {
            None
        }
    }
}

fn read_provider(page: &[u8], origin: u64, address: u64) -> (provider: Option<String>)
    ensures
        match provider {
            Some(name) => provider_at(page@, origin as int, address as int) == Some(name@),
            None => provider_at(page@, origin as int, address as int) is None,
        },
{
    if address == 0 {
        return None;
    }
    match locate(page.len(), origin, address) {
        None => None,
        Some(at) => match wcstr_to_string(page, at) {
            Ok(name) => Some(name),
            Err(_) => None,
        },
    }
}

/// Reads the record at `index` of a page, checked against the page's end.
pub fn read_record(page: &[u8], index: u32, width: AddressWidth) -> (raw: Option<RawRecord>)
    ensures
        raw == raw_record_at(page@, index as int, width),
{
    let (size, step): (u64, usize) = match width {
        AddressWidth::Bits32 => (32, 4),
        AddressWidth::Bits64 => (48, 8),
    };
    let first: u64 = match width {
        AddressWidth::Bits32 => index as u64 * 32,
        AddressWidth::Bits64 => index as u64 * 48,
    };
    if first + size > page.len() as u64 {
        return None;
    }
    let start = first as usize;
    Some(
        RawRecord {
            scope: read_u32(page, start),
            resource_type: read_u32(page, start + 4),
            display_type: read_u32(page, start + 8),
            usage: read_u32(page, start + 12),
            local_name: read_address(page, start + 16, width),
            remote_name: read_address(page, start + 16 + step, width),
            comment: read_address(page, start + 16 + 2 * step, width),
            provider: read_address(page, start + 16 + 3 * step, width),
        },
    )
}

/// Reads the names that a record points to, in a page whose first byte stood
/// at the address `origin` when the host filled it.
pub fn name_record(page: &[u8], origin: u64, raw: RawRecord) -> (decoded: Result<
    Option<ConnectionRecord>,
    RecordError,
>)
    ensures
        match decoded {
            Ok(Some(record)) => named_record(page@, origin as int, raw) == Ok::<
                Option<ConnectionRecordView>,
                RecordError,
            >(Some(record@)),
            Ok(None) => named_record(page@, origin as int, raw) == Ok::<
                Option<ConnectionRecordView>,
                RecordError,
            >(None),
            Err(e) => named_record(page@, origin as int, raw) == Err::<
                Option<ConnectionRecordView>,
                RecordError,
            >(e),
        },
{
    if raw.remote_name == 0 {
        return Ok(None);
    }
    let at = match locate(page.len(), origin, raw.remote_name) {
        None => {
            return Err(RecordError::NameOutsidePage);
        },
        Some(at) => at,
    };
    let remote_path = match wcstr_to_string(page, at) {
        Err(WideError::Unterminated) => {
            return Err(RecordError::NameUnterminated);
        },
        Err(WideError::Malformed) => {
            return Err(RecordError::NameMalformed);
        },
        Ok(path) => path,
    };
    let provider = read_provider(page, origin, raw.provider);
    Ok(
        Some(
            ConnectionRecord {
                remote_path,
                provider,
                display_type: raw.display_type,
                usage: raw.usage,
                scope: raw.scope,
            },
        ),
    )
}

/// Decodes the record at `index` of a page whose first byte stood at the
/// address `origin` when the host filled it.
pub fn decode_record(page: &[u8], origin: u64, index: u32, width: AddressWidth) -> (decoded: Result<
    Option<ConnectionRecord>,
    RecordError,
>)
    ensures
        match decoded {
            Ok(Some(record)) => record_at(page@, origin as int, index as int, width) == Ok::<
                Option<ConnectionRecordView>,
                RecordError,
            >(Some(record@)),
            Ok(None) => record_at(page@, origin as int, index as int, width) == Ok::<
                Option<ConnectionRecordView>,
                RecordError,
            >(None),
            Err(e) => record_at(page@, origin as int, index as int, width) == Err::<
                Option<ConnectionRecordView>,
                RecordError,
            >(e),
        },
{
    match read_record(page, index, width) {
        None => Err(RecordError::Truncated),
        Some(raw) => name_record(page, origin, raw),
    }
}

} // verus!
