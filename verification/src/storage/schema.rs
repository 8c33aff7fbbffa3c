//! Exact manager schema identity: the database header, the schema check,
//! and the layouts storage recognizes; foreign or future databases are
//! never configured.
use super::StorageError;
use vstd::prelude::*;

verus! {

/// The SQLite `application_id` of manager databases (`HBM1`).
pub const APPLICATION_ID: u32 = 0x48424d31;

/// The schema version this storage writes.
pub const VERSION: u32 = 2;

/// The page size of manager databases.
pub const PAGE_SIZE: u32 = 4096;

/// Most pages a manager database may hold.
pub const MAX_PAGES: u32 = 16384;

/// WAL length at which a write first checkpoints.
pub const WAL_TRIGGER: u32 = 4194304;

/// Largest WAL storage accepts: the trigger plus one full database of
/// frames and the WAL header.
pub const WAL_BOUND: u64 = 71696416;

/// The 16 bytes every SQLite database starts with: `SQLite format 3\0`.
pub open spec fn sqlite_magic() -> Seq<u8> {
    seq![83u8, 81, 76, 105, 116, 101, 32, 102, 111, 114, 109, 97, 116, 32, 51, 0]
}

/// A big-endian 32-bit field of the header at `at`.
pub open spec fn be32(h: Seq<u8>, at: int) -> nat {
    (h[at] as nat) * 16777216 + (h[at + 1] as nat) * 65536 + (h[at + 2] as nat) * 256 + (h[at
        + 3] as nat)
}

/// The schema version a database file's length and first 100 bytes show:
/// a length outside one page-sized header to the page bound is corrupt; a
/// file that is not SQLite, or another application's, is foreign; a newer
/// version is from the future; version 0 or a page size other than 4096 is
/// corrupt.
pub open spec fn header_version(length: u64, h: Seq<u8>) -> Result<u32, StorageError> {
    if length > (MAX_PAGES as nat) * (PAGE_SIZE as nat) || length < 100 {
        Err(StorageError::CorruptDatabase)
    } else if h.take(16) != sqlite_magic() {
        Err(StorageError::ForeignDatabase)
    } else if be32(h, 68) != APPLICATION_ID {
        Err(StorageError::ForeignDatabase)
    } else if be32(h, 60) > VERSION {
        Err(StorageError::FutureSchema)
    } else if be32(h, 60) < 1 || (h[16] as nat) * 256 + (h[17] as nat) != PAGE_SIZE {
        Err(StorageError::CorruptDatabase)
    } else {
        Ok(be32(h, 60) as u32)
    }
}

fn be32_at(h: &[u8; 100], at: usize) -> (r: u64)
    requires
        at + 4 <= 100,
    ensures
        r == be32(h@, at as int),
{
    (h[at] as u64) * 16777216 + (h[at + 1] as u64) * 65536 + (h[at + 2] as u64) * 256 + (h[at
        + 3] as u64)
}

/// Reads the schema version from a database file's length and header.
pub fn header(length: u64, h: &[u8; 100]) -> (r: Result<u32, StorageError>)
    ensures
        r == header_version(length, h@),
{
    if length > (MAX_PAGES as u64) * (PAGE_SIZE as u64) || length < 100 {
        return Err(StorageError::CorruptDatabase);
    }
    let magic = h[0] == 83 && h[1] == 81 && h[2] == 76 && h[3] == 105 && h[4] == 116 && h[5]
        == 101 && h[6] == 32 && h[7] == 102 && h[8] == 111 && h[9] == 114 && h[10] == 109 && h[11]
        == 97 && h[12] == 116 && h[13] == 32 && h[14] == 51 && h[15] == 0;
    proof {
        assert(h@.len() == 100);
        if magic {
            assert(h@.take(16) =~= sqlite_magic());
        } else if h@.take(16) == sqlite_magic() {
            assert(h@.take(16)[0] == h@[0] && h@.take(16)[1] == h@[1] && h@.take(16)[2] == h@[2]);
            assert(h@.take(16)[3] == h@[3] && h@.take(16)[4] == h@[4] && h@.take(16)[5] == h@[5]);
            assert(h@.take(16)[6] == h@[6] && h@.take(16)[7] == h@[7] && h@.take(16)[8] == h@[8]);
            assert(h@.take(16)[9] == h@[9] && h@.take(16)[10] == h@[10] && h@.take(16)[11]
                == h@[11]);
            assert(h@.take(16)[12] == h@[12] && h@.take(16)[13] == h@[13] && h@.take(16)[14]
                == h@[14] && h@.take(16)[15] == h@[15]);
        }
    }
    if !magic {
        return Err(StorageError::ForeignDatabase);
    }
    if be32_at(h, 68) != APPLICATION_ID as u64 {
        return Err(StorageError::ForeignDatabase);
    }
    let version = be32_at(h, 60);
    if version > VERSION as u64 {
        return Err(StorageError::FutureSchema);
    }
    if version < 1 || (h[16] as u64) * 256 + (h[17] as u64) != PAGE_SIZE as u64 {
        return Err(StorageError::CorruptDatabase);
    }
    Ok(version as u32)
}

/// The verdict of the schema check on an open database, from what SQLite
/// reports: its application id and user version, whether its tables are
/// exactly the expected ones, its quick check, page size and page count.
pub open spec fn inspection(
    application: i64,
    version: i64,
    tables_match: bool,
    integrity: Seq<char>,
    page_size: u32,
    pages: u32,
) -> Result<i64, StorageError> {
    if application != APPLICATION_ID {
        Err(StorageError::ForeignDatabase)
    } else if version > VERSION {
        Err(StorageError::FutureSchema)
    } else if version < 1 {
        Err(StorageError::CorruptDatabase)
    } else if !tables_match {
        Err(StorageError::ForeignDatabase)
    } else if integrity != "ok"@ {
        Err(StorageError::CorruptDatabase)
    } else if page_size != PAGE_SIZE || pages > MAX_PAGES {
        Err(StorageError::ResourceExhausted)
    } else {
        Ok(version)
    }
}

/// Decides `inspection`. The version is checked first, so the tables are
/// compared only for a recognized version.
pub fn inspect(
    application: i64,
    version: i64,
    tables_match: bool,
    integrity: &str,
    page_size: u32,
    pages: u32,
) -> (r: Result<i64, StorageError>)
    ensures
        r == inspection(application, version, tables_match, integrity@, page_size, pages),
{
    if application != APPLICATION_ID as i64 {
        return Err(StorageError::ForeignDatabase);
    }
    if version > VERSION as i64 {
        return Err(StorageError::FutureSchema);
    }
    if version < 1 {
        return Err(StorageError::CorruptDatabase);
    }
    if !tables_match {
        return Err(StorageError::ForeignDatabase);
    }
    if !crate::text::str_eq(integrity, "ok") {
        return Err(StorageError::CorruptDatabase);
    }
    if page_size != PAGE_SIZE || pages > MAX_PAGES {
        return Err(StorageError::ResourceExhausted);
    }
    Ok(version)
}

/// What the WAL length asks of a write: refused beyond the bound, a
/// checkpoint first at or past the trigger, else nothing.
pub open spec fn wal_pressure(length: u64) -> Result<bool, StorageError> {
    if length > WAL_BOUND {
        Err(StorageError::ResourceExhausted)
    } else {
        Ok(length >= WAL_TRIGGER)
    }
}

/// Decides `wal_pressure`: whether to checkpoint before writing.
pub fn pressure(length: u64) -> (r: Result<bool, StorageError>)
    ensures
        r == wal_pressure(length),
{
    if length > WAL_BOUND {
        return Err(StorageError::ResourceExhausted);
    }
    Ok(length >= WAL_TRIGGER as u64)
}

} // verus!
