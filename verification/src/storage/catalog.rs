//! Catalog writes: projects, launch presets and tasks. A write of a record
//! that is already stored returns it; one that differs from the stored record
//! under the same key is a conflict; a new record needs room in its table.
use super::sequencing::capacity;
use super::StorageError;
use crate::text::{same_bytes, str_eq};
use vstd::prelude::*;

verus! {

/// A project: a local root with its label and the identity of the root
/// directory when it was registered.
pub struct ProjectRecord {
    pub id: String,
    pub root: String,
    pub label: String,
    pub identity: Vec<u8>,
}

/// A launch preset: a named executable with a profile.
pub struct PresetRecord {
    pub name: String,
    pub executable: String,
    pub profile: String,
    pub identity: Vec<u8>,
}

/// A task: a label in a project, launched with a preset.
pub struct TaskRecord {
    pub id: String,
    pub project_id: String,
    pub preset: String,
    pub label: String,
}

/// What a catalog write does.
#[derive(Clone, Copy, Debug, PartialEq, Eq, Structural)]
pub enum CatalogWrite {
    /// The stored record is returned as it is.
    Existing,
    /// A new record is inserted and the revision advances.
    Create,
}

/// The outcome of a write under a key: the stored record when it is the same
/// as the one written, a conflict when it differs, otherwise a new record if
/// `count` stored records leave room under `limit`.
pub open spec fn keyed_write(stored: Option<bool>, count: u64, limit: u64) -> Result<
    CatalogWrite,
    StorageError,
> {
    match stored {
        Some(same) => if same {
            Ok(CatalogWrite::Existing)
        } else {
            Err(StorageError::Conflict)
        },
        None => if count + 1 > limit {
            Err(StorageError::ResourceExhausted)
        } else {
            Ok(CatalogWrite::Create)
        },
    }
}

fn keyed(stored: Option<bool>, count: u64, limit: u64) -> (r: Result<CatalogWrite, StorageError>)
    ensures
        r == keyed_write(stored, count, limit),
{
    match stored {
        Some(same) => if same {
            Ok(CatalogWrite::Existing)
        } else {
            Err(StorageError::Conflict)
        },
        None => {
            capacity(count, limit, 1)?;
            Ok(CatalogWrite::Create)
        },
    }
}

/// Registering the root of `existing` (the project stored under that root,
/// if any) with `label` and the root's current `identity`, beside `count`
/// stored projects under `limit`.
pub fn project_decision(
    existing: Option<&ProjectRecord>,
    label: &str,
    identity: &[u8],
    count: u64,
    limit: u64,
) -> (r: Result<CatalogWrite, StorageError>)
    ensures
        r == keyed_write(
            match existing {
                Some(p) => Some(p.label@ == label@ && p.identity@ == identity@),
                None => None,
            },
            count,
            limit,
        ),
{
    let stored = match existing {
        Some(p) => Some(str_eq(p.label.as_str(), label) && same_bytes(p.identity.as_slice(), identity)),
        None => None,
    };
    keyed(stored, count, limit)
}

/// Every field of two presets is the same.
pub open spec fn same_preset(a: &PresetRecord, b: &PresetRecord) -> bool {
    a.name@ == b.name@ && a.executable@ == b.executable@ && a.profile@ == b.profile@
        && a.identity@ == b.identity@
}

/// Registering `record` under its name, where `existing` is the preset
/// stored under that name, beside `count` stored presets under `limit`.
pub fn preset_decision(
    existing: Option<&PresetRecord>,
    record: &PresetRecord,
    count: u64,
    limit: u64,
) -> (r: Result<CatalogWrite, StorageError>)
    ensures
        r == keyed_write(
            match existing {
                Some(p) => Some(same_preset(p, record)),
                None => None,
            },
            count,
            limit,
        ),
{
    let stored = match existing {
        Some(p) => Some(
            str_eq(p.name.as_str(), record.name.as_str()) && str_eq(
                p.executable.as_str(),
                record.executable.as_str(),
            ) && str_eq(p.profile.as_str(), record.profile.as_str()) && same_bytes(
                p.identity.as_slice(),
                record.identity.as_slice(),
            ),
        ),
        None => None,
    };
    keyed(stored, count, limit)
}

/// Adding a task with `preset` to a project: both the project and the preset
/// must exist; `existing` is the task stored under the same project and
/// label, which is kept only if it has the same preset; `count` tasks are
/// stored under `limit`.
pub fn task_decision(
    project_exists: bool,
    preset_exists: bool,
    existing: Option<&TaskRecord>,
    preset: &str,
    count: u64,
    limit: u64,
) -> (r: Result<CatalogWrite, StorageError>)
    ensures
        r == if !project_exists || !preset_exists {
            Err::<CatalogWrite, StorageError>(StorageError::InvalidRequest)
        } else {
            keyed_write(
                match existing {
                    Some(t) => Some(t.preset@ == preset@),
                    None => None,
                },
                count,
                limit,
            )
        },
{
    if !project_exists || !preset_exists {
        return Err(StorageError::InvalidRequest);
    }
    let stored = match existing {
        Some(t) => Some(str_eq(t.preset.as_str(), preset)),
        None => None,
    };
    keyed(stored, count, limit)
}

/// Law: catalog writes settle. A write under a free key with room creates
/// the record; once it is stored, writing the same record under that key
/// returns it and a different one conflicts, whatever the count and limit.
pub proof fn lemma_catalog_write_settles(count: u64, limit: u64, later_count: u64, later_limit: u64)
    requires
        count + 1 <= limit,
    ensures
        keyed_write(None, count, limit) == Ok::<CatalogWrite, StorageError>(CatalogWrite::Create),
        keyed_write(Some(true), later_count, later_limit) == Ok::<CatalogWrite, StorageError>(
            CatalogWrite::Existing,
        ),
        keyed_write(Some(false), later_count, later_limit) == Err::<CatalogWrite, StorageError>(
            StorageError::Conflict,
        ),
        keyed_write(None, limit, limit) == Err::<CatalogWrite, StorageError>(
            StorageError::ResourceExhausted,
        ),
{
}

} // verus!
