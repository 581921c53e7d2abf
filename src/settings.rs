//! The record of the application's storage directories.
use vstd::prelude::*;
use crate::error::CommandError;
use crate::schemas::StorageInfo;

verus! {

/// What the host found when it asked for one OS directory.
#[derive(Debug, Clone, PartialEq)]
pub enum DirLookup {
    /// The directory, as text.
    Found(String),
    /// The directory exists as a path but has no Unicode rendering.
    NotUnicode,
    /// The host could not provide the directory, for this reason.
    Failed(String),
}

/// The lookups of the five directory kinds, in the order they are asked.
#[derive(Debug, Clone, PartialEq)]
pub struct DirLookups {
    pub data: DirLookup,
    pub config: DirLookup,
    pub cache: DirLookup,
    pub local_data: DirLookup,
    pub log: DirLookup,
}

/// The record field for one successful lookup.
pub open spec fn dir_field(l: DirLookup) -> Option<String> {
    match l {
        DirLookup::Found(s) => Some(s),
        _ => None,
    }
}

impl DirLookups {
    /// Whether every one of the five lookups succeeded.
    pub open spec fn all_resolved(self) -> bool {
        &&& !(self.data is Failed)
        &&& !(self.config is Failed)
        &&& !(self.cache is Failed)
        &&& !(self.local_data is Failed)
        &&& !(self.log is Failed)
    }

    /// The reason of the first failed lookup, in the order data, config,
    /// cache, local data, log.
    pub open spec fn first_failure(self) -> Seq<char> {
        if let DirLookup::Failed(m) = self.data {
            m@
        } else if let DirLookup::Failed(m) = self.config {
            m@
        } else if let DirLookup::Failed(m) = self.cache {
            m@
        } else if let DirLookup::Failed(m) = self.local_data {
            m@
        } else if let DirLookup::Failed(m) = self.log {
            m@
        } else {
            Seq::empty()
        }
    }

    /// The record that the five lookups give when none failed.
    pub open spec fn record(self) -> StorageInfo {
        StorageInfo {
            app_data_dir: dir_field(self.data),
            app_config_dir: dir_field(self.config),
            app_cache_dir: dir_field(self.cache),
            app_local_data_dir: dir_field(self.local_data),
            app_log_dir: dir_field(self.log),
        }
    }
}

/// The field for one lookup, or the path-resolution error of a failed one.
fn dir_text(l: DirLookup) -> (r: Result<Option<String>, CommandError>)
    ensures
        match l {
            DirLookup::Failed(m) => r == Err::<Option<String>, CommandError>(CommandError::PathResolution(m)),
            _ => r == Ok::<Option<String>, CommandError>(dir_field(l)),
        },
{
    match l {
        DirLookup::Found(s) => Ok(Some(s)),
        DirLookup::NotUnicode => Ok(None),
        DirLookup::Failed(m) => Err(CommandError::PathResolution(m)),
    }
}

/// Builds the storage record from the five lookups. All or nothing: a single
/// failed lookup fails the whole call with a path-resolution error carrying
/// the first failure's reason, and no partial record is returned.
pub fn get_storage_locations(lookups: DirLookups) -> (r: Result<StorageInfo, CommandError>)
    ensures
        r is Ok <==> lookups.all_resolved(),
        r is Ok ==> r->Ok_0 == lookups.record(),
        r is Err ==> (r->Err_0 matches CommandError::PathResolution(m) && m@ == lookups.first_failure()),
{
    let DirLookups { data, config, cache, local_data, log } = lookups;
    let app_data_dir = match dir_text(data) {
        Ok(f) => f,
        Err(e) => return Err(e),
    };
    let app_config_dir = match dir_text(config) {
        Ok(f) => f,
        Err(e) => return Err(e),
    };
    let app_cache_dir = match dir_text(cache) {
        Ok(f) => f,
        Err(e) => return Err(e),
    };
    let app_local_data_dir = match dir_text(local_data) {
        Ok(f) => f,
        Err(e) => return Err(e),
    };
    let app_log_dir = match dir_text(log) {
        Ok(f) => f,
        Err(e) => return Err(e),
    };
    Ok(StorageInfo { app_data_dir, app_config_dir, app_cache_dir, app_local_data_dir, app_log_dir })
}

} // verus!
