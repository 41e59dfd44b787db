//! Versions of the settings file's schema, and whether a file needs
//! migrating to the current one.

use vstd::prelude::*;
use crate::text::to_string;

verus! {

/// The current schema version of the settings file.
pub const CURRENT_VERSION: u32 = 1;

/// Errors of migrating the settings.
#[derive(Debug)]
pub enum MigrationError {
    UnknownVersion(u32),
    MigrationFailed { from: u32, to: u32, reason: String },
    RollbackFailed(String),
    Json(serde_json::Error),
    Io(std::io::Error),
}

/// A schema version and when it came.
#[derive(Debug, Clone)]
pub struct ConfigVersion {
    pub version: u32,
    pub description: String,
    pub release_date: String,
}

/// The migrations between schema versions. None is registered yet: version
/// 1 is the first schema.
#[derive(Debug)]
pub struct MigrationManager {
    /// The registered migrations, as `(from, to)` versions.
    migrations: Vec<(u32, u32)>,
}

/// The schema version of a settings file when it names none.
pub fn default_version() -> (v: u32)
    ensures
        v == 1,
{
    1
}

impl MigrationManager {
    /// The registered migrations.
    pub closed spec fn spec_migrations(&self) -> Seq<(u32, u32)> {
        self.migrations@
    }

    /// A manager with no migration registered.
    pub fn new() -> (m: Self)
        ensures
            m.spec_migrations().len() == 0,
    {
        MigrationManager { migrations: Vec::new() }
    }

    /// The current schema version.
    pub fn current_version(&self) -> (v: u32)
        ensures
            v == CURRENT_VERSION,
    {
        CURRENT_VERSION
    }

    /// Whether a file of the given schema version must be migrated: when it
    /// is older than the current one.
    pub fn needs_migration(&self, config_version: u32) -> (r: bool)
        ensures
            r == (config_version < CURRENT_VERSION),
    {
        config_version < CURRENT_VERSION
    }

    /// The migration from `from_version`, as `(from, to)`, or the error for an
    /// unknown version.
    pub fn find_migration(&self, from_version: u32) -> (r: Result<(u32, u32), MigrationError>)
        ensures
            match r {
                Ok(m) => m.0 == from_version && self.spec_migrations().contains(m),
                Err(e) => e matches MigrationError::UnknownVersion(v) && v == from_version
                    && forall|i: int| 0 <= i < self.spec_migrations().len() ==> (#[trigger] self.spec_migrations()[i]).0 != from_version,
            },
    {
        let mut i: usize = 0;
        while i < self.migrations.len()
            invariant
                i <= self.migrations@.len(),
                forall|k: int| 0 <= k < i ==> (#[trigger] self.migrations@[k]).0 != from_version,
            decreases self.migrations@.len() - i,
        {
            if self.migrations[i].0 == from_version {
                proof {
                    assert(self.spec_migrations()[i as int] == self.migrations@[i as int]);
                }
                return Ok(self.migrations[i]);
            }
            i = i + 1;
        }
        Err(MigrationError::UnknownVersion(from_version))
    }

    /// The schema versions so far.
    pub fn get_migration_history(&self) -> (r: Vec<ConfigVersion>)
        ensures
            r@.len() == 1,
            r@[0].version == 1,
            r@[0].description@ == "Initial configuration schema"@,
            r@[0].release_date@ == "2024-01-01"@,
    {
        let mut r: Vec<ConfigVersion> = Vec::new();
        r.push(ConfigVersion {
            version: 1,
            description: to_string("Initial configuration schema"),
            release_date: to_string("2024-01-01"),
        });
        r
    }
}

impl Default for MigrationManager {
    fn default() -> (m: Self)
        ensures
            m.spec_migrations().len() == 0,
    {
        Self::new()
    }
}

} // verus!
