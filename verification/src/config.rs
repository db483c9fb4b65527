//! The declared deployment: an ordered list of (migration name, metadata)
//! pairs plus a strictness flag.

use vstd::prelude::*;
use crate::descriptor::{InnerMigration, MigrationHooks};
use crate::metadata::Metadata;

verus! {

/// One configuration entry: a migration name and the metadata to load it
/// with.
pub struct SingleMigrationConfig {
    pub name: String,
    pub metadata: Metadata,
}

/// A declared deployment: an ordered list of configuration entries and a
/// strictness flag. Strictness is not part of the serialized form; the host
/// sets it programmatically before loading. When strict, every registry name
/// must appear in the configuration or loading fails.
pub struct MigrationConfig {
    pub strict: Option<bool>,
    pub migrations: Vec<SingleMigrationConfig>,
}

impl MigrationConfig {
    /// Whether this configuration demands that every registry name be listed.
    pub fn is_strict(&self) -> (r: bool)
        ensures
            r == (self.strict == Some(true)),
    {
        match self.strict {
            Some(b) => b,
            None => false,
        }
    }

    /// This configuration with strict mode switched on.
    pub fn strict(self) -> (r: Self)
        ensures
            r.strict == Some(true),
            r.migrations == self.migrations,
    {
        MigrationConfig { strict: Some(true), migrations: self.migrations }
    }

    /// This configuration extended with an entry for the given descriptor,
    /// under default metadata (height zero, enabled, no extras).
    pub fn with_migration<H: MigrationHooks>(self, migration: &InnerMigration<H>) -> (r: Self)
        ensures
            r.strict == self.strict,
            r.migrations@.len() == self.migrations@.len() + 1,
            forall|i: int|
                0 <= i < self.migrations@.len() ==> r.migrations@[i] == self.migrations@[i],
            r.migrations@.last().name@ == migration.name@,
            r.migrations@.last().metadata.block_height == 0,
            !r.migrations@.last().metadata.disabled,
            r.migrations@.last().metadata.issue is None,
            r.migrations@.last().metadata.extra@ == Map::<String, serde_json::Value>::empty(),
    {
        self.with_migration_opts(migration, Metadata::default())
    }

    /// This configuration extended with an entry for the given descriptor and
    /// the given metadata.
    pub fn with_migration_opts<H: MigrationHooks>(
        self,
        migration: &InnerMigration<H>,
        metadata: Metadata,
    ) -> (r: Self)
        ensures
            r.strict == self.strict,
            r.migrations@.len() == self.migrations@.len() + 1,
            forall|i: int|
                0 <= i < self.migrations@.len() ==> r.migrations@[i] == self.migrations@[i],
            r.migrations@.last().name@ == migration.name@,
            r.migrations@.last().metadata == metadata,
    {
        let mut migrations = self.migrations;
        migrations.push(SingleMigrationConfig { name: migration.name.clone(), metadata });
        MigrationConfig { strict: self.strict, migrations }
    }
}

impl Default for MigrationConfig {
    /// The default configuration: no entries, strictness not set.
    fn default() -> (r: Self)
        ensures
            r.strict is None,
            r.migrations@.len() == 0,
    {
        MigrationConfig { strict: None, migrations: Vec::new() }
    }
}

} // verus!
