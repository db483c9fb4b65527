//! The runtime binding of one descriptor to one metadata entry, with the
//! per-height state machine that decides which hook runs.

use vstd::prelude::*;
use crate::descriptor::{
    initialize_effect, transform_effect, update_effect, InnerMigration, MigrationHooks,
    MigrationType,
};
use crate::metadata::Metadata;

verus! {

/// One migration at runtime: an owned copy of its descriptor, the deployment
/// metadata it was configured with, and two orthogonal flags. `enabled` is the
/// administrative on/off switch (initially the negation of
/// `metadata.disabled`, toggled freely afterwards); `active` records whether
/// the activation height has been reached at least once while enabled, and
/// never reverts to false.
pub struct Migration<H> {
    pub migration: InnerMigration<H>,
    pub metadata: Metadata,
    pub enabled: bool,
    pub active: bool,
}

/// The full transition relation of one call to
/// [`Migration::maybe_initialize_update_at_height`]: descriptor, metadata and
/// `enabled` never change; a disabled migration does nothing and succeeds;
/// an enabled one at exactly its activation height, not yet active, becomes
/// active and dispatches `initialize`; at any greater height it dispatches
/// `update`; below the activation height, or at it when already active, it
/// does nothing and succeeds.
pub open spec fn step_post<H: MigrationHooks>(
    pre: Migration<H>,
    post: Migration<H>,
    s_pre: H::Storage,
    s_post: H::Storage,
    block_height: u64,
    r: Result<(), H::Error>,
) -> bool {
    &&& post.migration == pre.migration
    &&& post.metadata == pre.metadata
    &&& post.enabled == pre.enabled
    &&& if !pre.enabled {
        &&& post.active == pre.active
        &&& s_post == s_pre
        &&& r is Ok
    } else if block_height == pre.metadata.block_height && !pre.active {
        &&& post.active
        &&& initialize_effect::<H>(pre.migration.kind, pre.metadata.extra@, s_pre, s_post, r)
    } else if block_height > pre.metadata.block_height {
        &&& post.active == pre.active
        &&& update_effect::<H>(pre.migration.kind, pre.metadata.extra@, s_pre, s_post, r)
    } else {
        &&& post.active == pre.active
        &&& s_post == s_pre
        &&& r is Ok
    }
}

impl<H: MigrationHooks> Migration<H> {
    /// Binds a descriptor to its metadata: enabled exactly when the metadata
    /// does not disable it, and not yet active.
    pub(crate) fn new(migration: InnerMigration<H>, metadata: Metadata) -> (r: Self)
        ensures
            r.migration == migration,
            r.metadata == metadata,
            r.enabled == !metadata.disabled,
            !r.active,
    {
        let enabled = !metadata.disabled;
        Migration { migration, metadata, enabled, active: false }
    }

    /// Checks the height against the activation height and dispatches the
    /// initialize or update hook accordingly; the exact transition is
    /// [`step_post`].
    pub fn maybe_initialize_update_at_height(
        &mut self,
        storage: &mut H::Storage,
        block_height: u64,
    ) -> (r: Result<(), H::Error>)
        ensures
            step_post(*old(self), *final(self), *old(storage), *final(storage), block_height, r),
    {
        if self.enabled {
            if block_height == self.metadata.block_height && !self.active {
                self.active = true;
                self.migration.initialize(storage, &self.metadata.extra)
            } else if block_height > self.metadata.block_height {
                self.migration.update(storage, &self.metadata.extra)
            } else {
                Ok(())
            }
        } else {
            Ok(())
        }
    }

    /// Dispatches the initialize hook alone, only when enabled and at exactly
    /// the activation height; does not touch the `active` flag.
    pub fn initialize(&self, storage: &mut H::Storage, block_height: u64) -> (r: Result<
        (),
        H::Error,
    >)
        ensures
            if self.enabled && block_height == self.metadata.block_height {
                initialize_effect::<H>(
                    self.migration.kind,
                    self.metadata.extra@,
                    *old(storage),
                    *final(storage),
                    r,
                )
            } else {
                r is Ok && *final(storage) == *old(storage)
            },
    {
        if self.enabled && block_height == self.metadata.block_height {
            self.migration.initialize(storage, &self.metadata.extra)
        } else {
            Ok(())
        }
    }

    /// Dispatches the update hook alone, only when enabled and past the
    /// activation height; does not touch the `active` flag.
    pub fn update(&self, storage: &mut H::Storage, block_height: u64) -> (r: Result<(), H::Error>)
        ensures
            if self.enabled && block_height > self.metadata.block_height {
                update_effect::<H>(
                    self.migration.kind,
                    self.metadata.extra@,
                    *old(storage),
                    *final(storage),
                    r,
                )
            } else {
                r is Ok && *final(storage) == *old(storage)
            },
    {
        if self.enabled && block_height > self.metadata.block_height {
            self.migration.update(storage, &self.metadata.extra)
        } else {
            Ok(())
        }
    }

    /// Applies the byte transform, only when enabled and at exactly the
    /// activation height; at any other height, or when disabled, there is no
    /// transform.
    pub fn hotfix(&self, b: &[u8], block_height: u64) -> (r: Option<Vec<u8>>)
        ensures
            if self.enabled && self.metadata.block_height == block_height {
                transform_effect::<H>(self.migration.kind, b@, r)
            } else {
                r is None
            },
    {
        if self.enabled && self.metadata.block_height == block_height {
            self.migration.hotfix(b)
        } else {
            None
        }
    }

    /// Whether this migration's kind is Regular.
    pub fn is_regular(&self) -> (r: bool)
        ensures
            r == (self.migration.kind is Regular),
    {
        match &self.migration.kind {
            MigrationType::Regular(_) => true,
            MigrationType::Hotfix(_) => false,
        }
    }

    /// Whether this migration's kind is Hotfix.
    pub fn is_hotfix(&self) -> (r: bool)
        ensures
            r == (self.migration.kind is Hotfix),
    {
        match &self.migration.kind {
            MigrationType::Regular(_) => false,
            MigrationType::Hotfix(_) => true,
        }
    }

    /// The migration's name, its unique key.
    pub fn name(&self) -> (r: &str)
        ensures
            r@ == self.migration.name@,
    {
        self.migration.name()
    }

    /// The migration's human description.
    pub fn description(&self) -> (r: &str)
        ensures
            r@ == self.migration.description@,
    {
        self.migration.description()
    }

    /// The metadata this migration was configured with.
    pub fn metadata(&self) -> (r: &Metadata)
        ensures
            *r == self.metadata,
    {
        &self.metadata
    }

    /// Administratively switches the migration off; `active` is untouched.
    pub fn disable(&mut self)
        ensures
            *final(self) == (Migration { enabled: false, ..*old(self) }),
    {
        self.enabled = false;
    }

    /// Administratively switches the migration on; `active` is untouched.
    pub fn enable(&mut self)
        ensures
            *final(self) == (Migration { enabled: true, ..*old(self) }),
    {
        self.enabled = true;
    }

    /// Whether the migration is administratively enabled.
    pub fn is_enabled(&self) -> (r: bool)
        ensures
            r == self.enabled,
    {
        self.enabled
    }

    /// Whether the activation height has been reached at least once while
    /// enabled.
    pub fn is_active(&self) -> (r: bool)
        ensures
            r == self.active,
    {
        self.active
    }
}

} // verus!
