//! Compiled-in migration definitions: the capability interface through which
//! the host supplies a migration's executable behavior, and the immutable
//! descriptor that names one migration and selects which hooks it runs.

use vstd::prelude::*;
use std::collections::HashMap;

verus! {

/// The capability interface a host implements to give its migrations
/// executable behavior. A Regular migration runs `initialize` once at its
/// activation height and `update` at every later height; a Hotfix migration
/// runs `transform` on raw bytes at exactly its activation height.
///
/// Each exec method carries a host-chosen specification (`initialize_post`,
/// `update_post`, `transform_post`) that the host's implementation must be
/// shown to meet; the framework's contracts then say precisely which hook ran
/// and relate old and new storage through that specification.
pub trait MigrationHooks: Sized + Copy {
    /// The host's mutable storage handle, exclusively borrowed per call.
    type Storage;

    /// The host's error type, propagated unchanged by the framework.
    type Error;

    /// What one `initialize` call guarantees of the storage and the result.
    /// The default claims nothing; a verified host overrides it.
    open spec fn initialize_post(
        self,
        extra: Map<String, serde_json::Value>,
        pre: Self::Storage,
        post: Self::Storage,
        r: Result<(), Self::Error>,
    ) -> bool {
        true
    }

    /// What one `update` call guarantees of the storage and the result. The
    /// default claims nothing; a verified host overrides it.
    open spec fn update_post(
        self,
        extra: Map<String, serde_json::Value>,
        pre: Self::Storage,
        post: Self::Storage,
        r: Result<(), Self::Error>,
    ) -> bool {
        true
    }

    /// What one `transform` call guarantees of its result; `None` means the
    /// transform does not apply to this input. The default claims nothing; a
    /// verified host overrides it.
    open spec fn transform_post(self, input: Seq<u8>, r: Option<Vec<u8>>) -> bool {
        true
    }

    /// One-time setup, run when the block height first equals the activation
    /// height. Receives the metadata's extra parameters verbatim.
    fn initialize(
        &self,
        storage: &mut Self::Storage,
        extra: &HashMap<String, serde_json::Value>,
    ) -> (r: Result<(), Self::Error>)
        ensures
            self.initialize_post(extra@, *old(storage), *final(storage), r),
    ;

    /// Recurring change, run at every block height past the activation
    /// height. Receives the metadata's extra parameters verbatim.
    fn update(
        &self,
        storage: &mut Self::Storage,
        extra: &HashMap<String, serde_json::Value>,
    ) -> (r: Result<(), Self::Error>)
        ensures
            self.update_post(extra@, *old(storage), *final(storage), r),
    ;

    /// Pure byte-sequence transform, run at exactly the activation height;
    /// returns `None` when it does not apply.
    fn transform(&self, input: &[u8]) -> (r: Option<Vec<u8>>)
        ensures
            self.transform_post(input@, r),
    ;
}

/// The hooks of a Regular migration. The two flags select which of the host's
/// storage hooks this migration actually runs: a descriptor built with only
/// an initialize hook treats `update` as a no-op, and vice versa.
#[derive(Clone, Copy)]
pub struct RegularMigration<H> {
    pub hooks: H,
    pub has_initialize: bool,
    pub has_update: bool,
}

/// The hooks of a Hotfix migration: a pure byte transform.
#[derive(Clone, Copy)]
pub struct HotfixMigration<H> {
    pub hooks: H,
}

/// The kind of a migration: either Regular (storage hooks gated on the
/// activation height) or Hotfix (a byte transform at exactly that height).
#[derive(Clone, Copy)]
pub enum MigrationType<H> {
    Regular(RegularMigration<H>),
    Hotfix(HotfixMigration<H>),
}

/// An immutable, compiled-in definition of one migration: a unique name, a
/// human description, and a kind carrying the host's hooks.
pub struct InnerMigration<H> {
    pub kind: MigrationType<H>,
    pub name: String,
    pub description: String,
}

/// What one `initialize` dispatch through a descriptor of this kind does: a
/// Regular migration with an initialize hook guarantees that hook's
/// specification; every other descriptor leaves the storage untouched and
/// succeeds.
pub open spec fn initialize_effect<H: MigrationHooks>(
    kind: MigrationType<H>,
    extra: Map<String, serde_json::Value>,
    pre: H::Storage,
    post: H::Storage,
    r: Result<(), H::Error>,
) -> bool {
    match kind {
        MigrationType::Regular(reg) => {
            if reg.has_initialize {
                reg.hooks.initialize_post(extra, pre, post, r)
            } else {
                r is Ok && post == pre
            }
        },
        MigrationType::Hotfix(_) => r is Ok && post == pre,
    }
}

/// What one `update` dispatch through a descriptor of this kind does,
/// analogous to [`initialize_effect`].
pub open spec fn update_effect<H: MigrationHooks>(
    kind: MigrationType<H>,
    extra: Map<String, serde_json::Value>,
    pre: H::Storage,
    post: H::Storage,
    r: Result<(), H::Error>,
) -> bool {
    match kind {
        MigrationType::Regular(reg) => {
            if reg.has_update {
                reg.hooks.update_post(extra, pre, post, r)
            } else {
                r is Ok && post == pre
            }
        },
        MigrationType::Hotfix(_) => r is Ok && post == pre,
    }
}

/// What one byte-transform dispatch through a descriptor of this kind
/// returns: a Regular migration never transforms bytes; a Hotfix migration
/// guarantees its transform hook's specification.
pub open spec fn transform_effect<H: MigrationHooks>(
    kind: MigrationType<H>,
    input: Seq<u8>,
    r: Option<Vec<u8>>,
) -> bool {
    match kind {
        MigrationType::Regular(_) => r is None,
        MigrationType::Hotfix(hf) => hf.hooks.transform_post(input, r),
    }
}

impl<H: MigrationHooks> InnerMigration<H> {
    /// A Hotfix descriptor with the given transform hooks.
    pub fn new_hotfix(hooks: H, name: &str, description: &str) -> (r: Self)
        ensures
            r.kind == (MigrationType::Hotfix(HotfixMigration { hooks })),
            r.name@ == name@,
            r.description@ == description@,
    {
        InnerMigration {
            kind: MigrationType::Hotfix(HotfixMigration { hooks }),
            name: name.to_owned(),
            description: description.to_owned(),
        }
    }

    /// A Regular descriptor that runs both the initialize and the update hook.
    pub fn new_initialize_update(hooks: H, name: &str, description: &str) -> (r: Self)
        ensures
            r.kind == (MigrationType::Regular(RegularMigration {
                hooks,
                has_initialize: true,
                has_update: true,
            })),
            r.name@ == name@,
            r.description@ == description@,
    {
        InnerMigration {
            kind: MigrationType::Regular(RegularMigration {
                hooks,
                has_initialize: true,
                has_update: true,
            }),
            name: name.to_owned(),
            description: description.to_owned(),
        }
    }

    /// A Regular descriptor that runs only the initialize hook; its update is
    /// a no-op.
    pub fn new_initialize(hooks: H, name: &str, description: &str) -> (r: Self)
        ensures
            r.kind == (MigrationType::Regular(RegularMigration {
                hooks,
                has_initialize: true,
                has_update: false,
            })),
            r.name@ == name@,
            r.description@ == description@,
    {
        InnerMigration {
            kind: MigrationType::Regular(RegularMigration {
                hooks,
                has_initialize: true,
                has_update: false,
            }),
            name: name.to_owned(),
            description: description.to_owned(),
        }
    }

    /// A Regular descriptor that runs only the update hook; its initialize is
    /// a no-op.
    pub fn new_update(hooks: H, name: &str, description: &str) -> (r: Self)
        ensures
            r.kind == (MigrationType::Regular(RegularMigration {
                hooks,
                has_initialize: false,
                has_update: true,
            })),
            r.name@ == name@,
            r.description@ == description@,
    {
        InnerMigration {
            kind: MigrationType::Regular(RegularMigration {
                hooks,
                has_initialize: false,
                has_update: true,
            }),
            name: name.to_owned(),
            description: description.to_owned(),
        }
    }

    /// The migration's name, its unique key.
    pub fn name(&self) -> (r: &str)
        ensures
            r@ == self.name@,
    {
        self.name.as_str()
    }

    /// The migration's human description.
    pub fn description(&self) -> (r: &str)
        ensures
            r@ == self.description@,
    {
        self.description.as_str()
    }

    /// The migration's kind, with its hooks.
    pub fn kind(&self) -> (r: &MigrationType<H>)
        ensures
            *r == self.kind,
    {
        &self.kind
    }

    /// An owned duplicate of this descriptor: the same kind and hooks, and
    /// equal name and description texts.
    pub(crate) fn duplicate(&self) -> (r: Self)
        ensures
            r.kind == self.kind,
            r.name@ == self.name@,
            r.description@ == self.description@,
    {
        InnerMigration {
            kind: self.kind,
            name: self.name.clone(),
            description: self.description.clone(),
        }
    }

    /// Runs the initialize hook if this is a Regular migration that has one;
    /// otherwise leaves the storage untouched and succeeds.
    pub(crate) fn initialize(
        &self,
        storage: &mut H::Storage,
        extra: &HashMap<String, serde_json::Value>,
    ) -> (r: Result<(), H::Error>)
        ensures
            initialize_effect::<H>(self.kind, extra@, *old(storage), *final(storage), r),
    {
        match &self.kind {
            MigrationType::Regular(reg) => {
                if reg.has_initialize {
                    reg.hooks.initialize(storage, extra)
                } else {
                    Ok(())
                }
            },
            MigrationType::Hotfix(_) => Ok(()),
        }
    }

    /// Runs the update hook if this is a Regular migration that has one;
    /// otherwise leaves the storage untouched and succeeds.
    pub(crate) fn update(
        &self,
        storage: &mut H::Storage,
        extra: &HashMap<String, serde_json::Value>,
    ) -> (r: Result<(), H::Error>)
        ensures
            update_effect::<H>(self.kind, extra@, *old(storage), *final(storage), r),
    {
        match &self.kind {
            MigrationType::Regular(reg) => {
                if reg.has_update {
                    reg.hooks.update(storage, extra)
                } else {
                    Ok(())
                }
            },
            MigrationType::Hotfix(_) => Ok(()),
        }
    }

    /// Runs the byte transform if this is a Hotfix migration; a Regular
    /// migration never transforms bytes.
    pub(crate) fn hotfix(&self, b: &[u8]) -> (r: Option<Vec<u8>>)
        ensures
            transform_effect::<H>(self.kind, b@, r),
    {
        match &self.kind {
            MigrationType::Regular(_) => None,
            MigrationType::Hotfix(hf) => hf.hooks.transform(b),
        }
    }
}

} // verus!
