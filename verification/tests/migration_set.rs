use std::collections::HashMap;

use many_migration::config::MigrationConfig;
use many_migration::descriptor::{InnerMigration, MigrationHooks, MigrationType};
use many_migration::metadata::Metadata;
use many_migration::set::{load_enable_all_regular_migrations, MigrationSet};
use serde_json::Value;

/// Host hooks used by every test: they log which hook ran, for which id,
/// into the storage, and can be told to fail or to transform.
#[derive(Clone, Copy)]
struct TestHooks {
    id: u32,
    fail_initialize: bool,
    fail_update: bool,
    transform_some: bool,
    record_extra: bool,
}

impl TestHooks {
    fn ok(id: u32) -> Self {
        TestHooks {
            id,
            fail_initialize: false,
            fail_update: false,
            transform_some: false,
            record_extra: false,
        }
    }
}

#[derive(Default)]
struct Store {
    initialized: Vec<u32>,
    updated: Vec<u32>,
    extras: Vec<u64>,
}

#[derive(Debug, PartialEq)]
struct HostError(u32);

impl MigrationHooks for TestHooks {
    type Storage = Store;
    type Error = HostError;

    fn initialize(
        &self,
        storage: &mut Store,
        extra: &HashMap<String, Value>,
    ) -> Result<(), HostError> {
        if self.fail_initialize {
            return Err(HostError(self.id));
        }
        if self.record_extra {
            if let Some(v) = extra.get("code") {
                storage.extras.push(v.as_u64().unwrap());
            }
        }
        storage.initialized.push(self.id);
        Ok(())
    }

    fn update(&self, storage: &mut Store, _extra: &HashMap<String, Value>) -> Result<(), HostError> {
        if self.fail_update {
            return Err(HostError(self.id));
        }
        storage.updated.push(self.id);
        Ok(())
    }

    fn transform(&self, input: &[u8]) -> Option<Vec<u8>> {
        if self.transform_some {
            let mut out = input.to_vec();
            out.push(0xAA);
            Some(out)
        } else {
            None
        }
    }
}

fn regular(id: u32, name: &str) -> InnerMigration<TestHooks> {
    InnerMigration::new_initialize_update(TestHooks::ok(id), name, "a regular migration")
}

fn hotfix(id: u32, name: &str) -> InnerMigration<TestHooks> {
    let hooks = TestHooks {
        transform_some: true,
        ..TestHooks::ok(id)
    };
    InnerMigration::new_hotfix(hooks, name, "a hotfix migration")
}

fn config_with(entries: Vec<(&InnerMigration<TestHooks>, Metadata)>) -> MigrationConfig {
    let mut config = MigrationConfig::default();
    for (m, meta) in entries {
        config = config.with_migration_opts(m, meta);
    }
    config
}

#[test]
fn unknown_name_fails_load() {
    let registry = vec![regular(1, "alpha")];
    let config = config_with(vec![(&regular(9, "stranger"), Metadata::enabled(10))]);
    let err = MigrationSet::load(&registry, config, 0).err().unwrap();
    assert_eq!(err, "Unsupported migration 'stranger'");
}

#[test]
fn first_unknown_name_is_reported() {
    let registry = vec![regular(1, "alpha")];
    let config = config_with(vec![
        (&regular(1, "alpha"), Metadata::enabled(1)),
        (&regular(8, "ghost"), Metadata::enabled(2)),
        (&regular(9, "phantom"), Metadata::enabled(3)),
    ]);
    let err = MigrationSet::load(&registry, config, 0).err().unwrap();
    assert_eq!(err, "Unsupported migration 'ghost'");
}

#[test]
fn strict_load_reports_one_missing_name() {
    let registry = vec![regular(1, "alpha"), regular(2, "beta")];
    let config = config_with(vec![(&registry[0], Metadata::enabled(1))]).strict();
    let err = MigrationSet::load(&registry, config, 0).err().unwrap();
    assert_eq!(err, "Migration Config is missing migration \"beta\"");
}

#[test]
fn strict_load_lists_all_missing_names() {
    let registry = vec![regular(1, "alpha"), regular(2, "beta"), regular(3, "gamma")];
    let config = config_with(vec![(&registry[0], Metadata::enabled(1))]).strict();
    let err = MigrationSet::load(&registry, config, 0).err().unwrap();
    assert_eq!(err, "Migration Config is missing migrations [\"beta\", \"gamma\"]");
}

#[test]
fn non_strict_load_allows_missing_names() {
    let registry = vec![regular(1, "alpha"), regular(2, "beta")];
    let config = config_with(vec![(&registry[0], Metadata::enabled(1))]);
    let set = MigrationSet::load(&registry, config, 0).unwrap();
    assert_eq!(set.len(), 1);
    assert!(set.contains_key(&"alpha".to_string()));
    assert!(!set.contains_key(&"beta".to_string()));
}

#[test]
fn update_below_activation_height_invokes_nothing() {
    let registry = vec![regular(1, "alpha")];
    let config = config_with(vec![(&registry[0], Metadata::enabled(100))]);
    let mut set = MigrationSet::load(&registry, config, 0).unwrap();
    let mut store = Store::default();
    set.update_at_height(&mut store, 99).unwrap();
    assert!(store.initialized.is_empty());
    assert!(store.updated.is_empty());
    assert!(!set.is_active(&"alpha".to_string()));
}

#[test]
fn update_at_activation_height_initializes_once() {
    let registry = vec![regular(1, "alpha")];
    let config = config_with(vec![(&registry[0], Metadata::enabled(100))]);
    let mut set = MigrationSet::load(&registry, config, 0).unwrap();
    let mut store = Store::default();
    set.update_at_height(&mut store, 100).unwrap();
    assert_eq!(store.initialized, vec![1]);
    assert!(store.updated.is_empty());
    assert!(set.is_active(&"alpha".to_string()));
    // Re-invoking at the activation height is idempotent once active.
    set.update_at_height(&mut store, 100).unwrap();
    assert_eq!(store.initialized, vec![1]);
    assert!(store.updated.is_empty());
}

#[test]
fn update_past_activation_height_updates_every_time() {
    let registry = vec![regular(1, "alpha")];
    let config = config_with(vec![(&registry[0], Metadata::enabled(100))]);
    let mut set = MigrationSet::load(&registry, config, 0).unwrap();
    let mut store = Store::default();
    set.update_at_height(&mut store, 100).unwrap();
    set.update_at_height(&mut store, 101).unwrap();
    set.update_at_height(&mut store, 150).unwrap();
    assert_eq!(store.initialized, vec![1]);
    assert_eq!(store.updated, vec![1, 1]);
}

#[test]
fn loading_past_activation_height_activates_without_initialize() {
    let registry = vec![regular(1, "alpha")];
    let config = config_with(vec![(&registry[0], Metadata::enabled(100))]);
    let mut set = MigrationSet::load(&registry, config, 150).unwrap();
    assert!(set.is_active(&"alpha".to_string()));
    let mut store = Store::default();
    set.update_at_height(&mut store, 151).unwrap();
    assert!(store.initialized.is_empty());
    assert_eq!(store.updated, vec![1]);
}

#[test]
fn disabled_migration_never_runs() {
    let registry = vec![regular(1, "alpha")];
    let config = config_with(vec![(&registry[0], Metadata::disabled(100))]);
    let mut set = MigrationSet::load(&registry, config, 150).unwrap();
    assert!(!set.is_enabled(&"alpha".to_string()));
    assert!(!set.is_active(&"alpha".to_string()));
    let mut store = Store::default();
    set.update_at_height(&mut store, 100).unwrap();
    set.update_at_height(&mut store, 101).unwrap();
    set.update_at_height(&mut store, 1000).unwrap();
    assert!(store.initialized.is_empty());
    assert!(store.updated.is_empty());
    assert!(!set.is_active(&"alpha".to_string()));
}

#[test]
fn hotfix_applies_only_at_activation_height() {
    let registry = vec![hotfix(7, "patch")];
    let config = config_with(vec![(&registry[0], Metadata::enabled(50))]);
    let set = MigrationSet::load(&registry, config, 0).unwrap();
    let name = "patch".to_string();
    assert_eq!(set.hotfix(&name, &[1, 2], 49).unwrap(), None);
    assert_eq!(set.hotfix(&name, &[1, 2], 51).unwrap(), None);
    assert_eq!(set.hotfix(&name, &[1, 2], 50).unwrap(), Some(vec![1, 2, 0xAA]));
}

#[test]
fn hotfix_ignores_unknown_and_regular_names() {
    let registry = vec![regular(1, "alpha"), hotfix(7, "patch")];
    let config = config_with(vec![
        (&registry[0], Metadata::enabled(50)),
        (&registry[1], Metadata::enabled(50)),
    ]);
    let set = MigrationSet::load(&registry, config, 0).unwrap();
    assert_eq!(set.hotfix(&"alpha".to_string(), &[1], 50).unwrap(), None);
    assert_eq!(set.hotfix(&"nobody".to_string(), &[1], 50).unwrap(), None);
}

#[test]
fn hotfix_transform_may_decline() {
    let declining = InnerMigration::new_hotfix(TestHooks::ok(7), "patch", "a declining hotfix");
    let registry = vec![declining];
    let config = config_with(vec![(&registry[0], Metadata::enabled(50))]);
    let set = MigrationSet::load(&registry, config, 0).unwrap();
    assert_eq!(set.hotfix(&"patch".to_string(), &[1, 2], 50).unwrap(), None);
}

#[test]
fn disabled_hotfix_never_transforms() {
    let registry = vec![hotfix(7, "patch")];
    let config = config_with(vec![(&registry[0], Metadata::disabled(50))]);
    let set = MigrationSet::load(&registry, config, 0).unwrap();
    assert_eq!(set.hotfix(&"patch".to_string(), &[1, 2], 50).unwrap(), None);
}

#[test]
fn update_stops_at_first_failing_migration() {
    let failing = InnerMigration::new_initialize_update(
        TestHooks {
            fail_update: true,
            ..TestHooks::ok(2)
        },
        "beta",
        "a migration whose update fails",
    );
    let registry = vec![regular(1, "alpha"), failing, regular(3, "gamma")];
    let config = config_with(vec![
        (&registry[0], Metadata::enabled(0)),
        (&registry[1], Metadata::enabled(0)),
        (&registry[2], Metadata::enabled(0)),
    ]);
    let mut set = MigrationSet::load(&registry, config, 0).unwrap();
    let mut store = Store::default();
    let err = set.update_at_height(&mut store, 5).unwrap_err();
    assert_eq!(err, HostError(2));
    // alpha ran; gamma, ordered after the failing beta, was not invoked.
    assert_eq!(store.updated, vec![1]);
}

#[test]
fn failed_initialize_reports_error_and_marks_active() {
    let failing = InnerMigration::new_initialize_update(
        TestHooks {
            fail_initialize: true,
            ..TestHooks::ok(2)
        },
        "beta",
        "a migration whose initialize fails",
    );
    let registry = vec![failing];
    let config = config_with(vec![(&registry[0], Metadata::enabled(10))]);
    let mut set = MigrationSet::load(&registry, config, 0).unwrap();
    let mut store = Store::default();
    let err = set.update_at_height(&mut store, 10).unwrap_err();
    assert_eq!(err, HostError(2));
    assert!(store.initialized.is_empty());
    // The activation is committed together with the attempt.
    assert!(set.is_active(&"beta".to_string()));
}

#[test]
fn extra_parameters_reach_the_hooks() {
    let recording = InnerMigration::new_initialize_update(
        TestHooks {
            record_extra: true,
            ..TestHooks::ok(4)
        },
        "tuned",
        "a migration reading its extra parameters",
    );
    let registry = vec![recording];
    let mut extra = HashMap::new();
    extra.insert("code".to_string(), Value::from(99_u64));
    let metadata = Metadata {
        block_height: 3,
        disabled: false,
        issue: None,
        extra,
    };
    let config = config_with(vec![(&registry[0], metadata)]);
    let mut set = MigrationSet::load(&registry, config, 0).unwrap();
    let mut store = Store::default();
    set.update_at_height(&mut store, 3).unwrap();
    assert_eq!(store.extras, vec![99]);
}

#[test]
fn initialize_only_migration_skips_update() {
    let init_only =
        InnerMigration::new_initialize(TestHooks::ok(5), "init_only", "initialize alone");
    let registry = vec![init_only];
    let config = config_with(vec![(&registry[0], Metadata::enabled(10))]);
    let mut set = MigrationSet::load(&registry, config, 0).unwrap();
    let mut store = Store::default();
    set.update_at_height(&mut store, 10).unwrap();
    set.update_at_height(&mut store, 11).unwrap();
    assert_eq!(store.initialized, vec![5]);
    assert!(store.updated.is_empty());
}

#[test]
fn update_only_migration_skips_initialize() {
    let update_only = InnerMigration::new_update(TestHooks::ok(6), "update_only", "update alone");
    let registry = vec![update_only];
    let config = config_with(vec![(&registry[0], Metadata::enabled(10))]);
    let mut set = MigrationSet::load(&registry, config, 0).unwrap();
    let mut store = Store::default();
    set.update_at_height(&mut store, 10).unwrap();
    assert!(store.initialized.is_empty());
    assert!(store.updated.is_empty());
    // The boundary still marks it active; later heights update.
    assert!(set.is_active(&"update_only".to_string()));
    set.update_at_height(&mut store, 11).unwrap();
    assert_eq!(store.updated, vec![6]);
}

#[test]
fn activation_at_the_largest_height() {
    let registry = vec![regular(1, "alpha")];
    let config = config_with(vec![(&registry[0], Metadata::enabled(u64::MAX))]);
    let mut set = MigrationSet::load(&registry, config, 0).unwrap();
    let mut store = Store::default();
    set.update_at_height(&mut store, u64::MAX - 1).unwrap();
    assert!(store.initialized.is_empty());
    set.update_at_height(&mut store, u64::MAX).unwrap();
    assert_eq!(store.initialized, vec![1]);
    assert!(set.is_active(&"alpha".to_string()));
}

#[test]
fn empty_config_loads_an_empty_set_when_not_strict() {
    let registry = vec![regular(1, "alpha")];
    let config = MigrationConfig::default();
    let set = MigrationSet::load(&registry, config, 0).unwrap();
    assert!(set.is_empty());
    assert!(!set.is_enabled(&"alpha".to_string()));
}

#[test]
fn strict_empty_config_over_empty_registry_loads() {
    let registry: Vec<InnerMigration<TestHooks>> = vec![];
    let config = MigrationConfig::default().strict();
    let set = MigrationSet::load(&registry, config, 7).unwrap();
    assert!(set.is_empty());
}

#[test]
fn empty_set_has_no_migrations() {
    let set: MigrationSet<TestHooks> = MigrationSet::empty().unwrap();
    assert_eq!(set.len(), 0);
    assert!(set.is_empty());
    assert!(!set.is_enabled(&"anything".to_string()));
    assert!(!set.is_active(&"anything".to_string()));
}

#[test]
fn load_enable_all_enables_regular_and_disables_hotfix() {
    let registry = vec![regular(1, "alpha"), hotfix(7, "patch")];
    let set = load_enable_all_regular_migrations(&registry);
    assert_eq!(set.len(), 2);
    assert!(set.is_enabled(&"alpha".to_string()));
    assert!(!set.is_enabled(&"patch".to_string()));
    assert!(!set.is_active(&"alpha".to_string()));
    let alpha = set.get(&"alpha".to_string()).unwrap();
    assert_eq!(alpha.metadata().block_height, 1);
}

#[test]
fn set_accessors_expose_the_instances() {
    let registry = vec![regular(1, "alpha"), hotfix(7, "patch")];
    let config = config_with(vec![
        (&registry[0], Metadata::enabled(2)),
        (&registry[1], Metadata::enabled(3)),
    ]);
    let set = MigrationSet::load(&registry, config, 0).unwrap();
    assert_eq!(set.len(), 2);
    assert!(!set.is_empty());
    let values = set.values();
    assert_eq!(values.len(), 2);
    assert_eq!(values[0].name(), "alpha");
    assert!(values[0].is_regular());
    assert!(!values[0].is_hotfix());
    assert_eq!(values[1].name(), "patch");
    assert!(values[1].is_hotfix());
    assert_eq!(values[0].description(), "a regular migration");
    let patch = set.get(&"patch".to_string()).unwrap();
    assert_eq!(patch.metadata().block_height, 3);
    assert!(set.get(&"nobody".to_string()).is_none());
}

#[test]
fn descriptor_accessors_report_name_description_and_kind() {
    let m = regular(1, "alpha");
    assert_eq!(m.name(), "alpha");
    assert_eq!(m.description(), "a regular migration");
    assert!(matches!(m.kind(), MigrationType::Regular(_)));
    let h = hotfix(7, "patch");
    assert!(matches!(h.kind(), MigrationType::Hotfix(_)));
}

#[test]
fn metadata_constructors_set_the_flags() {
    let e = Metadata::enabled(12);
    assert_eq!(e.block_height, 12);
    assert!(!e.disabled);
    assert!(e.issue.is_none());
    assert!(e.extra.is_empty());
    let d = Metadata::disabled(13);
    assert_eq!(d.block_height, 13);
    assert!(d.disabled);
    let def = Metadata::default();
    assert_eq!(def.block_height, 0);
    assert!(!def.disabled);
}

#[test]
fn config_builder_collects_entries_and_strictness() {
    let alpha = regular(1, "alpha");
    let beta = regular(2, "beta");
    let config = MigrationConfig::default();
    assert!(!config.is_strict());
    let config = config.with_migration(&alpha).with_migration_opts(&beta, Metadata::enabled(4));
    assert_eq!(config.migrations.len(), 2);
    assert_eq!(config.migrations[0].name, "alpha");
    assert_eq!(config.migrations[0].metadata.block_height, 0);
    assert_eq!(config.migrations[1].name, "beta");
    assert_eq!(config.migrations[1].metadata.block_height, 4);
    let config = config.strict();
    assert!(config.is_strict());
}
