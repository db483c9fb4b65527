//! The aggregate owning all migration instances of one running process:
//! built once from a registry, a configuration and a starting height, then
//! queried and mutated once per committed block.

use vstd::prelude::*;
use vstd::string::StringExecFns;
use crate::config::{MigrationConfig, SingleMigrationConfig};
use crate::descriptor::{transform_effect, InnerMigration, MigrationHooks, MigrationType};
use crate::instance::{step_post, Migration};
use crate::metadata::Metadata;

verus! {

/// Whether the registry names are pairwise distinct. This is the registry
/// construction invariant: the host supplies an ordered collection unique by
/// name.
pub open spec fn registry_names_unique<H>(reg: Seq<InnerMigration<H>>) -> bool {
    forall|i: int, j: int| 0 <= i < j < reg.len() ==> reg[i].name@ != reg[j].name@
}

/// Whether the configuration entry names are pairwise distinct, the matching
/// invariant on the configuration side.
pub open spec fn config_names_unique(cfg: Seq<SingleMigrationConfig>) -> bool {
    forall|i: int, j: int| 0 <= i < j < cfg.len() ==> cfg[i].name@ != cfg[j].name@
}

/// Whether some registry descriptor carries this name.
pub open spec fn registry_has_name<H>(reg: Seq<InnerMigration<H>>, name: Seq<char>) -> bool {
    exists|i: int| 0 <= i < reg.len() && reg[i].name@ == name
}

/// The index of the registry descriptor carrying this name; meaningful when
/// [`registry_has_name`] holds and the registry names are unique.
pub open spec fn registry_index_of<H>(reg: Seq<InnerMigration<H>>, name: Seq<char>) -> int {
    choose|i: int| 0 <= i < reg.len() && reg[i].name@ == name
}

/// Whether some configuration entry carries this name.
pub open spec fn config_has_name(cfg: Seq<SingleMigrationConfig>, name: Seq<char>) -> bool {
    exists|i: int| 0 <= i < cfg.len() && cfg[i].name@ == name
}

/// Whether every configuration entry resolves to a registry name.
pub open spec fn all_resolved<H>(reg: Seq<InnerMigration<H>>, cfg: Seq<SingleMigrationConfig>) -> bool {
    forall|i: int| 0 <= i < cfg.len() ==> registry_has_name(reg, #[trigger] cfg[i].name@)
}

/// The registry names that the configuration does not list, in registry
/// order. In strict mode a non-empty result fails the load.
pub open spec fn missing_from_config<H>(
    reg: Seq<InnerMigration<H>>,
    cfg: Seq<SingleMigrationConfig>,
) -> Seq<Seq<char>>
    decreases reg.len(),
{
    if reg.len() == 0 {
        Seq::empty()
    } else {
        let init = missing_from_config(reg.drop_last(), cfg);
        if config_has_name(cfg, reg.last().name@) {
            init
        } else {
            init.push(reg.last().name@)
        }
    }
}

/// The error text reported for a configuration name absent from the registry.
pub open spec fn unsupported_msg(name: Seq<char>) -> Seq<char> {
    "Unsupported migration '"@ + name + "'"@
}

/// The names joined as a quoted, comma-separated list.
pub open spec fn quoted_join(names: Seq<Seq<char>>) -> Seq<char>
    decreases names.len(),
{
    if names.len() == 0 {
        Seq::empty()
    } else {
        let quoted = "\""@ + names.last() + "\""@;
        if names.len() == 1 {
            quoted
        } else {
            quoted_join(names.drop_last()) + ", "@ + quoted
        }
    }
}

/// The error text reported in strict mode: the singular form names the one
/// missing migration, the plural form lists all missing names.
pub open spec fn missing_msg(names: Seq<Seq<char>>) -> Seq<char> {
    if names.len() == 1 {
        "Migration Config is missing migration "@ + quoted_join(names)
    } else {
        "Migration Config is missing migrations ["@ + quoted_join(names) + "]"@
    }
}

/// How one loaded migration instance relates to its configuration entry: it
/// carries the registry descriptor resolved by the entry's name, owns the
/// entry's metadata, is enabled exactly when not disabled, and is already
/// active exactly when enabled and the starting height has reached its
/// activation height (catch-up semantics: no initialize call).
pub open spec fn resolved_entry<H: MigrationHooks>(
    reg: Seq<InnerMigration<H>>,
    entry: SingleMigrationConfig,
    height: u64,
    m: Migration<H>,
) -> bool {
    let d = reg[registry_index_of(reg, entry.name@)];
    &&& registry_has_name(reg, entry.name@)
    &&& m.migration.kind == d.kind
    &&& m.migration.name@ == entry.name@
    &&& m.migration.description@ == d.description@
    &&& m.metadata == entry.metadata
    &&& m.enabled == !entry.metadata.disabled
    &&& m.active == (m.enabled && height >= entry.metadata.block_height)
}

/// How a whole loaded set relates to the configuration: one instance per
/// entry, in configuration order.
pub open spec fn loaded_set<H: MigrationHooks>(
    reg: Seq<InnerMigration<H>>,
    cfg: Seq<SingleMigrationConfig>,
    height: u64,
    s: Seq<Migration<H>>,
) -> bool {
    &&& s.len() == cfg.len()
    &&& forall|i: int| 0 <= i < cfg.len() ==> resolved_entry(reg, cfg[i], height, #[trigger] s[i])
}

/// Whether configuration entry `i` is the first whose name the registry does
/// not carry. Loading fails on exactly this entry.
pub open spec fn first_unresolved_at<H>(
    reg: Seq<InnerMigration<H>>,
    cfg: Seq<SingleMigrationConfig>,
    i: int,
) -> bool {
    &&& 0 <= i < cfg.len()
    &&& !registry_has_name(reg, cfg[i].name@)
    &&& forall|j: int| 0 <= j < i ==> registry_has_name(reg, #[trigger] cfg[j].name@)
}

/// The name views of a vector of names.
pub open spec fn names_of(v: Seq<String>) -> Seq<Seq<char>> {
    v.map_values(|s: String| s@)
}

/// Whether a migration instance answers a hotfix query for this name at this
/// height: it is of kind Hotfix, carries the queried name, is enabled, and
/// the height equals its activation height exactly.
pub open spec fn hotfix_applicable<H: MigrationHooks>(
    m: Migration<H>,
    name: Seq<char>,
    block_height: u64,
) -> bool {
    &&& m.migration.kind is Hotfix
    &&& m.migration.name@ == name
    &&& m.enabled
    &&& m.metadata.block_height == block_height
}

/// One per-height step of the set: a Regular migration takes the
/// [`step_post`] transition; a Hotfix migration is skipped untouched, with
/// the storage unchanged.
pub open spec fn regular_step<H: MigrationHooks>(
    pre: Migration<H>,
    post: Migration<H>,
    s_pre: H::Storage,
    s_post: H::Storage,
    block_height: u64,
    r: Result<(), H::Error>,
) -> bool {
    if pre.migration.kind is Regular {
        step_post(pre, post, s_pre, s_post, block_height, r)
    } else {
        &&& post == pre
        &&& s_post == s_pre
        &&& r is Ok
    }
}

/// The first `k` migrations of the set stepped successfully, threading the
/// storage through the intermediate states `states[0] .. states[k]`.
pub open spec fn chain_ok<H: MigrationHooks>(
    pre: Seq<Migration<H>>,
    post: Seq<Migration<H>>,
    states: Seq<H::Storage>,
    block_height: u64,
    k: int,
) -> bool {
    &&& states.len() == k + 1
    &&& forall|i: int|
        0 <= i < k ==> regular_step(
            pre[i],
            #[trigger] post[i],
            states[i],
            states[i + 1],
            block_height,
            Ok(()),
        )
}

/// The full behavior of one [`MigrationSet::update_at_height`] call. On
/// success every migration stepped, in order, through some sequence of
/// intermediate storage states from `s_pre` to `s_post`. On failure some
/// Regular migration `k` returned the error after the first `k` stepped
/// successfully; the migrations after it were not invoked and are unchanged,
/// and the storage ends as the failing step left it.
pub open spec fn update_run<H: MigrationHooks>(
    pre: Seq<Migration<H>>,
    post: Seq<Migration<H>>,
    s_pre: H::Storage,
    s_post: H::Storage,
    block_height: u64,
    r: Result<(), H::Error>,
) -> bool {
    match r {
        Ok(_) => exists|states: Seq<H::Storage>|
            {
                &&& #[trigger] chain_ok(pre, post, states, block_height, pre.len() as int)
                &&& states[0] == s_pre
                &&& states.last() == s_post
            },
        Err(e) => exists|states: Seq<H::Storage>, k: int|
            {
                &&& #[trigger] chain_ok(pre, post, states, block_height, k)
                &&& 0 <= k < pre.len()
                &&& states[0] == s_pre
                &&& pre[k].migration.kind is Regular
                &&& step_post(pre[k], post[k], states[k], s_post, block_height, Err(e))
                &&& forall|i: int| k < i < pre.len() ==> post[i] == pre[i]
            },
    }
}

/// All migration instances of one running process, keyed by name, in
/// configuration order.
pub struct MigrationSet<H> {
    inner: Vec<Migration<H>>,
}

impl<H> View for MigrationSet<H> {
    type V = Seq<Migration<H>>;

    closed spec fn view(&self) -> Seq<Migration<H>> {
        self.inner@
    }
}

/// The full behavior of [`MigrationSet::load`]. On success every entry
/// resolved (and, in strict mode, no registry name was missing) and the set
/// is [`loaded_set`]. On failure either some entry's name was absent from
/// the registry and the message names the first such entry, or the load was
/// strict and the message lists exactly the missing registry names.
pub open spec fn load_post<H: MigrationHooks>(
    reg: Seq<InnerMigration<H>>,
    cfg: Seq<SingleMigrationConfig>,
    strict: bool,
    height: u64,
    r: Result<MigrationSet<H>, String>,
) -> bool {
    match r {
        Ok(s) => {
            &&& all_resolved(reg, cfg)
            &&& strict ==> missing_from_config(reg, cfg).len() == 0
            &&& loaded_set(reg, cfg, height, s@)
        },
        Err(msg) => {
            ||| exists|i: int|
                #[trigger] first_unresolved_at(reg, cfg, i) && msg@ == unsupported_msg(
                    cfg[i].name@,
                )
            ||| {
                &&& all_resolved(reg, cfg)
                &&& strict
                &&& missing_from_config(reg, cfg).len() > 0
                &&& msg@ == missing_msg(missing_from_config(reg, cfg))
            }
        },
    }
}

/// The full behavior of [`MigrationSet::hotfix`]: it never fails of itself;
/// a transform result comes from the first applicable migration whose
/// transform applied, after every earlier applicable one declined; no
/// transform means every applicable migration declined.
pub open spec fn hotfix_run<H: MigrationHooks>(
    s: Seq<Migration<H>>,
    name: Seq<char>,
    input: Seq<u8>,
    block_height: u64,
    r: Result<Option<Vec<u8>>, H::Error>,
) -> bool {
    match r {
        Ok(opt) => match opt {
            Some(v) => exists|i: int|
                {
                    &&& 0 <= i < s.len()
                    &&& #[trigger] hotfix_applicable(s[i], name, block_height)
                    &&& transform_effect::<H>(s[i].migration.kind, input, Some(v))
                    &&& forall|j: int|
                        0 <= j < i && #[trigger] hotfix_applicable(s[j], name, block_height)
                            ==> transform_effect::<H>(s[j].migration.kind, input, None)
                },
            None => forall|i: int|
                0 <= i < s.len() && #[trigger] hotfix_applicable(s[i], name, block_height)
                    ==> transform_effect::<H>(s[i].migration.kind, input, None),
        },
        Err(_) => false,
    }
}

/// Whether index `i` is the first position of this name in the sequence.
pub open spec fn first_match_at<H: MigrationHooks>(
    s: Seq<Migration<H>>,
    name: Seq<char>,
    i: int,
) -> bool {
    &&& 0 <= i < s.len()
    &&& s[i].migration.name@ == name
    &&& forall|j: int| 0 <= j < i ==> s[j].migration.name@ != name
}

/// The index of the first migration instance carrying this name, if any.
fn find_index<H: MigrationHooks>(inner: &Vec<Migration<H>>, name: &String) -> (r: Option<usize>)
    ensures
        match r {
            Some(i) => first_match_at(inner@, name@, i as int),
            None => forall|j: int| 0 <= j < inner@.len() ==> inner@[j].migration.name@ != name@,
        },
{
    let mut i: usize = 0;
    while i < inner.len()
        invariant
            i <= inner@.len(),
            forall|j: int| 0 <= j < i as int ==> inner@[j].migration.name@ != name@,
        decreases inner@.len() - i,
    {
        if inner[i].migration.name == *name {
            return Some(i);
        }
        i = i + 1;
    }
    None
}

/// The index of the first registry descriptor carrying this name, if any.
fn find_descriptor<H: MigrationHooks>(
    registry: &Vec<InnerMigration<H>>,
    name: &String,
) -> (r: Option<usize>)
    ensures
        match r {
            Some(i) => {
                &&& i < registry@.len()
                &&& registry@[i as int].name@ == name@
                &&& forall|j: int| 0 <= j < i as int ==> registry@[j].name@ != name@
            },
            None => forall|j: int| 0 <= j < registry@.len() ==> registry@[j].name@ != name@,
        },
{
    let mut i: usize = 0;
    while i < registry.len()
        invariant
            i <= registry@.len(),
            forall|j: int| 0 <= j < i as int ==> registry@[j].name@ != name@,
        decreases registry@.len() - i,
    {
        if registry[i].name == *name {
            return Some(i);
        }
        i = i + 1;
    }
    None
}

impl<H: MigrationHooks> MigrationSet<H> {
    /// A set with no migrations at all.
    pub fn empty() -> (r: Result<Self, String>)
        ensures
            r matches Ok(s) && s@.len() == 0,
    {
        Ok(MigrationSet { inner: Vec::new() })
    }

    /// Builds the set from the compiled-in registry, the declared
    /// configuration and the starting height. Every entry must resolve to a
    /// registry name, or loading fails naming the first entry that does not;
    /// in strict mode every registry name must be listed, or loading fails
    /// listing the missing name or names. Enabled instances whose activation
    /// height the starting height has already reached are marked active
    /// without any initialize call.
    pub fn load(
        registry: &Vec<InnerMigration<H>>,
        config: MigrationConfig,
        height: u64,
    ) -> (r: Result<Self, String>)
        requires
            registry_names_unique(registry@),
            config_names_unique(config.migrations@),
        ensures
            load_post(
                registry@,
                config.migrations@,
                config.strict == Some(true),
                height,
                r,
            ),
    {
        let is_strict = config.is_strict();
        let ghost reg = registry@;
        let ghost cfg = config.migrations@;
        let mut entries = config.migrations;
        let mut inner: Vec<Migration<H>> = Vec::new();

        while entries.len() > 0
            invariant
                registry_names_unique(reg),
                reg == registry@,
                cfg == config.migrations@,
                inner@.len() + entries@.len() == cfg.len(),
                entries@ == cfg.subrange(inner@.len() as int, cfg.len() as int),
                forall|i: int|
                    0 <= i < inner@.len() ==> resolved_entry(
                        reg,
                        cfg[i],
                        height,
                        #[trigger] inner@[i],
                    ),
            decreases entries@.len(),
        {
            let ghost k = inner@.len() as int;
            let entry = entries.remove(0);
            proof {
                assert(entry == cfg[k]);
                assert(entries@ =~= cfg.subrange(k + 1, cfg.len() as int));
            }
            match find_descriptor(registry, &entry.name) {
                Some(di) => {
                    let mut m = Migration::new(registry[di].duplicate(), entry.metadata);
                    if m.enabled && m.metadata.block_height <= height {
                        m.active = true;
                    }
                    proof {
                        assert(registry_has_name(reg, cfg[k].name@));
                        let c = registry_index_of(reg, cfg[k].name@);
                        assert(0 <= c < reg.len() && reg[c].name@ == cfg[k].name@);
                        if c < di as int {
                            assert(reg[c].name@ != reg[di as int].name@);
                        } else if c > di as int {
                            assert(reg[di as int].name@ != reg[c].name@);
                        }
                        assert(c == di as int);
                        assert(resolved_entry(reg, cfg[k], height, m));
                    }
                    inner.push(m);
                },
                None => {
                    proof {
                        if registry_has_name(reg, cfg[k].name@) {
                            let w = choose|i: int|
                                0 <= i < reg.len() && reg[i].name@ == cfg[k].name@;
                            assert(reg[w].name@ != cfg[k].name@);
                        }
                        assert(!registry_has_name(reg, cfg[k].name@));
                        assert forall|j: int| 0 <= j < k implies registry_has_name(
                            reg,
                            #[trigger] cfg[j].name@,
                        ) by {
                            assert(resolved_entry(reg, cfg[j], height, inner@[j]));
                        }
                        assert(first_unresolved_at(reg, cfg, k));
                    }
                    let mut msg = String::new();
                    msg.append("Unsupported migration '");
                    msg.append(entry.name.as_str());
                    msg.append("'");
                    proof {
                        assert(msg@ =~= unsupported_msg(cfg[k].name@));
                        assert(exists|i: int|
                            #[trigger] first_unresolved_at(reg, cfg, i) && msg@
                                == unsupported_msg(cfg[i].name@));
                    }
                    return Err(msg);
                },
            }
        }

        proof {
            assert(inner@.len() == cfg.len());
            assert forall|i: int| 0 <= i < cfg.len() implies registry_has_name(
                reg,
                #[trigger] cfg[i].name@,
            ) by {
                assert(resolved_entry(reg, cfg[i], height, inner@[i]));
            }
        }

        // In strict mode, every registry name must be listed.
        if is_strict {
            let mut missing: Vec<String> = Vec::new();
            let mut ri: usize = 0;
            while ri < registry.len()
                invariant
                    reg == registry@,
                    ri <= reg.len(),
                    inner@.len() == cfg.len(),
                    forall|i: int|
                        0 <= i < inner@.len() ==> resolved_entry(
                            reg,
                            cfg[i],
                            height,
                            #[trigger] inner@[i],
                        ),
                    names_of(missing@) == missing_from_config(reg.take(ri as int), cfg),
                decreases reg.len() - ri,
            {
                let ghost pre_missing = missing@;
                match find_index(&inner, &registry[ri].name) {
                    Some(fi) => {
                        proof {
                            assert(inner@[fi as int].migration.name@ == reg[ri as int].name@);
                            assert(resolved_entry(reg, cfg[fi as int], height, inner@[fi as int]));
                            assert(cfg[fi as int].name@ == reg[ri as int].name@);
                            assert(config_has_name(cfg, reg[ri as int].name@));
                        }
                    },
                    None => {
                        proof {
                            if config_has_name(cfg, reg[ri as int].name@) {
                                let ci = choose|i: int|
                                    0 <= i < cfg.len() && cfg[i].name@ == reg[ri as int].name@;
                                assert(resolved_entry(reg, cfg[ci], height, inner@[ci]));
                                assert(inner@[ci].migration.name@ == reg[ri as int].name@);
                            }
                            assert(!config_has_name(cfg, reg[ri as int].name@));
                        }
                        missing.push(registry[ri].name.clone());
                    },
                }
                proof {
                    assert(reg.take(ri as int + 1).drop_last() =~= reg.take(ri as int));
                    assert(reg.take(ri as int + 1).last() == reg[ri as int]);
                    if !config_has_name(cfg, reg[ri as int].name@) {
                        assert(names_of(missing@) =~= names_of(pre_missing).push(
                            reg[ri as int].name@,
                        ));
                    } else {
                        assert(missing@ == pre_missing);
                    }
                }
                ri = ri + 1;
            }
            proof {
                assert(reg.take(reg.len() as int) =~= reg);
                assert(names_of(missing@) == missing_from_config(reg, cfg));
                assert(missing@.len() == names_of(missing@).len());
            }
            if missing.len() == 1 {
                let ghost ms = missing_from_config(reg, cfg);
                let mut msg = String::new();
                msg.append("Migration Config is missing migration ");
                msg.append("\"");
                msg.append(missing[0].as_str());
                msg.append("\"");
                proof {
                    assert(ms.len() == 1);
                    assert(ms.drop_last() =~= Seq::<Seq<char>>::empty());
                    assert(ms.last() == missing@[0]@);
                    assert(quoted_join(ms) =~= "\""@ + missing@[0]@ + "\""@);
                    assert(msg@ =~= missing_msg(ms));
                }
                return Err(msg);
            } else if missing.len() > 1 {
                let ghost ms = missing_from_config(reg, cfg);
                let mut msg = String::new();
                msg.append("Migration Config is missing migrations [");
                let mut mi: usize = 0;
                while mi < missing.len()
                    invariant
                        names_of(missing@) == ms,
                        ms.len() == missing@.len(),
                        ms.len() > 1,
                        0 < mi ==> msg@ == "Migration Config is missing migrations ["@
                            + quoted_join(ms.take(mi as int)),
                        mi == 0 ==> msg@ == "Migration Config is missing migrations ["@,
                        mi <= missing@.len(),
                    decreases missing@.len() - mi,
                {
                    let ghost pre = msg@;
                    if mi > 0 {
                        msg.append(", ");
                    }
                    msg.append("\"");
                    msg.append(missing[mi].as_str());
                    msg.append("\"");
                    proof {
                        let t = ms.take(mi as int + 1);
                        assert(t.drop_last() =~= ms.take(mi as int));
                        assert(t.last() == missing@[mi as int]@);
                        if mi == 0 {
                            assert(quoted_join(t) =~= "\""@ + missing@[0]@ + "\""@);
                        } else {
                            assert(quoted_join(t) =~= quoted_join(ms.take(mi as int)) + ", "@
                                + ("\""@ + missing@[mi as int]@ + "\""@));
                        }
                        assert(msg@ =~= "Migration Config is missing migrations ["@
                            + quoted_join(t));
                    }
                    mi = mi + 1;
                }
                msg.append("]");
                proof {
                    assert(ms.take(missing@.len() as int) =~= ms);
                    assert(msg@ =~= missing_msg(ms));
                }
                return Err(msg);
            }
        }

        Ok(MigrationSet { inner })
    }

    /// Runs the per-height transition of every Regular migration, in set
    /// order, threading the storage through each; stops at the first hook
    /// error and returns it, leaving the migrations after the failing one
    /// untouched. Hotfix migrations are skipped. The exact behavior is
    /// [`update_run`]; descriptors, metadata and enabled flags never change,
    /// and `active` flags never revert.
    pub fn update_at_height(&mut self, storage: &mut H::Storage, block_height: u64) -> (r: Result<
        (),
        H::Error,
    >)
        ensures
            final(self)@.len() == old(self)@.len(),
            forall|i: int|
                0 <= i < old(self)@.len() ==> {
                    &&& (#[trigger] final(self)@[i]).migration == old(self)@[i].migration
                    &&& final(self)@[i].metadata == old(self)@[i].metadata
                    &&& final(self)@[i].enabled == old(self)@[i].enabled
                    &&& (old(self)@[i].active ==> final(self)@[i].active)
                },
            r is Ok ==> forall|i: int|
                0 <= i < old(self)@.len() ==> (#[trigger] final(self)@[i]).active == (
                old(self)@[i].active || (old(self)@[i].enabled
                    && old(self)@[i].migration.kind is Regular && block_height
                    == old(self)@[i].metadata.block_height)),
            update_run(
                old(self)@,
                final(self)@,
                *old(storage),
                *final(storage),
                block_height,
                r,
            ),
    {
        let ghost pre = self.inner@;
        let ghost s0 = *storage;
        let ghost mut states: Seq<H::Storage> = seq![s0];
        let mut i: usize = 0;
        while i < self.inner.len()
            invariant
                pre == old(self)@,
                s0 == *old(storage),
                i <= pre.len(),
                self.inner@.len() == pre.len(),
                chain_ok(pre, self.inner@, states, block_height, i as int),
                states[0] == s0,
                states.last() == *storage,
                forall|j: int| i as int <= j < pre.len() ==> self.inner@[j] == pre[j],
                forall|j: int|
                    0 <= j < pre.len() ==> {
                        &&& (#[trigger] self.inner@[j]).migration == pre[j].migration
                        &&& self.inner@[j].metadata == pre[j].metadata
                        &&& self.inner@[j].enabled == pre[j].enabled
                        &&& (pre[j].active ==> self.inner@[j].active)
                    },
                forall|j: int|
                    0 <= j < i as int ==> (#[trigger] self.inner@[j]).active == (pre[j].active || (
                    pre[j].enabled && pre[j].migration.kind is Regular && block_height
                        == pre[j].metadata.block_height)),
            decreases pre.len() - i,
        {
            let ghost snap = self.inner@;
            if self.inner[i].is_regular() {
                let mut m = self.inner.remove(i);
                let res = m.maybe_initialize_update_at_height(storage, block_height);
                self.inner.insert(i, m);
                proof {
                    assert(self.inner@ =~= snap.update(i as int, self.inner@[i as int]));
                }
                match res {
                    Ok(u) => {
                        proof {
                            assert(res == Ok::<(), H::Error>(u));
                            states = states.push(*storage);
                            assert(regular_step(
                                pre[i as int],
                                self.inner@[i as int],
                                states[i as int],
                                states[i as int + 1],
                                block_height,
                                Ok(()),
                            ));
                        }
                        i = i + 1;
                    },
                    Err(e) => {
                        proof {
                            assert(chain_ok(pre, self.inner@, states, block_height, i as int));
                            assert(step_post(
                                pre[i as int],
                                self.inner@[i as int],
                                states[i as int],
                                *storage,
                                block_height,
                                Err(e),
                            ));
                            assert(exists|ss: Seq<H::Storage>, k: int|
                                {
                                    &&& #[trigger] chain_ok(
                                        pre,
                                        self.inner@,
                                        ss,
                                        block_height,
                                        k,
                                    )
                                    &&& 0 <= k < pre.len()
                                    &&& ss[0] == s0
                                    &&& pre[k].migration.kind is Regular
                                    &&& step_post(
                                        pre[k],
                                        self.inner@[k],
                                        ss[k],
                                        *storage,
                                        block_height,
                                        Err(e),
                                    )
                                    &&& forall|j: int| k < j < pre.len() ==> self.inner@[j] == pre[j]
                                });
                        }
                        return Err(e);
                    },
                }
            } else {
                proof {
                    states = states.push(*storage);
                    assert(regular_step(
                        pre[i as int],
                        self.inner@[i as int],
                        states[i as int],
                        states[i as int + 1],
                        block_height,
                        Ok(()),
                    ));
                }
                i = i + 1;
            }
        }
        proof {
            assert(chain_ok(pre, self.inner@, states, block_height, pre.len() as int));
        }
        Ok(())
    }

    /// Looks up the named migration among the enabled Hotfix migrations and
    /// applies its byte transform when the height equals its activation
    /// height exactly; any other height, an absent name, or a transform that
    /// does not apply yields no transform. Never fails of itself; the result
    /// type leaves room for host-level wrapping.
    pub fn hotfix(&self, name: &String, b: &[u8], block_height: u64) -> (r: Result<
        Option<Vec<u8>>,
        H::Error,
    >)
        ensures
            hotfix_run(self@, name@, b@, block_height, r),
    {
        let mut i: usize = 0;
        while i < self.inner.len()
            invariant
                i <= self@.len(),
                forall|j: int|
                    0 <= j < i as int && #[trigger] hotfix_applicable(
                        self@[j],
                        name@,
                        block_height,
                    ) ==> transform_effect::<H>(self@[j].migration.kind, b@, None),
            decreases self@.len() - i,
        {
            if self.inner[i].is_hotfix() && self.inner[i].migration.name == *name {
                match self.inner[i].hotfix(b, block_height) {
                    Some(v) => {
                        proof {
                            assert(hotfix_applicable(self@[i as int], name@, block_height));
                        }
                        return Ok(Some(v));
                    },
                    None => {},
                }
            }
            i = i + 1;
        }
        Ok(None)
    }

    /// Whether the named migration is present and administratively enabled;
    /// false for unknown names.
    pub fn is_enabled(&self, name: &String) -> (r: bool)
        ensures
            r == exists|i: int| #[trigger] first_match_at(self@, name@, i) && self@[i].enabled,
    {
        match find_index(&self.inner, name) {
            Some(i) => {
                proof {
                    assert(first_match_at(self@, name@, i as int));
                }
                self.inner[i].is_enabled()
            },
            None => false,
        }
    }

    /// Whether the named migration is present and has reached its activation
    /// height at least once while enabled; false for unknown names.
    pub fn is_active(&self, name: &String) -> (r: bool)
        ensures
            r == exists|i: int| #[trigger] first_match_at(self@, name@, i) && self@[i].active,
    {
        match find_index(&self.inner, name) {
            Some(i) => {
                proof {
                    assert(first_match_at(self@, name@, i as int));
                }
                self.inner[i].is_active()
            },
            None => false,
        }
    }

    /// Whether the named migration is present in the set.
    pub fn contains_key(&self, name: &String) -> (r: bool)
        ensures
            r == exists|i: int|
                0 <= i < self@.len() && (#[trigger] self@[i].migration.name@) == name@,
    {
        match find_index(&self.inner, name) {
            Some(_) => true,
            None => false,
        }
    }

    /// The first migration instance carrying this name, if any.
    pub fn get(&self, name: &String) -> (r: Option<&Migration<H>>)
        ensures
            match r {
                Some(m) => exists|i: int| #[trigger] first_match_at(self@, name@, i) && *m == self@[i],
                None => forall|j: int| 0 <= j < self@.len() ==> self@[j].migration.name@ != name@,
            },
    {
        match find_index(&self.inner, name) {
            Some(i) => {
                proof {
                    assert(first_match_at(self@, name@, i as int));
                }
                Some(&self.inner[i])
            },
            None => None,
        }
    }

    /// All migration instances, in configuration order.
    pub fn values(&self) -> (r: &Vec<Migration<H>>)
        ensures
            r@ == self@,
    {
        &self.inner
    }

    /// The number of migration instances in the set.
    pub fn len(&self) -> (r: usize)
        ensures
            r == self@.len(),
    {
        self.inner.len()
    }

    /// Whether the set holds no migrations.
    pub fn is_empty(&self) -> (r: bool)
        ensures
            r == (self@.len() == 0),
    {
        self.inner.len() == 0
    }
}

/// Builds a set holding every registry migration with activation height 1:
/// Regular migrations enabled, Hotfix migrations disabled, none yet active.
/// A harness convenience that bypasses per-migration metadata; not meant for
/// production activation decisions.
pub fn load_enable_all_regular_migrations<H: MigrationHooks>(
    registry: &Vec<InnerMigration<H>>,
) -> (r: MigrationSet<H>)
    ensures
        r@.len() == registry@.len(),
        forall|i: int|
            0 <= i < registry@.len() ==> {
                &&& (#[trigger] r@[i]).migration.kind == registry@[i].kind
                &&& r@[i].migration.name@ == registry@[i].name@
                &&& r@[i].migration.description@ == registry@[i].description@
                &&& r@[i].metadata.block_height == 1
                &&& !r@[i].metadata.disabled
                &&& r@[i].metadata.issue is None
                &&& r@[i].metadata.extra@ == Map::<String, serde_json::Value>::empty()
                &&& r@[i].enabled == (registry@[i].kind is Regular)
                &&& !r@[i].active
            },
{
    let mut inner: Vec<Migration<H>> = Vec::new();
    let mut i: usize = 0;
    while i < registry.len()
        invariant
            i <= registry@.len(),
            inner@.len() == i as int,
            forall|j: int|
                0 <= j < i as int ==> {
                    &&& (#[trigger] inner@[j]).migration.kind == registry@[j].kind
                    &&& inner@[j].migration.name@ == registry@[j].name@
                    &&& inner@[j].migration.description@ == registry@[j].description@
                    &&& inner@[j].metadata.block_height == 1
                    &&& !inner@[j].metadata.disabled
                    &&& inner@[j].metadata.issue is None
                    &&& inner@[j].metadata.extra@ == Map::<String, serde_json::Value>::empty()
                    &&& inner@[j].enabled == (registry@[j].kind is Regular)
                    &&& !inner@[j].active
                },
        decreases registry@.len() - i,
    {
        let mut m = Migration::new(registry[i].duplicate(), Metadata::enabled(1));
        match &m.migration.kind {
            MigrationType::Regular(_) => m.enable(),
            MigrationType::Hotfix(_) => m.disable(),
        }
        inner.push(m);
        i = i + 1;
    }
    MigrationSet { inner }
}

} // verus!
