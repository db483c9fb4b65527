//! The framework's guarantees, stated on their own: what loading owes the
//! configuration, and what the per-height and hotfix gates never do.

use vstd::prelude::*;
use crate::config::SingleMigrationConfig;
use crate::descriptor::{InnerMigration, MigrationHooks};
use crate::instance::{step_post, Migration};
use crate::set::{
    all_resolved, chain_ok, first_unresolved_at, hotfix_applicable, hotfix_run, load_post,
    loaded_set, missing_from_config, missing_msg, registry_has_name, resolved_entry,
    unsupported_msg, update_run, MigrationSet,
};

verus! {

/// A configuration holding any name the registry does not carry never loads:
/// the result is an error, and its message is the "unsupported migration"
/// text naming the first such entry.
pub proof fn lemma_load_rejects_unknown_name<H: MigrationHooks>(
    reg: Seq<InnerMigration<H>>,
    cfg: Seq<SingleMigrationConfig>,
    strict: bool,
    height: u64,
    r: Result<MigrationSet<H>, String>,
    i: int,
)
    requires
        load_post(reg, cfg, strict, height, r),
        0 <= i < cfg.len(),
        !registry_has_name(reg, cfg[i].name@),
    ensures
        r matches Err(msg) && exists|k: int|
            #[trigger] first_unresolved_at(reg, cfg, k) && msg@ == unsupported_msg(cfg[k].name@),
{
    match r {
        Ok(_) => {
            assert(registry_has_name(reg, cfg[i].name@));
        },
        Err(msg) => {
            if !(exists|k: int|
                #[trigger] first_unresolved_at(reg, cfg, k) && msg@ == unsupported_msg(
                    cfg[k].name@,
                )) {
                assert(all_resolved(reg, cfg));
                assert(registry_has_name(reg, cfg[i].name@));
            }
        },
    }
}

/// A strict configuration that resolves every entry but leaves registry
/// names unlisted never loads: the result is an error whose message lists
/// exactly the missing names.
pub proof fn lemma_strict_load_reports_missing<H: MigrationHooks>(
    reg: Seq<InnerMigration<H>>,
    cfg: Seq<SingleMigrationConfig>,
    height: u64,
    r: Result<MigrationSet<H>, String>,
)
    requires
        load_post(reg, cfg, true, height, r),
        all_resolved(reg, cfg),
        missing_from_config(reg, cfg).len() > 0,
    ensures
        r matches Err(msg) && msg@ == missing_msg(missing_from_config(reg, cfg)),
{
    match r {
        Ok(_) => {},
        Err(msg) => {
            if exists|k: int|
                #[trigger] first_unresolved_at(reg, cfg, k) && msg@ == unsupported_msg(
                    cfg[k].name@,
                ) {
                let k = choose|k: int|
                    #[trigger] first_unresolved_at(reg, cfg, k) && msg@ == unsupported_msg(
                        cfg[k].name@,
                    );
                assert(registry_has_name(reg, cfg[k].name@));
            }
        },
    }
}

/// Success is owed: a configuration that resolves every entry, and in strict
/// mode leaves no registry name unlisted, always loads, and the set it
/// yields is exactly the loaded form of the configuration.
pub proof fn lemma_load_succeeds_when_complete<H: MigrationHooks>(
    reg: Seq<InnerMigration<H>>,
    cfg: Seq<SingleMigrationConfig>,
    strict: bool,
    height: u64,
    r: Result<MigrationSet<H>, String>,
)
    requires
        load_post(reg, cfg, strict, height, r),
        all_resolved(reg, cfg),
        strict ==> missing_from_config(reg, cfg).len() == 0,
    ensures
        r matches Ok(s) && loaded_set(reg, cfg, height, s@),
{
    match r {
        Ok(_) => {},
        Err(msg) => {
            if exists|k: int|
                #[trigger] first_unresolved_at(reg, cfg, k) && msg@ == unsupported_msg(
                    cfg[k].name@,
                ) {
                let k = choose|k: int|
                    #[trigger] first_unresolved_at(reg, cfg, k) && msg@ == unsupported_msg(
                        cfg[k].name@,
                    );
                assert(registry_has_name(reg, cfg[k].name@));
            }
        },
    }
}

/// Loading past an enabled migration's activation height marks it active at
/// once — catch-up semantics, with no initialize call anywhere in loading.
pub proof fn lemma_catchup_activates<H: MigrationHooks>(
    reg: Seq<InnerMigration<H>>,
    cfg: Seq<SingleMigrationConfig>,
    height: u64,
    s: Seq<Migration<H>>,
    i: int,
)
    requires
        loaded_set(reg, cfg, height, s),
        0 <= i < cfg.len(),
        !cfg[i].metadata.disabled,
        height >= cfg[i].metadata.block_height,
    ensures
        s[i].active,
{
    assert(resolved_entry(reg, cfg[i], height, s[i]));
}

/// A per-height step below the activation height, or at it when the
/// migration is already active, or on a disabled migration, invokes no hook:
/// the migration and the storage are untouched and the step succeeds.
pub proof fn lemma_step_no_op<H: MigrationHooks>(
    pre: Migration<H>,
    post: Migration<H>,
    s_pre: H::Storage,
    s_post: H::Storage,
    block_height: u64,
    r: Result<(), H::Error>,
)
    requires
        step_post(pre, post, s_pre, s_post, block_height, r),
        pre.enabled ==> block_height < pre.metadata.block_height || (block_height
            == pre.metadata.block_height && pre.active),
    ensures
        post == pre,
        s_post == s_pre,
        r is Ok,
{
}

/// An enabled migration, not yet active, reaching exactly its activation
/// height becomes active and dispatches its one-time initialize: the
/// initialize effect relates the old and new storage and the result.
pub proof fn lemma_step_initializes<H: MigrationHooks>(
    pre: Migration<H>,
    post: Migration<H>,
    s_pre: H::Storage,
    s_post: H::Storage,
    block_height: u64,
    r: Result<(), H::Error>,
)
    requires
        step_post(pre, post, s_pre, s_post, block_height, r),
        pre.enabled,
        !pre.active,
        block_height == pre.metadata.block_height,
    ensures
        post.active,
        crate::descriptor::initialize_effect::<H>(
            pre.migration.kind,
            pre.metadata.extra@,
            s_pre,
            s_post,
            r,
        ),
{
}

/// An enabled migration past its activation height dispatches its update on
/// every such step, active or not, and its `active` flag is untouched.
pub proof fn lemma_step_updates<H: MigrationHooks>(
    pre: Migration<H>,
    post: Migration<H>,
    s_pre: H::Storage,
    s_post: H::Storage,
    block_height: u64,
    r: Result<(), H::Error>,
)
    requires
        step_post(pre, post, s_pre, s_post, block_height, r),
        pre.enabled,
        block_height > pre.metadata.block_height,
    ensures
        post.active == pre.active,
        crate::descriptor::update_effect::<H>(
            pre.migration.kind,
            pre.metadata.extra@,
            s_pre,
            s_post,
            r,
        ),
{
}

/// The `active` flag is one-way: no per-height step ever clears it.
pub proof fn lemma_step_preserves_active<H: MigrationHooks>(
    pre: Migration<H>,
    post: Migration<H>,
    s_pre: H::Storage,
    s_post: H::Storage,
    block_height: u64,
    r: Result<(), H::Error>,
)
    requires
        step_post(pre, post, s_pre, s_post, block_height, r),
        pre.active,
    ensures
        post.active,
{
}

/// Within a per-height run, a disabled migration contributes nothing: its
/// step leaves both the migration and the threaded storage state unchanged.
pub proof fn lemma_disabled_untouched_in_run<H: MigrationHooks>(
    pre: Seq<Migration<H>>,
    post: Seq<Migration<H>>,
    states: Seq<H::Storage>,
    block_height: u64,
    k: int,
    i: int,
)
    requires
        chain_ok(pre, post, states, block_height, k),
        0 <= i < k,
        !pre[i].enabled,
    ensures
        post[i] == pre[i],
        states[i + 1] == states[i],
{
    assert(crate::set::regular_step(
        pre[i],
        post[i],
        states[i],
        states[i + 1],
        block_height,
        Ok::<(), H::Error>(()),
    ));
}

/// A failed per-height run stopped at some Regular migration: every
/// migration ordered after the failing one was not invoked and is unchanged.
pub proof fn lemma_failed_run_stops<H: MigrationHooks>(
    pre: Seq<Migration<H>>,
    post: Seq<Migration<H>>,
    s_pre: H::Storage,
    s_post: H::Storage,
    block_height: u64,
    e: H::Error,
)
    requires
        update_run(pre, post, s_pre, s_post, block_height, Err(e)),
    ensures
        exists|k: int|
            {
                &&& 0 <= k < pre.len()
                &&& (#[trigger] pre[k]).migration.kind is Regular
                &&& forall|i: int| k < i < pre.len() ==> post[i] == pre[i]
            },
{
    let (states, k) = choose|states: Seq<H::Storage>, k: int|
        {
            &&& #[trigger] chain_ok(pre, post, states, block_height, k)
            &&& 0 <= k < pre.len()
            &&& states[0] == s_pre
            &&& pre[k].migration.kind is Regular
            &&& step_post(pre[k], post[k], states[k], s_post, block_height, Err(e))
            &&& forall|i: int| k < i < pre.len() ==> post[i] == pre[i]
        };
    assert(0 <= k < pre.len() && pre[k].migration.kind is Regular);
}

/// A hotfix query at any height other than the named migration's activation
/// height yields no transform, whatever the transform would return.
pub proof fn lemma_hotfix_only_at_activation<H: MigrationHooks>(
    s: Seq<Migration<H>>,
    name: Seq<char>,
    input: Seq<u8>,
    block_height: u64,
    r: Result<Option<Vec<u8>>, H::Error>,
)
    requires
        hotfix_run(s, name, input, block_height, r),
        forall|i: int|
            0 <= i < s.len() && (#[trigger] s[i].migration.name@) == name ==> s[i].metadata.block_height
                != block_height,
    ensures
        r == Ok::<Option<Vec<u8>>, H::Error>(None),
{
    match r {
        Ok(opt) => match opt {
            Some(v) => {
                let i = choose|i: int|
                    {
                        &&& 0 <= i < s.len()
                        &&& #[trigger] hotfix_applicable(s[i], name, block_height)
                        &&& crate::descriptor::transform_effect::<H>(
                            s[i].migration.kind,
                            input,
                            Some(v),
                        )
                        &&& forall|j: int|
                            0 <= j < i && #[trigger] hotfix_applicable(s[j], name, block_height)
                                ==> crate::descriptor::transform_effect::<H>(
                                s[j].migration.kind,
                                input,
                                None,
                            )
                    };
                assert(s[i].migration.name@ == name);
                assert(false);
            },
            None => {},
        },
        Err(_) => {
            assert(false);
        },
    }
}

} // verus!
