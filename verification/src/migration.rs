//! Storage migrations: versioned, idempotent steps run in order up to a
//! target version.

use vstd::prelude::*;

use crate::env::{Env, InstanceStorage};
use crate::events::ContractEvent;
use crate::types::Error;

verus! {

/// The migration version the current release expects.
pub const CURRENT_MIGRATION_VERSION: u32 = 1;

/// Event emitted after each migration step completes.
#[derive(Clone, Copy, Debug, PartialEq, Eq, Structural)]
pub struct MigrationEvent {
    pub from_version: u32,
    pub to_version: u32,
    pub timestamp: u64,
}

/// A migration step, identified by the version it migrates to.
#[derive(Clone, Copy, Debug, PartialEq, Eq, Structural)]
pub struct MigrationStep {
    pub version: u32,
}

/// The stored migration version (0 when none is recorded).
pub open spec fn migration_version_of(env: Env) -> u32 {
    match env.instance.migration_version {
        Some(v) => v,
        None => 0,
    }
}

/// The stored migration version (0 when none is recorded).
pub fn get_migration_version(env: &Env) -> (r: u32)
    ensures
        r == migration_version_of(*env),
{
    match env.instance.migration_version {
        Some(v) => v,
        None => 0,
    }
}

/// Record that the storage has been migrated to `version`.
pub fn record_upgrade(env: &mut Env, version: u32)
    ensures
        final(env).instance == (InstanceStorage { migration_version: Some(version), ..old(env).instance }),
        crate::fees::only_instance_changed(*old(env), *final(env)),
{
    env.instance.migration_version = Some(version);
}

/// The known steps, in order.
pub fn migration_steps() -> (r: Vec<MigrationStep>)
    ensures
        r@ == seq![MigrationStep { version: 1 }],
{
    let r = vec![MigrationStep { version: 1 }];
    assert(r@ =~= seq![MigrationStep { version: 1 }]);
    r
}

/// The instance storage after the v0 → v1 step: the total supply is seeded
/// from the token ID counter when it is missing.
pub open spec fn v1_instance(i: InstanceStorage) -> InstanceStorage {
    if i.total_supply is None {
        InstanceStorage {
            total_supply: Some(match i.next_token_id {
                Some(t) => t,
                None => 0,
            }),
            ..i
        }
    } else {
        i
    }
}

/// v0 → v1: seed the total supply from the token ID counter when it is
/// missing.
pub fn migrate_v0_to_v1(env: &mut Env) -> (r: Result<(), Error>)
    ensures
        r is Ok,
        final(env).instance == v1_instance(old(env).instance),
        crate::fees::only_instance_changed(*old(env), *final(env)),
{
    if env.instance.total_supply.is_none() {
        let next = match env.instance.next_token_id {
            Some(t) => t,
            None => 0,
        };
        env.instance.total_supply = Some(next);
    }
    Ok(())
}

/// Apply one migration step.
fn apply_step(env: &mut Env, step: MigrationStep) -> (r: Result<(), Error>)
    requires
        step.version == 1,
    ensures
        r is Ok,
        final(env).instance == v1_instance(old(env).instance),
        crate::fees::only_instance_changed(*old(env), *final(env)),
{
    migrate_v0_to_v1(env)
}

/// The migration version after running the migrations up to `target` from
/// `current`.
pub open spec fn migrated_version(current: u32, target: u32) -> u32 {
    if current >= target || current >= 1 { current } else { 1 }
}

/// Run every pending step up to `target_version`, in order. Steps at or
/// below the stored version are skipped; each applied step records its
/// version and publishes a migration event. Returns the version reached.
///
/// Running it again changes nothing.
pub fn run_migrations(env: &mut Env, target_version: u32) -> (r: Result<u32, Error>)
    ensures
        r == Ok::<u32, Error>(migrated_version(migration_version_of(*old(env)), target_version)),
        migration_version_of(*old(env)) >= target_version || migration_version_of(*old(env)) >= 1 ==> *final(env) == *old(env),
        migration_version_of(*old(env)) < target_version && migration_version_of(*old(env)) < 1 ==> {
            &&& final(env).instance == (InstanceStorage { migration_version: Some(1), ..v1_instance(old(env).instance) })
            &&& final(env).events@ == old(env).events@.push(ContractEvent::Migration(MigrationEvent {
                from_version: 0,
                to_version: 1,
                timestamp: old(env).timestamp,
            }))
            &&& final(env).persistent == old(env).persistent
            &&& final(env).timestamp == old(env).timestamp
            &&& final(env).contract_address == old(env).contract_address && final(env).auth == old(env).auth
        },
{
    let current = get_migration_version(env);
    if current >= target_version {
        return Ok(current);
    }
    let steps = migration_steps();
    let n = steps.len();
    let mut i: usize = 0;
    while i < n
        invariant
            n == 1,
            steps@ == seq![MigrationStep { version: 1 }],
            current == migration_version_of(*old(env)),
            current < target_version,
            i <= n,
            i == 0 ==> *env == *old(env),
            i == 1 && current >= 1 ==> *env == *old(env),
            i == 1 && current < 1 ==> {
                &&& env.instance == (InstanceStorage { migration_version: Some(1), ..v1_instance(old(env).instance) })
                &&& env.events@ == old(env).events@.push(ContractEvent::Migration(MigrationEvent {
                    from_version: 0,
                    to_version: 1,
                    timestamp: old(env).timestamp,
                }))
                &&& env.persistent == old(env).persistent
                &&& env.timestamp == old(env).timestamp
                &&& env.contract_address == old(env).contract_address && env.auth == old(env).auth
            },
        ensures
            i == n,
        decreases n - i,
    {
        let step = steps[i];
        if step.version <= current {
            i = i + 1;
            continue;
        }
        if step.version > target_version {
            break;
        }
        apply_step(env, step)?;
        let ts = env.timestamp;
        record_upgrade(env, step.version);
        env.publish(ContractEvent::Migration(MigrationEvent {
            from_version: step.version - 1,
            to_version: step.version,
            timestamp: ts,
        }));
        i = i + 1;
    }
    Ok(get_migration_version(env))
}

/// Run the migrations up to [`CURRENT_MIGRATION_VERSION`].
pub fn migrate_to_current(env: &mut Env) -> (r: Result<u32, Error>)
    ensures
        r == Ok::<u32, Error>(migrated_version(migration_version_of(*old(env)), CURRENT_MIGRATION_VERSION)),
        migration_version_of(*old(env)) >= 1 ==> *final(env) == *old(env),
        migration_version_of(*old(env)) < 1 ==> {
            &&& final(env).instance == (InstanceStorage { migration_version: Some(1), ..v1_instance(old(env).instance) })
            &&& final(env).events@ == old(env).events@.push(ContractEvent::Migration(MigrationEvent {
                from_version: 0,
                to_version: 1,
                timestamp: old(env).timestamp,
            }))
            &&& final(env).persistent == old(env).persistent
            &&& final(env).timestamp == old(env).timestamp
            &&& final(env).contract_address == old(env).contract_address && final(env).auth == old(env).auth
        },
{
    run_migrations(env, CURRENT_MIGRATION_VERSION)
}

/// Whether no migration is pending.
pub fn is_fully_migrated(env: &Env) -> (r: bool)
    ensures
        r == (migration_version_of(*env) >= CURRENT_MIGRATION_VERSION),
{
    get_migration_version(env) >= CURRENT_MIGRATION_VERSION
}

/// Running the migrations is idempotent: from the version a run reaches, a
/// second run to the same target reaches that same version and, by
/// [`run_migrations`]'s contract, changes nothing.
pub proof fn lemma_run_migrations_idempotent(current: u32, target: u32)
    ensures
        ({
            let reached = migrated_version(current, target);
            &&& migrated_version(reached, target) == reached
            &&& (reached >= target || reached >= 1)
        }),
{
}

} // verus!
