//! What holds of the timer table whatever the actor is asked.

use crate::actor::{decided, effects_of, filed_by_key, timers_after};
use crate::record::Temporary;
use crate::request::{DBRequest, Effect, Fetched, Outcome, Plan, Write};
use crate::timestamp::remaining;
use vstd::prelude::*;

verus! {

/// The community and user that an outcome is about, where it is about one.
pub open spec fn key_of(outcome: Outcome) -> Option<(u64, i64)> {
    match outcome {
        Outcome::Added { guild, user, .. } => Some((guild, user)),
        Outcome::Edited { guild, user, .. } => Some((guild, user)),
        Outcome::Removed { guild, user, .. } => Some((guild, user)),
        _ => None,
    }
}

/// An outcome leaves the timers of every other community and user as they
/// were.
pub proof fn lemma_other_timers_stay(
    timers: Map<(u64, i64), Temporary>,
    outcome: Outcome,
    now: i64,
    key: (u64, i64),
)
    requires
        key_of(outcome) != Some(key),
    ensures
        timers_after(timers, outcome, now).contains_key(key) == timers.contains_key(key),
        timers.contains_key(key) ==> timers_after(timers, outcome, now)[key] == timers[key],
{
}

/// Mirrors that stand under their own community and user still do so
/// after an outcome.
pub proof fn lemma_table_stays_filed(
    timers: Map<(u64, i64), Temporary>,
    outcome: Outcome,
    now: i64,
)
    requires
        filed_by_key(timers),
    ensures
        filed_by_key(timers_after(timers, outcome, now)),
{
    let after = timers_after(timers, outcome, now);
    assert forall|key: (u64, i64)| #[trigger] after.contains_key(key) implies after[key].guild_id
        == key.0 && after[key].user_id == key.1 by {
        if key_of(outcome) != Some(key) {
            lemma_other_timers_stay(timers, outcome, now, key);
            assert(timers.contains_key(key));
        }
    }
}

/// Every timer that is started stands in the table afterwards, under the
/// community and user it runs for, for the punishment it is to lift, and it
/// runs for what is left of that punishment.
pub proof fn lemma_started_timer_is_tabled(
    timers: Map<(u64, i64), Temporary>,
    outcome: Outcome,
    now: i64,
    at: int,
)
    requires
        0 <= at < effects_of(timers, outcome, now).len(),
        effects_of(timers, outcome, now)[at] is ArmTimer,
    ensures
        ({
            let started = effects_of(timers, outcome, now)[at];
            let key = (started->ArmTimer_guild, started->ArmTimer_user);
            let after = timers_after(timers, outcome, now);
            &&& key_of(outcome) == Some(key)
            &&& after.contains_key(key)
            &&& after[key].punishment.id == started->ArmTimer_id
            &&& started->ArmTimer_delay == remaining(after[key].punishment.punished_for.1, now)
            &&& at + 1 < effects_of(timers, outcome, now).len()
            &&& effects_of(timers, outcome, now)[at + 1] == (Effect::InsertTemporary {
                mirror: after[key],
            })
        }),
{
}

/// A timer is stopped only where one runs. Where one runs and another is
/// started for the same community and user, the old one is stopped, and its
/// mirror dropped, right before.
pub proof fn lemma_old_timer_stops_first(
    timers: Map<(u64, i64), Temporary>,
    outcome: Outcome,
    now: i64,
    at: int,
)
    requires
        0 <= at < effects_of(timers, outcome, now).len(),
    ensures
        ({
            let effects = effects_of(timers, outcome, now);
            &&& effects[at] is CancelTimer ==> timers.contains_key(
                (effects[at]->CancelTimer_guild, effects[at]->CancelTimer_user),
            ) && key_of(outcome) == Some(
                (effects[at]->CancelTimer_guild, effects[at]->CancelTimer_user),
            )
            &&& effects[at] is ArmTimer && timers.contains_key(
                (effects[at]->ArmTimer_guild, effects[at]->ArmTimer_user),
            ) ==> at >= 2 && effects[at - 2] == (Effect::CancelTimer {
                guild: effects[at]->ArmTimer_guild,
                user: effects[at]->ArmTimer_user,
            }) && effects[at - 1] == (Effect::DeleteTemporary {
                guild: effects[at]->ArmTimer_guild,
                user: effects[at]->ArmTimer_user,
            })
        }),
{
}

/// A timer that is stopped and not started again is gone from the table.
pub proof fn lemma_stopped_timer_leaves(
    timers: Map<(u64, i64), Temporary>,
    outcome: Outcome,
    now: i64,
    at: int,
)
    requires
        0 <= at < effects_of(timers, outcome, now).len(),
        effects_of(timers, outcome, now)[at] is CancelTimer,
        forall|later: int|
            at < later < effects_of(timers, outcome, now).len() ==> !(#[trigger] effects_of(
                timers,
                outcome,
                now,
            )[later] is ArmTimer),
    ensures
        !timers_after(timers, outcome, now).contains_key(
            (
                effects_of(timers, outcome, now)[at]->CancelTimer_guild,
                effects_of(timers, outcome, now)[at]->CancelTimer_user,
            ),
        ),
{
    let effects = effects_of(timers, outcome, now);
    match outcome {
        Outcome::Added { .. } => {
            assert(effects[effects.len() - 2] is ArmTimer);
        },
        Outcome::Edited { .. } => {
            assert(effects[effects.len() - 2] is ArmTimer);
        },
        _ => {},
    }
}

/// Whether an effect answers the invoker.
pub open spec fn answers_invoker(effect: Effect) -> bool {
    effect is Respond || effect is ShowHistory
}

/// Whether an outcome is owed an answer: every outcome of a command is,
/// but a removal that a timer asked for.
pub open spec fn owed_answer(outcome: Outcome) -> bool {
    match outcome {
        Outcome::Nothing => false,
        Outcome::Opened { .. } => false,
        Outcome::Removed { silent, .. } => !silent,
        _ => true,
    }
}

/// The invoker is answered once where an answer is owed, and never
/// otherwise.
pub proof fn lemma_one_answer(timers: Map<(u64, i64), Temporary>, outcome: Outcome, now: i64)
    ensures
        owed_answer(outcome) <==> exists|at: int|
            0 <= at < effects_of(timers, outcome, now).len() && answers_invoker(
                #[trigger] effects_of(timers, outcome, now)[at],
            ),
        forall|at: int, other: int|
            0 <= at < effects_of(timers, outcome, now).len() && 0 <= other < effects_of(
                timers,
                outcome,
                now,
            ).len() && answers_invoker(#[trigger] effects_of(timers, outcome, now)[at])
                && answers_invoker(#[trigger] effects_of(timers, outcome, now)[other]) ==> at
                == other,
{
    let effects = effects_of(timers, outcome, now);
    match outcome {
        Outcome::History { .. } => {
            assert(answers_invoker(effects[0]));
        },
        Outcome::Refused { .. } => {
            assert(answers_invoker(effects[0]));
        },
        Outcome::RoleSet { .. } => {
            assert(answers_invoker(effects[0]));
        },
        Outcome::Added { .. } => {
            assert(answers_invoker(effects[2]));
        },
        Outcome::Edited { .. } => {
            assert(answers_invoker(effects[1]));
        },
        Outcome::Removed { silent, .. } => {
            if !silent {
                assert(answers_invoker(effects[effects.len() - 1]));
            }
        },
        _ => {},
    }
}

/// Nothing is done to a member, no timer is touched and no success is
/// reported unless a write stands behind it: every decision that adds,
/// edits or removes a punishment or sets a role names the write that has to
/// go through first.
pub proof fn lemma_change_is_written(
    guilds: Map<u64, (u64, u64)>,
    request: DBRequest,
    fetched: Fetched,
    now: i64,
    plan: Plan,
)
    requires
        decided(guilds, request, fetched, now, plan),
    ensures
        plan.outcome is Added || plan.outcome is Edited || plan.outcome is Removed
            || plan.outcome is RoleSet ==> plan.write != Write::Nothing,
        plan.write != Write::Nothing ==> plan.outcome is Added || plan.outcome is Edited
            || plan.outcome is Removed || plan.outcome is RoleSet,
{
}

} // verus!
