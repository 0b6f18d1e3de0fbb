//! The actor that owns every community's records and the table of running
//! timers. It decides; the surroundings read, write and carry out. One
//! request is served at a time: `begin` says what to read, `decide` plans
//! from what was read, and `complete` commits the plan once its write went
//! through.

use crate::record::{
    edited_expiry, amended, highest_id, recency, recency_key, selected, with_amended,
    without_selected, Profile, ProfileView, PunishmentRecord, RolePermission, Temporary,
};
use crate::request::{
    Command, DBRequest, DBRequestType, Effect, Fetch, Fetched, Outcome, Plan, Reply, Surface, Write,
};
use crate::timestamp::{expiry_after, moment_after, remaining, remaining_seconds};
use std::collections::BTreeMap;
use vstd::prelude::*;

verus! {

/// What the actor holds: the open communities, each with its log surface
/// and its notification surface, and the mirror of the punishment whose
/// timer runs for a community and user.
pub struct HandlerView {
    pub guilds: Map<u64, (u64, u64)>,
    pub timers: Map<(u64, i64), Temporary>,
}

/// The owner of all moderation state.
pub struct DBHandler {
    database: BTreeMap<u64, (u64, u64)>,
    active_temps: BTreeMap<(u64, i64), Temporary>,
}

impl View for DBHandler {
    type V = HandlerView;

    closed spec fn view(&self) -> HandlerView {
        HandlerView { guilds: self.database@, timers: self.active_temps@ }
    }
}

/// What a request needs from the store. A community that is open is not
/// opened again, and one that is not open is asked nothing.
pub open spec fn needed(guilds: Map<u64, (u64, u64)>, request: DBRequest) -> Fetch {
    match request.request_type {
        DBRequestType::GiveContext => Fetch::Nothing,
        DBRequestType::Build => match request.threadlog {
            Some(named) => if guilds.contains_key(named.0) {
                Fetch::Nothing
            } else {
                Fetch::Store { guild: named.0 }
            },
            None => Fetch::Nothing,
        },
        DBRequestType::FetchProfile => match request.command {
            Some(Command::FetchProfile { targetguild, target, .. }) => if guilds.contains_key(
                targetguild,
            ) {
                Fetch::Profile { guild: targetguild, user: target }
            } else {
                Fetch::Nothing
            },
            _ => Fetch::Nothing,
        },
        DBRequestType::Punishment => match request.command {
            Some(Command::PunishAdd { targetguild, target, .. }) => if guilds.contains_key(
                targetguild,
            ) {
                Fetch::Profile { guild: targetguild, user: target }
            } else {
                Fetch::Nothing
            },
            Some(Command::PunishEdit { targetguild, target, .. }) => if guilds.contains_key(
                targetguild,
            ) {
                Fetch::Profile { guild: targetguild, user: target }
            } else {
                Fetch::Nothing
            },
            Some(Command::PunishRemove { targetguild, target, .. }) => if guilds.contains_key(
                targetguild,
            ) {
                Fetch::Profile { guild: targetguild, user: target }
            } else {
                Fetch::Nothing
            },
            _ => Fetch::Nothing,
        },
        DBRequestType::CommandPermissionUpdate => match request.command {
            Some(Command::RoleAdjust { targetguild, target, .. }) => if guilds.contains_key(
                targetguild,
            ) {
                Fetch::RolePermission { guild: targetguild, role: target }
            } else {
                Fetch::Nothing
            },
            _ => Fetch::Nothing,
        },
    }
}

/// Whether the store's answer is an answer to what was asked.
pub open spec fn answers(asked: Fetch, fetched: Fetched) -> bool {
    match (asked, fetched) {
        (Fetch::Store { .. }, Fetched::Store { .. }) => true,
        (Fetch::Profile { user, .. }, Fetched::Profile { found }) => match found {
            Some(profile) => profile@.user_id == user,
            None => true,
        },
        (Fetch::RolePermission { .. }, Fetched::RolePermission { .. }) => true,
        _ => false,
    }
}

/// The plan that does nothing.
pub open spec fn idle(plan: Plan) -> bool {
    plan.write == Write::Nothing && plan.outcome == Outcome::Nothing
}

/// The plan that only tells the invoker something.
pub open spec fn refusal(plan: Plan, reply: Reply) -> bool {
    plan.write == Write::Nothing && plan.outcome == (Outcome::Refused { reply })
}

/// Whether the plan writes a profile with the given content for `guild`.
pub open spec fn writes_profile(plan: Plan, guild: u64, content: ProfileView) -> bool {
    match plan.write {
        Write::Profile { guild: to, profile } => to == guild && profile@ == content,
        _ => false,
    }
}

/// Where the history of a profile is shown.
pub open spec fn surface_for(surfaces: (u64, u64), thread: Option<u64>) -> Surface {
    match thread {
        Some(thread) => Surface::Thread { thread },
        None => Surface::Log { log: surfaces.0 },
    }
}

/// The expiry of a new punishment issued at `now`: none where no length is
/// given, which the zero stands for; else the moment that far ahead, where
/// it can stand as a timestamp.
pub open spec fn expiry_of_new(now: i64, length: Option<i64>) -> Option<i64> {
    match length {
        Some(seconds) => moment_after(now, seconds),
        None => Some(0),
    }
}

/// The plan for adding a punishment to what was found of the user.
pub open spec fn planned_add(
    surfaces: (u64, u64),
    found: Option<Profile>,
    command: Command,
    now: i64,
    plan: Plan,
) -> bool {
    match command {
        Command::PunishAdd { targetguild, target, invoker, ptype, reason, length } => {
            let before = match found {
                Some(profile) => profile@.records,
                None => Seq::empty(),
            };
            let thread = match found {
                Some(profile) => profile@.user_thread,
                None => None,
            };
            match expiry_of_new(now, length) {
                None => refusal(plan, Reply::InvalidTimestamp),
                Some(end) => if highest_id(before) >= u64::MAX {
                    refusal(plan, Reply::HistoryFull { user: target })
                } else {
                    let record = PunishmentRecord {
                        id: (highest_id(before) + 1) as u64,
                        punishment: ptype,
                        reason,
                        punished_for: (now, end),
                        moderator: invoker,
                    };
                    &&& writes_profile(
                        plan,
                        targetguild,
                        ProfileView {
                            user_id: target,
                            user_thread: thread,
                            records: before.push(record),
                            recency: recency_key(now),
                        },
                    )
                    &&& plan.outcome == (Outcome::Added {
                        guild: targetguild,
                        user: target,
                        surface: surface_for(surfaces, thread),
                        record,
                        temporary: length.is_some(),
                    })
                },
            }
        },
        _ => false,
    }
}

/// The plan for editing a punishment in what was found of the user.
pub open spec fn planned_edit(
    surfaces: (u64, u64),
    found: Option<Profile>,
    command: Command,
    now: i64,
    plan: Plan,
) -> bool {
    match command {
        Command::PunishEdit { targetguild, target, invoker, reason, length, latest, id } => match found {
            None => refusal(plan, Reply::NoHistory { user: target }),
            Some(profile) => {
                let before = profile@.records;
                let expires = match selected(before, id, latest) {
                    Some(at) => edited_expiry(before[at], length),
                    None => None,
                };
                &&& writes_profile(
                    plan,
                    targetguild,
                    ProfileView {
                        records: with_amended(before, id, latest, reason, expires),
                        recency: recency_key(now),
                        ..profile@
                    },
                )
                &&& plan.outcome == (Outcome::Edited {
                    guild: targetguild,
                    user: target,
                    surface: surface_for(surfaces, profile@.user_thread),
                    edited: match selected(before, id, latest) {
                        Some(at) => Some(amended(before[at], reason, expires)),
                        None => None,
                    },
                    rearm: length.is_some(),
                })
            },
        },
        _ => false,
    }
}

/// The plan for removing a punishment from what was found of the user. A
/// removal that a timer asked for tells nobody that there is no history.
pub open spec fn planned_remove(
    surfaces: (u64, u64),
    found: Option<Profile>,
    command: Command,
    now: i64,
    plan: Plan,
) -> bool {
    match command {
        Command::PunishRemove { targetguild, target, invoker, latest, id, silent } => match found {
            None => if silent {
                idle(plan)
            } else {
                refusal(plan, Reply::NoHistory { user: target })
            },
            Some(profile) => {
                let before = profile@.records;
                &&& writes_profile(
                    plan,
                    targetguild,
                    ProfileView {
                        records: without_selected(before, id, latest),
                        recency: recency_key(now),
                        ..profile@
                    },
                )
                &&& plan.outcome == (Outcome::Removed {
                    guild: targetguild,
                    user: target,
                    surface: surface_for(surfaces, profile@.user_thread),
                    removed: match selected(before, id, latest) {
                        Some(at) => Some(before[at]),
                        None => None,
                    },
                    silent,
                })
            },
        },
        _ => false,
    }
}

/// The plan for showing what was found of the user: a history without
/// records is shown as no history.
pub open spec fn planned_show(found: Option<Profile>, command: Command, plan: Plan) -> bool {
    match command {
        Command::FetchProfile { targetguild, target, invoker } => match found {
            Some(profile) => if profile@.records.len() > 0 {
                plan.write == Write::Nothing && plan.outcome == (Outcome::History {
                    profile,
                    invoker,
                })
            } else {
                refusal(plan, Reply::NoHistory { user: target })
            },
            None => refusal(plan, Reply::NoHistory { user: target }),
        },
        _ => false,
    }
}

/// The plan for setting a role's permission.
pub open spec fn planned_role(command: Command, plan: Plan) -> bool {
    match command {
        Command::RoleAdjust { targetguild, target, invoker, allow } => {
            let entry = RolePermission { role_id: target, allow };
            &&& plan.write == (Write::RolePermission { guild: targetguild, entry })
            &&& plan.outcome == (Outcome::RoleSet { entry })
        },
        _ => false,
    }
}

/// Whether `plan` is the decision on `request`, given what the store
/// answered. An answer to something that was not asked, a failed read and a
/// store that did not open leave nothing to do.
pub open spec fn decided(
    guilds: Map<u64, (u64, u64)>,
    request: DBRequest,
    fetched: Fetched,
    now: i64,
    plan: Plan,
) -> bool {
    if !answers(needed(guilds, request), fetched) {
        idle(plan)
    } else {
        match fetched {
            Fetched::Store { opened } => if opened {
                plan.write == Write::Nothing && plan.outcome == (Outcome::Opened {
                    guild: request.threadlog.unwrap().0,
                    surfaces: request.threadlog.unwrap().1,
                })
            } else {
                idle(plan)
            },
            Fetched::Profile { found } => {
                let surfaces = guilds[needed(guilds, request)->Profile_guild];
                match request.command.unwrap() {
                    Command::PunishAdd { .. } => planned_add(
                        surfaces,
                        found,
                        request.command.unwrap(),
                        now,
                        plan,
                    ),
                    Command::PunishEdit { .. } => planned_edit(
                        surfaces,
                        found,
                        request.command.unwrap(),
                        now,
                        plan,
                    ),
                    Command::PunishRemove { .. } => planned_remove(
                        surfaces,
                        found,
                        request.command.unwrap(),
                        now,
                        plan,
                    ),
                    _ => planned_show(found, request.command.unwrap(), plan),
                }
            },
            Fetched::RolePermission { .. } => planned_role(request.command.unwrap(), plan),
            _ => idle(plan),
        }
    }
}

/// Whether the timer that runs for the community and user is the one of
/// the punishment with this ID.
pub open spec fn timer_matches(
    timers: Map<(u64, i64), Temporary>,
    guild: u64,
    user: i64,
    id: u64,
) -> bool {
    timers.contains_key((guild, user)) && timers[(guild, user)].punishment.id == id
}

/// The mirror of a punishment, touched at `now`.
pub open spec fn mirror_of(guild: u64, user: i64, record: PunishmentRecord, now: i64) -> Temporary {
    Temporary { guild_id: guild, user_id: user, punishment: record, negdur: recency_key(now) }
}

/// Stopping the timer of a community and user and dropping its mirror.
pub open spec fn disarming(guild: u64, user: i64) -> Seq<Effect> {
    seq![Effect::CancelTimer { guild, user }, Effect::DeleteTemporary { guild, user }]
}

/// Starting a timer that runs until the punishment lapses, and storing its
/// mirror.
pub open spec fn arming(guild: u64, user: i64, record: PunishmentRecord, now: i64) -> Seq<Effect> {
    seq![
        Effect::ArmTimer {
            guild,
            user,
            id: record.id,
            delay: remaining(record.punished_for.1, now),
        },
        Effect::InsertTemporary { mirror: mirror_of(guild, user, record, now) },
    ]
}

/// Bringing the user's moderation thread up to date, or making it.
pub open spec fn showing(guild: u64, user: i64, surface: Surface) -> Effect {
    match surface {
        Surface::Thread { thread } => Effect::UpdateThread { guild, user, thread },
        Surface::Log { log } => Effect::CreateThread { guild, user, log },
    }
}

/// Whether an edit moves the running timer: it does where a length was
/// given and the edited punishment is the one that the timer is for.
pub open spec fn edit_rearms(
    timers: Map<(u64, i64), Temporary>,
    guild: u64,
    user: i64,
    record: Option<PunishmentRecord>,
    rearm: bool,
) -> bool {
    rearm && record.is_some() && timer_matches(timers, guild, user, record.unwrap().id)
}

/// Whether a removal stops the running timer: it does where the removed
/// punishment is the one that the timer is for.
pub open spec fn removal_disarms(
    timers: Map<(u64, i64), Temporary>,
    guild: u64,
    user: i64,
    record: Option<PunishmentRecord>,
) -> bool {
    record.is_some() && timer_matches(timers, guild, user, record.unwrap().id)
}

/// What is to be carried out for an outcome, in this order. The platform
/// is told of a punishment only here, after the write went through.
pub open spec fn effects_of(timers: Map<(u64, i64), Temporary>, outcome: Outcome, now: i64) -> Seq<
    Effect,
> {
    match outcome {
        Outcome::Nothing => Seq::empty(),
        Outcome::Opened { .. } => Seq::empty(),
        Outcome::History { profile, invoker } => seq![Effect::ShowHistory { profile, invoker }],
        Outcome::Refused { reply } => seq![Effect::Respond { reply }],
        Outcome::RoleSet { entry } => seq![
            Effect::Respond { reply: Reply::RoleSet { role: entry.role_id, allow: entry.allow } },
        ],
        Outcome::Added { guild, user, surface, record, temporary } => {
            seq![
                showing(guild, user, surface),
                Effect::Apply { guild, user, record },
                Effect::Respond { reply: Reply::Added { kind: record.punishment, user } },
            ] + (if temporary && timers.contains_key((guild, user)) {
                disarming(guild, user)
            } else {
                Seq::empty()
            }) + (if temporary {
                arming(guild, user, record, now)
            } else {
                Seq::empty()
            })
        },
        Outcome::Edited { guild, user, surface, edited: record, rearm } => {
            seq![showing(guild, user, surface), Effect::Respond { reply: Reply::Edited { user } }]
                + (if edit_rearms(timers, guild, user, record, rearm) {
                disarming(guild, user) + arming(guild, user, record.unwrap(), now)
            } else {
                Seq::empty()
            })
        },
        Outcome::Removed { guild, user, surface, removed: record, silent } => {
            seq![showing(guild, user, surface)] + (match record {
                Some(gone) => seq![Effect::Revert { guild, user, record: gone }],
                None => Seq::empty(),
            }) + (if removal_disarms(timers, guild, user, record) {
                disarming(guild, user)
            } else {
                Seq::empty()
            }) + (if silent {
                Seq::empty()
            } else {
                seq![Effect::Respond { reply: Reply::Removed { user } }]
            })
        },
    }
}

/// The timer table after an outcome.
pub open spec fn timers_after(timers: Map<(u64, i64), Temporary>, outcome: Outcome, now: i64) -> Map<
    (u64, i64),
    Temporary,
> {
    match outcome {
        Outcome::Added { guild, user, record, temporary, .. } => if temporary {
            timers.insert((guild, user), mirror_of(guild, user, record, now))
        } else {
            timers
        },
        Outcome::Edited { guild, user, edited: record, rearm, .. } => if edit_rearms(
            timers,
            guild,
            user,
            record,
            rearm,
        ) {
            timers.insert((guild, user), mirror_of(guild, user, record.unwrap(), now))
        } else {
            timers
        },
        Outcome::Removed { guild, user, removed: record, .. } => if removal_disarms(
            timers,
            guild,
            user,
            record,
        ) {
            timers.remove((guild, user))
        } else {
            timers
        },
        _ => timers,
    }
}

/// The open communities after an outcome.
pub open spec fn guilds_after(guilds: Map<u64, (u64, u64)>, outcome: Outcome) -> Map<
    u64,
    (u64, u64),
> {
    match outcome {
        Outcome::Opened { guild, surfaces } => guilds.insert(guild, surfaces),
        _ => guilds,
    }
}

/// Whether a plan goes ahead: it does unless it has a write that failed.
pub open spec fn goes_ahead(plan: Plan, written: bool) -> bool {
    plan.write == Write::Nothing || written
}

/// The plan that does nothing.
fn nothing() -> (plan: Plan)
    ensures
        idle(plan),
{
    Plan { write: Write::Nothing, outcome: Outcome::Nothing }
}

/// The plan that only tells the invoker something.
fn refuse(reply: Reply) -> (plan: Plan)
    ensures
        refusal(plan, reply),
{
    Plan { write: Write::Nothing, outcome: Outcome::Refused { reply } }
}

/// Computes [`surface_for`].
fn surface(surfaces: (u64, u64), thread: Option<u64>) -> (shown: Surface)
    ensures
        shown == surface_for(surfaces, thread),
{
    match thread {
        Some(thread) => Surface::Thread { thread },
        None => Surface::Log { log: surfaces.0 },
    }
}

/// Plans the addition of a punishment: works out the expiry, makes the
/// profile where none was found, and adds the record.
fn plan_add(
    surfaces: (u64, u64),
    found: Option<Profile>,
    targetguild: u64,
    target: i64,
    invoker: i64,
    ptype: crate::commands::PunishmentType,
    reason: Option<String>,
    length: Option<i64>,
    now: i64,
) -> (plan: Plan)
    requires
        found.is_some() ==> found.unwrap()@.user_id == target,
    ensures
        planned_add(
            surfaces,
            found,
            Command::PunishAdd { targetguild, target, invoker, ptype, reason, length },
            now,
            plan,
        ),
{
    let end: Option<i64> = match length {
        Some(seconds) => expiry_after(now, seconds),
        None => Some(0),
    };
    match end {
        None => refuse(Reply::InvalidTimestamp),
        Some(end) => {
            let mut profile = match found {
                Some(profile) => profile,
                None => {
                    let fresh = Profile::new(target, None, Vec::new(), now);
                    fresh.unwrap()
                },
            };
            let thread = profile.user_thread();
            match profile.add_punishment(ptype, reason, (now, end), invoker, now) {
                Some(record) => Plan {
                    write: Write::Profile { guild: targetguild, profile },
                    outcome: Outcome::Added {
                        guild: targetguild,
                        user: target,
                        surface: surface(surfaces, thread),
                        record,
                        temporary: length.is_some(),
                    },
                },
                None => refuse(Reply::HistoryFull { user: target }),
            }
        },
    }
}

/// Plans the edit of a punishment in the profile that was found.
fn plan_edit(
    surfaces: (u64, u64),
    found: Option<Profile>,
    targetguild: u64,
    target: i64,
    invoker: i64,
    reason: Option<String>,
    length: Option<i64>,
    latest: Option<bool>,
    id: Option<u64>,
    now: i64,
) -> (plan: Plan)
    requires
        found.is_some() ==> found.unwrap()@.user_id == target,
    ensures
        planned_edit(
            surfaces,
            found,
            Command::PunishEdit { targetguild, target, invoker, reason, length, latest, id },
            now,
            plan,
        ),
{
    match found {
        None => refuse(Reply::NoHistory { user: target }),
        Some(profile) => {
            let mut profile = profile;
            let thread = profile.user_thread();
            let edited = profile.edit_punishment(id, latest, length, reason, now);
            Plan {
                write: Write::Profile { guild: targetguild, profile },
                outcome: Outcome::Edited {
                    guild: targetguild,
                    user: target,
                    surface: surface(surfaces, thread),
                    edited,
                    rearm: length.is_some(),
                },
            }
        },
    }
}

/// Plans the removal of a punishment from the profile that was found.
fn plan_remove(
    surfaces: (u64, u64),
    found: Option<Profile>,
    targetguild: u64,
    target: i64,
    invoker: i64,
    latest: Option<bool>,
    id: Option<u64>,
    silent: bool,
    now: i64,
) -> (plan: Plan)
    requires
        found.is_some() ==> found.unwrap()@.user_id == target,
    ensures
        planned_remove(
            surfaces,
            found,
            Command::PunishRemove { targetguild, target, invoker, latest, id, silent },
            now,
            plan,
        ),
{
    match found {
        None => if silent {
            nothing()
        } else {
            refuse(Reply::NoHistory { user: target })
        },
        Some(profile) => {
            let mut profile = profile;
            let thread = profile.user_thread();
            let removed = profile.remove_punishment(id, latest, now);
            Plan {
                write: Write::Profile { guild: targetguild, profile },
                outcome: Outcome::Removed {
                    guild: targetguild,
                    user: target,
                    surface: surface(surfaces, thread),
                    removed,
                    silent,
                },
            }
        },
    }
}

/// Plans the showing of the history that was found.
fn plan_show(found: Option<Profile>, targetguild: u64, target: i64, invoker: i64) -> (plan: Plan)
    ensures
        planned_show(found, Command::FetchProfile { targetguild, target, invoker }, plan),
{
    match found {
        Some(profile) => if profile.punishments().len() > 0 {
            Plan { write: Write::Nothing, outcome: Outcome::History { profile, invoker } }
        } else {
            refuse(Reply::NoHistory { user: target })
        },
        None => refuse(Reply::NoHistory { user: target }),
    }
}

/// Whether every mirror in the table stands under its own community and
/// user.
pub open spec fn filed_by_key(timers: Map<(u64, i64), Temporary>) -> bool {
    forall|key: (u64, i64)| #[trigger]
        timers.contains_key(key) ==> timers[key].guild_id == key.0 && timers[key].user_id == key.1
}

impl DBHandler {
    #[verifier::type_invariant]
    spec fn consistent(self) -> bool {
        filed_by_key(self.active_temps@)
    }

    /// An actor with no community open and no timer running.
    pub fn new() -> (handler: Self)
        ensures
            handler@.guilds == Map::<u64, (u64, u64)>::empty(),
            handler@.timers == Map::<(u64, i64), Temporary>::empty(),
    {
        DBHandler { database: BTreeMap::new(), active_temps: BTreeMap::new() }
    }

    /// The surfaces of a community, where it is open.
    pub fn surfaces(&self, guild: u64) -> (found: Option<(u64, u64)>)
        ensures
            found == if self@.guilds.contains_key(guild) {
                Some(self@.guilds[guild])
            } else {
                None
            },
    {
        broadcast use vstd::std_specs::btree::group_btree_axioms;
        broadcast use vstd::laws_cmp::group_laws_cmp;

        match self.database.get(&guild) {
            Some(surfaces) => Some(*surfaces),
            None => None,
        }
    }

    /// Whether a community's store is open.
    pub fn is_open(&self, guild: u64) -> (open: bool)
        ensures
            open == self@.guilds.contains_key(guild),
    {
        self.surfaces(guild).is_some()
    }

    /// The mirror of the punishment whose timer runs for the community and
    /// user, where one does.
    pub fn timer_for(&self, guild: u64, user: i64) -> (found: Option<Temporary>)
        ensures
            found == if self@.timers.contains_key((guild, user)) {
                Some(self@.timers[(guild, user)])
            } else {
                None
            },
            found.is_some() ==> found.unwrap().guild_id == guild && found.unwrap().user_id == user,
            filed_by_key(self@.timers),
    {
        broadcast use vstd::std_specs::btree::group_btree_axioms;
        broadcast use vstd::laws_cmp::group_laws_cmp;

        proof {
            use_type_invariant(self);
        }
        let key = (guild, user);
        match self.active_temps.get(&key) {
            Some(mirror) => Some(mirror.clone()),
            None => None,
        }
    }

    /// Computes [`timer_matches`].
    fn timer_is_for(&self, guild: u64, user: i64, id: u64) -> (same: bool)
        ensures
            same == timer_matches(self@.timers, guild, user, id),
    {
        match self.timer_for(guild, user) {
            Some(mirror) => mirror.punishment.id == id,
            None => false,
        }
    }

    /// Puts the mirror of a punishment in the table, in place of what stood
    /// there for the same community and user.
    fn arm(&mut self, guild: u64, user: i64, mirror: Temporary)
        requires
            mirror.guild_id == guild,
            mirror.user_id == user,
        ensures
            final(self)@.timers == old(self)@.timers.insert((guild, user), mirror),
            final(self)@.guilds == old(self)@.guilds,
    {
        broadcast use vstd::std_specs::btree::group_btree_axioms;
        broadcast use vstd::laws_cmp::group_laws_cmp;

        proof {
            use_type_invariant(&*self);
        }
        let mut table: BTreeMap<(u64, i64), Temporary> = BTreeMap::new();
        core::mem::swap(&mut self.active_temps, &mut table);
        table.insert((guild, user), mirror);
        core::mem::swap(&mut self.active_temps, &mut table);
    }

    /// Takes the entry of a community and user out of the table.
    fn disarm(&mut self, guild: u64, user: i64)
        ensures
            final(self)@.timers == old(self)@.timers.remove((guild, user)),
            final(self)@.guilds == old(self)@.guilds,
    {
        broadcast use vstd::std_specs::btree::group_btree_axioms;
        broadcast use vstd::laws_cmp::group_laws_cmp;

        proof {
            use_type_invariant(&*self);
        }
        let key = (guild, user);
        let mut table: BTreeMap<(u64, i64), Temporary> = BTreeMap::new();
        core::mem::swap(&mut self.active_temps, &mut table);
        table.remove(&key);
        core::mem::swap(&mut self.active_temps, &mut table);
    }

    /// Remembers a community as open, with its surfaces.
    fn remember_guild(&mut self, guild: u64, surfaces: (u64, u64))
        ensures
            final(self)@.guilds == old(self)@.guilds.insert(guild, surfaces),
            final(self)@.timers == old(self)@.timers,
    {
        broadcast use vstd::std_specs::btree::group_btree_axioms;
        broadcast use vstd::laws_cmp::group_laws_cmp;

        proof {
            use_type_invariant(&*self);
        }
        let mut guilds: BTreeMap<u64, (u64, u64)> = BTreeMap::new();
        core::mem::swap(&mut self.database, &mut guilds);
        guilds.insert(guild, surfaces);
        core::mem::swap(&mut self.database, &mut guilds);
    }

    /// Takes up a mirror that the store still held when the actor started:
    /// its timer is to run for what is left of the punishment, and at once
    /// where that moment has passed.
    pub fn recover(&mut self, record: Temporary, now: i64) -> (effect: Effect)
        ensures
            effect == (Effect::ArmTimer {
                guild: record.guild_id,
                user: record.user_id,
                id: record.punishment.id,
                delay: remaining(record.punishment.punished_for.1, now),
            }),
            final(self)@.timers == old(self)@.timers.insert(
                (record.guild_id, record.user_id),
                record,
            ),
            final(self)@.guilds == old(self)@.guilds,
    {
        let effect = Effect::ArmTimer {
            guild: record.guild_id,
            user: record.user_id,
            id: record.punishment.id,
            delay: remaining_seconds(record.punishment.punished_for.1, now),
        };
        let guild: u64 = record.guild_id;
        let user: i64 = record.user_id;
        self.arm(guild, user, record);
        effect
    }

    /// Says what has to be read from the store before `request` can be
    /// decided.
    pub fn begin(&self, request: &DBRequest) -> (asked: Fetch)
        ensures
            asked == needed(self@.guilds, *request),
    {
        match request.request_type {
            DBRequestType::GiveContext => Fetch::Nothing,
            DBRequestType::Build => match request.threadlog {
                Some(named) => if self.is_open(named.0) {
                    Fetch::Nothing
                } else {
                    Fetch::Store { guild: named.0 }
                },
                None => Fetch::Nothing,
            },
            DBRequestType::FetchProfile => match &request.command {
                Some(Command::FetchProfile { targetguild, target, .. }) => if self.is_open(
                    *targetguild,
                ) {
                    Fetch::Profile { guild: *targetguild, user: *target }
                } else {
                    Fetch::Nothing
                },
                _ => Fetch::Nothing,
            },
            DBRequestType::Punishment => match &request.command {
                Some(Command::PunishAdd { targetguild, target, .. }) => if self.is_open(
                    *targetguild,
                ) {
                    Fetch::Profile { guild: *targetguild, user: *target }
                } else {
                    Fetch::Nothing
                },
                Some(Command::PunishEdit { targetguild, target, .. }) => if self.is_open(
                    *targetguild,
                ) {
                    Fetch::Profile { guild: *targetguild, user: *target }
                } else {
                    Fetch::Nothing
                },
                Some(Command::PunishRemove { targetguild, target, .. }) => if self.is_open(
                    *targetguild,
                ) {
                    Fetch::Profile { guild: *targetguild, user: *target }
                } else {
                    Fetch::Nothing
                },
                _ => Fetch::Nothing,
            },
            DBRequestType::CommandPermissionUpdate => match &request.command {
                Some(Command::RoleAdjust { targetguild, target, .. }) => if self.is_open(
                    *targetguild,
                ) {
                    Fetch::RolePermission { guild: *targetguild, role: *target }
                } else {
                    Fetch::Nothing
                },
                _ => Fetch::Nothing,
            },
        }
    }

    /// Decides on `request` from what the store answered. Nothing of the
    /// actor changes yet: the plan names the write that has to go through
    /// first.
    pub fn decide(&self, request: DBRequest, fetched: Fetched, now: i64) -> (plan: Plan)
        ensures
            decided(self@.guilds, request, fetched, now, plan),
    {
        let asked = self.begin(&request);
        match asked {
            Fetch::Nothing => nothing(),
            Fetch::Store { guild } => match fetched {
                Fetched::Store { opened } => match request.threadlog {
                    Some(named) => if opened {
                        Plan {
                            write: Write::Nothing,
                            outcome: Outcome::Opened { guild: named.0, surfaces: named.1 },
                        }
                    } else {
                        nothing()
                    },
                    None => nothing(),
                },
                _ => nothing(),
            },
            Fetch::Profile { guild, user } => match fetched {
                Fetched::Profile { found } => {
                    let same: bool = match &found {
                        Some(profile) => profile.user_id() == user,
                        None => true,
                    };
                    let surfaces = match self.surfaces(guild) {
                        Some(surfaces) => surfaces,
                        None => (0, 0),
                    };
                    if !same {
                        nothing()
                    } else {
                        match request.command {
                            Some(
                                Command::PunishAdd {
                                    targetguild,
                                    target,
                                    invoker,
                                    ptype,
                                    reason,
                                    length,
                                },
                            ) => plan_add(
                                surfaces,
                                found,
                                targetguild,
                                target,
                                invoker,
                                ptype,
                                reason,
                                length,
                                now,
                            ),
                            Some(
                                Command::PunishEdit {
                                    targetguild,
                                    target,
                                    invoker,
                                    reason,
                                    length,
                                    latest,
                                    id,
                                },
                            ) => plan_edit(
                                surfaces,
                                found,
                                targetguild,
                                target,
                                invoker,
                                reason,
                                length,
                                latest,
                                id,
                                now,
                            ),
                            Some(
                                Command::PunishRemove {
                                    targetguild,
                                    target,
                                    invoker,
                                    latest,
                                    id,
                                    silent,
                                },
                            ) => plan_remove(
                                surfaces,
                                found,
                                targetguild,
                                target,
                                invoker,
                                latest,
                                id,
                                silent,
                                now,
                            ),
                            Some(Command::FetchProfile { targetguild, target, invoker }) => plan_show(
                                found,
                                targetguild,
                                target,
                                invoker,
                            ),
                            _ => nothing(),
                        }
                    }
                },
                _ => nothing(),
            },
            Fetch::RolePermission { guild, role } => match fetched {
                Fetched::RolePermission { .. } => match request.command {
                    Some(Command::RoleAdjust { targetguild, target, invoker, allow }) => {
                        let entry = RolePermission { role_id: target, allow };
                        Plan {
                            write: Write::RolePermission { guild: targetguild, entry },
                            outcome: Outcome::RoleSet { entry },
                        }
                    },
                    _ => nothing(),
                },
                _ => nothing(),
            },
        }
    }

    /// Commits a plan once its write was tried. A plan whose write failed
    /// is dropped whole: nothing changes and nothing is to be carried out.
    /// Else the tables take the outcome in, and what is handed back is to be
    /// carried out in order.
    pub fn complete(&mut self, plan: Plan, written: bool, now: i64) -> (effects: Vec<Effect>)
        ensures
            effects@ == if goes_ahead(plan, written) {
                effects_of(old(self)@.timers, plan.outcome, now)
            } else {
                Seq::empty()
            },
            final(self)@.timers == if goes_ahead(plan, written) {
                timers_after(old(self)@.timers, plan.outcome, now)
            } else {
                old(self)@.timers
            },
            final(self)@.guilds == if goes_ahead(plan, written) {
                guilds_after(old(self)@.guilds, plan.outcome)
            } else {
                old(self)@.guilds
            },
    {
        let ghost wanted = effects_of(self@.timers, plan.outcome, now);
        let Plan { write, outcome } = plan;
        let pending: bool = match write {
            Write::Nothing => false,
            _ => true,
        };
        let mut effects: Vec<Effect> = Vec::new();
        if pending && !written {
            return effects;
        }
        match outcome {
            Outcome::Nothing => {},
            Outcome::Opened { guild, surfaces } => {
                self.remember_guild(guild, surfaces);
            },
            Outcome::History { profile, invoker } => {
                effects.push(Effect::ShowHistory { profile, invoker });
            },
            Outcome::Refused { reply } => {
                effects.push(Effect::Respond { reply });
            },
            Outcome::RoleSet { entry } => {
                effects.push(
                    Effect::Respond {
                        reply: Reply::RoleSet { role: entry.role_id, allow: entry.allow },
                    },
                );
            },
            Outcome::Added { guild, user, surface, record, temporary } => {
                effects.push(show(guild, user, surface));
                effects.push(Effect::Apply { guild, user, record: record.clone() });
                effects.push(
                    Effect::Respond { reply: Reply::Added { kind: record.punishment, user } },
                );
                if temporary {
                    if self.timer_for(guild, user).is_some() {
                        push_disarming(&mut effects, guild, user);
                    }
                    let mirror = push_arming(&mut effects, guild, user, record, now);
                    self.arm(guild, user, mirror);
                }
            },
            Outcome::Edited { guild, user, surface, edited, rearm } => {
                effects.push(show(guild, user, surface));
                effects.push(Effect::Respond { reply: Reply::Edited { user } });
                match edited {
                    Some(edited) => {
                        if rearm && self.timer_is_for(guild, user, edited.id) {
                            push_disarming(&mut effects, guild, user);
                            let mirror = push_arming(&mut effects, guild, user, edited, now);
                            self.arm(guild, user, mirror);
                        }
                    },
                    None => {},
                }
            },
            Outcome::Removed { guild, user, surface, removed, silent } => {
                effects.push(show(guild, user, surface));
                match removed {
                    Some(gone) => {
                        let stop = self.timer_is_for(guild, user, gone.id);
                        effects.push(Effect::Revert { guild, user, record: gone });
                        if stop {
                            push_disarming(&mut effects, guild, user);
                            self.disarm(guild, user);
                        }
                    },
                    None => {},
                }
                if !silent {
                    effects.push(Effect::Respond { reply: Reply::Removed { user } });
                }
            },
        }
        proof {
            assert(effects@ =~= wanted);
        }
        effects
    }
}

/// Computes [`showing`].
fn show(guild: u64, user: i64, surface: Surface) -> (effect: Effect)
    ensures
        effect == showing(guild, user, surface),
{
    match surface {
        Surface::Thread { thread } => Effect::UpdateThread { guild, user, thread },
        Surface::Log { log } => Effect::CreateThread { guild, user, log },
    }
}

/// Appends [`disarming`].
fn push_disarming(effects: &mut Vec<Effect>, guild: u64, user: i64)
    ensures
        final(effects)@ == old(effects)@ + disarming(guild, user),
{
    effects.push(Effect::CancelTimer { guild, user });
    effects.push(Effect::DeleteTemporary { guild, user });
    proof {
        assert(effects@ =~= old(effects)@ + disarming(guild, user));
    }
}

/// Appends [`arming`] and hands back the mirror that it stores.
fn push_arming(
    effects: &mut Vec<Effect>,
    guild: u64,
    user: i64,
    record: PunishmentRecord,
    now: i64,
) -> (mirror: Temporary)
    ensures
        final(effects)@ == old(effects)@ + arming(guild, user, record, now),
        mirror == mirror_of(guild, user, record, now),
{
    let delay: u64 = remaining_seconds(record.punished_for.1, now);
    let id: u64 = record.id;
    let mirror = Temporary { guild_id: guild, user_id: user, punishment: record, negdur: recency(now) };
    effects.push(Effect::ArmTimer { guild, user, id, delay });
    effects.push(Effect::InsertTemporary { mirror: mirror.clone() });
    proof {
        assert(effects@ =~= old(effects)@ + arming(guild, user, record, now));
    }
    mirror
}

} // verus!
