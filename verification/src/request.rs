//! The requests that the actor takes, what it asks of the record store, and
//! what it hands back to be carried out.

use crate::commands::PunishmentType;
use crate::record::{Profile, PunishmentRecord, RolePermission, Temporary};
use vstd::prelude::*;

verus! {

/// The kinds of request in the actor's queue.
#[derive(Clone, Copy, Debug, PartialEq, Eq, Structural)]
pub enum DBRequestType {
    GiveContext,
    Build,
    FetchProfile,
    Punishment,
    CommandPermissionUpdate,
}

/// What a request asks for: communities, users, roles and moderators by
/// their identifiers.
#[derive(Debug, PartialEq, Eq)]
pub enum Command {
    PunishEdit {
        targetguild: u64,
        target: i64,
        invoker: i64,
        reason: Option<String>,
        length: Option<i64>,
        latest: Option<bool>,
        id: Option<u64>,
    },
    PunishRemove {
        targetguild: u64,
        target: i64,
        invoker: i64,
        latest: Option<bool>,
        id: Option<u64>,
        silent: bool,
    },
    PunishAdd {
        targetguild: u64,
        target: i64,
        invoker: i64,
        ptype: PunishmentType,
        reason: Option<String>,
        length: Option<i64>,
    },
    RoleAdjust { targetguild: u64, target: i64, invoker: i64, allow: bool },
    FetchProfile { targetguild: u64, target: i64, invoker: i64 },
}

/// One entry of the actor's queue. `threadlog` names a community with its
/// log surface and its notification surface.
#[derive(Debug, PartialEq, Eq)]
pub struct DBRequest {
    pub request_type: DBRequestType,
    pub command: Option<Command>,
    pub threadlog: Option<(u64, (u64, u64))>,
}

impl DBRequest {
    /// The request that a timer files when it runs out: remove that one
    /// punishment, and acknowledge to nobody.
    pub fn expiry(guild: u64, user: i64, id: u64) -> (request: Self)
        ensures
            request == (DBRequest {
                request_type: DBRequestType::Punishment,
                command: Some(
                    Command::PunishRemove {
                        targetguild: guild,
                        target: user,
                        invoker: 0,
                        latest: None,
                        id: Some(id),
                        silent: true,
                    },
                ),
                threadlog: None,
            }),
    {
        DBRequest {
            request_type: DBRequestType::Punishment,
            command: Some(
                Command::PunishRemove {
                    targetguild: guild,
                    target: user,
                    invoker: 0,
                    latest: None,
                    id: Some(id),
                    silent: true,
                },
            ),
            threadlog: None,
        }
    }
}

/// What has to be read from the record store before a request can be
/// decided.
#[derive(Clone, Copy, Debug, PartialEq, Eq, Structural)]
pub enum Fetch {
    Nothing,
    Store { guild: u64 },
    Profile { guild: u64, user: i64 },
    RolePermission { guild: u64, role: i64 },
}

/// What the record store answered. `Failed` stands for a read that went
/// wrong.
#[derive(Debug, PartialEq, Eq)]
pub enum Fetched {
    Nothing,
    Failed,
    Store { opened: bool },
    Profile { found: Option<Profile> },
    RolePermission { entry: Option<RolePermission> },
}

/// What has to be written to the record store before anything else is done.
#[derive(Debug, PartialEq, Eq)]
pub enum Write {
    Nothing,
    Profile { guild: u64, profile: Profile },
    RolePermission { guild: u64, entry: RolePermission },
}

/// Where a user's history is shown: in the thread that exists, or in one
/// still to be made on the community's log surface.
#[derive(Clone, Copy, Debug, PartialEq, Eq, Structural)]
pub enum Surface {
    Thread { thread: u64 },
    Log { log: u64 },
}

/// What the invoker is told.
#[derive(Clone, Copy, Debug, PartialEq, Eq, Structural)]
pub enum Reply {
    Added { kind: PunishmentType, user: i64 },
    Edited { user: i64 },
    Removed { user: i64 },
    NoHistory { user: i64 },
    InvalidTimestamp,
    HistoryFull { user: i64 },
    RoleSet { role: i64, allow: bool },
}

/// What a request comes to once the store has been read.
#[derive(Debug, PartialEq, Eq)]
pub enum Outcome {
    Nothing,
    Opened { guild: u64, surfaces: (u64, u64) },
    History { profile: Profile, invoker: i64 },
    Refused { reply: Reply },
    Added { guild: u64, user: i64, surface: Surface, record: PunishmentRecord, temporary: bool },
    Edited { guild: u64, user: i64, surface: Surface, edited: Option<PunishmentRecord>, rearm: bool },
    Removed {
        guild: u64,
        user: i64,
        surface: Surface,
        removed: Option<PunishmentRecord>,
        silent: bool,
    },
    RoleSet { entry: RolePermission },
}

/// A decision: the write that has to succeed first, and what follows when
/// it has.
#[derive(Debug, PartialEq, Eq)]
pub struct Plan {
    pub write: Write,
    pub outcome: Outcome,
}

/// One thing for the surroundings to carry out.
#[derive(Debug, PartialEq, Eq)]
pub enum Effect {
    ShowHistory { profile: Profile, invoker: i64 },
    CreateThread { guild: u64, user: i64, log: u64 },
    UpdateThread { guild: u64, user: i64, thread: u64 },
    Apply { guild: u64, user: i64, record: PunishmentRecord },
    Revert { guild: u64, user: i64, record: PunishmentRecord },
    Respond { reply: Reply },
    CancelTimer { guild: u64, user: i64 },
    DeleteTemporary { guild: u64, user: i64 },
    ArmTimer { guild: u64, user: i64, id: u64, delay: u64 },
    InsertTemporary { mirror: Temporary },
}

} // verus!
