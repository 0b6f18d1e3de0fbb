//! From a command as the platform delivers it to the request that the actor
//! takes.

use crate::commands::{ModbotCmd, PunishmentAction, PunishmentType};
use crate::decimal::{
    all_digits, decimal_value, digits_of, format_decimal, lemma_digits_read_back, parse_bounded,
};
use crate::duration::{millis, span_of};
use crate::request::{Command, DBRequest, DBRequestType};
use vstd::prelude::*;
use vstd::string::*;

verus! {

/// Every option that a command can carry, as far as it was given. Users and
/// roles stand by their identifiers; `member` says whether the user belongs
/// to the community.
#[derive(Debug, PartialEq, Eq)]
pub struct CommandOptions {
    pub user: Option<i64>,
    pub member: bool,
    pub role: Option<i64>,
    pub reason: Option<String>,
    pub allow: Option<bool>,
    pub duration: Option<String>,
    pub id: Option<String>,
    pub latest: Option<bool>,
    pub punishment: Option<PunishmentType>,
    pub action: Option<PunishmentAction>,
}

impl Default for CommandOptions {
    fn default() -> (options: Self)
        ensures
            options == (CommandOptions {
                user: None,
                member: false,
                role: None,
                reason: None,
                allow: None,
                duration: None,
                id: None,
                latest: None,
                punishment: None,
                action: None,
            }),
    {
        CommandOptions {
            user: None,
            member: false,
            role: None,
            reason: None,
            allow: None,
            duration: None,
            id: None,
            latest: None,
            punishment: None,
            action: None,
        }
    }
}

/// Why a command goes no further.
#[derive(Clone, Copy, Debug, PartialEq, Eq, Structural)]
pub enum Rejection {
    /// Commands work inside a community only.
    GuildOnly,
    /// The command names no user.
    MissingUser,
    /// The command says neither add, remove nor edit.
    MissingAction,
}

/// Where a command goes.
#[derive(Debug, PartialEq, Eq)]
pub enum Routed {
    Send { request: DBRequest },
    Reject { why: Rejection },
    Ignore,
}

/// Whether two texts are the same.
pub fn same_text(left: &str, right: &str) -> (same: bool)
    ensures
        same == (left@ == right@),
{
    let n: usize = left.unicode_len();
    if n != right.unicode_len() {
        return false;
    }
    let mut i: usize = 0;
    while i < n
        invariant
            n == left@.len(),
            n == right@.len(),
            0 <= i <= n,
            forall|k: int| 0 <= k < i ==> left@[k] == right@[k],
        decreases n - i,
    {
        if left.get_char(i) != right.get_char(i) {
            return false;
        }
        i = i + 1;
    }
    proof {
        assert(left@ =~= right@);
    }
    true
}

/// The punishment ID that a text names: the number it writes in ASCII
/// digits, or zero, which no punishment carries, where it writes none that
/// fits.
pub open spec fn id_value(text: Seq<char>) -> u64 {
    if text.len() > 0 && all_digits(text) && decimal_value(text) <= u64::MAX {
        decimal_value(text) as u64
    } else {
        0
    }
}

/// The ID that a command selects by, where it gives one.
pub open spec fn selector_id(id: Option<String>) -> Option<u64> {
    match id {
        Some(text) => Some(id_value(text@)),
        None => None,
    }
}

/// Computes [`id_value`].
pub fn parse_id(text: &str) -> (id: u64)
    ensures
        id == id_value(text@),
{
    match parse_bounded(text, u64::MAX) {
        Some(id) => id,
        None => 0,
    }
}

/// The text of a punishment ID, as it is stored and shown.
pub fn id_text(id: u64) -> (text: String)
    ensures
        text@ == digits_of(id as nat),
{
    format_decimal(id)
}

/// The text of an ID names that ID.
pub proof fn lemma_id_text_names_id(id: u64)
    ensures
        id_value(digits_of(id as nat)) == id,
{
    lemma_digits_read_back(id as nat);
}

/// A request of the given kind with the given command.
pub open spec fn request_for(request_type: DBRequestType, command: Command) -> Routed {
    Routed::Send { request: DBRequest { request_type, command: Some(command), threadlog: None } }
}

/// Where the command called `name` goes, with `length` the seconds that its
/// duration comes to.
pub open spec fn routed(
    name: Seq<char>,
    guild: Option<u64>,
    invoker: i64,
    options: CommandOptions,
    length: Option<i64>,
) -> Routed {
    if guild.is_none() {
        Routed::Reject { why: Rejection::GuildOnly }
    } else if name == ModbotCmd::Punishment.registered_name() {
        if options.user.is_none() {
            Routed::Reject { why: Rejection::MissingUser }
        } else {
            match options.action {
                Some(PunishmentAction::Add) => match options.punishment {
                    Some(ptype) => request_for(
                        DBRequestType::Punishment,
                        Command::PunishAdd {
                            targetguild: guild.unwrap(),
                            target: options.user.unwrap(),
                            invoker,
                            ptype,
                            reason: options.reason,
                            length,
                        },
                    ),
                    None => Routed::Ignore,
                },
                Some(PunishmentAction::Remove) => request_for(
                    DBRequestType::Punishment,
                    Command::PunishRemove {
                        targetguild: guild.unwrap(),
                        target: options.user.unwrap(),
                        invoker,
                        latest: options.latest,
                        id: selector_id(options.id),
                        silent: false,
                    },
                ),
                Some(PunishmentAction::Edit) => request_for(
                    DBRequestType::Punishment,
                    Command::PunishEdit {
                        targetguild: guild.unwrap(),
                        target: options.user.unwrap(),
                        invoker,
                        reason: options.reason,
                        length,
                        latest: options.latest,
                        id: selector_id(options.id),
                    },
                ),
                None => Routed::Reject { why: Rejection::MissingAction },
            }
        }
    } else if name == ModbotCmd::FetchProfile.registered_name() {
        if options.user.is_none() {
            Routed::Reject { why: Rejection::MissingUser }
        } else {
            request_for(
                DBRequestType::FetchProfile,
                Command::FetchProfile {
                    targetguild: guild.unwrap(),
                    target: options.user.unwrap(),
                    invoker,
                },
            )
        }
    } else if name == ModbotCmd::RoleSet.registered_name() {
        if options.role.is_some() && options.allow.is_some() {
            request_for(
                DBRequestType::CommandPermissionUpdate,
                Command::RoleAdjust {
                    targetguild: guild.unwrap(),
                    target: options.role.unwrap(),
                    invoker,
                    allow: options.allow.unwrap(),
                },
            )
        } else {
            Routed::Ignore
        }
    } else {
        Routed::Ignore
    }
}

/// Wraps a command as a request.
fn send(request_type: DBRequestType, command: Command) -> (to: Routed)
    ensures
        to == request_for(request_type, command),
{
    Routed::Send { request: DBRequest { request_type, command: Some(command), threadlog: None } }
}

/// Computes [`selector_id`].
fn id_of(id: Option<String>) -> (selected: Option<u64>)
    ensures
        selected == selector_id(id),
{
    match id {
        Some(text) => Some(parse_id(text.as_str())),
        None => None,
    }
}

/// Routes a command whose duration has been worked out to `length` seconds.
pub fn route_with_length(
    name: &str,
    guild: Option<u64>,
    invoker: i64,
    options: CommandOptions,
    length: Option<i64>,
) -> (to: Routed)
    ensures
        to == routed(name@, guild, invoker, options, length),
{
    let targetguild: u64 = match guild {
        Some(guild) => guild,
        None => {
            return Routed::Reject { why: Rejection::GuildOnly };
        },
    };
    if same_text(name, ModbotCmd::Punishment.name()) {
        let target: i64 = match options.user {
            Some(user) => user,
            None => {
                return Routed::Reject { why: Rejection::MissingUser };
            },
        };
        match options.action {
            Some(PunishmentAction::Add) => match options.punishment {
                Some(ptype) => send(
                    DBRequestType::Punishment,
                    Command::PunishAdd {
                        targetguild,
                        target,
                        invoker,
                        ptype,
                        reason: options.reason,
                        length,
                    },
                ),
                None => Routed::Ignore,
            },
            Some(PunishmentAction::Remove) => send(
                DBRequestType::Punishment,
                Command::PunishRemove {
                    targetguild,
                    target,
                    invoker,
                    latest: options.latest,
                    id: id_of(options.id),
                    silent: false,
                },
            ),
            Some(PunishmentAction::Edit) => send(
                DBRequestType::Punishment,
                Command::PunishEdit {
                    targetguild,
                    target,
                    invoker,
                    reason: options.reason,
                    length,
                    latest: options.latest,
                    id: id_of(options.id),
                },
            ),
            None => Routed::Reject { why: Rejection::MissingAction },
        }
    } else if same_text(name, ModbotCmd::FetchProfile.name()) {
        match options.user {
            Some(target) => send(
                DBRequestType::FetchProfile,
                Command::FetchProfile { targetguild, target, invoker },
            ),
            None => Routed::Reject { why: Rejection::MissingUser },
        }
    } else if same_text(name, ModbotCmd::RoleSet.name()) {
        match (options.role, options.allow) {
            (Some(target), Some(allow)) => send(
                DBRequestType::CommandPermissionUpdate,
                Command::RoleAdjust { targetguild, target, invoker, allow },
            ),
            _ => Routed::Ignore,
        }
    } else {
        Routed::Ignore
    }
}

/// The seconds that the duration of a command comes to, where it gives one
/// of the right shape.
pub open spec fn length_of(duration: Option<String>) -> Option<i64> {
    match duration {
        Some(text) => span_of(text@),
        None => None,
    }
}

/// Routes a command: where it gives a duration, the text is first worked
/// out to seconds by [`millis`], and a text of another shape counts as no
/// duration.
pub fn route(name: &str, guild: Option<u64>, invoker: i64, options: CommandOptions) -> (to: Routed)
    ensures
        to == routed(name@, guild, invoker, options, length_of(options.duration)),
{
    let length: Option<i64> = match &options.duration {
        Some(text) => millis(text.clone()),
        None => None,
    };
    route_with_length(name, guild, invoker, options, length)
}

} // verus!
