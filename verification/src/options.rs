//! Reading the options of a command as the platform nests them: plain
//! options, sub-commands with their options, and groups of sub-commands.

use crate::commands::{PunishmentAction, PunishmentType};
use crate::routing::{same_text, CommandOptions};
use vstd::prelude::*;

verus! {

/// The value of a plain option.
#[derive(Debug, PartialEq, Eq)]
pub enum Leaf {
    User { id: i64, member: bool },
    Role { id: i64 },
    Boolean { value: bool },
    Text { text: String },
    Other,
}

/// A plain option.
#[derive(Debug, PartialEq, Eq)]
pub struct LeafOption {
    pub name: String,
    pub value: Leaf,
}

/// A sub-command inside a group.
#[derive(Debug, PartialEq, Eq)]
pub struct SubCommand {
    pub name: String,
    pub options: Vec<LeafOption>,
}

/// What stands at the top of a command.
#[derive(Debug, PartialEq, Eq)]
pub enum TopValue {
    Plain { value: Leaf },
    SubCommand { options: Vec<LeafOption> },
    Group { commands: Vec<SubCommand> },
}

/// An option at the top of a command.
#[derive(Debug, PartialEq, Eq)]
pub struct TopOption {
    pub name: String,
    pub value: TopValue,
}

/// Which plain options are read at one place of a command.
#[derive(Clone, Copy, Debug, PartialEq, Eq, Structural)]
pub struct Accepts {
    pub user: bool,
    pub role: bool,
    pub allow: bool,
    pub duration: bool,
    pub reason: bool,
    pub latest: bool,
    pub id: bool,
}

/// What is read at the top of a command.
pub open spec fn at_top() -> Accepts {
    Accepts {
        user: true,
        role: true,
        allow: true,
        duration: false,
        reason: false,
        latest: false,
        id: false,
    }
}

/// What is read where a punishment is added.
pub open spec fn on_add() -> Accepts {
    Accepts {
        user: true,
        role: false,
        allow: false,
        duration: true,
        reason: true,
        latest: false,
        id: false,
    }
}

/// What is read where a punishment is removed.
pub open spec fn on_remove() -> Accepts {
    Accepts {
        user: true,
        role: false,
        allow: false,
        duration: false,
        reason: false,
        latest: true,
        id: true,
    }
}

/// What is read where a punishment is edited.
pub open spec fn on_edit() -> Accepts {
    Accepts {
        user: true,
        role: false,
        allow: false,
        duration: true,
        reason: true,
        latest: true,
        id: true,
    }
}

/// The options with one plain option read in. An option under a name that
/// is not read here, or with a value of another kind than its name asks
/// for, changes nothing. A user who is a member stays one.
pub open spec fn with_leaf(options: CommandOptions, leaf: LeafOption, accepts: Accepts)
    -> CommandOptions {
    match leaf.value {
        Leaf::User { id, member } => if accepts.user && leaf.name@ == "user"@ {
            CommandOptions { user: Some(id), member: options.member || member, ..options }
        } else {
            options
        },
        Leaf::Role { id } => if accepts.role && leaf.name@ == "role"@ {
            CommandOptions { role: Some(id), ..options }
        } else {
            options
        },
        Leaf::Boolean { value } => if accepts.allow && leaf.name@ == "allow"@ {
            CommandOptions { allow: Some(value), ..options }
        } else if accepts.latest && leaf.name@ == "latest"@ {
            CommandOptions { latest: Some(value), ..options }
        } else {
            options
        },
        Leaf::Text { text } => if accepts.duration && leaf.name@ == "duration"@ {
            CommandOptions { duration: Some(text), ..options }
        } else if accepts.reason && leaf.name@ == "reason"@ {
            CommandOptions { reason: Some(text), ..options }
        } else if accepts.id && leaf.name@ == "id"@ {
            CommandOptions { id: Some(text), ..options }
        } else {
            options
        },
        Leaf::Other => options,
    }
}

/// The options with plain options read in one after the other: a later one
/// replaces what an earlier one gave under the same name.
pub open spec fn with_leaves(options: CommandOptions, leaves: Seq<LeafOption>, accepts: Accepts)
    -> CommandOptions
    decreases leaves.len(),
{
    if leaves.len() == 0 {
        options
    } else {
        with_leaf(with_leaves(options, leaves.drop_last(), accepts), leaves.last(), accepts)
    }
}

/// The kind of punishment that a sub-command of `add` names.
pub open spec fn kind_named(name: Seq<char>) -> Option<PunishmentType> {
    if name == "warn"@ {
        Some(PunishmentType::Warn)
    } else if name == "mute"@ {
        Some(PunishmentType::Mute)
    } else if name == "timeout"@ {
        Some(PunishmentType::Timeout)
    } else if name == "ban"@ {
        Some(PunishmentType::Ban)
    } else {
        None
    }
}

/// The options with one sub-command of `add` read in: its name gives the
/// kind of punishment, its options the rest. One of another name changes
/// nothing.
pub open spec fn with_sub_command(options: CommandOptions, command: SubCommand) -> CommandOptions {
    match kind_named(command.name@) {
        Some(kind) => with_leaves(
            CommandOptions { punishment: Some(kind), ..options },
            command.options@,
            on_add(),
        ),
        None => options,
    }
}

/// The options with the sub-commands of `add` read in one after the other.
pub open spec fn with_sub_commands(options: CommandOptions, commands: Seq<SubCommand>)
    -> CommandOptions
    decreases commands.len(),
{
    if commands.len() == 0 {
        options
    } else {
        with_sub_command(with_sub_commands(options, commands.drop_last()), commands.last())
    }
}

/// The options with one option from the top of a command read in.
pub open spec fn with_top(options: CommandOptions, top: TopOption) -> CommandOptions {
    match top.value {
        TopValue::Plain { value } => with_leaf(
            options,
            LeafOption { name: top.name, value },
            at_top(),
        ),
        TopValue::Group { commands } => if top.name@ == "add"@ {
            with_sub_commands(
                CommandOptions { action: Some(PunishmentAction::Add), ..options },
                commands@,
            )
        } else {
            options
        },
        TopValue::SubCommand { options: leaves } => if top.name@ == "remove"@ {
            with_leaves(
                CommandOptions { action: Some(PunishmentAction::Remove), ..options },
                leaves@,
                on_remove(),
            )
        } else if top.name@ == "edit"@ {
            with_leaves(
                CommandOptions { action: Some(PunishmentAction::Edit), ..options },
                leaves@,
                on_edit(),
            )
        } else {
            options
        },
    }
}

/// The options with everything at the top of a command read in, one after
/// the other.
pub open spec fn with_tops(options: CommandOptions, tops: Seq<TopOption>) -> CommandOptions
    decreases tops.len(),
{
    if tops.len() == 0 {
        options
    } else {
        with_top(with_tops(options, tops.drop_last()), tops.last())
    }
}

/// The options of a command in which nothing was given yet.
pub open spec fn no_options() -> CommandOptions {
    CommandOptions {
        user: None,
        member: false,
        role: None,
        reason: None,
        allow: None,
        duration: None,
        id: None,
        latest: None,
        punishment: None,
        action: None,
    }
}

/// Computes [`with_leaf`] for a value under a name.
fn read_value(options: CommandOptions, name: &String, value: &Leaf, accepts: Accepts) -> (read:
    CommandOptions)
    ensures
        read == with_leaf(options, LeafOption { name: *name, value: *value }, accepts),
{
    let mut options = options;
    let name = name.as_str();
    match value {
        Leaf::User { id, member } => {
            if accepts.user && same_text(name, "user") {
                options.user = Some(*id);
                options.member = options.member || *member;
            }
        },
        Leaf::Role { id } => {
            if accepts.role && same_text(name, "role") {
                options.role = Some(*id);
            }
        },
        Leaf::Boolean { value } => {
            if accepts.allow && same_text(name, "allow") {
                options.allow = Some(*value);
            } else if accepts.latest && same_text(name, "latest") {
                options.latest = Some(*value);
            }
        },
        Leaf::Text { text } => {
            if accepts.duration && same_text(name, "duration") {
                options.duration = Some(text.clone());
            } else if accepts.reason && same_text(name, "reason") {
                options.reason = Some(text.clone());
            } else if accepts.id && same_text(name, "id") {
                options.id = Some(text.clone());
            }
        },
        Leaf::Other => {},
    }
    options
}

/// Computes [`with_leaves`].
fn read_leaves(options: CommandOptions, leaves: &Vec<LeafOption>, accepts: Accepts) -> (read:
    CommandOptions)
    ensures
        read == with_leaves(options, leaves@, accepts),
{
    let ghost start = options;
    let mut options = options;
    let mut i: usize = 0;
    while i < leaves.len()
        invariant
            0 <= i <= leaves.len(),
            options == with_leaves(start, leaves@.take(i as int), accepts),
        decreases leaves.len() - i,
    {
        proof {
            assert(leaves@.take(i as int + 1).drop_last() =~= leaves@.take(i as int));
            assert(leaves@.take(i as int + 1).last() == leaves@[i as int]);
        }
        options = read_value(options, &leaves[i].name, &leaves[i].value, accepts);
        i = i + 1;
    }
    proof {
        assert(leaves@.take(i as int) =~= leaves@);
    }
    options
}

/// Computes [`kind_named`].
fn kind_of(name: &str) -> (kind: Option<PunishmentType>)
    ensures
        kind == kind_named(name@),
{
    if same_text(name, "warn") {
        Some(PunishmentType::Warn)
    } else if same_text(name, "mute") {
        Some(PunishmentType::Mute)
    } else if same_text(name, "timeout") {
        Some(PunishmentType::Timeout)
    } else if same_text(name, "ban") {
        Some(PunishmentType::Ban)
    } else {
        None
    }
}

/// Computes [`with_sub_commands`].
fn read_sub_commands(options: CommandOptions, commands: &Vec<SubCommand>) -> (read: CommandOptions)
    ensures
        read == with_sub_commands(options, commands@),
{
    let ghost start = options;
    let mut options = options;
    let mut i: usize = 0;
    while i < commands.len()
        invariant
            0 <= i <= commands.len(),
            options == with_sub_commands(start, commands@.take(i as int)),
        decreases commands.len() - i,
    {
        proof {
            assert(commands@.take(i as int + 1).drop_last() =~= commands@.take(i as int));
            assert(commands@.take(i as int + 1).last() == commands@[i as int]);
        }
        match kind_of(commands[i].name.as_str()) {
            Some(kind) => {
                options.punishment = Some(kind);
                options = read_leaves(options, &commands[i].options, Accepts {
                    user: true,
                    role: false,
                    allow: false,
                    duration: true,
                    reason: true,
                    latest: false,
                    id: false,
                });
            },
            None => {},
        }
        i = i + 1;
    }
    proof {
        assert(commands@.take(i as int) =~= commands@);
    }
    options
}

/// Computes [`with_top`].
fn read_top(options: CommandOptions, top: &TopOption) -> (read: CommandOptions)
    ensures
        read == with_top(options, *top),
{
    let mut options = options;
    match &top.value {
        TopValue::Plain { value } => read_value(options, &top.name, value, Accepts {
            user: true,
            role: true,
            allow: true,
            duration: false,
            reason: false,
            latest: false,
            id: false,
        }),
        TopValue::Group { commands } => {
            if same_text(top.name.as_str(), "add") {
                options.action = Some(PunishmentAction::Add);
                read_sub_commands(options, commands)
            } else {
                options
            }
        },
        TopValue::SubCommand { options: leaves } => {
            if same_text(top.name.as_str(), "remove") {
                options.action = Some(PunishmentAction::Remove);
                read_leaves(options, leaves, Accepts {
                    user: true,
                    role: false,
                    allow: false,
                    duration: false,
                    reason: false,
                    latest: true,
                    id: true,
                })
            } else if same_text(top.name.as_str(), "edit") {
                options.action = Some(PunishmentAction::Edit);
                read_leaves(options, leaves, Accepts {
                    user: true,
                    role: false,
                    allow: false,
                    duration: true,
                    reason: true,
                    latest: true,
                    id: true,
                })
            } else {
                options
            }
        },
    }
}

/// Reads the options of a command, from the top down and in the order in
/// which they stand.
pub fn collect_options(tops: &Vec<TopOption>) -> (read: CommandOptions)
    ensures
        read == with_tops(no_options(), tops@),
{
    let mut options = CommandOptions::default();
    let mut i: usize = 0;
    while i < tops.len()
        invariant
            0 <= i <= tops.len(),
            options == with_tops(no_options(), tops@.take(i as int)),
        decreases tops.len() - i,
    {
        proof {
            assert(tops@.take(i as int + 1).drop_last() =~= tops@.take(i as int));
            assert(tops@.take(i as int + 1).last() == tops@[i as int]);
        }
        options = read_top(options, &tops[i]);
        i = i + 1;
    }
    proof {
        assert(tops@.take(i as int) =~= tops@);
    }
    options
}

} // verus!
