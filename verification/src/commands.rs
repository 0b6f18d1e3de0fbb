//! The vocabulary of the moderation commands.

use vstd::prelude::*;

verus! {

/// The slash commands that the bot registers.
#[derive(Clone, Copy, Debug, PartialEq, Eq, Structural)]
pub enum ModbotCmd {
    FetchProfile,
    Punishment,
    RoleSet,
}

impl ModbotCmd {
    /// The name under which the command is registered and invoked.
    pub open spec fn registered_name(self) -> Seq<char> {
        match self {
            ModbotCmd::FetchProfile => "fetchprofile"@,
            ModbotCmd::Punishment => "punish"@,
            ModbotCmd::RoleSet => "roleset"@,
        }
    }

    /// Computes [`ModbotCmd::registered_name`].
    pub fn name(&self) -> (name: &'static str)
        ensures
            name@ == self.registered_name(),
    {
        match self {
            ModbotCmd::FetchProfile => "fetchprofile",
            ModbotCmd::Punishment => "punish",
            ModbotCmd::RoleSet => "roleset",
        }
    }
}

/// What a punishment does to its target.
#[derive(Clone, Copy, Debug, PartialEq, Eq, Structural)]
pub enum PunishmentType {
    Warn,
    Mute,
    Ban,
    Timeout,
}

/// What a moderator asks to be done with a punishment.
#[derive(Clone, Copy, Debug, PartialEq, Eq, Structural)]
pub enum PunishmentAction {
    Add,
    Remove,
    Edit,
}

} // verus!
