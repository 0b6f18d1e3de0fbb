//! What a punishment means on the platform, and how a history is marked
//! when it is shown.

use crate::commands::PunishmentType;
use crate::record::PunishmentRecord;
use vstd::prelude::*;

verus! {

/// The role that marks a muted member.
pub const MUTE_ROLE: &'static str = "Muted";

/// One thing that the platform is asked to do to a member.
#[derive(Clone, Copy, Debug, PartialEq, Eq, Structural)]
pub enum PlatformAction {
    Nothing,
    Ban,
    Unban,
    GrantMuteRole,
    RevokeMuteRole,
    TimeoutUntil { until: i64 },
    EndTimeout,
}

/// What putting a punishment in force asks of the platform.
pub open spec fn applying(record: PunishmentRecord) -> PlatformAction {
    match record.punishment {
        PunishmentType::Ban => PlatformAction::Ban,
        PunishmentType::Mute => PlatformAction::GrantMuteRole,
        PunishmentType::Timeout => PlatformAction::TimeoutUntil { until: record.punished_for.1 },
        PunishmentType::Warn => PlatformAction::Nothing,
    }
}

/// What lifting a punishment asks of the platform.
pub open spec fn reverting(record: PunishmentRecord) -> PlatformAction {
    match record.punishment {
        PunishmentType::Ban => PlatformAction::Unban,
        PunishmentType::Mute => PlatformAction::RevokeMuteRole,
        PunishmentType::Timeout => PlatformAction::EndTimeout,
        PunishmentType::Warn => PlatformAction::Nothing,
    }
}

/// Computes [`applying`].
pub fn apply_punishment(record: &PunishmentRecord) -> (action: PlatformAction)
    ensures
        action == applying(*record),
{
    match record.punishment {
        PunishmentType::Ban => PlatformAction::Ban,
        PunishmentType::Mute => PlatformAction::GrantMuteRole,
        PunishmentType::Timeout => PlatformAction::TimeoutUntil { until: record.punished_for.1 },
        PunishmentType::Warn => PlatformAction::Nothing,
    }
}

/// Computes [`reverting`].
pub fn remove_punishment(record: &PunishmentRecord) -> (action: PlatformAction)
    ensures
        action == reverting(*record),
{
    match record.punishment {
        PunishmentType::Ban => PlatformAction::Unban,
        PunishmentType::Mute => PlatformAction::RevokeMuteRole,
        PunishmentType::Timeout => PlatformAction::EndTimeout,
        PunishmentType::Warn => PlatformAction::Nothing,
    }
}

/// Whether a punishment is in force at `now`: it is while it has not
/// lapsed, and always where it never lapses.
pub open spec fn in_force(record: PunishmentRecord, now: i64) -> bool {
    record.punished_for.1 == 0 || record.punished_for.1 > now
}

/// Computes [`in_force`].
pub fn is_active(record: &PunishmentRecord, now: i64) -> (active: bool)
    ensures
        active == in_force(*record, now),
{
    record.punished_for.1 == 0 || record.punished_for.1 > now
}

/// The colour that a kind of punishment gives a history: red for a ban,
/// orange for a mute, yellow for a timeout, none for a warning.
pub open spec fn colour_of(kind: PunishmentType) -> Option<u32> {
    match kind {
        PunishmentType::Ban => Some(0xFF0000u32),
        PunishmentType::Mute => Some(0xFF9900u32),
        PunishmentType::Timeout => Some(0xFFE600u32),
        PunishmentType::Warn => None,
    }
}

/// The word that marks a history whose user is under a punishment of this
/// kind: none for a warning.
pub open spec fn label_of(kind: PunishmentType) -> Option<Seq<char>> {
    match kind {
        PunishmentType::Ban => Some("Banned"@),
        PunishmentType::Mute => Some("Muted"@),
        PunishmentType::Timeout => Some("Timeout"@),
        PunishmentType::Warn => None,
    }
}

/// The word that a record adds to the marks of a history at `now`: that of
/// its kind while it is in force.
pub fn status_label(record: &PunishmentRecord, now: i64) -> (label: Option<&'static str>)
    ensures
        match label {
            Some(word) => in_force(*record, now) && label_of(record.punishment) == Some(word@),
            None => !in_force(*record, now) || label_of(record.punishment).is_none(),
        },
{
    if !is_active(record, now) {
        return None;
    }
    match record.punishment {
        PunishmentType::Ban => Some("Banned"),
        PunishmentType::Mute => Some("Muted"),
        PunishmentType::Timeout => Some("Timeout"),
        PunishmentType::Warn => None,
    }
}

/// Whether a record colours the history at `now`.
pub open spec fn colours(record: PunishmentRecord, now: i64) -> bool {
    in_force(record, now) && colour_of(record.punishment).is_some()
}

/// The colour of a history at `now`: that of the last punishment that is in
/// force and has a colour.
pub open spec fn accent(records: Seq<PunishmentRecord>, now: i64) -> Option<u32>
    decreases records.len(),
{
    if records.len() == 0 {
        None
    } else if colours(records.last(), now) {
        colour_of(records.last().punishment)
    } else {
        accent(records.drop_last(), now)
    }
}

/// Computes [`accent`].
pub fn embed_colour(records: &Vec<PunishmentRecord>, now: i64) -> (colour: Option<u32>)
    ensures
        colour == accent(records@, now),
{
    let mut left: usize = records.len();
    proof {
        assert(records@.take(left as int) =~= records@);
    }
    while left > 0
        invariant
            0 <= left <= records.len(),
            accent(records@, now) == accent(records@.take(left as int), now),
        decreases left,
    {
        let record = &records[left - 1];
        proof {
            assert(records@.take(left as int).last() == *record);
            assert(records@.take(left as int).drop_last() =~= records@.take(left as int - 1));
        }
        if is_active(record, now) {
            match record.punishment {
                PunishmentType::Ban => {
                    return Some(0xFF0000);
                },
                PunishmentType::Mute => {
                    return Some(0xFF9900);
                },
                PunishmentType::Timeout => {
                    return Some(0xFFE600);
                },
                PunishmentType::Warn => {},
            }
        }
        left = left - 1;
    }
    None
}

} // verus!
