//! What holds of every history, whatever is added to it, edited in it or
//! removed from it.

use crate::commands::PunishmentType;
use crate::record::{
    has_id, highest_id, ids_ascending, index_of_id, lemma_index_of_id, lemma_latest_is_highest,
    lemma_remove_keeps_order, lemma_update_keeps_order, after_removal, amended, recency_key,
    selected, with_added, with_amended, without_selected, ProfileView, PunishmentRecord,
};
use vstd::prelude::*;

verus! {

/// What a moderator gives when adding a punishment.
pub struct Addition {
    pub punishment: PunishmentType,
    pub reason: Option<String>,
    pub punished_for: (i64, i64),
    pub moderator: i64,
}

/// The history that stands after the given additions were made, one after
/// the other, to an empty profile.
pub open spec fn after_additions(additions: Seq<Addition>) -> Seq<PunishmentRecord>
    decreases additions.len(),
{
    if additions.len() == 0 {
        Seq::empty()
    } else {
        let last = additions.last();
        with_added(
            after_additions(additions.drop_last()),
            last.punishment,
            last.reason,
            last.punished_for,
            last.moderator,
        )
    }
}

/// Additions to an empty profile are numbered 1, 2, 3 and so on in the
/// order in which they are made, whatever their kinds, and each record
/// holds what its addition gave.
pub proof fn lemma_additions_count_from_one(additions: Seq<Addition>)
    requires
        additions.len() <= u64::MAX,
    ensures
        after_additions(additions).len() == additions.len(),
        forall|i: int|
            0 <= i < additions.len() ==> #[trigger] after_additions(additions)[i]
                == (PunishmentRecord {
                id: (i + 1) as u64,
                punishment: additions[i].punishment,
                reason: additions[i].reason,
                punished_for: additions[i].punished_for,
                moderator: additions[i].moderator,
            }),
        ids_ascending(after_additions(additions)),
    decreases additions.len(),
{
    if additions.len() > 0 {
        let before = additions.drop_last();
        lemma_additions_count_from_one(before);
        let history = after_additions(before);
        let grown = after_additions(additions);
        assert(highest_id(history) == before.len());
        assert forall|i: int| 0 <= i < additions.len() implies #[trigger] grown[i]
            == (PunishmentRecord {
            id: (i + 1) as u64,
            punishment: additions[i].punishment,
            reason: additions[i].reason,
            punished_for: additions[i].punished_for,
            moderator: additions[i].moderator,
        }) by {
            if i < before.len() {
                assert(grown[i] == history[i]);
                assert(before[i] == additions[i]);
            }
        }
    }
}

/// Removal by ID takes out the record with that ID and no other: the ID is
/// gone, every other ID stays, and the record under each of them is the one
/// that stood there before.
pub proof fn lemma_remove_by_id_spares_others(records: Seq<PunishmentRecord>, id: u64, latest: Option<bool>)
    requires
        ids_ascending(records),
    ensures
        ids_ascending(without_selected(records, Some(id), latest)),
        !has_id(without_selected(records, Some(id), latest), id),
        forall|other: u64|
            other != id ==> (has_id(without_selected(records, Some(id), latest), other) <==> has_id(
                records,
                other,
            )),
        forall|other: u64|
            other != id && has_id(records, other) ==> without_selected(
                records,
                Some(id),
                latest,
            )[index_of_id(without_selected(records, Some(id), latest), other)]
                == records[index_of_id(records, other)],
        has_id(records, id) ==> without_selected(records, Some(id), latest).len() == records.len()
            - 1,
{
    if has_id(records, id) {
        let at = index_of_id(records, id);
        lemma_remove_keeps_order(records, at);
    }
}

/// Removal of the latest takes out the record with the highest ID.
pub proof fn lemma_remove_latest_takes_highest(records: Seq<PunishmentRecord>)
    requires
        ids_ascending(records),
        records.len() > 0,
    ensures
        selected(records, None, Some(true)) == Some(index_of_id(records, highest_id(records) as u64)),
        forall|i: int| 0 <= i < records.len() ==> (#[trigger] records[i]).id <= highest_id(records),
        !has_id(without_selected(records, None, Some(true)), highest_id(records) as u64),
        forall|other: u64|
            other != highest_id(records) ==> (has_id(
                without_selected(records, None, Some(true)),
                other,
            ) <==> has_id(records, other)),
{
    lemma_latest_is_highest(records);
    lemma_index_of_id(records, records.len() - 1);
    lemma_remove_keeps_order(records, records.len() - 1);
}

/// An edit changes the reason and the expiry of the record it picks, each
/// only where a new value is given, and nothing else: not the other fields
/// of that record, and no other record.
pub proof fn lemma_edit_touches_only_what_is_given(
    records: Seq<PunishmentRecord>,
    id: Option<u64>,
    latest: Option<bool>,
    reason: Option<String>,
    expires: Option<i64>,
)
    requires
        ids_ascending(records),
    ensures
        with_amended(records, id, latest, reason, expires).len() == records.len(),
        forall|i: int|
            0 <= i < records.len() && selected(records, id, latest) != Some(i) ==> #[trigger] with_amended(
                records,
                id,
                latest,
                reason,
                expires,
            )[i] == records[i],
        forall|i: int|
            #![trigger with_amended(records, id, latest, reason, expires)[i]]
            0 <= i < records.len() ==> {
                let now = with_amended(records, id, latest, reason, expires)[i];
                &&& now.id == records[i].id
                &&& now.punishment == records[i].punishment
                &&& now.moderator == records[i].moderator
                &&& now.punished_for.0 == records[i].punished_for.0
                &&& reason.is_none() ==> now.reason == records[i].reason
                &&& expires.is_none() ==> now.punished_for.1 == records[i].punished_for.1
            },
        reason.is_none() && expires.is_none() ==> with_amended(records, id, latest, reason, expires)
            == records,
        ids_ascending(with_amended(records, id, latest, reason, expires)),
{
    match selected(records, id, latest) {
        Some(at) => {
            if id.is_some() {
                assert(0 <= at < records.len());
            }
            lemma_update_keeps_order(records, at, amended(records[at], reason, expires));
            if reason.is_none() && expires.is_none() {
                assert(amended(records[at], reason, expires) == records[at]);
                assert(with_amended(records, id, latest, reason, expires) =~= records);
            }
        },
        None => {},
    }
}

/// Removing an ID that is not there changes no record. So a second removal
/// of the same ID leaves the profile as the first one left it, but for the
/// recency key, which every removal sets: at the same moment nothing at all
/// changes.
pub proof fn lemma_remove_twice(
    profile: ProfileView,
    id: u64,
    latest: Option<bool>,
    first: i64,
    second: i64,
)
    requires
        ids_ascending(profile.records),
    ensures
        !has_id(profile.records, id) ==> after_removal(profile, Some(id), latest, first).records
            == profile.records,
        after_removal(after_removal(profile, Some(id), latest, first), Some(id), latest, second)
            == (ProfileView {
            recency: recency_key(second),
            ..after_removal(profile, Some(id), latest, first)
        }),
        second == first ==> after_removal(
            after_removal(profile, Some(id), latest, first),
            Some(id),
            latest,
            second,
        ) == after_removal(profile, Some(id), latest, first),
{
    lemma_remove_by_id_spares_others(profile.records, id, latest);
}

} // verus!
