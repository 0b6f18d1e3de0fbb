//! Punishment records and the per-user profile that keeps them in order.

use crate::commands::PunishmentType;
use crate::timestamp::{expiry_after, moment_after};
use vstd::prelude::*;

verus! {

/// One moderation action against a user. `punished_for` is the half-open
/// window from issue to expiry in seconds since the epoch; an expiry of zero
/// means that the punishment never lapses.
#[derive(Debug, PartialEq, Eq)]
pub struct PunishmentRecord {
    pub id: u64,
    pub punishment: PunishmentType,
    pub reason: Option<String>,
    pub punished_for: (i64, i64),
    pub moderator: i64,
}

impl Clone for PunishmentRecord {
    fn clone(&self) -> (copy: Self)
        ensures
            copy == *self,
    {
        let reason: Option<String> = match &self.reason {
            Some(text) => Some(text.clone()),
            None => None,
        };
        PunishmentRecord {
            id: self.id,
            punishment: self.punishment,
            reason,
            punished_for: self.punished_for,
            moderator: self.moderator,
        }
    }
}

/// Whether the command gate is open for one role. A role that was never
/// adjusted is denied.
#[derive(Clone, Copy, Debug, PartialEq, Eq, Structural)]
pub struct RolePermission {
    pub role_id: i64,
    pub allow: bool,
}

impl RolePermission {
    /// The default entry of a role: not allowed.
    pub fn new(role_id: i64) -> (entry: Self)
        ensures
            entry == (RolePermission { role_id, allow: false }),
    {
        RolePermission { role_id, allow: false }
    }

    /// The entry of a role as the store knows it, or the default where it
    /// knows none; `fresh` says that the default has to be stored.
    pub fn or_default(found: Option<RolePermission>, role_id: i64) -> (answer: (
        RolePermission,
        bool,
    ))
        ensures
            answer == match found {
                Some(entry) => (entry, false),
                None => (RolePermission { role_id, allow: false }, true),
            },
    {
        match found {
            Some(entry) => (entry, false),
            None => (RolePermission::new(role_id), true),
        }
    }
}

/// The mirror of one punishment that is due to lapse, kept per community
/// and user while its timer runs.
#[derive(Debug, PartialEq, Eq)]
pub struct Temporary {
    pub guild_id: u64,
    pub user_id: i64,
    pub punishment: PunishmentRecord,
    pub negdur: i64,
}

impl Clone for Temporary {
    fn clone(&self) -> (copy: Self)
        ensures
            copy == *self,
    {
        Temporary {
            guild_id: self.guild_id,
            user_id: self.user_id,
            punishment: self.punishment.clone(),
            negdur: self.negdur,
        }
    }
}

/// The key under which a value touched at `now` is indexed: the bitwise
/// complement of the time, so that an ascending index lists the most
/// recently touched first.
pub open spec fn recency_key(now: i64) -> i64 {
    !now
}

/// Computes [`recency_key`].
pub fn recency(now: i64) -> (key: i64)
    ensures
        key == recency_key(now),
{
    !now
}

/// A later touch sorts before an earlier one.
pub proof fn lemma_recency_reverses(earlier: i64, later: i64)
    requires
        earlier < later,
    ensures
        recency_key(later) < recency_key(earlier),
{
    assert(earlier < later ==> !later < !earlier) by (bit_vector);
}

/// Whether the IDs are positive and strictly ascending.
pub open spec fn ids_ascending(records: Seq<PunishmentRecord>) -> bool {
    &&& forall|i: int| 0 <= i < records.len() ==> (#[trigger] records[i]).id >= 1
    &&& forall|i: int, j: int|
        0 <= i < j < records.len() ==> (#[trigger] records[i]).id < (#[trigger] records[j]).id
}

/// Whether some record carries `id`.
pub open spec fn has_id(records: Seq<PunishmentRecord>, id: u64) -> bool {
    exists|i: int| 0 <= i < records.len() && (#[trigger] records[i]).id == id
}

/// The place of the record that carries `id`, where there is one.
pub open spec fn index_of_id(records: Seq<PunishmentRecord>, id: u64) -> int {
    choose|i: int| 0 <= i < records.len() && (#[trigger] records[i]).id == id
}

/// The highest ID in use, or zero where there is no record.
pub open spec fn highest_id(records: Seq<PunishmentRecord>) -> nat {
    if records.len() == 0 {
        0
    } else {
        records.last().id as nat
    }
}

/// The place of the record that a selector picks: the one with the given ID,
/// else, where `latest` is set, the one with the highest ID. An ID that is
/// given always wins over `latest`.
pub open spec fn selected(records: Seq<PunishmentRecord>, id: Option<u64>, latest: Option<bool>)
    -> Option<int> {
    match id {
        Some(wanted) => if has_id(records, wanted) {
            Some(index_of_id(records, wanted))
        } else {
            None
        },
        None => if latest == Some(true) && records.len() > 0 {
            Some(records.len() - 1)
        } else {
            None
        },
    }
}

/// A record after an edit: a reason that is given replaces the old one, and
/// so does an expiry; the rest stays.
pub open spec fn amended(record: PunishmentRecord, reason: Option<String>, expires: Option<i64>)
    -> PunishmentRecord {
    PunishmentRecord {
        id: record.id,
        punishment: record.punishment,
        reason: if reason.is_some() {
            reason
        } else {
            record.reason
        },
        punished_for: (
            record.punished_for.0,
            if expires.is_some() {
                expires.unwrap()
            } else {
                record.punished_for.1
            },
        ),
        moderator: record.moderator,
    }
}

/// The expiry that an edit by `length` seconds gives a record: that long
/// after the record was issued, where that moment can stand as a timestamp.
/// Where it cannot, or no length is given, the edit leaves the expiry alone.
pub open spec fn edited_expiry(record: PunishmentRecord, length: Option<i64>) -> Option<i64> {
    match length {
        Some(seconds) => moment_after(record.punished_for.0, seconds),
        None => None,
    }
}

/// The history with one more punishment, under the ID after the highest in
/// use.
pub open spec fn with_added(
    records: Seq<PunishmentRecord>,
    punishment: PunishmentType,
    reason: Option<String>,
    punished_for: (i64, i64),
    moderator: i64,
) -> Seq<PunishmentRecord> {
    records.push(
        PunishmentRecord {
            id: (highest_id(records) + 1) as u64,
            punishment,
            reason,
            punished_for,
            moderator,
        },
    )
}

/// The history without the record that the selector picks.
pub open spec fn without_selected(
    records: Seq<PunishmentRecord>,
    id: Option<u64>,
    latest: Option<bool>,
) -> Seq<PunishmentRecord> {
    match selected(records, id, latest) {
        Some(at) => records.remove(at),
        None => records,
    }
}

/// The history with the record that the selector picks edited.
pub open spec fn with_amended(
    records: Seq<PunishmentRecord>,
    id: Option<u64>,
    latest: Option<bool>,
    reason: Option<String>,
    expires: Option<i64>,
) -> Seq<PunishmentRecord> {
    match selected(records, id, latest) {
        Some(at) => records.update(at, amended(records[at], reason, expires)),
        None => records,
    }
}

/// With ascending IDs, an ID is found at one place only.
pub proof fn lemma_index_of_id(records: Seq<PunishmentRecord>, at: int)
    requires
        ids_ascending(records),
        0 <= at < records.len(),
    ensures
        has_id(records, records[at].id),
        index_of_id(records, records[at].id) == at,
{
    let found = index_of_id(records, records[at].id);
    assert(records[found].id == records[at].id);
    if found < at {
        assert(records[found].id < records[at].id);
    } else if at < found {
        assert(records[at].id < records[found].id);
    }
}

/// With ascending IDs, the last record carries the highest ID of all.
pub proof fn lemma_latest_is_highest(records: Seq<PunishmentRecord>)
    requires
        ids_ascending(records),
    ensures
        forall|i: int| 0 <= i < records.len() ==> (#[trigger] records[i]).id <= highest_id(records),
        records.len() > 0 ==> has_id(records, highest_id(records) as u64),
        !has_id(records, 0),
{
    assert forall|i: int| 0 <= i < records.len() implies (#[trigger] records[i]).id <= highest_id(
        records,
    ) by {
        if i < records.len() - 1 {
            assert(records[i].id < records[records.len() - 1].id);
        }
    }
    if records.len() > 0 {
        assert(records[records.len() - 1].id == highest_id(records));
    }
}

/// What a profile holds, as plain values.
pub struct ProfileView {
    pub user_id: i64,
    pub user_thread: Option<u64>,
    pub records: Seq<PunishmentRecord>,
    pub recency: i64,
}

/// A profile after a removal at `now`: without the record that the selector
/// picks, and touched.
pub open spec fn after_removal(
    profile: ProfileView,
    id: Option<u64>,
    latest: Option<bool>,
    now: i64,
) -> ProfileView {
    ProfileView {
        records: without_selected(profile.records, id, latest),
        recency: recency_key(now),
        ..profile
    }
}

/// The punishment history of one user in one community. Records are kept
/// in ascending order of their IDs, which are positive and never shared.
#[derive(Debug, PartialEq, Eq)]
pub struct Profile {
    user_id: i64,
    user_thread: Option<u64>,
    punishments: Vec<PunishmentRecord>,
    negdur: i64,
}

impl View for Profile {
    type V = ProfileView;

    closed spec fn view(&self) -> ProfileView {
        ProfileView {
            user_id: self.user_id,
            user_thread: self.user_thread,
            records: self.punishments@,
            recency: self.negdur,
        }
    }
}

impl Clone for Profile {
    fn clone(&self) -> (copy: Self)
        ensures
            copy@ == self@,
    {
        proof {
            use_type_invariant(self);
        }
        let mut records: Vec<PunishmentRecord> = Vec::new();
        let mut i: usize = 0;
        while i < self.punishments.len()
            invariant
                0 <= i <= self.punishments.len(),
                records@ == self.punishments@.take(i as int),
            decreases self.punishments.len() - i,
        {
            records.push(self.punishments[i].clone());
            proof {
                assert(records@ =~= self.punishments@.take(i as int + 1));
            }
            i = i + 1;
        }
        proof {
            assert(records@ =~= self.punishments@);
        }
        Profile {
            user_id: self.user_id,
            user_thread: self.user_thread,
            punishments: records,
            negdur: self.negdur,
        }
    }
}

impl Profile {
    #[verifier::type_invariant]
    spec fn ordered(self) -> bool {
        ids_ascending(self.punishments@)
    }

    /// A profile over the given records, touched at `now`; `None` where the
    /// IDs are not positive and strictly ascending.
    pub fn new(
        user_id: i64,
        user_thread: Option<u64>,
        punishments: Vec<PunishmentRecord>,
        now: i64,
    ) -> (profile: Option<Self>)
        ensures
            profile.is_some() <==> ids_ascending(punishments@),
            profile.is_some() ==> profile.unwrap()@ == (ProfileView {
                user_id,
                user_thread,
                records: punishments@,
                recency: recency_key(now),
            }),
    {
        let mut i: usize = 0;
        let mut last: u64 = 0;
        while i < punishments.len()
            invariant
                0 <= i <= punishments.len(),
                ids_ascending(punishments@.take(i as int)),
                i > 0 ==> last == punishments@[i - 1].id,
                i == 0 ==> last == 0,
            decreases punishments.len() - i,
        {
            if punishments[i].id <= last {
                proof {
                    if ids_ascending(punishments@) {
                        if i > 0 {
                            assert(punishments@[i - 1].id < punishments@[i as int].id);
                        } else {
                            assert(punishments@[i as int].id >= 1);
                        }
                    }
                }
                return None;
            }
            proof {
                let grown = punishments@.take(i as int + 1);
                let before = punishments@.take(i as int);
                assert forall|a: int, b: int| 0 <= a < b < grown.len() implies (
                #[trigger] grown[a]).id < (#[trigger] grown[b]).id by {
                    if b < i {
                        assert(before[a].id < before[b].id);
                    } else if a < i - 1 {
                        assert(before[a].id < before[i - 1].id);
                    }
                }
                assert forall|a: int| 0 <= a < grown.len() implies (#[trigger] grown[a]).id
                    >= 1 by {
                    if a < i {
                        assert(before[a].id >= 1);
                    }
                }
            }
            last = punishments[i].id;
            i = i + 1;
        }
        proof {
            assert(punishments@.take(i as int) =~= punishments@);
        }
        Some(Profile { user_id, user_thread, punishments, negdur: !now })
    }

    /// The user whose history this is.
    pub fn user_id(&self) -> (id: i64)
        ensures
            id == self@.user_id,
    {
        self.user_id
    }

    /// The moderation thread that shows this history, once one was made.
    pub fn user_thread(&self) -> (thread: Option<u64>)
        ensures
            thread == self@.user_thread,
    {
        self.user_thread
    }

    /// Remembers the moderation thread that shows this history.
    pub fn set_user_thread(&mut self, thread: u64)
        ensures
            final(self)@ == (ProfileView { user_thread: Some(thread), ..old(self)@ }),
    {
        proof {
            use_type_invariant(&*self);
        }
        self.user_thread = Some(thread);
    }

    /// The key under which the profile is indexed.
    pub fn negdur(&self) -> (key: i64)
        ensures
            key == self@.recency,
    {
        self.negdur
    }

    /// The records, in ascending order of their IDs.
    pub fn punishments(&self) -> (records: &Vec<PunishmentRecord>)
        ensures
            records@ == self@.records,
            ids_ascending(records@),
    {
        proof {
            use_type_invariant(self);
        }
        &self.punishments
    }

    /// Adds a punishment under the ID after the highest one in use (1 on an
    /// empty history) and touches the profile. Where the highest ID is the
    /// last that `u64` holds, nothing is added and the profile stays as it
    /// was.
    pub fn add_punishment(
        &mut self,
        punishment: PunishmentType,
        reason: Option<String>,
        punished_for: (i64, i64),
        moderator: i64,
        now: i64,
    ) -> (added: Option<PunishmentRecord>)
        ensures
            added.is_some() <==> highest_id(old(self)@.records) < u64::MAX,
            added.is_some() ==> added.unwrap() == (PunishmentRecord {
                id: (highest_id(old(self)@.records) + 1) as u64,
                punishment,
                reason,
                punished_for,
                moderator,
            }) && final(self)@ == (ProfileView {
                records: with_added(old(self)@.records, punishment, reason, punished_for, moderator),
                recency: recency_key(now),
                ..old(self)@
            }),
            added.is_none() ==> final(self)@ == old(self)@,
            ids_ascending(final(self)@.records),
    {
        proof {
            use_type_invariant(&*self);
            lemma_latest_is_highest(self.punishments@);
        }
        let count: usize = self.punishments.len();
        let highest: u64 = if count == 0 {
            0
        } else {
            self.punishments[count - 1].id
        };
        if highest == u64::MAX {
            return None;
        }
        let record = PunishmentRecord {
            id: highest + 1,
            punishment,
            reason,
            punished_for,
            moderator,
        };
        let copy = record.clone();
        let mut records: Vec<PunishmentRecord> = Vec::new();
        core::mem::swap(&mut self.punishments, &mut records);
        records.push(record);
        core::mem::swap(&mut self.punishments, &mut records);
        self.negdur = !now;
        Some(copy)
    }

    /// Where the record that the selector picks stands.
    fn locate(&self, id: Option<u64>, latest: Option<bool>) -> (place: Option<usize>)
        ensures
            match place {
                Some(at) => selected(self@.records, id, latest) == Some(at as int) && at
                    < self@.records.len(),
                None => selected(self@.records, id, latest).is_none(),
            },
    {
        proof {
            use_type_invariant(self);
        }
        match id {
            Some(wanted) => {
                let mut i: usize = 0;
                while i < self.punishments.len()
                    invariant
                        0 <= i <= self.punishments.len(),
                        id == Some(wanted),
                        ids_ascending(self.punishments@),
                        forall|k: int| 0 <= k < i ==> (#[trigger] self.punishments@[k]).id != wanted,
                    decreases self.punishments.len() - i,
                {
                    if self.punishments[i].id == wanted {
                        proof {
                            lemma_index_of_id(self.punishments@, i as int);
                        }
                        return Some(i);
                    }
                    i = i + 1;
                }
                None
            },
            None => {
                let count: usize = self.punishments.len();
                match latest {
                    Some(true) => if count > 0 {
                        Some(count - 1)
                    } else {
                        None
                    },
                    _ => None,
                }
            },
        }
    }

    /// Removes the record that the selector picks and hands it back; with
    /// no such record the history stays as it was. Either way the profile is
    /// touched.
    pub fn remove_punishment(&mut self, id: Option<u64>, latest: Option<bool>, now: i64) -> (removed:
        Option<PunishmentRecord>)
        ensures
            removed == match selected(old(self)@.records, id, latest) {
                Some(at) => Some(old(self)@.records[at]),
                None => None,
            },
            final(self)@ == after_removal(old(self)@, id, latest, now),
            ids_ascending(final(self)@.records),
    {
        proof {
            use_type_invariant(&*self);
        }
        let place = self.locate(id, latest);
        self.negdur = !now;
        match place {
            Some(at) => {
                proof {
                    lemma_remove_keeps_order(self.punishments@, at as int);
                }
                let mut records: Vec<PunishmentRecord> = Vec::new();
                core::mem::swap(&mut self.punishments, &mut records);
                let record = records.remove(at);
                core::mem::swap(&mut self.punishments, &mut records);
                Some(record)
            },
            None => None,
        }
    }

    /// Edits the record that the selector picks: a reason that is given
    /// replaces the old one wholesale, an expiry that is given replaces the
    /// old one. Hands back a copy of the record as it now stands; with no
    /// such record nothing but the recency key changes.
    pub fn amend(
        &mut self,
        id: Option<u64>,
        latest: Option<bool>,
        reason: Option<String>,
        expires: Option<i64>,
        now: i64,
    ) -> (edited: Option<PunishmentRecord>)
        ensures
            edited == match selected(old(self)@.records, id, latest) {
                Some(at) => Some(amended(old(self)@.records[at], reason, expires)),
                None => None,
            },
            final(self)@ == (ProfileView {
                records: with_amended(old(self)@.records, id, latest, reason, expires),
                recency: recency_key(now),
                ..old(self)@
            }),
            ids_ascending(final(self)@.records),
    {
        proof {
            use_type_invariant(&*self);
        }
        let place = self.locate(id, latest);
        self.negdur = !now;
        match place {
            Some(at) => {
                let current = self.punishments[at].clone();
                let record = PunishmentRecord {
                    id: current.id,
                    punishment: current.punishment,
                    reason: match reason {
                        Some(text) => Some(text),
                        None => current.reason,
                    },
                    punished_for: (
                        current.punished_for.0,
                        match expires {
                            Some(end) => end,
                            None => current.punished_for.1,
                        },
                    ),
                    moderator: current.moderator,
                };
                let copy = record.clone();
                proof {
                    lemma_update_keeps_order(self.punishments@, at as int, record);
                }
                let mut records: Vec<PunishmentRecord> = Vec::new();
                core::mem::swap(&mut self.punishments, &mut records);
                records.set(at, record);
                core::mem::swap(&mut self.punishments, &mut records);
                Some(copy)
            },
            None => None,
        }
    }
    /// Edits the record that the selector picks. A reason that is given
    /// replaces the old one. A length that is given moves the expiry to that
    /// many seconds after the moment of issue, unless that moment cannot
    /// stand as a timestamp: then the expiry stays. Hands back a copy of the
    /// record as it now stands; with no such record nothing but the recency
    /// key changes.
    pub fn edit_punishment(
        &mut self,
        id: Option<u64>,
        latest: Option<bool>,
        length: Option<i64>,
        reason: Option<String>,
        now: i64,
    ) -> (edited: Option<PunishmentRecord>)
        ensures
            edited == match selected(old(self)@.records, id, latest) {
                Some(at) => Some(
                    amended(
                        old(self)@.records[at],
                        reason,
                        edited_expiry(old(self)@.records[at], length),
                    ),
                ),
                None => None,
            },
            final(self)@ == (ProfileView {
                records: match selected(old(self)@.records, id, latest) {
                    Some(at) => with_amended(
                        old(self)@.records,
                        id,
                        latest,
                        reason,
                        edited_expiry(old(self)@.records[at], length),
                    ),
                    None => old(self)@.records,
                },
                recency: recency_key(now),
                ..old(self)@
            }),
            ids_ascending(final(self)@.records),
    {
        let expires: Option<i64> = match self.locate(id, latest) {
            Some(at) => match length {
                Some(seconds) => expiry_after(self.punishments[at].punished_for.0, seconds),
                None => None,
            },
            None => None,
        };
        self.amend(id, latest, reason, expires, now)
    }
}

/// Taking one record out leaves the others in order.
pub proof fn lemma_remove_keeps_order(records: Seq<PunishmentRecord>, at: int)
    requires
        ids_ascending(records),
        0 <= at < records.len(),
    ensures
        ids_ascending(records.remove(at)),
        !has_id(records.remove(at), records[at].id),
        forall|id: u64|
            id != records[at].id ==> (has_id(records.remove(at), id) <==> has_id(records, id)),
        forall|id: u64|
            id != records[at].id && has_id(records, id) ==> records.remove(at)[index_of_id(
                records.remove(at),
                id,
            )] == records[index_of_id(records, id)],
{
    let rest = records.remove(at);
    assert forall|i: int| 0 <= i < rest.len() implies #[trigger] rest[i] == records[if i < at {
        i
    } else {
        i + 1
    }] by {}
    assert forall|i: int, j: int| 0 <= i < j < rest.len() implies (#[trigger] rest[i]).id < (
    #[trigger] rest[j]).id by {
        let a = if i < at { i } else { i + 1 };
        let b = if j < at { j } else { j + 1 };
        assert(records[a].id < records[b].id);
    }
    assert forall|i: int| 0 <= i < rest.len() implies (#[trigger] rest[i]).id >= 1 by {
        let a = if i < at { i } else { i + 1 };
        assert(records[a].id >= 1);
    }
    if has_id(rest, records[at].id) {
        let i = index_of_id(rest, records[at].id);
        let a = if i < at { i } else { i + 1 };
        assert(rest[i] == records[a]);
        if a < at {
            assert(records[a].id < records[at].id);
        } else {
            assert(records[at].id < records[a].id);
        }
    }
    assert forall|id: u64| id != records[at].id implies (has_id(rest, id) <==> has_id(
        records,
        id,
    )) by {
        if has_id(rest, id) {
            let i = index_of_id(rest, id);
            let a = if i < at { i } else { i + 1 };
            assert(records[a].id == id);
        }
        if has_id(records, id) {
            let a = index_of_id(records, id);
            let i = if a < at { a } else { a - 1 };
            assert(rest[i].id == id);
        }
    }
    assert forall|id: u64| id != records[at].id && has_id(records, id) implies rest[index_of_id(
        rest,
        id,
    )] == records[index_of_id(records, id)] by {
        let a = index_of_id(records, id);
        let i = index_of_id(rest, id);
        let b = if i < at { i } else { i + 1 };
        assert(rest[i] == records[b]);
        lemma_index_of_id(records, b);
    }
}

/// Replacing a record by one of the same ID leaves the order as it was.
pub proof fn lemma_update_keeps_order(
    records: Seq<PunishmentRecord>,
    at: int,
    record: PunishmentRecord,
)
    requires
        ids_ascending(records),
        0 <= at < records.len(),
        record.id == records[at].id,
    ensures
        ids_ascending(records.update(at, record)),
{
    let next = records.update(at, record);
    assert forall|i: int, j: int| 0 <= i < j < next.len() implies (#[trigger] next[i]).id < (
    #[trigger] next[j]).id by {
        assert(records[i].id < records[j].id);
    }
    assert forall|i: int| 0 <= i < next.len() implies (#[trigger] next[i]).id >= 1 by {
        assert(records[i].id >= 1);
    }
}

} // verus!
