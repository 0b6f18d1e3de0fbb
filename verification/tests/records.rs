use modbot::commands::PunishmentType;
use modbot::record::{recency, Profile, PunishmentRecord, RolePermission};

fn record(id: u64, kind: PunishmentType, reason: Option<&str>, window: (i64, i64)) -> PunishmentRecord {
    PunishmentRecord {
        id,
        punishment: kind,
        reason: reason.map(|text| text.to_string()),
        punished_for: window,
        moderator: 7,
    }
}

fn fresh(user: i64) -> Profile {
    Profile::new(user, None, Vec::new(), 1_000).unwrap()
}

fn three() -> Profile {
    let mut profile = fresh(42);
    profile.add_punishment(PunishmentType::Warn, Some("spam".to_string()), (1_000, 0), 7, 1_000);
    profile.add_punishment(PunishmentType::Mute, None, (1_001, 4_601), 7, 1_001);
    profile.add_punishment(PunishmentType::Ban, Some("raid".to_string()), (1_002, 0), 7, 1_002);
    profile
}

#[test]
fn ids_count_from_one_whatever_the_kind() {
    let mut profile = fresh(42);
    let kinds = [
        PunishmentType::Warn,
        PunishmentType::Ban,
        PunishmentType::Mute,
        PunishmentType::Timeout,
        PunishmentType::Warn,
    ];
    for (at, kind) in kinds.iter().enumerate() {
        let added = profile.add_punishment(*kind, None, (10, 0), 7, 10).unwrap();
        assert_eq!(added.id, at as u64 + 1);
        assert_eq!(added.punishment, *kind);
    }
    let ids: Vec<u64> = profile.punishments().iter().map(|r| r.id).collect();
    assert_eq!(ids, vec![1, 2, 3, 4, 5]);
}

#[test]
fn ids_pass_nine_in_numeric_order() {
    let mut profile = fresh(1);
    for _ in 0..12 {
        profile.add_punishment(PunishmentType::Warn, None, (10, 0), 7, 10);
    }
    let removed = profile.remove_punishment(None, Some(true), 11).unwrap();
    assert_eq!(removed.id, 12);
    let removed = profile.remove_punishment(None, Some(true), 11).unwrap();
    assert_eq!(removed.id, 11);
    let added = profile.add_punishment(PunishmentType::Warn, None, (10, 0), 7, 12).unwrap();
    assert_eq!(added.id, 11);
}

#[test]
fn added_record_holds_what_was_given() {
    let mut profile = fresh(42);
    let added = profile
        .add_punishment(PunishmentType::Mute, Some("toxic".to_string()), (50, 3_650), 9, 50)
        .unwrap();
    assert_eq!(
        added,
        PunishmentRecord {
            id: 1,
            punishment: PunishmentType::Mute,
            reason: Some("toxic".to_string()),
            punished_for: (50, 3_650),
            moderator: 9,
        }
    );
    assert_eq!(profile.punishments(), &vec![added]);
    assert_eq!(profile.negdur(), !50);
    assert_eq!(profile.user_id(), 42);
    assert_eq!(profile.user_thread(), None);
}

#[test]
fn full_history_takes_no_more() {
    let last = record(u64::MAX, PunishmentType::Warn, None, (1, 0));
    let mut profile = Profile::new(5, Some(77), vec![last.clone()], 10).unwrap();
    let added = profile.add_punishment(PunishmentType::Ban, None, (2, 0), 7, 20);
    assert_eq!(added, None);
    assert_eq!(profile.punishments(), &vec![last]);
    assert_eq!(profile.negdur(), !10);
}

#[test]
fn new_takes_ascending_positive_ids_only() {
    let a = record(1, PunishmentType::Warn, None, (1, 0));
    let b = record(4, PunishmentType::Ban, None, (2, 0));
    let zero = record(0, PunishmentType::Ban, None, (2, 0));
    assert!(Profile::new(1, None, vec![a.clone(), b.clone()], 3).is_some());
    assert!(Profile::new(1, None, vec![b.clone(), a.clone()], 3).is_none());
    assert!(Profile::new(1, None, vec![a.clone(), a.clone()], 3).is_none());
    assert!(Profile::new(1, None, vec![zero], 3).is_none());
    let kept = Profile::new(1, Some(9), vec![a.clone(), b.clone()], 3).unwrap();
    assert_eq!(kept.punishments(), &vec![a, b]);
    assert_eq!(kept.user_thread(), Some(9));
    assert_eq!(kept.negdur(), -4);
}

#[test]
fn remove_by_id_spares_the_others() {
    let mut profile = three();
    let before = profile.clone();
    let removed = profile.remove_punishment(Some(2), None, 2_000).unwrap();
    assert_eq!(removed, before.punishments()[1]);
    assert_eq!(
        profile.punishments(),
        &vec![before.punishments()[0].clone(), before.punishments()[2].clone()]
    );
    assert_eq!(profile.negdur(), !2_000);
}

#[test]
fn remove_by_id_wins_over_latest() {
    let mut profile = three();
    let removed = profile.remove_punishment(Some(1), Some(true), 2_000).unwrap();
    assert_eq!(removed.id, 1);
    let ids: Vec<u64> = profile.punishments().iter().map(|r| r.id).collect();
    assert_eq!(ids, vec![2, 3]);
}

#[test]
fn remove_latest_takes_the_highest_id() {
    let mut profile = three();
    let removed = profile.remove_punishment(None, Some(true), 2_000).unwrap();
    assert_eq!(removed.id, 3);
    let removed = profile.remove_punishment(None, Some(true), 2_001).unwrap();
    assert_eq!(removed.id, 2);
    let removed = profile.remove_punishment(None, Some(true), 2_002).unwrap();
    assert_eq!(removed.id, 1);
    assert_eq!(profile.remove_punishment(None, Some(true), 2_003), None);
    assert!(profile.punishments().is_empty());
}

#[test]
fn remove_without_a_selector_changes_no_record() {
    let mut profile = three();
    let before = profile.clone();
    assert_eq!(profile.remove_punishment(None, None, 2_000), None);
    assert_eq!(profile.remove_punishment(None, Some(false), 2_000), None);
    assert_eq!(profile.punishments(), before.punishments());
    assert_eq!(profile.negdur(), !2_000);
}

#[test]
fn removing_an_absent_id_twice_changes_nothing() {
    let mut profile = three();
    assert!(profile.remove_punishment(Some(2), None, 2_000).is_some());
    let after_first = profile.clone();
    assert_eq!(profile.remove_punishment(Some(2), None, 2_000), None);
    assert_eq!(profile, after_first);
    assert_eq!(profile.remove_punishment(Some(99), None, 2_000), None);
    assert_eq!(profile, after_first);
}

#[test]
fn amend_changes_only_what_is_given() {
    let mut profile = three();
    let before = profile.clone();
    let edited = profile.amend(Some(2), None, Some("calmer".to_string()), None, 3_000).unwrap();
    assert_eq!(edited.reason, Some("calmer".to_string()));
    assert_eq!(edited.punished_for, (1_001, 4_601));
    assert_eq!(edited.id, 2);
    assert_eq!(edited.punishment, PunishmentType::Mute);
    assert_eq!(edited.moderator, 7);
    assert_eq!(profile.punishments()[0], before.punishments()[0]);
    assert_eq!(profile.punishments()[1], edited);
    assert_eq!(profile.punishments()[2], before.punishments()[2]);

    let edited = profile.amend(None, Some(true), None, Some(9_000), 3_001).unwrap();
    assert_eq!(edited.id, 3);
    assert_eq!(edited.reason, Some("raid".to_string()));
    assert_eq!(edited.punished_for, (1_002, 9_000));
    assert_eq!(profile.negdur(), !3_001);
}

#[test]
fn amend_of_an_absent_record_is_silent() {
    let mut profile = three();
    let before = profile.clone();
    assert_eq!(profile.amend(Some(8), None, Some("x".to_string()), Some(5), 3_000), None);
    assert_eq!(profile.amend(None, None, Some("x".to_string()), Some(5), 3_000), None);
    assert_eq!(profile.punishments(), before.punishments());
}

#[test]
fn edit_counts_the_length_from_the_moment_of_issue() {
    let mut profile = three();
    let edited = profile.edit_punishment(Some(2), None, Some(60), None, 3_000).unwrap();
    assert_eq!(edited.punished_for, (1_001, 1_061));
    assert_eq!(edited.reason, None);
    let edited = profile
        .edit_punishment(None, Some(true), Some(86_400), Some("appeal".to_string()), 3_000)
        .unwrap();
    assert_eq!(edited.id, 3);
    assert_eq!(edited.punished_for, (1_002, 87_402));
    assert_eq!(edited.reason, Some("appeal".to_string()));
}

#[test]
fn edit_keeps_the_expiry_where_the_new_one_cannot_stand() {
    let mut profile = three();
    let edited = profile.edit_punishment(Some(2), None, Some(i64::MAX), None, 3_000).unwrap();
    assert_eq!(edited.punished_for, (1_001, 4_601));
    let edited = profile
        .edit_punishment(Some(2), None, Some(i64::MAX / 1000 - 1_001), None, 3_000)
        .unwrap();
    assert_eq!(edited.punished_for, (1_001, 4_601));
    let edited = profile.edit_punishment(Some(2), None, Some(i64::MIN), None, 3_000).unwrap();
    assert_eq!(edited.punished_for, (1_001, 4_601));
}

#[test]
fn recency_key_is_the_complement() {
    assert_eq!(recency(0), -1);
    assert_eq!(recency(5), -6);
    assert_eq!(recency(-1), 0);
    assert!(recency(2_000) < recency(1_000));
}

#[test]
fn set_user_thread_keeps_the_rest() {
    let mut profile = three();
    let before = profile.clone();
    profile.set_user_thread(555);
    assert_eq!(profile.user_thread(), Some(555));
    assert_eq!(profile.punishments(), before.punishments());
    assert_eq!(profile.negdur(), before.negdur());
}

#[test]
fn role_defaults_to_denied() {
    assert_eq!(RolePermission::new(12), RolePermission { role_id: 12, allow: false });
}
