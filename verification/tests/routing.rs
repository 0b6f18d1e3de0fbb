use modbot::commands::{ModbotCmd, PunishmentAction, PunishmentType};
use modbot::options::{collect_options, Leaf, LeafOption, SubCommand, TopOption, TopValue};
use modbot::punishment::{
    apply_punishment, embed_colour, is_active, remove_punishment, status_label, PlatformAction,
    MUTE_ROLE,
};
use modbot::record::{PunishmentRecord, RolePermission};
use modbot::request::{Command, DBRequest, DBRequestType};
use modbot::routing::{
    id_text, parse_id, route, route_with_length, same_text, CommandOptions, Rejection, Routed,
};

fn leaf(name: &str, value: Leaf) -> LeafOption {
    LeafOption { name: name.to_string(), value }
}

fn text(name: &str, value: &str) -> LeafOption {
    leaf(name, Leaf::Text { text: value.to_string() })
}

fn top(name: &str, value: TopValue) -> TopOption {
    TopOption { name: name.to_string(), value }
}

fn record(kind: PunishmentType, expires: i64) -> PunishmentRecord {
    PunishmentRecord { id: 1, punishment: kind, reason: None, punished_for: (100, expires), moderator: 7 }
}

fn sent(request_type: DBRequestType, command: Command) -> Routed {
    Routed::Send { request: DBRequest { request_type, command: Some(command), threadlog: None } }
}

#[test]
fn same_text_compares_whole_texts() {
    assert!(same_text("", ""));
    assert!(same_text("punish", "punish"));
    assert!(!same_text("punish", "punis"));
    assert!(!same_text("punish", "Punish"));
    assert!(!same_text("é", "e"));
    assert!(same_text("é", "é"));
}

#[test]
fn parse_id_reads_numbers_and_gives_zero_otherwise() {
    assert_eq!(parse_id("1"), 1);
    assert_eq!(parse_id("10"), 10);
    assert_eq!(parse_id("18446744073709551615"), u64::MAX);
    assert_eq!(parse_id("18446744073709551616"), 0);
    assert_eq!(parse_id(""), 0);
    assert_eq!(parse_id("x"), 0);
    assert_eq!(parse_id("-1"), 0);
}

#[test]
fn commands_outside_a_community_are_rejected() {
    let options = CommandOptions { user: Some(42), ..CommandOptions::default() };
    assert_eq!(
        route_with_length("punish", None, 7, options, None),
        Routed::Reject { why: Rejection::GuildOnly }
    );
}

#[test]
fn punish_needs_a_user_and_an_action() {
    let options = CommandOptions { action: Some(PunishmentAction::Remove), ..CommandOptions::default() };
    assert_eq!(
        route_with_length("punish", Some(100), 7, options, None),
        Routed::Reject { why: Rejection::MissingUser }
    );
    let options = CommandOptions { user: Some(42), ..CommandOptions::default() };
    assert_eq!(
        route_with_length("punish", Some(100), 7, options, None),
        Routed::Reject { why: Rejection::MissingAction }
    );
    let options =
        CommandOptions { user: Some(42), action: Some(PunishmentAction::Add), ..CommandOptions::default() };
    assert_eq!(route_with_length("punish", Some(100), 7, options, Some(60)), Routed::Ignore);
}

#[test]
fn punish_add_becomes_a_request() {
    let options = CommandOptions {
        user: Some(42),
        action: Some(PunishmentAction::Add),
        punishment: Some(PunishmentType::Mute),
        reason: Some("toxic".to_string()),
        duration: Some("1h".to_string()),
        ..CommandOptions::default()
    };
    let wanted = sent(
        DBRequestType::Punishment,
        Command::PunishAdd {
            targetguild: 100,
            target: 42,
            invoker: 7,
            ptype: PunishmentType::Mute,
            reason: Some("toxic".to_string()),
            length: Some(3_600),
        },
    );
    assert_eq!(route("punish", Some(100), 7, options), wanted);
}

#[test]
fn a_duration_of_another_shape_counts_as_none() {
    let options = CommandOptions {
        user: Some(42),
        action: Some(PunishmentAction::Add),
        punishment: Some(PunishmentType::Ban),
        duration: Some("soon".to_string()),
        ..CommandOptions::default()
    };
    let wanted = sent(
        DBRequestType::Punishment,
        Command::PunishAdd {
            targetguild: 100,
            target: 42,
            invoker: 7,
            ptype: PunishmentType::Ban,
            reason: None,
            length: None,
        },
    );
    assert_eq!(route("punish", Some(100), 7, options), wanted);
}

#[test]
fn punish_remove_and_edit_become_requests() {
    let options = CommandOptions {
        user: Some(42),
        action: Some(PunishmentAction::Remove),
        id: Some("12".to_string()),
        latest: Some(true),
        ..CommandOptions::default()
    };
    assert_eq!(
        route("punish", Some(100), 7, options),
        sent(
            DBRequestType::Punishment,
            Command::PunishRemove {
                targetguild: 100,
                target: 42,
                invoker: 7,
                latest: Some(true),
                id: Some(12),
                silent: false,
            },
        )
    );
    let options = CommandOptions {
        user: Some(42),
        action: Some(PunishmentAction::Edit),
        id: Some("nonsense".to_string()),
        reason: Some("appeal".to_string()),
        duration: Some("2d".to_string()),
        ..CommandOptions::default()
    };
    assert_eq!(
        route("punish", Some(100), 7, options),
        sent(
            DBRequestType::Punishment,
            Command::PunishEdit {
                targetguild: 100,
                target: 42,
                invoker: 7,
                reason: Some("appeal".to_string()),
                length: Some(172_800),
                latest: None,
                id: Some(0),
            },
        )
    );
}

#[test]
fn fetchprofile_and_roleset_become_requests() {
    let options = CommandOptions { user: Some(42), ..CommandOptions::default() };
    assert_eq!(
        route("fetchprofile", Some(100), 7, options),
        sent(
            DBRequestType::FetchProfile,
            Command::FetchProfile { targetguild: 100, target: 42, invoker: 7 },
        )
    );
    assert_eq!(
        route("fetchprofile", Some(100), 7, CommandOptions::default()),
        Routed::Reject { why: Rejection::MissingUser }
    );
    let options = CommandOptions { role: Some(12), allow: Some(true), ..CommandOptions::default() };
    assert_eq!(
        route("roleset", Some(100), 7, options),
        sent(
            DBRequestType::CommandPermissionUpdate,
            Command::RoleAdjust { targetguild: 100, target: 12, invoker: 7, allow: true },
        )
    );
    let options = CommandOptions { role: Some(12), ..CommandOptions::default() };
    assert_eq!(route("roleset", Some(100), 7, options), Routed::Ignore);
    assert_eq!(route("other", Some(100), 7, CommandOptions::default()), Routed::Ignore);
}

#[test]
fn options_of_an_add_are_read() {
    let tops = vec![top(
        "add",
        TopValue::Group {
            commands: vec![SubCommand {
                name: "mute".to_string(),
                options: vec![
                    leaf("user", Leaf::User { id: 42, member: true }),
                    text("duration", "1h"),
                    text("reason", "toxic"),
                    text("id", "5"),
                    leaf("latest", Leaf::Boolean { value: true }),
                ],
            }],
        },
    )];
    assert_eq!(
        collect_options(&tops),
        CommandOptions {
            user: Some(42),
            member: true,
            duration: Some("1h".to_string()),
            reason: Some("toxic".to_string()),
            punishment: Some(PunishmentType::Mute),
            action: Some(PunishmentAction::Add),
            ..CommandOptions::default()
        }
    );
}

#[test]
fn options_of_a_remove_and_an_edit_are_read() {
    let tops = vec![top(
        "remove",
        TopValue::SubCommand {
            options: vec![
                leaf("user", Leaf::User { id: 42, member: false }),
                text("id", "3"),
                leaf("latest", Leaf::Boolean { value: false }),
                text("reason", "ignored here"),
            ],
        },
    )];
    assert_eq!(
        collect_options(&tops),
        CommandOptions {
            user: Some(42),
            id: Some("3".to_string()),
            latest: Some(false),
            action: Some(PunishmentAction::Remove),
            ..CommandOptions::default()
        }
    );
    let tops = vec![top(
        "edit",
        TopValue::SubCommand {
            options: vec![
                leaf("user", Leaf::User { id: 42, member: false }),
                leaf("latest", Leaf::Boolean { value: true }),
                text("reason", "first"),
                text("reason", "second"),
                text("duration", "2d"),
                leaf("duration", Leaf::Boolean { value: true }),
                leaf("unknown", Leaf::Other),
            ],
        },
    )];
    assert_eq!(
        collect_options(&tops),
        CommandOptions {
            user: Some(42),
            latest: Some(true),
            reason: Some("second".to_string()),
            duration: Some("2d".to_string()),
            action: Some(PunishmentAction::Edit),
            ..CommandOptions::default()
        }
    );
}

#[test]
fn options_at_the_top_are_read() {
    let tops = vec![
        top("user", TopValue::Plain { value: Leaf::User { id: 42, member: true } }),
        top("user", TopValue::Plain { value: Leaf::User { id: 43, member: false } }),
        top("role", TopValue::Plain { value: Leaf::Role { id: 12 } }),
        top("allow", TopValue::Plain { value: Leaf::Boolean { value: true } }),
        top("reason", TopValue::Plain { value: Leaf::Text { text: "no".to_string() } }),
        top("edit", TopValue::Group { commands: vec![] }),
        top("add", TopValue::SubCommand { options: vec![] }),
        top(
            "add",
            TopValue::Group { commands: vec![SubCommand { name: "kick".to_string(), options: vec![] }] },
        ),
    ];
    assert_eq!(
        collect_options(&tops),
        CommandOptions {
            user: Some(43),
            member: true,
            role: Some(12),
            allow: Some(true),
            action: Some(PunishmentAction::Add),
            ..CommandOptions::default()
        }
    );
    assert_eq!(collect_options(&vec![]), CommandOptions::default());
}

#[test]
fn punishments_map_to_platform_actions() {
    assert_eq!(apply_punishment(&record(PunishmentType::Ban, 0)), PlatformAction::Ban);
    assert_eq!(apply_punishment(&record(PunishmentType::Mute, 0)), PlatformAction::GrantMuteRole);
    assert_eq!(
        apply_punishment(&record(PunishmentType::Timeout, 700)),
        PlatformAction::TimeoutUntil { until: 700 }
    );
    assert_eq!(apply_punishment(&record(PunishmentType::Warn, 0)), PlatformAction::Nothing);
    assert_eq!(remove_punishment(&record(PunishmentType::Ban, 0)), PlatformAction::Unban);
    assert_eq!(remove_punishment(&record(PunishmentType::Mute, 0)), PlatformAction::RevokeMuteRole);
    assert_eq!(remove_punishment(&record(PunishmentType::Timeout, 700)), PlatformAction::EndTimeout);
    assert_eq!(remove_punishment(&record(PunishmentType::Warn, 0)), PlatformAction::Nothing);
    assert_eq!(MUTE_ROLE, "Muted");
}

#[test]
fn a_punishment_is_active_until_it_lapses() {
    assert!(is_active(&record(PunishmentType::Ban, 0), 1_000_000));
    assert!(is_active(&record(PunishmentType::Ban, 700), 699));
    assert!(!is_active(&record(PunishmentType::Ban, 700), 700));
    assert!(!is_active(&record(PunishmentType::Ban, 700), 701));
}

#[test]
fn the_last_active_punishment_colours_the_history() {
    let records = vec![
        record(PunishmentType::Ban, 0),
        record(PunishmentType::Mute, 900),
        record(PunishmentType::Timeout, 500),
        record(PunishmentType::Warn, 0),
    ];
    assert_eq!(embed_colour(&records, 100), Some(0xFFE600));
    assert_eq!(embed_colour(&records, 500), Some(0xFF9900));
    assert_eq!(embed_colour(&records, 900), Some(0xFF0000));
    assert_eq!(embed_colour(&records[1..].to_vec(), 900), None);
    assert_eq!(embed_colour(&vec![], 0), None);
}

#[test]
fn a_role_that_the_store_does_not_know_is_denied_and_stored() {
    assert_eq!(
        RolePermission::or_default(None, 12),
        (RolePermission { role_id: 12, allow: false }, true)
    );
    let known = RolePermission { role_id: 12, allow: true };
    assert_eq!(RolePermission::or_default(Some(known), 12), (known, false));
}

#[test]
fn the_commands_are_three() {
    let all = [ModbotCmd::FetchProfile, ModbotCmd::Punishment, ModbotCmd::RoleSet];
    assert_ne!(all[0], all[1]);
    assert_ne!(all[1], all[2]);
    assert_eq!(all[0].name(), "fetchprofile");
    assert_eq!(all[1].name(), "punish");
    assert_eq!(all[2].name(), "roleset");
}

#[test]
fn the_text_of_an_id_names_it() {
    assert_eq!(id_text(1), "1");
    assert_eq!(id_text(12), "12");
    for id in [1u64, 2, 10, 11, 100, u64::MAX] {
        assert_eq!(parse_id(&id_text(id)), id);
    }
}

#[test]
fn a_punishment_in_force_marks_the_history() {
    assert_eq!(status_label(&record(PunishmentType::Ban, 0), 5), Some("Banned"));
    assert_eq!(status_label(&record(PunishmentType::Mute, 700), 5), Some("Muted"));
    assert_eq!(status_label(&record(PunishmentType::Timeout, 700), 699), Some("Timeout"));
    assert_eq!(status_label(&record(PunishmentType::Timeout, 700), 700), None);
    assert_eq!(status_label(&record(PunishmentType::Warn, 0), 5), None);
}
