use valeriyya::guild::{
    ActionTypes, Case, CaseUpdateAction, CaseUpdateValue, GuildDb, GuildDbChannels, GuildDbRoles,
    History,
};

fn case(id: u32, action: ActionTypes) -> Case {
    Case {
        id,
        action,
        guild_id: "1".to_string(),
        staff_id: "2".to_string(),
        target_id: "3".to_string(),
        date: 100,
        reason: "spam".to_string(),
        reference: None,
        expiration: None,
        message: None,
    }
}

#[test]
fn default_record_is_empty() {
    let db = GuildDb::default();
    assert_eq!(db.gid, "");
    assert!(db.cases.is_empty());
    assert_eq!(db.cases_number, 0);
    assert!(db.history.is_empty());
    assert!(db.channels.logs.is_none() && db.channels.welcome.is_none());
    assert!(db.roles.staff.is_none());
}

#[test]
fn guild_id_sets_the_id() {
    let db = GuildDb::default().guild_id("42".to_string());
    assert_eq!(db.gid, "42");
}

#[test]
fn adding_cases_counts_them() {
    let db = GuildDb::default().add_cases(case(1, ActionTypes::Ban)).add_cases(case(2, ActionTypes::Kick));
    assert_eq!(db.cases_number, 2);
    assert_eq!(db.cases.len(), 2);
    assert_eq!(db.cases[1].id, 2);
    assert_eq!(db.case_position(2), Some(1));
    assert_eq!(db.case_position(9), None);
}

#[test]
fn deleting_a_case_keeps_the_count() {
    let db = GuildDb::default()
        .add_cases(case(1, ActionTypes::Ban))
        .add_cases(case(2, ActionTypes::Kick))
        .delete_cases(0);
    assert_eq!(db.cases_number, 2);
    assert_eq!(db.cases.len(), 1);
    assert_eq!(db.cases[0].id, 2);
}

#[test]
fn setters_replace_one_field() {
    let db = GuildDb::default()
        .set_cases_count(7)
        .set_cases(vec![case(5, ActionTypes::Mute)])
        .set_history(vec![History { id: "3".to_string(), ban: 1, kick: 0, mute: 2 }])
        .set_channels(GuildDbChannels::default().set_logs_channel(Some("99".to_string())))
        .set_roles(GuildDbRoles::default().set_staff_role(Some("77".to_string())));
    assert_eq!(db.cases_number, 7);
    assert_eq!(db.cases[0].id, 5);
    assert_eq!(db.history[0].mute, 2);
    assert_eq!(db.channels.logs.as_deref(), Some("99"));
    assert!(db.channels.welcome.is_none());
    assert_eq!(db.roles.staff.as_deref(), Some("77"));
    let ch = db.channels.set_welcome_channel(Some("5".to_string()));
    assert_eq!(ch.welcome.as_deref(), Some("5"));
    assert_eq!(ch.logs.as_deref(), Some("99"));
}

#[test]
fn reason_update_reads_back() {
    let db = GuildDb::default()
        .add_cases(case(1, ActionTypes::Ban))
        .add_cases(case(2, ActionTypes::Kick))
        .apply_case_update(
            2,
            CaseUpdateAction::reason,
            CaseUpdateValue { reason: Some("raiding".to_string()), reference: None },
        );
    assert_eq!(db.cases[1].reason, "raiding");
    assert_eq!(db.cases[1].id, 2);
    assert_eq!(db.cases[1].action, ActionTypes::Kick);
    assert_eq!(db.cases[1].target_id, "3");
    assert_eq!(db.cases[1].date, 100);
    assert_eq!(db.case_position(2), Some(1));
    assert_eq!(db.cases[0].reason, "spam");
    assert_eq!(db.cases_number, 2);
}

#[test]
fn reference_update_reads_back() {
    let db = GuildDb::default()
        .add_cases(case(1, ActionTypes::Ban))
        .add_cases(case(2, ActionTypes::Kick))
        .apply_case_update(
            1,
            CaseUpdateAction::reference,
            CaseUpdateValue { reason: None, reference: Some(2) },
        );
    assert_eq!(db.cases[0].reference, Some(2));
    assert_eq!(db.cases[0].reason, "spam");
    assert_eq!(db.cases[1].reference, None);
}

#[test]
fn update_changes_only_first_case_with_id() {
    let db = GuildDb::default()
        .add_cases(case(4, ActionTypes::Ban))
        .add_cases(case(4, ActionTypes::Ban))
        .apply_case_update(
            4,
            CaseUpdateAction::reason,
            CaseUpdateValue { reason: Some("x".to_string()), reference: None },
        );
    assert_eq!(db.cases[0].reason, "x");
    assert_eq!(db.cases[1].reason, "spam");
}
