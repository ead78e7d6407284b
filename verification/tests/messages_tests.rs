use valeriyya::guild::{ActionTypes, Case, GuildDb};
use valeriyya::info::{is_bot, time_format, user_info_description, user_name_reply, user_option_reply};
use valeriyya::moderation::{
    action_label, action_log_description, case_footer, case_not_found, case_summary, case_updated,
    check_reason_target, check_reference, is_banned, is_muted, mute_duration_allowed,
    mute_expires_at, mute_log_description, mute_refusal, next_case_number, reason_edit_description,
    reason_or_placeholder, reference_edit_description, user_line, CaseLookupError, OptionChoices,
    Refusal,
};
use valeriyya::moderation::{record_case, CaseDraft};
use valeriyya::text::{i64_to_decimal, u64_to_decimal};

fn case(id: u32, action: ActionTypes, reference: Option<u32>, expiration: Option<i64>) -> Case {
    Case {
        id,
        action,
        guild_id: "1".to_string(),
        staff_id: "2".to_string(),
        target_id: "3".to_string(),
        date: 100,
        reason: "spam".to_string(),
        reference,
        expiration,
        message: None,
    }
}

#[test]
fn decimal_rendering_matches_format() {
    for n in [0u64, 7, 10, 12345, u64::MAX] {
        assert_eq!(u64_to_decimal(n), format!("{}", n));
    }
    for n in [0i64, -1, 42, i64::MIN, i64::MAX, -908] {
        assert_eq!(i64_to_decimal(n), format!("{}", n));
    }
}

#[test]
fn action_labels_match_debug() {
    for a in [ActionTypes::Ban, ActionTypes::Unban, ActionTypes::Kick, ActionTypes::Mute] {
        assert_eq!(action_label(a), format!("{:?}", a));
    }
}

#[test]
fn next_case_number_follows_the_count() {
    let db = GuildDb::default().set_cases_count(41);
    assert_eq!(next_case_number(&db), 42);
}

#[test]
fn placeholder_reasons() {
    assert_eq!(
        reason_or_placeholder(None, 4, ActionTypes::Ban),
        "Use /reason 4 <...reason> to set a reason for this case."
    );
    assert_eq!(
        reason_or_placeholder(None, 12, ActionTypes::Kick),
        "Use /reason 12 <...reason> to seat a reason for this case."
    );
    assert_eq!(reason_or_placeholder(Some("spam".to_string()), 12, ActionTypes::Mute), "spam");
}

#[test]
fn log_descriptions() {
    assert_eq!(
        action_log_description("bob#0001", ActionTypes::Ban, "spam"),
        "Member: `bob#0001`\nAction: `Ban`\nReason: `spam`"
    );
    assert_eq!(
        mute_log_description("bob#0001", "spam", 1700000000),
        "Member: `bob#0001`\nAction: `Mute`\nReason: `spam`\nExpiration: <t:1700000000:R>"
    );
    assert_eq!(case_footer(9), "Case 9");
    assert_eq!(user_line("bob#0001", 123), "bob#0001 (123)");
}

#[test]
fn ban_list_lookup() {
    assert!(is_banned(&vec![1, 5, 9], 5));
    assert!(!is_banned(&vec![1, 5, 9], 6));
    assert!(!is_banned(&vec![], 6));
}

#[test]
fn mute_rules() {
    assert!(!mute_duration_allowed(59));
    assert!(mute_duration_allowed(60));
    assert_eq!(mute_expires_at(1000, 600), 1600);
    assert!(is_muted(1000, Some(1001)));
    assert!(!is_muted(1000, Some(1000)));
    assert!(!is_muted(1000, None));
    assert_eq!(mute_refusal(false, 1000, Some(2000)), Some(Refusal::CannotMute));
    assert_eq!(mute_refusal(true, 1000, Some(2000)), Some(Refusal::AlreadyMuted));
    assert_eq!(mute_refusal(true, 1000, Some(10)), None);
    assert_eq!(mute_refusal(true, 1000, None), None);
}

#[test]
fn refusal_messages() {
    assert_eq!(Refusal::MuteTooShort.message(), "You can't mute someone for under 60 seconds!");
    assert_eq!(Refusal::CannotBan.message(), "The member can't be managed so you can't ban them!");
    assert_eq!(Refusal::CannotKick.message(), "The member can't be managed so you can't kick them!");
    assert_eq!(Refusal::CannotMute.message(), "The member can't be managed so you can't mute them!");
    assert_eq!(Refusal::AlreadyBanned.message(), "This member is already banned from this guild.");
    assert_eq!(Refusal::AlreadyMuted.message(), "This member is already muted");
}

#[test]
fn case_lookups() {
    let db = GuildDb::default().add_cases(case(1, ActionTypes::Ban, None, None));
    assert_eq!(check_reason_target(&db, 1), Ok(()));
    assert_eq!(check_reason_target(&db, 2), Err(CaseLookupError::Missing(2)));
    assert_eq!(check_reference(&db, 1, 1), Ok(()));
    assert_eq!(check_reference(&db, 2, 3), Err(CaseLookupError::BothMissing));
    assert_eq!(check_reference(&db, 2, 1), Err(CaseLookupError::Missing(2)));
    assert_eq!(check_reference(&db, 1, 3), Err(CaseLookupError::Missing(3)));
    assert_eq!(CaseLookupError::BothMissing.message(), "Cases with this ids don't exist");
    assert_eq!(CaseLookupError::Missing(3).message(), "Case with the id: 3 doesn't exist");
    assert_eq!(case_not_found(8), "Can't find a case with the id: 8");
    assert_eq!(case_updated(8), "Updated case with the id: 8");
    assert_ne!(OptionChoices::Show, OptionChoices::Delete);
}

#[test]
fn case_summaries() {
    assert_eq!(
        case_summary("bob", &case(1, ActionTypes::Mute, Some(2), Some(500))),
        "Member: `bob`\nAction: `Mute`\nReason: `spam`\nExpiration:<t:500:R>\nReference: `2`"
    );
    assert_eq!(
        case_summary("bob", &case(1, ActionTypes::Mute, None, Some(500))),
        "Member: `bob`\nAction: `Mute`\nReason: `spam`\nExpiration:<t:500:R>"
    );
    assert_eq!(
        case_summary("bob", &case(1, ActionTypes::Kick, Some(2), None)),
        "Member: `bob`\nAction: `Kick`\nReason: `spam`\nReference: `2`"
    );
    assert_eq!(
        case_summary("bob", &case(1, ActionTypes::Ban, None, None)),
        "Member: `bob`\nAction: `Ban`\nReason: spam\n"
    );
}

#[test]
fn edit_descriptions() {
    assert_eq!(
        reason_edit_description("bob", &case(1, ActionTypes::Mute, None, Some(77)), "flood"),
        "Member: `bob`\nAction: `Mute`\nReason: `flood`\nExpiration: 77"
    );
    assert_eq!(
        reason_edit_description("bob", &case(1, ActionTypes::Ban, None, None), "flood"),
        "Member: `bob`\nAction: `Ban`\nReason: `flood`"
    );
    assert_eq!(
        reference_edit_description("bob", &case(1, ActionTypes::Mute, None, Some(77)), 4),
        "Member: `bob`\nAction: `Mute`\nReason: `spam`\nExpiration: 77\nReference: `4`"
    );
    assert_eq!(
        reference_edit_description("bob", &case(1, ActionTypes::Kick, None, None), 4),
        "Member: `bob`\nAction: `Kick`\nReason: `spam`\nReference: `4`"
    );
}

#[test]
fn information_texts() {
    assert_eq!(time_format(1600000000), "<t:1600000000:d>");
    assert_eq!(is_bot(true), "(User is a bot)");
    assert_eq!(is_bot(false), "");
    assert_eq!(
        user_info_description(1, true, 2),
        "User Created At: <t:1:d> (User is a bot)\nMember Joined At: <t:2:d>"
    );
    assert_eq!(user_name_reply(Some("ann".to_string())), "ann");
    assert_eq!(user_name_reply(None), "Please provide a user (test)");
    assert_eq!(user_option_reply(Some("ann#1".to_string())), "ann#1");
    assert_eq!(user_option_reply(None), "Error shit");
}

#[test]
fn recorded_case_is_found_under_its_number() {
    let db = GuildDb::default().add_cases(case(1, ActionTypes::Ban, None, None));
    let n = next_case_number(&db);
    let db = record_case(
        db,
        n,
        CaseDraft {
            action: ActionTypes::Mute,
            guild_id: "9".to_string(),
            staff_id: "8".to_string(),
            target_id: "7".to_string(),
            date: 1234,
            reason: "flood".to_string(),
            expiration: Some(5000),
        },
        Some("555".to_string()),
    );
    assert_eq!(db.cases_number, 2);
    let i = db.case_position(2).unwrap();
    assert_eq!(i, 1);
    let c = &db.cases[i];
    assert_eq!(c.action, ActionTypes::Mute);
    assert_eq!(c.guild_id, "9");
    assert_eq!(c.staff_id, "8");
    assert_eq!(c.target_id, "7");
    assert_eq!(c.date, 1234);
    assert_eq!(c.reason, "flood");
    assert_eq!(c.reference, None);
    assert_eq!(c.expiration, Some(5000));
    assert_eq!(c.message.as_deref(), Some("555"));
}
