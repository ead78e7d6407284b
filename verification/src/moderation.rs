//! The rules of the moderation commands (ban, kick, mute, cases, reason,
//! reference) and the text they post.

use vstd::prelude::*;
use vstd::string::*;
use crate::guild::{
    ActionTypes, Case, GuildDb, has_case_with_id, is_first_case_with_id, law_added_case_is_found,
    same_but_cases,
};
use crate::text::{decimal, signed_decimal, u64_to_decimal, i64_to_decimal};

verus! {

/// The name of an action as the logs show it.
pub open spec fn action_name(a: ActionTypes) -> Seq<char> {
    match a {
        ActionTypes::Ban => "Ban"@,
        ActionTypes::Unban => "Unban"@,
        ActionTypes::Kick => "Kick"@,
        ActionTypes::Mute => "Mute"@,
    }
}

/// The name of an action as the logs show it.
pub fn action_label(a: ActionTypes) -> (s: &'static str)
    ensures
        s@ == action_name(a),
{
    match a {
        ActionTypes::Ban => "Ban",
        ActionTypes::Unban => "Unban",
        ActionTypes::Kick => "Kick",
        ActionTypes::Mute => "Mute",
    }
}

/// The number the next case of the guild gets.
pub fn next_case_number(db: &GuildDb) -> (n: u32)
    requires
        db.cases_number < u32::MAX,
    ensures
        n == db.cases_number + 1,
{
    db.cases_number + 1
}

/// The reason recorded for a case: the one given, or a hint on how to set one
/// later (the ban command's hint says "set", the others' say "seat").
pub open spec fn case_reason(reason: Option<Seq<char>>, case_number: u32, action: ActionTypes) -> Seq<char> {
    match reason {
        Some(r) => r,
        None => "Use /reason "@ + decimal(case_number as nat) + if action == ActionTypes::Ban {
            " <...reason> to set a reason for this case."@
        } else {
            " <...reason> to seat a reason for this case."@
        },
    }
}

/// The reason recorded for a case: the one given, or a hint on how to set one.
pub fn reason_or_placeholder(reason: Option<String>, case_number: u32, action: ActionTypes) -> (s: String)
    ensures
        s@ == case_reason(reason.deep_view(), case_number, action),
{
    match reason {
        Some(r) => r,
        None => {
            let mut s = String::from_str("Use /reason ");
            let n = u64_to_decimal(case_number as u64);
            s.append(n.as_str());
            if action == ActionTypes::Ban {
                s.append(" <...reason> to set a reason for this case.");
            } else {
                s.append(" <...reason> to seat a reason for this case.");
            }
            s
        },
    }
}

/// The text logged for a ban or a kick.
pub open spec fn action_log_text(member: Seq<char>, action: ActionTypes, reason: Seq<char>) -> Seq<char> {
    "Member: `"@ + member + "`\nAction: `"@ + action_name(action) + "`\nReason: `"@ + reason + "`"@
}

/// The text logged for a ban or a kick.
pub fn action_log_description(member: &str, action: ActionTypes, reason: &str) -> (s: String)
    ensures
        s@ == action_log_text(member@, action, reason@),
{
    let mut s = String::from_str("Member: `");
    s.append(member);
    s.append("`\nAction: `");
    s.append(action_label(action));
    s.append("`\nReason: `");
    s.append(reason);
    s.append("`");
    s
}

/// A Discord time tag for the given UNIX time in the given style (`R` for
/// relative, `d` for a short date).
pub open spec fn time_tag(unix: int, style: Seq<char>) -> Seq<char> {
    "<t:"@ + signed_decimal(unix) + ":"@ + style + ">"@
}

/// The text logged for a mute that ends at UNIX time `expires_at`.
pub open spec fn mute_log_text(member: Seq<char>, reason: Seq<char>, expires_at: int) -> Seq<char> {
    action_log_text(member, ActionTypes::Mute, reason) + "\nExpiration: "@ + time_tag(expires_at, "R"@)
}

/// The text logged for a mute that ends at UNIX time `expires_at`.
pub fn mute_log_description(member: &str, reason: &str, expires_at: i64) -> (s: String)
    ensures
        s@ == mute_log_text(member@, reason@, expires_at as int),
{
    let mut s = action_log_description(member, ActionTypes::Mute, reason);
    s.append("\nExpiration: <t:");
    let t = i64_to_decimal(expires_at);
    s.append(t.as_str());
    s.append(":R>");
    proof {
        assert("\nExpiration: <t:"@ =~= "\nExpiration: "@ + "<t:"@) by {
            reveal_strlit("\nExpiration: <t:");
            reveal_strlit("\nExpiration: ");
            reveal_strlit("<t:");
        }
        assert(":R>"@ =~= ":"@ + "R"@ + ">"@) by {
            reveal_strlit(":R>");
            reveal_strlit(":");
            reveal_strlit("R");
            reveal_strlit(">");
        }
    }
    s
}

/// The footer of a logged case.
pub open spec fn case_footer_text(case_number: u32) -> Seq<char> {
    "Case "@ + decimal(case_number as nat)
}

/// The footer of a logged case.
pub fn case_footer(case_number: u32) -> (s: String)
    ensures
        s@ == case_footer_text(case_number),
{
    let mut s = String::from_str("Case ");
    let n = u64_to_decimal(case_number as u64);
    s.append(n.as_str());
    s
}

/// The author line of a case: a user's tag and id.
pub open spec fn user_line_text(tag: Seq<char>, id: u64) -> Seq<char> {
    tag + " ("@ + decimal(id as nat) + ")"@
}

/// The author line of a case: a user's tag and id.
pub fn user_line(tag: &str, id: u64) -> (s: String)
    ensures
        s@ == user_line_text(tag@, id),
{
    let mut s = String::from_str(tag);
    s.append(" (");
    let n = u64_to_decimal(id);
    s.append(n.as_str());
    s.append(")");
    s
}

/// Whether `user` is among the banned users of the guild.
pub fn is_banned(bans: &Vec<u64>, user: u64) -> (b: bool)
    ensures
        b == bans@.contains(user),
{
    let mut i: usize = 0;
    while i < bans.len()
        invariant
            i <= bans.len(),
            forall|j: int| 0 <= j < i ==> bans@[j] != user,
        decreases bans.len() - i,
    {
        if bans[i] == user {
            assert(bans@[i as int] == user);
            return true;
        }
        i += 1;
    }
    false
}

/// The shortest mute, in seconds.
pub const MIN_MUTE_SECONDS: i64 = 60;

/// Whether a mute of `seconds` is long enough to be given.
pub fn mute_duration_allowed(seconds: i64) -> (b: bool)
    ensures
        b == (seconds >= MIN_MUTE_SECONDS),
{
    seconds >= MIN_MUTE_SECONDS
}

/// The UNIX time at which a mute of `seconds` given at `now` ends.
pub fn mute_expires_at(now: i64, seconds: i64) -> (t: i64)
    requires
        i64::MIN <= now + seconds <= i64::MAX,
    ensures
        t == now + seconds,
{
    now + seconds
}

/// Whether a member whose time-out lasts until `muted_until` (if at all) is
/// still muted at `now`.
pub open spec fn still_muted(now: int, muted_until: Option<i64>) -> bool {
    match muted_until {
        Some(until) => now - until < 0,
        None => false,
    }
}

/// Whether a member whose time-out lasts until `muted_until` (if at all) is
/// still muted at `now`.
pub fn is_muted(now: i64, muted_until: Option<i64>) -> (b: bool)
    requires
        muted_until matches Some(until) ==> i64::MIN <= now - until <= i64::MAX,
    ensures
        b == still_muted(now as int, muted_until),
{
    match muted_until {
        Some(until) => now - until < 0,
        None => false,
    }
}

/// Why a moderation command refused to act.
#[derive(Clone, Copy, Debug, PartialEq, Eq, Structural)]
pub enum Refusal {
    MuteTooShort,
    CannotBan,
    CannotKick,
    CannotMute,
    AlreadyBanned,
    AlreadyMuted,
}

/// What the bot answers on a refusal.
pub open spec fn refusal_text(r: Refusal) -> Seq<char> {
    match r {
        Refusal::MuteTooShort => "You can't mute someone for under 60 seconds!"@,
        Refusal::CannotBan => "The member can't be managed so you can't ban them!"@,
        Refusal::CannotKick => "The member can't be managed so you can't kick them!"@,
        Refusal::CannotMute => "The member can't be managed so you can't mute them!"@,
        Refusal::AlreadyBanned => "This member is already banned from this guild."@,
        Refusal::AlreadyMuted => "This member is already muted"@,
    }
}

impl Refusal {
    /// What the bot answers on this refusal.
    pub fn message(&self) -> (s: &'static str)
        ensures
            s@ == refusal_text(*self),
    {
        match self {
            Refusal::MuteTooShort => "You can't mute someone for under 60 seconds!",
            Refusal::CannotBan => "The member can't be managed so you can't ban them!",
            Refusal::CannotKick => "The member can't be managed so you can't kick them!",
            Refusal::CannotMute => "The member can't be managed so you can't mute them!",
            Refusal::AlreadyBanned => "This member is already banned from this guild.",
            Refusal::AlreadyMuted => "This member is already muted",
        }
    }
}

/// The refusal that stops a mute once the duration passed: the member cannot
/// be managed, or is still muted; none when the mute may go ahead.
pub open spec fn mute_refusal_of(manageable: bool, now: int, muted_until: Option<i64>) -> Option<Refusal> {
    if !manageable {
        Some(Refusal::CannotMute)
    } else if still_muted(now, muted_until) {
        Some(Refusal::AlreadyMuted)
    } else {
        None
    }
}

/// A mute goes ahead exactly when the member can be managed and has no
/// time-out ending after now; an unmanageable member is refused as such first,
/// and a manageable one still timed out is refused as already muted.
pub proof fn law_mute_refusal_rules(manageable: bool, now: int, muted_until: Option<i64>)
    ensures
        mute_refusal_of(manageable, now, muted_until) is None <==> (manageable && (muted_until is None
            || muted_until.unwrap() <= now)),
        !manageable ==> mute_refusal_of(manageable, now, muted_until) == Some(Refusal::CannotMute),
        manageable && muted_until is Some && muted_until.unwrap() > now ==> mute_refusal_of(
            manageable,
            now,
            muted_until,
        ) == Some(Refusal::AlreadyMuted),
{
}

/// The refusal that stops a mute once the duration passed, if any.
pub fn mute_refusal(manageable: bool, now: i64, muted_until: Option<i64>) -> (r: Option<Refusal>)
    requires
        muted_until matches Some(until) ==> i64::MIN <= now - until <= i64::MAX,
    ensures
        r == mute_refusal_of(manageable, now as int, muted_until),
{
    if !manageable {
        Some(Refusal::CannotMute)
    } else if is_muted(now, muted_until) {
        Some(Refusal::AlreadyMuted)
    } else {
        None
    }
}

/// What the `cases` command does with a case.
#[derive(Clone, Copy, Debug, PartialEq, Eq, Structural)]
pub enum OptionChoices {
    Show,
    Delete,
}

/// The text shown for a case: the member, the action and the reason, with the
/// expiration of a mute and the referenced case when there is one.
pub open spec fn case_summary_text(target: Seq<char>, case: Case) -> Seq<char> {
    let head = "Member: `"@ + target + "`\nAction: `"@ + action_name(case.action) + "`\nReason: "@;
    if case.action == ActionTypes::Mute && case.reference is Some {
        head + "`"@ + case.reason@ + "`\nExpiration:"@ + time_tag(case.expiration.unwrap() as int, "R"@)
            + "\nReference: `"@ + decimal(case.reference.unwrap() as nat) + "`"@
    } else if case.action == ActionTypes::Mute {
        head + "`"@ + case.reason@ + "`\nExpiration:"@ + time_tag(case.expiration.unwrap() as int, "R"@)
    } else if case.reference is Some {
        head + "`"@ + case.reason@ + "`\nReference: `"@ + decimal(case.reference.unwrap() as nat) + "`"@
    } else {
        head + case.reason@ + "\n"@
    }
}

fn push_time_tag(s: &mut String, unix: i64, relative: bool)
    ensures
        final(s)@ == old(s)@ + time_tag(unix as int, if relative { "R"@ } else { "d"@ }),
{
    s.append("<t:");
    let t = i64_to_decimal(unix);
    s.append(t.as_str());
    s.append(":");
    if relative {
        s.append("R");
    } else {
        s.append("d");
    }
    s.append(">");
}

/// The text shown for a case by the `cases` command.
pub fn case_summary(target: &str, case: &Case) -> (s: String)
    requires
        case.action == ActionTypes::Mute ==> case.expiration is Some,
    ensures
        s@ == case_summary_text(target@, *case),
{
    let mut s = String::from_str("Member: `");
    s.append(target);
    s.append("`\nAction: `");
    s.append(action_label(case.action));
    s.append("`\nReason: ");
    let is_mute = case.action == ActionTypes::Mute;
    if is_mute {
        s.append("`");
        s.append(case.reason.as_str());
        s.append("`\nExpiration:");
        let expiration = match case.expiration {
            Some(e) => e,
            None => 0,
        };
        push_time_tag(&mut s, expiration, true);
        match case.reference {
            Some(r) => {
                s.append("\nReference: `");
                let n = u64_to_decimal(r as u64);
                s.append(n.as_str());
                s.append("`");
            },
            None => {},
        }
    } else {
        match case.reference {
            Some(r) => {
                s.append("`");
                s.append(case.reason.as_str());
                s.append("`\nReference: `");
                let n = u64_to_decimal(r as u64);
                s.append(n.as_str());
                s.append("`");
            },
            None => {
                s.append(case.reason.as_str());
                s.append("\n");
            },
        }
    }
    s
}

/// Why a case could not be found.
#[derive(Clone, Copy, Debug, PartialEq, Eq, Structural)]
pub enum CaseLookupError {
    /// Neither the case nor the one it should refer to exists.
    BothMissing,
    /// The case with this id does not exist.
    Missing(u32),
}

/// What the bot answers when a case could not be found.
pub open spec fn lookup_error_text(e: CaseLookupError) -> Seq<char> {
    match e {
        CaseLookupError::BothMissing => "Cases with this ids don't exist"@,
        CaseLookupError::Missing(id) => "Case with the id: "@ + decimal(id as nat) + " doesn't exist"@,
    }
}

impl CaseLookupError {
    /// What the bot answers for this error.
    pub fn message(&self) -> (s: String)
        ensures
            s@ == lookup_error_text(*self),
    {
        match self {
            CaseLookupError::BothMissing => String::from_str("Cases with this ids don't exist"),
            CaseLookupError::Missing(id) => {
                let mut s = String::from_str("Case with the id: ");
                let n = u64_to_decimal(*id as u64);
                s.append(n.as_str());
                s.append(" doesn't exist");
                s
            },
        }
    }
}

/// Checks that a case exists before its reason is changed.
pub fn check_reason_target(db: &GuildDb, case: u32) -> (r: Result<(), CaseLookupError>)
    ensures
        r is Ok <==> has_case_with_id(db.cases@, case),
        r is Err ==> r == Err::<(), CaseLookupError>(CaseLookupError::Missing(case)),
{
    match db.case_position(case) {
        Some(_) => Ok(()),
        None => Err(CaseLookupError::Missing(case)),
    }
}

/// Checks that both a case and the case it should refer to exist.
pub fn check_reference(db: &GuildDb, case: u32, reference: u32) -> (r: Result<(), CaseLookupError>)
    ensures
        r == (if !has_case_with_id(db.cases@, case) && !has_case_with_id(db.cases@, reference) {
            Err(CaseLookupError::BothMissing)
        } else if !has_case_with_id(db.cases@, case) {
            Err(CaseLookupError::Missing(case))
        } else if !has_case_with_id(db.cases@, reference) {
            Err(CaseLookupError::Missing(reference))
        } else {
            Ok(())
        }),
{
    let case_1 = db.case_position(case);
    let case_2 = db.case_position(reference);
    if case_1.is_none() && case_2.is_none() {
        Err(CaseLookupError::BothMissing)
    } else if case_1.is_none() {
        Err(CaseLookupError::Missing(case))
    } else if case_2.is_none() {
        Err(CaseLookupError::Missing(reference))
    } else {
        Ok(())
    }
}

/// The answer of the `cases` command when no case has the id.
pub open spec fn case_not_found_text(id: u32) -> Seq<char> {
    "Can't find a case with the id: "@ + decimal(id as nat)
}

/// The answer of the `cases` command when no case has the id.
pub fn case_not_found(id: u32) -> (s: String)
    ensures
        s@ == case_not_found_text(id),
{
    let mut s = String::from_str("Can't find a case with the id: ");
    let n = u64_to_decimal(id as u64);
    s.append(n.as_str());
    s
}

/// The answer once a case was updated.
pub open spec fn case_updated_text(id: u32) -> Seq<char> {
    "Updated case with the id: "@ + decimal(id as nat)
}

/// The answer once a case was updated.
pub fn case_updated(id: u32) -> (s: String)
    ensures
        s@ == case_updated_text(id),
{
    let mut s = String::from_str("Updated case with the id: ");
    let n = u64_to_decimal(id as u64);
    s.append(n.as_str());
    s
}

/// The expiration line of a mute case as the log edits write it.
pub open spec fn expiration_line(case: Case) -> Seq<char> {
    if case.action == ActionTypes::Mute {
        "\nExpiration: "@ + signed_decimal(case.expiration.unwrap() as int)
    } else {
        Seq::<char>::empty()
    }
}

fn push_expiration_line(s: &mut String, case: &Case)
    requires
        case.action == ActionTypes::Mute ==> case.expiration is Some,
    ensures
        final(s)@ == old(s)@ + expiration_line(*case),
{
    if case.action == ActionTypes::Mute {
        s.append("\nExpiration: ");
        let e = match case.expiration {
            Some(e) => e,
            None => 0,
        };
        let t = i64_to_decimal(e);
        s.append(t.as_str());
    } else {
        assert(old(s)@ + Seq::<char>::empty() =~= old(s)@);
    }
}

/// The logged text of a case once its reason was changed to `reason`.
pub open spec fn reason_edit_text(target: Seq<char>, case: Case, reason: Seq<char>) -> Seq<char> {
    action_log_text(target, case.action, reason) + expiration_line(case)
}

/// The logged text of a case once its reason was changed to `reason`.
pub fn reason_edit_description(target: &str, case: &Case, reason: &str) -> (s: String)
    requires
        case.action == ActionTypes::Mute ==> case.expiration is Some,
    ensures
        s@ == reason_edit_text(target@, *case, reason@),
{
    let mut s = action_log_description(target, case.action, reason);
    push_expiration_line(&mut s, case);
    s
}

/// The logged text of a case once it refers to case `reference`.
pub open spec fn reference_edit_text(target: Seq<char>, case: Case, reference: u32) -> Seq<char> {
    action_log_text(target, case.action, case.reason@) + expiration_line(case) + "\nReference: `"@
        + decimal(reference as nat) + "`"@
}

/// The logged text of a case once it refers to case `reference`.
pub fn reference_edit_description(target: &str, case: &Case, reference: u32) -> (s: String)
    requires
        case.action == ActionTypes::Mute ==> case.expiration is Some,
    ensures
        s@ == reference_edit_text(target@, *case, reference),
{
    let mut s = action_log_description(target, case.action, case.reason.as_str());
    push_expiration_line(&mut s, case);
    s.append("\nReference: `");
    let n = u64_to_decimal(reference as u64);
    s.append(n.as_str());
    s.append("`");
    s
}

/// What a moderation command knows of the case it is about to record.
#[derive(Debug)]
pub struct CaseDraft {
    pub action: ActionTypes,
    pub guild_id: String,
    pub staff_id: String,
    pub target_id: String,
    pub date: i64,
    pub reason: String,
    pub expiration: Option<i64>,
}

/// The case recorded under number `case_number` from `draft`, logged as
/// `message` (if the guild has a log channel), with no reference yet.
pub open spec fn drafted_case(case_number: u32, draft: CaseDraft, message: Option<String>) -> Case {
    Case {
        id: case_number,
        action: draft.action,
        guild_id: draft.guild_id,
        staff_id: draft.staff_id,
        target_id: draft.target_id,
        date: draft.date,
        reason: draft.reason,
        reference: None,
        expiration: draft.expiration,
        message: message,
    }
}

/// The recorded case carries the number it was given, the draft's fields
/// unchanged whatever the action, the log message, and no reference.
pub proof fn law_drafted_case_keeps_draft(case_number: u32, draft: CaseDraft, message: Option<String>)
    ensures
        drafted_case(case_number, draft, message).id == case_number,
        drafted_case(case_number, draft, message).action == draft.action,
        drafted_case(case_number, draft, message).guild_id == draft.guild_id,
        drafted_case(case_number, draft, message).staff_id == draft.staff_id,
        drafted_case(case_number, draft, message).target_id == draft.target_id,
        drafted_case(case_number, draft, message).date == draft.date,
        drafted_case(case_number, draft, message).reason == draft.reason,
        drafted_case(case_number, draft, message).expiration == draft.expiration,
        drafted_case(case_number, draft, message).message == message,
        drafted_case(case_number, draft, message).reference is None,
{
}

/// Records a case that a moderation command took, under number `case_number`.
pub fn record_case(db: GuildDb, case_number: u32, draft: CaseDraft, message: Option<String>) -> (r: GuildDb)
    requires
        db.cases_number < u32::MAX,
    ensures
        r.cases@ == db.cases@.push(drafted_case(case_number, draft, message)),
        r.cases_number == db.cases_number + 1,
        same_but_cases(r, db),
{
    let case = Case {
        id: case_number,
        action: draft.action,
        guild_id: draft.guild_id,
        staff_id: draft.staff_id,
        target_id: draft.target_id,
        date: draft.date,
        reason: draft.reason,
        reference: None,
        expiration: draft.expiration,
        message: message,
    };
    db.add_cases(case)
}

/// A case recorded under the number that follows the count is found under that
/// number, unless a case already had it.
pub proof fn law_recorded_case_is_found(db: GuildDb, draft: CaseDraft, message: Option<String>)
    requires
        db.cases_number < u32::MAX,
        !has_case_with_id(db.cases@, (db.cases_number + 1) as u32),
    ensures
        is_first_case_with_id(
            db.cases@.push(drafted_case((db.cases_number + 1) as u32, draft, message)),
            (db.cases_number + 1) as u32,
            db.cases@.len() as int,
        ),
{
    law_added_case_is_found(db.cases@, drafted_case((db.cases_number + 1) as u32, draft, message));
}

} // verus!
