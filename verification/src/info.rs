//! The texts of the information commands.

use vstd::prelude::*;
use vstd::string::*;
use crate::moderation::time_tag;
use crate::text::i64_to_decimal;

verus! {

/// A Discord short-date tag for a UNIX time.
pub fn time_format(unix: i64) -> (s: String)
    ensures
        s@ == time_tag(unix as int, "d"@),
{
    let mut s = String::from_str("<t:");
    let t = i64_to_decimal(unix);
    s.append(t.as_str());
    s.append(":");
    s.append("d");
    s.append(">");
    s
}

/// The note added after a bot's creation date.
pub open spec fn bot_note(bot: bool) -> Seq<char> {
    if bot {
        "(User is a bot)"@
    } else {
        ""@
    }
}

/// The note added after a bot's creation date.
pub fn is_bot(bot: bool) -> (s: &'static str)
    ensures
        s@ == bot_note(bot),
{
    if bot {
        "(User is a bot)"
    } else {
        ""
    }
}

/// The description of a member shown by `user`.
pub open spec fn user_info_text(created: int, bot: bool, joined: int) -> Seq<char> {
    "User Created At: "@ + time_tag(created, "d"@) + " "@ + bot_note(bot) + "\nMember Joined At: "@
        + time_tag(joined, "d"@)
}

/// The description of a member shown by `user`: when the account was made
/// (with a note for bots) and when the member joined, as Discord date tags.
pub fn user_info_description(created: i64, bot: bool, joined: i64) -> (s: String)
    ensures
        s@ == user_info_text(created as int, bot, joined as int),
{
    let mut s = String::from_str("User Created At: ");
    let c = time_format(created);
    s.append(c.as_str());
    s.append(" ");
    s.append(is_bot(bot));
    s.append("\nMember Joined At: ");
    let j = time_format(joined);
    s.append(j.as_str());
    s
}

/// The answer of the simple `user` command: the user's name, or a request to
/// name one.
pub fn user_name_reply(name: Option<String>) -> (s: String)
    ensures
        s@ == (match name {
            Some(n) => n@,
            None => "Please provide a user (test)"@,
        }),
{
    match name {
        Some(n) => n,
        None => String::from_str("Please provide a user (test)"),
    }
}

/// The answer to the `user` slash command: the tag of the user given, or an
/// error text when the option holds something else.
pub fn user_option_reply(user_tag: Option<String>) -> (s: String)
    ensures
        s@ == (match user_tag {
            Some(t) => t@,
            None => "Error shit"@,
        }),
{
    match user_tag {
        Some(t) => t,
        None => String::from_str("Error shit"),
    }
}

} // verus!
