use vstd::prelude::*;
use crate::commands::{CommandSpec, OptionKind, command, command_is, command_option, option_is};
use crate::text::{append_decimal, decimal};

verus! {

/// How the chat platform writes a mention of the user `user_id`.
pub open spec fn mention(user_id: u64) -> Seq<char> {
    "<@"@ + decimal(user_id as nat) + ">"@
}

/// The reply to a warning of `user_id` for `reason`.
pub open spec fn warning_text(user_id: u64, reason: Seq<char>) -> Seq<char> {
    "**Warning** issued to "@ + mention(user_id) + " **for: "@ + reason + "**"@
}

/// The reply to the warn command: a warning that mentions the user and gives
/// the reason, or, without both, a request for them.
pub fn warn(user_id: Option<u64>, reason: Option<&str>) -> (r: String)
    ensures
        r@ == match (user_id, reason) {
            (Some(u), Some(why)) => warning_text(u, why@),
            _ => "Please provide a valid user and reason"@,
        },
{
    match (user_id, reason) {
        (Some(u), Some(why)) => {
            let mut s = String::from_str("**Warning** issued to ");
            s.append("<@");
            append_decimal(&mut s, u);
            s.append(">");
            s.append(" **for: ");
            s.append(why);
            s.append("**");
            assert(s@ =~= warning_text(u, why@));
            s
        },
        _ => String::from_str("Please provide a valid user and reason"),
    }
}

/// The command that warns a member.
pub fn register_warn() -> (r: CommandSpec)
    ensures
        command_is(r, "warn"@, "warn a member"@, 2),
        option_is(r.options@[0], OptionKind::User, "id"@, "The user to lookup"@, true),
        option_is(r.options@[1], OptionKind::Text, "reason"@, "The reason for the warning"@, true),
{
    let mut c = command("warn", "warn a member");
    c.options.push(command_option(OptionKind::User, "id", "The user to lookup", true));
    c.options.push(command_option(OptionKind::Text, "reason", "The reason for the warning", true));
    c
}

/// The command that mutes a member for a number of minutes.
pub fn register_mute() -> (r: CommandSpec)
    ensures
        command_is(r, "mute"@, "mute a member"@, 3),
        option_is(r.options@[0], OptionKind::User, "id"@, "The user to lookup"@, true),
        option_is(r.options@[1], OptionKind::Integer, "duration"@, "duration in minutes to be muted"@, true),
        option_is(r.options@[2], OptionKind::Text, "reason"@, "Optional reason for muting the user"@, false),
{
    let mut c = command("mute", "mute a member");
    c.options.push(command_option(OptionKind::User, "id", "The user to lookup", true));
    c.options.push(
        command_option(OptionKind::Integer, "duration", "duration in minutes to be muted", true),
    );
    c.options.push(
        command_option(OptionKind::Text, "reason", "Optional reason for muting the user", false),
    );
    c
}

/// The command that bans a member and deletes their recent messages.
pub fn register_ban() -> (r: CommandSpec)
    ensures
        command_is(r, "ban"@, "ban a member"@, 3),
        option_is(r.options@[0], OptionKind::User, "id"@, "The user to lookup"@, true),
        option_is(
            r.options@[1],
            OptionKind::Integer,
            "days"@,
            "Number of days worth of messages to be deleted"@,
            true,
        ),
        option_is(r.options@[2], OptionKind::Text, "reason"@, "Optional reason for banning the user"@, false),
{
    let mut c = command("ban", "ban a member");
    c.options.push(command_option(OptionKind::User, "id", "The user to lookup", true));
    c.options.push(
        command_option(
            OptionKind::Integer,
            "days",
            "Number of days worth of messages to be deleted",
            true,
        ),
    );
    c.options.push(
        command_option(OptionKind::Text, "reason", "Optional reason for banning the user", false),
    );
    c
}

} // verus!
