use vstd::prelude::*;
use crate::commands::{CommandSpec, OptionKind, command, command_is, command_option, option_is};

verus! {

/// The URL-shortening command.
pub fn register_cut() -> (r: CommandSpec)
    ensures
        command_is(r, "cargocut"@, "shorten your urls"@, 3),
        option_is(r.options@[0], OptionKind::Text, "url"@, "Enter the url to shorten"@, true),
        option_is(
            r.options@[1],
            OptionKind::Number,
            "expiry"@,
            "Enter the expiry time in months(default 1 month)"@,
            false,
        ),
        option_is(
            r.options@[2],
            OptionKind::Text,
            "custom_url"@,
            "enter a short code for your url (groti.me/<your-short-code>)"@,
            false,
        ),
{
    let mut c = command("cargocut", "shorten your urls");
    c.options.push(command_option(OptionKind::Text, "url", "Enter the url to shorten", true));
    c.options.push(
        command_option(
            OptionKind::Number,
            "expiry",
            "Enter the expiry time in months(default 1 month)",
            false,
        ),
    );
    c.options.push(
        command_option(
            OptionKind::Text,
            "custom_url",
            "enter a short code for your url (groti.me/<your-short-code>)",
            false,
        ),
    );
    c
}

} // verus!
