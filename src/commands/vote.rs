use vstd::prelude::*;
use crate::commands::{CommandSpec, OptionKind, command, command_is, command_option, option_is};

verus! {

/// The command that opens a poll of two to four options.
pub fn register() -> (r: CommandSpec)
    ensures
        command_is(
            r,
            "poll"@,
            "Create a poll. Syntax: /poll \"Question\" \"Option1\" \"Option2\" ... [duration in seconds]"@,
            6,
        ),
        option_is(r.options@[0], OptionKind::Text, "question"@, "The poll question"@, true),
        option_is(r.options@[1], OptionKind::Text, "option1"@, "First option"@, true),
        option_is(r.options@[2], OptionKind::Text, "option2"@, "Second option"@, true),
        option_is(r.options@[3], OptionKind::Text, "option3"@, "Option 3"@, false),
        option_is(r.options@[4], OptionKind::Text, "option4"@, "Option 4"@, false),
        option_is(
            r.options@[5],
            OptionKind::Integer,
            "duration"@,
            "Poll duration in seconds (optional)"@,
            false,
        ),
{
    let mut c = command(
        "poll",
        "Create a poll. Syntax: /poll \"Question\" \"Option1\" \"Option2\" ... [duration in seconds]",
    );
    c.options.push(command_option(OptionKind::Text, "question", "The poll question", true));
    c.options.push(command_option(OptionKind::Text, "option1", "First option", true));
    c.options.push(command_option(OptionKind::Text, "option2", "Second option", true));
    c.options.push(command_option(OptionKind::Text, "option3", "Option 3", false));
    c.options.push(command_option(OptionKind::Text, "option4", "Option 4", false));
    c.options.push(
        command_option(
            OptionKind::Integer,
            "duration",
            "Poll duration in seconds (optional)",
            false,
        ),
    );
    c
}

} // verus!
