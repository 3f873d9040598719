use vstd::prelude::*;
use crate::commands::{CommandSpec, command, command_is};

verus! {

/// The command that shows the server's member and voice statistics.
pub fn register() -> (r: CommandSpec)
    ensures
        command_is(
            r,
            "serverstats"@,
            "Display real-time server statistics (Total members, online members, active voice users)"@,
            0,
        ),
{
    command(
        "serverstats",
        "Display real-time server statistics (Total members, online members, active voice users)",
    )
}

} // verus!
