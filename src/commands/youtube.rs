use vstd::prelude::*;
use crate::commands::{CommandSpec, OptionKind, command, command_is, command_option, option_is};

verus! {

/// The command that turns a YouTube video into an MP3 file.
pub fn register_youtube() -> (r: CommandSpec)
    ensures
        command_is(r, "utubemp3"@, "Download MP3 audio from YouTube URL"@, 1),
        option_is(r.options@[0], OptionKind::Text, "url"@, "Enter a YouTube URL"@, true),
{
    let mut c = command("utubemp3", "Download MP3 audio from YouTube URL");
    c.options.push(command_option(OptionKind::Text, "url", "Enter a YouTube URL", true));
    c
}

} // verus!
