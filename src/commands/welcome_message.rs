use vstd::prelude::*;
use crate::commands::{CommandSpec, command};

verus! {

/// The welcome message, with the role-assignment instructions.
pub const WELCOME_MESSAGE: &'static str = "**Welcome to the Community! 👋**
The open source AI powered social hub. Reach out to me (in this server, not via direct message) 
if you have any questions about the project, this community, or anything else!\n\n\
    **Getting Started**\n\
    1. ⭐ Please star our project on GitHub\n\
    2. 😊 React with emojis that match your interests below\n\
    3. 👋 Introduce yourself in <#👋introductions>\n\n\
    **Getting Involved**\n\
    🐒 Available for QA Testing\n\
    🤖 Code Contributor\n\
    🙌 Art/Marketing Helper\n\
    📢 Join Community Meetings\n\
    🔔 GitHub Notifications\n\n\
    **Your Creative Background**\n\
    🦀 Rustacean\n\
    🕸️ Web Dev\n\
    🧠 AI/ML Dev/Researcher\n\
    🫖 UX Designer\n\n\
    *Click a reaction once to get the role. Click again to remove it.*";

/// The reply to the welcome command.
pub fn run() -> (r: String)
    ensures
        r@ == WELCOME_MESSAGE@,
{
    String::from_str(WELCOME_MESSAGE)
}

/// The welcome command, for administrators only.
pub fn register() -> (r: CommandSpec)
    ensures
        r.name@ == "welcome"@,
        r.description@ == "Display the welcome message with role assignments"@,
        r.options@.len() == 0,
        r.admin_only,
{
    let mut c = command("welcome", "Display the welcome message with role assignments");
    c.admin_only = true;
    c
}

} // verus!
