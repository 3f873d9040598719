use vstd::prelude::*;
use crate::commands::{CommandSpec, OptionKind, command, command_is, command_option, option_is};

verus! {

/// The command that subscribes a recipient to a product's prices.
pub fn register_add() -> (r: CommandSpec)
    ensures
        command_is(r, "myntra"@, "get notifications about the prices of products in Myntra"@, 5),
        option_is(r.options@[0], OptionKind::Number, "productid"@, "Enter the ProductId"@, true),
        option_is(r.options@[1], OptionKind::Text, "email"@, "Your email address"@, true),
        option_is(r.options@[2], OptionKind::Number, "timeintreval"@, "Time intrevals in hours"@, false),
        option_is(r.options@[3], OptionKind::Number, "pricethreshold"@, "for custom price alerts"@, false),
        option_is(
            r.options@[4],
            OptionKind::Boolean,
            "notifyonlowest"@,
            "get notification on lowest price"@,
            false,
        ),
{
    let mut c = command("myntra", "get notifications about the prices of products in Myntra");
    c.options.push(command_option(OptionKind::Number, "productid", "Enter the ProductId", true));
    c.options.push(command_option(OptionKind::Text, "email", "Your email address", true));
    c.options.push(
        command_option(OptionKind::Number, "timeintreval", "Time intrevals in hours", false),
    );
    c.options.push(
        command_option(OptionKind::Number, "pricethreshold", "for custom price alerts", false),
    );
    c.options.push(
        command_option(
            OptionKind::Boolean,
            "notifyonlowest",
            "get notification on lowest price",
            false,
        ),
    );
    c
}

} // verus!
