//! Commands that count and undo verifications.

use vstd::prelude::*;
use crate::commands::{command, table, Command, CommandView};

verus! {

/// What is declared of the commands of this module, in the order in which
/// they are registered.
pub open spec fn declared() -> Seq<CommandView> {
    seq![
        command("unverify-all"@).prefix().hidden().owners_only().guild_only(),
        command("count-verified"@).prefix().hidden().owners_only().guild_only(),
        command("count-tagged"@).prefix().hidden().owners_only().guild_only(),
    ]
}

/// The commands of this module.
pub fn commands() -> (r: Vec<Command>)
    ensures
        table(r@) == declared(),
{
    let mut r: Vec<Command> = Vec::new();
    r.push(Command::new("unverify-all").prefix().hidden().owners_only().guild_only());
    r.push(Command::new("count-verified").prefix().hidden().owners_only().guild_only());
    r.push(Command::new("count-tagged").prefix().hidden().owners_only().guild_only());
    assert(table(r@) =~= declared());
    r
}

} // verus!
