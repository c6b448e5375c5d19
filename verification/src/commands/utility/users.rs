//! Commands about users.

use vstd::prelude::*;
use crate::commands::{command, table, Command, CommandView};

verus! {

/// What is declared of the commands of this module, in the order in which
/// they are registered.
pub open spec fn declared() -> Seq<CommandView> {
    seq![
        command("statuses"@).slash().prefix().category("Utility"@).guild_only(),
        command("playing"@).slash().prefix().category("Utility"@).guild_only(),
        command("dm-activity-check"@).alias("dm-activity"@).prefix().category("Utility"@).guild_only(),
        command("get-member"@).prefix().category("Utility"@).guild_only(),
        command("presence"@).prefix().category("Utility"@).guild_only(),
    ]
}

/// The commands of this module.
pub fn commands() -> (r: Vec<Command>)
    ensures
        table(r@) == declared(),
{
    let mut r: Vec<Command> = Vec::new();
    r.push(Command::new("statuses").slash().prefix().category("Utility").guild_only());
    r.push(Command::new("playing").slash().prefix().category("Utility").guild_only());
    r.push(Command::new("dm-activity-check").alias("dm-activity").prefix().category("Utility").guild_only());
    r.push(Command::new("get-member").prefix().category("Utility").guild_only());
    r.push(Command::new("presence").prefix().category("Utility").guild_only());
    assert(table(r@) =~= declared());
    r
}

} // verus!
