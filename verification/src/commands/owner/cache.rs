//! Commands that look into the cache.

use vstd::prelude::*;
use crate::commands::{command, table, Command, CommandView};

verus! {

/// What is declared of the commands of this module, in the order in which
/// they are registered.
pub open spec fn declared() -> Seq<CommandView> {
    seq![
        command("max-messages"@).prefix().category("Admin - Cache"@).check("admin"@).hidden(),
        command("guild-cache-stats"@).prefix().category("Admin - Cache"@).hidden().check("admin"@).guild_only(),
        command("guild-user-cache"@).prefix().category("Admin - Cache"@).hidden().check("admin"@),
    ]
}

/// The commands of this module.
pub fn commands() -> (r: Vec<Command>)
    ensures
        table(r@) == declared(),
{
    let mut r: Vec<Command> = Vec::new();
    r.push(Command::new("max-messages").prefix().category("Admin - Cache").check("admin").hidden());
    r.push(Command::new("guild-cache-stats").prefix().category("Admin - Cache").hidden().check("admin").guild_only());
    r.push(Command::new("guild-user-cache").prefix().category("Admin - Cache").hidden().check("admin"));
    assert(table(r@) =~= declared());
    r
}

} // verus!
