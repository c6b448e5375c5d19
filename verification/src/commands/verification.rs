//! Commands that link and unlink accounts.

use vstd::prelude::*;
use crate::commands::{command, table, Command, CommandView};

verus! {

/// What is declared of the commands of this module, in the order in which
/// they are registered.
pub open spec fn declared() -> Seq<CommandView> {
    seq![
        command("verify"@).slash().prefix().guild_only(),
        command("update"@).slash().prefix().guild_only(),
        command("gamemode"@).alias("mode"@).slash().prefix().guild_only(),
        command("unlink"@).slash().prefix().guild_only(),
        command("osu"@).slash().prefix().guild_only(),
        command("osuhelp"@).slash().prefix().guild_only(),
        command("force-verify"@).alias("force-verify"@).prefix().guild_only().category("Admin - osu"@).hidden().check("admin"@),
    ]
}

/// The commands of this module.
pub fn commands() -> (r: Vec<Command>)
    ensures
        table(r@) == declared(),
{
    let mut r: Vec<Command> = Vec::new();
    r.push(Command::new("verify").slash().prefix().guild_only());
    r.push(Command::new("update").slash().prefix().guild_only());
    r.push(Command::new("gamemode").alias("mode").slash().prefix().guild_only());
    r.push(Command::new("unlink").slash().prefix().guild_only());
    r.push(Command::new("osu").slash().prefix().guild_only());
    r.push(Command::new("osuhelp").slash().prefix().guild_only());
    r.push(Command::new("force-verify").alias("force-verify").prefix().guild_only().category("Admin - osu").hidden().check("admin"));
    assert(table(r@) =~= declared());
    r
}

} // verus!
