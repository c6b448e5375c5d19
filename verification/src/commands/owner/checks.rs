//! Commands that decide who may use the bot.

use vstd::prelude::*;
use crate::commands::{command, table, Command, CommandView};

verus! {

/// What is declared of the commands of this module, in the order in which
/// they are registered.
pub open spec fn declared() -> Seq<CommandView> {
    seq![
        command("allow-admin-cmd"@).alias("aoc"@).prefix().hidden().category("Admin - Overrides"@).owners_only(),
        command("deny-admin-cmd"@).alias("doc"@).prefix().category("Admin - Overrides"@).hidden().owners_only(),
        command("allow_admin"@).alias("aa"@).prefix().category("Admin - Overrides"@).hidden().owners_only(),
        command("deny_admin"@).alias("da"@).prefix().category("Admin - Overrides"@).hidden().owners_only(),
        command("bot-ban"@).alias("bb"@).alias("bban"@).prefix().hidden().category("Admin - Ban"@).owners_only(),
        command("bot-unban"@).alias("bub"@).alias("bunban"@).prefix().hidden().category("Admin - Ban"@).owners_only(),
    ]
}

/// The commands of this module.
pub fn commands() -> (r: Vec<Command>)
    ensures
        table(r@) == declared(),
{
    let mut r: Vec<Command> = Vec::new();
    r.push(Command::new("allow-admin-cmd").alias("aoc").prefix().hidden().category("Admin - Overrides").owners_only());
    r.push(Command::new("deny-admin-cmd").alias("doc").prefix().category("Admin - Overrides").hidden().owners_only());
    r.push(Command::new("allow_admin").alias("aa").prefix().category("Admin - Overrides").hidden().owners_only());
    r.push(Command::new("deny_admin").alias("da").prefix().category("Admin - Overrides").hidden().owners_only());
    r.push(Command::new("bot-ban").alias("bb").alias("bban").prefix().hidden().category("Admin - Ban").owners_only());
    r.push(Command::new("bot-unban").alias("bub").alias("bunban").prefix().hidden().category("Admin - Ban").owners_only());
    assert(table(r@) =~= declared());
    r
}

} // verus!
