//! Commands that look into the store.

use vstd::prelude::*;
use crate::commands::{command, table, Command, CommandView};

verus! {

/// What is declared of the commands of this module, in the order in which
/// they are registered.
pub open spec fn declared() -> Seq<CommandView> {
    seq![
        command("dbstats"@).alias("db-stats"@).alias("db-info"@).alias("dbinfo"@).prefix().category("Admin - Database"@).check("admin"@).hidden(),
        command("sql"@).prefix().category("Admin - Database"@).owners_only().hidden(),
    ]
}

/// The commands of this module.
pub fn commands() -> (r: Vec<Command>)
    ensures
        table(r@) == declared(),
{
    let mut r: Vec<Command> = Vec::new();
    r.push(Command::new("dbstats").alias("db-stats").alias("db-info").alias("dbinfo").prefix().category("Admin - Database").check("admin").hidden());
    r.push(Command::new("sql").prefix().category("Admin - Database").owners_only().hidden());
    assert(table(r@) =~= declared());
    r
}

} // verus!
