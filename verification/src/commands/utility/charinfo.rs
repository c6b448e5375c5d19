//! Commands about characters.

use vstd::prelude::*;
use crate::commands::{command, table, Command, CommandView};

verus! {

/// What is declared of the commands of this module, in the order in which
/// they are registered.
pub open spec fn declared() -> Seq<CommandView> {
    seq![
        command("charinfo"@).slash().prefix().category("Utility"@).alias("chars"@).alias("char-info"@),
    ]
}

/// The commands of this module.
pub fn commands() -> (r: Vec<Command>)
    ensures
        table(r@) == declared(),
{
    let mut r: Vec<Command> = Vec::new();
    r.push(Command::new("charinfo").slash().prefix().category("Utility").alias("chars").alias("char-info"));
    assert(table(r@) =~= declared());
    r
}

} // verus!
