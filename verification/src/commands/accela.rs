//! Links that are asked for again and again.

use vstd::prelude::*;
use crate::commands::{command, table, Command, CommandView};

verus! {

/// What is declared of the commands of this module, in the order in which
/// they are registered.
pub open spec fn declared() -> Seq<CommandView> {
    seq![
        command("talk"@).prefix().hidden().alias("t"@).alias("talkmore"@),
        command("play"@).prefix().hidden().alias("p"@).alias("playmore"@),
        command("playless"@).prefix().hidden().alias("pl"@).alias("playless"@),
    ]
}

/// The commands of this module.
pub fn commands() -> (r: Vec<Command>)
    ensures
        table(r@) == declared(),
{
    let mut r: Vec<Command> = Vec::new();
    r.push(Command::new("talk").prefix().hidden().alias("t").alias("talkmore"));
    r.push(Command::new("play").prefix().hidden().alias("p").alias("playmore"));
    r.push(Command::new("playless").prefix().hidden().alias("pl").alias("playless"));
    assert(table(r@) =~= declared());
    r
}

} // verus!
