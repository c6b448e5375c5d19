//! Commands for the bot's owners and for those whom they trust.

use vstd::prelude::*;
use crate::commands::{table, Command, CommandView};

pub mod cache;
pub mod checks;
pub mod database;
pub mod phil;
pub mod poll;
pub mod roles;

verus! {

/// What is declared of the owner commands: the tables of the cache, the
/// checks, the store, the verification counts and the polls, one after the
/// other.
pub open spec fn declared() -> Seq<CommandView> {
    cache::declared() + checks::declared() + database::declared() + phil::declared()
        + poll::declared()
}

/// All owner commands, table after table.
pub fn commands() -> (r: Vec<Command>)
    ensures
        table(r@) == declared(),
{
    let mut r = cache::commands();
    let mut checks = checks::commands();
    let mut database = database::commands();
    let mut phil = phil::commands();
    let mut poll = poll::commands();
    let ghost parts = (table(r@), table(checks@), table(database@), table(phil@), table(poll@));
    r.append(&mut checks);
    r.append(&mut database);
    r.append(&mut phil);
    r.append(&mut poll);
    assert(table(r@) =~= parts.0 + parts.1 + parts.2 + parts.3 + parts.4);
    r
}

} // verus!
