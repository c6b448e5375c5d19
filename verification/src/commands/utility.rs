//! Commands for everybody.

use vstd::prelude::*;
use crate::commands::{table, Command, CommandView};

pub mod charinfo;
pub mod roles;
pub mod users;

verus! {

/// What is declared of the utility commands: the tables of the users, the
/// characters and the roles, one after the other.
pub open spec fn declared() -> Seq<CommandView> {
    users::declared() + charinfo::declared() + roles::declared()
}

/// All utility commands, table after table.
pub fn commands() -> (r: Vec<Command>)
    ensures
        table(r@) == declared(),
{
    let mut r = users::commands();
    let mut charinfo = charinfo::commands();
    let mut roles = roles::commands();
    let ghost parts = (table(r@), table(charinfo@), table(roles@));
    r.append(&mut charinfo);
    r.append(&mut roles);
    assert(table(r@) =~= parts.0 + parts.1 + parts.2);
    r
}

} // verus!
