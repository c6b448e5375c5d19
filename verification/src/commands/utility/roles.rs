//! Commands about a user's own role.

use vstd::prelude::*;
use crate::commands::{command, table, Command, CommandView};

verus! {

/// What is declared of the commands of this module, in the order in which
/// they are registered.
pub open spec fn declared() -> Seq<CommandView> {
    seq![
        command("set-gradient"@).slash().category("Roles"@),
    ]
}

/// The commands of this module.
pub fn commands() -> (r: Vec<Command>)
    ensures
        table(r@) == declared(),
{
    let mut r: Vec<Command> = Vec::new();
    r.push(Command::new("set-gradient").slash().category("Roles"));
    assert(table(r@) =~= declared());
    r
}

/// Turns an optional outcome inside out: nothing stays nothing, a success
/// becomes the success of something, and a failure is the failure.
pub fn option_result_to_option<T, E>(opt: Option<Result<T, E>>) -> (r: Result<Option<T>, E>)
    ensures
        r == match opt {
            None => Ok(None),
            Some(Ok(value)) => Ok(Some(value)),
            Some(Err(error)) => Err(error),
        },
{
    match opt {
        None => Ok(None),
        Some(Ok(value)) => Ok(Some(value)),
        Some(Err(error)) => Err(error),
    }
}

} // verus!
