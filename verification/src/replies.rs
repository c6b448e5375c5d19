//! What the panel answers to the user who used it.

use vstd::prelude::*;
use vstd::string::*;
use crate::permissions::{RoleId, UserId};
use crate::text::{decimal, mention_list, push_decimal, push_mention, push_mention_list, user_mention};

verus! {

/// An answer to the user of a panel, shown to that user alone.
#[derive(Clone, Copy, Debug, PartialEq, Eq, Structural)]
pub enum Reply {
    /// The user neither owns the room nor moderates.
    NotOwner,
    /// The user selected as owner is not in the room.
    OwnerNotInVoice,
    /// The room has gone to this user.
    OwnerChanged(UserId),
    /// The size form held no number from 0 to 99.
    SizeInvalid,
    /// The room now takes this many users.
    SizeUpdated(u8),
    /// The user selected for a disconnect is not in the room.
    NotInChannel,
    /// The user selected for a disconnect is a moderator.
    Moderator,
    /// This user was disconnected.
    Disconnected(UserId),
    /// This user could not be disconnected.
    DisconnectFailed(UserId),
}

/// The text of an answer.
pub open spec fn reply_text(reply: Reply) -> Seq<char> {
    match reply {
        Reply::NotOwner => "You need to be the owner of the private vc in order to do this!"@,
        Reply::OwnerNotInVoice => "The user is not in the VC and therefore owner cannot be changed."@,
        Reply::OwnerChanged(user_id) => "Changed owner to "@ + user_mention(user_id),
        Reply::SizeInvalid => "Input could not be parsed as a number between 0 and 99."@,
        Reply::SizeUpdated(size) => "Successfully updated user limit to "@ + decimal(size as nat),
        Reply::NotInChannel => "This user is not in the voice channel."@,
        Reply::Moderator => "It is not possible to disconnect moderators, please ask them kindly to leave."@,
        Reply::Disconnected(user_id) => "Successfully disconnected "@ + user_mention(user_id),
        Reply::DisconnectFailed(user_id) => "Could not disconnect "@ + user_mention(user_id)
            + " for unknown reason."@,
    }
}

impl Reply {
    /// The text of the answer.
    pub fn text(&self) -> (text: String)
        ensures
            text@ == reply_text(*self),
    {
        match self {
            Reply::NotOwner => String::from_str(
                "You need to be the owner of the private vc in order to do this!",
            ),
            Reply::OwnerNotInVoice => String::from_str(
                "The user is not in the VC and therefore owner cannot be changed.",
            ),
            Reply::OwnerChanged(user_id) => {
                let mut text = String::from_str("Changed owner to ");
                push_mention(&mut text, *user_id, false);
                text
            },
            Reply::SizeInvalid => String::from_str(
                "Input could not be parsed as a number between 0 and 99.",
            ),
            Reply::SizeUpdated(size) => {
                let mut text = String::from_str("Successfully updated user limit to ");
                push_decimal(&mut text, *size as u64);
                text
            },
            Reply::NotInChannel => String::from_str("This user is not in the voice channel."),
            Reply::Moderator => String::from_str(
                "It is not possible to disconnect moderators, please ask them kindly to leave.",
            ),
            Reply::Disconnected(user_id) => {
                let mut text = String::from_str("Successfully disconnected ");
                push_mention(&mut text, *user_id, false);
                text
            },
            Reply::DisconnectFailed(user_id) => {
                let mut text = String::from_str("Could not disconnect ");
                push_mention(&mut text, *user_id, false);
                text.append(" for unknown reason.");
                text
            },
        }
    }
}

/// The answer to a disconnect that was tried.
pub fn disconnect_reply(user_id: UserId, disconnected: bool) -> (r: Reply)
    ensures
        r == if disconnected {
            Reply::Disconnected(user_id)
        } else {
            Reply::DisconnectFailed(user_id)
        },
{
    if disconnected {
        Reply::Disconnected(user_id)
    } else {
        Reply::DisconnectFailed(user_id)
    }
}

/// The answer to the size form, given the user limit that it asked for.
pub fn size_reply(size: Option<u8>) -> (r: Reply)
    ensures
        r == match size {
            Some(n) => Reply::SizeUpdated(n),
            None => Reply::SizeInvalid,
        },
{
    match size {
        Some(n) => Reply::SizeUpdated(n),
        None => Reply::SizeInvalid,
    }
}

/// The answer to a change of the access lists: that the lists were updated,
/// then the users whose selection had no effect and the roles whose selection
/// had no effect, each paragraph only where there are any.
pub open spec fn update_text(stripped_users: Seq<UserId>, stripped_roles: Seq<RoleId>) -> Seq<char> {
    "Successfully updated permissions for the voice channel.\n"@ + (if stripped_users.len() > 0 {
        "The below user(s) have been removed from your selection because they are either a moderator or otherwise disallowed.\n"@
            + mention_list(stripped_users, false) + "\n"@
    } else {
        Seq::empty()
    }) + (if stripped_roles.len() > 0 {
        "The below role(s) have been removed from your selection because they are either a moderator, muted or otherwise disallowed.\n"@
            + mention_list(stripped_roles, true) + "\n"@
    } else {
        Seq::empty()
    })
}

/// Writes the answer to a change of the access lists.
pub fn send_update_message(stripped_users: &Vec<UserId>, stripped_roles: &Vec<RoleId>) -> (text:
    String)
    ensures
        text@ == update_text(stripped_users@, stripped_roles@),
{
    let mut text = String::from_str("Successfully updated permissions for the voice channel.\n");
    if !stripped_users.is_empty() {
        text.append(
            "The below user(s) have been removed from your selection because they are either a moderator or otherwise disallowed.\n",
        );
        push_mention_list(&mut text, stripped_users, false);
        text.append("\n");
    }
    if !stripped_roles.is_empty() {
        text.append(
            "The below role(s) have been removed from your selection because they are either a moderator, muted or otherwise disallowed.\n",
        );
        push_mention_list(&mut text, stripped_roles, true);
        text.append("\n");
    }
    assert(text@ =~= update_text(stripped_users@, stripped_roles@));
    text
}

} // verus!
