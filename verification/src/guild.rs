//! The channels of the guild as the actor sees them, and the plan of a new
//! room.

use vstd::prelude::*;
use vstd::string::*;
use crate::permissions::{
    ChannelId, PermissionOverwrite, PermissionOverwriteType, Permissions, UserId, CONNECT, SPEAK,
};
use crate::private_vc::{PrivateVc, PrivateVcView};
use crate::task::{GUILD, VC_CHANNEL};

verus! {

/// What is known of one channel of the guild.
#[derive(Debug)]
pub struct Channel {
    pub id: ChannelId,
    /// The category that the channel stands in.
    pub parent_id: Option<ChannelId>,
    pub position: u16,
    pub permission_overwrites: Vec<PermissionOverwrite>,
}

/// The identifiers of the channels, in their order.
pub open spec fn ids_of(channels: Seq<Channel>) -> Seq<ChannelId> {
    channels.map_values(|c: Channel| c.id)
}

/// The first channel with this identifier.
pub open spec fn channel_with(channels: Seq<Channel>, id: ChannelId) -> Option<Channel> {
    match ids_of(channels).index_of_first(id) {
        Some(i) => Some(channels[i]),
        None => None,
    }
}

/// The category of the channel with this identifier: none where the channel
/// is not known, stands in no category, or its category is not known.
pub open spec fn parent_of(channels: Option<Seq<Channel>>, id: ChannelId) -> Option<Channel> {
    match channels {
        None => None,
        Some(channels) => match channel_with(channels, id) {
            None => None,
            Some(channel) => match channel.parent_id {
                None => None,
                Some(parent_id) => channel_with(channels, parent_id),
            },
        },
    }
}

/// The view of an optional list of channels.
pub open spec fn channels_view(channels: Option<&Vec<Channel>>) -> Option<Seq<Channel>> {
    match channels {
        Some(channels) => Some(channels@),
        None => None,
    }
}

fn find_channel(channels: &Vec<Channel>, id: ChannelId) -> (r: Option<usize>)
    ensures
        match r {
            Some(i) => i < channels@.len() && ids_of(channels@).index_of_first(id) == Some(
                i as int,
            ) && channel_with(channels@, id) == Some(channels@[i as int]),
            None => channel_with(channels@, id) == None::<Channel>,
        },
{
    let ghost ids = ids_of(channels@);
    let mut i: usize = 0;
    while i < channels.len()
        invariant
            i <= channels.len(),
            ids == ids_of(channels@),
            forall|j: int| 0 <= j < i ==> ids[j] != id,
        decreases channels.len() - i,
    {
        if channels[i].id == id {
            proof {
                ids.index_of_first_ensures(id);
                assert(ids[i as int] == id);
            }
            return Some(i);
        }
        i += 1;
    }
    proof {
        ids.index_of_first_ensures(id);
    }
    None
}

fn find_parent(channels: Option<&Vec<Channel>>, id: ChannelId) -> (r: Option<&Channel>)
    ensures
        match r {
            Some(parent) => parent_of(channels_view(channels), id) == Some(*parent),
            None => parent_of(channels_view(channels), id) == None::<Channel>,
        },
{
    match channels {
        None => None,
        Some(channels) => match find_channel(channels, id) {
            None => None,
            Some(i) => match channels[i].parent_id {
                None => None,
                Some(parent_id) => match find_channel(channels, parent_id) {
                    None => None,
                    Some(j) => Some(&channels[j]),
                },
            },
        },
    }
}

/// The access list of the category above the channel, where both are known.
pub fn get_parent_permissions(channels: Option<&Vec<Channel>>, channel_id: ChannelId) -> (r:
    Option<Vec<PermissionOverwrite>>)
    ensures
        match r {
            Some(list) => parent_of(channels_view(channels), channel_id) is Some && list@
                == parent_of(channels_view(channels), channel_id).unwrap().permission_overwrites@,
            None => parent_of(channels_view(channels), channel_id) is None,
        },
{
    match find_parent(channels, channel_id) {
        None => None,
        Some(parent) => {
            let list = parent.permission_overwrites.clone();
            assert(list@ =~= parent.permission_overwrites@);
            Some(list)
        },
    }
}

/// The number of bytes that a character takes in UTF-8.
pub open spec fn utf8_width(c: char) -> int {
    if (c as u32) < 0x80 {
        1
    } else if (c as u32) < 0x800 {
        2
    } else if (c as u32) < 0x1_0000 {
        3
    } else {
        4
    }
}

/// How many characters at the front of a name fit into `budget` bytes of
/// UTF-8.
pub open spec fn fitting(name: Seq<char>, budget: int) -> int
    decreases name.len(),
{
    if name.len() == 0 || utf8_width(name[0]) > budget {
        0
    } else {
        1 + fitting(name.drop_first(), budget - utf8_width(name[0]))
    }
}

/// The most bytes of a display name that go into the name of a room.
pub const NAME_BYTES: u64 = 31;

/// A display name cut for the name of a room: its longest beginning of whole
/// characters that takes no more than [`NAME_BYTES`] bytes.
pub open spec fn capped(name: Seq<char>) -> Seq<char> {
    name.take(fitting(name, NAME_BYTES as int))
}

/// Cuts a display name with `aformat::CapStr::<32>`. Read as a string, such a
/// value is the longest beginning of the name that ends between two
/// characters and is shorter than 32 bytes; the whole name where the name is
/// that short.
#[verifier::external_body]
fn cap_name(name: &str) -> (r: String)
    ensures
        r@ == capped(name@),
{
    let cut = aformat::CapStr::<32>(name);
    let text: &str = &cut;
    text.to_owned()
}

/// Whether the name ends in the letter `s`.
pub open spec fn ends_in_s(name: Seq<char>) -> bool {
    name.len() > 0 && name.last() == 's'
}

/// The name of the room of a user with this display name.
pub open spec fn room_name(name: Seq<char>) -> Seq<char> {
    "\u{1F465}"@ + capped(name) + if ends_in_s(name) {
        "' room"@
    } else {
        "'s room"@
    }
}

/// The reason that the audit log gets for the creation of the room.
pub open spec fn creation_reason(name: Seq<char>) -> Seq<char> {
    capped(name) + " created a Private VC"@
}

/// The most users that a new room takes.
pub const USER_LIMIT: u8 = 5;

/// What a new room is created with.
#[derive(Debug)]
pub struct ChannelPlan {
    pub name: String,
    pub audit_log_reason: String,
    /// The category's access list, with the default role no longer refused
    /// to connect and to speak.
    pub permissions: Vec<PermissionOverwrite>,
    /// The category that the room stands in: the lobby's.
    pub category_id: ChannelId,
    /// The place directly behind the lobby.
    pub position: u16,
    pub user_limit: u8,
}

/// An entry that no longer refuses to connect and to speak. What else it
/// refuses, and what it grants, stays.
pub open spec fn unbarred(entry: PermissionOverwrite) -> PermissionOverwrite {
    PermissionOverwrite {
        deny: Permissions { bits: entry.deny.bits & !SPEAK & !CONNECT },
        ..entry
    }
}

/// The access list that a new room starts with: the category's, with its
/// first entry for the default role no longer refused to connect and speak. None where the category has no
/// entry for the default role.
pub open spec fn seeded(parent: Seq<PermissionOverwrite>) -> Option<Seq<PermissionOverwrite>> {
    match crate::overlay::kinds(parent).index_of_first(PermissionOverwriteType::Role(GUILD)) {
        Some(i) => Some(parent.update(i, unbarred(parent[i]))),
        None => None,
    }
}

/// The place directly behind `position`; the last place there is where
/// `position` is the last.
pub open spec fn place_after(position: u16) -> u16 {
    if position == u16::MAX {
        u16::MAX
    } else {
        (position + 1) as u16
    }
}

/// Whether `plan` is the plan of a room for a user with this display name,
/// given the channels of the guild.
pub open spec fn is_plan(plan: ChannelPlan, channels: Seq<Channel>, name: Seq<char>) -> bool {
    let lobby = channel_with(channels, VC_CHANNEL).unwrap();
    let category = channel_with(channels, lobby.parent_id.unwrap()).unwrap();
    &&& plan.name@ == room_name(name)
    &&& plan.audit_log_reason@ == creation_reason(name)
    &&& Some(plan.permissions@) == seeded(category.permission_overwrites@)
    &&& plan.category_id == lobby.parent_id.unwrap()
    &&& plan.position == place_after(lobby.position)
    &&& plan.user_limit == USER_LIMIT
}

/// Whether a room can be planned: the lobby and its category are known, and
/// the category has an entry for the default role.
pub open spec fn can_plan(channels: Option<Seq<Channel>>) -> bool {
    &&& parent_of(channels, VC_CHANNEL) is Some
    &&& seeded(parent_of(channels, VC_CHANNEL).unwrap().permission_overwrites@) is Some
}

fn seed_permissions(parent: &Vec<PermissionOverwrite>) -> (r: Option<Vec<PermissionOverwrite>>)
    ensures
        match r {
            Some(list) => seeded(parent@) == Some(list@),
            None => seeded(parent@) is None,
        },
{
    let ghost ks = crate::overlay::kinds(parent@);
    let mut i: usize = 0;
    while i < parent.len()
        invariant
            i <= parent.len(),
            ks == crate::overlay::kinds(parent@),
            forall|j: int| 0 <= j < i ==> ks[j] != PermissionOverwriteType::Role(GUILD),
        decreases parent.len() - i,
    {
        let entry = parent[i];
        if entry.kind == PermissionOverwriteType::Role(GUILD) {
            let mut deny = entry.deny;
            deny.remove(Permissions::from_bits(SPEAK));
            deny.remove(Permissions::from_bits(CONNECT));
            let mut list = parent.clone();
            assert(list@ =~= parent@);
            list[i] = PermissionOverwrite { allow: entry.allow, deny, kind: entry.kind };
            proof {
                ks.index_of_first_ensures(PermissionOverwriteType::Role(GUILD));
                assert(ks[i as int] == PermissionOverwriteType::Role(GUILD));
                assert(list@ =~= parent@.update(i as int, unbarred(parent@[i as int])));
            }
            return Some(list);
        }
        i += 1;
    }
    proof {
        ks.index_of_first_ensures(PermissionOverwriteType::Role(GUILD));
    }
    None
}

fn name_ends_in_s(name: &str) -> (r: bool)
    ensures
        r == ends_in_s(name@),
{
    let n = name.unicode_len();
    n > 0 && name.get_char(n - 1) == 's'
}

/// Plans the room of a user: its name and audit reason from the display name,
/// its access list from the lobby's category, its place behind the lobby.
/// No room is planned where the lobby or its category is not known, or where
/// the category has no entry for the default role.
pub fn create_channel(channels: Option<&Vec<Channel>>, display_name: &str) -> (r: Option<
    ChannelPlan,
>)
    ensures
        r is Some == can_plan(channels_view(channels)),
        r is Some ==> is_plan(r.unwrap(), channels.unwrap()@, display_name@),
{
    let channels = match channels {
        Some(channels) => channels,
        None => {
            return None;
        },
    };
    let lobby = match find_channel(channels, VC_CHANNEL) {
        Some(i) => &channels[i],
        None => {
            return None;
        },
    };
    let category_id = match lobby.parent_id {
        Some(id) => id,
        None => {
            return None;
        },
    };
    let category = match find_channel(channels, category_id) {
        Some(j) => &channels[j],
        None => {
            return None;
        },
    };
    let permissions = match seed_permissions(&category.permission_overwrites) {
        Some(list) => list,
        None => {
            return None;
        },
    };
    let short = cap_name(display_name);
    let mut name = String::from_str("\u{1F465}");
    name.append(short.as_str());
    if name_ends_in_s(display_name) {
        name.append("' room");
    } else {
        name.append("'s room");
    }
    let mut audit_log_reason = short;
    audit_log_reason.append(" created a Private VC");
    let position = if lobby.position == u16::MAX {
        u16::MAX
    } else {
        lobby.position + 1
    };
    Some(
        ChannelPlan {
            name,
            audit_log_reason,
            permissions,
            category_id,
            position,
            user_limit: USER_LIMIT,
        },
    )
}

/// The row that is persisted for a room that was created: the requester owns
/// it, it has no control message yet and all its lists are empty. Nothing is
/// persisted, and nothing else is done, where the room could not be created.
pub fn created_room(created: Option<ChannelId>, user_id: UserId) -> (r: Option<
    (ChannelId, PrivateVc),
>)
    ensures
        match r {
            Some(row) => created == Some(row.0) && row.1@ == PrivateVcView::fresh(user_id),
            None => created is None,
        },
{
    match created {
        Some(channel_id) => Some((channel_id, PrivateVc::new(user_id))),
        None => None,
    }
}

} // verus!
