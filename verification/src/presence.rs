//! Who is in which voice channel: the snapshot that the actor decides on, and
//! what a change of a user's voice state means for the rooms.

use vstd::prelude::*;
use crate::permissions::{ChannelId, GuildId, UserId};
use crate::task::{HandlerCommand, HandlerCommandView, GUILD, VC_CHANNEL};

verus! {

/// Where one user is connected.
#[derive(Clone, Copy, Debug, PartialEq, Eq, Structural)]
pub struct VoiceState {
    pub channel_id: Option<ChannelId>,
    pub user_id: UserId,
}

/// Whether this state places its user in `channel_id`.
pub open spec fn is_in(channel_id: ChannelId) -> spec_fn(VoiceState) -> bool {
    |state: VoiceState| state.channel_id == Some(channel_id)
}

/// The user of a voice state.
pub open spec fn user_of() -> spec_fn(VoiceState) -> UserId {
    |state: VoiceState| state.user_id
}

/// The users that the snapshot places in `channel_id`, in its order. Nobody
/// where there is no snapshot.
pub open spec fn occupants(voice_states: Option<Seq<VoiceState>>, channel_id: ChannelId) -> Seq<
    UserId,
> {
    match voice_states {
        Some(states) => states.filter(is_in(channel_id)).map_values(user_of()),
        None => Seq::empty(),
    }
}

/// Whether anybody is in `channel_id`. Without a snapshot the channel counts
/// as occupied, so that nothing is deleted on missing knowledge.
pub open spec fn occupied(voice_states: Option<Seq<VoiceState>>, channel_id: ChannelId) -> bool {
    match voice_states {
        Some(states) => exists|i: int|
            0 <= i < states.len() && (#[trigger] states[i]).channel_id == Some(channel_id),
        None => true,
    }
}

/// Whether `user_id` is in `channel_id`. Without a snapshot the user counts
/// as present.
pub open spec fn present(
    voice_states: Option<Seq<VoiceState>>,
    channel_id: ChannelId,
    user_id: UserId,
) -> bool {
    match voice_states {
        Some(states) => exists|i: int|
            0 <= i < states.len() && (#[trigger] states[i]).channel_id == Some(channel_id)
                && states[i].user_id == user_id,
        None => true,
    }
}

/// The view of an optional snapshot.
pub open spec fn snapshot_view(voice_states: Option<&Vec<VoiceState>>) -> Option<Seq<VoiceState>> {
    match voice_states {
        Some(states) => Some(states@),
        None => None,
    }
}

fn same_channel(state: &VoiceState, channel_id: ChannelId) -> (r: bool)
    ensures
        r == (state.channel_id == Some(channel_id)),
{
    match state.channel_id {
        Some(id) => id == channel_id,
        None => false,
    }
}

/// The users that the snapshot places in `channel_id`.
pub fn get_vc_users(voice_states: Option<&Vec<VoiceState>>, channel_id: ChannelId) -> (users: Vec<
    UserId,
>)
    ensures
        users@ == occupants(snapshot_view(voice_states), channel_id),
{
    let mut users: Vec<UserId> = Vec::new();
    match voice_states {
        None => {},
        Some(states) => {
            let mut i: usize = 0;
            assert(states@.take(0).filter(is_in(channel_id)) =~= Seq::<VoiceState>::empty()) by {
                reveal(Seq::filter);
            }
            assert(users@ =~= states@.take(0).filter(is_in(channel_id)).map_values(user_of()));
            while i < states.len()
                invariant
                    i <= states.len(),
                    users@ == states@.take(i as int).filter(is_in(channel_id)).map_values(user_of()),
                decreases states.len() - i,
            {
                let state = states[i];
                proof {
                    states@.lemma_take_succ_push(i as int);
                    states@.take(i as int).lemma_filter_push(state, is_in(channel_id));
                    states@.take(i as int).filter(is_in(channel_id)).lemma_push_map_commute(
                        user_of(),
                        state,
                    );
                }
                if same_channel(&state, channel_id) {
                    users.push(state.user_id);
                }
                i += 1;
            }
            proof {
                states@.lemma_take_len();
            }
        },
    }
    users
}

/// Whether anybody is in `channel_id`; `true` without a snapshot.
pub fn vc_has_people(voice_states: Option<&Vec<VoiceState>>, channel_id: ChannelId) -> (r: bool)
    ensures
        r == occupied(snapshot_view(voice_states), channel_id),
{
    match voice_states {
        None => true,
        Some(states) => {
            let mut i: usize = 0;
            while i < states.len()
                invariant
                    i <= states.len(),
                    voice_states == Some(states),
                    forall|j: int| 0 <= j < i ==> (#[trigger] states@[j]).channel_id != Some(channel_id),
                decreases states.len() - i,
            {
                if same_channel(&states[i], channel_id) {
                    assert(states@[i as int].channel_id == Some(channel_id));
                    return true;
                }
                i += 1;
            }
            false
        },
    }
}

/// Whether `user_id` is in `channel_id`; `true` without a snapshot.
pub fn vc_has_user(
    voice_states: Option<&Vec<VoiceState>>,
    channel_id: ChannelId,
    user_id: UserId,
) -> (r: bool)
    ensures
        r == present(snapshot_view(voice_states), channel_id, user_id),
{
    match voice_states {
        None => true,
        Some(states) => {
            let mut i: usize = 0;
            while i < states.len()
                invariant
                    i <= states.len(),
                    voice_states == Some(states),
                    forall|j: int|
                        0 <= j < i ==> !((#[trigger] states@[j]).channel_id == Some(channel_id)
                            && states@[j].user_id == user_id),
                decreases states.len() - i,
            {
                if same_channel(&states[i], channel_id) && states[i].user_id == user_id {
                    assert(states@[i as int].channel_id == Some(channel_id));
                    return true;
                }
                i += 1;
            }
            false
        },
    }
}

/// A channel is occupied exactly when it has an occupant, and a user is
/// present exactly when the user is among the occupants.
pub proof fn lemma_occupants(states: Seq<VoiceState>, channel_id: ChannelId)
    ensures
        occupied(Some(states), channel_id) == (occupants(Some(states), channel_id).len() > 0),
        forall|user_id: UserId|
            present(Some(states), channel_id, user_id) == occupants(
                Some(states),
                channel_id,
            ).contains(user_id),
    decreases states.len(),
{
    let inside = states.filter(is_in(channel_id));
    let users = inside.map_values(user_of());
    assert forall|user_id: UserId|
        present(Some(states), channel_id, user_id) == users.contains(user_id) by {
        if present(Some(states), channel_id, user_id) {
            let i = choose|i: int|
                0 <= i < states.len() && (#[trigger] states[i]).channel_id == Some(channel_id)
                    && states[i].user_id == user_id;
            states.lemma_filter_contains(is_in(channel_id), i);
            let j = choose|j: int| 0 <= j < inside.len() && inside[j] == states[i];
            assert(users[j] == user_id);
        }
        if users.contains(user_id) {
            let j = choose|j: int| 0 <= j < users.len() && users[j] == user_id;
            inside.lemma_index_contains(j);
            states.lemma_filter_contains_rev(is_in(channel_id), inside[j]);
            states.lemma_filter_pred(is_in(channel_id), j);
            let i = choose|i: int| 0 <= i < states.len() && states[i] == inside[j];
            assert(states[i].channel_id == Some(channel_id));
        }
    }
    if occupied(Some(states), channel_id) {
        let i = choose|i: int|
            0 <= i < states.len() && (#[trigger] states[i]).channel_id == Some(channel_id);
        states.lemma_filter_contains(is_in(channel_id), i);
    }
    if users.len() > 0 {
        inside.lemma_index_contains(0);
        states.lemma_filter_contains_rev(is_in(channel_id), inside[0]);
        states.lemma_filter_pred(is_in(channel_id), 0);
        let i = choose|i: int| 0 <= i < states.len() && states[i] == inside[0];
        assert(states[i].channel_id == Some(channel_id));
    }
}

/// What a change of one user's voice state amounts to.
#[derive(Clone, Copy, Debug, PartialEq, Eq, Structural)]
pub struct Movement {
    /// The channel that the user has entered.
    pub joined: Option<ChannelId>,
    /// The channel that the user has left.
    pub left: Option<ChannelId>,
}

/// The movement from a previous state to a new one: `old` is `None` where
/// nothing was known of the user before, else the channel the user was in.
pub open spec fn movement_of(old: Option<Option<ChannelId>>, new: Option<ChannelId>) -> Movement {
    match old {
        None => Movement { joined: new, left: None },
        Some(before) => if before == new {
            Movement { joined: None, left: None }
        } else {
            Movement { joined: new, left: before }
        },
    }
}

/// Reads a change of voice state as a join, a leave, both (a move from one
/// channel to another) or neither.
pub fn movement(old: Option<Option<ChannelId>>, new: Option<ChannelId>) -> (r: Movement)
    ensures
        r == movement_of(old, new),
{
    match old {
        None => Movement { joined: new, left: None },
        Some(before) => {
            let same = match (before, new) {
                (Some(a), Some(b)) => a == b,
                (None, None) => true,
                _ => false,
            };
            if same {
                Movement { joined: None, left: None }
            } else {
                Movement { joined: new, left: before }
            }
        },
    }
}

/// The view of an optional command.
pub open spec fn command_view(command: Option<HandlerCommand>) -> Option<HandlerCommandView> {
    match command {
        Some(command) => Some(command@),
        None => None,
    }
}

/// Whether the actor wants to hear of a channel: the lobby, and every
/// managed room.
pub open spec fn watched(channel_id: Option<ChannelId>, managed: bool) -> bool {
    channel_id is Some && (managed || channel_id == Some(VC_CHANNEL))
}

/// What the actor is told of a change of a user's voice state: the join and
/// the leave that it amounts to, each only for a watched channel. Nothing is
/// told of another guild, nor of a join by a user whose name is not known.
pub open spec fn events_of(
    guild_id: Option<GuildId>,
    old: Option<Option<ChannelId>>,
    new: Option<ChannelId>,
    user_id: UserId,
    display_name: Option<Seq<char>>,
    joined_managed: bool,
    left_managed: bool,
) -> (Option<HandlerCommandView>, Option<HandlerCommandView>) {
    let moved = movement_of(old, new);
    if guild_id != Some(GUILD) || (watched(moved.joined, joined_managed) && display_name is None) {
        (None, None)
    } else {
        (
            if watched(moved.joined, joined_managed) {
                Some(
                    HandlerCommandView::JoinSpecial(
                        moved.joined.unwrap(),
                        user_id,
                        display_name.unwrap(),
                    ),
                )
            } else {
                None
            },
            if watched(moved.left, left_managed) {
                Some(HandlerCommandView::LeaveVc(moved.left.unwrap(), user_id))
            } else {
                None
            },
        )
    }
}

fn is_watched(channel_id: Option<ChannelId>, managed: bool) -> (r: bool)
    ensures
        r == watched(channel_id, managed),
{
    match channel_id {
        Some(id) => managed || id == VC_CHANNEL,
        None => false,
    }
}

/// Turns a change of a user's voice state into what the actor is told: first
/// the join, then the leave. `joined_managed` and `left_managed` say whether
/// the channel that [`movement`] gives as joined, and as left, is a managed
/// room.
pub fn check_channel(
    guild_id: Option<GuildId>,
    old: Option<Option<ChannelId>>,
    new: Option<ChannelId>,
    user_id: UserId,
    display_name: Option<String>,
    joined_managed: bool,
    left_managed: bool,
) -> (r: (Option<HandlerCommand>, Option<HandlerCommand>))
    ensures
        (command_view(r.0), command_view(r.1)) == events_of(
            guild_id,
            old,
            new,
            user_id,
            match display_name {
                Some(name) => Some(name@),
                None => None,
            },
            joined_managed,
            left_managed,
        ),
{
    match guild_id {
        Some(id) => {
            if id != GUILD {
                return (None, None);
            }
        },
        None => {
            return (None, None);
        },
    }
    let moved = movement(old, new);
    let mut join: Option<HandlerCommand> = None;
    if is_watched(moved.joined, joined_managed) {
        match (moved.joined, display_name) {
            (Some(channel_id), Some(name)) => {
                join = Some(HandlerCommand::JoinSpecial(channel_id, user_id, name));
            },
            _ => {
                return (None, None);
            },
        }
    }
    let mut leave: Option<HandlerCommand> = None;
    if is_watched(moved.left, left_managed) {
        match moved.left {
            Some(channel_id) => {
                leave = Some(HandlerCommand::LeaveVc(channel_id, user_id));
            },
            None => {},
        }
    }
    (join, leave)
}

} // verus!
