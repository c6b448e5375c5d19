//! The lifecycle actor: what it decides on each event and each expired timer.
//!
//! The actor owns the timer wheel and the time at which each user last had a
//! room created. It never talks to the outside itself: each step takes what
//! was observed (the persisted configuration, the voice states, the time) and
//! answers with the one thing to do next.

use std::collections::HashMap;
use vstd::prelude::*;
use crate::overlay::{build_permission_overwrites, overlay};
use crate::permissions::{ChannelId, GuildId, PermissionOverwrite, RoleId, UserId};
use crate::presence::{
    get_vc_users, occupants, occupied, present, snapshot_view, vc_has_people, vc_has_user,
    VoiceState,
};
use crate::private_vc::{PrivateVc, PrivateVcView};
use crate::random::random_u32;
use crate::timer::{
    deadline_after, deadline_of, due, is_pending, lemma_due, lemma_scheduled, scheduled, upcoming,
    wheel_wf, without, Timer, TimerKey, TimerView, TimerWheel,
};

verus! {

broadcast use vstd::std_specs::hash::group_hash_axioms;

/// The lobby: joining it asks for a room of one's own. It is never deleted.
pub const VC_CHANNEL: ChannelId = 1399817426723668039;

/// The guild that the rooms live in. Its default role has the same number.
pub const GUILD: GuildId = 98226572468690944;

/// Milliseconds that must pass between two rooms created for one user, and
/// that a channel must stay empty before it is deleted.
pub const COOLDOWN: u64 = 30_000;

/// Milliseconds after which an absent owner is replaced.
pub const OWNER_ABSENCE: u64 = 300_000;

/// Milliseconds after a start at which each persisted room is looked at.
pub const STARTUP_SWEEP: u64 = 5_000;

/// An event in the actor's mailbox.
#[derive(Debug)]
pub enum HandlerCommand {
    /// A user has entered the lobby or a managed room; the name is the one
    /// shown for the user at that moment.
    JoinSpecial(ChannelId, UserId, String),
    /// A user has left the lobby or a managed room.
    LeaveVc(ChannelId, UserId),
    /// The actor is to stop.
    Shutdown,
}

/// A [`HandlerCommand`] as mathematical values.
pub enum HandlerCommandView {
    JoinSpecial(ChannelId, UserId, Seq<char>),
    LeaveVc(ChannelId, UserId),
    Shutdown,
}

impl View for HandlerCommand {
    type V = HandlerCommandView;

    open spec fn view(&self) -> HandlerCommandView {
        match self {
            HandlerCommand::JoinSpecial(channel_id, user_id, name) => {
                HandlerCommandView::JoinSpecial(*channel_id, *user_id, name@)
            },
            HandlerCommand::LeaveVc(channel_id, user_id) => HandlerCommandView::LeaveVc(
                *channel_id,
                *user_id,
            ),
            HandlerCommand::Shutdown => HandlerCommandView::Shutdown,
        }
    }
}

/// What the actor asks to be done outside.
#[derive(Debug)]
pub enum Action {
    Nothing,
    /// Create a room for this user, named after this display name.
    CreateChannel(UserId, String),
    /// Delete this channel and, only where that succeeds, its persisted row.
    DeleteChannel(ChannelId),
    /// Persist this configuration for this channel, then refresh the control
    /// message and apply the overlay of the new configuration.
    TransferOwner(ChannelId, PrivateVc),
}

/// An [`Action`] as mathematical values.
pub enum ActionView {
    Nothing,
    CreateChannel(UserId, Seq<char>),
    DeleteChannel(ChannelId),
    TransferOwner(ChannelId, PrivateVcView),
}

impl View for Action {
    type V = ActionView;

    open spec fn view(&self) -> ActionView {
        match self {
            Action::Nothing => ActionView::Nothing,
            Action::CreateChannel(user_id, name) => ActionView::CreateChannel(*user_id, name@),
            Action::DeleteChannel(channel_id) => ActionView::DeleteChannel(*channel_id),
            Action::TransferOwner(channel_id, vc) => ActionView::TransferOwner(*channel_id, vc@),
        }
    }
}

/// The actor's state as mathematical values.
pub struct ActorView {
    /// The pending timers, in due order.
    pub timers: Seq<TimerView>,
    /// When each user last had a room created at once.
    pub join_times: Map<UserId, u64>,
}

/// The view of an optional configuration.
pub open spec fn config_view(vc: Option<&PrivateVc>) -> Option<PrivateVcView> {
    match vc {
        Some(vc) => Some(vc@),
        None => None,
    }
}

/// Milliseconds from `since` to `now`; none where `now` is the earlier one.
pub open spec fn elapsed(now: u64, since: u64) -> u64 {
    if now >= since {
        (now - since) as u64
    } else {
        0
    }
}

/// Whether the user had a room created less than [`COOLDOWN`] before `now`.
pub open spec fn in_cooldown(join_times: Map<UserId, u64>, user_id: UserId, now: u64) -> bool {
    join_times.contains_key(user_id) && elapsed(now, join_times[user_id]) < COOLDOWN
}

/// The timer that defers a room for a user who is still in cooldown: it falls
/// due when the cooldown ends.
pub open spec fn cooldown_timer(
    join_times: Map<UserId, u64>,
    user_id: UserId,
    name: Seq<char>,
    now: u64,
) -> TimerView {
    TimerView {
        key: TimerKey::Cooldown(user_id),
        deadline: deadline_after(now, (COOLDOWN - elapsed(now, join_times[user_id])) as u64),
        display_name: name,
    }
}

/// The state after a user has entered a channel.
///
/// In a managed room the owner's return takes the owner-absence timer off the
/// wheel and anybody else changes nothing. A channel that is neither managed
/// nor the lobby changes nothing. In the lobby a user in cooldown gets a
/// cooldown timer, in place of an earlier one; any other user is noted as
/// having a room created now.
pub open spec fn after_join(
    state: ActorView,
    channel_id: ChannelId,
    user_id: UserId,
    name: Seq<char>,
    vc: Option<PrivateVcView>,
    now: u64,
) -> ActorView {
    match vc {
        Some(vc) => if vc.owner_id == user_id {
            ActorView {
                timers: without(state.timers, TimerKey::OwnerAbsence(channel_id, user_id)),
                ..state
            }
        } else {
            state
        },
        None => if channel_id != VC_CHANNEL {
            state
        } else if in_cooldown(state.join_times, user_id, now) {
            ActorView {
                timers: scheduled(
                    state.timers,
                    cooldown_timer(state.join_times, user_id, name, now),
                ),
                ..state
            }
        } else {
            ActorView { join_times: state.join_times.insert(user_id, now), ..state }
        },
    }
}

/// What is to be done after a user has entered a channel: a room is created
/// at once for a user who enters the lobby out of cooldown, and nothing is
/// done in any other case.
pub open spec fn join_action(
    state: ActorView,
    channel_id: ChannelId,
    user_id: UserId,
    name: Seq<char>,
    vc: Option<PrivateVcView>,
    now: u64,
) -> ActionView {
    if vc is None && channel_id == VC_CHANNEL && !in_cooldown(state.join_times, user_id, now) {
        ActionView::CreateChannel(user_id, name)
    } else {
        ActionView::Nothing
    }
}

/// The timer that looks at a channel [`COOLDOWN`] after it was seen empty.
pub open spec fn leave_timer(channel_id: ChannelId, now: u64, timeout: u64) -> TimerView {
    TimerView {
        key: TimerKey::Leave(channel_id),
        deadline: deadline_after(now, timeout),
        display_name: Seq::empty(),
    }
}

/// The timer that looks for the owner [`OWNER_ABSENCE`] after the owner left.
pub open spec fn owner_absence_timer(channel_id: ChannelId, user_id: UserId, now: u64) -> TimerView {
    TimerView {
        key: TimerKey::OwnerAbsence(channel_id, user_id),
        deadline: deadline_after(now, OWNER_ABSENCE),
        display_name: Seq::empty(),
    }
}

/// The timers after a user has left a channel: a leave timer where the channel
/// is now empty, and an owner-absence timer where the user owns the room,
/// whoever else is still in it.
pub open spec fn after_leave(
    timers: Seq<TimerView>,
    channel_id: ChannelId,
    user_id: UserId,
    vc: Option<PrivateVcView>,
    has_people: bool,
    now: u64,
) -> Seq<TimerView> {
    let swept = if has_people {
        timers
    } else {
        scheduled(timers, leave_timer(channel_id, now, COOLDOWN))
    };
    if vc is Some && vc.unwrap().owner_id == user_id {
        scheduled(swept, owner_absence_timer(channel_id, user_id, now))
    } else {
        swept
    }
}

/// The timers of an actor that starts at `now` with these persisted rooms:
/// one leave timer for each, [`STARTUP_SWEEP`] from now.
pub open spec fn rehydrated(channels: Seq<ChannelId>, now: u64) -> Seq<TimerView>
    decreases channels.len(),
{
    if channels.len() == 0 {
        Seq::empty()
    } else {
        scheduled(
            rehydrated(channels.drop_last(), now),
            leave_timer(channels.last(), now, STARTUP_SWEEP),
        )
    }
}

/// The occupant that a random number picks as the new owner.
pub open spec fn new_owner(users: Seq<UserId>, random: u32) -> UserId
    recommends
        users.len() > 0,
{
    users[(random as int) % (users.len() as int)]
}

/// What is to be done when a timer has fallen due.
///
/// A cooldown creates the room if the user is still in the lobby. A leave
/// timer deletes the channel if it is not the lobby and nobody is in it. An
/// owner-absence timer hands the room to one of its occupants if the owner is
/// still away, the room still has a configuration and somebody is in it.
pub open spec fn expired_action(
    timer: TimerView,
    vc: Option<PrivateVcView>,
    voice_states: Option<Seq<VoiceState>>,
    random: u32,
) -> ActionView {
    match timer.key {
        TimerKey::Cooldown(user_id) => if present(voice_states, VC_CHANNEL, user_id) {
            ActionView::CreateChannel(user_id, timer.display_name)
        } else {
            ActionView::Nothing
        },
        TimerKey::Leave(channel_id) => if channel_id != VC_CHANNEL && !occupied(
            voice_states,
            channel_id,
        ) {
            ActionView::DeleteChannel(channel_id)
        } else {
            ActionView::Nothing
        },
        TimerKey::OwnerAbsence(channel_id, user_id) => if vc is Some && !present(
            voice_states,
            channel_id,
            user_id,
        ) && occupants(voice_states, channel_id).len() > 0 {
            ActionView::TransferOwner(
                channel_id,
                vc.unwrap().with_owner(new_owner(occupants(voice_states, channel_id), random)),
            )
        } else {
            ActionView::Nothing
        },
    }
}

/// The state after a due timer was decided at `now`: a room that is created
/// for a cooldown timer is noted as created now, so that the cooldown runs
/// from every creation, deferred or not. Nothing else changes.
pub open spec fn after_expired(
    state: ActorView,
    timer: TimerView,
    voice_states: Option<Seq<VoiceState>>,
    now: u64,
) -> ActorView {
    match timer.key {
        TimerKey::Cooldown(user_id) => if present(voice_states, VC_CHANNEL, user_id) {
            ActorView { join_times: state.join_times.insert(user_id, now), ..state }
        } else {
            state
        },
        _ => state,
    }
}

/// The occupant that `random` picks: the one at `random` modulo the number of
/// occupants.
pub fn choose_owner(users: &Vec<UserId>, random: u32) -> (owner: UserId)
    requires
        users@.len() > 0,
    ensures
        owner == new_owner(users@, random),
        users@.contains(owner),
{
    let index = random as usize % users.len();
    users[index]
}

/// The row to remove once the deletion of a channel was tried: the channel's
/// own where the deletion succeeded, none where it failed.
pub fn cleanup_after_delete(channel_id: ChannelId, deleted: bool) -> (row: Option<ChannelId>)
    ensures
        row == if deleted {
            Some(channel_id)
        } else {
            None
        },
{
    if deleted {
        Some(channel_id)
    } else {
        None
    }
}

/// The access list of a room whose owner has changed: the overlay of the new
/// configuration over the category's list, or over an empty list where the
/// category is not known.
pub fn transfer_overwrites(new_vc: &PrivateVc, parent: Option<&Vec<PermissionOverwrite>>) -> (r:
    Vec<PermissionOverwrite>)
    ensures
        r@ == overlay(
            new_vc@,
            match parent {
                Some(parent) => parent@,
                None => Seq::empty(),
            },
        ),
{
    let mut stripped_users: Vec<UserId> = Vec::new();
    let mut stripped_roles: Vec<RoleId> = Vec::new();
    match parent {
        Some(parent) => build_permission_overwrites(
            new_vc,
            parent,
            &mut stripped_users,
            &mut stripped_roles,
        ),
        None => {
            let empty: Vec<PermissionOverwrite> = Vec::new();
            build_permission_overwrites(new_vc, &empty, &mut stripped_users, &mut stripped_roles)
        },
    }
}

/// The lifecycle actor's state: the timer wheel and the time at which each
/// user last had a room created at once.
pub struct Actor {
    wheel: TimerWheel,
    join_times: HashMap<UserId, u64>,
}

impl View for Actor {
    type V = ActorView;

    closed spec fn view(&self) -> ActorView {
        ActorView { timers: self.wheel@, join_times: self.join_times@ }
    }
}

impl Actor {
    /// What holds of every actor: its timers have no key twice and stand in
    /// due order.
    pub open spec fn wf(&self) -> bool {
        wheel_wf(self@.timers)
    }

    /// The actor as it starts at `now`: each persisted room gets a leave timer
    /// [`STARTUP_SWEEP`] from now, so that rooms that emptied while nothing
    /// watched are swept. Nobody is in cooldown.
    pub fn start(channels: &Vec<ChannelId>, now: u64) -> (actor: Actor)
        ensures
            actor.wf(),
            actor@.timers == rehydrated(channels@, now),
            actor@.join_times == Map::<UserId, u64>::empty(),
    {
        let mut wheel = TimerWheel::new();
        let mut i: usize = 0;
        assert(channels@.take(0) =~= Seq::<ChannelId>::empty());
        while i < channels.len()
            invariant
                i <= channels.len(),
                wheel.wf(),
                wheel@ == rehydrated(channels@.take(i as int), now),
            decreases channels.len() - i,
        {
            proof {
                assert(channels@.take(i as int + 1).drop_last() =~= channels@.take(i as int));
            }
            wheel.insert(TimerKey::Leave(channels[i]), String::new(), now, STARTUP_SWEEP);
            i += 1;
        }
        proof {
            channels@.lemma_take_len();
        }
        Actor { wheel, join_times: HashMap::new() }
    }

    /// The instant at which the next timer falls due.
    pub fn next_deadline(&self) -> (r: Option<u64>)
        ensures
            r == if self@.timers.len() == 0 {
                None
            } else {
                Some(self@.timers[0].deadline)
            },
    {
        self.wheel.next_deadline()
    }

    /// Takes the first timer off the wheel if it has fallen due at `now`.
    /// Timers come out in due order: the one that comes out is due no later
    /// than any that stays.
    pub fn next_expired(&mut self, now: u64) -> (r: Option<Timer>)
        requires
            old(self).wf(),
        ensures
            final(self).wf(),
            final(self)@.join_times == old(self)@.join_times,
            match r {
                Some(timer) => {
                    &&& old(self)@.timers.len() > 0
                    &&& timer@ == old(self)@.timers[0]
                    &&& timer.deadline <= now
                    &&& final(self)@.timers == old(self)@.timers.drop_first()
                    &&& forall|i: int|
                        0 <= i < final(self)@.timers.len() ==> timer.deadline <= (
                        #[trigger] final(self)@.timers[i]).deadline
                },
                None => {
                    &&& final(self)@.timers == old(self)@.timers
                    &&& forall|i: int|
                        0 <= i < old(self)@.timers.len() ==> (
                        #[trigger] old(self)@.timers[i]).deadline > now
                },
            },
    {
        self.wheel.pop_expired(now)
    }

    /// Takes every timer off the wheel that has fallen due at `now`, and
    /// returns them in due order.
    pub fn all_expired(&mut self, now: u64) -> (r: Vec<Timer>)
        requires
            old(self).wf(),
        ensures
            final(self).wf(),
            final(self)@.join_times == old(self)@.join_times,
            r@.map_values(|t: Timer| t@) == due(old(self)@.timers, now),
            final(self)@.timers == upcoming(old(self)@.timers, now),
    {
        self.wheel.pop_all_expired(now)
    }

    /// Handles one event, given the persisted configuration of the event's
    /// channel, the voice states and the time. Returns whether the actor goes
    /// on, and what is to be done outside.
    pub fn handle_command(
        &mut self,
        cmd: HandlerCommand,
        vc: Option<&PrivateVc>,
        voice_states: Option<&Vec<VoiceState>>,
        now: u64,
    ) -> (r: (bool, Action))
        requires
            old(self).wf(),
        ensures
            final(self).wf(),
            match cmd {
                HandlerCommand::JoinSpecial(channel_id, user_id, name) => {
                    &&& r.0
                    &&& final(self)@ == after_join(
                        old(self)@,
                        channel_id,
                        user_id,
                        name@,
                        config_view(vc),
                        now,
                    )
                    &&& r.1@ == join_action(
                        old(self)@,
                        channel_id,
                        user_id,
                        name@,
                        config_view(vc),
                        now,
                    )
                },
                HandlerCommand::LeaveVc(channel_id, user_id) => {
                    &&& r.0
                    &&& final(self)@.join_times == old(self)@.join_times
                    &&& final(self)@.timers == after_leave(
                        old(self)@.timers,
                        channel_id,
                        user_id,
                        config_view(vc),
                        occupied(snapshot_view(voice_states), channel_id),
                        now,
                    )
                    &&& r.1@ == ActionView::Nothing
                },
                HandlerCommand::Shutdown => {
                    &&& !r.0
                    &&& final(self)@ == old(self)@
                    &&& r.1@ == ActionView::Nothing
                },
            },
    {
        match cmd {
            HandlerCommand::JoinSpecial(channel_id, user_id, name) => {
                if let Some(vc) = vc {
                    if vc.owner_id == user_id {
                        self.wheel.cancel(TimerKey::OwnerAbsence(channel_id, user_id));
                    }
                    return (true, Action::Nothing);
                }
                if channel_id != VC_CHANNEL {
                    return (true, Action::Nothing);
                }
                if let Some(join_time) = self.join_times.get(&user_id) {
                    let passed = now.saturating_sub(*join_time);
                    if passed < COOLDOWN {
                        let remaining = COOLDOWN - passed;
                        self.wheel.insert(TimerKey::Cooldown(user_id), name, now, remaining);
                        return (true, Action::Nothing);
                    }
                }
                self.join_times.insert(user_id, now);
                (true, Action::CreateChannel(user_id, name))
            },
            HandlerCommand::LeaveVc(channel_id, user_id) => {
                if !vc_has_people(voice_states, channel_id) {
                    self.wheel.insert(TimerKey::Leave(channel_id), String::new(), now, COOLDOWN);
                }
                if let Some(vc) = vc {
                    if vc.owner_id == user_id {
                        self.wheel.insert(
                            TimerKey::OwnerAbsence(channel_id, user_id),
                            String::new(),
                            now,
                            OWNER_ABSENCE,
                        );
                    }
                }
                (true, Action::Nothing)
            },
            HandlerCommand::Shutdown => (false, Action::Nothing),
        }
    }
}

/// Decides at `now` what is to be done for a timer that has fallen due, given
/// the persisted configuration of the timer's channel, the voice states and a
/// random number for the choice of a new owner. A room that is created for a
/// cooldown timer is noted in the actor as created now.
pub fn decide_expired(
    actor: &mut Actor,
    timer: Timer,
    vc: Option<&PrivateVc>,
    voice_states: Option<&Vec<VoiceState>>,
    random: u32,
    now: u64,
) -> (action: Action)
    requires
        old(actor).wf(),
    ensures
        final(actor).wf(),
        action@ == expired_action(timer@, config_view(vc), snapshot_view(voice_states), random),
        final(actor)@ == after_expired(old(actor)@, timer@, snapshot_view(voice_states), now),
        match action@ {
            ActionView::CreateChannel(user_id, _) => final(actor)@.join_times
                == old(actor)@.join_times.insert(user_id, now),
            _ => final(actor)@ == old(actor)@,
        },
{
    match timer.key {
        TimerKey::Cooldown(user_id) => {
            if vc_has_user(voice_states, VC_CHANNEL, user_id) {
                actor.join_times.insert(user_id, now);
                Action::CreateChannel(user_id, timer.display_name)
            } else {
                Action::Nothing
            }
        },
        TimerKey::Leave(channel_id) => {
            if channel_id != VC_CHANNEL && !vc_has_people(voice_states, channel_id) {
                Action::DeleteChannel(channel_id)
            } else {
                Action::Nothing
            }
        },
        TimerKey::OwnerAbsence(channel_id, user_id) => {
            if vc_has_user(voice_states, channel_id, user_id) {
                return Action::Nothing;
            }
            match vc {
                None => Action::Nothing,
                Some(vc) => {
                    let users = get_vc_users(voice_states, channel_id);
                    if users.len() == 0 {
                        Action::Nothing
                    } else {
                        let owner = choose_owner(&users, random);
                        Action::TransferOwner(channel_id, vc.with_owner(owner))
                    }
                },
            }
        },
    }
}

/// Decides at `now` what is to be done for a timer that has fallen due, with
/// a random number of its own for the choice of a new owner: the action is
/// what [`decide_expired`] gives for some number, and the actor is left as
/// [`decide_expired`] leaves it for every number.
pub fn handle_expired(
    actor: &mut Actor,
    timer: Timer,
    vc: Option<&PrivateVc>,
    voice_states: Option<&Vec<VoiceState>>,
    now: u64,
) -> (action: Action)
    requires
        old(actor).wf(),
    ensures
        final(actor).wf(),
        exists|random: u32|
            action@ == #[trigger] expired_action(
                timer@,
                config_view(vc),
                snapshot_view(voice_states),
                random,
            ),
        final(actor)@ == after_expired(old(actor)@, timer@, snapshot_view(voice_states), now),
        match action@ {
            ActionView::CreateChannel(user_id, _) => final(actor)@.join_times
                == old(actor)@.join_times.insert(user_id, now),
            _ => final(actor)@ == old(actor)@,
        },
{
    let random = random_u32();
    decide_expired(actor, timer, vc, voice_states, random, now)
}

/// A room created at once is noted: the user's last creation is then `now`.
pub proof fn lemma_creation_noted(
    state: ActorView,
    user_id: UserId,
    name: Seq<char>,
    vc: Option<PrivateVcView>,
    channel_id: ChannelId,
    now: u64,
)
    requires
        join_action(state, channel_id, user_id, name, vc, now) is CreateChannel,
    ensures
        join_action(state, channel_id, user_id, name, vc, now) == ActionView::CreateChannel(
            user_id,
            name,
        ),
        after_join(state, channel_id, user_id, name, vc, now).join_times.contains_key(user_id),
        after_join(state, channel_id, user_id, name, vc, now).join_times[user_id] == now,
        after_join(state, channel_id, user_id, name, vc, now).timers == state.timers,
{
}

/// The cooldown: a user whose last room was created at `created`, at once or
/// when a cooldown timer fell due, and who enters the lobby again before
/// [`COOLDOWN`] has passed gets no room at once,
/// but a cooldown timer that falls due when the cooldown ends. Entering when
/// the cooldown has passed, the user gets a room at once.
pub proof fn lemma_cooldown(
    state: ActorView,
    user_id: UserId,
    name: Seq<char>,
    created: u64,
    now: u64,
)
    requires
        wheel_wf(state.timers),
        state.join_times.contains_key(user_id),
        state.join_times[user_id] == created,
        created <= now,
    ensures
        now < created + COOLDOWN ==> {
            let next = after_join(state, VC_CHANNEL, user_id, name, None, now);
            &&& join_action(state, VC_CHANNEL, user_id, name, None, now) == ActionView::Nothing
            &&& wheel_wf(next.timers)
            &&& deadline_of(next.timers, TimerKey::Cooldown(user_id)) == Some(
                deadline_after(created, COOLDOWN),
            )
            &&& next.join_times == state.join_times
        },
        now >= created + COOLDOWN ==> {
            let next = after_join(state, VC_CHANNEL, user_id, name, None, now);
            &&& join_action(state, VC_CHANNEL, user_id, name, None, now)
                == ActionView::CreateChannel(user_id, name)
            &&& next.timers == state.timers
            &&& next.join_times == state.join_times.insert(user_id, now)
        },
{
    if now < created + COOLDOWN {
        lemma_scheduled(state.timers, cooldown_timer(state.join_times, user_id, name, now));
    }
}

/// A room created when a cooldown timer falls due is noted like one created
/// at once: the user's last creation is then `now`, so that [`lemma_cooldown`]
/// holds of the next join, whichever way the room before it was created.
pub proof fn lemma_deferred_creation_noted(
    state: ActorView,
    timer: TimerView,
    vc: Option<PrivateVcView>,
    voice_states: Option<Seq<VoiceState>>,
    random: u32,
    now: u64,
)
    requires
        expired_action(timer, vc, voice_states, random) is CreateChannel,
    ensures
        ({
            let user_id = expired_action(timer, vc, voice_states, random)->CreateChannel_0;
            let next = after_expired(state, timer, voice_states, now);
            &&& timer.key == TimerKey::Cooldown(user_id)
            &&& next.join_times.contains_key(user_id)
            &&& next.join_times[user_id] == now
            &&& next.timers == state.timers
            &&& forall|later: u64, name: Seq<char>|
                now <= later < now + COOLDOWN ==> #[trigger] join_action(
                    next,
                    VC_CHANNEL,
                    user_id,
                    name,
                    None,
                    later,
                ) == ActionView::Nothing
        }),
{
}

/// Leaving schedules what the leave calls for: a leave timer [`COOLDOWN`]
/// from now where the channel is empty, an owner-absence timer
/// [`OWNER_ABSENCE`] from now where the owner left, and both where both hold.
pub proof fn lemma_leave_schedules(
    timers: Seq<TimerView>,
    channel_id: ChannelId,
    user_id: UserId,
    vc: Option<PrivateVcView>,
    has_people: bool,
    now: u64,
)
    requires
        wheel_wf(timers),
    ensures
        wheel_wf(after_leave(timers, channel_id, user_id, vc, has_people, now)),
        !has_people ==> deadline_of(
            after_leave(timers, channel_id, user_id, vc, has_people, now),
            TimerKey::Leave(channel_id),
        ) == Some(deadline_after(now, COOLDOWN)),
        vc is Some && vc.unwrap().owner_id == user_id ==> deadline_of(
            after_leave(timers, channel_id, user_id, vc, has_people, now),
            TimerKey::OwnerAbsence(channel_id, user_id),
        ) == Some(deadline_after(now, OWNER_ABSENCE)),
{
    let swept = if has_people {
        timers
    } else {
        scheduled(timers, leave_timer(channel_id, now, COOLDOWN))
    };
    if !has_people {
        lemma_scheduled(timers, leave_timer(channel_id, now, COOLDOWN));
    }
    if vc is Some && vc.unwrap().owner_id == user_id {
        lemma_scheduled(swept, owner_absence_timer(channel_id, user_id, now));
    }
}

/// The lobby is never deleted: no timer, whatever was observed, asks for it.
pub proof fn lemma_lobby_never_deleted(
    timer: TimerView,
    vc: Option<PrivateVcView>,
    voice_states: Option<Seq<VoiceState>>,
    random: u32,
)
    ensures
        expired_action(timer, vc, voice_states, random) != ActionView::DeleteChannel(VC_CHANNEL),
{
}

/// A leave timer deletes its channel exactly when the channel is not the
/// lobby and is known to be empty; a channel is deleted on no other timer.
pub proof fn lemma_cleanup(
    timer: TimerView,
    vc: Option<PrivateVcView>,
    voice_states: Option<Seq<VoiceState>>,
    random: u32,
    channel_id: ChannelId,
)
    ensures
        expired_action(timer, vc, voice_states, random) == ActionView::DeleteChannel(channel_id) <==> (
        timer.key == TimerKey::Leave(channel_id) && channel_id != VC_CHANNEL && voice_states is Some
            && occupants(voice_states, channel_id).len() == 0),
{
    if voice_states is Some {
        crate::presence::lemma_occupants(voice_states.unwrap(), channel_id);
        match timer.key {
            TimerKey::Leave(other) => {
                crate::presence::lemma_occupants(voice_states.unwrap(), other);
            },
            _ => {},
        }
    }
}

/// The handoff: when the owner-absence timer of a configured room falls due
/// while the owner is away and somebody is in the room, the room goes to one
/// of its occupants. Nothing but the owner changes in the configuration, and
/// the overlay of the new configuration ends with the new owner's grant.
pub proof fn lemma_handoff(
    timer: TimerView,
    vc: PrivateVcView,
    states: Seq<VoiceState>,
    random: u32,
    channel_id: ChannelId,
    user_id: UserId,
    parent: Seq<PermissionOverwrite>,
)
    requires
        timer.key == TimerKey::OwnerAbsence(channel_id, user_id),
        !present(Some(states), channel_id, user_id),
        occupied(Some(states), channel_id),
    ensures
        expired_action(timer, Some(vc), Some(states), random) is TransferOwner,
        ({
            let next = expired_action(timer, Some(vc), Some(states), random)->TransferOwner_1;
            &&& expired_action(timer, Some(vc), Some(states), random)->TransferOwner_0 == channel_id
            &&& present(Some(states), channel_id, next.owner_id)
            &&& next.owner_id != user_id
            &&& next == vc.with_owner(next.owner_id)
            &&& overlay(next, parent).last() == crate::permissions::allow_connect(
                crate::permissions::PermissionOverwriteType::Member(next.owner_id),
            )
        }),
{
    crate::presence::lemma_occupants(states, channel_id);
    let users = occupants(Some(states), channel_id);
    let index = (random as int) % (users.len() as int);
    assert(0 <= index < users.len()) by (nonlinear_arith)
        requires
            users.len() > 0,
            random >= 0,
            index == (random as int) % (users.len() as int),
    ;
    assert(users.contains(users[index]));
    crate::overlay::lemma_overlay_grants_owner(vc.with_owner(users[index]), parent);
}

/// The start sweeps every persisted room: each has a leave timer that falls
/// due [`STARTUP_SWEEP`] after the start.
pub proof fn lemma_rehydrated(channels: Seq<ChannelId>, now: u64, channel_id: ChannelId)
    ensures
        wheel_wf(rehydrated(channels, now)),
        channels.contains(channel_id) ==> deadline_of(
            rehydrated(channels, now),
            TimerKey::Leave(channel_id),
        ) == Some(deadline_after(now, STARTUP_SWEEP)),
        !channels.contains(channel_id) ==> !is_pending(
            rehydrated(channels, now),
            TimerKey::Leave(channel_id),
        ),
    decreases channels.len(),
{
    if channels.len() == 0 {
        assert(crate::timer::keys_of(Seq::<TimerView>::empty()) =~= Seq::<TimerKey>::empty());
    } else {
        let before = channels.drop_last();
        lemma_rehydrated(before, now, channel_id);
        lemma_scheduled(rehydrated(before, now), leave_timer(channels.last(), now, STARTUP_SWEEP));
        if channels.contains(channel_id) {
            let i = choose|i: int| 0 <= i < channels.len() && channels[i] == channel_id;
            if i < channels.len() - 1 {
                assert(before[i] == channel_id);
            }
        }
        if before.contains(channel_id) {
            let i = choose|i: int| 0 <= i < before.len() && before[i] == channel_id;
            assert(channels[i] == channel_id);
        }
        rehydrated(before, now).map_values(|t: TimerView| t.key).index_of_first_ensures(
            TimerKey::Leave(channel_id),
        );
    }
}

/// Cleanup: when a user leaves a channel empty at `now`, the channel's leave
/// timer is among the timers that fall due at any instant from
/// `now + COOLDOWN` on, as long as nothing reschedules it. When it falls due
/// and the channel is still empty and is not the lobby, the channel is
/// deleted.
pub proof fn lemma_empty_room_is_swept(
    timers: Seq<TimerView>,
    channel_id: ChannelId,
    user_id: UserId,
    vc: Option<PrivateVcView>,
    now: u64,
    later: u64,
    states: Seq<VoiceState>,
    random: u32,
)
    requires
        wheel_wf(timers),
        now + COOLDOWN <= later,
    ensures
        is_pending(
            due(after_leave(timers, channel_id, user_id, vc, false, now), later),
            TimerKey::Leave(channel_id),
        ),
        channel_id != VC_CHANNEL && !occupied(Some(states), channel_id) ==> forall|timer: TimerView|
            timer.key == TimerKey::Leave(channel_id) ==> #[trigger] expired_action(
                timer,
                vc,
                Some(states),
                random,
            ) == ActionView::DeleteChannel(channel_id),
{
    lemma_leave_schedules(timers, channel_id, user_id, vc, false, now);
    lemma_due(
        after_leave(timers, channel_id, user_id, vc, false, now),
        later,
        TimerKey::Leave(channel_id),
    );
}

} // verus!
