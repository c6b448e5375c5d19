//! The handlers of the control panel: who may use it, and what each of its
//! menus and buttons does to the room's configuration.

use vstd::prelude::*;
use vstd::string::*;
use crate::overlay::{
    build_permission_overwrites, overlay, stripped_roles_of, stripped_users_of,
};
use crate::permissions::{
    has_overwrite, mentions, ChannelId, MessageId, PermissionOverwrite, PermissionOverwriteType,
    RoleId, UserId,
};
use crate::presence::{present, snapshot_view, vc_has_user, VoiceState};
use crate::private_vc::{
    lemma_remove_first, lemma_toggle_involution, lemma_toggle_membership,
    lemma_toggled_all_no_duplicates, position, toggle, toggled, toggled_all, PrivateVc,
    PrivateVcView,
};
use crate::task::config_view;

verus! {

/// The moderators of the community.
pub const MOD_COMMUNITY: RoleId = 98459030455853056;

/// The moderators of the voice channels.
pub const MOD_VOICE: RoleId = 723115326195367936;

/// The moderators on trial.
pub const MOD_TRIAL: RoleId = 781213498998915123;

/// The bot's own role.
pub const MOD_MOTH: RoleId = 1062803266636873781;

/// The moderation bot.
pub const MOD_BOT: RoleId = 150811709009821696;

/// Whether the role is one of the moderator roles: who holds one can be
/// neither denied a room nor disconnected from it.
pub open spec fn is_mod_role(role: RoleId) -> bool {
    role == MOD_COMMUNITY || role == MOD_VOICE || role == MOD_TRIAL || role == MOD_MOTH || role
        == MOD_BOT
}

/// Whether one of the roles is a moderator role.
pub open spec fn holds_mod_role(roles: Seq<RoleId>) -> bool {
    exists|i: int| 0 <= i < roles.len() && is_mod_role(#[trigger] roles[i])
}

/// Whether one of the roles is a moderator role.
pub fn is_mod(roles: &Vec<RoleId>) -> (r: bool)
    ensures
        r == holds_mod_role(roles@),
{
    let mut i: usize = 0;
    while i < roles.len()
        invariant
            i <= roles.len(),
            forall|j: int| 0 <= j < i ==> !is_mod_role(#[trigger] roles@[j]),
        decreases roles.len() - i,
    {
        let role = roles[i];
        if role == MOD_COMMUNITY || role == MOD_VOICE || role == MOD_TRIAL || role == MOD_MOTH
            || role == MOD_BOT {
            return true;
        }
        i += 1;
    }
    false
}

/// The part of the panel that an interaction comes from.
#[derive(Clone, Copy, Debug, PartialEq, Eq, Structural)]
pub enum Kind {
    Owner,
    Size,
    Disconnect,
    Allowlist,
    Denylist,
    Region,
}

/// The kind that a component's identifier names: the identifier begins with
/// the kind's word, followed by `_pvc_`.
pub open spec fn kind_of(id: Seq<char>) -> Option<Kind> {
    if "owner_pvc_"@.is_prefix_of(id) {
        Some(Kind::Owner)
    } else if "size_pvc_"@.is_prefix_of(id) {
        Some(Kind::Size)
    } else if "disconnect_pvc_"@.is_prefix_of(id) {
        Some(Kind::Disconnect)
    } else if "allowlist_pvc_"@.is_prefix_of(id) {
        Some(Kind::Allowlist)
    } else if "denylist_pvc_"@.is_prefix_of(id) {
        Some(Kind::Denylist)
    } else if "region_pvc_"@.is_prefix_of(id) {
        Some(Kind::Region)
    } else {
        None
    }
}

/// Whether `text` begins with `prefix`.
pub fn starts_with(text: &str, prefix: &str) -> (r: bool)
    ensures
        r == prefix@.is_prefix_of(text@),
{
    let n = prefix.unicode_len();
    if text.unicode_len() < n {
        return false;
    }
    let mut i: usize = 0;
    while i < n
        invariant
            i <= n,
            n == prefix@.len(),
            n <= text@.len(),
            forall|j: int| 0 <= j < i ==> text@[j] == prefix@[j],
        decreases n - i,
    {
        if text.get_char(i) != prefix.get_char(i) {
            return false;
        }
        i += 1;
    }
    true
}

impl Kind {
    /// Reads the kind from a component's identifier.
    pub fn from_id(id: &str) -> (r: Option<Kind>)
        ensures
            r == kind_of(id@),
    {
        if starts_with(id, "owner_pvc_") {
            Some(Kind::Owner)
        } else if starts_with(id, "size_pvc_") {
            Some(Kind::Size)
        } else if starts_with(id, "disconnect_pvc_") {
            Some(Kind::Disconnect)
        } else if starts_with(id, "allowlist_pvc_") {
            Some(Kind::Allowlist)
        } else if starts_with(id, "denylist_pvc_") {
            Some(Kind::Denylist)
        } else if starts_with(id, "region_pvc_") {
            Some(Kind::Region)
        } else {
            None
        }
    }
}

/// What becomes of an interaction with a panel.
#[derive(Clone, Copy, Debug, PartialEq, Eq, Structural)]
pub enum Routing {
    /// It is not for a panel, or not for the panel of this room: no answer.
    Ignore,
    /// Its user is neither the owner nor a moderator: answered with a
    /// refusal.
    NotOwner,
    /// It goes to the handler of its kind.
    Handle(Kind),
}

/// The view of an optional list of roles.
pub open spec fn roles_view(roles: Option<&Vec<RoleId>>) -> Option<Seq<RoleId>> {
    match roles {
        Some(roles) => Some(roles@),
        None => None,
    }
}

/// Where an interaction goes: nowhere unless its identifier names a kind,
/// the channel is a room and the message is the room's control message; then
/// to the handler of its kind if its user owns the room or is a moderator,
/// and to a refusal if not.
pub open spec fn routing(
    custom_id: Seq<char>,
    vc: Option<PrivateVcView>,
    message_id: MessageId,
    user_id: UserId,
    member_roles: Option<Seq<RoleId>>,
) -> Routing {
    if kind_of(custom_id) is None || vc is None || vc.unwrap().message_id != Some(message_id) {
        Routing::Ignore
    } else if vc.unwrap().owner_id != user_id && !(member_roles is Some && holds_mod_role(
        member_roles.unwrap(),
    )) {
        Routing::NotOwner
    } else {
        Routing::Handle(kind_of(custom_id).unwrap())
    }
}

/// Decides where an interaction goes, from the identifier of its component,
/// the configuration of its channel, its message, its user and the roles of
/// its user where they are known.
pub fn handle_interaction(
    custom_id: &str,
    private_vc: Option<&PrivateVc>,
    message_id: MessageId,
    user_id: UserId,
    member_roles: Option<&Vec<RoleId>>,
) -> (r: Routing)
    ensures
        r == routing(custom_id@, config_view(private_vc), message_id, user_id, roles_view(member_roles)),
{
    let kind = match Kind::from_id(custom_id) {
        Some(kind) => kind,
        None => {
            return Routing::Ignore;
        },
    };
    let private_vc = match private_vc {
        Some(vc) => vc,
        None => {
            return Routing::Ignore;
        },
    };
    match private_vc.message_id {
        Some(id) => {
            if id != message_id {
                return Routing::Ignore;
            }
        },
        None => {
            return Routing::Ignore;
        },
    }
    let moderator = match member_roles {
        Some(roles) => is_mod(roles),
        None => false,
    };
    if private_vc.owner_id != user_id && !moderator {
        Routing::NotOwner
    } else {
        Routing::Handle(kind)
    }
}

/// What a selection in the owner menu leads to.
#[derive(Debug)]
pub enum OwnerChange {
    /// Nobody was selected.
    Ignored,
    /// The selected user is not in the room: nothing changes.
    NotInVoice,
    /// The room goes to the selected user: this configuration is persisted.
    Transfer(PrivateVc),
}

/// An [`OwnerChange`] as mathematical values.
pub enum OwnerChangeView {
    Ignored,
    NotInVoice,
    Transfer(PrivateVcView),
}

impl View for OwnerChange {
    type V = OwnerChangeView;

    open spec fn view(&self) -> OwnerChangeView {
        match self {
            OwnerChange::Ignored => OwnerChangeView::Ignored,
            OwnerChange::NotInVoice => OwnerChangeView::NotInVoice,
            OwnerChange::Transfer(vc) => OwnerChangeView::Transfer(vc@),
        }
    }
}

/// What a selection in the owner menu leads to: the room goes to the
/// selected user if that user is in the room, and stays as it is if not.
pub open spec fn owner_change(
    vc: PrivateVcView,
    channel_id: ChannelId,
    selected: Option<UserId>,
    voice_states: Option<Seq<VoiceState>>,
) -> OwnerChangeView {
    match selected {
        None => OwnerChangeView::Ignored,
        Some(user_id) => if present(voice_states, channel_id, user_id) {
            OwnerChangeView::Transfer(vc.with_owner(user_id))
        } else {
            OwnerChangeView::NotInVoice
        },
    }
}

/// Handles a selection in the owner menu of the room in `channel_id`.
pub fn owner(
    private_vc: &PrivateVc,
    channel_id: ChannelId,
    selected: Option<UserId>,
    voice_states: Option<&Vec<VoiceState>>,
) -> (r: OwnerChange)
    ensures
        r@ == owner_change(private_vc@, channel_id, selected, snapshot_view(voice_states)),
{
    match selected {
        None => OwnerChange::Ignored,
        Some(user_id) => {
            if vc_has_user(voice_states, channel_id, user_id) {
                OwnerChange::Transfer(private_vc.with_owner(user_id))
            } else {
                OwnerChange::NotInVoice
            }
        },
    }
}

/// Whether the character is one of the ten ASCII digits.
pub open spec fn is_digit(c: char) -> bool {
    0x30 <= (c as u32) <= 0x39
}

/// Whether the text holds nothing but ASCII digits.
pub open spec fn all_digits(text: Seq<char>) -> bool {
    forall|i: int| 0 <= i < text.len() ==> is_digit(#[trigger] text[i])
}

/// The number that a text of ASCII digits writes in decimal.
pub open spec fn number_of(text: Seq<char>) -> nat
    decreases text.len(),
{
    if text.len() == 0 {
        0
    } else {
        number_of(text.drop_last()) * 10 + ((text.last() as u32) - 0x30) as nat
    }
}

/// The text without a plus sign at its front.
pub open spec fn unsigned_part(text: Seq<char>) -> Seq<char> {
    if text.len() > 0 && text[0] == '+' {
        text.skip(1)
    } else {
        text
    }
}

/// The number from 0 to 255 that a text stands for: the text is one or more
/// ASCII digits, with or without a plus sign before them, and writes a number
/// no greater than 255. Any other text stands for none.
pub open spec fn parsed_u8(text: Seq<char>) -> Option<u8> {
    let digits = unsigned_part(text);
    if digits.len() > 0 && all_digits(digits) && number_of(digits) <= 255 {
        Some(number_of(digits) as u8)
    } else {
        None
    }
}

/// Reads a number with `str::parse::<u8>` of the standard library. It takes
/// an optional plus sign followed by nothing but decimal digits, and gives an
/// error for an empty text, for any other character and for a number above
/// 255.
#[verifier::external_body]
fn parse_u8(text: &str) -> (r: Option<u8>)
    ensures
        r == parsed_u8(text@),
{
    text.parse::<u8>().ok()
}

/// The most users that a room can be limited to.
pub const MAX_SIZE: u8 = 99;

/// The user limit that an input asks for: the number that was read, where
/// one was read and it is no more than [`MAX_SIZE`].
pub open spec fn size_of(parsed: Option<u8>) -> Option<u8> {
    match parsed {
        Some(n) => if n <= MAX_SIZE {
            Some(n)
        } else {
            None
        },
        None => None,
    }
}

/// The user limit that an input asks for, given what was read from it.
pub fn size_limit(parsed: Option<u8>) -> (r: Option<u8>)
    ensures
        r == size_of(parsed),
{
    match parsed {
        Some(n) => if n <= MAX_SIZE {
            Some(n)
        } else {
            None
        },
        None => None,
    }
}

/// The user limit that the input of the size form asks for; none where the
/// input is no number from 0 to 99.
pub fn size(input: &str) -> (r: Option<u8>)
    ensures
        r == size_of(parsed_u8(input@)),
{
    size_limit(parse_u8(input))
}

/// A member that was selected in a menu, with the roles that the member
/// holds.
#[derive(Debug)]
pub struct SelectedMember {
    pub id: UserId,
    pub roles: Vec<RoleId>,
}

/// What a change of the access lists leads to.
#[derive(Debug)]
pub struct PermissionUpdate {
    /// The configuration to persist.
    pub private_vc: PrivateVc,
    /// The access list to apply to the room.
    pub permissions: Vec<PermissionOverwrite>,
    /// The users whose selection had no effect.
    pub stripped_users: Vec<UserId>,
    /// The roles whose selection had no effect.
    pub stripped_roles: Vec<RoleId>,
}

/// Whether the category has no entry for the user.
pub open spec fn user_is_free(parent: Seq<PermissionOverwrite>) -> spec_fn(UserId) -> bool {
    |user: UserId| !mentions(parent, PermissionOverwriteType::Member(user))
}

/// Whether the category has an entry for the user.
pub open spec fn user_is_bound(parent: Seq<PermissionOverwrite>) -> spec_fn(UserId) -> bool {
    |user: UserId| mentions(parent, PermissionOverwriteType::Member(user))
}

/// Whether the category has no entry for the role.
pub open spec fn role_is_free(parent: Seq<PermissionOverwrite>) -> spec_fn(RoleId) -> bool {
    |role: RoleId| !mentions(parent, PermissionOverwriteType::Role(role))
}

/// Whether the category has an entry for the role.
pub open spec fn role_is_bound(parent: Seq<PermissionOverwrite>) -> spec_fn(RoleId) -> bool {
    |role: RoleId| mentions(parent, PermissionOverwriteType::Role(role))
}

/// The configuration after a selection in the allow menu: each selected user
/// and each selected role for which the category has no entry is toggled in
/// its allow list.
pub open spec fn after_allow(
    vc: PrivateVcView,
    members: Seq<UserId>,
    roles: Seq<RoleId>,
    parent: Seq<PermissionOverwrite>,
) -> PrivateVcView {
    PrivateVcView {
        allowlist_users: toggled_all(vc.allowlist_users, members.filter(user_is_free(parent))),
        allowlist_roles: toggled_all(vc.allowlist_roles, roles.filter(role_is_free(parent))),
        ..vc
    }
}

/// Whether `update` is what changing a room's configuration to `vc` leads
/// to, `users` and `roles` having been left out of the selection already.
pub open spec fn is_update(
    update: PermissionUpdate,
    vc: PrivateVcView,
    parent: Seq<PermissionOverwrite>,
    users: Seq<UserId>,
    roles: Seq<RoleId>,
) -> bool {
    &&& update.private_vc@ == vc
    &&& update.permissions@ == overlay(vc, parent)
    &&& update.stripped_users@ == users + stripped_users_of(vc, parent)
    &&& update.stripped_roles@ == roles + stripped_roles_of(vc, parent)
}

/// Computes what follows a change of the configuration: the access list of
/// the new configuration, and the reports with what the overlay leaves out
/// added to what the selection left out.
pub fn update_permissions(
    private_vc: PrivateVc,
    parent_permissions: &Vec<PermissionOverwrite>,
    stripped_users: Vec<UserId>,
    stripped_roles: Vec<RoleId>,
) -> (update: PermissionUpdate)
    ensures
        is_update(update, private_vc@, parent_permissions@, stripped_users@, stripped_roles@),
{
    let mut stripped_users = stripped_users;
    let mut stripped_roles = stripped_roles;
    let permissions = build_permission_overwrites(
        &private_vc,
        parent_permissions,
        &mut stripped_users,
        &mut stripped_roles,
    );
    PermissionUpdate { private_vc, permissions, stripped_users, stripped_roles }
}

/// Toggles in `list` each of `selected` that `parent` has no entry for, and
/// reports the others.
fn toggle_free(
    list: &mut Vec<u64>,
    selected: &Vec<u64>,
    parent: &Vec<PermissionOverwrite>,
    role: bool,
) -> (stripped: Vec<u64>)
    ensures
        final(list)@ == toggled_all(
            old(list)@,
            selected@.filter(
                if role {
                    role_is_free(parent@)
                } else {
                    user_is_free(parent@)
                },
            ),
        ),
        stripped@ == selected@.filter(
            if role {
                role_is_bound(parent@)
            } else {
                user_is_bound(parent@)
            },
        ),
{
    let ghost free = if role {
        role_is_free(parent@)
    } else {
        user_is_free(parent@)
    };
    let ghost bound = if role {
        role_is_bound(parent@)
    } else {
        user_is_bound(parent@)
    };
    let mut stripped: Vec<u64> = Vec::new();
    let mut i: usize = 0;
    proof {
        reveal(Seq::filter);
        assert(selected@.take(0).filter(free) =~= Seq::<u64>::empty());
        assert(selected@.take(0).filter(bound) =~= Seq::<u64>::empty());
    }
    while i < selected.len()
        invariant
            i <= selected.len(),
            free == if role {
                role_is_free(parent@)
            } else {
                user_is_free(parent@)
            },
            bound == if role {
                role_is_bound(parent@)
            } else {
                user_is_bound(parent@)
            },
            list@ == toggled_all(old(list)@, selected@.take(i as int).filter(free)),
            stripped@ == selected@.take(i as int).filter(bound),
        decreases selected.len() - i,
    {
        let id = selected[i];
        let kind = if role {
            PermissionOverwriteType::Role(id)
        } else {
            PermissionOverwriteType::Member(id)
        };
        proof {
            selected@.lemma_take_succ_push(i as int);
            selected@.take(i as int).lemma_filter_push(id, free);
            selected@.take(i as int).lemma_filter_push(id, bound);
        }
        if has_overwrite(parent, kind) {
            stripped.push(id);
        } else {
            toggle(list, id);
            proof {
                let chosen = selected@.take(i as int).filter(free);
                assert(chosen.push(id).drop_last() =~= chosen);
            }
        }
        i += 1;
    }
    proof {
        selected@.lemma_take_len();
    }
    stripped
}

/// Handles a selection in the allow menu: toggles each selected user and
/// role in its allow list, but for those that the category has an entry for,
/// which are reported as stripped; then computes the room's new access list.
pub fn allow(
    private_vc: PrivateVc,
    members: &Vec<UserId>,
    roles: &Vec<RoleId>,
    parent_permissions: &Vec<PermissionOverwrite>,
) -> (update: PermissionUpdate)
    ensures
        is_update(
            update,
            after_allow(private_vc@, members@, roles@, parent_permissions@),
            parent_permissions@,
            members@.filter(user_is_bound(parent_permissions@)),
            roles@.filter(role_is_bound(parent_permissions@)),
        ),
{
    let mut vc = private_vc;
    let stripped_users = toggle_free(&mut vc.allowlist_users, members, parent_permissions, false);
    let stripped_roles = toggle_free(&mut vc.allowlist_roles, roles, parent_permissions, true);
    update_permissions(vc, parent_permissions, stripped_users, stripped_roles)
}

/// `list` without the first `id` in it.
pub open spec fn dropped(list: Seq<u64>, id: u64) -> Seq<u64> {
    match list.index_of_first(id) {
        Some(i) => list.remove(i),
        None => list,
    }
}

/// The configuration after one user was selected in the deny menu: a denied
/// user is denied no longer; any other user is denied from now on, and is
/// allowed no longer.
pub open spec fn deny_one(vc: PrivateVcView, user_id: UserId) -> PrivateVcView {
    if vc.denylist_users.contains(user_id) {
        PrivateVcView { denylist_users: toggled(vc.denylist_users, user_id), ..vc }
    } else {
        PrivateVcView {
            denylist_users: toggled(vc.denylist_users, user_id),
            allowlist_users: dropped(vc.allowlist_users, user_id),
            ..vc
        }
    }
}

/// Whether a selected member can be toggled in the deny list of a room of
/// `owner_id`: not a moderator, not the owner, and not a user that the
/// category has an entry for.
pub open spec fn deniable(
    member: SelectedMember,
    owner_id: UserId,
    parent: Seq<PermissionOverwrite>,
) -> bool {
    &&& !holds_mod_role(member.roles@)
    &&& member.id != owner_id
    &&& !mentions(parent, PermissionOverwriteType::Member(member.id))
}

/// Whether a selected member is reported as stripped by the deny menu: a
/// moderator, or a user other than the owner that the category has an entry
/// for. The owner is left out without a report.
pub open spec fn deny_stripped(
    member: SelectedMember,
    owner_id: UserId,
    parent: Seq<PermissionOverwrite>,
) -> bool {
    holds_mod_role(member.roles@) || (member.id != owner_id && mentions(
        parent,
        PermissionOverwriteType::Member(member.id),
    ))
}

/// The configuration after a selection in the deny menu: each selected
/// member that can be toggled is, one after the other.
pub open spec fn after_deny(
    vc: PrivateVcView,
    members: Seq<SelectedMember>,
    parent: Seq<PermissionOverwrite>,
) -> PrivateVcView
    decreases members.len(),
{
    if members.len() == 0 {
        vc
    } else {
        let before = after_deny(vc, members.drop_last(), parent);
        if deniable(members.last(), vc.owner_id, parent) {
            deny_one(before, members.last().id)
        } else {
            before
        }
    }
}

/// The users that a selection in the deny menu reports as stripped.
pub open spec fn deny_report(
    owner_id: UserId,
    members: Seq<SelectedMember>,
    parent: Seq<PermissionOverwrite>,
) -> Seq<UserId>
    decreases members.len(),
{
    if members.len() == 0 {
        Seq::empty()
    } else {
        let before = deny_report(owner_id, members.drop_last(), parent);
        if deny_stripped(members.last(), owner_id, parent) {
            before.push(members.last().id)
        } else {
            before
        }
    }
}

/// Takes the first `id` out of `list`, if there is one.
fn drop_id(list: &mut Vec<u64>, id: u64)
    ensures
        final(list)@ == dropped(old(list)@, id),
{
    match position(list, id) {
        Some(i) => {
            list.remove(i);
        },
        None => {},
    }
}

/// Handles a selection in the deny menu: toggles each selected member in the
/// deny list, but for moderators, for users that the category has an entry
/// for (both reported as stripped) and for the owner; a user who becomes
/// denied leaves the allow list. Then computes the room's new access list.
pub fn deny(
    private_vc: PrivateVc,
    members: &Vec<SelectedMember>,
    parent_permissions: &Vec<PermissionOverwrite>,
) -> (update: PermissionUpdate)
    ensures
        is_update(
            update,
            after_deny(private_vc@, members@, parent_permissions@),
            parent_permissions@,
            deny_report(private_vc.owner_id, members@, parent_permissions@),
            Seq::empty(),
        ),
{
    let ghost start = private_vc@;
    let mut vc = private_vc;
    let mut stripped_users: Vec<UserId> = Vec::new();
    let mut i: usize = 0;
    assert(members@.take(0) =~= Seq::<SelectedMember>::empty());
    while i < members.len()
        invariant
            i <= members.len(),
            vc.owner_id == start.owner_id,
            vc@ == after_deny(start, members@.take(i as int), parent_permissions@),
            stripped_users@ == deny_report(
                start.owner_id,
                members@.take(i as int),
                parent_permissions@,
            ),
        decreases members.len() - i,
    {
        let member = &members[i];
        proof {
            assert(members@.take(i as int + 1).drop_last() =~= members@.take(i as int));
            assert(members@.take(i as int + 1).last() == members@[i as int]);
        }
        if is_mod(&member.roles) {
            stripped_users.push(member.id);
        } else if vc.owner_id == member.id {
        } else if has_overwrite(parent_permissions, PermissionOverwriteType::Member(member.id)) {
            stripped_users.push(member.id);
        } else {
            let added = toggle(&mut vc.denylist_users, member.id);
            if added {
                drop_id(&mut vc.allowlist_users, member.id);
            }
        }
        i += 1;
    }
    proof {
        members@.lemma_take_len();
    }
    let stripped_roles: Vec<RoleId> = Vec::new();
    update_permissions(vc, parent_permissions, stripped_users, stripped_roles)
}

/// What a selection in the disconnect menu leads to.
#[derive(Clone, Copy, Debug, PartialEq, Eq, Structural)]
pub enum Disconnect {
    /// The selected user is not in the room.
    NotInChannel,
    /// The selected user is a moderator and stays.
    Moderator,
    /// The selected user is to be disconnected.
    Disconnect(UserId),
}

/// What a selection in the disconnect menu leads to: a user who is in the
/// room and holds no moderator role is disconnected.
pub open spec fn disconnect_of(
    target: SelectedMember,
    channel_id: ChannelId,
    voice_states: Option<Seq<VoiceState>>,
) -> Disconnect {
    if !present(voice_states, channel_id, target.id) {
        Disconnect::NotInChannel
    } else if holds_mod_role(target.roles@) {
        Disconnect::Moderator
    } else {
        Disconnect::Disconnect(target.id)
    }
}

/// Handles a selection in the disconnect menu of the room in `channel_id`.
pub fn disconnect(
    target: &SelectedMember,
    channel_id: ChannelId,
    voice_states: Option<&Vec<VoiceState>>,
) -> (r: Disconnect)
    ensures
        r == disconnect_of(*target, channel_id, snapshot_view(voice_states)),
{
    if !vc_has_user(voice_states, channel_id, target.id) {
        Disconnect::NotInChannel
    } else if is_mod(&target.roles) {
        Disconnect::Moderator
    } else {
        Disconnect::Disconnect(target.id)
    }
}

/// A selection in the allow menu keeps every list free of repetitions, and
/// changes neither the owner, nor the control message, nor the deny list.
pub proof fn lemma_allow_keeps_wf(
    vc: PrivateVcView,
    members: Seq<UserId>,
    roles: Seq<RoleId>,
    parent: Seq<PermissionOverwrite>,
)
    requires
        vc.wf(),
    ensures
        after_allow(vc, members, roles, parent).wf(),
        after_allow(vc, members, roles, parent).owner_id == vc.owner_id,
        after_allow(vc, members, roles, parent).message_id == vc.message_id,
        after_allow(vc, members, roles, parent).denylist_users == vc.denylist_users,
        after_allow(vc, members, roles, parent).trusted_users == vc.trusted_users,
{
    lemma_toggled_all_no_duplicates(vc.allowlist_users, members.filter(user_is_free(parent)));
    lemma_toggled_all_no_duplicates(vc.allowlist_roles, roles.filter(role_is_free(parent)));
}

/// Selecting one user in the allow menu twice gives back the set of allowed
/// users; the same holds of a role and the set of allowed roles.
pub proof fn lemma_allow_twice(vc: PrivateVcView, id: u64, parent: Seq<PermissionOverwrite>)
    requires
        vc.wf(),
    ensures
        after_allow(
            after_allow(vc, seq![id], Seq::empty(), parent),
            seq![id],
            Seq::empty(),
            parent,
        ).allowlist_users.to_set() == vc.allowlist_users.to_set(),
        after_allow(
            after_allow(vc, Seq::empty(), seq![id], parent),
            Seq::empty(),
            seq![id],
            parent,
        ).allowlist_roles.to_set() == vc.allowlist_roles.to_set(),
{
    reveal(Seq::filter);
    let one = seq![id];
    assert(one.drop_last() =~= Seq::<u64>::empty());
    assert(Seq::<u64>::empty().filter(user_is_free(parent)) =~= Seq::<u64>::empty());
    assert(Seq::<u64>::empty().filter(role_is_free(parent)) =~= Seq::<u64>::empty());
    assert(one.filter(user_is_free(parent)) =~= if user_is_free(parent)(id) {
        one
    } else {
        Seq::<u64>::empty()
    });
    assert(one.filter(role_is_free(parent)) =~= if role_is_free(parent)(id) {
        one
    } else {
        Seq::<u64>::empty()
    });
    assert forall|list: Seq<u64>| toggled_all(list, one) == toggled(list, id) by {
        assert(toggled_all(list, one.drop_last()) == list);
    }
    assert forall|list: Seq<u64>| toggled_all(list, Seq::<u64>::empty()) == list by {}
    lemma_toggle_involution(vc.allowlist_users, id);
    lemma_toggle_involution(vc.allowlist_roles, id);
}

/// Taking an identifier out of a list keeps the list free of repetitions and
/// changes the membership of no other identifier.
pub proof fn lemma_dropped(list: Seq<u64>, id: u64)
    requires
        list.no_duplicates(),
    ensures
        dropped(list, id).no_duplicates(),
        !dropped(list, id).contains(id),
        forall|other: u64| other != id ==> dropped(list, id).contains(other) == list.contains(other),
{
    list.index_of_first_ensures(id);
    if list.contains(id) {
        lemma_remove_first(list, id);
        let rest = dropped(list, id);
        assert forall|other: u64| other != id implies rest.contains(other) == list.contains(
            other,
        ) by {
            assert(rest.to_set().contains(other) == list.to_set().remove(id).contains(other));
        }
    }
}

/// One selection in the deny list keeps every list free of repetitions,
/// flips the selected user's place on the deny list, leaves every other
/// user's place as it was, and leaves no denied user on the allow list who
/// was not there before.
pub proof fn lemma_deny_one(vc: PrivateVcView, user_id: UserId)
    requires
        vc.wf(),
    ensures
        deny_one(vc, user_id).wf(),
        deny_one(vc, user_id).owner_id == vc.owner_id,
        deny_one(vc, user_id).denylist_users.contains(user_id) == !vc.denylist_users.contains(
            user_id,
        ),
        forall|other: UserId|
            other != user_id ==> deny_one(vc, user_id).denylist_users.contains(other)
                == vc.denylist_users.contains(other),
        deny_one(vc, user_id).denylist_users.contains(user_id) ==> !deny_one(
            vc,
            user_id,
        ).allowlist_users.contains(user_id),
{
    lemma_toggle_membership(vc.denylist_users, user_id);
    lemma_dropped(vc.allowlist_users, user_id);
}

/// A selection in the deny menu keeps every list free of repetitions and
/// keeps the owner. A user's place on the deny list stays as it was if each
/// selected member with the user's identifier is a moderator, is the owner,
/// or has an entry in the category's list.
pub proof fn lemma_deny_spares(
    vc: PrivateVcView,
    members: Seq<SelectedMember>,
    parent: Seq<PermissionOverwrite>,
    user_id: UserId,
)
    requires
        vc.wf(),
        forall|i: int|
            0 <= i < members.len() && (#[trigger] members[i]).id == user_id ==> !deniable(
                members[i],
                vc.owner_id,
                parent,
            ),
    ensures
        after_deny(vc, members, parent).wf(),
        after_deny(vc, members, parent).owner_id == vc.owner_id,
        after_deny(vc, members, parent).denylist_users.contains(user_id)
            == vc.denylist_users.contains(user_id),
    decreases members.len(),
{
    if members.len() > 0 {
        let earlier = members.drop_last();
        assert forall|i: int| 0 <= i < earlier.len() && (#[trigger] earlier[i]).id
            == user_id implies !deniable(earlier[i], vc.owner_id, parent) by {
            assert(earlier[i] == members[i]);
        }
        lemma_deny_spares(vc, earlier, parent, user_id);
        let before = after_deny(vc, earlier, parent);
        let last = members.last();
        assert(last == members[members.len() - 1]);
        if deniable(last, vc.owner_id, parent) {
            lemma_deny_one(before, last.id);
        }
    }
}

/// A selection in the deny menu keeps every list free of repetitions, keeps
/// the owner and never puts the owner on the deny list.
pub proof fn lemma_deny_keeps_wf(
    vc: PrivateVcView,
    members: Seq<SelectedMember>,
    parent: Seq<PermissionOverwrite>,
)
    requires
        vc.wf(),
    ensures
        after_deny(vc, members, parent).wf(),
        after_deny(vc, members, parent).owner_id == vc.owner_id,
        after_deny(vc, members, parent).denylist_users.contains(vc.owner_id)
            == vc.denylist_users.contains(vc.owner_id),
{
    lemma_deny_spares(vc, members, parent, vc.owner_id);
}

/// Selecting one user in the deny menu twice gives back the set of denied
/// users.
pub proof fn lemma_deny_twice(
    vc: PrivateVcView,
    member: SelectedMember,
    parent: Seq<PermissionOverwrite>,
)
    requires
        vc.wf(),
    ensures
        after_deny(after_deny(vc, seq![member], parent), seq![member], parent).denylist_users.to_set()
            == vc.denylist_users.to_set(),
{
    let one = seq![member];
    assert(one.drop_last() =~= Seq::<SelectedMember>::empty());
    assert(one.last() == member);
    assert forall|v: PrivateVcView| after_deny(v, one, parent) == if deniable(
        member,
        v.owner_id,
        parent,
    ) {
        deny_one(v, member.id)
    } else {
        v
    } by {
        assert(after_deny(v, one.drop_last(), parent) == v);
    }
    if deniable(member, vc.owner_id, parent) {
        lemma_deny_one(vc, member.id);
        lemma_toggle_involution(vc.denylist_users, member.id);
    }
}

/// The configuration after a run of selections in the deny menu, each with
/// the category's list as it was at that time.
pub open spec fn after_denies(
    vc: PrivateVcView,
    selections: Seq<(Seq<SelectedMember>, Seq<PermissionOverwrite>)>,
) -> PrivateVcView
    decreases selections.len(),
{
    if selections.len() == 0 {
        vc
    } else {
        after_deny(
            after_denies(vc, selections.drop_last()),
            selections.last().0,
            selections.last().1,
        )
    }
}

/// Moderators are protected: a user who is not denied, and who holds a
/// moderator role whenever selected, is not denied after any run of
/// selections in the deny menu.
pub proof fn lemma_moderators_never_denied(
    vc: PrivateVcView,
    selections: Seq<(Seq<SelectedMember>, Seq<PermissionOverwrite>)>,
    user_id: UserId,
)
    requires
        vc.wf(),
        !vc.denylist_users.contains(user_id),
        forall|k: int, i: int|
            0 <= k < selections.len() && 0 <= i < selections[k].0.len() && (
            #[trigger] selections[k].0[i]).id == user_id ==> holds_mod_role(
                selections[k].0[i].roles@,
            ),
    ensures
        after_denies(vc, selections).wf(),
        !after_denies(vc, selections).denylist_users.contains(user_id),
    decreases selections.len(),
{
    if selections.len() > 0 {
        let earlier = selections.drop_last();
        assert forall|k: int, i: int|
            0 <= k < earlier.len() && 0 <= i < earlier[k].0.len() && (#[trigger] earlier[k].0[i]).id
                == user_id implies holds_mod_role(earlier[k].0[i].roles@) by {
            assert(earlier[k] == selections[k]);
        }
        lemma_moderators_never_denied(vc, earlier, user_id);
        let before = after_denies(vc, earlier);
        let last = selections.last();
        assert(last == selections[selections.len() - 1]);
        lemma_deny_spares(before, last.0, last.1, user_id);
    }
}

/// Moderators are protected: whoever holds a moderator role is not
/// disconnected, wherever the moderator is.
pub proof fn lemma_moderators_never_disconnected(
    target: SelectedMember,
    channel_id: ChannelId,
    voice_states: Option<Seq<VoiceState>>,
)
    requires
        holds_mod_role(target.roles@),
    ensures
        !(disconnect_of(target, channel_id, voice_states) is Disconnect),
{
}

} // verus!
