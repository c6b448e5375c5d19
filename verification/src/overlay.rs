//! The permission overlay: the access list of a room, computed from its
//! configuration and from the access list of the category above it.

use vstd::prelude::*;
use crate::permissions::{
    allow_connect, deny_connect, has_overwrite, mentions, PermissionOverwrite,
    PermissionOverwriteType, Permissions, RoleId, UserId, CONNECT,
};
use crate::private_vc::{PrivateVc, PrivateVcView};
use crate::task::GUILD;

verus! {

/// The entry that refuses a user the room.
pub open spec fn denied_user() -> spec_fn(UserId) -> PermissionOverwrite {
    |user: UserId| deny_connect(PermissionOverwriteType::Member(user))
}

/// The entry that an allowed role gets, unless the category already has one
/// for it.
pub open spec fn allowed_role(parent: Seq<PermissionOverwrite>) -> spec_fn(RoleId) -> Option<
    PermissionOverwrite,
> {
    |role: RoleId|
        if mentions(parent, PermissionOverwriteType::Role(role)) {
            None
        } else {
            Some(allow_connect(PermissionOverwriteType::Role(role)))
        }
}

/// Whether the category already has an entry for the role.
pub open spec fn role_is_stripped(parent: Seq<PermissionOverwrite>) -> spec_fn(RoleId) -> bool {
    |role: RoleId| mentions(parent, PermissionOverwriteType::Role(role))
}

/// The entry that an allowed user gets, unless the user is denied or the
/// category already has an entry for the user.
pub open spec fn allowed_user(parent: Seq<PermissionOverwrite>, denied: Seq<UserId>) -> spec_fn(
    UserId,
) -> Option<PermissionOverwrite> {
    |user: UserId|
        if denied.contains(user) || mentions(parent, PermissionOverwriteType::Member(user)) {
            None
        } else {
            Some(allow_connect(PermissionOverwriteType::Member(user)))
        }
}

/// Whether an allowed user is left out because the category already has an
/// entry for the user. A denied user is left out without being reported.
pub open spec fn user_is_stripped(parent: Seq<PermissionOverwrite>, denied: Seq<UserId>) -> spec_fn(
    UserId,
) -> bool {
    |user: UserId| !denied.contains(user) && mentions(parent, PermissionOverwriteType::Member(user))
}

/// The allowed roles that the overlay leaves out.
pub open spec fn stripped_roles_of(vc: PrivateVcView, parent: Seq<PermissionOverwrite>) -> Seq<
    RoleId,
> {
    vc.allowlist_roles.filter(role_is_stripped(parent))
}

/// The allowed users that the overlay leaves out and reports.
pub open spec fn stripped_users_of(vc: PrivateVcView, parent: Seq<PermissionOverwrite>) -> Seq<
    UserId,
> {
    vc.allowlist_users.filter(user_is_stripped(parent, vc.denylist_users))
}

/// The overlay before the default role is adjusted: the category's entries,
/// then one refusal for each denied user, one grant for each allowed role and
/// each allowed user that is not left out, and at the end the owner's grant.
pub open spec fn explicit_entries(vc: PrivateVcView, parent: Seq<PermissionOverwrite>) -> Seq<
    PermissionOverwrite,
> {
    parent + vc.denylist_users.map_values(denied_user()) + vc.allowlist_roles.filter_map(
        allowed_role(parent),
    ) + vc.allowlist_users.filter_map(allowed_user(parent, vc.denylist_users)).push(
        allow_connect(PermissionOverwriteType::Member(vc.owner_id)),
    )
}

/// An entry with the permission to connect granted.
pub open spec fn opened(entry: PermissionOverwrite) -> PermissionOverwrite {
    PermissionOverwrite {
        allow: Permissions { bits: entry.allow.bits | CONNECT },
        deny: Permissions { bits: entry.deny.bits & !CONNECT },
        kind: entry.kind,
    }
}

/// An entry with the permission to connect refused.
pub open spec fn closed(entry: PermissionOverwrite) -> PermissionOverwrite {
    PermissionOverwrite {
        allow: Permissions { bits: entry.allow.bits & !CONNECT },
        deny: Permissions { bits: entry.deny.bits | CONNECT },
        kind: entry.kind,
    }
}

/// The subjects of the entries of an access list, in its order.
pub open spec fn kinds(acl: Seq<PermissionOverwrite>) -> Seq<PermissionOverwriteType> {
    acl.map_values(|entry: PermissionOverwrite| entry.kind)
}

/// The access list with its first entry for the default role opened, for a
/// public room, or closed, for a private one. A list without such an entry
/// stays as it is.
pub open spec fn with_default(acl: Seq<PermissionOverwrite>, public: bool) -> Seq<
    PermissionOverwrite,
> {
    match kinds(acl).index_of_first(PermissionOverwriteType::Role(GUILD)) {
        Some(i) => acl.update(
            i,
            if public {
                opened(acl[i])
            } else {
                closed(acl[i])
            },
        ),
        None => acl,
    }
}

/// The access list of the room with configuration `vc` under a category with
/// access list `parent`.
pub open spec fn overlay(vc: PrivateVcView, parent: Seq<PermissionOverwrite>) -> Seq<
    PermissionOverwrite,
> {
    with_default(explicit_entries(vc, parent), vc.is_public())
}

/// Whether `list` holds `id`.
pub fn contains_id(list: &Vec<u64>, id: u64) -> (r: bool)
    ensures
        r == list@.contains(id),
{
    let mut i: usize = 0;
    while i < list.len()
        invariant
            i <= list.len(),
            forall|j: int| 0 <= j < i ==> list@[j] != id,
        decreases list.len() - i,
    {
        if list[i] == id {
            return true;
        }
        i += 1;
    }
    false
}

/// Opens or closes the first entry for the default role, if there is one.
fn set_default(permissions: &mut Vec<PermissionOverwrite>, public: bool)
    ensures
        final(permissions)@ == with_default(old(permissions)@, public),
{
    let ghost before = permissions@;
    let mut i: usize = 0;
    while i < permissions.len()
        invariant
            i <= permissions.len(),
            permissions@ == before,
            before == old(permissions)@,
            forall|j: int| 0 <= j < i ==> kinds(before)[j] != PermissionOverwriteType::Role(GUILD),
        decreases permissions.len() - i,
    {
        let entry = permissions[i];
        if entry.kind == PermissionOverwriteType::Role(GUILD) {
            let mut allow = entry.allow;
            let mut deny = entry.deny;
            if public {
                allow.insert(Permissions::connect());
                deny.remove(Permissions::connect());
            } else {
                allow.remove(Permissions::connect());
                deny.insert(Permissions::connect());
            }
            permissions[i] = PermissionOverwrite { allow, deny, kind: entry.kind };
            proof {
                kinds(before).index_of_first_ensures(PermissionOverwriteType::Role(GUILD));
                assert(kinds(before)[i as int] == PermissionOverwriteType::Role(GUILD));
                assert(kinds(before).index_of_first(PermissionOverwriteType::Role(GUILD)) == Some(
                    i as int,
                ));
                assert(before[i as int] == entry);
                assert(permissions@ =~= with_default(before, public));
            }
            return ;
        }
        i += 1;
    }
    proof {
        kinds(before).index_of_first_ensures(PermissionOverwriteType::Role(GUILD));
        assert(!kinds(before).contains(PermissionOverwriteType::Role(GUILD))) by {
            if kinds(before).contains(PermissionOverwriteType::Role(GUILD)) {
                let j = choose|j: int|
                    0 <= j < kinds(before).len() && kinds(before)[j]
                        == PermissionOverwriteType::Role(GUILD);
                assert(false);
            }
        }
    }
}

/// Builds the access list of a room from its configuration and from the
/// access list of its category.
///
/// The category's entries come first, unchanged. Then each denied user is
/// refused the room; each allowed role and each allowed user who is not denied
/// is granted it, unless the category already has an entry for that role or
/// user, in which case the identifier is reported in `stripped_roles` or
/// `stripped_users` and no entry is added. The owner is granted the room in
/// every case. At last the default role is opened where the room is public
/// and closed where it is private.
pub fn build_permission_overwrites(
    private_vc: &PrivateVc,
    parent_permissions: &Vec<PermissionOverwrite>,
    stripped_users: &mut Vec<UserId>,
    stripped_roles: &mut Vec<RoleId>,
) -> (permissions: Vec<PermissionOverwrite>)
    ensures
        permissions@ == overlay(private_vc@, parent_permissions@),
        final(stripped_users)@ == old(stripped_users)@ + stripped_users_of(
            private_vc@,
            parent_permissions@,
        ),
        final(stripped_roles)@ == old(stripped_roles)@ + stripped_roles_of(
            private_vc@,
            parent_permissions@,
        ),
{
    let ghost vc = private_vc@;
    let ghost parent = parent_permissions@;
    let mut permissions = parent_permissions.clone();
    assert(permissions@ =~= parent);

    let mut i: usize = 0;
    while i < private_vc.denylist_users.len()
        invariant
            i <= private_vc.denylist_users.len(),
            vc == private_vc@,
            permissions@ == parent + vc.denylist_users.take(i as int).map_values(denied_user()),
        decreases private_vc.denylist_users.len() - i,
    {
        let user = private_vc.denylist_users[i];
        permissions.push(
            PermissionOverwrite {
                allow: Permissions::empty(),
                deny: Permissions::connect(),
                kind: PermissionOverwriteType::Member(user),
            },
        );
        proof {
            vc.denylist_users.lemma_take_succ_push(i as int);
            vc.denylist_users.take(i as int).lemma_push_map_commute(denied_user(), user);
            assert(permissions@ =~= parent + vc.denylist_users.take(i as int + 1).map_values(
                denied_user(),
            ));
        }
        i += 1;
    }
    proof {
        vc.denylist_users.lemma_take_len();
    }
    let ghost after_denied = permissions@;

    let ghost roles_before = stripped_roles@;
    let mut i: usize = 0;
    while i < private_vc.allowlist_roles.len()
        invariant
            i <= private_vc.allowlist_roles.len(),
            vc == private_vc@,
            parent == parent_permissions@,
            permissions@ == after_denied + vc.allowlist_roles.take(i as int).filter_map(
                allowed_role(parent),
            ),
            stripped_roles@ == roles_before + vc.allowlist_roles.take(i as int).filter(
                role_is_stripped(parent),
            ),
        decreases private_vc.allowlist_roles.len() - i,
    {
        let role = private_vc.allowlist_roles[i];
        proof {
            vc.allowlist_roles.lemma_filter_map_take_succ(allowed_role(parent), i as int);
            vc.allowlist_roles.lemma_take_succ_push(i as int);
            vc.allowlist_roles.take(i as int).lemma_filter_push(role, role_is_stripped(parent));
        }
        if has_overwrite(parent_permissions, PermissionOverwriteType::Role(role)) {
            stripped_roles.push(role);
            assert(stripped_roles@ =~= roles_before + vc.allowlist_roles.take(i as int + 1).filter(
                role_is_stripped(parent),
            ));
            assert(permissions@ =~= after_denied + vc.allowlist_roles.take(
                i as int + 1,
            ).filter_map(allowed_role(parent)));
        } else {
            permissions.push(
                PermissionOverwrite {
                    allow: Permissions::connect(),
                    deny: Permissions::empty(),
                    kind: PermissionOverwriteType::Role(role),
                },
            );
            assert(permissions@ =~= after_denied + vc.allowlist_roles.take(
                i as int + 1,
            ).filter_map(allowed_role(parent)));
        }
        i += 1;
    }
    proof {
        vc.allowlist_roles.lemma_take_len();
    }
    let ghost after_roles = permissions@;

    let ghost users_before = stripped_users@;
    let mut i: usize = 0;
    while i < private_vc.allowlist_users.len()
        invariant
            i <= private_vc.allowlist_users.len(),
            vc == private_vc@,
            parent == parent_permissions@,
            permissions@ == after_roles + vc.allowlist_users.take(i as int).filter_map(
                allowed_user(parent, vc.denylist_users),
            ),
            stripped_users@ == users_before + vc.allowlist_users.take(i as int).filter(
                user_is_stripped(parent, vc.denylist_users),
            ),
        decreases private_vc.allowlist_users.len() - i,
    {
        let user = private_vc.allowlist_users[i];
        proof {
            vc.allowlist_users.lemma_filter_map_take_succ(
                allowed_user(parent, vc.denylist_users),
                i as int,
            );
            vc.allowlist_users.lemma_take_succ_push(i as int);
            vc.allowlist_users.take(i as int).lemma_filter_push(
                user,
                user_is_stripped(parent, vc.denylist_users),
            );
        }
        if contains_id(&private_vc.denylist_users, user) {
            assert(permissions@ =~= after_roles + vc.allowlist_users.take(i as int + 1).filter_map(
                allowed_user(parent, vc.denylist_users),
            ));
        } else if has_overwrite(parent_permissions, PermissionOverwriteType::Member(user)) {
            stripped_users.push(user);
            assert(stripped_users@ =~= users_before + vc.allowlist_users.take(i as int + 1).filter(
                user_is_stripped(parent, vc.denylist_users),
            ));
            assert(permissions@ =~= after_roles + vc.allowlist_users.take(i as int + 1).filter_map(
                allowed_user(parent, vc.denylist_users),
            ));
        } else {
            permissions.push(
                PermissionOverwrite {
                    allow: Permissions::connect(),
                    deny: Permissions::empty(),
                    kind: PermissionOverwriteType::Member(user),
                },
            );
            assert(permissions@ =~= after_roles + vc.allowlist_users.take(i as int + 1).filter_map(
                allowed_user(parent, vc.denylist_users),
            ));
        }
        i += 1;
    }
    proof {
        vc.allowlist_users.lemma_take_len();
    }

    permissions.push(
        PermissionOverwrite {
            allow: Permissions::connect(),
            deny: Permissions::empty(),
            kind: PermissionOverwriteType::Member(private_vc.owner_id),
        },
    );
    assert(permissions@ =~= explicit_entries(vc, parent));

    set_default(&mut permissions, private_vc.is_public());
    permissions
}

/// What a run of the builder leaves behind: the access list and the two
/// reports are functions of the configuration, the category's list and the
/// reports as they were before.
pub open spec fn built(
    vc: PrivateVcView,
    parent: Seq<PermissionOverwrite>,
    users_before: Seq<UserId>,
    roles_before: Seq<RoleId>,
    permissions: Seq<PermissionOverwrite>,
    stripped_users: Seq<UserId>,
    stripped_roles: Seq<RoleId>,
) -> bool {
    &&& permissions == overlay(vc, parent)
    &&& stripped_users == users_before + stripped_users_of(vc, parent)
    &&& stripped_roles == roles_before + stripped_roles_of(vc, parent)
}

/// Two runs of the builder on the same configuration and the same category
/// list, with the same reports to start from, end with the same access list
/// and the same reports.
pub proof fn lemma_overlay_repeatable(
    vc: PrivateVcView,
    parent: Seq<PermissionOverwrite>,
    users_before: Seq<UserId>,
    roles_before: Seq<RoleId>,
    first: (Seq<PermissionOverwrite>, Seq<UserId>, Seq<RoleId>),
    second: (Seq<PermissionOverwrite>, Seq<UserId>, Seq<RoleId>),
)
    requires
        built(vc, parent, users_before, roles_before, first.0, first.1, first.2),
        built(vc, parent, users_before, roles_before, second.0, second.1, second.2),
    ensures
        first == second,
{
}

/// The overlay ends with the owner's grant, whatever the configuration and
/// the category's list hold.
pub proof fn lemma_overlay_grants_owner(vc: PrivateVcView, parent: Seq<PermissionOverwrite>)
    ensures
        overlay(vc, parent).len() > parent.len(),
        overlay(vc, parent).last() == allow_connect(PermissionOverwriteType::Member(vc.owner_id)),
{
    let entries = explicit_entries(vc, parent);
    let last = entries.len() - 1;
    assert(entries[last] == allow_connect(PermissionOverwriteType::Member(vc.owner_id)));
    kinds(entries).index_of_first_ensures(PermissionOverwriteType::Role(GUILD));
    match kinds(entries).index_of_first(PermissionOverwriteType::Role(GUILD)) {
        Some(i) => {
            assert(kinds(entries)[i] == entries[i].kind);
            assert(i != last);
        },
        None => {},
    }
}

/// The overlay keeps every entry of the category's list at its place. Only
/// the permission to connect of the first entry for the default role may
/// differ.
pub proof fn lemma_overlay_inherits(vc: PrivateVcView, parent: Seq<PermissionOverwrite>, i: int)
    requires
        0 <= i < parent.len(),
    ensures
        overlay(vc, parent)[i] == parent[i] || (parent[i].kind == PermissionOverwriteType::Role(GUILD)
            && overlay(vc, parent)[i] == if vc.is_public() {
            opened(parent[i])
        } else {
            closed(parent[i])
        }),
{
    let entries = explicit_entries(vc, parent);
    assert(entries[i] == parent[i]);
    kinds(entries).index_of_first_ensures(PermissionOverwriteType::Role(GUILD));
    match kinds(entries).index_of_first(PermissionOverwriteType::Role(GUILD)) {
        Some(j) => {
            assert(kinds(entries)[j] == entries[j].kind);
        },
        None => {},
    }
}

/// An opened entry grants the permission to connect and does not refuse it;
/// a closed entry refuses it and does not grant it. No other permission of
/// the entry changes.
pub proof fn lemma_opened_closed(entry: PermissionOverwrite)
    ensures
        opened(entry).allow.has(Permissions { bits: CONNECT }),
        opened(entry).deny.bits & CONNECT == 0,
        closed(entry).deny.has(Permissions { bits: CONNECT }),
        closed(entry).allow.bits & CONNECT == 0,
        opened(entry).allow.bits & !CONNECT == entry.allow.bits & !CONNECT,
        opened(entry).deny.bits & !CONNECT == entry.deny.bits & !CONNECT,
        closed(entry).allow.bits & !CONNECT == entry.allow.bits & !CONNECT,
        closed(entry).deny.bits & !CONNECT == entry.deny.bits & !CONNECT,
{
    let a = entry.allow.bits;
    let d = entry.deny.bits;
    assert((a | 0x10_0000u64) & 0x10_0000u64 == 0x10_0000u64) by (bit_vector);
    assert((d & !0x10_0000u64) & 0x10_0000u64 == 0) by (bit_vector);
    assert((d | 0x10_0000u64) & 0x10_0000u64 == 0x10_0000u64) by (bit_vector);
    assert((a & !0x10_0000u64) & 0x10_0000u64 == 0) by (bit_vector);
    assert((a | 0x10_0000u64) & !0x10_0000u64 == a & !0x10_0000u64) by (bit_vector);
    assert((d & !0x10_0000u64) & !0x10_0000u64 == d & !0x10_0000u64) by (bit_vector);
    assert((d | 0x10_0000u64) & !0x10_0000u64 == d & !0x10_0000u64) by (bit_vector);
    assert((a & !0x10_0000u64) & !0x10_0000u64 == a & !0x10_0000u64) by (bit_vector);
}

/// Adjusting the default role changes the length of no list and the subject
/// of no entry, and leaves every entry for another subject as it was.
pub proof fn lemma_with_default(acl: Seq<PermissionOverwrite>, public: bool)
    ensures
        with_default(acl, public).len() == acl.len(),
        forall|i: int|
            0 <= i < acl.len() ==> (#[trigger] with_default(acl, public)[i]).kind == acl[i].kind,
        forall|i: int|
            0 <= i < acl.len() && acl[i].kind != PermissionOverwriteType::Role(GUILD)
                ==> #[trigger] with_default(acl, public)[i] == acl[i],
{
    kinds(acl).index_of_first_ensures(PermissionOverwriteType::Role(GUILD));
    match kinds(acl).index_of_first(PermissionOverwriteType::Role(GUILD)) {
        Some(j) => {
            assert(kinds(acl)[j] == acl[j].kind);
        },
        None => {},
    }
}

/// Deny takes priority: the overlay refuses every denied user the room, and
/// what it adds to the category's list grants a denied user the room only if
/// that user is the owner.
pub proof fn lemma_overlay_deny_priority(
    vc: PrivateVcView,
    parent: Seq<PermissionOverwrite>,
    user: UserId,
)
    requires
        vc.denylist_users.contains(user),
    ensures
        overlay(vc, parent).contains(deny_connect(PermissionOverwriteType::Member(user))),
        user != vc.owner_id ==> forall|i: int|
            parent.len() <= i < overlay(vc, parent).len() ==> #[trigger] overlay(vc, parent)[i]
                != allow_connect(PermissionOverwriteType::Member(user)),
{
    let entries = explicit_entries(vc, parent);
    let denied = vc.denylist_users.map_values(denied_user());
    let roles = vc.allowlist_roles.filter_map(allowed_role(parent));
    let users = vc.allowlist_users.filter_map(allowed_user(parent, vc.denylist_users));
    let target = allow_connect(PermissionOverwriteType::Member(user));
    lemma_with_default(entries, vc.is_public());
    let a = parent.len() as int;
    let b = a + denied.len();
    let c = b + roles.len();
    let d = c + users.len();
    assert(entries.len() == d + 1);

    let k = choose|k: int| 0 <= k < vc.denylist_users.len() && vc.denylist_users[k] == user;
    assert(entries[a + k] == denied[k]);
    assert(overlay(vc, parent)[a + k] == deny_connect(PermissionOverwriteType::Member(user)));

    if user != vc.owner_id {
        assert forall|i: int| a <= i < overlay(vc, parent).len() implies #[trigger] overlay(
            vc,
            parent,
        )[i] != target by {
            if i < b {
                assert(entries[i] == denied[i - a]);
                assert(entries[i].allow.bits == 0);
            } else if i < c {
                let e = roles[i - b];
                assert(entries[i] == e);
                assert(roles.contains(e));
                vc.allowlist_roles.lemma_filter_map_contains(allowed_role(parent), e);
                assert(e.kind is Role);
                assert(overlay(vc, parent)[i].kind is Role);
            } else if i < d {
                let e = users[i - c];
                assert(entries[i] == e);
                assert(users.contains(e));
                vc.allowlist_users.lemma_filter_map_contains(
                    allowed_user(parent, vc.denylist_users),
                    e,
                );
                let t = choose|t: UserId| #[trigger]
                    vc.allowlist_users.contains(t) && allowed_user(parent, vc.denylist_users)(t)
                        == Some(e);
                assert(t != user);
                assert(e == allow_connect(PermissionOverwriteType::Member(t)));
            } else {
                assert(entries[i] == allow_connect(PermissionOverwriteType::Member(vc.owner_id)));
            }
        }
    }
}

/// What the overlay adds to the category's list grants or refuses nothing
/// but the permission to connect.
pub proof fn lemma_overlay_touches_connect_only(
    vc: PrivateVcView,
    parent: Seq<PermissionOverwrite>,
    i: int,
)
    requires
        parent.len() <= i < overlay(vc, parent).len(),
    ensures
        overlay(vc, parent)[i].allow.bits & !CONNECT == 0,
        overlay(vc, parent)[i].deny.bits & !CONNECT == 0,
{
    let entries = explicit_entries(vc, parent);
    let denied = vc.denylist_users.map_values(denied_user());
    let roles = vc.allowlist_roles.filter_map(allowed_role(parent));
    let users = vc.allowlist_users.filter_map(allowed_user(parent, vc.denylist_users));
    lemma_with_default(entries, vc.is_public());
    let a = parent.len() as int;
    let b = a + denied.len();
    let c = b + roles.len();
    let d = c + users.len();
    assert(entries.len() == d + 1);
    assert(0x10_0000u64 & !0x10_0000u64 == 0) by (bit_vector);
    assert(0u64 & !0x10_0000u64 == 0) by (bit_vector);
    if i < b {
        assert(entries[i] == denied[i - a]);
    } else if i < c {
        let e = roles[i - b];
        assert(entries[i] == e);
        assert(roles.contains(e));
        vc.allowlist_roles.lemma_filter_map_contains(allowed_role(parent), e);
    } else if i < d {
        let e = users[i - c];
        assert(entries[i] == e);
        assert(users.contains(e));
        vc.allowlist_users.lemma_filter_map_contains(allowed_user(parent, vc.denylist_users), e);
    } else {
        assert(entries[i] == allow_connect(PermissionOverwriteType::Member(vc.owner_id)));
    }
    let e = entries[i];
    lemma_opened_closed(e);
    assert(e.allow.bits == 0 || e.allow.bits == CONNECT);
    assert(e.deny.bits == 0 || e.deny.bits == CONNECT);
    let o = overlay(vc, parent)[i];
    if o != e {
        let x = e.allow.bits;
        let y = e.deny.bits;
        assert((x | 0x10_0000u64) & !0x10_0000u64 == x & !0x10_0000u64) by (bit_vector);
        assert((y & !0x10_0000u64) & !0x10_0000u64 == y & !0x10_0000u64) by (bit_vector);
        assert((y | 0x10_0000u64) & !0x10_0000u64 == y & !0x10_0000u64) by (bit_vector);
        assert((x & !0x10_0000u64) & !0x10_0000u64 == x & !0x10_0000u64) by (bit_vector);
        kinds(entries).index_of_first_ensures(PermissionOverwriteType::Role(GUILD));
    }
}

} // verus!
