//! The persisted configuration of one private voice room.

use vstd::prelude::*;
use crate::permissions::{MessageId, RoleId, UserId};

verus! {

/// The configuration of a managed room: its owner, its control message and its
/// access lists. Each list stands for a set and is kept in the order in which
/// its members were added.
#[derive(Debug)]
pub struct PrivateVc {
    pub owner_id: UserId,
    pub message_id: Option<MessageId>,
    pub trusted_users: Vec<UserId>,
    pub allowlist_roles: Vec<RoleId>,
    pub allowlist_users: Vec<UserId>,
    pub denylist_users: Vec<UserId>,
}

/// What a [`PrivateVc`] holds, as mathematical values.
pub struct PrivateVcView {
    pub owner_id: UserId,
    pub message_id: Option<MessageId>,
    pub trusted_users: Seq<UserId>,
    pub allowlist_roles: Seq<RoleId>,
    pub allowlist_users: Seq<UserId>,
    pub denylist_users: Seq<UserId>,
}

impl View for PrivateVc {
    type V = PrivateVcView;

    open spec fn view(&self) -> PrivateVcView {
        PrivateVcView {
            owner_id: self.owner_id,
            message_id: self.message_id,
            trusted_users: self.trusted_users@,
            allowlist_roles: self.allowlist_roles@,
            allowlist_users: self.allowlist_users@,
            denylist_users: self.denylist_users@,
        }
    }
}

impl PrivateVcView {
    /// Each list names every member once.
    pub open spec fn wf(self) -> bool {
        &&& self.trusted_users.no_duplicates()
        &&& self.allowlist_roles.no_duplicates()
        &&& self.allowlist_users.no_duplicates()
        &&& self.denylist_users.no_duplicates()
    }

    /// A room without allowed roles and allowed users is open to everyone.
    pub open spec fn is_public(self) -> bool {
        self.allowlist_roles.len() == 0 && self.allowlist_users.len() == 0
    }

    /// The same configuration in the hands of `owner_id`.
    pub open spec fn with_owner(self, owner_id: UserId) -> PrivateVcView {
        PrivateVcView { owner_id, ..self }
    }

    /// The configuration of a room that `owner_id` has just created.
    pub open spec fn fresh(owner_id: UserId) -> PrivateVcView {
        PrivateVcView {
            owner_id,
            message_id: None,
            trusted_users: Seq::empty(),
            allowlist_roles: Seq::empty(),
            allowlist_users: Seq::empty(),
            denylist_users: Seq::empty(),
        }
    }
}

/// `list` after `id` was selected once: taken out where it was in the list,
/// added at the end where it was not.
pub open spec fn toggled(list: Seq<u64>, id: u64) -> Seq<u64> {
    match list.index_of_first(id) {
        Some(i) => list.remove(i),
        None => list.push(id),
    }
}

/// `list` after each of `ids` was selected, one after the other.
pub open spec fn toggled_all(list: Seq<u64>, ids: Seq<u64>) -> Seq<u64>
    decreases ids.len(),
{
    if ids.len() == 0 {
        list
    } else {
        toggled(toggled_all(list, ids.drop_last()), ids.last())
    }
}

/// Where `id` first stands in `list`.
pub fn position(list: &Vec<u64>, id: u64) -> (r: Option<usize>)
    ensures
        match r {
            Some(i) => i < list@.len() && list@.index_of_first(id) == Some(i as int),
            None => list@.index_of_first(id) == None::<int>,
        },
        r.is_some() == list@.contains(id),
{
    let mut i: usize = 0;
    while i < list.len()
        invariant
            i <= list.len(),
            forall|j: int| 0 <= j < i ==> list@[j] != id,
        decreases list.len() - i,
    {
        if list[i] == id {
            proof {
                list@.index_of_first_ensures(id);
            }
            return Some(i);
        }
        i += 1;
    }
    proof {
        list@.index_of_first_ensures(id);
    }
    None
}

/// Selects `id` in `list`: an `id` that the list holds leaves it, another joins
/// it. Returns whether `id` is in the list afterwards.
pub fn toggle(list: &mut Vec<u64>, id: u64) -> (added: bool)
    ensures
        final(list)@ == toggled(old(list)@, id),
        added == !old(list)@.contains(id),
{
    match position(list, id) {
        Some(i) => {
            list.remove(i);
            false
        },
        None => {
            list.push(id);
            true
        },
    }
}

impl PrivateVc {
    /// The configuration of a room that `owner_id` has just created: no control
    /// message yet, all lists empty.
    pub fn new(owner_id: UserId) -> (r: PrivateVc)
        ensures
            r@ == PrivateVcView::fresh(owner_id),
            r@.wf(),
    {
        PrivateVc {
            owner_id,
            message_id: None,
            trusted_users: Vec::new(),
            allowlist_roles: Vec::new(),
            allowlist_users: Vec::new(),
            denylist_users: Vec::new(),
        }
    }

    /// A copy of this configuration with `owner_id` as its owner; nothing else
    /// differs.
    pub fn with_owner(&self, owner_id: UserId) -> (r: PrivateVc)
        ensures
            r@ == self@.with_owner(owner_id),
    {
        PrivateVc {
            owner_id,
            message_id: self.message_id,
            trusted_users: self.trusted_users.clone(),
            allowlist_roles: self.allowlist_roles.clone(),
            allowlist_users: self.allowlist_users.clone(),
            denylist_users: self.denylist_users.clone(),
        }
    }

    /// Whether the room is open to everyone: nobody is on an allow list.
    pub fn is_public(&self) -> (r: bool)
        ensures
            r == self@.is_public(),
    {
        self.allowlist_roles.is_empty() && self.allowlist_users.is_empty()
    }
}

impl Clone for PrivateVc {
    fn clone(&self) -> (r: PrivateVc)
        ensures
            r@ == self@,
    {
        self.with_owner(self.owner_id)
    }
}

/// Taking `id` out of a list without repetitions leaves no `id` in it, and
/// leaves every other member where it was relative to the rest.
pub proof fn lemma_remove_first(list: Seq<u64>, id: u64)
    requires
        list.no_duplicates(),
        list.contains(id),
    ensures
        list.index_of_first(id) is Some,
        !list.remove(list.index_of_first(id).unwrap()).contains(id),
        list.remove(list.index_of_first(id).unwrap()).no_duplicates(),
        list.remove(list.index_of_first(id).unwrap()).to_set() == list.to_set().remove(id),
{
    list.index_of_first_ensures(id);
    let i = list.index_of_first(id).unwrap();
    let rest = list.remove(i);
    assert forall|j: int| 0 <= j < rest.len() implies rest[j] != id by {
        if j < i {
            assert(rest[j] == list[j]);
        } else {
            assert(rest[j] == list[j + 1]);
        }
    }
    assert forall|a: int, b: int| 0 <= a < rest.len() && 0 <= b < rest.len() && a != b implies rest[a]
        != rest[b] by {
        let a0 = if a < i { a } else { a + 1 };
        let b0 = if b < i { b } else { b + 1 };
        assert(rest[a] == list[a0] && rest[b] == list[b0]);
    }
    assert forall|x: u64| rest.to_set().contains(x) <==> list.to_set().remove(id).contains(x) by {
        if rest.to_set().contains(x) {
            let j = choose|j: int| 0 <= j < rest.len() && rest[j] == x;
            let j0 = if j < i { j } else { j + 1 };
            assert(list[j0] == x);
        }
        if list.to_set().remove(id).contains(x) {
            let j = choose|j: int| 0 <= j < list.len() && list[j] == x;
            assert(j != i);
            let j1 = if j < i { j } else { j - 1 };
            assert(rest[j1] == x);
        }
    }
    assert(rest.to_set() =~= list.to_set().remove(id));
}

/// One selection keeps a list free of repetitions and flips the membership
/// of the selected identifier, and of no other.
pub proof fn lemma_toggle_membership(list: Seq<u64>, id: u64)
    requires
        list.no_duplicates(),
    ensures
        toggled(list, id).no_duplicates(),
        toggled(list, id).contains(id) == !list.contains(id),
        forall|x: u64| x != id ==> toggled(list, id).contains(x) == list.contains(x),
        toggled(list, id).to_set() == if list.contains(id) {
            list.to_set().remove(id)
        } else {
            list.to_set().insert(id)
        },
{
    list.index_of_first_ensures(id);
    if list.contains(id) {
        lemma_remove_first(list, id);
        let rest = toggled(list, id);
        assert forall|x: u64| x != id implies rest.contains(x) == list.contains(x) by {
            assert(rest.to_set().contains(x) == list.to_set().remove(id).contains(x));
        }
    } else {
        let more = list.push(id);
        assert(more[list.len() as int] == id);
        assert forall|x: u64| x != id implies more.contains(x) == list.contains(x) by {
            if more.contains(x) {
                let j = choose|j: int| 0 <= j < more.len() && more[j] == x;
                assert(list[j] == x);
            }
            if list.contains(x) {
                let j = choose|j: int| 0 <= j < list.len() && list[j] == x;
                assert(more[j] == x);
            }
        }
        list.lemma_push_to_set_commute(id);
    }
}

/// Selecting the same identifier twice gives back the set that the list stood
/// for. Where the identifier was not in the list, the list itself comes back.
pub proof fn lemma_toggle_involution(list: Seq<u64>, id: u64)
    requires
        list.no_duplicates(),
    ensures
        toggled(toggled(list, id), id).to_set() == list.to_set(),
        toggled(toggled(list, id), id).no_duplicates(),
        !list.contains(id) ==> toggled(toggled(list, id), id) == list,
{
    lemma_toggle_membership(list, id);
    list.index_of_first_ensures(id);
    let once = toggled(list, id);
    lemma_toggle_membership(once, id);
    let twice = toggled(once, id);
    if list.contains(id) {
        assert(twice.to_set() =~= list.to_set().remove(id).insert(id));
        assert(list.to_set().contains(id));
        assert(list.to_set().remove(id).insert(id) =~= list.to_set());
    } else {
        assert(!list.to_set().contains(id));
        assert(list.to_set().insert(id).remove(id) =~= list.to_set());
        once.index_of_first_ensures(id);
        let i = once.index_of_first(id).unwrap();
        assert(once[list.len() as int] == id);
        assert(i == list.len()) by {
            if i < list.len() {
                assert(list[i] == id);
            }
        }
        assert(twice =~= list);
    }
}

/// One selection changes the membership of no identifier but the selected
/// one, whatever the list holds.
pub proof fn lemma_toggle_others(list: Seq<u64>, id: u64, other: u64)
    requires
        other != id,
    ensures
        toggled(list, id).contains(other) == list.contains(other),
{
    list.index_of_first_ensures(id);
    let next = toggled(list, id);
    match list.index_of_first(id) {
        Some(i) => {
            if next.contains(other) {
                let j = choose|j: int| 0 <= j < next.len() && next[j] == other;
                let j0 = if j < i { j } else { j + 1 };
                assert(list[j0] == other);
            }
            if list.contains(other) {
                let j = choose|j: int| 0 <= j < list.len() && list[j] == other;
                let j1 = if j < i { j } else { j - 1 };
                assert(next[j1] == other);
            }
        },
        None => {
            if next.contains(other) {
                let j = choose|j: int| 0 <= j < next.len() && next[j] == other;
                assert(list[j] == other);
            }
            if list.contains(other) {
                let j = choose|j: int| 0 <= j < list.len() && list[j] == other;
                assert(next[j] == other);
            }
        },
    }
}

/// Any number of selections keeps a list free of repetitions.
pub proof fn lemma_toggled_all_no_duplicates(list: Seq<u64>, ids: Seq<u64>)
    requires
        list.no_duplicates(),
    ensures
        toggled_all(list, ids).no_duplicates(),
    decreases ids.len(),
{
    if ids.len() > 0 {
        lemma_toggled_all_no_duplicates(list, ids.drop_last());
        lemma_toggle_membership(toggled_all(list, ids.drop_last()), ids.last());
    }
}

} // verus!
