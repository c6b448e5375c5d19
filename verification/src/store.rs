//! The configurations of the managed rooms, one for each channel, as the
//! actor and the panel's handlers read and write them.

use vstd::prelude::*;
use crate::permissions::{ChannelId, MessageId, UserId};
use crate::private_vc::{PrivateVc, PrivateVcView};

verus! {

/// The configuration of one room, with the room's channel.
#[derive(Debug)]
pub struct Row {
    pub channel_id: ChannelId,
    pub private_vc: PrivateVc,
}

/// The configurations of the managed rooms, at most one for each channel.
#[derive(Debug)]
pub struct PrivateVcStore {
    rows: Vec<Row>,
}

/// The channels of the rows, in their order.
pub open spec fn channels_of(rows: Seq<Row>) -> Seq<ChannelId> {
    rows.map_values(|row: Row| row.channel_id)
}

impl View for PrivateVcStore {
    type V = Map<ChannelId, PrivateVcView>;

    closed spec fn view(&self) -> Map<ChannelId, PrivateVcView> {
        Map::new(
            |channel_id: ChannelId| channels_of(self.rows@).contains(channel_id),
            |channel_id: ChannelId|
                self.rows@[channels_of(self.rows@).index_of(channel_id)].private_vc@,
        )
    }
}

impl PrivateVcStore {
    /// What holds of every store: no channel has two rows.
    pub closed spec fn wf(&self) -> bool {
        channels_of(self.rows@).no_duplicates()
    }

    /// A store without rows.
    pub fn new() -> (r: PrivateVcStore)
        ensures
            r.wf(),
            r@ == Map::<ChannelId, PrivateVcView>::empty(),
    {
        let r = PrivateVcStore { rows: Vec::new() };
        assert(r@ =~= Map::<ChannelId, PrivateVcView>::empty());
        r
    }

    /// The number of rows.
    pub fn len(&self) -> (r: usize)
        requires
            self.wf(),
        ensures
            r == self@.dom().len(),
            self@.dom().finite(),
    {
        proof {
            let channels = channels_of(self.rows@);
            channels.unique_seq_to_set();
            assert(self@.dom() =~= channels.to_set());
        }
        self.rows.len()
    }

    fn find(&self, channel_id: ChannelId) -> (r: Option<usize>)
        requires
            self.wf(),
        ensures
            match r {
                Some(i) => i < self.rows@.len() && self.rows@[i as int].channel_id == channel_id
                    && self@.contains_key(channel_id) && self@[channel_id]
                    == self.rows@[i as int].private_vc@,
                None => !self@.contains_key(channel_id),
            },
    {
        let ghost channels = channels_of(self.rows@);
        let mut i: usize = 0;
        while i < self.rows.len()
            invariant
                i <= self.rows.len(),
                self.wf(),
                channels == channels_of(self.rows@),
                forall|j: int| 0 <= j < i ==> channels[j] != channel_id,
            decreases self.rows.len() - i,
        {
            if self.rows[i].channel_id == channel_id {
                proof {
                    assert(channels[i as int] == channel_id);
                    let k = channels.index_of(channel_id);
                    assert(k == i);
                }
                return Some(i);
            }
            i += 1;
        }
        None
    }

    /// The configuration of the room in this channel, if it is a managed
    /// room.
    pub fn get_private_vc(&self, channel_id: ChannelId) -> (r: Option<PrivateVc>)
        requires
            self.wf(),
        ensures
            match r {
                Some(vc) => self@.contains_key(channel_id) && vc@ == self@[channel_id],
                None => !self@.contains_key(channel_id),
            },
    {
        match self.find(channel_id) {
            Some(i) => Some(self.rows[i].private_vc.clone()),
            None => None,
        }
    }

    /// Whether the channel is a managed room.
    pub fn contains(&self, channel_id: ChannelId) -> (r: bool)
        requires
            self.wf(),
        ensures
            r == self@.contains_key(channel_id),
    {
        self.find(channel_id).is_some()
    }

    /// Writes the configuration of the room in this channel, in place of the
    /// one it had, if it had one.
    pub fn create_private_vc(&mut self, channel_id: ChannelId, private_vc: PrivateVc)
        requires
            old(self).wf(),
        ensures
            final(self).wf(),
            final(self)@ == old(self)@.insert(channel_id, private_vc@),
    {
        let ghost before = self.rows@;
        match self.find(channel_id) {
            Some(i) => {
                self.rows[i] = Row { channel_id, private_vc };
                proof {
                    assert(channels_of(self.rows@) =~= channels_of(before));
                    assert forall|c: ChannelId| self@.contains_key(c) implies #[trigger] self@[c]
                        == old(self)@.insert(channel_id, private_vc@)[c] by {
                        let k = channels_of(before).index_of(c);
                        assert(channels_of(before)[i as int] == channel_id);
                        if c == channel_id {
                            assert(k == i);
                        } else {
                            assert(k != i);
                        }
                    }
                    assert(self@ =~= old(self)@.insert(channel_id, private_vc@));
                }
            },
            None => {
                self.rows.push(Row { channel_id, private_vc });
                proof {
                    let after = channels_of(self.rows@);
                    assert(after =~= channels_of(before).push(channel_id));
                    assert forall|c: ChannelId| self@.contains_key(c) implies #[trigger] self@[c]
                        == old(self)@.insert(channel_id, private_vc@)[c] by {
                        let k = after.index_of(c);
                        if c == channel_id {
                            assert(after[before.len() as int] == channel_id);
                            assert(k == before.len());
                        } else {
                            assert(k < before.len());
                            assert(channels_of(before)[k] == c);
                            assert(channels_of(before).index_of(c) == k);
                        }
                    }
                    assert forall|c: ChannelId|
                        old(self)@.insert(channel_id, private_vc@).contains_key(
                            c,
                        ) implies self@.contains_key(c) by {
                        if c == channel_id {
                            assert(after[before.len() as int] == channel_id);
                        } else {
                            let k = channels_of(before).index_of(c);
                            assert(after[k] == c);
                        }
                    }
                    assert(self@ =~= old(self)@.insert(channel_id, private_vc@));
                }
            },
        }
    }

    /// Removes the row of this channel. Returns whether there was one.
    pub fn delete_private_vc(&mut self, channel_id: ChannelId) -> (r: bool)
        requires
            old(self).wf(),
        ensures
            final(self).wf(),
            final(self)@ == old(self)@.remove(channel_id),
            r == old(self)@.contains_key(channel_id),
    {
        let ghost before = self.rows@;
        match self.find(channel_id) {
            Some(i) => {
                self.rows.remove(i);
                proof {
                    let was = channels_of(before);
                    let now = channels_of(self.rows@);
                    assert(now =~= was.remove(i as int));
                    assert forall|a: int| 0 <= a < now.len() implies #[trigger] now[a] == was[if a
                        < i {
                        a
                    } else {
                        a + 1
                    }] by {}
                    assert forall|a: int, b: int|
                        0 <= a < now.len() && 0 <= b < now.len() && a != b implies now[a]
                        != now[b] by {
                        let a0 = if a < i { a } else { a + 1 };
                        let b0 = if b < i { b } else { b + 1 };
                        assert(now[a] == was[a0] && now[b] == was[b0]);
                    }
                    assert(was[i as int] == channel_id);
                    assert forall|c: ChannelId| now.contains(c) == (was.contains(c) && c
                        != channel_id) by {
                        if now.contains(c) {
                            let a = choose|a: int| 0 <= a < now.len() && now[a] == c;
                            let a0 = if a < i { a } else { a + 1 };
                            assert(was[a0] == c);
                        }
                        if was.contains(c) && c != channel_id {
                            let a = choose|a: int| 0 <= a < was.len() && was[a] == c;
                            let a1 = if a < i { a } else { a - 1 };
                            assert(now[a1] == c);
                        }
                    }
                    assert forall|c: ChannelId| self@.contains_key(c) implies #[trigger] self@[c]
                        == old(self)@[c] by {
                        let a = now.index_of(c);
                        let a0 = if a < i { a } else { a + 1 };
                        assert(now[a] == was[a0]);
                        assert(was.index_of(c) == a0);
                        assert(self.rows@[a] == before[a0]);
                    }
                    assert(self@ =~= old(self)@.remove(channel_id));
                }
                true
            },
            None => {
                assert(self@ =~= old(self)@.remove(channel_id));
                false
            },
        }
    }

    /// Notes the control message of the room in this channel. Returns whether
    /// the channel is a managed room; nothing changes where it is not.
    pub fn set_vc_message_id(&mut self, channel_id: ChannelId, message_id: MessageId) -> (r: bool)
        requires
            old(self).wf(),
        ensures
            final(self).wf(),
            r == old(self)@.contains_key(channel_id),
            final(self)@ == if r {
                old(self)@.insert(
                    channel_id,
                    PrivateVcView { message_id: Some(message_id), ..old(self)@[channel_id] },
                )
            } else {
                old(self)@
            },
    {
        match self.get_private_vc(channel_id) {
            Some(vc) => {
                let mut vc = vc;
                vc.message_id = Some(message_id);
                self.create_private_vc(channel_id, vc);
                true
            },
            None => false,
        }
    }

    /// The channels of all managed rooms, each once.
    pub fn channels(&self) -> (r: Vec<ChannelId>)
        requires
            self.wf(),
        ensures
            r@.no_duplicates(),
            forall|channel_id: ChannelId| r@.contains(channel_id) == self@.contains_key(channel_id),
    {
        let mut r: Vec<ChannelId> = Vec::new();
        let mut i: usize = 0;
        assert(r@ =~= channels_of(self.rows@).take(0));
        while i < self.rows.len()
            invariant
                i <= self.rows.len(),
                r@ == channels_of(self.rows@).take(i as int),
            decreases self.rows.len() - i,
        {
            r.push(self.rows[i].channel_id);
            assert(r@ =~= channels_of(self.rows@).take(i as int + 1));
            i += 1;
        }
        assert(r@ =~= channels_of(self.rows@));
        r
    }

    /// All rows: each managed room once, with its configuration.
    pub fn get_all_private_vcs(&self) -> (r: Vec<Row>)
        requires
            self.wf(),
        ensures
            channels_of(r@).no_duplicates(),
            forall|channel_id: ChannelId|
                channels_of(r@).contains(channel_id) == self@.contains_key(channel_id),
            forall|i: int|
                0 <= i < r@.len() ==> self@.contains_key((#[trigger] r@[i]).channel_id)
                    && r@[i].private_vc@ == self@[r@[i].channel_id],
    {
        let mut r: Vec<Row> = Vec::new();
        let mut i: usize = 0;
        assert(channels_of(r@) =~= channels_of(self.rows@).take(0));
        while i < self.rows.len()
            invariant
                i <= self.rows.len(),
                self.wf(),
                channels_of(r@) == channels_of(self.rows@).take(i as int),
                r@.len() == i,
                forall|j: int|
                    0 <= j < i ==> (#[trigger] r@[j]).private_vc@ == self.rows@[j].private_vc@,
            decreases self.rows.len() - i,
        {
            let row = &self.rows[i];
            r.push(Row { channel_id: row.channel_id, private_vc: row.private_vc.clone() });
            assert(channels_of(r@) =~= channels_of(self.rows@).take(i as int + 1));
            i += 1;
        }
        assert(channels_of(r@) =~= channels_of(self.rows@));
        assert forall|i: int| 0 <= i < r@.len() implies self@.contains_key(
            (#[trigger] r@[i]).channel_id,
        ) && r@[i].private_vc@ == self@[r@[i].channel_id] by {
            let channels = channels_of(self.rows@);
            assert(channels[i] == r@[i].channel_id);
            assert(channels_of(r@)[i] == r@[i].channel_id);
            assert(channels.index_of(r@[i].channel_id) == i);
        }
        r
    }
}

/// A room's row as a relational store holds it: identifiers as signed
/// numbers, and each list of users absent where it is empty.
#[derive(Debug)]
pub struct StoredRow {
    pub channel_id: i64,
    pub owner_id: i64,
    pub message_id: Option<i64>,
    pub allowlist_roles: Vec<i64>,
    pub allowlist_users: Option<Vec<i64>>,
    pub trusted_users: Option<Vec<i64>>,
    pub denylist_users: Option<Vec<i64>>,
}

/// The identifier that a stored number stands for: the same 64 bits, read
/// without a sign.
pub open spec fn id_of(stored: i64) -> u64 {
    stored as u64
}

/// The identifier of a stored number.
pub open spec fn to_id() -> spec_fn(i64) -> u64 {
    |stored: i64| id_of(stored)
}

/// The identifiers of a stored list; none for an absent list.
pub open spec fn ids_of(stored: Option<Vec<i64>>) -> Seq<u64> {
    match stored {
        Some(list) => list@.map_values(to_id()),
        None => Seq::empty(),
    }
}

/// The configuration that a stored row stands for.
pub open spec fn hydrated(row: StoredRow) -> PrivateVcView {
    PrivateVcView {
        owner_id: id_of(row.owner_id),
        message_id: match row.message_id {
            Some(id) => Some(id_of(id)),
            None => None,
        },
        trusted_users: ids_of(row.trusted_users),
        allowlist_roles: row.allowlist_roles@.map_values(to_id()),
        allowlist_users: ids_of(row.allowlist_users),
        denylist_users: ids_of(row.denylist_users),
    }
}

fn to_unsigned(stored: i64) -> (id: u64)
    ensures
        id == id_of(stored),
{
    #[verifier::truncate]
    (stored as u64)
}

fn to_ids(stored: &Vec<i64>) -> (ids: Vec<UserId>)
    ensures
        ids@ == stored@.map_values(to_id()),
{
    let mut ids: Vec<u64> = Vec::new();
    let mut i: usize = 0;
    assert(ids@ =~= stored@.take(0).map_values(to_id()));
    while i < stored.len()
        invariant
            i <= stored.len(),
            ids@ == stored@.take(i as int).map_values(to_id()),
        decreases stored.len() - i,
    {
        ids.push(to_unsigned(stored[i]));
        assert(ids@ =~= stored@.take(i as int + 1).map_values(to_id()));
        i += 1;
    }
    proof {
        stored@.lemma_take_len();
    }
    ids
}

fn to_ids_or_empty(stored: &Option<Vec<i64>>) -> (ids: Vec<UserId>)
    ensures
        ids@ == ids_of(*stored),
{
    match stored {
        Some(list) => to_ids(list),
        None => Vec::new(),
    }
}

/// Reads a stored row: the channel and the configuration that it stands
/// for.
pub fn hydrate(row: &StoredRow) -> (r: Row)
    ensures
        r.channel_id == id_of(row.channel_id),
        r.private_vc@ == hydrated(*row),
{
    Row {
        channel_id: to_unsigned(row.channel_id),
        private_vc: PrivateVc {
            owner_id: to_unsigned(row.owner_id),
            message_id: match row.message_id {
                Some(id) => Some(to_unsigned(id)),
                None => None,
            },
            trusted_users: to_ids_or_empty(&row.trusted_users),
            allowlist_roles: to_ids(&row.allowlist_roles),
            allowlist_users: to_ids_or_empty(&row.allowlist_users),
            denylist_users: to_ids_or_empty(&row.denylist_users),
        },
    }
}

/// The number that an identifier is stored as: the same 64 bits, read with
/// a sign.
pub open spec fn stored_of(id: u64) -> i64 {
    id as i64
}

/// The stored number of an identifier.
pub open spec fn to_stored() -> spec_fn(u64) -> i64 {
    |id: u64| stored_of(id)
}

/// Whether `row` is the stored form of the configuration `vc` of the room in
/// `channel_id`: every identifier as its stored number, every list present.
pub open spec fn is_stored(row: StoredRow, channel_id: ChannelId, vc: PrivateVcView) -> bool {
    &&& row.channel_id == stored_of(channel_id)
    &&& row.owner_id == stored_of(vc.owner_id)
    &&& row.message_id == match vc.message_id {
        Some(id) => Some(stored_of(id)),
        None => None,
    }
    &&& row.allowlist_roles@ == vc.allowlist_roles.map_values(to_stored())
    &&& row.allowlist_users is Some && row.allowlist_users.unwrap()@
        == vc.allowlist_users.map_values(to_stored())
    &&& row.trusted_users is Some && row.trusted_users.unwrap()@ == vc.trusted_users.map_values(
        to_stored(),
    )
    &&& row.denylist_users is Some && row.denylist_users.unwrap()@
        == vc.denylist_users.map_values(to_stored())
}

fn to_signed(id: u64) -> (stored: i64)
    ensures
        stored == stored_of(id),
{
    #[verifier::truncate]
    (id as i64)
}

fn to_stored_list(ids: &Vec<u64>) -> (stored: Vec<i64>)
    ensures
        stored@ == ids@.map_values(to_stored()),
{
    let mut stored: Vec<i64> = Vec::new();
    let mut i: usize = 0;
    assert(stored@ =~= ids@.take(0).map_values(to_stored()));
    while i < ids.len()
        invariant
            i <= ids.len(),
            stored@ == ids@.take(i as int).map_values(to_stored()),
        decreases ids.len() - i,
    {
        stored.push(to_signed(ids[i]));
        assert(stored@ =~= ids@.take(i as int + 1).map_values(to_stored()));
        i += 1;
    }
    proof {
        ids@.lemma_take_len();
    }
    stored
}

/// Writes the configuration of the room in `channel_id` as a row to store.
pub fn store_row(channel_id: ChannelId, private_vc: &PrivateVc) -> (row: StoredRow)
    ensures
        is_stored(row, channel_id, private_vc@),
{
    StoredRow {
        channel_id: to_signed(channel_id),
        owner_id: to_signed(private_vc.owner_id),
        message_id: match private_vc.message_id {
            Some(id) => Some(to_signed(id)),
            None => None,
        },
        allowlist_roles: to_stored_list(&private_vc.allowlist_roles),
        allowlist_users: Some(to_stored_list(&private_vc.allowlist_users)),
        trusted_users: Some(to_stored_list(&private_vc.trusted_users)),
        denylist_users: Some(to_stored_list(&private_vc.denylist_users)),
    }
}

/// An identifier comes back unchanged from the number it is stored as.
pub proof fn lemma_stored_round_trip(id: u64)
    ensures
        id_of(stored_of(id)) == id,
{
    assert((id as i64) as u64 == id) by (bit_vector);
}

/// What was written as a row is read back as it was: the same channel and
/// the same configuration.
pub proof fn lemma_row_round_trip(row: StoredRow, channel_id: ChannelId, vc: PrivateVcView)
    requires
        is_stored(row, channel_id, vc),
    ensures
        id_of(row.channel_id) == channel_id,
        hydrated(row) == vc,
{
    assert forall|id: u64| id_of(stored_of(id)) == id by {
        lemma_stored_round_trip(id);
    }
    let read = hydrated(row);
    assert(read.allowlist_roles =~= vc.allowlist_roles);
    assert(read.allowlist_users =~= vc.allowlist_users);
    assert(read.trusted_users =~= vc.trusted_users);
    assert(read.denylist_users =~= vc.denylist_users);
}

} // verus!
