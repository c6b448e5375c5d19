//! Permission bit sets and the overwrites that make up a channel's access list.

use vstd::prelude::*;

verus! {

/// Identifier of a user.
pub type UserId = u64;

/// Identifier of a role.
pub type RoleId = u64;

/// Identifier of a channel.
pub type ChannelId = u64;

/// Identifier of a message.
pub type MessageId = u64;

/// Identifier of a guild; its default ("everyone") role carries the same number.
pub type GuildId = u64;

/// Bit of the permission to send messages in a channel.
pub const SEND_MESSAGES: u64 = 0x800;

/// Bit of the permission to connect to a voice channel.
pub const CONNECT: u64 = 0x10_0000;

/// Bit of the permission to speak in a voice channel.
pub const SPEAK: u64 = 0x20_0000;

/// A set of permissions, one bit each.
#[derive(Clone, Copy, Debug, PartialEq, Eq, Structural)]
pub struct Permissions {
    pub bits: u64,
}

impl Permissions {
    /// Whether every permission of `other` is in `self`.
    pub open spec fn has(self, other: Permissions) -> bool {
        self.bits & other.bits == other.bits
    }

    /// The set with the given bits.
    pub fn from_bits(bits: u64) -> (r: Permissions)
        ensures
            r.bits == bits,
    {
        Permissions { bits }
    }

    /// The set without any permission.
    pub fn empty() -> (r: Permissions)
        ensures
            r.bits == 0,
    {
        Permissions { bits: 0 }
    }

    /// The set that holds the permission to connect and nothing else.
    pub fn connect() -> (r: Permissions)
        ensures
            r.bits == CONNECT,
    {
        Permissions { bits: CONNECT }
    }

    /// Whether every permission of `other` is in `self`.
    pub fn contains(&self, other: Permissions) -> (r: bool)
        ensures
            r == self.has(other),
    {
        self.bits & other.bits == other.bits
    }

    /// Adds the permissions of `other`.
    pub fn insert(&mut self, other: Permissions)
        ensures
            final(self).bits == old(self).bits | other.bits,
    {
        self.bits = self.bits | other.bits;
    }

    /// Takes the permissions of `other` away.
    pub fn remove(&mut self, other: Permissions)
        ensures
            final(self).bits == old(self).bits & !other.bits,
    {
        self.bits = self.bits & !other.bits;
    }
}

/// Whom an overwrite is about.
#[derive(Clone, Copy, Debug, PartialEq, Eq, Structural)]
pub enum PermissionOverwriteType {
    Member(UserId),
    Role(RoleId),
}

/// One entry of an access list: what its subject is granted and refused.
#[derive(Clone, Copy, Debug, PartialEq, Eq, Structural)]
pub struct PermissionOverwrite {
    pub allow: Permissions,
    pub deny: Permissions,
    pub kind: PermissionOverwriteType,
}

/// The entry that grants `kind` the permission to connect.
pub open spec fn allow_connect(kind: PermissionOverwriteType) -> PermissionOverwrite {
    PermissionOverwrite {
        allow: Permissions { bits: CONNECT },
        deny: Permissions { bits: 0 },
        kind,
    }
}

/// The entry that refuses `kind` the permission to connect.
pub open spec fn deny_connect(kind: PermissionOverwriteType) -> PermissionOverwrite {
    PermissionOverwrite {
        allow: Permissions { bits: 0 },
        deny: Permissions { bits: CONNECT },
        kind,
    }
}

/// Whether some entry of `acl` is about `kind`.
pub open spec fn mentions(acl: Seq<PermissionOverwrite>, kind: PermissionOverwriteType) -> bool {
    exists|i: int| 0 <= i < acl.len() && (#[trigger] acl[i]).kind == kind
}

/// Whether some entry of `acl` is about `kind`.
pub fn has_overwrite(acl: &Vec<PermissionOverwrite>, kind: PermissionOverwriteType) -> (r: bool)
    ensures
        r == mentions(acl@, kind),
{
    let mut i: usize = 0;
    while i < acl.len()
        invariant
            i <= acl.len(),
            forall|j: int| 0 <= j < i ==> (#[trigger] acl@[j]).kind != kind,
        decreases acl.len() - i,
    {
        if acl[i].kind == kind {
            return true;
        }
        i += 1;
    }
    false
}

} // verus!
