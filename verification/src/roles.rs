//! The mapper roles: which kinds of maps a user has made, kept as one bit
//! each, and the roles that they earn.

use vstd::prelude::*;
use crate::permissions::RoleId;

verus! {

/// Bit of a ranked map in the standard mode.
pub const RANKED_STD: u8 = 0x01;

/// Bit of a ranked map in mania.
pub const RANKED_MANIA: u8 = 0x02;

/// Bit of a ranked map in taiko.
pub const RANKED_TAIKO: u8 = 0x04;

/// Bit of a ranked map in catch.
pub const RANKED_CATCH: u8 = 0x08;

/// Bit of a loved map in the standard mode.
pub const LOVED_STD: u8 = 0x10;

/// Bit of a loved map in mania.
pub const LOVED_MANIA: u8 = 0x20;

/// Bit of a loved map in taiko.
pub const LOVED_TAIKO: u8 = 0x40;

/// Bit of a loved map in catch.
pub const LOVED_CATCH: u8 = 0x80;

/// The kinds of maps that a user has made.
#[derive(Clone, Copy, Debug, PartialEq, Eq, Structural)]
pub struct UserMapHolder {
    flags: u8,
}

/// The bit of the mapper role at this place of the list of all roles.
pub open spec fn flag_at(i: int) -> u8 {
    if i == 0 {
        RANKED_STD
    } else if i == 1 {
        RANKED_MANIA
    } else if i == 2 {
        RANKED_TAIKO
    } else if i == 3 {
        RANKED_CATCH
    } else if i == 4 {
        LOVED_STD
    } else if i == 5 {
        LOVED_MANIA
    } else if i == 6 {
        LOVED_TAIKO
    } else {
        LOVED_CATCH
    }
}

/// Every mapper role: first the four for ranked maps, then the four for
/// loved maps, each time standard, mania, taiko, catch.
pub open spec fn mapper_roles() -> Seq<RoleId> {
    seq![
        1041039012179222660u64,
        1041036116482080811u64,
        1041036580770562149u64,
        1041036816909881404u64,
        1056525314303475752u64,
        1120351610107858985u64,
        1120351662075289641u64,
        1120351771634712646u64,
    ]
}

/// The mapper roles whose bit is set in `bits`, among the first `n` roles.
pub open spec fn earned(bits: u8, n: int) -> Seq<RoleId>
    decreases n,
{
    if n <= 0 {
        Seq::empty()
    } else if bits & flag_at(n - 1) != 0 {
        earned(bits, n - 1).push(mapper_roles()[n - 1])
    } else {
        earned(bits, n - 1)
    }
}

impl UserMapHolder {
    /// The bits of the kinds of maps.
    pub closed spec fn view(&self) -> u8 {
        self.flags
    }

    /// Whether all the kinds of `flag` are among the user's.
    pub open spec fn has(&self, flag: u8) -> bool {
        self@ & flag == flag
    }

    /// No map of any kind.
    pub fn new() -> (r: UserMapHolder)
        ensures
            r@ == 0,
    {
        UserMapHolder { flags: 0 }
    }

    /// The kinds of maps as bits.
    pub fn bits(&self) -> (r: u8)
        ensures
            r == self@,
    {
        self.flags
    }

    /// The kinds of maps that the bits stand for. Every value is valid.
    pub fn from_bits(bits: u8) -> (r: UserMapHolder)
        ensures
            r@ == bits,
    {
        UserMapHolder { flags: bits }
    }

    /// Whether the kinds of `flag` are among the user's.
    pub fn get(&self, flag: u8) -> (r: bool)
        ensures
            r == self.has(flag),
    {
        self.flags & flag == flag
    }

    /// Sets or clears the kinds of `flag`; no other kind changes.
    pub fn set(&mut self, flag: u8, value: bool)
        ensures
            final(self)@ == if value {
                old(self)@ | flag
            } else {
                old(self)@ & !flag
            },
    {
        if value {
            self.flags = self.flags | flag;
        } else {
            self.flags = self.flags & !flag;
        }
    }

    pub fn ranked_std(&self) -> (r: bool)
        ensures
            r == self.has(RANKED_STD),
    {
        self.get(RANKED_STD)
    }

    pub fn ranked_mania(&self) -> (r: bool)
        ensures
            r == self.has(RANKED_MANIA),
    {
        self.get(RANKED_MANIA)
    }

    pub fn ranked_taiko(&self) -> (r: bool)
        ensures
            r == self.has(RANKED_TAIKO),
    {
        self.get(RANKED_TAIKO)
    }

    pub fn ranked_catch(&self) -> (r: bool)
        ensures
            r == self.has(RANKED_CATCH),
    {
        self.get(RANKED_CATCH)
    }

    pub fn loved_std(&self) -> (r: bool)
        ensures
            r == self.has(LOVED_STD),
    {
        self.get(LOVED_STD)
    }

    pub fn loved_mania(&self) -> (r: bool)
        ensures
            r == self.has(LOVED_MANIA),
    {
        self.get(LOVED_MANIA)
    }

    pub fn loved_taiko(&self) -> (r: bool)
        ensures
            r == self.has(LOVED_TAIKO),
    {
        self.get(LOVED_TAIKO)
    }

    pub fn loved_catch(&self) -> (r: bool)
        ensures
            r == self.has(LOVED_CATCH),
    {
        self.get(LOVED_CATCH)
    }

    pub fn set_ranked_std(&mut self, value: bool)
        ensures
            final(self)@ == if value {
                old(self)@ | RANKED_STD
            } else {
                old(self)@ & !RANKED_STD
            },
    {
        self.set(RANKED_STD, value);
    }

    pub fn set_ranked_mania(&mut self, value: bool)
        ensures
            final(self)@ == if value {
                old(self)@ | RANKED_MANIA
            } else {
                old(self)@ & !RANKED_MANIA
            },
    {
        self.set(RANKED_MANIA, value);
    }

    pub fn set_ranked_taiko(&mut self, value: bool)
        ensures
            final(self)@ == if value {
                old(self)@ | RANKED_TAIKO
            } else {
                old(self)@ & !RANKED_TAIKO
            },
    {
        self.set(RANKED_TAIKO, value);
    }

    pub fn set_ranked_catch(&mut self, value: bool)
        ensures
            final(self)@ == if value {
                old(self)@ | RANKED_CATCH
            } else {
                old(self)@ & !RANKED_CATCH
            },
    {
        self.set(RANKED_CATCH, value);
    }

    pub fn set_loved_std(&mut self, value: bool)
        ensures
            final(self)@ == if value {
                old(self)@ | LOVED_STD
            } else {
                old(self)@ & !LOVED_STD
            },
    {
        self.set(LOVED_STD, value);
    }

    pub fn set_loved_mania(&mut self, value: bool)
        ensures
            final(self)@ == if value {
                old(self)@ | LOVED_MANIA
            } else {
                old(self)@ & !LOVED_MANIA
            },
    {
        self.set(LOVED_MANIA, value);
    }

    pub fn set_loved_taiko(&mut self, value: bool)
        ensures
            final(self)@ == if value {
                old(self)@ | LOVED_TAIKO
            } else {
                old(self)@ & !LOVED_TAIKO
            },
    {
        self.set(LOVED_TAIKO, value);
    }

    pub fn set_loved_catch(&mut self, value: bool)
        ensures
            final(self)@ == if value {
                old(self)@ | LOVED_CATCH
            } else {
                old(self)@ & !LOVED_CATCH
            },
    {
        self.set(LOVED_CATCH, value);
    }

    /// Every mapper role that there is.
    pub fn all_roles() -> (r: Vec<RoleId>)
        ensures
            r@ == mapper_roles(),
    {
        let mut r: Vec<RoleId> = Vec::new();
        r.push(1041039012179222660);
        r.push(1041036116482080811);
        r.push(1041036580770562149);
        r.push(1041036816909881404);
        r.push(1056525314303475752);
        r.push(1120351610107858985);
        r.push(1120351662075289641);
        r.push(1120351771634712646);
        assert(r@ =~= mapper_roles());
        r
    }

    /// The mapper roles that the user should have: those whose kind of map
    /// the user has made, in the order of the list of all roles.
    pub fn active_roles(&self) -> (r: Vec<RoleId>)
        ensures
            r@ == earned(self@, 8),
    {
        let all = UserMapHolder::all_roles();
        let mut r: Vec<RoleId> = Vec::new();
        let mut i: usize = 0;
        let mut flag: u8 = 1;
        while i < 8
            invariant
                i <= 8,
                all@ == mapper_roles(),
                i < 8 ==> flag == flag_at(i as int),
                r@ == earned(self@, i as int),
            decreases 8 - i,
        {
            if self.flags & flag != 0 {
                r.push(all[i]);
            }
            i += 1;
            if i < 8 {
                flag = flag * 2;
            }
        }
        r
    }
}

impl Default for UserMapHolder {
    /// No map of any kind.
    fn default() -> (r: UserMapHolder)
        ensures
            r@ == 0,
    {
        UserMapHolder::new()
    }
}

/// Setting or clearing one kind of map leaves the other kinds as they were,
/// and the kind itself is then as it was set.
pub proof fn lemma_set_one(bits: u8, i: int, j: int)
    requires
        0 <= i < 8,
        0 <= j < 8,
    ensures
        (bits | flag_at(i)) & flag_at(i) == flag_at(i),
        (bits & !flag_at(i)) & flag_at(i) == 0,
        i != j ==> (bits | flag_at(i)) & flag_at(j) == bits & flag_at(j),
        i != j ==> (bits & !flag_at(i)) & flag_at(j) == bits & flag_at(j),
{
    let a = flag_at(i);
    let b = flag_at(j);
    assert((bits | a) & a == a) by (bit_vector);
    assert((bits & !a) & a == 0) by (bit_vector);
    if i != j {
        assert(a & b == 0) by (bit_vector)
            requires
                (a == 1 || a == 2 || a == 4 || a == 8 || a == 16 || a == 32 || a == 64 || a == 128),
                (b == 1 || b == 2 || b == 4 || b == 8 || b == 16 || b == 32 || b == 64 || b == 128),
                a != b,
        ;
        assert((bits | a) & b == bits & b) by (bit_vector)
            requires
                a & b == 0,
        ;
        assert((bits & !a) & b == bits & b) by (bit_vector)
            requires
                a & b == 0,
        ;
    }
}

} // verus!
