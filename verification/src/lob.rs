//! The list of lobs: the lines that the bot throws back on request.

use vstd::prelude::*;
use crate::random::random_u32;

verus! {

/// The lobs that are loaded: a set, each lob once, in the order in which
/// they were added.
#[derive(Debug)]
pub struct LobList {
    lobs: Vec<String>,
}

impl View for LobList {
    type V = Seq<Seq<char>>;

    closed spec fn view(&self) -> Seq<Seq<char>> {
        self.lobs@.map_values(|lob: String| lob@)
    }
}

/// The lob that a random number picks: the one at the number modulo the
/// length of the list.
pub open spec fn picked(lobs: Seq<Seq<char>>, random: u32) -> Option<Seq<char>> {
    if lobs.len() == 0 {
        None
    } else {
        Some(lobs[(random as int) % (lobs.len() as int)])
    }
}

impl LobList {
    /// What holds of every list: no lob stands in it twice.
    pub open spec fn wf(&self) -> bool {
        self@.no_duplicates()
    }

    /// A list without lobs.
    pub fn new() -> (r: LobList)
        ensures
            r.wf(),
            r@ == Seq::<Seq<char>>::empty(),
    {
        let r = LobList { lobs: Vec::new() };
        assert(r@ =~= Seq::<Seq<char>>::empty());
        r
    }

    /// Whether the lob is in the list.
    pub fn contains(&self, lob: &String) -> (r: bool)
        ensures
            r == self@.contains(lob@),
    {
        let mut i: usize = 0;
        while i < self.lobs.len()
            invariant
                i <= self.lobs.len(),
                forall|j: int| 0 <= j < i ==> self@[j] != lob@,
            decreases self.lobs.len() - i,
        {
            if self.lobs[i] == *lob {
                assert(self@[i as int] == lob@);
                return true;
            }
            i += 1;
        }
        false
    }

    /// Adds a lob at the end of the list, unless the list holds it already.
    /// Returns whether it was added.
    pub fn push(&mut self, lob: String) -> (added: bool)
        requires
            old(self).wf(),
        ensures
            final(self).wf(),
            added == !old(self)@.contains(lob@),
            final(self)@ == if added {
                old(self)@.push(lob@)
            } else {
                old(self)@
            },
    {
        if self.contains(&lob) {
            false
        } else {
            self.lobs.push(lob);
            assert(self@ =~= old(self)@.push(lob@));
            true
        }
    }

    /// How many lobs are loaded.
    pub fn len(&self) -> (r: usize)
        ensures
            r == self@.len(),
    {
        self.lobs.len()
    }

    /// The lob that `random` picks; none from an empty list.
    pub fn pick(&self, random: u32) -> (r: Option<String>)
        ensures
            match r {
                Some(lob) => picked(self@, random) == Some(lob@),
                None => picked(self@, random) is None,
            },
    {
        if self.lobs.len() == 0 {
            None
        } else {
            let index = random as usize % self.lobs.len();
            Some(self.lobs[index].clone())
        }
    }
}

/// Unloads the list: no lob is left in it.
pub fn unload_lob(loblist: &mut LobList)
    ensures
        final(loblist).wf(),
        final(loblist)@ == Seq::<Seq<char>>::empty(),
{
    loblist.lobs.clear();
    assert(loblist@ =~= Seq::<Seq<char>>::empty());
}

/// A lob picked by chance: one of the list, and none only where the list is
/// empty.
pub fn get_random_lob(loblist: &LobList) -> (r: Option<String>)
    ensures
        match r {
            Some(lob) => loblist@.contains(lob@),
            None => loblist@.len() == 0,
        },
{
    let random = random_u32();
    let r = loblist.pick(random);
    proof {
        if loblist@.len() > 0 {
            let n = loblist@.len() as int;
            let index = (random as int) % n;
            assert(0 <= index < n) by (nonlinear_arith)
                requires
                    n > 0,
                    random >= 0,
                    index == (random as int) % n,
            ;
            assert(loblist@[index] == r.unwrap()@);
        }
    }
    r
}

} // verus!
