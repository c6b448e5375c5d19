//! The rank roles: the role that a player's rank earns in each game mode.

use vstd::prelude::*;
use crate::permissions::RoleId;

verus! {

/// A game mode.
#[derive(Clone, Copy, Debug, PartialEq, Eq, Structural)]
pub enum GameMode {
    Osu,
    Taiko,
    Catch,
    Mania,
}

/// The role of the players whose rank lies from `min_rank` to `max_rank`.
#[derive(Clone, Copy, Debug, PartialEq, Eq, Structural)]
pub struct RoleRange {
    pub min_rank: u32,
    pub max_rank: u32,
    pub role_id: RoleId,
}

/// Whether the rank lies in the range.
pub open spec fn covers(range: RoleRange, rank: u32) -> bool {
    range.min_rank <= rank <= range.max_rank
}

/// The shape that the ranges of every mode have: the first begins at rank 1,
/// each begins where the one before it ends, and the last has no end.
pub open spec fn is_ladder(ranges: Seq<RoleRange>) -> bool {
    &&& ranges.len() > 0
    &&& ranges[0].min_rank == 1
    &&& ranges.last().max_rank == u32::MAX
    &&& forall|i: int| 0 <= i < ranges.len() ==> (#[trigger] ranges[i]).min_rank <= ranges[i].max_rank
    &&& forall|i: int|
        0 <= i < ranges.len() - 1 ==> (#[trigger] ranges[i]).max_rank + 1 == ranges[i + 1].min_rank
}

/// The ranges of the standard mode, best ranks first.
pub open spec fn osu_ranges() -> Seq<RoleRange> {
    seq![
        RoleRange { min_rank: 1, max_rank: 99, role_id: 754085973003993119 },
        RoleRange { min_rank: 100, max_rank: 499, role_id: 754086188025118770 },
        RoleRange { min_rank: 500, max_rank: 999, role_id: 754086290785304627 },
        RoleRange { min_rank: 1000, max_rank: 4999, role_id: 754086299681685696 },
        RoleRange { min_rank: 5000, max_rank: 9999, role_id: 869294796404035675 },
        RoleRange { min_rank: 10000, max_rank: 24999, role_id: 869295190601531462 },
        RoleRange { min_rank: 25000, max_rank: 49999, role_id: 869295555489202217 },
        RoleRange { min_rank: 50000, max_rank: 99999, role_id: 754086107456471062 },
        RoleRange { min_rank: 100000, max_rank: 499999, role_id: 754089529287245855 },
        RoleRange { min_rank: 500000, max_rank: u32::MAX, role_id: 869295874306605066 },
    ]
}

/// The ranges of mania, best ranks first.
pub open spec fn mania_ranges() -> Seq<RoleRange> {
    seq![
        RoleRange { min_rank: 1, max_rank: 99, role_id: 754086656889585714 },
        RoleRange { min_rank: 100, max_rank: 499, role_id: 754086784484376596 },
        RoleRange { min_rank: 500, max_rank: 999, role_id: 754086852524507246 },
        RoleRange { min_rank: 1000, max_rank: 4999, role_id: 754086905825460265 },
        RoleRange { min_rank: 5000, max_rank: 9999, role_id: 754086720638681109 },
        RoleRange { min_rank: 10000, max_rank: 24999, role_id: 754089662242357289 },
        RoleRange { min_rank: 25000, max_rank: 49999, role_id: 869296510909689896 },
        RoleRange { min_rank: 50000, max_rank: 99999, role_id: 869296562881302528 },
        RoleRange { min_rank: 100000, max_rank: 499999, role_id: 869296602869801070 },
        RoleRange { min_rank: 500000, max_rank: u32::MAX, role_id: 869296657882300446 },
    ]
}

/// The ranges of taiko, best ranks first.
pub open spec fn taiko_ranges() -> Seq<RoleRange> {
    seq![
        RoleRange { min_rank: 1, max_rank: 99, role_id: 754087013904547930 },
        RoleRange { min_rank: 100, max_rank: 499, role_id: 754087748209475595 },
        RoleRange { min_rank: 500, max_rank: 999, role_id: 754087814106448012 },
        RoleRange { min_rank: 1000, max_rank: 4999, role_id: 754087911066173460 },
        RoleRange { min_rank: 5000, max_rank: 9999, role_id: 754087679003721790 },
        RoleRange { min_rank: 10000, max_rank: 24999, role_id: 754089750717136906 },
        RoleRange { min_rank: 25000, max_rank: 49999, role_id: 869297047050784870 },
        RoleRange { min_rank: 50000, max_rank: 99999, role_id: 869297101086011483 },
        RoleRange { min_rank: 100000, max_rank: 499999, role_id: 869297132958531584 },
        RoleRange { min_rank: 500000, max_rank: u32::MAX, role_id: 869297154253017108 },
    ]
}

/// The ranges of catch, best ranks first.
pub open spec fn ctb_ranges() -> Seq<RoleRange> {
    seq![
        RoleRange { min_rank: 1, max_rank: 99, role_id: 754087989717762080 },
        RoleRange { min_rank: 100, max_rank: 499, role_id: 754088203534729276 },
        RoleRange { min_rank: 500, max_rank: 999, role_id: 754088281674743858 },
        RoleRange { min_rank: 1000, max_rank: 4999, role_id: 754088358916915241 },
        RoleRange { min_rank: 5000, max_rank: 9999, role_id: 754088053101953034 },
        RoleRange { min_rank: 10000, max_rank: 24999, role_id: 754089875157942435 },
        RoleRange { min_rank: 25000, max_rank: 49999, role_id: 869299174556987403 },
        RoleRange { min_rank: 50000, max_rank: 99999, role_id: 869299210883850280 },
        RoleRange { min_rank: 100000, max_rank: 499999, role_id: 869299235592478770 },
        RoleRange { min_rank: 500000, max_rank: u32::MAX, role_id: 869299254076792892 },
    ]
}

/// The ranges of a mode.
pub open spec fn ranges_of(game_mode: GameMode) -> Seq<RoleRange> {
    match game_mode {
        GameMode::Osu => osu_ranges(),
        GameMode::Mania => mania_ranges(),
        GameMode::Taiko => taiko_ranges(),
        GameMode::Catch => ctb_ranges(),
    }
}

/// The role of the first range that the rank lies in, if there is one.
pub open spec fn role_for(ranges: Seq<RoleRange>, rank: u32) -> Option<RoleId>
    decreases ranges.len(),
{
    if ranges.len() == 0 {
        None
    } else if covers(ranges[0], rank) {
        Some(ranges[0].role_id)
    } else {
        role_for(ranges.drop_first(), rank)
    }
}

/// The ranges of a mode, as a list.
pub fn ranges(game_mode: GameMode) -> (r: Vec<RoleRange>)
    ensures
        r@ == ranges_of(game_mode),
{
    let mut r: Vec<RoleRange> = Vec::new();
    match game_mode {
        GameMode::Osu => {
            r.push(RoleRange { min_rank: 1, max_rank: 99, role_id: 754085973003993119 });
            r.push(RoleRange { min_rank: 100, max_rank: 499, role_id: 754086188025118770 });
            r.push(RoleRange { min_rank: 500, max_rank: 999, role_id: 754086290785304627 });
            r.push(RoleRange { min_rank: 1000, max_rank: 4999, role_id: 754086299681685696 });
            r.push(RoleRange { min_rank: 5000, max_rank: 9999, role_id: 869294796404035675 });
            r.push(RoleRange { min_rank: 10000, max_rank: 24999, role_id: 869295190601531462 });
            r.push(RoleRange { min_rank: 25000, max_rank: 49999, role_id: 869295555489202217 });
            r.push(RoleRange { min_rank: 50000, max_rank: 99999, role_id: 754086107456471062 });
            r.push(RoleRange { min_rank: 100000, max_rank: 499999, role_id: 754089529287245855 });
            r.push(RoleRange { min_rank: 500000, max_rank: u32::MAX, role_id: 869295874306605066 });
        },
        GameMode::Mania => {
            r.push(RoleRange { min_rank: 1, max_rank: 99, role_id: 754086656889585714 });
            r.push(RoleRange { min_rank: 100, max_rank: 499, role_id: 754086784484376596 });
            r.push(RoleRange { min_rank: 500, max_rank: 999, role_id: 754086852524507246 });
            r.push(RoleRange { min_rank: 1000, max_rank: 4999, role_id: 754086905825460265 });
            r.push(RoleRange { min_rank: 5000, max_rank: 9999, role_id: 754086720638681109 });
            r.push(RoleRange { min_rank: 10000, max_rank: 24999, role_id: 754089662242357289 });
            r.push(RoleRange { min_rank: 25000, max_rank: 49999, role_id: 869296510909689896 });
            r.push(RoleRange { min_rank: 50000, max_rank: 99999, role_id: 869296562881302528 });
            r.push(RoleRange { min_rank: 100000, max_rank: 499999, role_id: 869296602869801070 });
            r.push(RoleRange { min_rank: 500000, max_rank: u32::MAX, role_id: 869296657882300446 });
        },
        GameMode::Taiko => {
            r.push(RoleRange { min_rank: 1, max_rank: 99, role_id: 754087013904547930 });
            r.push(RoleRange { min_rank: 100, max_rank: 499, role_id: 754087748209475595 });
            r.push(RoleRange { min_rank: 500, max_rank: 999, role_id: 754087814106448012 });
            r.push(RoleRange { min_rank: 1000, max_rank: 4999, role_id: 754087911066173460 });
            r.push(RoleRange { min_rank: 5000, max_rank: 9999, role_id: 754087679003721790 });
            r.push(RoleRange { min_rank: 10000, max_rank: 24999, role_id: 754089750717136906 });
            r.push(RoleRange { min_rank: 25000, max_rank: 49999, role_id: 869297047050784870 });
            r.push(RoleRange { min_rank: 50000, max_rank: 99999, role_id: 869297101086011483 });
            r.push(RoleRange { min_rank: 100000, max_rank: 499999, role_id: 869297132958531584 });
            r.push(RoleRange { min_rank: 500000, max_rank: u32::MAX, role_id: 869297154253017108 });
        },
        GameMode::Catch => {
            r.push(RoleRange { min_rank: 1, max_rank: 99, role_id: 754087989717762080 });
            r.push(RoleRange { min_rank: 100, max_rank: 499, role_id: 754088203534729276 });
            r.push(RoleRange { min_rank: 500, max_rank: 999, role_id: 754088281674743858 });
            r.push(RoleRange { min_rank: 1000, max_rank: 4999, role_id: 754088358916915241 });
            r.push(RoleRange { min_rank: 5000, max_rank: 9999, role_id: 754088053101953034 });
            r.push(RoleRange { min_rank: 10000, max_rank: 24999, role_id: 754089875157942435 });
            r.push(RoleRange { min_rank: 25000, max_rank: 49999, role_id: 869299174556987403 });
            r.push(RoleRange { min_rank: 50000, max_rank: 99999, role_id: 869299210883850280 });
            r.push(RoleRange { min_rank: 100000, max_rank: 499999, role_id: 869299235592478770 });
            r.push(RoleRange { min_rank: 500000, max_rank: u32::MAX, role_id: 869299254076792892 });
        },
    }
    assert(r@ =~= ranges_of(game_mode));
    r
}

/// The role of the first range that the rank lies in; none where it lies in
/// none.
pub fn find_role_for_rank(ranges: &Vec<RoleRange>, rank: u32) -> (r: Option<RoleId>)
    ensures
        r == role_for(ranges@, rank),
{
    let mut i: usize = 0;
    assert(ranges@.skip(0) =~= ranges@);
    while i < ranges.len()
        invariant
            i <= ranges.len(),
            role_for(ranges@, rank) == role_for(ranges@.skip(i as int), rank),
        decreases ranges.len() - i,
    {
        let range = ranges[i];
        proof {
            assert(ranges@.skip(i as int)[0] == ranges@[i as int]);
            assert(ranges@.skip(i as int).drop_first() =~= ranges@.skip(i as int + 1));
        }
        if rank >= range.min_rank && rank <= range.max_rank {
            return Some(range.role_id);
        }
        i += 1;
    }
    None
}

/// In a ladder every rank from 1 on lies in a range, so that it has a role.
pub proof fn lemma_ladder_covers(ranges: Seq<RoleRange>, rank: u32)
    requires
        is_ladder(ranges),
        rank >= 1,
    ensures
        role_for(ranges, rank) is Some,
        exists|i: int|
            0 <= i < ranges.len() && covers(#[trigger] ranges[i], rank) && role_for(ranges, rank)
                == Some(ranges[i].role_id),
{
    lemma_rest_covers(ranges, rank);
}

/// Ranges that follow one another without a gap and have no end cover every
/// rank from the beginning of the first on.
proof fn lemma_rest_covers(ranges: Seq<RoleRange>, rank: u32)
    requires
        ranges.len() > 0,
        ranges[0].min_rank <= rank,
        ranges.last().max_rank == u32::MAX,
        forall|i: int| 0 <= i < ranges.len() ==> (#[trigger] ranges[i]).min_rank <= ranges[i].max_rank,
        forall|i: int|
            0 <= i < ranges.len() - 1 ==> (#[trigger] ranges[i]).max_rank + 1 == ranges[i + 1].min_rank,
    ensures
        exists|i: int|
            0 <= i < ranges.len() && covers(#[trigger] ranges[i], rank) && role_for(ranges, rank)
                == Some(ranges[i].role_id),
    decreases ranges.len(),
{
    if covers(ranges[0], rank) {
        assert(role_for(ranges, rank) == Some(ranges[0].role_id));
    } else {
        let rest = ranges.drop_first();
        assert(ranges.len() > 1) by {
            if ranges.len() == 1 {
                assert(ranges.last() == ranges[0]);
            }
        }
        assert(rest[0] == ranges[1]);
        assert(rest.last() == ranges.last());
        assert forall|i: int| 0 <= i < rest.len() implies (#[trigger] rest[i]).min_rank
            <= rest[i].max_rank by {
            assert(rest[i] == ranges[i + 1]);
        }
        assert forall|i: int| 0 <= i < rest.len() - 1 implies (#[trigger] rest[i]).max_rank + 1
            == rest[i + 1].min_rank by {
            assert(rest[i] == ranges[i + 1]);
            assert(rest[i + 1] == ranges[i + 2]);
        }
        lemma_rest_covers(rest, rank);
        let i = choose|i: int|
            0 <= i < rest.len() && covers(#[trigger] rest[i], rank) && role_for(rest, rank) == Some(
                rest[i].role_id,
            );
        assert(ranges[i + 1] == rest[i]);
    }
}

/// The ranges of every mode are a ladder.
pub proof fn lemma_ranges_are_ladders(game_mode: GameMode)
    ensures
        is_ladder(ranges_of(game_mode)),
{
    let r = ranges_of(game_mode);
    assert(r.len() == 10);
    assert(r.last() == r[9]);
    assert forall|i: int| 0 <= i < r.len() - 1 implies (#[trigger] r[i]).max_rank + 1 == r[i
        + 1].min_rank by {
        assert(i == 0 || i == 1 || i == 2 || i == 3 || i == 4 || i == 5 || i == 6 || i == 7 || i
            == 8);
    }
    assert forall|i: int| 0 <= i < r.len() implies (#[trigger] r[i]).min_rank <= r[i].max_rank by {
        assert(i == 0 || i == 1 || i == 2 || i == 3 || i == 4 || i == 5 || i == 6 || i == 7 || i
            == 8 || i == 9);
    }
}

/// The role that a rank earns in a mode. Rank 0 is no rank and earns none.
pub fn get_role_id_for_rank(game_mode: GameMode, rank: u32) -> (r: RoleId)
    requires
        rank >= 1,
    ensures
        role_for(ranges_of(game_mode), rank) == Some(r),
{
    let table = ranges(game_mode);
    proof {
        lemma_ranges_are_ladders(game_mode);
        lemma_ladder_covers(ranges_of(game_mode), rank);
    }
    match find_role_for_rank(&table, rank) {
        Some(role_id) => role_id,
        None => 0,
    }
}

/// The role that a rank earns in a mode: none for a player without a rank.
pub fn get_role_id_for_rank_opt(game_mode: GameMode, rank: Option<u32>) -> (r: Option<RoleId>)
    requires
        rank != Some(0u32),
    ensures
        r == match rank {
            Some(rank) => role_for(ranges_of(game_mode), rank),
            None => None,
        },
        r is Some == rank is Some,
{
    match rank {
        Some(rank) => Some(get_role_id_for_rank(game_mode, rank)),
        None => None,
    }
}

} // verus!
