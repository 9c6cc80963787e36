//! The goalkeeper's voice: when he looks up, who in the zone he organises
//! has nobody near him, and which of them is nearest his goal ("pick him
//! up!"). The distances are measured outside; here each opponent arrives
//! as a row of plain facts with an integer depth key that orders the rows
//! as their distances from goal do.
use vstd::prelude::*;
use crate::model::PlayerSide;

verus! {

/// The goalkeeper's organising calls.
pub struct KeeperVoice;

/// One player on the pitch as the keeper sees him when he looks up.
#[derive(Debug, Clone, Copy, PartialEq, Eq, Structural)]
pub struct ZoneRow {
    pub player_id: u32,
    pub team_id: u32,
    /// Playing in goal.
    pub is_goalkeeper: bool,
    /// Within the reach of the keeper's voice, measured from his goal.
    pub in_reach: bool,
    /// One of the keeper's outfield team-mates is within the covering
    /// distance of him.
    pub covered: bool,
    /// His distance from the keeper's goal as an order key: a smaller key
    /// is a shorter distance, equal keys equal distances.
    pub depth_key: u64,
}

/// The census behind a call: the man shouted about, if anybody; how many
/// opponents in the zone were free; how many were in it at all.
#[derive(Debug, Clone, Copy, PartialEq, Eq, Structural)]
pub struct KeeperCensus {
    pub man: Option<u32>,
    pub free: u32,
    pub in_zone: u32,
}

/// One player and the end his team defends, when known.
#[derive(Debug, Clone, Copy, PartialEq, Eq, Structural)]
pub struct SideRow {
    pub team_id: u32,
    pub side: Option<PlayerSide>,
}

/// An outfield opponent of `team_id` inside the keeper's zone.
pub open spec fn in_zone(row: ZoneRow, team_id: u32) -> bool {
    row.team_id != team_id && !row.is_goalkeeper && row.in_reach
}

/// An outfield opponent inside the zone with nobody near him.
pub open spec fn is_free(row: ZoneRow, team_id: u32) -> bool {
    in_zone(row, team_id) && !row.covered
}

pub open spec fn count_in_zone(rows: Seq<ZoneRow>, team_id: u32) -> nat
    decreases rows.len(),
{
    if rows.len() == 0 {
        0
    } else {
        count_in_zone(rows.drop_last(), team_id) + if in_zone(rows.last(), team_id) {
            1nat
        } else {
            0nat
        }
    }
}

pub open spec fn count_free(rows: Seq<ZoneRow>, team_id: u32) -> nat
    decreases rows.len(),
{
    if rows.len() == 0 {
        0
    } else {
        count_free(rows.drop_last(), team_id) + if is_free(rows.last(), team_id) {
            1nat
        } else {
            0nat
        }
    }
}

/// The free man nearest goal, taking rows in order and keeping the first
/// of equally near ones.
pub open spec fn nearest_free(rows: Seq<ZoneRow>, team_id: u32) -> Option<ZoneRow>
    decreases rows.len(),
{
    if rows.len() == 0 {
        None
    } else {
        let prev = nearest_free(rows.drop_last(), team_id);
        let row = rows.last();
        if is_free(row, team_id) && (match prev {
            None => true,
            Some(best) => row.depth_key < best.depth_key,
        }) {
            Some(row)
        } else {
            prev
        }
    }
}

pub open spec fn census_spec(rows: Seq<ZoneRow>, team_id: u32) -> KeeperCensus {
    KeeperCensus {
        man: match nearest_free(rows, team_id) {
            Some(row) => Some(row.player_id),
            None => None,
        },
        free: count_free(rows, team_id) as u32,
        in_zone: count_in_zone(rows, team_id) as u32,
    }
}

/// The side of the first row that belongs to `team_id`, if that row has
/// one.
pub open spec fn first_side_of_team(rows: Seq<SideRow>, team_id: u32) -> Option<PlayerSide>
    decreases rows.len(),
{
    if rows.len() == 0 {
        None
    } else if rows[0].team_id == team_id {
        rows[0].side
    } else {
        first_side_of_team(rows.drop_first(), team_id)
    }
}

proof fn lemma_counts_bounded(rows: Seq<ZoneRow>, team_id: u32)
    ensures
        count_free(rows, team_id) <= count_in_zone(rows, team_id),
        count_in_zone(rows, team_id) <= rows.len(),
    decreases rows.len(),
{
    if rows.len() > 0 {
        lemma_counts_bounded(rows.drop_last(), team_id);
    }
}

impl KeeperVoice {
    /// **"Pick him up!"** — the census of the zone the keeper organises
    /// for `team_id`: the outfield opponents in it, those with nobody near
    /// them, and the free man nearest goal (the first of equally near
    /// ones), whom he shouts about. `man` is `None` when everybody in the
    /// zone is covered.
    pub fn free_man(rows: &Vec<ZoneRow>, team_id: u32) -> (r: KeeperCensus)
        requires
            rows@.len() <= u32::MAX,
        ensures
            r == census_spec(rows@, team_id),
    {
        let mut best: Option<ZoneRow> = None;
        let mut free: u32 = 0;
        let mut zone: u32 = 0;
        let mut i: usize = 0;
        while i < rows.len()
            invariant
                i <= rows@.len(),
                rows@.len() <= u32::MAX,
                best == nearest_free(rows@.take(i as int), team_id),
                free == count_free(rows@.take(i as int), team_id),
                zone == count_in_zone(rows@.take(i as int), team_id),
                zone <= i,
            decreases rows@.len() - i,
        {
            let row = rows[i];
            proof {
                assert(rows@.take(i as int + 1).drop_last() =~= rows@.take(i as int));
                assert(rows@.take(i as int + 1).last() == row);
                lemma_counts_bounded(rows@.take(i as int), team_id);
            }
            if row.team_id != team_id && !row.is_goalkeeper && row.in_reach {
                zone = zone + 1;
                if !row.covered {
                    free = free + 1;
                    let nearer = match best {
                        None => true,
                        Some(b) => row.depth_key < b.depth_key,
                    };
                    if nearer {
                        best = Some(row);
                    }
                }
            }
            i = i + 1;
        }
        assert(rows@.take(i as int) =~= rows@);
        let man = match best {
            Some(b) => Some(b.player_id),
            None => None,
        };
        KeeperCensus { man, free, in_zone: zone }
    }

    /// The end `team_id` defends, read off the first of its players on the
    /// pitch: `None` when it has nobody there, or he has no side yet.
    pub fn own_goal_side(players: &Vec<SideRow>, team_id: u32) -> (r: Option<PlayerSide>)
        ensures
            r == first_side_of_team(players@, team_id),
    {
        let mut i: usize = 0;
        assert(players@.skip(0) =~= players@);
        while i < players.len()
            invariant
                i <= players@.len(),
                first_side_of_team(players@, team_id) == first_side_of_team(
                    players@.skip(i as int),
                    team_id,
                ),
            decreases players@.len() - i,
        {
            let p = players[i];
            assert(players@.skip(i as int)[0] == p);
            assert(players@.skip(i as int).drop_first() =~= players@.skip(i as int + 1));
            if p.team_id == team_id {
                return p.side;
            }
            i = i + 1;
        }
        assert(players@.skip(i as int).len() == 0);
        None
    }
}

/// The keeper shouts about a man exactly when somebody in his zone is
/// free; the man he names is free, and nobody free is nearer his goal.
/// No more men are free than stand in the zone.
pub proof fn lemma_free_man_is_nearest_free(rows: Seq<ZoneRow>, team_id: u32)
    ensures
        count_free(rows, team_id) <= count_in_zone(rows, team_id),
        nearest_free(rows, team_id).is_some() == (count_free(rows, team_id) > 0),
        nearest_free(rows, team_id) is None ==> forall|i: int|
            0 <= i < rows.len() ==> !is_free(#[trigger] rows[i], team_id),
        nearest_free(rows, team_id) matches Some(m) ==> (exists|i: int|
            0 <= i < rows.len() && rows[i] == m) && is_free(m, team_id) && (forall|i: int|
            0 <= i < rows.len() && is_free(#[trigger] rows[i], team_id) ==> m.depth_key
                <= rows[i].depth_key),
    decreases rows.len(),
{
    lemma_counts_bounded(rows, team_id);
    if rows.len() > 0 {
        let init = rows.drop_last();
        let last = rows.last();
        lemma_free_man_is_nearest_free(init, team_id);
        assert forall|i: int| 0 <= i < init.len() implies #[trigger] init[i] == rows[i] by {}
        assert(rows[rows.len() - 1] == last);
        let prev = nearest_free(init, team_id);
        match nearest_free(rows, team_id) {
            None => {
                assert forall|i: int| 0 <= i < rows.len() implies !is_free(
                    #[trigger] rows[i],
                    team_id,
                ) by {
                    if i < rows.len() - 1 {
                        assert(init[i] == rows[i]);
                    }
                }
            },
            Some(m) => {
                if m == last && is_free(last, team_id) && (match prev {
                    None => true,
                    Some(p) => last.depth_key < p.depth_key,
                }) {
                    assert forall|i: int|
                        0 <= i < rows.len() && is_free(#[trigger] rows[i], team_id) implies m.depth_key
                        <= rows[i].depth_key by {
                        if i < rows.len() - 1 {
                            assert(init[i] == rows[i]);
                            assert(is_free(init[i], team_id));
                        }
                    }
                } else {
                    assert(prev == Some(m));
                    let j = choose|j: int| 0 <= j < init.len() && init[j] == m;
                    assert(rows[j] == m);
                    assert forall|i: int|
                        0 <= i < rows.len() && is_free(#[trigger] rows[i], team_id) implies m.depth_key
                        <= rows[i].depth_key by {
                        if i < rows.len() - 1 {
                            assert(init[i] == rows[i]);
                            assert(is_free(init[i], team_id));
                        }
                    }
                }
            },
        }
    }
}

} // verus!
