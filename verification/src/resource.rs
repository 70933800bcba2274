use vstd::prelude::*;

verus! {

/// The rule-relevant part of an object lying in a stage: what shredding it
/// adds to (or takes from) each of the shredder's stats, whether it is still
/// in the world and whether the player can still drag it.
#[derive(Clone, Copy, PartialEq, Eq, Debug)]
pub struct Resource {
    /// The stage the object lies in.
    pub stage: usize,
    /// Position of the object in its stage's table; with `stage` it names the object.
    pub id: usize,
    pub lubrication: i8,
    pub sharpening: i8,
    pub energy: i8,
    pub alive: bool,
    pub movable: bool,
}

impl Resource {
    /// A fresh object: alive and movable.
    pub fn new(stage: usize, id: usize, lubrication: i8, sharpening: i8, energy: i8) -> (r: Resource)
        ensures
            r == fresh_resource(stage, id, lubrication, sharpening, energy),
    {
        Resource { stage, id, lubrication, sharpening, energy, alive: true, movable: true }
    }
}

/// An alive, movable object with the given stat contributions.
pub open spec fn fresh_resource(
    stage: usize,
    id: usize,
    lubrication: i8,
    sharpening: i8,
    energy: i8,
) -> Resource {
    Resource { stage, id, lubrication, sharpening, energy, alive: true, movable: true }
}

/// Number of stages of the game (the intro stage and four worlds).
pub const STAGE_COUNT: usize = 5;

/// Stat contributions `(lubrication, sharpening, energy)` of the objects of each stage, in order.
pub open spec fn stage_stats(stage: int) -> Seq<(i8, i8, i8)> {
    if stage == 0 {
        seq![(0i8, 0i8, 0i8)]
    } else if stage == 1 {
        seq![
            (-1i8, 2i8, -1i8), (-1i8, 2i8, -1i8), (0i8, 2i8, -1i8), (0i8, 2i8, -1i8), (2i8, -1i8, -1i8), (2i8, -1i8, -1i8),
            (2i8, -1i8, -1i8), (2i8, -1i8, -1i8), (-1i8, -1i8, 2i8), (-1i8, -1i8, 2i8), (-1i8, -1i8, 2i8), (-1i8, -1i8, 2i8),
            (-1i8, -1i8, 2i8), (-1i8, -1i8, 2i8),
        ]
    } else if stage == 2 {
        seq![
            (0i8, -1i8, 1i8), (0i8, -1i8, 1i8), (0i8, -1i8, 1i8), (0i8, -1i8, 1i8), (0i8, -1i8, 1i8), (0i8, -1i8, 1i8),
            (-1i8, 2i8, -1i8), (-1i8, 2i8, -1i8), (3i8, -1i8, -1i8), (3i8, -1i8, -1i8), (-1i8, 3i8, -1i8), (-1i8, 1i8, -1i8),
            (-1i8, 1i8, -1i8), (-1i8, 1i8, -1i8),
        ]
    } else if stage == 3 {
        seq![
            (-1i8, 3i8, -1i8), (-1i8, -1i8, 1i8), (-1i8, -1i8, 1i8), (-1i8, 3i8, -1i8), (-1i8, -1i8, 3i8), (-1i8, 2i8, -1i8),
            (-1i8, 2i8, -1i8), (1i8, -1i8, -1i8), (1i8, -1i8, -1i8), (1i8, -1i8, -1i8), (-1i8, -1i8, 3i8), (-1i8, 1i8, -1i8),
            (-1i8, 1i8, -1i8), (-1i8, 1i8, -1i8), (2i8, -1i8, -1i8), (2i8, -1i8, -1i8), (-1i8, -1i8, 1i8), (-1i8, -1i8, 1i8),
            (2i8, -1i8, 0i8), (2i8, -1i8, 0i8),
        ]
    } else if stage == 4 {
        seq![
            (-1i8, -1i8, 1i8), (1i8, -1i8, -1i8), (-1i8, -1i8, 1i8), (-1i8, 3i8, -1i8), (-1i8, 3i8, -1i8), (-1i8, 1i8, -1i8),
            (-1i8, -1i8, 1i8), (-1i8, -1i8, 1i8), (1i8, -1i8, -1i8), (1i8, -1i8, -1i8),
        ]
    } else {
        seq![]
    }
}

/// The objects a stage starts with: the `i`-th one is fresh, lies in the stage, has id `i` and
/// the `i`-th stats of the stage.
pub open spec fn stage_start(stage: int, rs: Seq<Resource>) -> bool {
    &&& rs.len() == stage_stats(stage).len()
    &&& forall|i: int|
        0 <= i < rs.len() ==> #[trigger] rs[i] == fresh_resource(
            stage as usize,
            i as usize,
            stage_stats(stage)[i].0,
            stage_stats(stage)[i].1,
            stage_stats(stage)[i].2,
        )
}

/// Turns a table of stat contributions into fresh objects numbered by position.
fn from_stats(stats: Vec<(i8, i8, i8)>, stage: usize) -> (rs: Vec<Resource>)
    requires
        stats@ == stage_stats(stage as int),
    ensures
        stage_start(stage as int, rs@),
{
    let mut rs: Vec<Resource> = Vec::new();
    let n = stats.len();
    for i in 0..n
        invariant
            n == stats@.len(),
            stats@ == stage_stats(stage as int),
            rs@.len() == i,
            forall|j: int|
                0 <= j < i ==> #[trigger] rs@[j] == fresh_resource(
                    stage,
                    j as usize,
                    stats@[j].0,
                    stats@[j].1,
                    stats@[j].2,
                ),
    {
        let (l, s, e) = stats[i];
        rs.push(Resource::new(stage, i, l, s, e));
    }
    rs
}

/// The objects stage `stage` starts with.
pub fn stage_resources(stage: usize) -> (rs: Vec<Resource>)
    requires
        stage < STAGE_COUNT,
    ensures
        stage_start(stage as int, rs@),
{
    let stats: Vec<(i8, i8, i8)> = if stage == 0 {
        vec![(0, 0, 0)]
    } else if stage == 1 {
        vec![
            (-1, 2, -1), (-1, 2, -1), (0, 2, -1), (0, 2, -1), (2, -1, -1), (2, -1, -1),
            (2, -1, -1), (2, -1, -1), (-1, -1, 2), (-1, -1, 2), (-1, -1, 2), (-1, -1, 2),
            (-1, -1, 2), (-1, -1, 2),
        ]
    } else if stage == 2 {
        vec![
            (0, -1, 1), (0, -1, 1), (0, -1, 1), (0, -1, 1), (0, -1, 1), (0, -1, 1),
            (-1, 2, -1), (-1, 2, -1), (3, -1, -1), (3, -1, -1), (-1, 3, -1), (-1, 1, -1),
            (-1, 1, -1), (-1, 1, -1),
        ]
    } else if stage == 3 {
        vec![
            (-1, 3, -1), (-1, -1, 1), (-1, -1, 1), (-1, 3, -1), (-1, -1, 3), (-1, 2, -1),
            (-1, 2, -1), (1, -1, -1), (1, -1, -1), (1, -1, -1), (-1, -1, 3), (-1, 1, -1),
            (-1, 1, -1), (-1, 1, -1), (2, -1, -1), (2, -1, -1), (-1, -1, 1), (-1, -1, 1),
            (2, -1, 0), (2, -1, 0),
        ]
    } else {
        vec![
            (-1, -1, 1), (1, -1, -1), (-1, -1, 1), (-1, 3, -1), (-1, 3, -1), (-1, 1, -1),
            (-1, -1, 1), (-1, -1, 1), (1, -1, -1), (1, -1, -1),
        ]
    };
    assert(stats@ =~= stage_stats(stage as int));
    from_stats(stats, stage)
}

/// Every object of every stage, with what shredding it adds to (lubrication, sharpening,
/// energy), named by what it is.
pub proof fn lemma_stage_objects()
    ensures
        stage_stats(0).len() == 1,
        stage_stats(0)[0] == (0i8, 0i8, 0i8), // the instructions sheet
        stage_stats(1).len() == 14,
        stage_stats(1)[0] == (-1i8, 2i8, -1i8), // chair
        stage_stats(1)[1] == (-1i8, 2i8, -1i8), // chair
        stage_stats(1)[2] == (0i8, 2i8, -1i8), // trash
        stage_stats(1)[3] == (0i8, 2i8, -1i8), // trash
        stage_stats(1)[4] == (2i8, -1i8, -1i8), // desk
        stage_stats(1)[5] == (2i8, -1i8, -1i8), // desk
        stage_stats(1)[6] == (2i8, -1i8, -1i8), // computer
        stage_stats(1)[7] == (2i8, -1i8, -1i8), // computer
        stage_stats(1)[8] == (-1i8, -1i8, 2i8), // can
        stage_stats(1)[9] == (-1i8, -1i8, 2i8), // can
        stage_stats(1)[10] == (-1i8, -1i8, 2i8), // can
        stage_stats(1)[11] == (-1i8, -1i8, 2i8), // can
        stage_stats(1)[12] == (-1i8, -1i8, 2i8), // can
        stage_stats(1)[13] == (-1i8, -1i8, 2i8), // can
        stage_stats(2).len() == 14,
        stage_stats(2)[0] == (0i8, -1i8, 1i8), // light
        stage_stats(2)[1] == (0i8, -1i8, 1i8), // light
        stage_stats(2)[2] == (0i8, -1i8, 1i8), // light
        stage_stats(2)[3] == (0i8, -1i8, 1i8), // light
        stage_stats(2)[4] == (0i8, -1i8, 1i8), // light
        stage_stats(2)[5] == (0i8, -1i8, 1i8), // light
        stage_stats(2)[6] == (-1i8, 2i8, -1i8), // manhole cover
        stage_stats(2)[7] == (-1i8, 2i8, -1i8), // manhole cover
        stage_stats(2)[8] == (3i8, -1i8, -1i8), // car
        stage_stats(2)[9] == (3i8, -1i8, -1i8), // truck
        stage_stats(2)[10] == (-1i8, 3i8, -1i8), // letterbox
        stage_stats(2)[11] == (-1i8, 1i8, -1i8), // bench
        stage_stats(2)[12] == (-1i8, 1i8, -1i8), // bench
        stage_stats(2)[13] == (-1i8, 1i8, -1i8), // bench
        stage_stats(3).len() == 20,
        stage_stats(3)[0] == (-1i8, 3i8, -1i8), // bridge
        stage_stats(3)[1] == (-1i8, -1i8, 1i8), // stage-2 object
        stage_stats(3)[2] == (-1i8, -1i8, 1i8), // stage-2 object
        stage_stats(3)[3] == (-1i8, 3i8, -1i8), // airport
        stage_stats(3)[4] == (-1i8, -1i8, 3i8), // hot-air balloon
        stage_stats(3)[5] == (-1i8, 2i8, -1i8), // boat
        stage_stats(3)[6] == (-1i8, 2i8, -1i8), // boat
        stage_stats(3)[7] == (1i8, -1i8, -1i8), // tree
        stage_stats(3)[8] == (1i8, -1i8, -1i8), // tree
        stage_stats(3)[9] == (1i8, -1i8, -1i8), // tree
        stage_stats(3)[10] == (-1i8, -1i8, 3i8), // crane
        stage_stats(3)[11] == (-1i8, 1i8, -1i8), // container
        stage_stats(3)[12] == (-1i8, 1i8, -1i8), // container
        stage_stats(3)[13] == (-1i8, 1i8, -1i8), // container
        stage_stats(3)[14] == (2i8, -1i8, -1i8), // cow
        stage_stats(3)[15] == (2i8, -1i8, -1i8), // cow
        stage_stats(3)[16] == (-1i8, -1i8, 1i8), // building
        stage_stats(3)[17] == (-1i8, -1i8, 1i8), // building
        stage_stats(3)[18] == (2i8, -1i8, 0i8), // whale
        stage_stats(3)[19] == (2i8, -1i8, 0i8), // whale
        stage_stats(4).len() == 10,
        stage_stats(4)[0] == (-1i8, -1i8, 1i8), // sun
        stage_stats(4)[1] == (1i8, -1i8, -1i8), // moon
        stage_stats(4)[2] == (-1i8, -1i8, 1i8), // comet
        stage_stats(4)[3] == (-1i8, 3i8, -1i8), // star
        stage_stats(4)[4] == (-1i8, 3i8, -1i8), // star
        stage_stats(4)[5] == (-1i8, 1i8, -1i8), // sat
        stage_stats(4)[6] == (-1i8, -1i8, 1i8), // Milky Way
        stage_stats(4)[7] == (-1i8, -1i8, 1i8), // Milky Way
        stage_stats(4)[8] == (1i8, -1i8, -1i8), // helmet
        stage_stats(4)[9] == (1i8, -1i8, -1i8), // object
{
}

/// Sum of the `k`-th stat value over the first `n` objects of `rs`.
pub open spec fn stat_total(rs: Seq<(i8, i8, i8)>, k: int, n: int) -> int
    decreases n,
{
    if n <= 0 || n > rs.len() {
        0
    } else {
        stat_total(rs, k, n - 1) + if k == 0 {
            rs[n - 1].0 as int
        } else if k == 1 {
            rs[n - 1].1 as int
        } else {
            rs[n - 1].2 as int
        }
    }
}

/// What a whole stage is worth: the totals, over all its objects, of the lubrication,
/// sharpening and energy they add.
pub proof fn lemma_stage_totals()
    ensures
        stat_total(stage_stats(0), 0, 1) == 0,
        stat_total(stage_stats(0), 1, 1) == 0,
        stat_total(stage_stats(0), 2, 1) == 0,
        stat_total(stage_stats(1), 0, 14) == 0,
        stat_total(stage_stats(1), 1, 14) == -2,
        stat_total(stage_stats(1), 2, 14) == 4,
        stat_total(stage_stats(2), 0, 14) == 0,
        stat_total(stage_stats(2), 1, 14) == 2,
        stat_total(stage_stats(2), 2, 14) == -2,
        stat_total(stage_stats(3), 0, 20) == -2,
        stat_total(stage_stats(3), 1, 20) == 0,
        stat_total(stage_stats(3), 2, 20) == -2,
        stat_total(stage_stats(4), 0, 10) == -4,
        stat_total(stage_stats(4), 1, 10) == 0,
        stat_total(stage_stats(4), 2, 10) == -2,
{
    reveal_with_fuel(stat_total, 21);
}

} // verus!
