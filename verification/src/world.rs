use vstd::prelude::*;

use crate::keys::{random_keys, RANDOM_KEY_COUNT};
use crate::resource::{stage_resources, stage_start, Resource, STAGE_COUNT};
use crate::scraper::{jam_key, Scraper, ShredEvent};

verus! {

/// Which part of the game the world is in. The game goes through them in the
/// order `EMAIL`, `PLAY`, `MOVING`, `FINAL`, `END`, `BYE`.
#[derive(Clone, Copy, PartialEq, Eq, Debug)]
pub enum WorldState {
    EMAIL,
    PLAY,
    MOVING,
    END,
    FINAL,
    BYE,
}

/// Position of a state in the order the game goes through them.
pub open spec fn state_rank(s: WorldState) -> int {
    match s {
        WorldState::EMAIL => 0,
        WorldState::PLAY => 1,
        WorldState::MOVING => 2,
        WorldState::FINAL => 3,
        WorldState::END => 4,
        WorldState::BYE => 5,
    }
}

/// `next` is `prev` or the state right after it.
pub open spec fn state_step(prev: WorldState, next: WorldState) -> bool {
    next == prev || state_rank(next) == state_rank(prev) + 1
}

/// Index of the last stage; once it is cleared the shredder moves out.
pub const LAST_STAGE: usize = 4;
/// Ticks the shredder spends moving out before the final shred can be started.
pub const MOVING_TICKS: u64 = 120;

/// What clearing a stage led to.
#[derive(Clone, Copy, PartialEq, Eq, Debug)]
pub enum StageChange {
    /// The stage still has objects, or the game is not being played.
    Stay,
    /// The next stage began; its music is the one of act `act` (counted from zero).
    NextStage { act: usize },
    /// The last stage was cleared: the shredder moves out.
    Moving,
}

/// `rs` with every object named `id` no longer alive.
pub open spec fn kill(rs: Seq<Resource>, id: usize) -> Seq<Resource> {
    rs.map_values(|r: Resource| if r.id == id { Resource { alive: false, ..r } } else { r })
}

/// `i` is the first position of `rs` holding an object named `id`.
pub open spec fn first_with_id(rs: Seq<Resource>, id: usize, i: int) -> bool {
    &&& 0 <= i < rs.len()
    &&& rs[i].id == id
    &&& forall|j: int| 0 <= j < i ==> #[trigger] rs[j].id != id
}

/// Position of the first object named `id` in `rs`, if any.
pub open spec fn find_id(rs: Seq<Resource>, id: usize) -> Option<int> {
    if exists|i: int| first_with_id(rs, id, i) {
        Some(choose|i: int| first_with_id(rs, id, i))
    } else {
        None
    }
}

/// The first position holding a given id is unique.
pub proof fn lemma_first_with_id_unique(rs: Seq<Resource>, id: usize, i: int, k: int)
    requires
        first_with_id(rs, id, i),
        first_with_id(rs, id, k),
    ensures
        i == k,
{
    if i < k {
        assert(rs[i].id != id);
    } else if k < i {
        assert(rs[k].id != id);
    }
}

/// Finds where the object named `id` lies in `rs`.
fn position_of(rs: &Vec<Resource>, id: usize) -> (r: Option<usize>)
    ensures
        r matches Some(i) ==> find_id(rs@, id) == Some(i as int),
        r is None ==> find_id(rs@, id) is None,
{
    let n = rs.len();
    for i in 0..n
        invariant
            n == rs@.len(),
            forall|j: int| 0 <= j < i ==> #[trigger] rs@[j].id != id,
    {
        if rs[i].id == id {
            assert(first_with_id(rs@, id, i as int));
            proof {
                let k = choose|k: int| first_with_id(rs@, id, k);
                lemma_first_with_id_unique(rs@, id, i as int, k);
            }
            return Some(i);
        }
    }
    assert(!exists|i: int| first_with_id(rs@, id, i));
    None
}

/// Every object of `rs` lies in stage `s`.
pub open spec fn tagged(rs: Seq<Resource>, s: int) -> bool {
    forall|i: int| 0 <= i < rs.len() ==> #[trigger] rs[i].stage == s
}

/// The ids of `rs` strictly increase, so no id occurs twice.
pub open spec fn ids_increasing(rs: Seq<Resource>) -> bool {
    forall|i: int, j: int| 0 <= i < j < rs.len() ==> #[trigger] rs[i].id < #[trigger] rs[j].id
}

/// Objects that have left the world can no longer be dragged.
pub open spec fn dead_stuck(rs: Seq<Resource>) -> bool {
    forall|i: int| 0 <= i < rs.len() && !(#[trigger] rs[i]).alive ==> !rs[i].movable
}

/// The objects named `id` in `rs` can no longer be dragged.
pub open spec fn held_stuck(rs: Seq<Resource>, id: usize) -> bool {
    forall|i: int| 0 <= i < rs.len() && (#[trigger] rs[i]).id == id ==> !rs[i].movable
}

/// The objects of stage `s` are well kept: they lie in `s`, have distinct increasing ids,
/// and those that left the world can no longer be dragged.
pub open spec fn stage_ok(rs: Seq<Resource>, s: int) -> bool {
    &&& tagged(rs, s)
    &&& ids_increasing(rs)
    &&& dead_stuck(rs)
}

/// Taking an object that can no longer be dragged out of the world keeps a stage well kept.
proof fn lemma_kill_keeps_stage_ok(rs: Seq<Resource>, s: int, id: usize)
    requires
        stage_ok(rs, s),
        held_stuck(rs, id),
    ensures
        stage_ok(kill(rs, id), s),
        kill(rs, id).len() == rs.len(),
        forall|i: int| 0 <= i < rs.len() ==> (#[trigger] kill(rs, id)[i]).id == rs[i].id,
{
    let k = kill(rs, id);
    assert forall|i: int| 0 <= i < rs.len() implies (#[trigger] k[i]).id == rs[i].id
        && k[i].stage == rs[i].stage && (!k[i].alive ==> !k[i].movable) by {
        assert(k[i] == (if rs[i].id == id {
            Resource { alive: false, ..rs[i] }
        } else {
            rs[i]
        }));
    }
    assert forall|i: int, j: int| 0 <= i < j < k.len() implies #[trigger] k[i].id < #[trigger] k[j].id by {
        assert(k[i].id == rs[i].id && k[j].id == rs[j].id);
    }
}

/// Making the object at `i` undraggable keeps a stage well kept, and with ids distinct it is
/// then the only object of its id, so that id is held stuck.
proof fn lemma_stick_keeps_stage_ok(rs: Seq<Resource>, s: int, i: int)
    requires
        stage_ok(rs, s),
        0 <= i < rs.len(),
    ensures
        stage_ok(rs.update(i, Resource { movable: false, ..rs[i] }), s),
        held_stuck(rs.update(i, Resource { movable: false, ..rs[i] }), rs[i].id),
{
    let u = rs.update(i, Resource { movable: false, ..rs[i] });
    assert forall|a: int, b: int| 0 <= a < b < u.len() implies #[trigger] u[a].id < #[trigger] u[b].id by {
        assert(u[a].id == rs[a].id && u[b].id == rs[b].id);
    }
    assert forall|j: int| 0 <= j < u.len() && (#[trigger] u[j]).id == rs[i].id implies !u[j].movable by {
        if j != i {
            assert(rs[j].id != rs[i].id);
        }
    }
}

/// The game world: the objects of every stage, the shredder, the stage being
/// played and the state of the game with its clocks.
pub struct World {
    /// Stage and id of the object the player is dragging.
    pub selected: Option<(usize, usize)>,
    /// The objects of each stage.
    pub resources: Vec<Vec<Resource>>,
    pub scraper: Scraper,
    /// The stage being played (read it with `get_stage`).
    pub stage: usize,
    pub state: WorldState,
    /// Ticks spent playing.
    pub timer: u64,
    /// Ticks spent moving out.
    pub end_tick: u64,
    /// The camera is still travelling to the current stage.
    pub transition_running: bool,
}

impl World {
    /// The stage being played.
    pub open spec fn stage_index(&self) -> int {
        self.stage as int
    }

    /// The objects of stage `s`.
    pub open spec fn objects(&self, s: int) -> Seq<Resource> {
        self.resources@[s]@
    }

    /// The world holds five well-kept stages and plays one of them; its shredder is well kept,
    /// never jams while something is in its mouth, and what is in its mouth lies in a stage
    /// where it can no longer be dragged; a held object lies in one of the stages.
    pub open spec fn wf(&self) -> bool {
        &&& self.stage < STAGE_COUNT
        &&& self.resources@.len() == STAGE_COUNT
        &&& self.scraper.wf()
        &&& self.scraper.waiting_key is Some ==> self.scraper.current_ressource_shredded is None
        &&& forall|s: int|
            #![trigger self.resources@[s]]
            0 <= s < STAGE_COUNT ==> stage_ok(self.objects(s), s)
        &&& self.scraper.current_ressource_shredded matches Some(r) ==> r.stage < STAGE_COUNT
            && held_stuck(self.objects(r.stage as int), r.id)
        &&& self.selected matches Some(sel) ==> sel.0 < STAGE_COUNT
    }

    /// The objects of the stage being played.
    pub open spec fn current(&self) -> Seq<Resource> {
        self.resources@[self.stage as int]@
    }

    /// `self` and `other` play the same stage and agree on the objects of every stage but `s`.
    pub open spec fn others_unchanged(&self, other: &World, s: int) -> bool {
        &&& self.stage_index() == other.stage_index()
        &&& self.resources@.len() == other.resources@.len()
        &&& forall|t: int|
            0 <= t < self.resources@.len() && t != s ==> #[trigger] self.resources@[t]
                == other.resources@[t]
    }

    /// A world at the start of the game: the intro stage, every stage with all its objects,
    /// a new shredder, the introduction e-mail on screen and both clocks at zero.
    pub fn new() -> (w: World)
        ensures
            w.wf(),
            w.stage_index() == 0,
            w.state == WorldState::EMAIL,
            w.selected is None,
            w.scraper == Scraper::fresh(),
            w.timer == 0,
            w.end_tick == 0,
            !w.transition_running,
            w.resources@.len() == STAGE_COUNT,
            forall|s: int| 0 <= s < STAGE_COUNT ==> stage_start(s, #[trigger] w.objects(s)),
    {
        let mut resources: Vec<Vec<Resource>> = Vec::new();
        for s in 0..STAGE_COUNT
            invariant
                resources@.len() == s,
                forall|t: int| 0 <= t < s ==> stage_start(t, #[trigger] resources@[t]@),
        {
            resources.push(stage_resources(s));
        }
        let w = World {
            selected: None,
            resources,
            scraper: Scraper::new(),
            stage: 0,
            state: WorldState::EMAIL,
            timer: 0,
            end_tick: 0,
            transition_running: false,
        };
        assert forall|s: int| 0 <= s < STAGE_COUNT implies #[trigger] stage_ok(w.objects(s), s) by {
            let rs = w.objects(s);
            assert(stage_start(s, rs));
            assert forall|i: int, j: int| 0 <= i < j < rs.len() implies #[trigger] rs[i].id
                < #[trigger] rs[j].id by {
                assert(rs[i].id == i && rs[j].id == j);
            }
        }
        w
    }

    /// The stage being played.
    pub fn get_stage(&self) -> (s: usize)
        ensures
            s == self.stage_index(),
    {
        self.stage
    }

    /// `next` is `self` moved on to the next stage with the camera travelling there.
    pub open spec fn stage_advanced_to(&self, next: &World) -> bool {
        &&& next.stage_index() == self.stage_index() + 1
        &&& next.transition_running
        &&& next.resources == self.resources
        &&& next.scraper == self.scraper
        &&& next.selected == self.selected
        &&& next.state == self.state
        &&& next.timer == self.timer
        &&& next.end_tick == self.end_tick
    }

    /// Moves on to the next stage and starts the camera travelling there. Returns the act whose
    /// music goes with the new stage: the act counted from zero is one less than the stage.
    pub fn next_stage(&mut self) -> (act: usize)
        requires
            old(self).stage_index() < LAST_STAGE,
        ensures
            old(self).stage_advanced_to(final(self)),
            act == old(self).stage_index(),
            old(self).wf() ==> final(self).wf(),
    {
        self.stage = self.stage + 1;
        self.transition_running = true;
        self.stage - 1
    }

    /// The camera has arrived at the current stage.
    pub fn finish_transition(&mut self)
        ensures
            !final(self).transition_running,
            final(self).stage_index() == old(self).stage_index(),
            final(self).resources == old(self).resources,
            final(self).scraper == old(self).scraper,
            final(self).selected == old(self).selected,
            final(self).state == old(self).state,
            final(self).timer == old(self).timer,
            final(self).end_tick == old(self).end_tick,
            old(self).wf() ==> final(self).wf(),
    {
        self.transition_running = false;
    }
}

/// The stage number counts the stage changes: starting from a new world, after `k` moves to
/// the next stage the world plays stage `k`.
pub proof fn lemma_stage_counts_changes(ws: Seq<World>)
    requires
        ws.len() >= 1,
        ws[0].stage_index() == 0,
        forall|k: int| 0 <= k < ws.len() - 1 ==> #[trigger] ws[k].stage_advanced_to(&ws[k + 1]),
    ensures
        forall|k: int| 0 <= k < ws.len() ==> #[trigger] ws[k].stage_index() == k,
    decreases ws.len(),
{
    if ws.len() > 1 {
        let front = ws.drop_last();
        assert forall|k: int| 0 <= k < front.len() - 1 implies #[trigger] front[k].stage_advanced_to(
            &front[k + 1],
        ) by {
            assert(ws[k].stage_advanced_to(&ws[k + 1]));
        }
        lemma_stage_counts_changes(front);
        assert forall|k: int| 0 <= k < ws.len() implies #[trigger] ws[k].stage_index() == k by {
            if k < ws.len() - 1 {
                assert(front[k] == ws[k]);
            } else {
                assert(front[k - 1] == ws[k - 1]);
                assert(ws[k - 1].stage_advanced_to(&ws[k]));
            }
        }
    }
}

} // verus!

verus! {

/// Copies `rs`, taking the object named `id` out of the world.
fn kill_in(rs: &Vec<Resource>, id: usize) -> (out: Vec<Resource>)
    ensures
        out@ == kill(rs@, id),
{
    let mut out: Vec<Resource> = Vec::new();
    let n = rs.len();
    for i in 0..n
        invariant
            n == rs@.len(),
            out@ =~= kill(rs@.take(i as int), id),
    {
        let r = rs[i];
        if r.id == id {
            out.push(Resource { alive: false, ..r });
        } else {
            out.push(r);
        }
        assert(rs@.take(i + 1) =~= rs@.take(i as int).push(r));
    }
    assert(rs@.take(n as int) =~= rs@);
    out
}

/// Whether an object is still in the world.
pub open spec fn is_alive(r: Resource) -> bool {
    r.alive
}

/// Copies the objects of `rs` that are still alive, keeping their order. What comes out
/// is alive, was in `rs`, and keeps the stage tags and increasing ids of `rs`.
fn alive_in(rs: &Vec<Resource>, Ghost(s): Ghost<int>) -> (out: Vec<Resource>)
    ensures
        out@ == rs@.filter(|r: Resource| is_alive(r)),
        forall|j: int| 0 <= j < out@.len() ==> (#[trigger] out@[j]).alive,
        forall|j: int| 0 <= j < out@.len() ==> rs@.contains(#[trigger] out@[j]),
        tagged(rs@, s) ==> tagged(out@, s),
        ids_increasing(rs@) ==> ids_increasing(out@),
{
    let mut out: Vec<Resource> = Vec::new();
    let ghost mut from: Seq<int> = Seq::empty();
    let n = rs.len();
    for i in 0..n
        invariant
            n == rs@.len(),
            out@ =~= rs@.take(i as int).filter(|r: Resource| is_alive(r)),
            from.len() == out@.len(),
            forall|j: int| 0 <= j < from.len() ==> 0 <= #[trigger] from[j] < i,
            forall|j: int| 0 <= j < from.len() ==> out@[j] == rs@[#[trigger] from[j]],
            forall|a: int, b: int| 0 <= a < b < from.len() ==> #[trigger] from[a] < #[trigger] from[b],
            forall|j: int| 0 <= j < out@.len() ==> (#[trigger] out@[j]).alive,
    {
        let r = rs[i];
        reveal_with_fuel(Seq::<_>::filter, 1);
        assert(rs@.take(i + 1).drop_last() =~= rs@.take(i as int));
        if r.alive {
            out.push(r);
            proof {
                from = from.push(i as int);
            }
        }
    }
    assert(rs@.take(n as int) =~= rs@);
    assert forall|j: int| 0 <= j < out@.len() implies rs@.contains(#[trigger] out@[j]) by {
        assert(out@[j] == rs@[from[j]]);
    }
    assert(tagged(rs@, s) ==> tagged(out@, s)) by {
        if tagged(rs@, s) {
            assert forall|j: int| 0 <= j < out@.len() implies #[trigger] out@[j].stage == s by {
                assert(out@[j] == rs@[from[j]]);
            }
        }
    }
    assert(ids_increasing(rs@) ==> ids_increasing(out@)) by {
        if ids_increasing(rs@) {
            assert forall|a: int, b: int| 0 <= a < b < out@.len() implies #[trigger] out@[a].id
                < #[trigger] out@[b].id by {
                assert(out@[a] == rs@[from[a]] && out@[b] == rs@[from[b]]);
                assert(from[a] < from[b]);
            }
        }
    }
    out
}

impl World {
    /// One tick of the game: the shredder ticks (see `Scraper::tick`), an object it finishes
    /// leaves the world, and the play clock or the moving-out clock advances with the state.
    pub fn tick(&mut self, key_pressed: bool, key_draw: usize) -> (ev: ShredEvent)
        requires
            old(self).wf(),
            old(self).scraper.stats_room(),
            key_draw < RANDOM_KEY_COUNT,
            old(self).state == WorldState::PLAY ==> old(self).timer < u64::MAX,
            old(self).state == WorldState::MOVING ==> old(self).end_tick < u64::MAX,
        ensures
            final(self).wf(),
            exists|label: &'static str|
                jam_key(key_draw as int, label) && (final(self).scraper, ev) == old(
                    self,
                ).scraper.press_step(key_pressed).shred_step(
                    (label, random_keys()[key_draw as int]),
                ),
            match ev {
                ShredEvent::Shredded { stage, resource, .. } => {
                    &&& final(self).objects(stage as int) == kill(
                        old(self).objects(stage as int),
                        resource,
                    )
                    &&& final(self).others_unchanged(old(self), stage as int)
                },
                _ => final(self).resources == old(self).resources,
            },
            final(self).stage == old(self).stage,
            final(self).timer == if old(self).state == WorldState::PLAY {
                old(self).timer + 1
            } else {
                old(self).timer as int
            },
            final(self).end_tick == if old(self).state == WorldState::MOVING {
                old(self).end_tick + 1
            } else {
                old(self).end_tick as int
            },
            final(self).selected == old(self).selected,
            final(self).state == old(self).state,
            final(self).transition_running == old(self).transition_running,
    {
        let ghost before = *self;
        let ev = self.scraper.tick(key_pressed, key_draw);
        if let ShredEvent::Shredded { stage, resource, .. } = ev {
            proof {
                let r = before.scraper.current_ressource_shredded->0;
                assert(r.stage == stage && r.id == resource);
                lemma_kill_keeps_stage_ok(before.objects(stage as int), stage as int, resource);
            }
            let killed = kill_in(&self.resources[stage], resource);
            self.resources.set(stage, killed);
            proof {
                assert forall|s: int|
                    #![trigger self.resources@[s]]
                    0 <= s < STAGE_COUNT implies stage_ok(self.objects(s), s) by {
                    if s != stage {
                        assert(self.resources@[s] == before.resources@[s]);
                    }
                }
            }
        }
        match self.state {
            WorldState::PLAY => {
                self.timer += 1;
            },
            WorldState::MOVING => {
                self.end_tick += 1;
            },
            _ => {},
        }
        ev
    }

    /// Once every object of the stage being played is gone: the next stage begins, or,
    /// after the last stage, the shredder starts moving out.
    pub fn advance_when_cleared(&mut self) -> (c: StageChange)
        requires
            old(self).wf(),
        ensures
            final(self).wf(),
            state_step(old(self).state, final(self).state),
            c == (if old(self).current().len() == 0 && old(self).state == WorldState::PLAY {
                if old(self).stage < LAST_STAGE {
                    StageChange::NextStage { act: old(self).stage }
                } else {
                    StageChange::Moving
                }
            } else {
                StageChange::Stay
            }),
            c is NextStage ==> old(self).stage_advanced_to(final(self)),
            final(self).stage == (if c is NextStage {
                old(self).stage + 1
            } else {
                old(self).stage as int
            }),
            final(self).transition_running == (c is NextStage || old(self).transition_running),
            final(self).state == (if c is Moving {
                WorldState::MOVING
            } else {
                old(self).state
            }),
            final(self).resources == old(self).resources,
            final(self).scraper == old(self).scraper,
            final(self).selected == old(self).selected,
            final(self).timer == old(self).timer,
            final(self).end_tick == old(self).end_tick,
    {
        let cleared = self.resources[self.stage].len() == 0;
        let playing = match self.state {
            WorldState::PLAY => true,
            _ => false,
        };
        if cleared && playing {
            if self.stage != LAST_STAGE {
                let act = self.next_stage();
                StageChange::NextStage { act }
            } else {
                self.state = WorldState::MOVING;
                StageChange::Moving
            }
        } else {
            StageChange::Stay
        }
    }

    /// The state changes that do not depend on the objects: the e-mail's button starts the
    /// game (`start_clicked`; the result says the first act's music starts), moving out ends
    /// after `MOVING_TICKS` ticks, touching the shredder (`shredder_touched`) starts the final
    /// shred, and once that shred is over the game says goodbye.
    pub fn update_state(&mut self, start_clicked: bool, shredder_touched: bool) -> (music: bool)
        requires
            old(self).wf(),
        ensures
            final(self).wf(),
            state_step(old(self).state, final(self).state),
            music == (old(self).state == WorldState::EMAIL && start_clicked),
            final(self).state == match old(self).state {
                WorldState::EMAIL => if start_clicked {
                    WorldState::PLAY
                } else {
                    WorldState::EMAIL
                },
                WorldState::MOVING => if old(self).end_tick > MOVING_TICKS {
                    WorldState::FINAL
                } else {
                    WorldState::MOVING
                },
                WorldState::FINAL => if shredder_touched {
                    WorldState::END
                } else {
                    WorldState::FINAL
                },
                WorldState::END => if !old(self).scraper.shredding_hand {
                    WorldState::BYE
                } else {
                    WorldState::END
                },
                other => other,
            },
            final(self).scraper == (if old(self).state == WorldState::FINAL && shredder_touched {
                old(self).scraper.last_shredding()
            } else {
                old(self).scraper
            }),
            final(self).stage == old(self).stage,
            final(self).resources == old(self).resources,
            final(self).selected == old(self).selected,
            final(self).timer == old(self).timer,
            final(self).end_tick == old(self).end_tick,
            final(self).transition_running == old(self).transition_running,
    {
        match self.state {
            WorldState::EMAIL => {
                if start_clicked {
                    self.state = WorldState::PLAY;
                    return true;
                }
            },
            WorldState::MOVING => {
                if self.end_tick > MOVING_TICKS {
                    self.state = WorldState::FINAL;
                }
            },
            WorldState::FINAL => {
                if shredder_touched {
                    self.scraper.last_shred();
                    self.state = WorldState::END;
                }
            },
            WorldState::END => {
                if !self.scraper.shredding_hand {
                    self.state = WorldState::BYE;
                }
            },
            _ => {},
        }
        false
    }

    /// The object named `id` in stage `s` is there and can still be dragged.
    pub open spec fn grabbable(&self, s: int, id: usize) -> bool {
        find_id(self.objects(s), id) matches Some(i) && self.objects(s)[i].movable
    }

    /// The player grabs the object named `id` of the current stage if it is there and can be
    /// dragged; the selection then names its stage and id.
    pub fn select(&mut self, id: usize) -> (grabbed: bool)
        requires
            old(self).wf(),
        ensures
            grabbed == old(self).grabbable(old(self).stage as int, id),
            final(self).selected == (if grabbed {
                Some((old(self).stage, id))
            } else {
                old(self).selected
            }),
            final(self).wf(),
            final(self).stage == old(self).stage,
            final(self).resources == old(self).resources,
            final(self).scraper == old(self).scraper,
            final(self).state == old(self).state,
            final(self).timer == old(self).timer,
            final(self).end_tick == old(self).end_tick,
            final(self).transition_running == old(self).transition_running,
    {
        match position_of(&self.resources[self.stage], id) {
            Some(i) => {
                if self.resources[self.stage][i].movable {
                    self.selected = Some((self.stage, id));
                    true
                } else {
                    false
                }
            },
            None => false,
        }
    }

    /// The player lets go.
    pub fn release(&mut self)
        ensures
            final(self).selected is None,
            final(self).stage == old(self).stage,
            final(self).resources == old(self).resources,
            final(self).scraper == old(self).scraper,
            final(self).state == old(self).state,
            final(self).timer == old(self).timer,
            final(self).end_tick == old(self).end_tick,
            final(self).transition_running == old(self).transition_running,
            old(self).wf() ==> final(self).wf(),
    {
        self.selected = None;
    }

    /// A held object that can no longer be dragged is let go. An object missing from its
    /// stage's list was cleared out after leaving the world, and such an object can no longer
    /// be dragged either (see `dead_stuck` in `wf`).
    pub fn drop_unmovable_selection(&mut self)
        requires
            old(self).wf(),
        ensures
            final(self).selected == (match old(self).selected {
                Some(sel) => if old(self).grabbable(sel.0 as int, sel.1) {
                    old(self).selected
                } else {
                    None
                },
                None => None,
            }),
            final(self).wf(),
            final(self).stage == old(self).stage,
            final(self).resources == old(self).resources,
            final(self).scraper == old(self).scraper,
            final(self).state == old(self).state,
            final(self).timer == old(self).timer,
            final(self).end_tick == old(self).end_tick,
            final(self).transition_running == old(self).transition_running,
    {
        if let Some((s, id)) = self.selected {
            let keep = match position_of(&self.resources[s], id) {
                Some(i) => self.resources[s][i].movable,
                None => false,
            };
            if !keep {
                self.selected = None;
            }
        }
    }

    /// The held object can go into the shredder: it is still there, can be dragged, and the
    /// shredder is empty and not jammed.
    pub open spec fn can_shred_selected(&self) -> bool {
        self.selected matches Some(sel) && self.grabbable(sel.0 as int, sel.1)
            && self.scraper.accepts()
    }

    /// The held object, dropped on the shredder, goes into it if it can (see
    /// `can_shred_selected`): it can no longer be dragged and the shredder starts on it.
    pub fn shred_selected(&mut self) -> (shredded: bool)
        requires
            old(self).wf(),
        ensures
            shredded == old(self).can_shred_selected(),
            final(self).wf(),
            shredded ==> {
                let sel = old(self).selected->0;
                let s = sel.0 as int;
                let i = find_id(old(self).objects(s), sel.1)->0;
                let r = old(self).objects(s)[i];
                &&& final(self).objects(s) == old(self).objects(s).update(
                    i,
                    Resource { movable: false, ..r },
                )
                &&& final(self).others_unchanged(old(self), s)
                &&& final(self).scraper == old(self).scraper.shredding(r)
            },
            !shredded ==> final(self).resources == old(self).resources && final(self).scraper
                == old(self).scraper,
            final(self).stage == old(self).stage,
            final(self).selected == old(self).selected,
            final(self).state == old(self).state,
            final(self).timer == old(self).timer,
            final(self).end_tick == old(self).end_tick,
            final(self).transition_running == old(self).transition_running,
    {
        let (s, id) = match self.selected {
            Some(sel) => sel,
            None => return false,
        };
        let i = match position_of(&self.resources[s], id) {
            Some(i) => i,
            None => return false,
        };
        let mut r = self.resources[s][i];
        if !r.movable || self.scraper.current_ressource_shredded.is_some()
            || self.scraper.waiting_key.is_some() {
            return false;
        }
        let ghost before = *self;
        proof {
            lemma_stick_keeps_stage_ok(before.objects(s as int), s as int, i as int);
        }
        self.scraper.shred(&mut r);
        let mut inner: Vec<Resource> = Vec::new();
        self.resources.set_and_swap(s, &mut inner);
        inner.set(i, r);
        self.resources.set_and_swap(s, &mut inner);
        proof {
            assert(self.objects(s as int) =~= before.objects(s as int).update(
                i as int,
                Resource { movable: false, ..before.objects(s as int)[i as int] },
            ));
            assert forall|t: int|
                #![trigger self.resources@[t]]
                0 <= t < STAGE_COUNT implies stage_ok(self.objects(t), t) by {
                if t != s {
                    assert(self.resources@[t] == before.resources@[t]);
                }
            }
        }
        true
    }

    /// Objects that have left the world are cleared from the current stage, the others
    /// keep their order.
    pub fn remove_shredded(&mut self)
        requires
            old(self).wf(),
        ensures
            final(self).wf(),
            final(self).current() == old(self).current().filter(|r: Resource| is_alive(r)),
            forall|j: int|
                0 <= j < final(self).current().len() ==> #[trigger] final(self).current()[j].alive,
            final(self).others_unchanged(old(self), old(self).stage as int),
            final(self).scraper == old(self).scraper,
            final(self).selected == old(self).selected,
            final(self).state == old(self).state,
            final(self).timer == old(self).timer,
            final(self).end_tick == old(self).end_tick,
            final(self).transition_running == old(self).transition_running,
    {
        let ghost before = *self;
        let stage = self.stage;
        let alive = alive_in(&self.resources[stage], Ghost(stage as int));
        self.resources.set(stage, alive);
        proof {
            let old_rs = before.objects(stage as int);
            let new_rs = self.objects(stage as int);
            assert(stage_ok(old_rs, stage as int));
            assert(dead_stuck(new_rs));
            assert forall|t: int|
                #![trigger self.resources@[t]]
                0 <= t < STAGE_COUNT implies stage_ok(self.objects(t), t) by {
                if t != stage {
                    assert(self.resources@[t] == before.resources@[t]);
                }
            }
            if let Some(r) = self.scraper.current_ressource_shredded {
                if r.stage == stage {
                    assert forall|j: int|
                        0 <= j < new_rs.len() && (#[trigger] new_rs[j]).id == r.id implies !new_rs[j].movable by {
                        assert(old_rs.contains(new_rs[j]));
                    }
                } else {
                    assert(self.resources@[r.stage as int] == before.resources@[r.stage as int]);
                }
            }
        }
    }
}

} // verus!

verus! {

/// An object the shredder finished leaves its stage for good: once the finished object is
/// taken out of the world and the dead objects are cleared, no object with its id is left,
/// every object left is alive, and every other object that was alive is still there.
pub proof fn lemma_shredded_object_leaves(rs: Seq<Resource>, id: usize)
    ensures
        ({
            let left = kill(rs, id).filter(|r: Resource| is_alive(r));
            &&& forall|j: int| 0 <= j < left.len() ==> (#[trigger] left[j]).id != id && left[j].alive
            &&& forall|i: int|
                0 <= i < rs.len() && rs[i].alive && rs[i].id != id ==> #[trigger] left.contains(
                    rs[i],
                )
        }),
{
    broadcast use vstd::seq_lib::group_filter_ensures;

    let pred = |r: Resource| is_alive(r);
    let killed = kill(rs, id);
    let left = killed.filter(pred);
    assert forall|j: int| 0 <= j < left.len() implies (#[trigger] left[j]).id != id
        && left[j].alive by {
        assert(pred(left[j]));
        assert(left.contains(left[j]));
        killed.lemma_filter_contains_rev(pred, left[j]);
        let k = choose|k: int| 0 <= k < killed.len() && killed[k] == left[j];
        assert(killed[k] == (if rs[k].id == id {
            Resource { alive: false, ..rs[k] }
        } else {
            rs[k]
        }));
    }
    assert forall|i: int| 0 <= i < rs.len() && rs[i].alive && rs[i].id != id implies #[trigger] left.contains(
        rs[i],
    ) by {
        assert(killed[i] == rs[i]);
        killed.lemma_filter_contains(pred, i);
    }
}

} // verus!

verus! {

/// In a well-kept world a jam always goes away after six ticks of hammering the key, whatever
/// keys are drawn meanwhile.
pub proof fn lemma_world_jam_cleared_by_presses(w: World, inputs: Seq<crate::scraper::TickInput>)
    requires
        w.wf(),
        w.scraper.waiting_key is Some,
        inputs.len() == 6,
        forall|i: int| 0 <= i < 6 ==> (#[trigger] inputs[i]).0,
    ensures
        crate::scraper::run(w.scraper, inputs).waiting_key is None,
{
    crate::scraper::lemma_six_presses_clear_jam(w.scraper, inputs);
}

/// In a well-kept world the shredder is never jammed while something is in its mouth.
pub proof fn lemma_world_never_jammed_while_shredding(w: World)
    requires
        w.wf(),
        w.scraper.current_ressource_shredded is Some,
    ensures
        w.scraper.waiting_key is None,
{
}

} // verus!
