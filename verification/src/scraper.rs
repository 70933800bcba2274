use vstd::prelude::*;

use crate::keys::{key_name, random_key, random_keys, Key, RANDOM_KEY_COUNT};
use crate::resource::Resource;

verus! {

/// Value each stat of a new shredder starts with; also the reference for a "full" stat.
pub const MAX_STAT: i8 = 5;
/// Shredding ticks used when all stats are empty.
pub const MAX_TIME: i32 = 60;
/// Shredding ticks used when all stats are exactly full.
pub const MIN_TIME: i32 = 12;
/// Ticks between two flips of the on-screen key while the shredder is jammed.
pub const TICK_PRESS: i32 = 12;
/// Pressure the player must build up (beyond) to clear a jam.
pub const TARGET_PRESS: i32 = 10;
/// A stat at or below this value is shown as a warning light.
pub const VALUE_MIN: i8 = 2;
/// Shredding ticks of the final shred that ends the game.
pub const LAST_SHRED_TICKS: i32 = 180;

/// Ticks a shred takes when the three stats add up to `sum`: `MIN_TIME / (sum / (3 * MAX_STAT))`,
/// evaluated in single precision and truncated toward zero, or `MAX_TIME` when `sum` is zero.
/// In exact arithmetic that is `180 / sum`; single-precision rounding makes the quotient fall
/// just short of the exact integer when `|sum|` is 1, 2 or 4, so those give one tick less.
pub open spec fn shred_ticks(sum: int) -> int {
    let a = if sum < 0 { -sum } else { sum };
    let q = 180int / a;
    let t = if a == 1 || a == 2 || a == 4 { q - 1 } else { q };
    if sum == 0 {
        MAX_TIME as int
    } else if sum > 0 {
        t
    } else {
        -t
    }
}

/// With a non-negative stat sum a shred takes between zero and `LAST_SHRED_TICKS` ticks.
pub proof fn lemma_shred_ticks_bounds(sum: int)
    requires
        0 <= sum,
    ensures
        0 <= shred_ticks(sum) <= LAST_SHRED_TICKS,
{
    if sum > 0 {
        assert(0 <= 180int / sum <= 180) by (nonlinear_arith)
            requires
                sum > 0,
        ;
        assert(180int / 1 == 180 && 180int / 2 == 90 && 180int / 4 == 45) by (nonlinear_arith);
    }
}

/// What one tick of the shredder did, for the game loop to animate.
#[derive(Clone, Copy, PartialEq, Eq, Debug)]
pub enum ShredEvent {
    /// No object is being shredded.
    Idle,
    /// The object `resource` of stage `stage` sinks one step further into a shred of
    /// `target_ticks` ticks.
    Shredding { stage: usize, resource: usize, target_ticks: i32 },
    /// The object `resource` of stage `stage` is gone; `jammed` tells whether the shredder now
    /// waits for a key.
    Shredded { stage: usize, resource: usize, jammed: bool },
}

/// The shredder: three stats that wear down or recover with what it eats,
/// the object in its mouth, and the jam the player has to clear by hammering a key.
#[derive(Clone, Copy)]
pub struct Scraper {
    pub lubrication: i8,
    pub sharpening: i8,
    pub energy: i8,
    pub current_ressource_shredded: Option<Resource>,
    pub current_shredding_tick: i32,
    pub target_shredding_tick: i32,
    pub waiting_key: Option<(&'static str, Key)>,
    pub current_press: i32,
    pub tick_press: i32,
    pub key_down: bool,
    pub shredding_hand: bool,
}

/// `x` raised to zero if it is negative.
pub open spec fn floor_zero(x: int) -> int {
    if x < 0 {
        0
    } else {
        x
    }
}

/// The key a jam asks for after the draw `draw`, paired with its label.
pub open spec fn jam_key(draw: int, label: &'static str) -> bool {
    label@ == key_name(random_keys()[draw])
}

impl Scraper {
    /// A shredder that is well kept: the stats hold together and the counters stay in range.
    pub open spec fn wf(&self) -> bool {
        &&& 0 <= self.lubrication
        &&& 0 <= self.sharpening
        &&& 0 <= self.energy
        &&& 0 <= self.current_press <= TARGET_PRESS
        &&& 0 <= self.tick_press <= TICK_PRESS + 1
        &&& 0 <= self.target_shredding_tick <= LAST_SHRED_TICKS
        &&& 0 <= self.current_shredding_tick <= self.target_shredding_tick + 1
        &&& self.current_ressource_shredded matches Some(r) ==> !r.movable
        &&& self.waiting_key matches Some(k) ==> k.0@ == key_name(k.1)
    }

    /// Sum of the three stats.
    pub open spec fn stat_sum(&self) -> int {
        self.lubrication + self.sharpening + self.energy
    }

    /// Whether the object in the mouth is due to come out at the next tick.
    pub open spec fn shred_due(&self) -> bool {
        self.current_ressource_shredded is Some && self.current_shredding_tick
            > self.target_shredding_tick
    }

    /// The stats can take in the object that is due to come out without leaving `i8`.
    pub open spec fn stats_room(&self) -> bool {
        self.shred_due() ==> {
            let r = self.current_ressource_shredded->0;
            &&& i8::MIN <= self.lubrication + r.lubrication <= i8::MAX
            &&& i8::MIN <= self.sharpening + r.sharpening <= i8::MAX
            &&& i8::MIN <= self.energy + r.energy <= i8::MAX
        }
    }

    /// What a tick needs so that no counter leaves its integer type.
    pub open spec fn tick_fits(&self) -> bool {
        &&& self.stats_room()
        &&& self.waiting_key is Some ==> self.current_press <= i32::MAX - 2
        &&& self.current_shredding_tick <= self.target_shredding_tick
            ==> self.current_shredding_tick < i32::MAX
    }

    /// Whether the shredder can take a new object: nothing in its mouth and no jam.
    pub open spec fn accepts(&self) -> bool {
        self.current_ressource_shredded is None && self.waiting_key is None
    }

    /// A new shredder: full stats, empty, not jammed.
    pub open spec fn fresh() -> Scraper {
        Scraper {
            lubrication: MAX_STAT,
            sharpening: MAX_STAT,
            energy: MAX_STAT,
            current_ressource_shredded: None,
            current_shredding_tick: 0,
            target_shredding_tick: 0,
            waiting_key: None,
            current_press: 0,
            tick_press: 0,
            key_down: false,
            shredding_hand: false,
        }
    }

    /// This shredder after taking `r` into its mouth.
    pub open spec fn shredding(self, r: Resource) -> Scraper {
        Scraper {
            current_shredding_tick: 0,
            target_shredding_tick: shred_ticks(self.stat_sum()) as i32,
            current_ressource_shredded: Some(Resource { movable: false, ..r }),
            ..self
        }
    }

    /// This shredder after starting the final shred.
    pub open spec fn last_shredding(self) -> Scraper {
        Scraper { target_shredding_tick: LAST_SHRED_TICKS, shredding_hand: true, ..self }
    }

    /// The jam half of a tick: the key on screen flips every `TICK_PRESS + 1` ticks, and each flip
    /// lets one unit of pressure leak; a press adds two; more than `TARGET_PRESS` clears the jam.
    pub open spec fn press_step(self, pressed: bool) -> Scraper {
        if self.waiting_key is None {
            self
        } else {
            let flip = self.tick_press > TICK_PRESS;
            let tick_press = if flip {
                0
            } else {
                self.tick_press + 1
            };
            let key_down = if flip {
                !self.key_down
            } else {
                self.key_down
            };
            let leaked = if flip && self.current_press > 0 {
                self.current_press - 1
            } else {
                self.current_press as int
            };
            let pressure = if pressed {
                leaked + 2
            } else {
                leaked
            };
            if pressure > TARGET_PRESS {
                Scraper {
                    tick_press: tick_press as i32,
                    key_down,
                    current_press: 0,
                    waiting_key: None,
                    ..self
                }
            } else {
                Scraper { tick_press: tick_press as i32, key_down, current_press: pressure as i32, ..self }
            }
        }
    }

    /// The shredding half of a tick, given the key `key` a jam would ask for: the object in the
    /// mouth sinks one tick further until it has spent more than its target, then its stats are
    /// added in, each stat is raised back to zero if it went negative, and any such rescue jams
    /// the shredder. With nothing in the mouth, the final hand shred runs its ticks instead.
    pub open spec fn shred_step(self, key: (&'static str, Key)) -> (Scraper, ShredEvent) {
        match self.current_ressource_shredded {
            Some(r) => {
                if self.current_shredding_tick > self.target_shredding_tick {
                    let l = self.lubrication + r.lubrication;
                    let s = self.sharpening + r.sharpening;
                    let e = self.energy + r.energy;
                    let jam = l < 0 || s < 0 || e < 0;
                    let waiting = if jam {
                        Some(key)
                    } else {
                        self.waiting_key
                    };
                    (
                        Scraper {
                            lubrication: floor_zero(l) as i8,
                            sharpening: floor_zero(s) as i8,
                            energy: floor_zero(e) as i8,
                            waiting_key: waiting,
                            current_ressource_shredded: None,
                            ..self
                        },
                        ShredEvent::Shredded { stage: r.stage, resource: r.id, jammed: waiting is Some },
                    )
                } else {
                    (
                        Scraper {
                            current_shredding_tick: (self.current_shredding_tick + 1) as i32,
                            ..self
                        },
                        ShredEvent::Shredding {
                            stage: r.stage,
                            resource: r.id,
                            target_ticks: self.target_shredding_tick,
                        },
                    )
                }
            },
            None => {
                if !self.shredding_hand {
                    (self, ShredEvent::Idle)
                } else if self.current_shredding_tick > self.target_shredding_tick {
                    (Scraper { shredding_hand: false, ..self }, ShredEvent::Idle)
                } else {
                    (
                        Scraper {
                            current_shredding_tick: (self.current_shredding_tick + 1) as i32,
                            ..self
                        },
                        ShredEvent::Idle,
                    )
                }
            },
        }
    }

    /// A new shredder with full stats.
    pub fn new() -> (r: Self)
        ensures
            r == Scraper::fresh(),
            r.wf(),
    {
        Scraper {
            lubrication: MAX_STAT,
            sharpening: MAX_STAT,
            energy: MAX_STAT,
            current_ressource_shredded: None,
            current_shredding_tick: 0,
            target_shredding_tick: 0,
            waiting_key: None,
            current_press: 0,
            tick_press: 0,
            key_down: false,
            shredding_hand: false,
        }
    }

    /// Starts the final, empty-handed shred that ends the game.
    pub fn last_shred(&mut self)
        ensures
            *final(self) == old(self).last_shredding(),
            old(self).wf() ==> final(self).wf(),
    {
        self.target_shredding_tick = LAST_SHRED_TICKS;
        self.shredding_hand = true;
    }

    /// Ticks the next shred will take with the current stats.
    pub fn get_speed(&self) -> (ticks: i32)
        ensures
            ticks == shred_ticks(self.stat_sum()),
            self.stat_sum() == 0 ==> ticks == MAX_TIME,
            self.stat_sum() > 0 ==> ticks * self.stat_sum() <= 180 < (ticks + 2) * self.stat_sum(),
            self.stat_sum() > 0 && self.stat_sum() != 1 && self.stat_sum() != 2 && self.stat_sum()
                != 4 ==> ticks * self.stat_sum() <= 180 < (ticks + 1) * self.stat_sum(),
    {
        proof {
            lemma_shred_ticks_quotient(self.stat_sum());
        }
        let sum: i32 = self.energy as i32 + self.lubrication as i32 + self.sharpening as i32;
        if sum == 0 {
            MAX_TIME
        } else {
            let a: i32 = if sum < 0 {
                -sum
            } else {
                sum
            };
            // 180 == MIN_TIME * 3 * MAX_STAT
            let q: i32 = 180 / a;
            let t: i32 = if a == 1 || a == 2 || a == 4 {
                q - 1
            } else {
                q
            };
            if sum > 0 {
                t
            } else {
                -t
            }
        }
    }

    /// Puts `ressource` in the mouth: it can no longer be dragged, and the shred starts from
    /// tick zero with the length the current stats give.
    pub fn shred(&mut self, ressource: &mut Resource)
        ensures
            *final(ressource) == (Resource { movable: false, ..*old(ressource) }),
            *final(self) == old(self).shredding(*old(ressource)),
            old(self).wf() ==> final(self).wf(),
    {
        proof {
            if old(self).wf() {
                lemma_shred_ticks_bounds(old(self).stat_sum());
            }
        }
        self.current_shredding_tick = 0;
        self.target_shredding_tick = self.get_speed();
        ressource.movable = false;
        self.current_ressource_shredded = Some(*ressource);
    }

    /// One tick of the shredder. `key_pressed` tells whether the key a jam asks for was pressed
    /// in this tick; `key_draw` is the uniform draw in `0..RANDOM_KEY_COUNT` that picks the key a
    /// new jam asks for.
    pub fn tick(&mut self, key_pressed: bool, key_draw: usize) -> (ev: ShredEvent)
        requires
            old(self).tick_fits(),
            key_draw < RANDOM_KEY_COUNT,
        ensures
            exists|label: &'static str|
                jam_key(key_draw as int, label) && (*final(self), ev) == old(self).press_step(
                    key_pressed,
                ).shred_step((label, random_keys()[key_draw as int])),
            old(self).wf() ==> final(self).wf(),
            old(self).shred_due() ==> ({
                let r = old(self).current_ressource_shredded->0;
                let l = old(self).lubrication + r.lubrication;
                let sh = old(self).sharpening + r.sharpening;
                let e = old(self).energy + r.energy;
                &&& final(self).lubrication == (if l < 0 { 0 } else { l })
                &&& final(self).sharpening == (if sh < 0 { 0 } else { sh })
                &&& final(self).energy == (if e < 0 { 0 } else { e })
                &&& final(self).current_ressource_shredded is None
                &&& ev matches ShredEvent::Shredded { stage, resource, jammed } && stage == r.stage
                    && resource == r.id && jammed == (final(self).waiting_key is Some)
                &&& (l < 0 || sh < 0 || e < 0) ==> final(self).waiting_key is Some
            }),
    {
        if let Some(key) = self.waiting_key {
            if self.tick_press > TICK_PRESS {
                self.tick_press = 0;
                self.key_down = !self.key_down;
                if self.current_press > 0 {
                    self.current_press -= 1;
                }
            } else {
                self.tick_press += 1;
            }
            if key_pressed {
                self.current_press += 2;
            }
            if self.current_press > TARGET_PRESS {
                self.waiting_key = None;
                self.current_press = 0;
            }
        }
        let drawn = random_key(key_draw);
        assert(jam_key(key_draw as int, drawn.0));
        proof {
            lemma_press_keeps_shred(*old(self), key_pressed);
            if old(self).shred_due() {
                lemma_due_shred_completes(*self, drawn);
            }
        }
        if let Some(resource) = self.current_ressource_shredded {
            if self.current_shredding_tick > self.target_shredding_tick {
                self.lubrication = self.lubrication + resource.lubrication;
                self.energy = self.energy + resource.energy;
                self.sharpening = self.sharpening + resource.sharpening;
                if self.lubrication < 0 {
                    self.lubrication = 0;
                    self.waiting_key = Some(drawn);
                }
                if self.energy < 0 {
                    self.energy = 0;
                    self.waiting_key = Some(drawn);
                }
                if self.sharpening < 0 {
                    self.sharpening = 0;
                    self.waiting_key = Some(drawn);
                }
                let jammed = self.waiting_key.is_some();
                self.current_ressource_shredded = None;
                ShredEvent::Shredded { stage: resource.stage, resource: resource.id, jammed }
            } else {
                self.current_shredding_tick += 1;
                ShredEvent::Shredding {
                    stage: resource.stage,
                    resource: resource.id,
                    target_ticks: self.target_shredding_tick,
                }
            }
        } else {
            if self.shredding_hand {
                if self.current_shredding_tick > self.target_shredding_tick {
                    self.shredding_hand = false;
                } else {
                    self.current_shredding_tick += 1;
                }
            }
            ShredEvent::Idle
        }
    }
}

} // verus!

verus! {

/// A well-kept shredder whose stats have room for the object in its mouth can always tick.
pub proof fn lemma_wf_tick_fits(s: Scraper)
    requires
        s.wf(),
        s.stats_room(),
    ensures
        s.tick_fits(),
{
}

/// A jam is never cleared without a press: a well-kept jammed shredder is still jammed
/// after a tick in which the key was not pressed.
pub proof fn lemma_jam_needs_press(s: Scraper, key: (&'static str, Key))
    requires
        s.wf(),
        s.waiting_key is Some,
    ensures
        s.press_step(false).shred_step(key).0.waiting_key is Some,
{
}

/// The better the stats, the shorter the shred: with a positive stat sum, a larger sum
/// never takes more ticks.
pub proof fn lemma_more_stats_shred_faster(a: int, b: int)
    requires
        0 < a <= b,
    ensures
        shred_ticks(b) <= shred_ticks(a),
{
    assert(180int / b <= 180int / a) by (nonlinear_arith)
        requires
            0 < a <= b,
    ;
    if a == 1 || a == 2 || a == 4 {
        if b > a {
            assert(180int / b <= 180int / a - 1) by (nonlinear_arith)
                requires
                    0 < a < b,
                    a == 1 || a == 2 || a == 4,
            ;
        }
    }
}

/// What the player and chance do in one tick: whether the key was pressed, and the key
/// (with its label) a new jam would ask for.
pub type TickInput = (bool, (&'static str, Key));

/// The shredder after one tick per entry of `inputs`, in order.
pub open spec fn run(s: Scraper, inputs: Seq<TickInput>) -> Scraper
    decreases inputs.len(),
{
    if inputs.len() == 0 {
        s
    } else {
        run(s.press_step(inputs[0].0).shred_step(inputs[0].1).0, inputs.drop_first())
    }
}

/// Running the first `n + 1` inputs is running the first `n` and then input `n`.
pub proof fn lemma_run_snoc(s: Scraper, inputs: Seq<TickInput>, n: int)
    requires
        0 <= n < inputs.len(),
    ensures
        run(s, inputs.take(n + 1)) == run(s, inputs.take(n)).press_step(inputs[n].0).shred_step(
            inputs[n].1,
        ).0,
    decreases n,
{
    let next = s.press_step(inputs[0].0).shred_step(inputs[0].1).0;
    let ds = inputs.drop_first();
    let a = inputs.take(n + 1);
    assert(a[0] == inputs[0]);
    assert(a.drop_first() =~= ds.take(n));
    assert(run(s, a) == run(next, ds.take(n)));
    if n > 0 {
        let b = inputs.take(n);
        assert(b[0] == inputs[0]);
        assert(b.drop_first() =~= ds.take(n - 1));
        assert(run(s, b) == run(next, ds.take(n - 1)));
        lemma_run_snoc(next, ds, n - 1);
        assert(ds[n - 1] == inputs[n]);
    } else {
        assert(ds.take(0) =~= Seq::<TickInput>::empty());
        assert(inputs.take(0) =~= Seq::<TickInput>::empty());
        assert(run(next, ds.take(0)) == next);
        assert(run(s, inputs.take(0)) == s);
    }
}

/// While the object in the mouth has not passed its target, every tick keeps it there and
/// adds one tick, whatever is pressed or drawn and whether or not the shredder is jammed.
pub proof fn lemma_shred_in_progress(s: Scraper, inputs: Seq<TickInput>)
    requires
        s.current_ressource_shredded is Some,
        s.current_shredding_tick + inputs.len() <= s.target_shredding_tick + 1,
        s.target_shredding_tick < i32::MAX,
    ensures
        run(s, inputs).current_ressource_shredded == s.current_ressource_shredded,
        run(s, inputs).current_shredding_tick == s.current_shredding_tick + inputs.len(),
        run(s, inputs).target_shredding_tick == s.target_shredding_tick,
    decreases inputs.len(),
{
    if inputs.len() > 0 {
        let t = s.press_step(inputs[0].0).shred_step(inputs[0].1).0;
        lemma_shred_in_progress(t, inputs.drop_first());
    }
}

/// A shred started on a well-kept shredder lasts exactly `target + 2` ticks whatever the
/// player presses, whatever chance draws and whether or not a jam is pending: the object is
/// in the mouth with `n` ticks spent after each of the first `target + 1` ticks and gone
/// after the next one.
pub proof fn lemma_shred_duration(s: Scraper, r: Resource, inputs: Seq<TickInput>)
    requires
        s.wf(),
        inputs.len() == s.shredding(r).target_shredding_tick + 2,
    ensures
        ({
            let started = s.shredding(r);
            let t = started.target_shredding_tick as int;
            &&& forall|n: int|
                0 <= n <= t + 1 ==> (#[trigger] run(started, inputs.take(n))).current_ressource_shredded
                    == started.current_ressource_shredded && run(
                    started,
                    inputs.take(n),
                ).current_shredding_tick == n
            &&& run(started, inputs).current_ressource_shredded is None
        }),
{
    lemma_shred_ticks_bounds(s.stat_sum());
    let started = s.shredding(r);
    let t = started.target_shredding_tick as int;
    assert forall|n: int| 0 <= n <= t + 1 implies (#[trigger] run(
        started,
        inputs.take(n),
    )).current_ressource_shredded == started.current_ressource_shredded && run(
        started,
        inputs.take(n),
    ).current_shredding_tick == n by {
        lemma_shred_in_progress(started, inputs.take(n));
    }
    lemma_shred_in_progress(started, inputs.take(t + 1));
    lemma_run_snoc(started, inputs, t + 1);
    assert(inputs.take(t + 2) =~= inputs);
}

/// The final hand shred, once started with nothing in the mouth, runs one tick at a time up
/// to `LAST_SHRED_TICKS + 1` and then stops for good, whatever is pressed or drawn: with `c`
/// ticks spent when it starts, the hand is still going after `n < 182 - c` ticks, with
/// `c + n` ticks spent, and is over, at 181 ticks, from `n = 182 - c` on.
pub proof fn lemma_hand_run(s: Scraper, inputs: Seq<TickInput>)
    requires
        s.current_ressource_shredded is None,
        s.target_shredding_tick == LAST_SHRED_TICKS,
        0 <= s.current_shredding_tick <= LAST_SHRED_TICKS + 1,
        !s.shredding_hand ==> s.current_shredding_tick == LAST_SHRED_TICKS + 1,
    ensures
        ({
            let e = run(s, inputs);
            let c = s.current_shredding_tick as int;
            &&& e.current_ressource_shredded is None
            &&& e.target_shredding_tick == LAST_SHRED_TICKS
            &&& if s.shredding_hand && inputs.len() < 182 - c {
                e.shredding_hand && e.current_shredding_tick == c + inputs.len()
            } else {
                !e.shredding_hand && e.current_shredding_tick == 181
            }
        }),
    decreases inputs.len(),
{
    if inputs.len() > 0 {
        let t = s.press_step(inputs[0].0).shred_step(inputs[0].1).0;
        lemma_hand_run(t, inputs.drop_first());
    }
}

/// Starting the final shred on a well-kept shredder with nothing in its mouth: the hand runs
/// for `182 - c` ticks, `c` being the ticks spent when it starts (the count is not reset),
/// and the game can then say goodbye.
pub proof fn lemma_last_shred_duration(s: Scraper, inputs: Seq<TickInput>)
    requires
        s.wf(),
        s.current_ressource_shredded is None,
    ensures
        ({
            let e = run(s.last_shredding(), inputs);
            let c = s.current_shredding_tick as int;
            &&& 0 <= c <= 181
            &&& (inputs.len() < 182 - c ==> e.shredding_hand && e.current_shredding_tick == c
                + inputs.len())
            &&& (inputs.len() >= 182 - c ==> !e.shredding_hand && e.current_shredding_tick == 181)
        }),
{
    lemma_hand_run(s.last_shredding(), inputs);
}

/// A tick never drives a stat or the key pressure below zero, as long as they start at zero
/// or above and the stats can take in what comes out of the mouth.
pub proof fn lemma_tick_keeps_non_negative(s: Scraper, pressed: bool, key: (&'static str, Key))
    requires
        0 <= s.lubrication,
        0 <= s.sharpening,
        0 <= s.energy,
        0 <= s.current_press,
        s.stats_room(),
    ensures
        ({
            let t = s.press_step(pressed).shred_step(key).0;
            &&& 0 <= t.lubrication
            &&& 0 <= t.sharpening
            &&& 0 <= t.energy
            &&& 0 <= t.current_press
        }),
{
}

} // verus!

verus! {

/// Six ticks in a row with the key pressed clear any jam of a well-kept, empty shredder,
/// whatever keys are drawn: each press adds two to the pressure and at most one unit leaks
/// in that time.
pub proof fn lemma_six_presses_clear_jam(s: Scraper, inputs: Seq<TickInput>)
    requires
        s.wf(),
        s.current_ressource_shredded is None,
        inputs.len() == 6,
        forall|i: int| 0 <= i < 6 ==> (#[trigger] inputs[i]).0,
    ensures
        run(s, inputs).waiting_key is None,
{
    let s1 = s.press_step(true).shred_step(inputs[0].1).0;
    let s2 = s1.press_step(true).shred_step(inputs[1].1).0;
    let s3 = s2.press_step(true).shred_step(inputs[2].1).0;
    let s4 = s3.press_step(true).shred_step(inputs[3].1).0;
    let s5 = s4.press_step(true).shred_step(inputs[4].1).0;
    let s6 = s5.press_step(true).shred_step(inputs[5].1).0;
    assert(inputs[0].0 && inputs[1].0 && inputs[2].0 && inputs[3].0 && inputs[4].0 && inputs[5].0);
    lemma_run_snoc(s, inputs, 0);
    lemma_run_snoc(s, inputs, 1);
    lemma_run_snoc(s, inputs, 2);
    lemma_run_snoc(s, inputs, 3);
    lemma_run_snoc(s, inputs, 4);
    lemma_run_snoc(s, inputs, 5);
    assert(inputs.take(0) =~= Seq::<TickInput>::empty());
    assert(inputs.take(6) =~= inputs);
    assert(run(s, inputs) == s6);
}

} // verus!

verus! {

/// How long a shred takes, stated by what the count is rather than how it is computed: with
/// no stats it takes `MAX_TIME` ticks; with a positive stat sum `sum` it takes the largest
/// count `t` with `t * sum <= 180` (that is `MIN_TIME` ticks when the stats are exactly
/// full, fewer with more), except that for sums 1, 2 and 4, where `180 / sum` is exact, the
/// single-precision quotient falls short and it takes one tick less; a negative sum gives the
/// negated count of the positive one.
pub proof fn lemma_shred_ticks_quotient(sum: int)
    ensures
        sum == 0 ==> shred_ticks(sum) == MAX_TIME,
        sum > 0 && sum != 1 && sum != 2 && sum != 4 ==> shred_ticks(sum) * sum <= 180 < (
        shred_ticks(sum) + 1) * sum,
        sum == 1 || sum == 2 || sum == 4 ==> (shred_ticks(sum) + 1) * sum == 180,
        sum > 0 ==> shred_ticks(sum) * sum <= 180 < (shred_ticks(sum) + 2) * sum,
        sum < 0 ==> shred_ticks(sum) == -shred_ticks(-sum),
        shred_ticks(15) == MIN_TIME,
{
    if sum > 0 {
        let q = 180int / sum;
        assert(q * sum <= 180 < (q + 1) * sum) by (nonlinear_arith)
            requires
                sum > 0,
                q == 180int / sum,
        ;
        if sum == 1 || sum == 2 || sum == 4 {
            assert(q * sum == 180) by (nonlinear_arith)
                requires
                    sum == 1 || sum == 2 || sum == 4,
                    q == 180int / sum,
            ;
        }
        assert(shred_ticks(sum) * sum <= 180 < (shred_ticks(sum) + 2) * sum) by (nonlinear_arith)
            requires
                shred_ticks(sum) == q || shred_ticks(sum) == q - 1,
                q * sum <= 180 < (q + 1) * sum,
                sum > 0,
        ;
    }
    assert(180int / 15 == 12) by (nonlinear_arith);
}

/// When the object in the mouth is due, a tick adds each of its stat values to the shredder's
/// own, raising any result below zero back to zero; if any of the three went below zero the
/// shredder is jammed on the drawn key and the event reports the jam, otherwise the jam
/// state is left as it was; the mouth is emptied and the event names the object.
pub proof fn lemma_due_shred_completes(s: Scraper, key: (&'static str, Key))
    requires
        s.shred_due(),
        s.stats_room(),
    ensures
        ({
            let r = s.current_ressource_shredded->0;
            let (t, ev) = s.shred_step(key);
            let l = s.lubrication + r.lubrication;
            let sh = s.sharpening + r.sharpening;
            let e = s.energy + r.energy;
            &&& t.lubrication == (if l < 0 { 0 } else { l })
            &&& t.sharpening == (if sh < 0 { 0 } else { sh })
            &&& t.energy == (if e < 0 { 0 } else { e })
            &&& (l < 0 || sh < 0 || e < 0) ==> t.waiting_key == Some(key)
            &&& !(l < 0 || sh < 0 || e < 0) ==> t.waiting_key == s.waiting_key
            &&& t.current_ressource_shredded is None
            &&& ev matches ShredEvent::Shredded { stage, resource, jammed } && stage == r.stage
                && resource == r.id && jammed == (t.waiting_key is Some)
            &&& (l < 0 || sh < 0 || e < 0) ==> (ev matches ShredEvent::Shredded { jammed, .. }
                && jammed)
        }),
{
}

/// A tick leaves the object in the mouth, its stats and the jam untouched by the shredding
/// half: the press half only works on the jam (`lemma_press_rules`), and it never touches
/// the stats, the mouth or the shred's tick counts.
pub proof fn lemma_press_keeps_shred(s: Scraper, pressed: bool)
    ensures
        ({
            let t = s.press_step(pressed);
            &&& t.lubrication == s.lubrication && t.sharpening == s.sharpening && t.energy
                == s.energy
            &&& t.current_ressource_shredded == s.current_ressource_shredded
            &&& t.current_shredding_tick == s.current_shredding_tick
            &&& t.target_shredding_tick == s.target_shredding_tick
            &&& t.shredding_hand == s.shredding_hand
            &&& s.waiting_key is None ==> t == s
        }),
{
}

/// The rules of hammering a jam, in terms of the pressure before the tick: every
/// `TICK_PRESS + 1` ticks the on-screen key flips and one unit of pressure (if any) leaks;
/// a press then adds exactly two, whatever the key on screen shows; once the pressure is over
/// `TARGET_PRESS` the jam clears and the pressure is reset, otherwise the jam stays.
pub proof fn lemma_press_rules(s: Scraper, pressed: bool)
    requires
        s.waiting_key is Some,
    ensures
        ({
            let flip = s.tick_press > TICK_PRESS;
            let leaked = if flip && s.current_press > 0 {
                s.current_press - 1
            } else {
                s.current_press as int
            };
            let pressure = if pressed {
                leaked + 2
            } else {
                leaked
            };
            let t = s.press_step(pressed);
            &&& t.tick_press == (if flip {
                0
            } else {
                s.tick_press + 1
            })
            &&& t.key_down == (if flip {
                !s.key_down
            } else {
                s.key_down
            })
            &&& pressure <= TARGET_PRESS ==> t.waiting_key == s.waiting_key && t.current_press
                == pressure
            &&& pressure > TARGET_PRESS ==> t.waiting_key is None && t.current_press == 0
            &&& (s.press_step(true).waiting_key is Some ==> s.press_step(true).current_press
                == s.press_step(false).current_press + 2)
        }),
{
}

/// A jam at zero pressure needs at least six presses: five ticks, pressed or not, never
/// clear it (each tick adds at most two to the pressure).
pub proof fn lemma_five_ticks_never_clear_fresh_jam(s: Scraper, inputs: Seq<TickInput>)
    requires
        s.waiting_key is Some,
        s.current_press == 0,
        inputs.len() == 5,
    ensures
        run(s, inputs).waiting_key is Some,
{
    let s1 = s.press_step(inputs[0].0).shred_step(inputs[0].1).0;
    let s2 = s1.press_step(inputs[1].0).shred_step(inputs[1].1).0;
    let s3 = s2.press_step(inputs[2].0).shred_step(inputs[2].1).0;
    let s4 = s3.press_step(inputs[3].0).shred_step(inputs[3].1).0;
    let s5 = s4.press_step(inputs[4].0).shred_step(inputs[4].1).0;
    lemma_run_snoc(s, inputs, 0);
    lemma_run_snoc(s, inputs, 1);
    lemma_run_snoc(s, inputs, 2);
    lemma_run_snoc(s, inputs, 3);
    lemma_run_snoc(s, inputs, 4);
    assert(inputs.take(0) =~= Seq::<TickInput>::empty());
    assert(inputs.take(5) =~= inputs);
    assert(run(s, inputs) == s5);
}

} // verus!
