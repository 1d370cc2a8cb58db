//! The crane-stacker rules: how a dropped slab lands, how it scores, when a
//! building is complete and the next one starts, and when the run is over.
//!
//! Positions and widths are floating point and live in the application; it
//! tells this module how a slab met the stack (a [`Contact`]) and gets back
//! what the landing produced (a [`StepOutcome`]).
use vstd::prelude::*;

use crate::catalog::{building, floors_of, lemma_catalog_floors_positive, BuildingDef, BUILDING_COUNT};
use crate::rng::{lemma_xorshift64_nonzero, xorshift64, xorshift64_step};

verus! {

/// How a falling slab met the top of the tower, as measured by the
/// application in world units.
#[derive(Clone, Copy, Debug, PartialEq, Eq, Structural)]
pub enum Contact {
    /// Its center is within the snap tolerance of the slab below.
    Aligned,
    /// Not aligned, but it overlaps the slab below by more than the topple
    /// margin.
    Overlapping,
    /// It overlaps the slab below by no more than the topple margin.
    Missed,
}

/// What the rules made of a landing.
#[derive(Clone, Copy, Debug, PartialEq, Eq, Structural)]
pub enum Landing {
    /// First floor of a building: lands where it falls, keeps its width.
    Foundation,
    /// Aligned with the slab below: snapped onto it at full width.
    Snap,
    /// Trimmed to its overlap with the slab below.
    Trim,
    /// Fell off the tower: the run is over.
    Topple,
}

/// What a single step produced, for effects and the HUD.
#[derive(Clone, Copy, Debug, PartialEq, Eq, Structural)]
pub struct StepOutcome {
    pub placed: bool,
    pub perfect: bool,
    pub building_done: bool,
    pub game_over: bool,
    pub gained: u64,
    /// How the slab landed, when one landed in this step.
    pub landing: Option<Landing>,
}

/// The outcome of a step in which nothing happened.
pub open spec fn quiet_outcome() -> StepOutcome {
    StepOutcome {
        placed: false,
        perfect: false,
        building_done: false,
        game_over: false,
        gained: 0,
        landing: None,
    }
}

/// The outcome of a step taken after the run is over.
pub open spec fn over_outcome() -> StepOutcome {
    StepOutcome {
        placed: false,
        perfect: false,
        building_done: false,
        game_over: true,
        gained: 0,
        landing: None,
    }
}

impl Default for StepOutcome {
    fn default() -> (o: StepOutcome)
        ensures
            o == quiet_outcome(),
    {
        StepOutcome {
            placed: false,
            perfect: false,
            building_done: false,
            game_over: false,
            gained: 0,
            landing: None,
        }
    }
}

/// Points for a placed floor before any building bonus: a perfect drop
/// earns 50 plus 40 per step of the (already increased) combo, any other 30.
pub open spec fn floor_points(perfect: bool, new_combo: int) -> int {
    if perfect {
        50 + 40 * new_combo
    } else {
        30
    }
}

/// Bonus for completing a building.
pub open spec fn building_bonus() -> int {
    2000
}

/// The game's discrete state as plain values.
pub struct GameView {
    /// Index of the building under construction.
    pub current: nat,
    /// Floors placed in the current building.
    pub floors_placed: nat,
    /// Floors placed over the whole run.
    pub floors_total: nat,
    pub score: nat,
    /// Consecutive perfect drops.
    pub combo: int,
    /// A slab has been released and has not landed yet.
    pub falling: bool,
    pub game_over: bool,
    /// State of the xorshift64 stream.
    pub rng: u64,
}

impl GameView {
    /// Floor count of the building under construction.
    pub open spec fn target(self) -> nat {
        floors_of(self.current as int) as nat
    }

    /// What every reachable state satisfies.
    pub open spec fn inv(self) -> bool {
        &&& self.current < BUILDING_COUNT
        &&& self.floors_placed < self.target()
        &&& self.rng != 0
        &&& 0 <= self.combo <= self.floors_total
        &&& self.combo <= i32::MAX
        &&& self.floors_total <= u32::MAX
        &&& self.score <= u64::MAX
        &&& self.falling ==> !self.game_over
    }

    /// A slab hangs from the hook: none is falling and the run goes on.
    pub open spec fn carrying(self) -> bool {
        !self.falling && !self.game_over
    }

    /// The counters leave room for one more landing without overflow.
    pub open spec fn room_to_land(self) -> bool {
        &&& self.floors_total < u32::MAX
        &&& self.combo < i32::MAX
        &&& self.score + 2090 + 40 * self.combo <= u64::MAX
    }

    /// A new run from `seed`.
    pub open spec fn fresh(seed: u64) -> GameView {
        GameView {
            current: 0,
            floors_placed: 0,
            floors_total: 0,
            score: 0,
            combo: 0,
            falling: false,
            game_over: false,
            rng: seed | 1u64,
        }
    }

    /// The state after the player releases the carried slab.
    pub open spec fn dropped(self) -> GameView {
        if self.carrying() {
            GameView { falling: true, ..self }
        } else {
            self
        }
    }

    /// How a falling slab with `contact` lands on this state's tower.
    pub open spec fn landing_kind(self, contact: Contact) -> Landing {
        if self.floors_placed == 0 {
            Landing::Foundation
        } else {
            match contact {
                Contact::Aligned => Landing::Snap,
                Contact::Overlapping => Landing::Trim,
                Contact::Missed => Landing::Topple,
            }
        }
    }

    /// The state after the falling slab lands with `contact`.
    pub open spec fn landed(self, contact: Contact) -> GameView {
        let kind = self.landing_kind(contact);
        if kind == Landing::Topple {
            GameView { falling: false, game_over: true, ..self }
        } else {
            let perfect = kind != Landing::Trim;
            let combo = if perfect { self.combo + 1 } else { 0 };
            let placed = self.floors_placed + 1;
            let done = placed >= self.target();
            let bonus = if done { building_bonus() } else { 0 };
            GameView {
                current: if done { ((self.current + 1) % (BUILDING_COUNT as nat)) as nat } else { self.current },
                floors_placed: if done { 0 } else { placed },
                floors_total: self.floors_total + 1,
                score: (self.score + floor_points(perfect, combo) + bonus) as nat,
                combo,
                falling: false,
                game_over: false,
                rng: if done { xorshift64(self.rng) } else { self.rng },
            }
        }
    }

    /// What the landing with `contact` reports.
    pub open spec fn landing_outcome(self, contact: Contact) -> StepOutcome {
        let kind = self.landing_kind(contact);
        if kind == Landing::Topple {
            StepOutcome { game_over: true, landing: Some(Landing::Topple), ..quiet_outcome() }
        } else {
            let perfect = kind != Landing::Trim;
            let combo = if perfect { self.combo + 1 } else { 0 };
            let done = self.floors_placed + 1 >= self.target();
            let bonus = if done { building_bonus() } else { 0 };
            StepOutcome {
                placed: true,
                perfect,
                building_done: done,
                game_over: false,
                gained: (floor_points(perfect, combo) + bonus) as u64,
                landing: Some(kind),
            }
        }
    }

    /// The state after one simulation step in which the falling slab, if
    /// any, reached the stack with `reached` (`None`: still in the air).
    pub open spec fn ticked(self, reached: Option<Contact>) -> GameView {
        if self.game_over || !self.falling {
            self
        } else {
            match reached {
                Some(c) => self.landed(c),
                None => self,
            }
        }
    }

    /// What one simulation step reports.
    pub open spec fn tick_outcome(self, reached: Option<Contact>) -> StepOutcome {
        if self.game_over {
            over_outcome()
        } else if !self.falling {
            quiet_outcome()
        } else {
            match reached {
                Some(c) => self.landing_outcome(c),
                None => quiet_outcome(),
            }
        }
    }
}

/// The discrete state of a run: building progression, score, combo, the
/// falling/over flags and the random stream.
pub struct Game {
    current: usize,
    floors_placed: u32,
    floors_total: u32,
    score: u64,
    combo: i32,
    falling: bool,
    game_over: bool,
    rng: u64,
}

impl View for Game {
    type V = GameView;

    closed spec fn view(&self) -> GameView {
        GameView {
            current: self.current as nat,
            floors_placed: self.floors_placed as nat,
            floors_total: self.floors_total as nat,
            score: self.score as nat,
            combo: self.combo as int,
            falling: self.falling,
            game_over: self.game_over,
            rng: self.rng,
        }
    }
}

/// A landing from a valid state with room for it keeps the invariant.
pub proof fn lemma_landing_keeps_inv(v: GameView, contact: Contact)
    requires
        v.inv(),
        v.falling,
        v.room_to_land(),
    ensures
        v.landed(contact).inv(),
{
    let next = ((v.current + 1) % (BUILDING_COUNT as nat)) as int;
    lemma_catalog_floors_positive(next);
    lemma_xorshift64_nonzero(v.rng);
}

impl Game {
    /// Every reachable game satisfies this; `new` establishes it and every
    /// method keeps it.
    pub open spec fn wf(&self) -> bool {
        self@.inv()
    }

    /// A new run seeded with `seed` (made odd so the stream never sticks at 0).
    pub fn new(seed: u64) -> (g: Game)
        ensures
            g.wf(),
            g@ == GameView::fresh(seed),
    {
        let rng = seed | 1u64;
        assert(rng != 0) by (bit_vector)
            requires
                rng == seed | 1u64,
        ;
        Game {
            current: 0,
            floors_placed: 0,
            floors_total: 0,
            score: 0,
            combo: 0,
            falling: false,
            game_over: false,
            rng,
        }
    }

    /// Index of the building under construction.
    pub fn current(&self) -> (i: usize)
        ensures
            i == self@.current,
    {
        self.current
    }

    /// The building under construction.
    pub fn current_building(&self) -> (b: BuildingDef)
        requires
            self.wf(),
        ensures
            b@ == crate::catalog::catalog_entry(self@.current as int),
    {
        building(self.current)
    }

    /// Floor count of the building under construction.
    pub fn target_floors(&self) -> (n: u32)
        requires
            self.wf(),
        ensures
            n == self@.target(),
    {
        building(self.current).floors
    }

    /// Floors placed in the current building.
    pub fn floors_placed(&self) -> (n: u32)
        ensures
            n == self@.floors_placed,
    {
        self.floors_placed
    }

    /// Floors placed over the whole run.
    pub fn floors_total(&self) -> (n: u32)
        ensures
            n == self@.floors_total,
    {
        self.floors_total
    }

    pub fn score(&self) -> (s: u64)
        ensures
            s == self@.score,
    {
        self.score
    }

    /// Consecutive perfect drops.
    pub fn combo(&self) -> (c: i32)
        ensures
            c == self@.combo,
    {
        self.combo
    }

    pub fn game_over(&self) -> (b: bool)
        ensures
            b == self@.game_over,
    {
        self.game_over
    }

    /// A slab is falling.
    pub fn is_falling(&self) -> (b: bool)
        ensures
            b == self@.falling,
    {
        self.falling
    }

    /// A slab hangs from the hook: none is falling and the run goes on.
    pub fn is_carrying(&self) -> (b: bool)
        ensures
            b == self@.carrying(),
    {
        !self.falling && !self.game_over
    }

    /// The counters leave room for one more landing without overflow.
    pub fn can_land(&self) -> (b: bool)
        requires
            self.wf(),
        ensures
            b == self@.room_to_land(),
    {
        self.floors_total < u32::MAX && self.combo < i32::MAX && self.score <= u64::MAX - 2090
            - 40 * (self.combo as u64)
    }

    /// The next number of the random stream.
    fn xorshift(&mut self) -> (x: u64)
        ensures
            x == xorshift64(old(self).rng),
            final(self).rng == x,
            final(self).current == old(self).current,
            final(self).floors_placed == old(self).floors_placed,
            final(self).floors_total == old(self).floors_total,
            final(self).score == old(self).score,
            final(self).combo == old(self).combo,
            final(self).falling == old(self).falling,
            final(self).game_over == old(self).game_over,
    {
        let x = xorshift64_step(self.rng);
        self.rng = x;
        x
    }

    /// Player action: release the carried slab so it falls. Does nothing
    /// while a slab is falling or after the run is over.
    pub fn drop_block(&mut self)
        requires
            old(self).wf(),
        ensures
            final(self).wf(),
            final(self)@ == old(self)@.dropped(),
    {
        if self.game_over || self.falling {
            return;
        }
        self.falling = true;
    }

    /// Advance the rules by one simulation step. `reached` says whether the
    /// falling slab met the stack in this step, and how; it is ignored when
    /// no slab is falling.
    pub fn tick(&mut self, reached: Option<Contact>) -> (out: StepOutcome)
        requires
            old(self).wf(),
            old(self)@.falling && reached is Some ==> old(self)@.room_to_land(),
        ensures
            final(self).wf(),
            final(self)@ == old(self)@.ticked(reached),
            out == old(self)@.tick_outcome(reached),
    {
        if self.game_over {
            return StepOutcome {
                placed: false,
                perfect: false,
                building_done: false,
                game_over: true,
                gained: 0,
                landing: None,
            };
        }
        if !self.falling {
            return StepOutcome::default();
        }
        if let Some(contact) = reached {
            self.falling = false;
            self.resolve_landing(contact)
        } else {
            StepOutcome::default()
        }
    }

    fn resolve_landing(&mut self, contact: Contact) -> (out: StepOutcome)
        requires
            ({
                let v = GameView { falling: true, ..old(self)@ };
                v.inv() && v.room_to_land()
            }),
            !old(self).falling,
        ensures
            final(self).wf(),
            final(self)@ == (GameView { falling: true, ..old(self)@ }).landed(contact),
            out == (GameView { falling: true, ..old(self)@ }).landing_outcome(contact),
    {
        let ghost before = GameView { falling: true, ..self@ };
        proof {
            lemma_landing_keeps_inv(before, contact);
        }
        let kind = if self.floors_placed == 0 {
            Landing::Foundation
        } else {
            match contact {
                Contact::Aligned => Landing::Snap,
                Contact::Overlapping => Landing::Trim,
                Contact::Missed => Landing::Topple,
            }
        };
        if let Landing::Topple = kind {
            self.game_over = true;
            return StepOutcome {
                placed: false,
                perfect: false,
                building_done: false,
                game_over: true,
                gained: 0,
                landing: Some(Landing::Topple),
            };
        }
        let perfect = match kind {
            Landing::Trim => false,
            _ => true,
        };
        self.floors_placed = self.floors_placed + 1;
        self.floors_total = self.floors_total + 1;
        let mut gained: u64;
        if perfect {
            self.combo = self.combo + 1;
            gained = 50 + 40 * (self.combo as u64);
        } else {
            self.combo = 0;
            gained = 30;
        }
        self.score = self.score + gained;
        let done = self.floors_placed >= building(self.current).floors;
        if done {
            gained = gained + 2000;
            self.score = self.score + 2000;
            self.start_next_building();
        }
        StepOutcome {
            placed: true,
            perfect,
            building_done: done,
            game_over: false,
            gained,
            landing: Some(kind),
        }
    }

    fn start_next_building(&mut self)
        requires
            old(self).current < BUILDING_COUNT,
        ensures
            final(self).current == (old(self).current + 1) % (BUILDING_COUNT as int),
            final(self).floors_placed == 0,
            final(self).rng == xorshift64(old(self).rng),
            final(self).floors_total == old(self).floors_total,
            final(self).score == old(self).score,
            final(self).combo == old(self).combo,
            final(self).falling == old(self).falling,
            final(self).game_over == old(self).game_over,
    {
        self.current = (self.current + 1) % BUILDING_COUNT;
        // The stream advances once per completed building.
        let _ = self.xorshift();
        self.floors_placed = 0;
    }
}


/// The state after each contact of `contacts` in turn is the landing of a
/// slab released from the hook.
pub open spec fn placements(v: GameView, contacts: Seq<Contact>) -> GameView
    decreases contacts.len(),
{
    if contacts.len() == 0 {
        v
    } else {
        placements(v.dropped().landed(contacts[0]), contacts.drop_first())
    }
}

/// The score never goes down: a step adds exactly what it reports as
/// gained, and releasing a slab leaves it alone.
pub proof fn lemma_score_adds_gains(v: GameView, reached: Option<Contact>)
    requires
        v.inv(),
    ensures
        v.ticked(reached).score == v.score + v.tick_outcome(reached).gained,
        v.ticked(reached).score >= v.score,
        v.dropped().score == v.score,
{
}

/// Once the run is over nothing changes: releasing does nothing, and every
/// step reports the run as over without scoring.
pub proof fn lemma_game_over_is_final(v: GameView, reached: Option<Contact>)
    requires
        v.game_over,
    ensures
        v.dropped() == v,
        v.ticked(reached) == v,
        v.tick_outcome(reached) == over_outcome(),
{
}

/// The first floor of a building always lands, and counts as a perfect drop,
/// wherever it falls.
pub proof fn lemma_foundation_is_perfect(v: GameView, contact: Contact)
    requires
        v.floors_placed == 0,
    ensures
        v.landing_kind(contact) == Landing::Foundation,
        v.landing_outcome(contact).placed,
        v.landing_outcome(contact).perfect,
        !v.landed(contact).game_over,
        v.landed(contact).combo == v.combo + 1,
{
}

/// A perfect drop extends the combo and earns 50 + 40 per combo step; any
/// other placed floor resets the combo and earns 30 (each plus the building
/// bonus when it completes the building).
pub proof fn lemma_combo_scoring(v: GameView, contact: Contact)
    requires
        v.inv(),
    ensures
        v.landing_outcome(contact).placed && v.landing_outcome(contact).perfect ==> {
            &&& v.landed(contact).combo == v.combo + 1
            &&& v.landing_outcome(contact).gained == 50 + 40 * (v.combo + 1) + if v.landing_outcome(
                contact,
            ).building_done {
                2000int
            } else {
                0int
            }
        },
        v.landing_outcome(contact).placed && !v.landing_outcome(contact).perfect ==> {
            &&& v.landed(contact).combo == 0
            &&& v.landing_outcome(contact).gained == 30 + if v.landing_outcome(
                contact,
            ).building_done {
                2000int
            } else {
                0int
            }
        },
{
}

/// A slab that misses the tower (above the first floor) topples it: the run
/// is over, nothing is placed, and the score, tower and building stay as they
/// were.
pub proof fn lemma_miss_topples(v: GameView)
    requires
        v.floors_placed > 0,
    ensures
        v.landing_kind(Contact::Missed) == Landing::Topple,
        v.landed(Contact::Missed).game_over,
        !v.landing_outcome(Contact::Missed).placed,
        v.landing_outcome(Contact::Missed).game_over,
        v.landed(Contact::Missed).score == v.score,
        v.landed(Contact::Missed).floors_placed == v.floors_placed,
        v.landed(Contact::Missed).floors_total == v.floors_total,
        v.landed(Contact::Missed).current == v.current,
{
}

/// Only a miss above the first floor ends the run; aligned and overlapping
/// drops always place a floor.
pub proof fn lemma_only_misses_topple(v: GameView, contact: Contact)
    ensures
        v.landing_outcome(contact).game_over <==> (v.floors_placed > 0 && contact
            == Contact::Missed),
        v.landing_outcome(contact).placed <==> !v.landing_outcome(contact).game_over,
{
}

/// A placed floor completes the building exactly when it is the building's
/// last floor; the next building of the catalog (the first again after the
/// last) then starts from an empty plot.
pub proof fn lemma_building_completion(v: GameView, contact: Contact)
    requires
        v.landing_outcome(contact).placed,
    ensures
        v.landing_outcome(contact).building_done <==> v.floors_placed + 1 >= v.target(),
        v.landing_outcome(contact).building_done ==> {
            &&& v.landed(contact).current == (v.current + 1) % (BUILDING_COUNT as nat)
            &&& v.landed(contact).floors_placed == 0
        },
        !v.landing_outcome(contact).building_done ==> {
            &&& v.landed(contact).current == v.current
            &&& v.landed(contact).floors_placed == v.floors_placed + 1
        },
        v.landed(contact).floors_total == v.floors_total + 1,
{
}

/// Releasing the slab is only possible while carrying one, and releasing
/// twice is releasing once.
pub proof fn lemma_drop_once(v: GameView)
    ensures
        v.dropped().falling == (v.falling || v.carrying()),
        !v.dropped().carrying(),
        v.dropped().dropped() == v.dropped(),
        v.dropped().score == v.score,
{
}

/// A building takes exactly its floor count of placed slabs: starting on a
/// building with `v.floors_placed` floors, every drop that does not miss adds
/// one floor until the last one, which completes the building and starts the
/// next one of the catalog on an empty plot.
pub proof fn lemma_building_takes_its_floor_count(v: GameView, contacts: Seq<Contact>)
    requires
        v.current < BUILDING_COUNT,
        v.carrying(),
        v.floors_placed + contacts.len() <= v.target(),
        forall|i: int| 0 <= i < contacts.len() ==> contacts[i] != Contact::Missed,
    ensures
        !placements(v, contacts).game_over,
        placements(v, contacts).floors_total == v.floors_total + contacts.len(),
        v.floors_placed + contacts.len() < v.target() ==> {
            &&& placements(v, contacts).current == v.current
            &&& placements(v, contacts).floors_placed == v.floors_placed + contacts.len()
        },
        v.floors_placed + contacts.len() == v.target() && contacts.len() > 0 ==> {
            &&& placements(v, contacts).current == (v.current + 1) % (BUILDING_COUNT as nat)
            &&& placements(v, contacts).floors_placed == 0
        },
    decreases contacts.len(),
{
    if contacts.len() > 0 {
        let w = v.dropped().landed(contacts[0]);
        let rest = contacts.drop_first();
        assert(contacts[0] != Contact::Missed);
        assert(placements(v, contacts) == placements(w, rest));
        if v.floors_placed + 1 < v.target() {
            assert forall|i: int| 0 <= i < rest.len() implies rest[i] != Contact::Missed by {
                assert(rest[i] == contacts[i + 1]);
            }
            lemma_building_takes_its_floor_count(w, rest);
        } else {
            assert(rest.len() == 0);
            assert(placements(w, rest) == w);
        }
    }
}


/// Above the first floor the contact alone decides the landing, whatever the
/// combo, score or building: an aligned drop snaps on and is perfect (earning
/// 50 + 40 per step of the extended combo), an overlapping one is trimmed and
/// earns 30 with the combo reset, a miss topples.
pub proof fn lemma_contact_decides_landing(v: GameView)
    requires
        v.inv(),
        v.floors_placed > 0,
    ensures
        v.landing_kind(Contact::Aligned) == Landing::Snap,
        v.landing_kind(Contact::Overlapping) == Landing::Trim,
        v.landing_kind(Contact::Missed) == Landing::Topple,
        v.landing_outcome(Contact::Aligned).placed,
        v.landing_outcome(Contact::Aligned).perfect,
        v.landing_outcome(Contact::Aligned).landing == Some(Landing::Snap),
        v.landed(Contact::Aligned).combo == v.combo + 1,
        v.landing_outcome(Contact::Aligned).gained == 50 + 40 * (v.combo + 1) + if v.floors_placed
            + 1 >= v.target() {
            2000int
        } else {
            0int
        },
        v.landing_outcome(Contact::Overlapping).placed,
        !v.landing_outcome(Contact::Overlapping).perfect,
        v.landing_outcome(Contact::Overlapping).landing == Some(Landing::Trim),
        v.landed(Contact::Overlapping).combo == 0,
        v.landing_outcome(Contact::Overlapping).gained == 30 + if v.floors_placed + 1 >= v.target() {
            2000int
        } else {
            0int
        },
{
}

/// Two states that differ only in their combo and score land the same
/// contact the same way: the landing kind, placement and perfection never
/// depend on the combo or score.
pub proof fn lemma_landing_ignores_combo(v: GameView, w: GameView, contact: Contact)
    requires
        v.floors_placed == w.floors_placed,
        v.current == w.current,
    ensures
        v.landing_kind(contact) == w.landing_kind(contact),
        v.landing_outcome(contact).perfect == w.landing_outcome(contact).perfect,
        v.landing_outcome(contact).placed == w.landing_outcome(contact).placed,
        v.landing_outcome(contact).building_done == w.landing_outcome(contact).building_done,
{
}

/// The random stream advances exactly once per completed building and
/// otherwise stays put.
pub proof fn lemma_stream_advances_per_building(v: GameView, contact: Contact)
    ensures
        v.landing_outcome(contact).building_done ==> v.landed(contact).rng == xorshift64(v.rng),
        !v.landing_outcome(contact).building_done ==> v.landed(contact).rng == v.rng,
        v.dropped().rng == v.rng,
{
}

/// A new run starts on the first building with nothing placed, no score and
/// no combo, carrying a slab, with an odd (so nonzero) stream state that
/// keeps the seed's other bits.
pub proof fn lemma_fresh_run(seed: u64)
    ensures
        GameView::fresh(seed).inv(),
        GameView::fresh(seed).current == 0,
        GameView::fresh(seed).floors_placed == 0,
        GameView::fresh(seed).floors_total == 0,
        GameView::fresh(seed).score == 0,
        GameView::fresh(seed).combo == 0,
        GameView::fresh(seed).carrying(),
        GameView::fresh(seed).rng % 2 == 1,
        GameView::fresh(seed).rng == seed || GameView::fresh(seed).rng == seed + 1,
{
    let r = seed | 1u64;
    assert(r % 2 == 1 && (r == seed || r == seed + 1) && r != 0) by (bit_vector)
        requires
            r == seed | 1u64,
    ;
    crate::catalog::lemma_catalog_floors_positive(0);
}


/// A landing that places a floor leaves the slab on the tower and the run
/// going, with a slab back on the hook; a topple ends the run with nothing
/// falling. Either way the landed slab is no longer falling.
pub proof fn lemma_landing_ends_the_fall(v: GameView, contact: Contact)
    requires
        v.falling,
    ensures
        !v.landed(contact).falling,
        v.landing_outcome(contact).placed ==> !v.landed(contact).game_over && v.landed(
            contact,
        ).carrying(),
        v.landing_outcome(contact).game_over == v.landed(contact).game_over,
        v.landing_outcome(contact).placed ==> !v.landing_outcome(contact).game_over,
        v.landing_outcome(contact).landing == Some(v.landing_kind(contact)),
        v.landing_outcome(contact).building_done ==> v.landing_outcome(contact).placed,
{
}

/// Releasing the slab changes nothing but the falling flag.
pub proof fn lemma_drop_touches_only_the_fall(v: GameView)
    ensures
        v.dropped().current == v.current,
        v.dropped().floors_placed == v.floors_placed,
        v.dropped().floors_total == v.floors_total,
        v.dropped().score == v.score,
        v.dropped().combo == v.combo,
        v.dropped().game_over == v.game_over,
        v.dropped().rng == v.rng,
        v.carrying() ==> v.dropped().falling,
        v.falling ==> v.dropped() == v,
{
}

/// A step in which no slab reaches the stack changes nothing and reports
/// nothing (beyond the run being over); while no slab is falling, even a
/// reported contact is ignored. A step in which the falling slab reaches the
/// stack is exactly that landing.
pub proof fn lemma_step_only_lands_a_falling_slab(v: GameView, reached: Option<Contact>)
    ensures
        v.ticked(None) == v,
        !v.game_over ==> v.tick_outcome(None) == quiet_outcome(),
        !v.falling ==> v.ticked(reached) == v,
        !v.falling && !v.game_over ==> v.tick_outcome(reached) == quiet_outcome(),
        v.falling && !v.game_over && reached is Some ==> {
            &&& v.ticked(reached) == v.landed(reached->0)
            &&& v.tick_outcome(reached) == v.landing_outcome(reached->0)
        },
        quiet_outcome().gained == 0 && !quiet_outcome().placed && !quiet_outcome().game_over,
        over_outcome().game_over && !over_outcome().placed && over_outcome().gained == 0,
{
}

} // verus!
