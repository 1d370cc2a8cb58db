//! The shell's decisions: what each input does to a run, and which sounds,
//! overlays, effects and HUD updates each step calls for.
//!
//! The application reads the window, the clock and the GPU; it hands every
//! input here and performs the [`Command`]s it gets back, in order.
use vstd::prelude::*;

use crate::game::{quiet_outcome, Contact, Game, GameView, StepOutcome};
use crate::rng::{mixed_seed, seed_now};

verus! {

pub const SFX_ROTATE: u32 = 1;
pub const SFX_LOCK: u32 = 2;
pub const SFX_LEVEL: u32 = 4;
pub const SFX_GAMEOVER: u32 = 5;
pub const SFX_DROP: u32 = 6;

pub const OVERLAY_NONE: u32 = 0;
pub const OVERLAY_PAUSED: u32 = 1;
pub const OVERLAY_GAMEOVER: u32 = 2;

pub const EVENT_COMBO: u32 = 1;
pub const EVENT_PERFECT: u32 = 3;

/// The keys the shell tells apart.
#[derive(Clone, Copy, Debug, PartialEq, Eq, Structural)]
pub enum Key {
    /// Pause / resume.
    P,
    /// Drop the slab.
    Space,
    /// Any other key.
    Other,
}

/// A shower of sparks to show.
#[derive(Clone, Copy, Debug, PartialEq, Eq, Structural)]
pub enum Burst {
    /// A floor landed on the tower; in the tint of `building`.
    Floor { perfect: bool, building: usize },
    /// A building was completed.
    Celebration,
}

/// What the application is asked to do, in order.
#[derive(Clone, Copy, Debug, PartialEq, Eq, Structural)]
pub enum Command {
    /// Play sound effect `kind`.
    Sfx(u32),
    /// Silence the sounds still playing.
    StopSfx,
    /// Show overlay `kind` (`OVERLAY_NONE` hides it).
    Overlay(u32),
    /// Show toast `kind` with number `n`.
    Event(u32, u32),
    /// Update the score / floor counter display.
    Hud { score: u64, floor: u32, target: u32 },
    /// Show the info card of catalog entry `index`.
    Building(usize),
    /// The carried slab was released: start its fall from the hook.
    Release,
    /// A new run began: clear the plot (the surrounding city stays).
    NewGame,
    /// Show a burst of sparks.
    Burst(Burst),
}

/// Asks for sound effect `kind`.
pub fn sfx(kind: u32) -> (c: Command)
    ensures
        c == Command::Sfx(kind),
{
    Command::Sfx(kind)
}

/// Asks to silence the sounds still playing.
pub fn stop_sfx() -> (c: Command)
    ensures
        c == Command::StopSfx,
{
    Command::StopSfx
}

/// Asks for overlay `kind`.
pub fn set_overlay(kind: u32) -> (c: Command)
    ensures
        c == Command::Overlay(kind),
{
    Command::Overlay(kind)
}

/// Asks for toast `kind` with number `n`.
pub fn game_event(kind: u32, n: u32) -> (c: Command)
    ensures
        c == Command::Event(kind, n),
{
    Command::Event(kind, n)
}

/// The HUD update that shows `g`.
pub open spec fn hud_of(g: GameView) -> Command {
    Command::Hud { score: g.score as u64, floor: g.floors_placed as u32, target: g.target() as u32 }
}

/// The info card of the building `g` is constructing.
pub open spec fn building_of(g: GameView) -> Command {
    Command::Building(g.current as usize)
}

/// The HUD update for `game`.
pub fn push_hud(game: &Game) -> (c: Command)
    requires
        game.wf(),
    ensures
        c == hud_of(game@),
{
    Command::Hud { score: game.score(), floor: game.floors_placed(), target: game.target_floors() }
}

/// The info card for the building `game` is constructing.
pub fn push_building(game: &Game) -> (c: Command)
    requires
        game.wf(),
    ensures
        c == building_of(game@),
{
    Command::Building(game.current())
}

/// The shell's state as plain values.
pub struct SessionView {
    pub game: GameView,
    pub paused: bool,
    /// The touch being tracked: its id and whether it has moved far enough
    /// to count as a drag.
    pub touch: Option<(u64, bool)>,
}

/// The commands that open a run on `g`.
pub open spec fn opening_commands(g: GameView) -> Seq<Command> {
    seq![hud_of(g), building_of(g)]
}

/// The commands of a restart on a new run `g`.
pub open spec fn restart_commands(g: GameView) -> Seq<Command> {
    seq![Command::StopSfx, Command::NewGame, Command::Overlay(OVERLAY_NONE)] + opening_commands(g)
}

impl SessionView {
    /// `id` is the touch being tracked.
    pub open spec fn tracks(self, id: u64) -> bool {
        match self.touch {
            Some((t, _)) => t == id,
            None => false,
        }
    }

    /// The tracked touch has been dragged.
    pub open spec fn dragged(self) -> bool {
        match self.touch {
            Some((_, moved)) => moved,
            None => false,
        }
    }

    /// The run advances: not paused and not over.
    pub open spec fn playing(self) -> bool {
        !self.paused && !self.game.game_over
    }

    /// A fresh run seeded from the clock reading `micros`, unpaused.
    pub open spec fn restarted(self, micros: u64) -> SessionView {
        SessionView { game: GameView::fresh(mixed_seed(micros)), paused: false, touch: self.touch }
    }

    /// Drop action (left click, Space, tap): restarts after a topple, does
    /// nothing while paused, otherwise releases the slab (when one is carried)
    /// and plays the drop sound.
    pub open spec fn drop_action(self, micros: u64) -> (SessionView, Seq<Command>) {
        if self.game.game_over {
            (self.restarted(micros), restart_commands(self.restarted(micros).game))
        } else if self.paused {
            (self, Seq::empty())
        } else {
            let release = if self.game.carrying() {
                seq![Command::Release]
            } else {
                Seq::empty()
            };
            (SessionView { game: self.game.dropped(), ..self }, release.push(Command::Sfx(SFX_DROP)))
        }
    }

    /// A key press: P pauses/resumes a running game, Space (not repeated)
    /// drops, and any other key restarts after a topple.
    pub open spec fn key_pressed(self, key: Key, repeat: bool, micros: u64) -> (SessionView, Seq<Command>) {
        if key == Key::P && !self.game.game_over {
            let paused = !self.paused;
            (
                SessionView { paused, ..self },
                seq![Command::Overlay(if paused { OVERLAY_PAUSED } else { OVERLAY_NONE })],
            )
        } else if key == Key::Space && !repeat {
            self.drop_action(micros)
        } else if self.game.game_over {
            (self.restarted(micros), restart_commands(self.restarted(micros).game))
        } else {
            (self, Seq::empty())
        }
    }

    /// A touch `id` began: it is tracked as a possible tap.
    pub open spec fn touch_began(self, id: u64) -> SessionView {
        SessionView { touch: Some((id, false)), ..self }
    }

    /// The touch `id` moved, beyond the drag threshold when `big`.
    pub open spec fn touch_moved(self, id: u64, big: bool) -> SessionView {
        if self.tracks(id) {
            SessionView { touch: Some((id, self.dragged() || big)), ..self }
        } else {
            self
        }
    }

    /// The touch `id` ended (`cancelled`: the system took it away): a tracked
    /// touch that was not dragged is a tap, which drops.
    pub open spec fn touch_ended(self, id: u64, cancelled: bool, micros: u64) -> (
        SessionView,
        Seq<Command>,
    ) {
        if self.tracks(id) {
            let cleared = SessionView { touch: None, ..self };
            if !self.dragged() && !cancelled {
                cleared.drop_action(micros)
            } else {
                (cleared, Seq::empty())
            }
        } else {
            (self, Seq::empty())
        }
    }

    /// One frame: when the run advances, the game steps with `reached` and
    /// the outcome's feedback follows; otherwise nothing happens.
    pub open spec fn advanced(self, reached: Option<Contact>) -> (
        SessionView,
        StepOutcome,
        Seq<Command>,
    ) {
        if self.playing() {
            let next = SessionView { game: self.game.ticked(reached), ..self };
            let outcome = self.game.tick_outcome(reached);
            (next, outcome, next.outcome_commands(outcome))
        } else {
            (self, quiet_outcome(), Seq::empty())
        }
    }

    /// The feedback for a step's `outcome`, read against the state after it.
    pub open spec fn outcome_commands(self, outcome: StepOutcome) -> Seq<Command> {
        let g = self.game;
        let placed = if outcome.placed {
            let burst = Command::Burst(
                Burst::Floor { perfect: outcome.perfect, building: g.current as usize },
            );
            let sound = if outcome.perfect {
                seq![burst, Command::Sfx(SFX_ROTATE)] + if g.combo >= 2 {
                    seq![Command::Event(EVENT_COMBO, g.combo as u32)]
                } else {
                    Seq::empty()
                }
            } else {
                seq![burst, Command::Sfx(SFX_LOCK)]
            };
            sound.push(hud_of(g))
        } else {
            Seq::empty()
        };
        let done = if outcome.building_done {
            seq![
                Command::Burst(Burst::Celebration),
                Command::Event(EVENT_PERFECT, 0),
                Command::Sfx(SFX_LEVEL),
                building_of(g),
            ]
        } else {
            Seq::empty()
        };
        let over = if outcome.game_over {
            seq![Command::Sfx(SFX_GAMEOVER), Command::Overlay(OVERLAY_GAMEOVER)]
        } else {
            Seq::empty()
        };
        placed + done + over
    }
}

/// A run as the shell sees it: the game plus pause and touch tracking.
pub struct Session {
    game: Game,
    paused: bool,
    touch: Option<(u64, bool)>,
}

impl View for Session {
    type V = SessionView;

    closed spec fn view(&self) -> SessionView {
        SessionView { game: self.game@, paused: self.paused, touch: self.touch }
    }
}

/// Starts a run from the clock reading `micros`: the session and the
/// commands that show its first HUD and building card.
pub fn run(micros: u64) -> (r: (Session, Vec<Command>))
    ensures
        r.0.wf(),
        r.0@ == (SessionView {
            game: GameView::fresh(mixed_seed(micros)),
            paused: false,
            touch: None,
        }),
        r.1@ == opening_commands(r.0@.game),
{
    let game = Game::new(seed_now(micros));
    let mut cmds: Vec<Command> = Vec::new();
    cmds.push(push_hud(&game));
    cmds.push(push_building(&game));
    let s = Session { game, paused: false, touch: None };
    assert(cmds@ =~= opening_commands(s@.game));
    (s, cmds)
}

impl Session {
    /// What every session satisfies; `run` establishes it and every method
    /// keeps it.
    pub open spec fn wf(&self) -> bool {
        self@.game.inv()
    }

    /// The run.
    pub fn game(&self) -> (g: &Game)
        ensures
            g@ == self@.game,
            self.wf() ==> g.wf(),
    {
        &self.game
    }

    pub fn paused(&self) -> (b: bool)
        ensures
            b == self@.paused,
    {
        self.paused
    }

    /// The run advances: not paused and not over.
    pub fn playing(&self) -> (b: bool)
        ensures
            b == self@.playing(),
    {
        !self.paused && !self.game.game_over()
    }

    fn restart(&mut self, micros: u64) -> (cmds: Vec<Command>)
        ensures
            final(self)@ == old(self)@.restarted(micros),
            cmds@ == restart_commands(final(self)@.game),
            final(self).wf(),
    {
        let mut cmds: Vec<Command> = Vec::new();
        cmds.push(stop_sfx());
        self.game = Game::new(seed_now(micros));
        cmds.push(Command::NewGame);
        self.paused = false;
        cmds.push(set_overlay(OVERLAY_NONE));
        cmds.push(push_hud(&self.game));
        cmds.push(push_building(&self.game));
        assert(cmds@ =~= restart_commands(self@.game));
        cmds
    }

    /// Drop action (left click, Space, tap), with the clock reading `micros`
    /// for the seed of a restart.
    pub fn drop_action(&mut self, micros: u64) -> (cmds: Vec<Command>)
        requires
            old(self).wf(),
        ensures
            final(self).wf(),
            (final(self)@, cmds@) == old(self)@.drop_action(micros),
    {
        if self.game.game_over() {
            return self.restart(micros);
        }
        if self.paused {
            return Vec::new();
        }
        let mut cmds: Vec<Command> = Vec::new();
        if self.game.is_carrying() {
            cmds.push(Command::Release);
        }
        self.game.drop_block();
        cmds.push(sfx(SFX_DROP));
        cmds
    }

    /// A key press, with the clock reading `micros` for the seed of a restart.
    pub fn on_key(&mut self, key: Key, repeat: bool, micros: u64) -> (cmds: Vec<Command>)
        requires
            old(self).wf(),
        ensures
            final(self).wf(),
            (final(self)@, cmds@) == old(self)@.key_pressed(key, repeat, micros),
    {
        match key {
            Key::P if !self.game.game_over() => {
                self.paused = !self.paused;
                let mut cmds: Vec<Command> = Vec::new();
                cmds.push(set_overlay(if self.paused { OVERLAY_PAUSED } else { OVERLAY_NONE }));
                assert(cmds@ =~= seq![Command::Overlay(if self.paused { OVERLAY_PAUSED } else { OVERLAY_NONE })]);
                cmds
            },
            Key::Space if !repeat => self.drop_action(micros),
            _ => {
                if self.game.game_over() {
                    self.restart(micros)
                } else {
                    Vec::new()
                }
            },
        }
    }

    /// The feedback for a step's `outcome`, given the state after the step.
    pub fn apply_outcome(&self, outcome: &StepOutcome) -> (cmds: Vec<Command>)
        requires
            self.wf(),
        ensures
            cmds@ == self@.outcome_commands(*outcome),
    {
        let mut cmds: Vec<Command> = Vec::new();
        if outcome.placed {
            cmds.push(
                Command::Burst(Burst::Floor { perfect: outcome.perfect, building: self.game.current() }),
            );
            if outcome.perfect {
                cmds.push(sfx(SFX_ROTATE));
                let combo = self.game.combo();
                if combo >= 2 {
                    cmds.push(game_event(EVENT_COMBO, combo as u32));
                }
            } else {
                cmds.push(sfx(SFX_LOCK));
            }
            cmds.push(push_hud(&self.game));
        }
        let ghost after_placed = cmds@;
        if outcome.building_done {
            cmds.push(Command::Burst(Burst::Celebration));
            cmds.push(game_event(EVENT_PERFECT, 0));
            cmds.push(sfx(SFX_LEVEL));
            cmds.push(push_building(&self.game));
        }
        let ghost after_done = cmds@;
        if outcome.game_over {
            cmds.push(sfx(SFX_GAMEOVER));
            cmds.push(set_overlay(OVERLAY_GAMEOVER));
        }
        assert(cmds@ =~= self@.outcome_commands(*outcome));
        cmds
    }

    /// One frame of play: when the run advances, steps the game (`reached`:
    /// whether and how the falling slab met the stack) and returns the step's
    /// outcome with its feedback; otherwise changes nothing.
    pub fn advance(&mut self, reached: Option<Contact>) -> (r: (StepOutcome, Vec<Command>))
        requires
            old(self).wf(),
            old(self)@.game.falling && reached is Some ==> old(self)@.game.room_to_land(),
        ensures
            final(self).wf(),
            (final(self)@, r.0, r.1@) == old(self)@.advanced(reached),
    {
        if !self.playing() {
            return (StepOutcome::default(), Vec::new());
        }
        let outcome = self.game.tick(reached);
        let cmds = self.apply_outcome(&outcome);
        (outcome, cmds)
    }

    /// A touch began: track it as a possible tap.
    pub fn touch_started(&mut self, id: u64)
        ensures
            final(self)@ == old(self)@.touch_began(id),
    {
        self.touch = Some((id, false));
    }

    /// The touch `id` moved; `big` says whether the move exceeds the drag
    /// threshold. Returns whether `id` is the tracked touch (its move then
    /// orbits the camera when `big`).
    pub fn touch_moved(&mut self, id: u64, big: bool) -> (is_tracked: bool)
        ensures
            is_tracked == old(self)@.tracks(id),
            final(self)@ == old(self)@.touch_moved(id, big),
    {
        match self.touch {
            Some((t, moved)) => {
                if t == id {
                    self.touch = Some((t, moved || big));
                    true
                } else {
                    false
                }
            },
            None => false,
        }
    }

    /// The touch `id` ended (`cancelled`: the system took it away). A touch
    /// that ends without having been dragged is a tap, which drops.
    pub fn touch_ended(&mut self, id: u64, cancelled: bool, micros: u64) -> (cmds: Vec<Command>)
        requires
            old(self).wf(),
        ensures
            final(self).wf(),
            (final(self)@, cmds@) == old(self)@.touch_ended(id, cancelled, micros),
    {
        match self.touch {
            Some((t, moved)) => {
                if t == id {
                    self.touch = None;
                    if !moved && !cancelled {
                        self.drop_action(micros)
                    } else {
                        Vec::new()
                    }
                } else {
                    Vec::new()
                }
            },
            None => Vec::new(),
        }
    }
}


/// The topple is reported once: the frame whose step ends the run plays the
/// game-over sound and shows the game-over overlay, and every later frame
/// does nothing at all until a restart.
pub proof fn lemma_game_over_reported_once(
    s: SessionView,
    reached: Option<Contact>,
    later: Option<Contact>,
)
    requires
        s.advanced(reached).1.game_over,
    ensures
        s.playing(),
        s.advanced(reached).2.len() >= 2,
        s.advanced(reached).2.last() == Command::Overlay(OVERLAY_GAMEOVER),
        s.advanced(reached).2[s.advanced(reached).2.len() - 2] == Command::Sfx(SFX_GAMEOVER),
        !s.advanced(reached).0.playing(),
        s.advanced(reached).0.advanced(later) == (
            s.advanced(reached).0,
            quiet_outcome(),
            Seq::<Command>::empty(),
        ),
{
    let o = s.advanced(reached).1;
    if s.game.game_over {
        assert(!s.playing());
    }
    assert(!o.placed);
    assert(!o.building_done);
}

/// After a topple any key starts a new run: silence, a fresh game seeded
/// from the clock, unpaused, the overlay cleared, the HUD and first building
/// card shown.
pub proof fn lemma_any_key_restarts_after_topple(
    s: SessionView,
    key: Key,
    repeat: bool,
    micros: u64,
)
    requires
        s.game.game_over,
    ensures
        s.key_pressed(key, repeat, micros).0.game == GameView::fresh(mixed_seed(micros)),
        !s.key_pressed(key, repeat, micros).0.paused,
        s.key_pressed(key, repeat, micros).0.playing(),
        s.key_pressed(key, repeat, micros).1 == restart_commands(
            GameView::fresh(mixed_seed(micros)),
        ),
        s.key_pressed(key, repeat, micros).1[0] == Command::StopSfx,
        s.drop_action(micros) == s.key_pressed(key, repeat, micros),
{
}

/// P pauses and resumes a running game: pressing it twice restores the
/// pause state, with the paused overlay shown and then hidden when the game
/// was running.
pub proof fn lemma_pause_toggles(s: SessionView, repeat: bool, micros: u64)
    requires
        !s.game.game_over,
    ensures
        s.key_pressed(Key::P, repeat, micros).0.key_pressed(Key::P, repeat, micros).0 == s,
        !s.paused ==> {
            &&& s.key_pressed(Key::P, repeat, micros).0.paused
            &&& s.key_pressed(Key::P, repeat, micros).1 == seq![Command::Overlay(OVERLAY_PAUSED)]
            &&& s.key_pressed(Key::P, repeat, micros).0.key_pressed(Key::P, repeat, micros).1
                == seq![Command::Overlay(OVERLAY_NONE)]
        },
{
}

/// While paused the run is frozen: no step happens and a drop does nothing.
pub proof fn lemma_pause_freezes(s: SessionView, reached: Option<Contact>, micros: u64)
    requires
        s.paused,
        !s.game.game_over,
    ensures
        !s.playing(),
        s.advanced(reached).0 == s,
        s.advanced(reached).2 == Seq::<Command>::empty(),
        s.drop_action(micros) == (s, Seq::<Command>::empty()),
{
}

/// A tap drops: a touch that begins and ends without a drag acts as the drop
/// action; one that was dragged only orbits the camera and drops nothing.
pub proof fn lemma_tap_drops(s: SessionView, id: u64, micros: u64)
    ensures
        s.touch_began(id).touch_ended(id, false, micros) == (SessionView {
            touch: None,
            ..s
        }).drop_action(micros),
        s.touch_began(id).touch_moved(id, true).touch_ended(id, false, micros) == (
            SessionView { touch: None, ..s },
            Seq::<Command>::empty(),
        ),
        s.touch_began(id).touch_ended(id, true, micros) == (
            SessionView { touch: None, ..s },
            Seq::<Command>::empty(),
        ),
{
}

/// The drop sound plays on every drop in a running, unpaused game (also
/// while a slab is already falling), and a slab is released only when one
/// hangs from the hook.
pub proof fn lemma_drop_feedback(s: SessionView, micros: u64)
    requires
        s.playing(),
    ensures
        s.drop_action(micros).1.last() == Command::Sfx(SFX_DROP),
        s.drop_action(micros).1.len() == if s.game.carrying() { 2nat } else { 1nat },
        s.drop_action(micros).0.game == s.game.dropped(),
{
}

/// Every placed floor updates the HUD with the game's score and floor count;
/// the combo toast appears only from a combo of two perfect drops on.
pub proof fn lemma_placement_feedback(s: SessionView, o: StepOutcome)
    requires
        o.placed,
    ensures
        s.outcome_commands(o)[0] == Command::Burst(
            Burst::Floor { perfect: o.perfect, building: s.game.current as usize },
        ),
        o.perfect && s.game.combo >= 2 ==> s.outcome_commands(o)[2] == Command::Event(
            EVENT_COMBO,
            s.game.combo as u32,
        ) && s.outcome_commands(o)[3] == hud_of(s.game),
        !(o.perfect && s.game.combo >= 2) ==> s.outcome_commands(o)[2] == hud_of(s.game),
        forall|i: int|
            0 <= i < s.outcome_commands(o).len() && #[trigger] s.outcome_commands(o)[i]
                == Command::Event(EVENT_COMBO, s.game.combo as u32) ==> o.perfect && s.game.combo
                >= 2,
{
    let cmds = s.outcome_commands(o);
    assert forall|i: int|
        0 <= i < cmds.len() && #[trigger] cmds[i] == Command::Event(EVENT_COMBO, s.game.combo as u32)
        implies o.perfect && s.game.combo >= 2 by {
        if !(o.perfect && s.game.combo >= 2) {
            assert(cmds[i] != Command::Event(EVENT_COMBO, s.game.combo as u32));
        }
    }
}


/// Number of commands of the placement feedback for outcome `o` in session
/// `s`: burst, sound, optional combo toast, HUD.
pub open spec fn placement_len(s: SessionView, o: StepOutcome) -> int {
    if !o.placed {
        0
    } else if o.perfect && s.game.combo >= 2 {
        4
    } else {
        3
    }
}

/// Completing a building is always celebrated, however the last floor
/// landed: right after the placement feedback come the celebration burst,
/// the completion toast, the level sound and the card of the next building;
/// the game-over pair comes last, and only for a topple. A step with nothing
/// to report gives no feedback.
pub proof fn lemma_completion_feedback(s: SessionView, o: StepOutcome)
    ensures
        s.outcome_commands(o).len() == placement_len(s, o) + (if o.building_done { 4int } else { 0 })
            + (if o.game_over { 2int } else { 0 }),
        o.building_done ==> s.outcome_commands(o).subrange(
            placement_len(s, o),
            placement_len(s, o) + 4,
        ) == seq![
            Command::Burst(Burst::Celebration),
            Command::Event(EVENT_PERFECT, 0),
            Command::Sfx(SFX_LEVEL),
            building_of(s.game),
        ],
        o.game_over ==> s.outcome_commands(o).subrange(
            s.outcome_commands(o).len() - 2,
            s.outcome_commands(o).len() as int,
        ) == seq![Command::Sfx(SFX_GAMEOVER), Command::Overlay(OVERLAY_GAMEOVER)],
        !o.placed && !o.building_done && !o.game_over ==> s.outcome_commands(o) == Seq::<
            Command,
        >::empty(),
{
    let cmds = s.outcome_commands(o);
    let k = placement_len(s, o);
    if o.building_done {
        assert(cmds.subrange(k, k + 4) =~= seq![
            Command::Burst(Burst::Celebration),
            Command::Event(EVENT_PERFECT, 0),
            Command::Sfx(SFX_LEVEL),
            building_of(s.game),
        ]);
    }
    if o.game_over {
        assert(cmds.subrange(cmds.len() - 2, cmds.len() as int) =~= seq![
            Command::Sfx(SFX_GAMEOVER),
            Command::Overlay(OVERLAY_GAMEOVER),
        ]);
    }
}

/// Space (not repeated) is exactly the drop action, so while paused it does
/// nothing: no release, no sound, still paused. Repeated Space and keys other
/// than P and Space do nothing while the run goes on.
pub proof fn lemma_space_is_the_drop_action(s: SessionView, repeat: bool, micros: u64)
    ensures
        s.key_pressed(Key::Space, false, micros) == s.drop_action(micros),
        s.paused && !s.game.game_over ==> s.key_pressed(Key::Space, repeat, micros) == (
            s,
            Seq::<Command>::empty(),
        ),
        !s.game.game_over ==> s.key_pressed(Key::Other, repeat, micros) == (
            s,
            Seq::<Command>::empty(),
        ),
        !s.game.game_over ==> s.key_pressed(Key::Space, true, micros) == (
            s,
            Seq::<Command>::empty(),
        ),
        s.drop_action(micros).0.paused == s.paused || s.game.game_over,
{
}

/// Once a tracked touch has been dragged it stays a drag until it ends: a
/// move never clears the drag flag, so a drag that ends after small moves
/// drops nothing. Moves of other touches change nothing.
pub proof fn lemma_drag_is_sticky(s: SessionView, id: u64, big: bool, micros: u64)
    ensures
        s.tracks(id) ==> s.touch_moved(id, big).tracks(id),
        s.tracks(id) ==> s.touch_moved(id, big).dragged() == (s.dragged() || big),
        !s.tracks(id) ==> s.touch_moved(id, big) == s,
        s.touch_moved(id, big).game == s.game,
        s.touch_moved(id, big).paused == s.paused,
        s.touch_began(id).touch_moved(id, true).touch_moved(id, false).touch_ended(id, false, micros)
            == (SessionView { touch: None, ..s }, Seq::<Command>::empty()),
        s.tracks(id) && s.dragged() ==> s.touch_moved(id, big).touch_ended(id, false, micros).1
            == Seq::<Command>::empty(),
        !s.tracks(id) ==> s.touch_ended(id, false, micros) == (s, Seq::<Command>::empty()),
{
}


/// The HUD shows the game's score, the floors placed on the current
/// building and that building's floor count; the card names the building
/// under construction.
pub proof fn lemma_hud_shows_the_game(g: GameView)
    ensures
        hud_of(g) matches Command::Hud { score, floor, target } && score == g.score as u64
            && floor == g.floors_placed as u32 && target == crate::catalog::floors_of(
            g.current as int,
        ),
        building_of(g) matches Command::Building(i) && i == g.current as usize,
{
}

/// A run opens with the HUD at zero on the first building's four floors and
/// the first building's card; a restart first silences the sounds, then
/// starts the new run, hides the overlay, and opens the run the same way.
pub proof fn lemma_opening_and_restart_commands(micros: u64)
    ensures
        opening_commands(GameView::fresh(mixed_seed(micros))) == seq![
            Command::Hud { score: 0, floor: 0, target: 4 },
            Command::Building(0),
        ],
        restart_commands(GameView::fresh(mixed_seed(micros))) == seq![
            Command::StopSfx,
            Command::NewGame,
            Command::Overlay(OVERLAY_NONE),
            Command::Hud { score: 0, floor: 0, target: 4 },
            Command::Building(0),
        ],
{
    let g = GameView::fresh(mixed_seed(micros));
    assert(restart_commands(g) =~= seq![
        Command::StopSfx,
        Command::NewGame,
        Command::Overlay(OVERLAY_NONE),
        Command::Hud { score: 0, floor: 0, target: 4 },
        Command::Building(0),
    ]);
}

/// A placed floor's feedback: its burst, then the perfect sound for a
/// perfect drop or the lock sound for a trimmed one, then (from a combo of
/// two) the combo toast with the combo, then the HUD.
pub proof fn lemma_placement_sounds(s: SessionView, o: StepOutcome)
    requires
        o.placed,
    ensures
        s.outcome_commands(o)[1] == Command::Sfx(if o.perfect { SFX_ROTATE } else { SFX_LOCK }),
        s.outcome_commands(o)[placement_len(s, o) - 1] == hud_of(s.game),
        placement_len(s, o) == 4 ==> s.outcome_commands(o)[2] == Command::Event(
            EVENT_COMBO,
            s.game.combo as u32,
        ),
{
}

/// A drop in a running game releases the carried slab first, then plays the
/// drop sound; while paused it does nothing; after a topple it restarts.
pub proof fn lemma_drop_action_order(s: SessionView, micros: u64)
    ensures
        s.playing() && s.game.carrying() ==> s.drop_action(micros).1 == seq![
            Command::Release,
            Command::Sfx(SFX_DROP),
        ],
        s.playing() && !s.game.carrying() ==> s.drop_action(micros).1 == seq![
            Command::Sfx(SFX_DROP),
        ],
        s.playing() ==> s.drop_action(micros).0.paused == s.paused,
        s.game.game_over ==> s.drop_action(micros).1[0] == Command::StopSfx && s.drop_action(
            micros,
        ).0.game == GameView::fresh(mixed_seed(micros)),
{
}

} // verus!
