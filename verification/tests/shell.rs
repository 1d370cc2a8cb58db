use tower_builder::game::{Contact, StepOutcome};
use tower_builder::session::{
    run, Burst, Command, Key, EVENT_COMBO, EVENT_PERFECT, OVERLAY_GAMEOVER, OVERLAY_NONE,
    OVERLAY_PAUSED, SFX_DROP, SFX_GAMEOVER, SFX_LEVEL, SFX_LOCK, SFX_ROTATE,
};
use tower_builder::{game_event, seed_now, set_overlay, sfx, stop_sfx, Session};

fn boot() -> Session {
    let (s, cmds) = run(1_000_000);
    assert_eq!(cmds, vec![Command::Hud { score: 0, floor: 0, target: 4 }, Command::Building(0)]);
    s
}

/// Drops and lands a slab with `contact`, returning the step's outcome and
/// feedback.
fn place(s: &mut Session, contact: Contact) -> (StepOutcome, Vec<Command>) {
    s.drop_action(0);
    s.advance(Some(contact))
}

#[test]
fn bridge_commands() {
    assert_eq!(sfx(6), Command::Sfx(6));
    assert_eq!(stop_sfx(), Command::StopSfx);
    assert_eq!(set_overlay(2), Command::Overlay(2));
    assert_eq!(game_event(1, 3), Command::Event(1, 3));
}

#[test]
fn run_seeds_from_the_clock() {
    let s = boot();
    assert!(s.playing());
    assert!(!s.paused());
    assert_eq!(s.game().score(), 0);
    assert_eq!(seed_now(0), 16294208416658607535);
    assert_eq!(seed_now(1_000_000), 7497680628364559847);
}

#[test]
fn space_drops_with_sound() {
    let mut s = boot();
    let cmds = s.on_key(Key::Space, false, 0);
    assert_eq!(cmds, vec![Command::Release, Command::Sfx(SFX_DROP)]);
    assert!(s.game().is_falling());
    // A second drop while falling still plays the sound but releases nothing.
    let cmds = s.on_key(Key::Space, false, 0);
    assert_eq!(cmds, vec![Command::Sfx(SFX_DROP)]);
}

#[test]
fn repeated_space_does_nothing() {
    let mut s = boot();
    assert!(s.on_key(Key::Space, true, 0).is_empty());
    assert!(!s.game().is_falling());
    assert!(s.on_key(Key::Other, false, 0).is_empty());
}

#[test]
fn pause_toggles_and_freezes() {
    let mut s = boot();
    assert_eq!(s.on_key(Key::P, false, 0), vec![Command::Overlay(OVERLAY_PAUSED)]);
    assert!(s.paused() && !s.playing());
    assert!(s.drop_action(0).is_empty());
    assert!(!s.game().is_falling());
    let (o, cmds) = s.advance(Some(Contact::Aligned));
    assert_eq!(o, StepOutcome::default());
    assert!(cmds.is_empty());
    assert_eq!(s.on_key(Key::P, false, 0), vec![Command::Overlay(OVERLAY_NONE)]);
    assert!(s.playing());
}

#[test]
fn placement_feedback() {
    let mut s = boot();
    let (o, cmds) = place(&mut s, Contact::Aligned);
    assert!(o.perfect);
    assert_eq!(
        cmds,
        vec![
            Command::Burst(Burst::Floor { perfect: true, building: 0 }),
            Command::Sfx(SFX_ROTATE),
            Command::Hud { score: 90, floor: 1, target: 4 },
        ]
    );
    let (_, cmds) = place(&mut s, Contact::Aligned);
    assert_eq!(
        cmds,
        vec![
            Command::Burst(Burst::Floor { perfect: true, building: 0 }),
            Command::Sfx(SFX_ROTATE),
            Command::Event(EVENT_COMBO, 2),
            Command::Hud { score: 220, floor: 2, target: 4 },
        ]
    );
    let (_, cmds) = place(&mut s, Contact::Overlapping);
    assert_eq!(
        cmds,
        vec![
            Command::Burst(Burst::Floor { perfect: false, building: 0 }),
            Command::Sfx(SFX_LOCK),
            Command::Hud { score: 250, floor: 3, target: 4 },
        ]
    );
}

#[test]
fn building_done_feedback() {
    let mut s = boot();
    for _ in 0..3 {
        place(&mut s, Contact::Overlapping);
    }
    let (o, cmds) = place(&mut s, Contact::Overlapping);
    assert!(o.building_done);
    assert_eq!(
        cmds,
        vec![
            Command::Burst(Burst::Floor { perfect: false, building: 1 }),
            Command::Sfx(SFX_LOCK),
            Command::Hud { score: 90 + 30 * 3 + 2000, floor: 0, target: 5 },
            Command::Burst(Burst::Celebration),
            Command::Event(EVENT_PERFECT, 0),
            Command::Sfx(SFX_LEVEL),
            Command::Building(1),
        ]
    );
}

#[test]
fn topple_reported_once_then_any_key_restarts() {
    let mut s = boot();
    place(&mut s, Contact::Aligned);
    let (o, cmds) = place(&mut s, Contact::Missed);
    assert!(o.game_over);
    assert_eq!(cmds, vec![Command::Sfx(SFX_GAMEOVER), Command::Overlay(OVERLAY_GAMEOVER)]);
    assert!(!s.playing());
    let (o, cmds) = s.advance(None);
    assert_eq!(o, StepOutcome::default());
    assert!(cmds.is_empty());
    // P during game over is "any key".
    let cmds = s.on_key(Key::P, false, 5);
    assert_eq!(cmds[0], Command::StopSfx);
    assert_eq!(
        cmds,
        vec![
            Command::StopSfx,
            Command::NewGame,
            Command::Overlay(OVERLAY_NONE),
            Command::Hud { score: 0, floor: 0, target: 4 },
            Command::Building(0),
        ]
    );
    assert!(s.playing());
    assert_eq!(s.game().score(), 0);
}

#[test]
fn click_after_topple_restarts() {
    let mut s = boot();
    place(&mut s, Contact::Aligned);
    place(&mut s, Contact::Missed);
    let cmds = s.drop_action(9);
    assert_eq!(cmds[1], Command::NewGame);
    assert!(!s.game().game_over());
    assert!(!s.game().is_falling());
}

#[test]
fn tap_drops_drag_does_not() {
    let mut s = boot();
    s.touch_started(7);
    assert!(!s.touch_moved(8, true));
    assert!(s.touch_moved(7, false));
    let cmds = s.touch_ended(7, false, 0);
    assert_eq!(cmds, vec![Command::Release, Command::Sfx(SFX_DROP)]);

    let mut s = boot();
    s.touch_started(3);
    assert!(s.touch_moved(3, true));
    assert!(s.touch_ended(3, false, 0).is_empty());
    assert!(!s.game().is_falling());

    let mut s = boot();
    s.touch_started(3);
    assert!(s.touch_ended(3, true, 0).is_empty());
    assert!(s.touch_ended(4, false, 0).is_empty());
}
