//! Crane-stacker tower builder: the verified game rules.
//!
//! A hook swings a floor slab above a plot; the player drops it and it lands
//! on the tower. Each slab is one floor of a building from a fixed catalog;
//! reaching a building's floor count completes it and the next building
//! starts. This crate holds the rules of that game (scoring, combo, building
//! progression, the random streams, the shell's input and feedback
//! decisions, the cube mesh tables) with their contracts; geometry in
//! floating point, windowing and drawing live in the surrounding application.
pub mod catalog;
pub mod city;
pub mod game;
pub mod mesh;
pub mod rng;
pub mod scenery;
pub mod session;

pub use catalog::{building, BuildingDef, Tint, BUILDING_COUNT};
pub use game::{Contact, Game, Landing, StepOutcome};
pub use rng::seed_now;
pub use session::{game_event, run, set_overlay, sfx, stop_sfx, Command, Key, Session};
