//! Recoil compensation engine: the decisions behind a held trigger.
//!
//! The crate holds the sequential logic of the engine: the catalog of games,
//! loadouts and weapons, the selection cursors, the grid navigation, the
//! trigger cooldown tracker, the movement scheduler and the hold session
//! state machine. Nothing here sleeps, locks or touches a device: a caller
//! hands in the shared state, performs the commands that come back and
//! forwards the queued notifications.
//!
//! - [`types`]: the data model, in fixed-point numbers.
//! - [`table`]: the map from identifier to value that the catalog and the
//!   cooldown tracker use.
//! - [`selection`]: following the cursors to a loadout and a weapon.
//! - [`navigation`], [`input`], [`commands`], [`weapon_config`]: what moves
//!   the cursors and edits the settings and the catalog.
//! - [`catalog`]: what a game holds after its key was checked.
//! - [`cooldown`]: the least time between two shots of a weapon.
//! - [`scheduler`], [`recoil`]: a fractional displacement as whole, timed steps.
//! - [`growth`]: how far each round of a sustained burst pulls.
//! - [`session`], [`session_laws`]: a hold of the trigger, pass by pass, and
//!   what holds of every such hold.

pub mod catalog;
pub mod commands;
pub mod cooldown;
pub mod growth;
pub mod input;
pub mod navigation;
pub mod recoil;
pub mod scheduler;
pub mod selection;
pub mod session;
pub mod session_laws;
pub mod table;
pub mod types;
pub mod weapon_config;
