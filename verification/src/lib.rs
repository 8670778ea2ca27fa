//! The interaction core of a small menu-and-mission application.
//!
//! Raw input (cursor motion, button down and up, simulation ticks) is routed to
//! whichever screen is active. A screen answers with at most one [`app::AppEvent`],
//! which the top-level [`app::AppState`] then applies to itself. Every handler is a
//! total function on in-memory state, and its contract gives the state afterwards
//! and the answer as functions of the state before.

pub mod app;
pub mod input;
pub mod sounds;
pub mod hover;
pub mod press;
pub mod release;
pub mod update;
pub mod mission;
pub mod menu;
