//! Authoritative simulation core of a small multiplayer arena game.
//!
//! Players steer square avatars around a bounded arena, aim a cannon and fire
//! shots; a spent shot detonates into a blast that kills the players it
//! reaches. The world advances one tick at a time, and every tick is a
//! function of the previous state, the commands applied to it and the spawn
//! points that were drawn for it.
//!
//! All quantities are integers. Positions are kept in thousandths of a pixel
//! so that a shot can travel along any whole-degree heading without drift.

pub mod cannon_shot;
pub mod client;
pub mod commands;
pub mod config;
pub mod controller;
pub mod explosion;
pub mod geometry;
pub mod input;
pub mod invariants;
pub mod laws;
pub mod messages;
pub mod player;
pub mod registry;
pub mod simulation;
pub mod snapshot;
pub mod status;
pub mod trig;
pub mod world;
