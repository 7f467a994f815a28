//! A safe session layer over a single native emulator engine.
//!
//! The engine itself is reached through the [`engine::Engine`] trait. Everything
//! here is the protocol around it: at most one live engine per process, the move
//! from an engine session to a game session when a ROM is loaded, buffers that
//! are sized from what the engine reports before it writes into them, and
//! save-states that can be turned into bytes and back.
//!
//! The sessions are verified for every engine. What they promise is stated
//! over the engine's own calls, so it is as strong as what the engine at hand
//! says of itself, and it holds of one that says nothing.

pub mod action;
pub mod engine;
pub mod game;
pub mod guard;
pub mod record;
pub mod session;
pub mod size;
pub mod state;
pub mod text;
