//! Protocol and session logic of a terminal client for a two-player,
//! server-authoritative paddle game.
//!
//! The crate holds no I/O. The frame codec, the event model, the transport's
//! handshake and steady-state rules, the paddle debouncer, the page state
//! machine and the session orchestrator are functions from state and event to
//! next state and action; a driver performs the actions on a real socket, a
//! real terminal and a real clock.

pub mod app;
pub mod auth;
pub mod callback;
pub mod game;
pub mod json;
mod text;
pub mod types;
pub mod ui;
pub mod websocket;
