//! The pages of the client: what each shows and how it answers keys.
//!
//! A page owns display and input state only. Drawing is left to the driver;
//! a page says whether it has anything new to draw.

pub mod game;
pub mod game_lobby;
pub mod game_over;
pub mod gamemode;
pub mod host_selector;
pub mod input;
pub mod join_room;
pub mod login;
pub mod nickname_page;
pub mod pages;
pub mod totp;
