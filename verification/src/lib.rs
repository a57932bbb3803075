//! Verified core of a RetroAchievements-to-Discord rich presence bridge:
//! configuration checks, request URLs, presence planning and the idle state machine.

pub mod text;
pub mod config;
pub mod ra_api;
pub mod state;
pub mod discord;
pub mod control;
