//! Matchmaking and game coordination for two-player matches on a 3x3 grid.
pub mod client_conn;
pub mod config;
mod draws;
pub mod game;
pub mod game_service;
pub mod join_code;
pub mod messages;
