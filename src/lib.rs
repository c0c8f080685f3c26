//! A two-player Pong simulation on integer pixel coordinates.
//!
//! The match state advances one fixed tick at a time ([`game::PongGame::update`]),
//! and each frame is described as a list of drawing commands
//! ([`game::PongGame::draw`]) that a host renderer carries out.
pub mod config;
pub mod game;
pub mod draw;
pub mod laws;
